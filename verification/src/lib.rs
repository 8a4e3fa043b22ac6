//! Records for instructions of the token-lending program.
//!
//! An instruction arrives as an opaque payload with the context it was found
//! in. It is decoded by the lending program's own decoder and then flattened:
//! one [`InstructionFunction`] that names the operation, and one
//! [`InstructionProperty`] for each field of it, with the path of the
//! structure the field was nested in.

pub mod codec;
pub mod instruction;
pub mod projector;
pub mod record;
pub mod schema;
pub mod text;

pub use codec::decode;
pub use codec::DecodeError;
pub use instruction::DecodedInstruction;
pub use instruction::DecodedReserveConfig;
pub use instruction::DecodedReserveFees;
pub use instruction::FieldValue;
pub use instruction::InstructionKind;
pub use projector::process_native_token_lending_instruction;
pub use projector::project;
pub use record::InstructionContext;
pub use record::InstructionFunction;
pub use record::InstructionProperty;
pub use record::InstructionSet;
pub use schema::FieldPath;
