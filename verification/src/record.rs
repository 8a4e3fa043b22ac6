//! The records handed to the caller, and the context they are made in.
//!
//! Every record has a mathematical view in which text is a sequence of
//! characters; contracts speak of records through these views.

use vstd::prelude::*;
use chrono::NaiveDateTime;

verus! {

/// A date and time of day without a time zone. It is carried from the
/// context into the records and never looked into.
#[verifier::external_type_specification]
#[verifier::external_body]
pub struct ExNaiveDateTime(NaiveDateTime);

/// `NaiveDateTime` is `Copy` and its `clone` is the derived one. Assumed of
/// it: the copy is the same date and time.
pub assume_specification[ <NaiveDateTime as Clone>::clone ](
    time: &NaiveDateTime,
) -> (copy: NaiveDateTime)
    ensures
        copy == *time,
;

/// Where an instruction was found: the transaction, the instruction's place in
/// it, the enclosing instruction if any, the block time and the owning program.
/// The indices are signed so that a sentinel, by convention `-1`, can stand
/// for "not applicable".
#[derive(Clone, Debug, PartialEq, Eq)]
pub struct InstructionContext {
    pub transaction_hash: String,
    pub instruction_index: i16,
    pub parent_index: i16,
    pub timestamp: NaiveDateTime,
    pub program: String,
}

/// Says which operation an instruction performed.
#[derive(Clone, Debug, PartialEq, Eq)]
pub struct InstructionFunction {
    pub transaction_hash: String,
    pub instruction_index: i16,
    pub parent_index: i16,
    pub program: String,
    pub function_name: String,
    pub timestamp: NaiveDateTime,
}

/// One field of an instruction, flattened: its name, its value as text, and
/// the path of the structure it was nested in (empty at the top level).
#[derive(Clone, Debug, PartialEq, Eq)]
pub struct InstructionProperty {
    pub transaction_hash: String,
    pub instruction_index: i16,
    pub parent_index: i16,
    pub key: String,
    pub value: String,
    pub parent_key: String,
    pub timestamp: NaiveDateTime,
}

/// Everything one instruction gives rise to: its function record and its
/// property records, in the order of the field table.
#[derive(Clone, Debug, PartialEq, Eq)]
pub struct InstructionSet {
    pub function: InstructionFunction,
    pub properties: Vec<InstructionProperty>,
}

/// An [`InstructionContext`] with its text as sequences of characters.
pub struct ContextView {
    pub transaction_hash: Seq<char>,
    pub instruction_index: i16,
    pub parent_index: i16,
    pub timestamp: NaiveDateTime,
    pub program: Seq<char>,
}

/// An [`InstructionFunction`] with its text as sequences of characters.
pub struct FunctionView {
    pub transaction_hash: Seq<char>,
    pub instruction_index: i16,
    pub parent_index: i16,
    pub program: Seq<char>,
    pub function_name: Seq<char>,
    pub timestamp: NaiveDateTime,
}

/// An [`InstructionProperty`] with its text as sequences of characters.
pub struct PropertyView {
    pub transaction_hash: Seq<char>,
    pub instruction_index: i16,
    pub parent_index: i16,
    pub key: Seq<char>,
    pub value: Seq<char>,
    pub parent_key: Seq<char>,
    pub timestamp: NaiveDateTime,
}

/// An [`InstructionSet`] as the views of its records.
pub struct SetView {
    pub function: FunctionView,
    pub properties: Seq<PropertyView>,
}

impl View for InstructionContext {
    type V = ContextView;

    open spec fn view(&self) -> ContextView {
        ContextView {
            transaction_hash: self.transaction_hash@,
            instruction_index: self.instruction_index,
            parent_index: self.parent_index,
            timestamp: self.timestamp,
            program: self.program@,
        }
    }
}

impl View for InstructionFunction {
    type V = FunctionView;

    open spec fn view(&self) -> FunctionView {
        FunctionView {
            transaction_hash: self.transaction_hash@,
            instruction_index: self.instruction_index,
            parent_index: self.parent_index,
            program: self.program@,
            function_name: self.function_name@,
            timestamp: self.timestamp,
        }
    }
}

impl View for InstructionProperty {
    type V = PropertyView;

    open spec fn view(&self) -> PropertyView {
        PropertyView {
            transaction_hash: self.transaction_hash@,
            instruction_index: self.instruction_index,
            parent_index: self.parent_index,
            key: self.key@,
            value: self.value@,
            parent_key: self.parent_key@,
            timestamp: self.timestamp,
        }
    }
}

impl View for InstructionSet {
    type V = SetView;

    open spec fn view(&self) -> SetView {
        SetView {
            function: self.function@,
            properties: self.properties@.map_values(|p: InstructionProperty| p@),
        }
    }
}

/// The function record of an instruction found at `context` that performed
/// the operation called `function_name`.
pub open spec fn function_record(context: ContextView, function_name: Seq<char>) -> FunctionView {
    FunctionView {
        transaction_hash: context.transaction_hash,
        instruction_index: context.instruction_index,
        parent_index: context.parent_index,
        program: context.program,
        function_name,
        timestamp: context.timestamp,
    }
}

/// The property record of the field `key`, nested under `parent_key` and
/// written as `value`, of an instruction found at `context`.
pub open spec fn property_record(
    context: ContextView,
    key: Seq<char>,
    value: Seq<char>,
    parent_key: Seq<char>,
) -> PropertyView {
    PropertyView {
        transaction_hash: context.transaction_hash,
        instruction_index: context.instruction_index,
        parent_index: context.parent_index,
        key,
        value,
        parent_key,
        timestamp: context.timestamp,
    }
}

impl InstructionFunction {
    /// Makes the function record for `context` and `function_name`.
    pub fn new(context: &InstructionContext, function_name: &str) -> (record: InstructionFunction)
        ensures
            record@ == function_record(context@, function_name@),
    {
        InstructionFunction {
            transaction_hash: context.transaction_hash.clone(),
            instruction_index: context.instruction_index,
            parent_index: context.parent_index,
            program: context.program.clone(),
            function_name: function_name.to_owned(),
            timestamp: context.timestamp.clone(),
        }
    }
}

impl InstructionProperty {
    /// Makes the property record for `context` and one field.
    pub fn new(
        context: &InstructionContext,
        key: &str,
        value: String,
        parent_key: &str,
    ) -> (record: InstructionProperty)
        ensures
            record@ == property_record(context@, key@, value@, parent_key@),
    {
        InstructionProperty {
            transaction_hash: context.transaction_hash.clone(),
            instruction_index: context.instruction_index,
            parent_index: context.parent_index,
            key: key.to_owned(),
            value,
            parent_key: parent_key.to_owned(),
            timestamp: context.timestamp.clone(),
        }
    }
}

} // verus!
