//! From an instruction payload to its records.
//!
//! A payload is decoded, and the decoded instruction is projected: one
//! function record that names the operation, and one property record for each
//! entry of the operation's field table. Nothing is kept between calls.

use vstd::prelude::*;
use crate::codec::decode;
use crate::codec::is_well_formed;
use crate::codec::unpacked;
use crate::instruction::DecodedInstruction;
use crate::instruction::DecodedReserveConfig;
use crate::instruction::InstructionKind;
use crate::instruction::KIND_COUNT;
use crate::record::function_record;
use crate::record::property_record;
use crate::record::ContextView;
use crate::record::InstructionContext;
use crate::record::InstructionFunction;
use crate::record::InstructionProperty;
use crate::record::InstructionSet;
use crate::record::PropertyView;
use crate::record::SetView;
use crate::text::render;
use crate::text::rendered;

verus! {

/// The property record of the `index`-th field of `instruction`.
pub open spec fn projected_property(
    context: ContextView,
    instruction: DecodedInstruction,
    index: int,
) -> PropertyView {
    let path = instruction.spec_kind().spec_field_paths()[index];
    property_record(
        context,
        path.key@,
        rendered(instruction.spec_field_values()[index]),
        path.parent_key@,
    )
}

/// The records that `instruction`, found at `context`, gives rise to.
pub open spec fn projection(context: ContextView, instruction: DecodedInstruction) -> SetView {
    SetView {
        function: function_record(context, instruction.spec_kind().spec_function_name()@),
        properties: Seq::new(
            instruction.spec_kind().spec_field_paths().len(),
            |index: int| projected_property(context, instruction, index),
        ),
    }
}

/// The records that the payload `data`, found at `context`, gives rise to;
/// `None` where the payload does not decode.
pub open spec fn outcome(context: ContextView, data: Seq<u8>) -> Option<SetView> {
    match unpacked(data) {
        Some(instruction) => Some(projection(context, instruction)),
        None => None,
    }
}

/// `set` is recorded as the operation `kind`: it bears that operation's name
/// and has, entry by entry, the keys and parent keys of its field table.
pub open spec fn follows_table(set: SetView, kind: InstructionKind) -> bool {
    &&& set.function.function_name == kind.spec_function_name()@
    &&& set.properties.len() == kind.spec_field_paths().len()
    &&& forall|index: int|
        0 <= index < set.properties.len() ==> {
            &&& (#[trigger] set.properties[index]).key == kind.spec_field_paths()[index].key@
            &&& set.properties[index].parent_key == kind.spec_field_paths()[index].parent_key@
        }
}

/// Every record of `set` repeats the transaction hash, the two indices and
/// the timestamp of `context`; the function record also repeats the program.
pub open spec fn echoes_context(set: SetView, context: ContextView) -> bool {
    &&& set.function.transaction_hash == context.transaction_hash
    &&& set.function.instruction_index == context.instruction_index
    &&& set.function.parent_index == context.parent_index
    &&& set.function.timestamp == context.timestamp
    &&& set.function.program == context.program
    &&& forall|index: int|
        0 <= index < set.properties.len() ==> {
            &&& (#[trigger] set.properties[index]).transaction_hash == context.transaction_hash
            &&& set.properties[index].instruction_index == context.instruction_index
            &&& set.properties[index].parent_index == context.parent_index
            &&& set.properties[index].timestamp == context.timestamp
        }
}

/// An instruction has exactly one value for each entry of its kind's field
/// table.
pub proof fn lemma_one_value_per_path(instruction: DecodedInstruction)
    ensures
        instruction.spec_field_values().len() == instruction.spec_kind().spec_field_paths().len(),
{
}

/// Whatever the instruction and the context, the projection is recorded as
/// the instruction's kind: it bears the kind's function name and has the keys
/// and parent keys of the kind's field table, in the table's order.
pub proof fn lemma_projection_follows_table(context: ContextView, instruction: DecodedInstruction)
    ensures
        follows_table(projection(context, instruction), instruction.spec_kind()),
{
}

/// Whatever the instruction and the context, every record of the projection
/// repeats the context.
pub proof fn lemma_projection_echoes_context(context: ContextView, instruction: DecodedInstruction)
    ensures
        echoes_context(projection(context, instruction), context),
{
}

/// Projects a decoded instruction into its records.
pub fn project(
    context: &InstructionContext,
    instruction: &DecodedInstruction,
) -> (set: InstructionSet)
    ensures
        set@ == projection(context@, *instruction),
        follows_table(set@, instruction.spec_kind()),
        echoes_context(set@, context@),
{
    let kind = instruction.kind();
    let paths = kind.field_paths();
    let values = instruction.field_values();
    proof {
        lemma_one_value_per_path(*instruction);
    }
    let mut properties: Vec<InstructionProperty> = Vec::new();
    let mut index: usize = 0;
    while index < paths.len()
        invariant
            index <= paths.len(),
            paths@ == instruction.spec_kind().spec_field_paths(),
            values@ == instruction.spec_field_values(),
            values.len() == paths.len(),
            properties.len() == index,
            forall|done: int|
                0 <= done < index ==> (#[trigger] properties@[done])@ == projected_property(
                    context@,
                    *instruction,
                    done,
                ),
        decreases paths.len() - index,
    {
        let value = render(&values[index]);
        let property = InstructionProperty::new(
            context,
            paths[index].key,
            value,
            paths[index].parent_key,
        );
        properties.push(property);
        index += 1;
    }
    let function = InstructionFunction::new(context, kind.function_name());
    let set = InstructionSet { function, properties };
    proof {
        assert(set@.properties =~= projection(context@, *instruction).properties);
        lemma_projection_follows_table(context@, *instruction);
        lemma_projection_echoes_context(context@, *instruction);
    }
    set
}

/// Decodes the payload `data` of an instruction found at `context` and
/// projects it into its records.
///
/// A payload that is not well formed gives `None`, and no record at all: so
/// an empty payload, one that starts with a byte that is no tag, and one
/// whose fields are cut short. A well-formed payload gives the records of
/// the instruction it decodes to, which are those of the operation that its
/// first byte announces.
pub fn process_native_token_lending_instruction(
    context: &InstructionContext,
    data: &[u8],
) -> (result: Option<InstructionSet>)
    ensures
        match result {
            Some(set) => outcome(context@, data@) == Some(set@),
            None => outcome(context@, data@) is None,
        },
        result is Some <==> is_well_formed(data@),
        result matches Some(set) ==> {
            &&& InstructionKind::of_wire_tag(data@[0]) matches Some(kind)
            &&& follows_table(set@, kind)
            &&& echoes_context(set@, context@)
        },
        data@.len() == 0 || data@[0] >= KIND_COUNT ==> result is None,
{
    match decode(data) {
        Ok(instruction) => Some(project(context, &instruction)),
        Err(_) => None,
    }
}

/// Processing is repeatable: what it returns for a context and a payload is
/// `outcome` of the two, so two results for the same context and payload are
/// both `None`, or hold the same records, character for character.
pub proof fn lemma_same_input_same_records(
    context: InstructionContext,
    data: Seq<u8>,
    first: Option<InstructionSet>,
    second: Option<InstructionSet>,
)
    requires
        match first {
            Some(set) => outcome(context@, data) == Some(set@),
            None => outcome(context@, data) is None,
        },
        match second {
            Some(set) => outcome(context@, data) == Some(set@),
            None => outcome(context@, data) is None,
        },
    ensures
        first is None <==> second is None,
        first is Some ==> first->0@ == second->0@,
{
}

/// The layout of a new reserve's records: ten properties, the first of them
/// the top-level `liquidity_amount`, the other nine taken from the nested
/// configuration. Of the three fee fields, `flash_loan_fee_wad` is recorded
/// under `fees`, its two siblings under `config/fees`; the six rates are
/// recorded under `config`.
pub proof fn lemma_init_reserve_layout(
    context: ContextView,
    liquidity_amount: u64,
    config: DecodedReserveConfig,
)
    ensures
        ({
            let properties = projection(
                context,
                DecodedInstruction::InitReserve { liquidity_amount, config },
            ).properties;
            &&& properties.len() == 10
            &&& properties[0].key == "liquidity_amount"@
            &&& properties[0].parent_key.len() == 0
            &&& forall|index: int|
                1 <= index < 10 ==> (#[trigger] properties[index]).parent_key.len() > 0
            &&& properties[1].key == "flash_loan_fee_wad"@
            &&& properties[1].parent_key == "fees"@
            &&& properties[2].key == "borrow_fee_wad"@
            &&& properties[2].parent_key == "config/fees"@
            &&& properties[3].key == "host_fee_percentage"@
            &&& properties[3].parent_key == "config/fees"@
            &&& forall|index: int|
                4 <= index < 10 ==> (#[trigger] properties[index]).parent_key == "config"@
            &&& "fees"@ != "config/fees"@
        }),
{
    reveal_strlit("");
    reveal_strlit("fees");
    reveal_strlit("config/fees");
    reveal_strlit("config");
}

} // verus!
