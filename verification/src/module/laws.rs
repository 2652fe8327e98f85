//! What holds of navigation across several steps.

use crate::module::iteration::ModuleCommandIndex;
use crate::module::model::{CellView, ModuleView, COMMAND_FIELDS};
use vstd::prelude::*;

verus! {

/// Each of the six fields has a code of its own, from 0 to 5.
pub proof fn lemma_command_codes_are_distinct(a: ModuleCommandIndex, b: ModuleCommandIndex)
    ensures
        0 <= a.code() <= 5,
        a.code() == b.code() <==> a == b,
{
}

/// A pattern found by its index reports the number of rows that the module
/// holds for that index.
pub proof fn lemma_pattern_by_number_num_rows(module: ModuleView, pattern_index: int)
    requires
        0 <= pattern_index < module.num_patterns(),
    ensures
        module.pattern_by_number(pattern_index) matches Some(pattern) && pattern.num_rows()
            == module.pattern_num_rows(pattern_index),
{
}

/// A cell that lies in a channel of the module, in a row of a pattern, lies
/// on the module's grid: each of its fields is a byte that the module
/// holds there, never the 0 that stands for a miss.
pub proof fn lemma_cell_lies_on_the_grid(cell: CellView, index: ModuleCommandIndex)
    requires
        cell.wf(),
    ensures
        cell.row.pattern.module.has_cell(cell.row.pattern.num, cell.row.num, cell.channel_num),
        cell.field(index) == ({
            let rows = cell.row.pattern.module.patterns[cell.row.pattern.num];
            rows[cell.row.num][cell.channel_num][index.code()]
        }),
{
    let module = cell.row.pattern.module;
    let (p, r, c) = (cell.row.pattern.num, cell.row.num, cell.channel_num);
    assert(module.patterns[p][r].len() == module.num_channels);
    assert(module.patterns[p][r][c].len() == COMMAND_FIELDS);
}

/// The six bytes that a cell's command is made of are, field by field, the
/// bytes that the cell returns for the six fields.
pub proof fn lemma_raw_fields_are_the_six_fields(cell: CellView)
    ensures
        cell.raw_fields().0 == cell.field(ModuleCommandIndex::Note),
        cell.raw_fields().1 == cell.field(ModuleCommandIndex::Instrument),
        cell.raw_fields().2 == cell.field(ModuleCommandIndex::VolumeEffect),
        cell.raw_fields().3 == cell.field(ModuleCommandIndex::Effect),
        cell.raw_fields().4 == cell.field(ModuleCommandIndex::Volume),
        cell.raw_fields().5 == cell.field(ModuleCommandIndex::Parameter),
{
}

/// Where a constructor keeps the six bytes it is given, the command that it
/// makes for a cell holds, field by field, the byte that the cell returns
/// for that field.
///
/// `outcome` is what the constructor returned for the cell's six bytes, and
/// `fields_of` reads the six bytes back out of a command.
pub proof fn lemma_assembled_command_holds_the_six_fields<
    C,
    F: Fn(u8, u8, u8, u8, u8, u8) -> Result<C, String>,
>(
    cell: CellView,
    new_command: F,
    fields_of: spec_fn(C) -> (u8, u8, u8, u8, u8, u8),
    outcome: Result<C, String>,
)
    requires
        call_ensures(new_command, cell.raw_fields(), outcome),
        forall|fields: (u8, u8, u8, u8, u8, u8), command: C| #[trigger]
            call_ensures(new_command, fields, Ok(command)) ==> fields_of(command) == fields,
    ensures
        outcome matches Ok(command) ==> {
            &&& fields_of(command).0 == cell.field(ModuleCommandIndex::Note)
            &&& fields_of(command).1 == cell.field(ModuleCommandIndex::Instrument)
            &&& fields_of(command).2 == cell.field(ModuleCommandIndex::VolumeEffect)
            &&& fields_of(command).3 == cell.field(ModuleCommandIndex::Effect)
            &&& fields_of(command).4 == cell.field(ModuleCommandIndex::Volume)
            &&& fields_of(command).5 == cell.field(ModuleCommandIndex::Parameter)
        },
{
}

} // verus!
