//! Walking a module top-down: from the module to a pattern, from a pattern
//! to a row, from a row to a cell, from a cell to its command fields.
//!
//! A pattern, a row and a cell own nothing. Each is an index and a borrow
//! of the step above it, so none can outlive the module it looks into.
//! The module never changes while it is borrowed, so what was true of an
//! index when it was taken stays true: a row lies in its pattern, a cell
//! in a channel of the module.

use crate::module::model::{CellView, PatternView, RowView};
use crate::module::Module;
use vstd::prelude::*;

verus! {

/// One of the six fields that make up the command stored in a cell.
///
/// The set is closed: the playback engine defines exactly these six.
#[derive(Clone, Copy, Debug, PartialEq, Eq, Structural)]
pub enum ModuleCommandIndex {
    Note,
    Instrument,
    VolumeEffect,
    Effect,
    Volume,
    Parameter,
}

impl ModuleCommandIndex {
    /// The code by which the playback engine knows this field.
    pub open spec fn code(self) -> int {
        match self {
            ModuleCommandIndex::Note => 0,
            ModuleCommandIndex::Instrument => 1,
            ModuleCommandIndex::VolumeEffect => 2,
            ModuleCommandIndex::Effect => 3,
            ModuleCommandIndex::Volume => 4,
            ModuleCommandIndex::Parameter => 5,
        }
    }

    /// Returns the engine's code of this field.
    pub fn value(&self) -> (code: i32)
        ensures
            code == self.code(),
            0 <= code <= 5,
    {
        match *self {
            ModuleCommandIndex::Note => 0,
            ModuleCommandIndex::Instrument => 1,
            ModuleCommandIndex::VolumeEffect => 2,
            ModuleCommandIndex::Effect => 3,
            ModuleCommandIndex::Volume => 4,
            ModuleCommandIndex::Parameter => 5,
        }
    }
}

/// One pattern of a module.
pub struct Pattern<'m> {
    module: &'m Module,
    num: i32,
}

/// One row of a pattern.
pub struct Row<'m> {
    pattern: &'m Pattern<'m>,
    num: i32,
}

/// One channel's cell in a row.
pub struct Cell<'m> {
    row: &'m Row<'m>,
    channel_num: i32,
}

impl<'m> View for Pattern<'m> {
    type V = PatternView;

    closed spec fn view(&self) -> PatternView {
        PatternView { module: self.module@, num: self.num as int }
    }
}

impl<'m> View for Row<'m> {
    type V = RowView;

    closed spec fn view(&self) -> RowView {
        RowView { pattern: self.pattern@, num: self.num as int }
    }
}

impl<'m> View for Cell<'m> {
    type V = CellView;

    closed spec fn view(&self) -> CellView {
        CellView { row: self.row@, channel_num: self.channel_num as int }
    }
}

impl Module {
    /// The pattern played at a position of the play order.
    ///
    /// There is none where the position holds a negative index (it is
    /// skipped, or playback stops there) or lies outside the play order.
    /// Any other index found there is taken as it is, also where the
    /// module has no pattern of that index: such a pattern has no rows.
    pub fn get_pattern_by_order(&self, order_num: i32) -> (res: Option<Pattern<'_>>)
        ensures
            match res {
                Some(pattern) => self@.pattern_by_order(order_num as int) == Some(pattern@),
                None => self@.pattern_by_order(order_num as int) is None,
            },
            res is Some <==> self@.order_pattern(order_num as int) >= 0,
            order_num < 0 || order_num >= self@.num_orders() ==> res is None,
    {
        proof {
            use_type_invariant(self);
        }
        let pattern_num = self.get_order_pattern(order_num);
        if pattern_num < 0 {
            None
        } else {
            Some(Pattern { num: pattern_num, module: self })
        }
    }

    /// The pattern with the given index, if the module has one.
    pub fn get_pattern_by_number(&self, pattern_num: i32) -> (res: Option<Pattern<'_>>)
        ensures
            match res {
                Some(pattern) => self@.pattern_by_number(pattern_num as int) == Some(pattern@),
                None => self@.pattern_by_number(pattern_num as int) is None,
            },
            res is Some <==> 0 <= pattern_num < self@.num_patterns(),
    {
        proof {
            use_type_invariant(self);
        }
        if pattern_num < 0 || pattern_num >= self.get_num_patterns() {
            None
        } else {
            Some(Pattern { num: pattern_num, module: self })
        }
    }
}

impl<'m> Pattern<'m> {
    /// Holds of every value of this type.
    #[verifier::type_invariant]
    pub open spec fn well_formed(&self) -> bool {
        self@.wf()
    }

    /// The index of this pattern.
    pub fn get_num(&self) -> (num: i32)
        ensures
            num == self@.num,
    {
        self.num
    }

    /// The number of rows of this pattern, read from the module at each
    /// call. A pattern that reports 0 rows does not exist in the module.
    pub fn get_num_rows(&self) -> (n: i32)
        ensures
            n == self@.num_rows(),
            n >= 0,
    {
        self.module.get_pattern_num_rows(self.num)
    }

    /// The row with the given index, if the pattern has one.
    ///
    /// To ask a pattern without rows for a row is a fault of the caller:
    /// such a pattern does not exist.
    pub fn get_row_by_number(&'m self, row_num: i32) -> (res: Option<Row<'m>>)
        requires
            self@.num_rows() != 0,
        ensures
            match res {
                Some(row) => self@.row_by_number(row_num as int) == Some(row@),
                None => self@.row_by_number(row_num as int) is None,
            },
            res is Some <==> 0 <= row_num < self@.num_rows(),
    {
        proof {
            use_type_invariant(self);
        }
        let pattern_num_rows = self.get_num_rows();
        if row_num < 0 || row_num >= pattern_num_rows {
            None
        } else {
            Some(Row { num: row_num, pattern: self })
        }
    }
}

impl<'m> Row<'m> {
    /// Holds of every value of this type.
    #[verifier::type_invariant]
    pub open spec fn well_formed(&self) -> bool {
        self@.wf()
    }

    /// The index of this row in its pattern.
    pub fn get_num(&self) -> (num: i32)
        ensures
            num == self@.num,
    {
        self.num
    }

    /// The cell of the given channel, if the module has that channel.
    ///
    /// The row still lies in its pattern, as it did when it was taken:
    /// there is nothing for the caller to see to.
    pub fn get_cell_by_channel(&'m self, channel_num: i32) -> (res: Option<Cell<'m>>)
        ensures
            match res {
                Some(cell) => self@.cell_by_channel(channel_num as int) == Some(cell@),
                None => self@.cell_by_channel(channel_num as int) is None,
            },
            res is Some <==> 0 <= channel_num < self@.pattern.module.num_channels,
            0 <= self@.num < self@.pattern.num_rows(),
    {
        proof {
            use_type_invariant(self);
        }
        let num_channels = self.pattern.module.get_num_channels();
        if channel_num < 0 || channel_num >= num_channels {
            None
        } else {
            Some(Cell { row: self, channel_num: channel_num })
        }
    }
}

impl<'m> Cell<'m> {
    /// Holds of every value of this type.
    #[verifier::type_invariant]
    pub open spec fn well_formed(&self) -> bool {
        self@.wf()
    }

    /// The index of the pattern that this cell lies in.
    pub fn get_pattern_num(&self) -> (num: i32)
        ensures
            num == self@.row.pattern.num,
    {
        self.row.pattern.num
    }

    /// The index of the row that this cell lies in.
    pub fn get_row_num(&self) -> (num: i32)
        ensures
            num == self@.row.num,
    {
        self.row.num
    }

    /// The index of this cell's channel.
    pub fn get_channel_num(&self) -> (num: i32)
        ensures
            num == self@.channel_num,
    {
        self.channel_num
    }

    /// The command of this cell, made by `new_command` of the cell's six
    /// raw bytes.
    ///
    /// The constructor is handed the bytes of note, instrument, volume
    /// effect, effect, volume and parameter, in this order, and what it
    /// returns is returned as it is: the command where it accepts the six
    /// bytes, its error where it does not. Which bytes make a command is
    /// for the constructor alone to say.
    pub fn get_data<C, F: Fn(u8, u8, u8, u8, u8, u8) -> Result<C, String>>(
        &self,
        new_command: F,
    ) -> (res: Result<C, String>)
        requires
            call_requires(new_command, self@.raw_fields()),
        ensures
            call_ensures(new_command, self@.raw_fields(), res),
    {
        new_command(
            self.get_data_by_command(ModuleCommandIndex::Note),
            self.get_data_by_command(ModuleCommandIndex::Instrument),
            self.get_data_by_command(ModuleCommandIndex::VolumeEffect),
            self.get_data_by_command(ModuleCommandIndex::Effect),
            self.get_data_by_command(ModuleCommandIndex::Volume),
            self.get_data_by_command(ModuleCommandIndex::Parameter),
        )
    }

    /// The raw byte of one command field of this cell.
    pub fn get_data_by_command(&self, command: ModuleCommandIndex) -> (byte: u8)
        ensures
            byte == self@.field(command),
    {
        self.row.pattern.module.get_pattern_row_channel_command(
            self.row.pattern.num,
            self.row.num,
            self.channel_num,
            command.value(),
        )
    }

    /// The readable text of the whole cell, all fields together, as the
    /// playback engine renders it: at most `width` characters (0: no
    /// limit) and, with `pad`, exactly `width`.
    ///
    /// The text is the engine's to write. `format` is the engine's
    /// rendering of a cell: it is handed the pattern, the row, the channel,
    /// the width and 1 or 0 for `pad`, and its text is returned as it is.
    pub fn get_formatted<F: Fn(i32, i32, i32, usize, i32) -> String>(
        &self,
        width: usize,
        pad: bool,
        format: F,
    ) -> (text: String)
        requires
            call_requires(format, self@.cell_query(width, pad)),
        ensures
            call_ensures(format, self@.cell_query(width, pad), text),
    {
        format(self.row.pattern.num, self.row.num, self.channel_num, width, pad_flag(pad))
    }

    /// The readable text of one command field of this cell, as the
    /// playback engine renders it.
    ///
    /// `format` is the engine's rendering of a field: it is handed the
    /// pattern, the row, the channel and the field's code, and its text is
    /// returned as it is.
    pub fn get_formatted_by_command<F: Fn(i32, i32, i32, i32) -> String>(
        &self,
        command: ModuleCommandIndex,
        format: F,
    ) -> (text: String)
        requires
            call_requires(format, self@.field_query(command)),
        ensures
            call_ensures(format, self@.field_query(command), text),
    {
        format(self.row.pattern.num, self.row.num, self.channel_num, command.value())
    }

    /// The highlighting of the whole cell: a text that says, character by
    /// character, how the text of `get_formatted` with the same `width`
    /// and `pad` is to be emphasised.
    ///
    /// `highlight` is the engine's highlighting of a cell: it is handed
    /// what `get_formatted` hands to the rendering, and its text is
    /// returned as it is.
    pub fn get_highlight<F: Fn(i32, i32, i32, usize, i32) -> String>(
        &self,
        width: usize,
        pad: bool,
        highlight: F,
    ) -> (text: String)
        requires
            call_requires(highlight, self@.cell_query(width, pad)),
        ensures
            call_ensures(highlight, self@.cell_query(width, pad), text),
    {
        highlight(self.row.pattern.num, self.row.num, self.channel_num, width, pad_flag(pad))
    }

    /// The highlighting of one command field of this cell.
    ///
    /// `highlight` is the engine's highlighting of a field: it is handed
    /// what `get_formatted_by_command` hands to the rendering, and its
    /// text is returned as it is.
    pub fn get_highlight_by_command<F: Fn(i32, i32, i32, i32) -> String>(
        &self,
        command: ModuleCommandIndex,
        highlight: F,
    ) -> (text: String)
        requires
            call_requires(highlight, self@.field_query(command)),
        ensures
            call_ensures(highlight, self@.field_query(command), text),
    {
        highlight(self.row.pattern.num, self.row.num, self.channel_num, command.value())
    }
}

/// The number by which the engine is told whether to pad a text: 1 to pad,
/// 0 not to.
fn pad_flag(pad: bool) -> (flag: i32)
    ensures
        flag == CellView::pad_flag(pad),
{
    if pad {
        1
    } else {
        0
    }
}

} // verus!
