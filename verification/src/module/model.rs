//! The mathematical model of a loaded module and of the positions in it.
//!
//! A module is a play order (a sequence of pattern indices) and a list of
//! patterns; a pattern is a grid of rows by channels; each cell of the grid
//! holds six raw command bytes. A pattern, a row and a cell are positions in
//! that data: the module together with one, two or three indices.

use crate::module::error::ModuleError;
use crate::module::iteration::ModuleCommandIndex;
use vstd::prelude::*;

verus! {

/// How many command fields a cell holds.
pub const COMMAND_FIELDS: usize = 6;

/// The pattern index that stands at every order position outside the play
/// order: being negative, it names no pattern.
pub const NO_PATTERN: i32 = -1;

/// The content of a loaded module, as far as navigation reads it.
pub struct ModuleView {
    pub num_channels: int,
    pub num_instruments: int,
    pub num_samples: int,
    pub num_subsongs: int,
    /// The pattern index at each position of the play order. A negative
    /// entry marks a position that plays no pattern (a skip or a stop).
    pub orders: Seq<i32>,
    /// `patterns[p][r][c]` are the raw command bytes of channel `c` in row
    /// `r` of pattern `p`, indexed by field code.
    pub patterns: Seq<Seq<Seq<Seq<u8>>>>,
}

impl ModuleView {
    /// Every count and every length is one the engine's 32-bit signed
    /// counts can express.
    pub open spec fn counts_in_range(self) -> bool {
        &&& 0 <= self.num_channels <= i32::MAX
        &&& 0 <= self.num_instruments <= i32::MAX
        &&& 0 <= self.num_samples <= i32::MAX
        &&& 0 <= self.num_subsongs <= i32::MAX
        &&& self.orders.len() <= i32::MAX
        &&& self.patterns.len() <= i32::MAX
        &&& forall|p: int|
            0 <= p < self.patterns.len() ==> (#[trigger] self.patterns[p]).len() <= i32::MAX
    }

    /// Every row of every pattern has one cell per channel, and every cell
    /// has one byte per command field.
    pub open spec fn grid_is_regular(self) -> bool {
        &&& forall|p: int, r: int|
            0 <= p < self.patterns.len() && 0 <= r < self.patterns[p].len() ==> (
            #[trigger] self.patterns[p][r]).len() == self.num_channels
        &&& forall|p: int, r: int, c: int|
            0 <= p < self.patterns.len() && 0 <= r < self.patterns[p].len() && 0 <= c
                < self.patterns[p][r].len() ==> (#[trigger] self.patterns[p][r][c]).len()
                == COMMAND_FIELDS
    }

    /// The module is one that an engine can have loaded.
    pub open spec fn wf(self) -> bool {
        &&& self.counts_in_range()
        &&& self.grid_is_regular()
    }

    /// The fault for which a module of this content is turned down, if
    /// there is one. Counts are held to their range before the rows are
    /// held to the number of channels.
    pub open spec fn defect(self) -> Option<ModuleError> {
        if !self.counts_in_range() {
            Some(ModuleError::CountOutOfRange)
        } else if !self.grid_is_regular() {
            Some(ModuleError::RowWidthMismatch)
        } else {
            None
        }
    }

    /// The number of patterns.
    pub open spec fn num_patterns(self) -> int {
        self.patterns.len() as int
    }

    /// The number of positions in the play order.
    pub open spec fn num_orders(self) -> int {
        self.orders.len() as int
    }

    /// The pattern index at an order position; `NO_PATTERN` outside the
    /// play order.
    pub open spec fn order_pattern(self, order: int) -> int {
        if 0 <= order < self.orders.len() {
            self.orders[order] as int
        } else {
            NO_PATTERN as int
        }
    }

    /// The number of rows of a pattern; 0 where the pattern does not exist.
    pub open spec fn pattern_num_rows(self, pattern: int) -> int {
        if 0 <= pattern < self.patterns.len() {
            self.patterns[pattern].len() as int
        } else {
            0
        }
    }

    /// Whether the module holds a cell at these coordinates.
    pub open spec fn has_cell(self, pattern: int, row: int, channel: int) -> bool {
        &&& 0 <= pattern < self.patterns.len()
        &&& 0 <= row < self.patterns[pattern].len()
        &&& 0 <= channel < self.patterns[pattern][row].len()
    }

    /// The raw byte of one command field of one cell; 0 where the module
    /// holds no such cell or the code names no field.
    pub open spec fn command(self, pattern: int, row: int, channel: int, code: int) -> u8 {
        if self.has_cell(pattern, row, channel) && 0 <= code
            < self.patterns[pattern][row][channel].len() {
            self.patterns[pattern][row][channel][code]
        } else {
            0
        }
    }

    /// The pattern played at an order position: none where the play order
    /// holds a negative index there or the position lies outside it.
    /// The index found is not held against the number of patterns.
    pub open spec fn pattern_by_order(self, order: int) -> Option<PatternView> {
        if self.order_pattern(order) < 0 {
            None
        } else {
            Some(PatternView { module: self, num: self.order_pattern(order) })
        }
    }

    /// The pattern with a given index: none unless the index lies in
    /// `[0, num_patterns)`.
    pub open spec fn pattern_by_number(self, pattern: int) -> Option<PatternView> {
        if 0 <= pattern < self.num_patterns() {
            Some(PatternView { module: self, num: pattern })
        } else {
            None
        }
    }
}

/// One pattern of a module: the module and the pattern's index.
pub struct PatternView {
    pub module: ModuleView,
    pub num: int,
}

impl PatternView {
    /// The module is well formed and the index is not negative. The index
    /// need not be one of a pattern that the module holds.
    pub open spec fn wf(self) -> bool {
        &&& self.module.wf()
        &&& 0 <= self.num <= i32::MAX
    }

    /// The number of rows; 0 where the module holds no pattern of this index.
    pub open spec fn num_rows(self) -> int {
        self.module.pattern_num_rows(self.num)
    }

    /// The row with a given index: none unless the index lies in
    /// `[0, num_rows)`.
    pub open spec fn row_by_number(self, row: int) -> Option<RowView> {
        if 0 <= row < self.num_rows() {
            Some(RowView { pattern: self, num: row })
        } else {
            None
        }
    }
}

/// One row of a pattern: the pattern and the row's index.
pub struct RowView {
    pub pattern: PatternView,
    pub num: int,
}

impl RowView {
    /// The pattern is well formed and the row is one of its rows.
    pub open spec fn wf(self) -> bool {
        &&& self.pattern.wf()
        &&& 0 <= self.num < self.pattern.num_rows()
    }

    /// The cell of a given channel: none unless the channel lies in
    /// `[0, num_channels)`.
    pub open spec fn cell_by_channel(self, channel: int) -> Option<CellView> {
        if 0 <= channel < self.pattern.module.num_channels {
            Some(CellView { row: self, channel_num: channel })
        } else {
            None
        }
    }
}

/// One cell of a row: the row and the channel's index.
pub struct CellView {
    pub row: RowView,
    pub channel_num: int,
}

impl CellView {
    /// The row is well formed and the channel is one of the module's.
    pub open spec fn wf(self) -> bool {
        &&& self.row.wf()
        &&& 0 <= self.channel_num < self.row.pattern.module.num_channels
    }

    /// The raw byte of the command field with the given code.
    pub open spec fn command(self, code: int) -> u8 {
        self.row.pattern.module.command(
            self.row.pattern.num,
            self.row.num,
            self.channel_num,
            code,
        )
    }

    /// The raw byte of one command field.
    pub open spec fn field(self, index: ModuleCommandIndex) -> u8 {
        self.command(index.code())
    }

    /// The number that tells the engine whether to pad a text.
    pub open spec fn pad_flag(pad: bool) -> i32 {
        if pad {
            1
        } else {
            0
        }
    }

    /// What the engine is asked for a text of the whole cell: the pattern,
    /// the row, the channel, the width and the flag for padding.
    pub open spec fn cell_query(self, width: usize, pad: bool) -> (i32, i32, i32, usize, i32) {
        (
            self.row.pattern.num as i32,
            self.row.num as i32,
            self.channel_num as i32,
            width,
            Self::pad_flag(pad),
        )
    }

    /// What the engine is asked for a text of one command field: the
    /// pattern, the row, the channel and the field's code.
    pub open spec fn field_query(self, index: ModuleCommandIndex) -> (i32, i32, i32, i32) {
        (
            self.row.pattern.num as i32,
            self.row.num as i32,
            self.channel_num as i32,
            index.code() as i32,
        )
    }

    /// The six raw command bytes in the order of their codes: note,
    /// instrument, volume effect, effect, volume, parameter.
    pub open spec fn raw_fields(self) -> (u8, u8, u8, u8, u8, u8) {
        (
            self.field(ModuleCommandIndex::Note),
            self.field(ModuleCommandIndex::Instrument),
            self.field(ModuleCommandIndex::VolumeEffect),
            self.field(ModuleCommandIndex::Effect),
            self.field(ModuleCommandIndex::Volume),
            self.field(ModuleCommandIndex::Parameter),
        )
    }
}

} // verus!
