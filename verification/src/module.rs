//! The loaded module: its counts, its play order and its pattern data.

pub mod error;
pub mod iteration;
pub mod laws;
pub mod model;

use crate::module::error::ModuleError;
use crate::module::model::{ModuleView, COMMAND_FIELDS, NO_PATTERN};
use vstd::prelude::*;

verus! {

/// The pattern data of one loaded module, held as plain values.
///
/// A value of this type is never changed after it was made, so a pattern,
/// a row or a cell that borrows it stays valid for as long as it lives.
pub struct Module {
    num_channels: i32,
    num_instruments: i32,
    num_samples: i32,
    num_subsongs: i32,
    orders: Vec<i32>,
    patterns: Vec<Vec<Vec<[u8; 6]>>>,
}

impl View for Module {
    type V = ModuleView;

    closed spec fn view(&self) -> ModuleView {
        ModuleView {
            num_channels: self.num_channels as int,
            num_instruments: self.num_instruments as int,
            num_samples: self.num_samples as int,
            num_subsongs: self.num_subsongs as int,
            orders: self.orders@,
            patterns: self.patterns.deep_view(),
        }
    }
}

/// Whether no pattern has more rows than a 32-bit signed count can express.
fn row_counts_in_range(patterns: &Vec<Vec<Vec<[u8; 6]>>>) -> (ok: bool)
    ensures
        ok <==> forall|p: int| 0 <= p < patterns@.len() ==> (#[trigger] patterns@[p])@.len() <= i32::MAX,
{
    let mut p: usize = 0;
    while p < patterns.len()
        invariant
            p <= patterns@.len(),
            forall|i: int| 0 <= i < p ==> (#[trigger] patterns@[i])@.len() <= i32::MAX,
        decreases patterns@.len() - p,
    {
        if patterns[p].len() > i32::MAX as usize {
            return false;
        }
        p += 1;
    }
    true
}

/// Whether every row of one pattern has exactly `width` cells.
fn rows_have_width(rows: &Vec<Vec<[u8; 6]>>, width: usize) -> (ok: bool)
    ensures
        ok <==> forall|r: int| 0 <= r < rows@.len() ==> (#[trigger] rows@[r])@.len() == width,
{
    let mut r: usize = 0;
    while r < rows.len()
        invariant
            r <= rows@.len(),
            forall|i: int| 0 <= i < r ==> (#[trigger] rows@[i])@.len() == width,
        decreases rows@.len() - r,
    {
        if rows[r].len() != width {
            return false;
        }
        r += 1;
    }
    true
}

/// Whether every row of every pattern has exactly `width` cells.
fn patterns_have_width(patterns: &Vec<Vec<Vec<[u8; 6]>>>, width: usize) -> (ok: bool)
    ensures
        ok <==> forall|p: int, r: int|
            0 <= p < patterns@.len() && 0 <= r < patterns@[p]@.len() ==> (
            #[trigger] patterns@[p]@[r])@.len() == width,
{
    let mut p: usize = 0;
    while p < patterns.len()
        invariant
            p <= patterns@.len(),
            forall|i: int, r: int|
                0 <= i < p && 0 <= r < patterns@[i]@.len() ==> (#[trigger] patterns@[i]@[r])@.len()
                    == width,
        decreases patterns@.len() - p,
    {
        if !rows_have_width(&patterns[p], width) {
            return false;
        }
        p += 1;
    }
    true
}

impl Module {
    /// Holds of every value of this type.
    #[verifier::type_invariant]
    pub open spec fn well_formed(&self) -> bool {
        self@.wf()
    }

    /// The content of a module made of the given parts.
    pub open spec fn content(
        num_channels: i32,
        num_instruments: i32,
        num_samples: i32,
        num_subsongs: i32,
        orders: Vec<i32>,
        patterns: Vec<Vec<Vec<[u8; 6]>>>,
    ) -> ModuleView {
        ModuleView {
            num_channels: num_channels as int,
            num_instruments: num_instruments as int,
            num_samples: num_samples as int,
            num_subsongs: num_subsongs as int,
            orders: orders@,
            patterns: patterns.deep_view(),
        }
    }

    /// Makes a module of its parts: the four counts, the pattern index at
    /// each order position (negative for a position that plays none), and
    /// for each pattern its rows, for each row its cells, for each cell its
    /// six raw command bytes by field code.
    ///
    /// The parts are accepted exactly when the content they describe is
    /// well formed; the module then has that content. Otherwise the error
    /// names the fault.
    pub fn new(
        num_channels: i32,
        num_instruments: i32,
        num_samples: i32,
        num_subsongs: i32,
        orders: Vec<i32>,
        patterns: Vec<Vec<Vec<[u8; 6]>>>,
    ) -> (res: Result<Module, ModuleError>)
        ensures
            match res {
                Ok(module) => {
                    &&& module@ == Module::content(
                        num_channels,
                        num_instruments,
                        num_samples,
                        num_subsongs,
                        orders,
                        patterns,
                    )
                    &&& module@.defect() is None
                    &&& module@.wf()
                },
                Err(error) => Module::content(
                    num_channels,
                    num_instruments,
                    num_samples,
                    num_subsongs,
                    orders,
                    patterns,
                ).defect() == Some(error),
            },
    {
        let ghost content = Module::content(
            num_channels,
            num_instruments,
            num_samples,
            num_subsongs,
            orders,
            patterns,
        );
        if num_channels < 0 || num_instruments < 0 || num_samples < 0 || num_subsongs < 0 {
            return Err(ModuleError::CountOutOfRange);
        }
        if orders.len() > i32::MAX as usize || patterns.len() > i32::MAX as usize {
            return Err(ModuleError::CountOutOfRange);
        }
        if !row_counts_in_range(&patterns) {
            assert(!content.counts_in_range()) by {
                let p = choose|p: int| 0 <= p < patterns@.len() && !(patterns@[p]@.len() <= i32::MAX);
                assert(content.patterns[p].len() == patterns@[p]@.len());
            }
            return Err(ModuleError::CountOutOfRange);
        }
        assert(content.counts_in_range()) by {
            assert forall|p: int| 0 <= p < content.patterns.len() implies (
            #[trigger] content.patterns[p]).len() <= i32::MAX by {
                assert(content.patterns[p].len() == patterns@[p]@.len());
            }
        }
        if !patterns_have_width(&patterns, num_channels as usize) {
            assert(!content.grid_is_regular()) by {
                let (p, r) = choose|p: int, r: int|
                    0 <= p < patterns@.len() && 0 <= r < patterns@[p]@.len() && !(
                    patterns@[p]@[r]@.len() == num_channels as usize);
                assert(content.patterns[p][r].len() == patterns@[p]@[r]@.len());
            }
            return Err(ModuleError::RowWidthMismatch);
        }
        assert(content.grid_is_regular()) by {
            assert forall|p: int, r: int|
                0 <= p < content.patterns.len() && 0 <= r < content.patterns[p].len() implies (
            #[trigger] content.patterns[p][r]).len() == content.num_channels by {
                assert(content.patterns[p][r].len() == patterns@[p]@[r]@.len());
            }
            assert forall|p: int, r: int, c: int|
                0 <= p < content.patterns.len() && 0 <= r < content.patterns[p].len() && 0 <= c
                    < content.patterns[p][r].len() implies (#[trigger] content.patterns[p][r][c]).len()
                == COMMAND_FIELDS by {
                assert(content.patterns[p][r][c] == patterns@[p]@[r]@[c].deep_view());
            }
        }
        Ok(Module { num_channels, num_instruments, num_samples, num_subsongs, orders, patterns })
    }

    /// The pattern index held at an order position; `NO_PATTERN` where the
    /// position lies outside the play order.
    pub fn get_order_pattern(&self, order: i32) -> (pattern: i32)
        ensures
            pattern == self@.order_pattern(order as int),
    {
        proof {
            use_type_invariant(self);
        }
        if order < 0 || order as usize >= self.orders.len() {
            NO_PATTERN
        } else {
            self.orders[order as usize]
        }
    }

    /// The number of rows of the pattern with the given index; 0 where the
    /// module holds no such pattern.
    pub fn get_pattern_num_rows(&self, pattern: i32) -> (n: i32)
        ensures
            n == self@.pattern_num_rows(pattern as int),
            n >= 0,
    {
        proof {
            use_type_invariant(self);
        }
        if pattern < 0 || pattern as usize >= self.patterns.len() {
            0
        } else {
            self.patterns[pattern as usize].len() as i32
        }
    }

    /// The raw byte of one command field of the cell at the given
    /// coordinates; 0 where the module holds no such cell or the code
    /// names no field.
    pub fn get_pattern_row_channel_command(
        &self,
        pattern: i32,
        row: i32,
        channel: i32,
        command: i32,
    ) -> (byte: u8)
        ensures
            byte == self@.command(pattern as int, row as int, channel as int, command as int),
    {
        proof {
            use_type_invariant(self);
        }
        if pattern < 0 || pattern as usize >= self.patterns.len() {
            return 0;
        }
        let rows = &self.patterns[pattern as usize];
        if row < 0 || row as usize >= rows.len() {
            return 0;
        }
        let cells = &rows[row as usize];
        if channel < 0 || channel as usize >= cells.len() {
            return 0;
        }
        if command < 0 || command as usize >= COMMAND_FIELDS {
            return 0;
        }
        cells[channel as usize][command as usize]
    }

    /// The number of distinct patterns in the module.
    pub fn get_num_patterns(&self) -> (n: i32)
        ensures
            n == self@.num_patterns(),
            n >= 0,
    {
        proof {
            use_type_invariant(self);
        }
        self.patterns.len() as i32
    }

    /// The number of positions in the play order.
    pub fn get_num_orders(&self) -> (n: i32)
        ensures
            n == self@.num_orders(),
            n >= 0,
    {
        proof {
            use_type_invariant(self);
        }
        self.orders.len() as i32
    }

    /// The number of pattern channels.
    pub fn get_num_channels(&self) -> (n: i32)
        ensures
            n == self@.num_channels,
            n >= 0,
    {
        proof {
            use_type_invariant(self);
        }
        self.num_channels
    }

    /// The number of instrument slots.
    pub fn get_num_instruments(&self) -> (n: i32)
        ensures
            n == self@.num_instruments,
            n >= 0,
    {
        proof {
            use_type_invariant(self);
        }
        self.num_instruments
    }

    /// The number of sample slots.
    pub fn get_num_samples(&self) -> (n: i32)
        ensures
            n == self@.num_samples,
            n >= 0,
    {
        proof {
            use_type_invariant(self);
        }
        self.num_samples
    }

    /// The number of sub-songs.
    pub fn get_num_subsongs(&self) -> (n: i32)
        ensures
            n == self@.num_subsongs,
            n >= 0,
    {
        proof {
            use_type_invariant(self);
        }
        self.num_subsongs
    }
}

} // verus!
