//! Why a description of a module is turned down.

use vstd::prelude::*;

verus! {

/// The fault found in the parts that a module was to be made of.
#[derive(Clone, Copy, Debug, PartialEq, Eq, Structural)]
pub enum ModuleError {
    /// A count is negative, or there are more orders, patterns or rows in
    /// a pattern than a 32-bit signed count can express.
    CountOutOfRange,
    /// Some row does not have exactly one cell per channel.
    RowWidthMismatch,
}

} // verus!
