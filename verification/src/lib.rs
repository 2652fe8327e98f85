//! Read-only navigation over the pattern data of a tracker module:
//! orders, patterns, rows, cells and the six command fields of a cell.

pub mod module;
