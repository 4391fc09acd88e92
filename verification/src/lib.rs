//! A text console for a memory-mapped character grid.
//!
//! The grid is `HEIGHT` rows of `WIDTH` two-byte cells; each cell holds a
//! glyph byte followed by an attribute byte. A [`writer::Writer`] keeps a
//! cursor into the grid and draws bytes at it, one cell per byte, wrapping at
//! the end of a line.
//!
//! What each operation does is stated over the mathematical model in
//! [`screen`] and proved, down to the two accesses to a single cell of
//! display memory in [`buffer`], which are taken from the `volatile` crate
//! as it documents them.

pub mod buffer;
pub mod cell;
pub mod color;
pub mod screen;
pub mod writer;
