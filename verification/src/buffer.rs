//! The display memory: a grid of volatile cells, and the two accesses to one
//! cell that the rest of the crate builds on.
//!
//! The cell type belongs to the `volatile` crate. What its `read` and
//! `write` do is stated here as that crate documents it, and believed, not
//! proved.

use vstd::prelude::*;
use volatile::Volatile;
use crate::cell::Char;

verus! {

/// Rows of the grid.
pub const HEIGHT: usize = 25;

/// Cells in a row.
pub const WIDTH: usize = 80;

/// The display memory, row after row, two bytes to a cell.
pub type Buffer = [[Volatile<[u8; 2]>; WIDTH]; HEIGHT];

/// `volatile::Volatile`, a wrapper of the same size as the value inside it
/// that reaches the value by volatile reads and writes only.
#[verifier::external_type_specification]
#[verifier::external_body]
#[verifier::reject_recursive_types(T)]
pub struct ExVolatile<T: Copy>(Volatile<T>);

/// The two bytes that a cell of display memory contains: what was last
/// written to it, text memory being memory that keeps what it is given.
pub uninterp spec fn contained(cell: Volatile<[u8; 2]>) -> Seq<u8>;

/// `Volatile::write`: a volatile write that sets the contained value to
/// `value`. It never panics, so it never unwinds.
#[verifier::external_body]
pub(crate) fn store(cell: &mut Volatile<[u8; 2]>, value: [u8; 2])
    ensures
        contained(*final(cell)) == value@,
    no_unwind
{
    cell.write(value)
}

/// `Volatile::read`: a volatile read that returns a copy of the contained
/// value. It never panics.
#[verifier::external_body]
pub(crate) fn load(cell: &Volatile<[u8; 2]>) -> (value: [u8; 2])
    ensures
        value@ == contained(*cell),
{
    cell.read()
}

/// The cell that the display shows at a row and a column of its memory.
pub open spec fn cell_at(buffer: Buffer, row: int, column: int) -> Char {
    Char::decode(contained(buffer@[row]@[column]))
}

/// What the display shows: `HEIGHT` rows of `WIDTH` cells.
pub open spec fn grid(buffer: Buffer) -> Seq<Seq<Char>> {
    Seq::new(HEIGHT as nat, |row: int| Seq::new(WIDTH as nat, |column: int| cell_at(buffer, row, column)))
}

} // verus!
