//! Symbolic addressing of the sixteen scalar slots of a 4x4 matrix.
//!
//! A [`Cell`] names one slot either semantically (row 1..4, named lane) or
//! positionally, by a flat row-major or column-major index in `0..16`. The
//! two positional conventions are related by the transpose relation on flat
//! indices, [`transpose_flat`], and the named slots map onto both
//! conventions by a fixed bijection.

use vstd::prelude::*;

verus! {

/// Uniquely identifies a single scalar value of an affine matrix.
///
/// The named variants are grouped by row: row `r` holds, in order, the
/// slots `Ir`, `Jr`, `Kr`, `Wr`. The positional variants address a slot by
/// a flat index in `0..16`, counted in row-major or column-major order.
#[derive(Clone, Copy, PartialEq, Eq, Structural, Debug)]
pub enum Cell {
    I1, J1, K1, W1,
    I2, J2, K2, W2,
    I3, J3, K3, W3,
    I4, J4, K4, W4,
    /// By row-major index
    Row(u8),
    /// By column-major index
    Column(u8),
}

/// The transpose relation on flat indices of a 4x4 grid: the slot at
/// row-major index `i` sits at column-major index `transpose_flat(i)`,
/// and vice versa.
pub open spec fn transpose_flat(i: int) -> int {
    (i * 4) % 16 + i / 4
}

/// Positional indices must lie in `0..16`; named slots are always valid.
pub open spec fn cell_in_bounds(c: Cell) -> bool {
    match c {
        Cell::Row(i) => i < 16,
        Cell::Column(i) => i < 16,
        _ => true,
    }
}

/// Whether `c` is one of the sixteen named slots.
pub open spec fn is_named(c: Cell) -> bool {
    !(c is Row) && !(c is Column)
}

/// The flat row-major index addressed by a cell.
pub open spec fn row_major_index(c: Cell) -> int {
    match c {
        Cell::I1 => 0,
        Cell::J1 => 1,
        Cell::K1 => 2,
        Cell::W1 => 3,
        Cell::I2 => 4,
        Cell::J2 => 5,
        Cell::K2 => 6,
        Cell::W2 => 7,
        Cell::I3 => 8,
        Cell::J3 => 9,
        Cell::K3 => 10,
        Cell::W3 => 11,
        Cell::I4 => 12,
        Cell::J4 => 13,
        Cell::K4 => 14,
        Cell::W4 => 15,
        Cell::Row(i) => i as int,
        Cell::Column(i) => transpose_flat(i as int),
    }
}

/// The flat column-major index addressed by a cell.
pub open spec fn column_major_index(c: Cell) -> int {
    match c {
        Cell::I1 => 0,
        Cell::J1 => 4,
        Cell::K1 => 8,
        Cell::W1 => 12,
        Cell::I2 => 1,
        Cell::J2 => 5,
        Cell::K2 => 9,
        Cell::W2 => 13,
        Cell::I3 => 2,
        Cell::J3 => 6,
        Cell::K3 => 10,
        Cell::W3 => 14,
        Cell::I4 => 3,
        Cell::J4 => 7,
        Cell::K4 => 11,
        Cell::W4 => 15,
        Cell::Row(i) => transpose_flat(i as int),
        Cell::Column(i) => i as int,
    }
}

impl Cell {
    /// Converts any in-bounds cell identifier to its column-major form.
    pub fn to_column(&self) -> (r: Cell)
        requires
            cell_in_bounds(*self),
        ensures
            r == Cell::Column(column_major_index(*self) as u8),
    {
        match *self {
            Cell::I1 => Cell::Column(0),
            Cell::J1 => Cell::Column(4),
            Cell::K1 => Cell::Column(8),
            Cell::W1 => Cell::Column(12),
            Cell::I2 => Cell::Column(1),
            Cell::J2 => Cell::Column(5),
            Cell::K2 => Cell::Column(9),
            Cell::W2 => Cell::Column(13),
            Cell::I3 => Cell::Column(2),
            Cell::J3 => Cell::Column(6),
            Cell::K3 => Cell::Column(10),
            Cell::W3 => Cell::Column(14),
            Cell::I4 => Cell::Column(3),
            Cell::J4 => Cell::Column(7),
            Cell::K4 => Cell::Column(11),
            Cell::W4 => Cell::Column(15),
            Cell::Column(i) => Cell::Column(i),
            Cell::Row(i) => Cell::Column((i * 4 % 16) + (i / 4)),
        }
    }
}

/// The transpose relation is an involution on `0..16`: transposing a flat
/// index twice returns the original index.
pub proof fn lemma_transpose_flat_involution(i: int)
    requires
        0 <= i < 16,
    ensures
        transpose_flat(transpose_flat(i)) == i,
{
}

/// Every in-bounds cell addresses a slot in `0..16`, and its column-major
/// index is exactly the transpose of its row-major index: both positional
/// views name one and the same physical slot.
pub proof fn lemma_cell_addressing_consistent(c: Cell)
    requires
        cell_in_bounds(c),
    ensures
        0 <= row_major_index(c) < 16,
        0 <= column_major_index(c) < 16,
        column_major_index(c) == transpose_flat(row_major_index(c)),
{
    match c {
        Cell::Column(i) => {
            lemma_transpose_flat_involution(i as int);
        },
        _ => {},
    }
}

/// The sixteen named slots map onto distinct row-major indices: the named
/// addressing scheme is a bijection onto `0..16`.
pub proof fn lemma_named_cells_distinct(c1: Cell, c2: Cell)
    requires
        is_named(c1),
        is_named(c2),
        c1 != c2,
    ensures
        row_major_index(c1) != row_major_index(c2),
{
}

/// A positional cell resolves exactly as the addressing contract states:
/// `Row(i)` addresses row-major slot `i`, and `Column(i)` addresses the
/// row-major slot at the transposed index.
pub proof fn lemma_flat_addressing(i: int)
    requires
        0 <= i < 16,
    ensures
        row_major_index(Cell::Row(i as u8)) == i,
        row_major_index(Cell::Column(i as u8)) == transpose_flat(i),
{
}

} // verus!
