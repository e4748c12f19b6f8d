//! The 4x4 homogeneous transform matrix: storage, addressing, extraction
//! and assembly.
//!
//! An [`AffineMatrix`] is sixteen scalars, logically a 4x4 grid stored in
//! one fixed physical layout and addressed through [`Cell`] in either the
//! row-major or the column-major convention. Its mathematical model is the
//! flat row-major sequence of its sixteen scalars, written `m@`.
//!
//! The type is generic over the scalar, so everything that only places,
//! extracts or permutes scalars — construction from flat sequences, the
//! named primitive layouts, transposition, row/column extraction and cell
//! indexing — is verified here once for every scalar type. The scalar
//! arithmetic of a composition or application is supplied by the caller as
//! a dot-product function and related to the result cell by cell.

use vstd::prelude::*;

use crate::cells::{Cell, cell_in_bounds, row_major_index, transpose_flat};
use crate::vectors::{Vector3, Vector4};

verus! {

/// A 4-dimensional matrix for representing linear transformations of 3D
/// space, held as sixteen scalars. Field `i1, j1, k1, w1` is row 1, and so
/// on row by row; no invariant constrains the contents, so general 4x4
/// data (a perspective row, for instance) is permitted.
#[derive(Clone, Copy, PartialEq, Debug)]
pub struct AffineMatrix<T> {
    pub i1: T, pub j1: T, pub k1: T, pub w1: T,
    pub i2: T, pub j2: T, pub k2: T, pub w2: T,
    pub i3: T, pub j3: T, pub k3: T, pub w3: T,
    pub i4: T, pub j4: T, pub k4: T, pub w4: T,
}

impl<T> View for AffineMatrix<T> {
    type V = Seq<T>;

    /// The mathematical model: the sixteen scalars as a flat sequence in
    /// row-major order.
    open spec fn view(&self) -> Seq<T> {
        seq![
            self.i1, self.j1, self.k1, self.w1,
            self.i2, self.j2, self.k2, self.w2,
            self.i3, self.j3, self.k3, self.w3,
            self.i4, self.j4, self.k4, self.w4,
        ]
    }
}

/// The entry at (row `row`, column `col`), both 1-based, of a matrix
/// whose row-major model is `s`.
pub open spec fn entry<T>(s: Seq<T>, row: int, col: int) -> T {
    s[(row - 1) * 4 + (col - 1)]
}

/// The row-major model of the transposed matrix: slot `i` holds the
/// scalar from the transposed flat index of `s`.
pub open spec fn transpose_seq<T>(s: Seq<T>) -> Seq<T> {
    Seq::new(16, |i: int| s[transpose_flat(i)])
}

/// Row `r` (1-based) of a matrix whose row-major model is `s`.
pub open spec fn row_of<T>(s: Seq<T>, r: int) -> Vector4<T> {
    Vector4 {
        x: s[(r - 1) * 4],
        y: s[(r - 1) * 4 + 1],
        z: s[(r - 1) * 4 + 2],
        w: s[(r - 1) * 4 + 3],
    }
}

/// Column `c` (1-based) of a matrix whose row-major model is `s`.
pub open spec fn col_of<T>(s: Seq<T>, c: int) -> Vector4<T> {
    Vector4 {
        x: s[c - 1],
        y: s[c - 1 + 4],
        z: s[c - 1 + 8],
        w: s[c - 1 + 12],
    }
}

impl<T: Copy> AffineMatrix<T> {
    /// Builds a matrix from the first sixteen elements of a flat sequence
    /// in row-major order.
    pub fn from_row_major(array: Vec<T>) -> (m: AffineMatrix<T>)
        requires
            array@.len() >= 16,
        ensures
            m@ == array@.subrange(0, 16),
    {
        let m = AffineMatrix {
            i1: array[0], j1: array[1], k1: array[2], w1: array[3],
            i2: array[4], j2: array[5], k2: array[6], w2: array[7],
            i3: array[8], j3: array[9], k3: array[10], w3: array[11],
            i4: array[12], j4: array[13], k4: array[14], w4: array[15],
        };
        proof {
            assert(m@ =~= array@.subrange(0, 16));
        }
        m
    }

    /// Builds a matrix from the first sixteen elements of a flat sequence
    /// in column-major order: the slot at row-major index `i` receives the
    /// element at the transposed flat index.
    pub fn from_column_major(array: Vec<T>) -> (m: AffineMatrix<T>)
        requires
            array@.len() >= 16,
        ensures
            m@ == transpose_seq(array@.subrange(0, 16)),
            forall|i: int| 0 <= i < 16 ==> m@[i] == array@[transpose_flat(i)],
    {
        let m = AffineMatrix {
            i1: array[0], j1: array[4], k1: array[8], w1: array[12],
            i2: array[1], j2: array[5], k2: array[9], w2: array[13],
            i3: array[2], j3: array[6], k3: array[10], w3: array[14],
            i4: array[3], j4: array[7], k4: array[11], w4: array[15],
        };
        proof {
            assert(m@ =~= transpose_seq(array@.subrange(0, 16)));
        }
        m
    }

    /// Exports the sixteen scalars as a flat vector in row-major order;
    /// the exact inverse of [`AffineMatrix::from_row_major`].
    pub fn as_row_major_vec(&self) -> (v: Vec<T>)
        ensures
            v@ == self@,
    {
        let v: Vec<T> = vec![
            self.i1, self.j1, self.k1, self.w1,
            self.i2, self.j2, self.k2, self.w2,
            self.i3, self.j3, self.k3, self.w3,
            self.i4, self.j4, self.k4, self.w4,
        ];
        proof {
            assert(v@ =~= self@);
        }
        v
    }

    /// The transposed matrix: the slot at row-major index `i` of the
    /// result holds the scalar at the transposed flat index of `self`.
    pub fn transpose(&self) -> (m: AffineMatrix<T>)
        ensures
            m@ == transpose_seq(self@),
            forall|i: int| 0 <= i < 16 ==> m@[i] == self@[transpose_flat(i)],
    {
        let m = AffineMatrix {
            i1: self.i1, j1: self.i2, k1: self.i3, w1: self.i4,
            i2: self.j1, j2: self.j2, k2: self.j3, w2: self.j4,
            i3: self.k1, j3: self.k2, k3: self.k3, w3: self.k4,
            i4: self.w1, j4: self.w2, k4: self.w3, w4: self.w4,
        };
        proof {
            assert(m@ =~= transpose_seq(self@));
        }
        m
    }

    /// The scalar at row-major index `i`.
    fn row_major_entry(&self, i: u8) -> (r: T)
        requires
            i < 16,
        ensures
            r == self@[i as int],
    {
        match i {
            0 => self.i1,
            1 => self.j1,
            2 => self.k1,
            3 => self.w1,
            4 => self.i2,
            5 => self.j2,
            6 => self.k2,
            7 => self.w2,
            8 => self.i3,
            9 => self.j3,
            10 => self.k3,
            11 => self.w3,
            12 => self.i4,
            13 => self.j4,
            14 => self.k4,
            15 => self.w4,
            _ => unreached(),
        }
    }

    /// Resolves a cell identifier to the scalar it addresses: a named slot
    /// or `Row(i)` reads the slot at its row-major index, and `Column(i)`
    /// reads the slot whose column-major index is `i`.
    pub fn index(&self, c: Cell) -> (r: T)
        requires
            cell_in_bounds(c),
        ensures
            r == self@[row_major_index(c)],
    {
        match c {
            Cell::I1 => self.i1,
            Cell::J1 => self.j1,
            Cell::K1 => self.k1,
            Cell::W1 => self.w1,
            Cell::I2 => self.i2,
            Cell::J2 => self.j2,
            Cell::K2 => self.k2,
            Cell::W2 => self.w2,
            Cell::I3 => self.i3,
            Cell::J3 => self.j3,
            Cell::K3 => self.k3,
            Cell::W3 => self.w3,
            Cell::I4 => self.i4,
            Cell::J4 => self.j4,
            Cell::K4 => self.k4,
            Cell::W4 => self.w4,
            Cell::Row(i) => self.row_major_entry(i),
            Cell::Column(i) => self.row_major_entry((i * 4 % 16) + (i / 4)),
        }
    }

    /// Extracts the 1st, 2nd, 3rd, or 4th row as a four-lane vector.
    pub fn rvec(&self, row: u8) -> (r: Vector4<T>)
        requires
            1 <= row <= 4,
        ensures
            r == row_of(self@, row as int),
    {
        let start: u8 = (row - 1) * 4;
        Vector4::new(
            self.index(Cell::Row(start)),
            self.index(Cell::Row(start + 1)),
            self.index(Cell::Row(start + 2)),
            self.index(Cell::Row(start + 3)),
        )
    }

    /// Extracts the 1st, 2nd, 3rd, or 4th column as a four-lane vector.
    pub fn cvec(&self, column: u8) -> (r: Vector4<T>)
        requires
            1 <= column <= 4,
        ensures
            r == col_of(self@, column as int),
    {
        let start: u8 = (column - 1) * 4;
        Vector4::new(
            self.index(Cell::Column(start)),
            self.index(Cell::Column(start + 1)),
            self.index(Cell::Column(start + 2)),
            self.index(Cell::Column(start + 3)),
        )
    }

    /// The matrix with every slot holding the same scalar; with the zero
    /// of the scalar type this is the zero matrix.
    pub fn filled(value: T) -> (m: AffineMatrix<T>)
        ensures
            m@.len() == 16,
            forall|i: int| 0 <= i < 16 ==> m@[i] == value,
    {
        AffineMatrix {
            i1: value, j1: value, k1: value, w1: value,
            i2: value, j2: value, k2: value, w2: value,
            i3: value, j3: value, k3: value, w3: value,
            i4: value, j4: value, k4: value, w4: value,
        }
    }

    /// The diagonal layout: `d1..d4` on the main diagonal and `zero`
    /// everywhere else. With the one of the scalar type on the whole
    /// diagonal this is the identity; with scale factors on the first
    /// three slots and one on the fourth it is a scale matrix.
    pub fn diagonal(zero: T, d1: T, d2: T, d3: T, d4: T) -> (m: AffineMatrix<T>)
        ensures
            m@ == seq![
                d1, zero, zero, zero,
                zero, d2, zero, zero,
                zero, zero, d3, zero,
                zero, zero, zero, d4,
            ],
    {
        AffineMatrix {
            i1: d1, j1: zero, k1: zero, w1: zero,
            i2: zero, j2: d2, k2: zero, w2: zero,
            i3: zero, j3: zero, k3: d3, w3: zero,
            i4: zero, j4: zero, k4: zero, w4: d4,
        }
    }

    /// The translation layout: the identity pattern with the offsets
    /// `x, y, z` in the rightmost column of the top three rows.
    pub fn translation(zero: T, one: T, x: T, y: T, z: T) -> (m: AffineMatrix<T>)
        ensures
            m@ == seq![
                one, zero, zero, x,
                zero, one, zero, y,
                zero, zero, one, z,
                zero, zero, zero, one,
            ],
            row_of(m@, 4) == (Vector4 { x: zero, y: zero, z: zero, w: one }),
    {
        AffineMatrix {
            i1: one, j1: zero, k1: zero, w1: x,
            i2: zero, j2: one, k2: zero, w2: y,
            i3: zero, j3: zero, k3: one, w3: z,
            i4: zero, j4: zero, k4: zero, w4: one,
        }
    }

    /// The right-handed rotation layout about the X axis, for a caller
    /// holding the cosine, sine and negated sine of the angle: row and
    /// column 1 keep the identity pattern and the cosine/sine block fills
    /// the Y/Z slots, with the negated sine at (row 2, column 3).
    pub fn rotation_x(zero: T, one: T, cos: T, sin: T, neg_sin: T) -> (m: AffineMatrix<T>)
        ensures
            m@ == seq![
                one, zero, zero, zero,
                zero, cos, neg_sin, zero,
                zero, sin, cos, zero,
                zero, zero, zero, one,
            ],
            row_of(m@, 4) == (Vector4 { x: zero, y: zero, z: zero, w: one }),
    {
        AffineMatrix {
            i1: one, j1: zero, k1: zero, w1: zero,
            i2: zero, j2: cos, k2: neg_sin, w2: zero,
            i3: zero, j3: sin, k3: cos, w3: zero,
            i4: zero, j4: zero, k4: zero, w4: one,
        }
    }

    /// The right-handed rotation layout about the Y axis: row and column 2
    /// keep the identity pattern and the cosine/sine block fills the X/Z
    /// slots, with the negated sine at (row 3, column 1).
    pub fn rotation_y(zero: T, one: T, cos: T, sin: T, neg_sin: T) -> (m: AffineMatrix<T>)
        ensures
            m@ == seq![
                cos, zero, sin, zero,
                zero, one, zero, zero,
                neg_sin, zero, cos, zero,
                zero, zero, zero, one,
            ],
            row_of(m@, 4) == (Vector4 { x: zero, y: zero, z: zero, w: one }),
    {
        AffineMatrix {
            i1: cos, j1: zero, k1: sin, w1: zero,
            i2: zero, j2: one, k2: zero, w2: zero,
            i3: neg_sin, j3: zero, k3: cos, w3: zero,
            i4: zero, j4: zero, k4: zero, w4: one,
        }
    }

    /// The right-handed rotation layout about the Z axis: row and column 3
    /// keep the identity pattern and the cosine/sine block fills the X/Y
    /// slots, with the negated sine at (row 1, column 2).
    pub fn rotation_z(zero: T, one: T, cos: T, sin: T, neg_sin: T) -> (m: AffineMatrix<T>)
        ensures
            m@ == seq![
                cos, neg_sin, zero, zero,
                sin, cos, zero, zero,
                zero, zero, one, zero,
                zero, zero, zero, one,
            ],
            row_of(m@, 4) == (Vector4 { x: zero, y: zero, z: zero, w: one }),
    {
        AffineMatrix {
            i1: cos, j1: neg_sin, k1: zero, w1: zero,
            i2: sin, j2: cos, k2: zero, w2: zero,
            i3: zero, j3: zero, k3: one, w3: zero,
            i4: zero, j4: zero, k4: zero, w4: one,
        }
    }

    /// Matrix multiplication, with the scalar dot product supplied by the
    /// caller: the result entry at (row `r`, column `c`) is the dot
    /// product of column `c` of `self` with row `r` of `m`, so composing
    /// this matrix after `m` is `self.multiply_with(m, dot)`.
    pub fn multiply_with<F: Fn(Vector4<T>, Vector4<T>) -> T>(
        &self,
        m: AffineMatrix<T>,
        dot: F,
    ) -> (r: AffineMatrix<T>)
        requires
            forall|a: Vector4<T>, b: Vector4<T>| #[trigger] call_requires(dot, (a, b)),
        ensures
            forall|row: int, col: int|
                1 <= row <= 4 && 1 <= col <= 4 ==> call_ensures(
                    dot,
                    (col_of(self@, col), row_of(m@, row)),
                    #[trigger] entry(r@, row, col),
                ),
    {
        let c1 = self.cvec(1);
        let c2 = self.cvec(2);
        let c3 = self.cvec(3);
        let c4 = self.cvec(4);
        let r1 = m.rvec(1);
        let r2 = m.rvec(2);
        let r3 = m.rvec(3);
        let r4 = m.rvec(4);

        AffineMatrix {
            i1: dot(c1, r1), j1: dot(c2, r1), k1: dot(c3, r1), w1: dot(c4, r1),
            i2: dot(c1, r2), j2: dot(c2, r2), k2: dot(c3, r2), w2: dot(c4, r2),
            i3: dot(c1, r3), j3: dot(c2, r3), k3: dot(c3, r3), w3: dot(c4, r3),
            i4: dot(c1, r4), j4: dot(c2, r4), k4: dot(c3, r4), w4: dot(c4, r4),
        }
    }

    /// Matrix-vector application, with the scalar dot product supplied by
    /// the caller: lane `r` of the result is the dot product of row `r`
    /// of the matrix with the applied vector.
    pub fn apply_affine_with<F: Fn(Vector4<T>, Vector4<T>) -> T>(
        &self,
        a: Vector4<T>,
        dot: F,
    ) -> (r: Vector4<T>)
        requires
            forall|u: Vector4<T>, v: Vector4<T>| #[trigger] call_requires(dot, (u, v)),
        ensures
            call_ensures(dot, (row_of(self@, 1), a), r.x),
            call_ensures(dot, (row_of(self@, 2), a), r.y),
            call_ensures(dot, (row_of(self@, 3), a), r.z),
            call_ensures(dot, (row_of(self@, 4), a), r.w),
    {
        Vector4::new(
            dot(self.rvec(1), a),
            dot(self.rvec(2), a),
            dot(self.rvec(3), a),
            dot(self.rvec(4), a),
        )
    }

    /// Applies the transform to a 3-component point: the point is
    /// promoted to homogeneous form with `one` (the one of the scalar
    /// type) as its fourth lane, transformed with the caller's dot
    /// product, and demoted again by discarding the transformed fourth
    /// lane.
    pub fn apply_vec3_with<F: Fn(Vector4<T>, Vector4<T>) -> T>(
        &self,
        v: Vector3<T>,
        one: T,
        dot: F,
    ) -> (r: Vector3<T>)
        requires
            forall|u: Vector4<T>, w: Vector4<T>| #[trigger] call_requires(dot, (u, w)),
        ensures
            call_ensures(dot, (row_of(self@, 1), v.promote_spec(one)), r.x),
            call_ensures(dot, (row_of(self@, 2), v.promote_spec(one)), r.y),
            call_ensures(dot, (row_of(self@, 3), v.promote_spec(one)), r.z),
    {
        let a = self.apply_affine_with(v.promote(one), dot);
        a.demote()
    }
}

/// Transposing the model twice returns the original model: the transpose
/// relation on flat indices is an involution, lifted to whole matrices.
pub proof fn lemma_transpose_seq_involution<T>(s: Seq<T>)
    requires
        s.len() == 16,
    ensures
        transpose_seq(transpose_seq(s)) == s,
{
    assert(transpose_seq(transpose_seq(s)) =~= s);
}

/// Row and column extraction agree lane by lane with entry addressing:
/// lane `c` of row `r` and lane `r` of column `c` are both the entry at
/// (row `r`, column `c`).
pub proof fn lemma_rows_columns_entrywise<T>(s: Seq<T>, r: int, c: int)
    requires
        s.len() == 16,
        1 <= r <= 4,
        1 <= c <= 4,
    ensures
        row_of(s, r) == (Vector4 {
            x: entry(s, r, 1),
            y: entry(s, r, 2),
            z: entry(s, r, 3),
            w: entry(s, r, 4),
        }),
        col_of(s, c) == (Vector4 {
            x: entry(s, 1, c),
            y: entry(s, 2, c),
            z: entry(s, 3, c),
            w: entry(s, 4, c),
        }),
{
}

/// Row `r` of the transposed matrix is column `r` of the original, and
/// column `r` of the transposed matrix is row `r` of the original: one
/// physical layout exposes both addressing conventions without drift.
pub proof fn lemma_transpose_swaps_rows_columns<T>(s: Seq<T>, r: int)
    requires
        s.len() == 16,
        1 <= r <= 4,
    ensures
        row_of(transpose_seq(s), r) == col_of(s, r),
        col_of(transpose_seq(s), r) == row_of(s, r),
{
}

} // verus!
