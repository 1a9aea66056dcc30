//! 3x3 matrices.

use super::scalar::{Scalar, ONE_BITS, ZERO_BITS};
use vstd::prelude::*;

verus! {

/// A 3x3 matrix stored row by row: the letter of a field names its row
/// and the digit its column, so `a1`, `a2`, `a3` are the first row.
#[derive(Clone, Copy, Debug, PartialEq, Eq, Structural)]
pub struct Matrix3x3 {
    pub a1: Scalar,
    pub a2: Scalar,
    pub a3: Scalar,
    pub b1: Scalar,
    pub b2: Scalar,
    pub b3: Scalar,
    pub c1: Scalar,
    pub c2: Scalar,
    pub c3: Scalar,
}

impl Matrix3x3 {
    /// The element in row `row` and column `col`, both counted from zero.
    pub open spec fn at(self, row: int, col: int) -> Scalar {
        if row == 0 {
            if col == 0 {
                self.a1
            } else if col == 1 {
                self.a2
            } else {
                self.a3
            }
        } else if row == 1 {
            if col == 0 {
                self.b1
            } else if col == 1 {
                self.b2
            } else {
                self.b3
            }
        } else {
            if col == 0 {
                self.c1
            } else if col == 1 {
                self.c2
            } else {
                self.c3
            }
        }
    }

    /// Whether `cols` lists the columns of this matrix: `cols[c][r]` is the
    /// element in row `r` of column `c`.
    pub open spec fn has_columns(self, cols: [[Scalar; 3]; 3]) -> bool {
        forall|r: int, c: int|
            0 <= r < 3 && 0 <= c < 3 ==> #[trigger] self.at(r, c) == cols[c][r]
    }

    /// Builds a matrix from its elements, given row by row.
    pub fn new(
        a1: Scalar,
        a2: Scalar,
        a3: Scalar,
        b1: Scalar,
        b2: Scalar,
        b3: Scalar,
        c1: Scalar,
        c2: Scalar,
        c3: Scalar,
    ) -> (m: Matrix3x3)
        ensures
            m == (Matrix3x3 {
            a1,
            a2,
            a3,
            b1,
            b2,
            b3,
            c1,
            c2,
            c3,
            }),
    {
        Matrix3x3 {
            a1,
            a2,
            a3,
            b1,
            b2,
            b3,
            c1,
            c2,
            c3,
        }
    }

    /// The identity matrix: ones on the diagonal, zeros elsewhere.
    pub fn identity() -> (m: Matrix3x3)
        ensures
            forall|r: int, c: int|
                0 <= r < 3 && 0 <= c < 3 ==> (#[trigger] m.at(r, c)).bits == (if r == c {
                    ONE_BITS
                } else {
                    ZERO_BITS
                }),
    {
        Matrix3x3 {
            a1: Scalar::one(),
            a2: Scalar::zero(),
            a3: Scalar::zero(),
            b1: Scalar::zero(),
            b2: Scalar::one(),
            b3: Scalar::zero(),
            c1: Scalar::zero(),
            c2: Scalar::zero(),
            c3: Scalar::one(),
        }
    }

    /// Builds the matrix whose columns are `cols`.
    pub fn from_columns(cols: [[Scalar; 3]; 3]) -> (m: Matrix3x3)
        ensures
            m.has_columns(cols),
    {
        Matrix3x3 {
            a1: cols[0][0],
            a2: cols[1][0],
            a3: cols[2][0],
            b1: cols[0][1],
            b2: cols[1][1],
            b3: cols[2][1],
            c1: cols[0][2],
            c2: cols[1][2],
            c3: cols[2][2],
        }
    }

    /// Lists the columns of the matrix.
    pub fn to_columns(self) -> (cols: [[Scalar; 3]; 3])
        ensures
            self.has_columns(cols),
    {
        [
            [self.a1, self.b1, self.c1],
            [self.a2, self.b2, self.c2],
            [self.a3, self.b3, self.c3],
        ]
    }

    /// A matrix is determined by its columns: the matrix built from the
    /// columns of `a` is `a` again.
    pub proof fn lemma_columns_determine_matrix(a: Matrix3x3, b: Matrix3x3, cols: [[Scalar; 3]; 3])
        requires
            a.has_columns(cols),
            b.has_columns(cols),
        ensures
            a == b,
    {
        assert(a.at(0, 0) == b.at(0, 0));
        assert(a.at(0, 1) == b.at(0, 1));
        assert(a.at(0, 2) == b.at(0, 2));
        assert(a.at(1, 0) == b.at(1, 0));
        assert(a.at(1, 1) == b.at(1, 1));
        assert(a.at(1, 2) == b.at(1, 2));
        assert(a.at(2, 0) == b.at(2, 0));
        assert(a.at(2, 1) == b.at(2, 1));
        assert(a.at(2, 2) == b.at(2, 2));
    }

    /// The columns are determined by the matrix: the columns listed from the
    /// matrix built from `x` are `x` again.
    pub proof fn lemma_matrix_determines_columns(
        m: Matrix3x3,
        x: [[Scalar; 3]; 3],
        y: [[Scalar; 3]; 3],
    )
        requires
            m.has_columns(x),
            m.has_columns(y),
        ensures
            x == y,
    {
        assert(m.at(0, 0) == x[0][0] && m.at(0, 0) == y[0][0]);
        assert(m.at(0, 1) == x[1][0] && m.at(0, 1) == y[1][0]);
        assert(m.at(0, 2) == x[2][0] && m.at(0, 2) == y[2][0]);
        assert(m.at(1, 0) == x[0][1] && m.at(1, 0) == y[0][1]);
        assert(m.at(1, 1) == x[1][1] && m.at(1, 1) == y[1][1]);
        assert(m.at(1, 2) == x[2][1] && m.at(1, 2) == y[2][1]);
        assert(m.at(2, 0) == x[0][2] && m.at(2, 0) == y[0][2]);
        assert(m.at(2, 1) == x[1][2] && m.at(2, 1) == y[1][2]);
        assert(m.at(2, 2) == x[2][2] && m.at(2, 2) == y[2][2]);
        assert(x[0] =~= y[0]);
        assert(x[1] =~= y[1]);
        assert(x[2] =~= y[2]);
    }
}

} // verus!
