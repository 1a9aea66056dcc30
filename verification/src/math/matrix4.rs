//! 4x4 matrices.

use super::scalar::{Scalar, ONE_BITS, ZERO_BITS};
use vstd::prelude::*;

verus! {

/// A 4x4 matrix stored row by row: the letter of a field names its row
/// and the digit its column, so `a1`, `a2`, `a3`, `a4` are the first row.
#[derive(Clone, Copy, Debug, PartialEq, Eq, Structural)]
pub struct Matrix4x4 {
    pub a1: Scalar,
    pub a2: Scalar,
    pub a3: Scalar,
    pub a4: Scalar,
    pub b1: Scalar,
    pub b2: Scalar,
    pub b3: Scalar,
    pub b4: Scalar,
    pub c1: Scalar,
    pub c2: Scalar,
    pub c3: Scalar,
    pub c4: Scalar,
    pub d1: Scalar,
    pub d2: Scalar,
    pub d3: Scalar,
    pub d4: Scalar,
}

impl Matrix4x4 {
    /// The element in row `row` and column `col`, both counted from zero.
    pub open spec fn at(self, row: int, col: int) -> Scalar {
        if row == 0 {
            if col == 0 {
                self.a1
            } else if col == 1 {
                self.a2
            } else if col == 2 {
                self.a3
            } else {
                self.a4
            }
        } else if row == 1 {
            if col == 0 {
                self.b1
            } else if col == 1 {
                self.b2
            } else if col == 2 {
                self.b3
            } else {
                self.b4
            }
        } else if row == 2 {
            if col == 0 {
                self.c1
            } else if col == 1 {
                self.c2
            } else if col == 2 {
                self.c3
            } else {
                self.c4
            }
        } else {
            if col == 0 {
                self.d1
            } else if col == 1 {
                self.d2
            } else if col == 2 {
                self.d3
            } else {
                self.d4
            }
        }
    }

    /// Whether `cols` lists the columns of this matrix: `cols[c][r]` is the
    /// element in row `r` of column `c`.
    pub open spec fn has_columns(self, cols: [[Scalar; 4]; 4]) -> bool {
        forall|r: int, c: int|
            0 <= r < 4 && 0 <= c < 4 ==> #[trigger] self.at(r, c) == cols[c][r]
    }

    /// Builds a matrix from its elements, given row by row.
    pub fn new(
        a1: Scalar,
        a2: Scalar,
        a3: Scalar,
        a4: Scalar,
        b1: Scalar,
        b2: Scalar,
        b3: Scalar,
        b4: Scalar,
        c1: Scalar,
        c2: Scalar,
        c3: Scalar,
        c4: Scalar,
        d1: Scalar,
        d2: Scalar,
        d3: Scalar,
        d4: Scalar,
    ) -> (m: Matrix4x4)
        ensures
            m == (Matrix4x4 {
            a1,
            a2,
            a3,
            a4,
            b1,
            b2,
            b3,
            b4,
            c1,
            c2,
            c3,
            c4,
            d1,
            d2,
            d3,
            d4,
            }),
    {
        Matrix4x4 {
            a1,
            a2,
            a3,
            a4,
            b1,
            b2,
            b3,
            b4,
            c1,
            c2,
            c3,
            c4,
            d1,
            d2,
            d3,
            d4,
        }
    }

    /// The identity matrix: ones on the diagonal, zeros elsewhere.
    pub fn identity() -> (m: Matrix4x4)
        ensures
            forall|r: int, c: int|
                0 <= r < 4 && 0 <= c < 4 ==> (#[trigger] m.at(r, c)).bits == (if r == c {
                    ONE_BITS
                } else {
                    ZERO_BITS
                }),
    {
        Matrix4x4 {
            a1: Scalar::one(),
            a2: Scalar::zero(),
            a3: Scalar::zero(),
            a4: Scalar::zero(),
            b1: Scalar::zero(),
            b2: Scalar::one(),
            b3: Scalar::zero(),
            b4: Scalar::zero(),
            c1: Scalar::zero(),
            c2: Scalar::zero(),
            c3: Scalar::one(),
            c4: Scalar::zero(),
            d1: Scalar::zero(),
            d2: Scalar::zero(),
            d3: Scalar::zero(),
            d4: Scalar::one(),
        }
    }

    /// Builds the matrix whose columns are `cols`.
    pub fn from_columns(cols: [[Scalar; 4]; 4]) -> (m: Matrix4x4)
        ensures
            m.has_columns(cols),
    {
        Matrix4x4 {
            a1: cols[0][0],
            a2: cols[1][0],
            a3: cols[2][0],
            a4: cols[3][0],
            b1: cols[0][1],
            b2: cols[1][1],
            b3: cols[2][1],
            b4: cols[3][1],
            c1: cols[0][2],
            c2: cols[1][2],
            c3: cols[2][2],
            c4: cols[3][2],
            d1: cols[0][3],
            d2: cols[1][3],
            d3: cols[2][3],
            d4: cols[3][3],
        }
    }

    /// Lists the columns of the matrix.
    pub fn to_columns(self) -> (cols: [[Scalar; 4]; 4])
        ensures
            self.has_columns(cols),
    {
        [
            [self.a1, self.b1, self.c1, self.d1],
            [self.a2, self.b2, self.c2, self.d2],
            [self.a3, self.b3, self.c3, self.d3],
            [self.a4, self.b4, self.c4, self.d4],
        ]
    }

    /// A matrix is determined by its columns: the matrix built from the
    /// columns of `a` is `a` again.
    pub proof fn lemma_columns_determine_matrix(a: Matrix4x4, b: Matrix4x4, cols: [[Scalar; 4]; 4])
        requires
            a.has_columns(cols),
            b.has_columns(cols),
        ensures
            a == b,
    {
        assert(a.at(0, 0) == b.at(0, 0));
        assert(a.at(0, 1) == b.at(0, 1));
        assert(a.at(0, 2) == b.at(0, 2));
        assert(a.at(0, 3) == b.at(0, 3));
        assert(a.at(1, 0) == b.at(1, 0));
        assert(a.at(1, 1) == b.at(1, 1));
        assert(a.at(1, 2) == b.at(1, 2));
        assert(a.at(1, 3) == b.at(1, 3));
        assert(a.at(2, 0) == b.at(2, 0));
        assert(a.at(2, 1) == b.at(2, 1));
        assert(a.at(2, 2) == b.at(2, 2));
        assert(a.at(2, 3) == b.at(2, 3));
        assert(a.at(3, 0) == b.at(3, 0));
        assert(a.at(3, 1) == b.at(3, 1));
        assert(a.at(3, 2) == b.at(3, 2));
        assert(a.at(3, 3) == b.at(3, 3));
    }

    /// The columns are determined by the matrix: the columns listed from the
    /// matrix built from `x` are `x` again.
    pub proof fn lemma_matrix_determines_columns(
        m: Matrix4x4,
        x: [[Scalar; 4]; 4],
        y: [[Scalar; 4]; 4],
    )
        requires
            m.has_columns(x),
            m.has_columns(y),
        ensures
            x == y,
    {
        assert(m.at(0, 0) == x[0][0] && m.at(0, 0) == y[0][0]);
        assert(m.at(0, 1) == x[1][0] && m.at(0, 1) == y[1][0]);
        assert(m.at(0, 2) == x[2][0] && m.at(0, 2) == y[2][0]);
        assert(m.at(0, 3) == x[3][0] && m.at(0, 3) == y[3][0]);
        assert(m.at(1, 0) == x[0][1] && m.at(1, 0) == y[0][1]);
        assert(m.at(1, 1) == x[1][1] && m.at(1, 1) == y[1][1]);
        assert(m.at(1, 2) == x[2][1] && m.at(1, 2) == y[2][1]);
        assert(m.at(1, 3) == x[3][1] && m.at(1, 3) == y[3][1]);
        assert(m.at(2, 0) == x[0][2] && m.at(2, 0) == y[0][2]);
        assert(m.at(2, 1) == x[1][2] && m.at(2, 1) == y[1][2]);
        assert(m.at(2, 2) == x[2][2] && m.at(2, 2) == y[2][2]);
        assert(m.at(2, 3) == x[3][2] && m.at(2, 3) == y[3][2]);
        assert(m.at(3, 0) == x[0][3] && m.at(3, 0) == y[0][3]);
        assert(m.at(3, 1) == x[1][3] && m.at(3, 1) == y[1][3]);
        assert(m.at(3, 2) == x[2][3] && m.at(3, 2) == y[2][3]);
        assert(m.at(3, 3) == x[3][3] && m.at(3, 3) == y[3][3]);
        assert(x[0] =~= y[0]);
        assert(x[1] =~= y[1]);
        assert(x[2] =~= y[2]);
        assert(x[3] =~= y[3]);
    }
}

} // verus!
