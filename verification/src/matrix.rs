use vstd::prelude::*;

verus! {

use crate::fixed::{Scalar, fx_add, fx_sub, fx_mul, fx_div, fx_neg, fx_abs, fx_approx_eq, SCALE, BOUND, EPSILON};
use crate::tuple::{Tuple, TupleView, tv_dot};
use core::ops::Neg;

/// Mathematical image of a matrix: the logical size and a four-by-four grid
/// of unit counts.  Entries at or past the size are padding.
#[verifier::ext_equal]
pub ghost struct MatrixView {
    pub size: int,
    pub e: Seq<Seq<int>>,
}

/// One entry of the grid.
#[verifier::inline]
pub open spec fn mv_entry(m: MatrixView, r: int, c: int) -> int {
    m.e[r][c]
}

/// The shape every reachable matrix has: a four-by-four grid and a logical
/// size of two, three or four.
pub open spec fn mv_ok(m: MatrixView) -> bool {
    &&& m.e.len() == 4
    &&& (forall|r: int| 0 <= r < 4 ==> (#[trigger] m.e[r]).len() == 4)
    &&& 2 <= m.size <= 4
}

/// All entries at or past the logical size are zero.
pub open spec fn mv_padded(m: MatrixView) -> bool {
    forall|r: int, c: int|
        0 <= r < 4 && 0 <= c < 4 && (r >= m.size || c >= m.size) ==> #[trigger] m.e[r][c] == 0
}

/// The identity transform.
pub open spec fn mv_identity() -> MatrixView {
    MatrixView {
        size: 4,
        e: Seq::new(
            4,
            |r: int|
                Seq::new(
                    4,
                    |c: int|
                        if r == c {
                            SCALE as int
                        } else {
                            0
                        },
                ),
        ),
    }
}

/// The transpose within the logical size, with zero padding.
pub open spec fn mv_transpose(m: MatrixView) -> MatrixView {
    MatrixView {
        size: m.size,
        e: Seq::new(
            4,
            |r: int|
                Seq::new(
                    4,
                    |c: int|
                        if r < m.size && c < m.size {
                            m.e[c][r]
                        } else {
                            0
                        },
                ),
        ),
    }
}

/// The first `n` terms of the row-by-column product, summed left to right.
pub open spec fn mv_dot_n(a: MatrixView, b: MatrixView, row: int, col: int, n: int) -> int
    decreases n,
{
    if n <= 0 {
        0
    } else {
        fx_add(mv_dot_n(a, b, row, col, n - 1), fx_mul(a.e[row][n - 1], b.e[n - 1][col]))
    }
}

/// The matrix product within the logical size, with zero padding.
pub open spec fn mv_mul(a: MatrixView, b: MatrixView) -> MatrixView {
    MatrixView {
        size: a.size,
        e: Seq::new(
            4,
            |r: int|
                Seq::new(
                    4,
                    |c: int|
                        if r < a.size && c < a.size {
                            mv_dot_n(a, b, r, c, a.size)
                        } else {
                            0
                        },
                ),
        ),
    }
}

/// One row read as a tuple.
pub open spec fn mv_row_tuple(m: MatrixView, r: int) -> TupleView {
    TupleView { x: m.e[r][0], y: m.e[r][1], z: m.e[r][2], w: m.e[r][3] }
}

/// A four-by-four matrix applied to a tuple.
pub open spec fn mv_mul_tuple(m: MatrixView, t: TupleView) -> TupleView {
    TupleView {
        x: tv_dot(mv_row_tuple(m, 0), t),
        y: tv_dot(mv_row_tuple(m, 1), t),
        z: tv_dot(mv_row_tuple(m, 2), t),
        w: tv_dot(mv_row_tuple(m, 3), t),
    }
}

/// An affine transform: size four, and a last row that is exactly
/// `[0, 0, 0, 1]`, so that points stay points and vectors stay vectors.
pub open spec fn mv_affine(m: MatrixView) -> bool {
    m.size == 4 && m.e[3][0] == 0 && m.e[3][1] == 0 && m.e[3][2] == 0 && m.e[3][3] == SCALE as int
}

/// Tolerance-based equality: equal sizes and entries within tolerance inside
/// the logical size.
pub open spec fn mv_approx_eq(a: MatrixView, b: MatrixView) -> bool {
    a.size == b.size && (forall|r: int, c: int|
        0 <= r < a.size && 0 <= c < a.size ==> fx_approx_eq(
            #[trigger] a.e[r][c],
            #[trigger] b.e[r][c],
        ))
}

/// One row of a matrix: four entries, of which the first `size` are live.
#[derive(Debug, Copy, Clone)]
pub struct Row {
    inner: [Scalar; 4],
    size: usize,
}

/// A square matrix of logical size two, three or four, stored in a
/// four-by-four grid whose spare entries are zero at construction.
#[derive(Debug, Copy, Clone)]
pub struct Matrix {
    inner: [Row; 4],
    size: usize,
}

impl Matrix {
    /// Every reachable matrix has a logical size of two, three or four.
    #[verifier::type_invariant]
    spec fn wf(self) -> bool {
        2 <= self.size <= 4
    }
}

impl View for Matrix {
    type V = MatrixView;

    closed spec fn view(&self) -> MatrixView {
        MatrixView {
            size: self.size as int,
            e: Seq::new(4, |r: int| Seq::new(4, |c: int| self.inner@[r].inner@[c]@)),
        }
    }
}

/// The identity matrix.
pub fn identity_matrix() -> (r: Matrix)
    ensures
        r@ == mv_identity(),
{
    Matrix::identity()
}

impl Default for Matrix {
    fn default() -> (r: Matrix)
        ensures
            r@ == mv_identity(),
    {
        Matrix::identity()
    }
}

impl PartialEq for Matrix {
    fn eq(&self, other: &Matrix) -> (r: bool) {
        proof {
            use_type_invariant(self);
            use_type_invariant(other);
        }
        if self.size != other.size {
            return false;
        }
        let size = self.size;
        let mut row: usize = 0;
        while row < size
            invariant
                0 <= row <= size,
                size == self@.size,
                size == other@.size,
                size <= 4,
                forall|i: int, j: int|
                    0 <= i < row && 0 <= j < size ==> fx_approx_eq(
                        #[trigger] self@.e[i][j],
                        #[trigger] other@.e[i][j],
                    ),
            decreases size - row,
        {
            let mut col: usize = 0;
            while col < size
                invariant
                    0 <= row < size,
                    0 <= col <= size,
                    size == self@.size,
                    size == other@.size,
                    size <= 4,
                    forall|i: int, j: int|
                        0 <= i < row && 0 <= j < size ==> fx_approx_eq(
                            #[trigger] self@.e[i][j],
                            #[trigger] other@.e[i][j],
                        ),
                    forall|j: int|
                        0 <= j < col ==> fx_approx_eq(
                            #[trigger] self@.e[row as int][j],
                            other@.e[row as int][j],
                        ),
                decreases size - col,
            {
                if !Scalar::approx_eq(self.inner[row].inner[col], other.inner[row].inner[col]) {
                    proof {
                        assert(!fx_approx_eq(
                            self@.e[row as int][col as int],
                            other@.e[row as int][col as int],
                        ));
                    }
                    return false;
                }
                col = col + 1;
            }
            row = row + 1;
        }
        true
    }
}

impl vstd::std_specs::cmp::PartialEqSpecImpl for Matrix {
    open spec fn obeys_eq_spec() -> bool {
        true
    }

    open spec fn eq_spec(&self, other: &Matrix) -> bool {
        mv_approx_eq(self@, other@)
    }
}

impl Matrix {
    /// A four-by-four matrix from its rows.
    pub fn new(row0: [Scalar; 4], row1: [Scalar; 4], row2: [Scalar; 4], row3: [Scalar; 4]) -> (r:
        Matrix)
        ensures
            r@.size == 4,
            mv_ok(r@),
            mv_padded(r@),
            forall|c: int| 0 <= c < 4 ==> mv_entry(r@, 0, c) == row0@[c]@,
            forall|c: int| 0 <= c < 4 ==> mv_entry(r@, 1, c) == row1@[c]@,
            forall|c: int| 0 <= c < 4 ==> mv_entry(r@, 2, c) == row2@[c]@,
            forall|c: int| 0 <= c < 4 ==> mv_entry(r@, 3, c) == row3@[c]@,
    {
        Matrix {
            inner: [
                Row { inner: row0, size: 4 },
                Row { inner: row1, size: 4 },
                Row { inner: row2, size: 4 },
                Row { inner: row3, size: 4 },
            ],
            size: 4,
        }
    }

    /// A three-by-three matrix from its rows.
    pub fn new3(row0: [Scalar; 3], row1: [Scalar; 3], row2: [Scalar; 3]) -> (r: Matrix)
        ensures
            r@.size == 3,
            mv_ok(r@),
            mv_padded(r@),
            forall|c: int| 0 <= c < 3 ==> mv_entry(r@, 0, c) == row0@[c]@,
            forall|c: int| 0 <= c < 3 ==> mv_entry(r@, 1, c) == row1@[c]@,
            forall|c: int| 0 <= c < 3 ==> mv_entry(r@, 2, c) == row2@[c]@,
    {
        Matrix {
            inner: [
                Matrix::coerce_array3(row0),
                Matrix::coerce_array3(row1),
                Matrix::coerce_array3(row2),
                Matrix::coerce_array3([Scalar::zero(), Scalar::zero(), Scalar::zero()]),
            ],
            size: 3,
        }
    }

    /// A two-by-two matrix from its rows.
    pub fn new2(row0: [Scalar; 2], row1: [Scalar; 2]) -> (r: Matrix)
        ensures
            r@.size == 2,
            mv_ok(r@),
            mv_padded(r@),
            forall|c: int| 0 <= c < 2 ==> mv_entry(r@, 0, c) == row0@[c]@,
            forall|c: int| 0 <= c < 2 ==> mv_entry(r@, 1, c) == row1@[c]@,
    {
        Matrix {
            inner: [
                Matrix::coerce_array2(row0),
                Matrix::coerce_array2(row1),
                Matrix::coerce_array2([Scalar::zero(), Scalar::zero()]),
                Matrix::coerce_array2([Scalar::zero(), Scalar::zero()]),
            ],
            size: 2,
        }
    }

    /// The zero matrix of size four.
    pub fn new_empty4() -> (r: Matrix)
        ensures
            r@.size == 4,
            mv_ok(r@),
            mv_padded(r@),
            forall|i: int, j: int| 0 <= i < 4 && 0 <= j < 4 ==> mv_entry(r@, i, j) == 0,
    {
        let z = Scalar::zero();
        Matrix::new([z, z, z, z], [z, z, z, z], [z, z, z, z], [z, z, z, z])
    }

    /// The zero matrix of size three.
    pub fn new_empty3() -> (r: Matrix)
        ensures
            r@.size == 3,
            mv_ok(r@),
            mv_padded(r@),
            forall|i: int, j: int| 0 <= i < 4 && 0 <= j < 4 ==> mv_entry(r@, i, j) == 0,
    {
        let z = Scalar::zero();
        Matrix::new3([z, z, z], [z, z, z], [z, z, z])
    }

    /// The zero matrix of size two.
    pub fn new_empty2() -> (r: Matrix)
        ensures
            r@.size == 2,
            mv_ok(r@),
            mv_padded(r@),
            forall|i: int, j: int| 0 <= i < 4 && 0 <= j < 4 ==> mv_entry(r@, i, j) == 0,
    {
        let z = Scalar::zero();
        Matrix::new2([z, z], [z, z])
    }

    fn coerce_array2(arr: [Scalar; 2]) -> (r: Row)
        ensures
            r.inner@[0] == arr@[0],
            r.inner@[1] == arr@[1],
            r.inner@[2]@ == 0,
            r.inner@[3]@ == 0,
    {
        Row { inner: [arr[0], arr[1], Scalar::zero(), Scalar::zero()], size: 2 }
    }

    fn coerce_array3(arr: [Scalar; 3]) -> (r: Row)
        ensures
            r.inner@[0] == arr@[0],
            r.inner@[1] == arr@[1],
            r.inner@[2] == arr@[2],
            r.inner@[3]@ == 0,
    {
        Row { inner: [arr[0], arr[1], arr[2], Scalar::zero()], size: 3 }
    }

    /// The identity matrix.
    pub fn identity() -> (r: Matrix)
        ensures
            r@ == mv_identity(),
    {
        let o = Scalar::one();
        let z = Scalar::zero();
        let m = Matrix::new([o, z, z, z], [z, o, z, z], [z, z, o, z], [z, z, z, o]);
        proof {
            assert(m@.e =~~= mv_identity().e);
            assert(m@ =~= mv_identity());
        }
        m
    }

    /// The zero matrix of the same size as `self`.
    fn empty(&self) -> (r: Matrix)
        ensures
            r@.size == self@.size,
            mv_ok(r@),
            mv_padded(r@),
            forall|i: int, j: int| 0 <= i < 4 && 0 <= j < 4 ==> mv_entry(r@, i, j) == 0,
    {
        proof {
            use_type_invariant(self);
        }
        if self.size == 2 {
            Matrix::new_empty2()
        } else if self.size == 3 {
            Matrix::new_empty3()
        } else {
            Matrix::new_empty4()
        }
    }

    /// The logical size.
    pub fn size(&self) -> (r: usize)
        ensures
            r == self@.size,
    {
        self.size
    }

    /// Read one entry of the grid.
    pub fn at(&self, row: usize, col: usize) -> (r: Scalar)
        requires
            row < 4,
            col < 4,
        ensures
            r@ == mv_entry(self@, row as int, col as int),
    {
        self.inner[row].inner[col]
    }

    /// Overwrite one entry of the grid; everything else stays as it was.
    pub fn set(&mut self, row: usize, col: usize, value: Scalar)
        requires
            row < 4,
            col < 4,
        ensures
            final(self)@.size == old(self)@.size,
            mv_entry(final(self)@, row as int, col as int) == value@,
            forall|i: int, j: int|
                0 <= i < 4 && 0 <= j < 4 && !(i == row && j == col) ==> mv_entry(
                    final(self)@,
                    i,
                    j,
                ) == mv_entry(old(self)@, i, j),
            final(self)@.e.len() == old(self)@.e.len(),
            forall|i: int| 0 <= i < 4 ==> (#[trigger] final(self)@.e[i]).len() == old(self)@.e[
                i].len(),
    {
        proof {
            use_type_invariant(&*self);
        }
        let mut r = self.inner[row];
        r.inner[col] = value;
        self.inner[row] = r;
    }

    /// One row read as a tuple; meaningful for size-four matrices.
    pub fn tuple(&self, row: usize) -> (r: Tuple)
        requires
            row < 4,
        ensures
            r@ == mv_row_tuple(self@, row as int),
    {
        let rw = &self.inner[row];
        Tuple::new(rw.inner[0], rw.inner[1], rw.inner[2], rw.inner[3])
    }

    /// The transpose: rows and columns swap within the logical size.
    pub fn transpose(&self) -> (r: Matrix)
        ensures
            r@ == mv_transpose(self@),
    {
        proof {
            use_type_invariant(self);
        }
        let mut m = self.empty();
        let size = self.size;
        let mut row: usize = 0;
        while row < size
            invariant
                0 <= row <= size,
                size == self@.size,
                2 <= size <= 4,
                m@.size == size,
                mv_ok(m@),
                forall|i: int, j: int|
                    0 <= i < 4 && 0 <= j < 4 ==> mv_entry(m@, i, j) == (if 0 <= j < row && 0 <= i
                        < size {
                        mv_entry(self@, j, i)
                    } else {
                        0
                    }),
            decreases size - row,
        {
            let mut col: usize = 0;
            while col < size
                invariant
                    0 <= row < size,
                    0 <= col <= size,
                    size == self@.size,
                    2 <= size <= 4,
                    m@.size == size,
                    mv_ok(m@),
                    forall|i: int, j: int|
                        0 <= i < 4 && 0 <= j < 4 ==> mv_entry(m@, i, j) == (if (0 <= j < row && 0
                            <= i < size) || (j == row && 0 <= i < col) {
                            mv_entry(self@, j, i)
                        } else {
                            0
                        }),
                decreases size - col,
            {
                let v = self.inner[row].inner[col];
                m.set(col, row, v);
                col = col + 1;
            }
            row = row + 1;
        }
        proof {
            assert(m@.e =~~= mv_transpose(self@).e);
            assert(m@ =~= mv_transpose(self@));
        }
        m
    }
}


/// Index mapping that skips one row or column.
pub open spec fn mv_skip(i: int, s: int) -> int {
    if i < s {
        i
    } else {
        i + 1
    }
}

/// The submatrix with the given row and column struck out.
pub open spec fn mv_sub(m: MatrixView, row: int, col: int) -> MatrixView {
    MatrixView {
        size: m.size - 1,
        e: Seq::new(
            4,
            |r: int|
                Seq::new(
                    4,
                    |c: int|
                        if r < m.size - 1 && c < m.size - 1 {
                            m.e[mv_skip(r, row)][mv_skip(c, col)]
                        } else {
                            0
                        },
                ),
        ),
    }
}

/// The determinant: the two-by-two formula at the base, Laplace expansion
/// along the first row above it.
pub open spec fn spec_det(m: MatrixView) -> int
    decreases m.size, 1int, 0int,
{
    if m.size <= 2 {
        fx_sub(fx_mul(m.e[0][0], m.e[1][1]), fx_mul(m.e[0][1], m.e[1][0]))
    } else {
        spec_det_sum(m, m.size)
    }
}

/// The first `c` terms of the Laplace expansion along row zero.
pub open spec fn spec_det_sum(m: MatrixView, c: int) -> int
    decreases m.size, 0int, c,
{
    if c <= 0 || m.size < 3 {
        0
    } else {
        let minor = spec_det(mv_sub(m, 0, c - 1));
        let cof = if (c - 1) % 2 == 1 {
            -minor
        } else {
            minor
        };
        fx_add(spec_det_sum(m, c - 1), fx_mul(m.e[0][c - 1], cof))
    }
}

/// The minor: the determinant of the submatrix.
pub open spec fn spec_minor(m: MatrixView, row: int, col: int) -> int {
    spec_det(mv_sub(m, row, col))
}

/// The cofactor: the minor with the checkerboard sign applied.
pub open spec fn spec_cof(m: MatrixView, row: int, col: int) -> int {
    if (row + col) % 2 == 1 {
        -spec_minor(m, row, col)
    } else {
        spec_minor(m, row, col)
    }
}

/// The inverse: the transposed cofactors, each divided by the determinant.
pub open spec fn mv_inverse(m: MatrixView) -> MatrixView {
    MatrixView {
        size: m.size,
        e: Seq::new(
            4,
            |r: int|
                Seq::new(
                    4,
                    |c: int|
                        if r < m.size && c < m.size {
                            fx_div(spec_cof(m, c, r), spec_det(m))
                        } else {
                            0
                        },
                ),
        ),
    }
}

/// Every determinant lies in the clamped range, since the last step of its
/// computation clamps.
pub proof fn lemma_det_bounded(m: MatrixView)
    ensures
        -(BOUND as int) <= spec_det(m) <= BOUND as int,
{
    if m.size <= 2 {
    } else {
        assert(spec_det(m) == spec_det_sum(m, m.size));
        assert(spec_det_sum(m, m.size) == fx_add(
            spec_det_sum(m, m.size - 1),
            fx_mul(
                m.e[0][m.size - 1],
                if (m.size - 1) % 2 == 1 {
                    -spec_det(mv_sub(m, 0, m.size - 1))
                } else {
                    spec_det(mv_sub(m, 0, m.size - 1))
                },
            ),
        ));
    }
}

/// The identity matrix is an affine transform.
pub proof fn lemma_identity_affine()
    ensures
        mv_affine(mv_identity()),
{
    assert(mv_identity().e[3][0] == 0);
    assert(mv_identity().e[3][1] == 0);
    assert(mv_identity().e[3][2] == 0);
    assert(mv_identity().e[3][3] == SCALE as int);
}

impl core::ops::Mul<Matrix> for Matrix {
    type Output = Matrix;

    fn mul(self, rhs: Matrix) -> (r: Matrix)
        ensures
            r@ == mv_mul(self@, rhs@),
    {
        proof {
            use_type_invariant(self);
            use_type_invariant(rhs);
        }
        let mut m = self.empty();
        let size = self.size;
        let mut row: usize = 0;
        while row < size
            invariant
                0 <= row <= size,
                size == self@.size,
                2 <= size <= 4,
                m@.size == size,
                mv_ok(m@),
                forall|i: int, j: int|
                    0 <= i < 4 && 0 <= j < 4 ==> mv_entry(m@, i, j) == (if 0 <= i < row && 0 <= j
                        < size {
                        mv_dot_n(self@, rhs@, i, j, size as int)
                    } else {
                        0
                    }),
            decreases size - row,
        {
            let mut col: usize = 0;
            while col < size
                invariant
                    0 <= row < size,
                    0 <= col <= size,
                    size == self@.size,
                    2 <= size <= 4,
                    m@.size == size,
                    mv_ok(m@),
                    forall|i: int, j: int|
                        0 <= i < 4 && 0 <= j < 4 ==> mv_entry(m@, i, j) == (if (0 <= i < row && 0
                            <= j < size) || (i == row && 0 <= j < col) {
                            mv_dot_n(self@, rhs@, i, j, size as int)
                        } else {
                            0
                        }),
                decreases size - col,
            {
                let mut a = Scalar::zero();
                let mut i: usize = 0;
                while i < size
                    invariant
                        0 <= i <= size,
                        0 <= row < size,
                        0 <= col < size,
                        size == self@.size,
                        2 <= size <= 4,
                        a@ == mv_dot_n(self@, rhs@, row as int, col as int, i as int),
                    decreases size - i,
                {
                    a = a + self.at(row, i) * rhs.at(i, col);
                    i = i + 1;
                }
                m.set(row, col, a);
                col = col + 1;
            }
            row = row + 1;
        }
        proof {
            assert(m@.e =~~= mv_mul(self@, rhs@).e);
            assert(m@ =~= mv_mul(self@, rhs@));
        }
        m
    }
}

impl vstd::std_specs::ops::MulSpecImpl<Matrix> for Matrix {
    open spec fn obeys_mul_spec() -> bool {
        false
    }

    open spec fn mul_req(self, rhs: Matrix) -> bool {
        true
    }

    open spec fn mul_spec(self, rhs: Matrix) -> Matrix {
        arbitrary()
    }
}

impl core::ops::Mul<Tuple> for Matrix {
    type Output = Tuple;

    fn mul(self, rhs: Tuple) -> (r: Tuple)
        ensures
            r@ == mv_mul_tuple(self@, rhs@),
    {
        Tuple::new(
            self.tuple(0).dot(&rhs),
            self.tuple(1).dot(&rhs),
            self.tuple(2).dot(&rhs),
            self.tuple(3).dot(&rhs),
        )
    }
}

impl vstd::std_specs::ops::MulSpecImpl<Tuple> for Matrix {
    open spec fn obeys_mul_spec() -> bool {
        false
    }

    open spec fn mul_req(self, rhs: Tuple) -> bool {
        true
    }

    open spec fn mul_spec(self, rhs: Tuple) -> Tuple {
        arbitrary()
    }
}

impl Matrix {
    /// The determinant of the matrix.
    pub fn determinant(&self) -> (r: Scalar)
        ensures
            r@ == spec_det(self@),
        decreases self@.size, 3int,
    {
        proof {
            use_type_invariant(self);
        }
        if self.size == 2 {
            self.at(0, 0) * self.at(1, 1) - self.at(0, 1) * self.at(1, 0)
        } else {
            let size = self.size;
            let mut acc = Scalar::zero();
            let mut c: usize = 0;
            while c < size
                invariant
                    0 <= c <= size,
                    size == self@.size,
                    3 <= size <= 4,
                    acc@ == spec_det_sum(self@, c as int),
                decreases size - c,
            {
                acc = acc + self.at(0, c) * self.cofactor(0, c);
                c = c + 1;
            }
            acc
        }
    }

    /// The submatrix with the given row and column struck out.
    pub fn submatrix(&self, row: usize, col: usize) -> (r: Matrix)
        requires
            3 <= self@.size,
        ensures
            r@ == mv_sub(self@, row as int, col as int),
    {
        proof {
            use_type_invariant(self);
        }
        let size = self.size;
        let mut m = if size == 4 {
            Matrix::new_empty3()
        } else {
            Matrix::new_empty2()
        };
        let sub_size = size - 1;
        let mut r: usize = 0;
        while r < sub_size
            invariant
                0 <= r <= sub_size,
                sub_size == size - 1,
                size == self@.size,
                3 <= size <= 4,
                m@.size == sub_size,
                mv_ok(m@),
                forall|i: int, j: int|
                    0 <= i < 4 && 0 <= j < 4 ==> mv_entry(m@, i, j) == (if 0 <= i < r && 0 <= j
                        < sub_size {
                        self@.e[mv_skip(i, row as int)][mv_skip(j, col as int)]
                    } else {
                        0
                    }),
            decreases sub_size - r,
        {
            let src_r = if r < row {
                r
            } else {
                r + 1
            };
            let mut c: usize = 0;
            while c < sub_size
                invariant
                    0 <= r < sub_size,
                    0 <= c <= sub_size,
                    sub_size == size - 1,
                    size == self@.size,
                    3 <= size <= 4,
                    m@.size == sub_size,
                    mv_ok(m@),
                    src_r == mv_skip(r as int, row as int),
                    src_r < 4,
                    forall|i: int, j: int|
                        0 <= i < 4 && 0 <= j < 4 ==> mv_entry(m@, i, j) == (if (0 <= i < r && 0
                            <= j < sub_size) || (i == r && 0 <= j < c) {
                            self@.e[mv_skip(i, row as int)][mv_skip(j, col as int)]
                        } else {
                            0
                        }),
                decreases sub_size - c,
            {
                let src_c = if c < col {
                    c
                } else {
                    c + 1
                };
                let v = self.at(src_r, src_c);
                m.set(r, c, v);
                c = c + 1;
            }
            r = r + 1;
        }
        proof {
            assert(m@.e =~~= mv_sub(self@, row as int, col as int).e);
            assert(m@ =~= mv_sub(self@, row as int, col as int));
        }
        m
    }

    /// The minor: the determinant of the submatrix.
    pub fn minor(&self, row: usize, col: usize) -> (r: Scalar)
        requires
            3 <= self@.size,
        ensures
            r@ == spec_minor(self@, row as int, col as int),
        decreases self@.size, 1int,
    {
        proof {
            use_type_invariant(self);
        }
        self.submatrix(row, col).determinant()
    }

    /// The cofactor: the minor with the checkerboard sign applied.
    pub fn cofactor(&self, row: usize, col: usize) -> (r: Scalar)
        requires
            3 <= self@.size,
            row < 4,
            col < 4,
        ensures
            r@ == spec_cof(self@, row as int, col as int),
        decreases self@.size, 2int,
    {
        let minor = self.minor(row, col);
        proof {
            lemma_det_bounded(mv_sub(self@, row as int, col as int));
        }
        if (row + col) % 2 == 1 {
            minor.neg()
        } else {
            minor
        }
    }

    /// The inverse, refused for a near-singular matrix: a determinant within
    /// the tolerance of zero yields nothing, else entry by entry the
    /// transposed cofactor divided by the determinant.
    pub fn inverse(&self) -> (r: Option<Matrix>)
        requires
            3 <= self@.size,
        ensures
            match r {
                None => fx_abs(spec_det(self@)) < EPSILON as int,
                Some(m) => fx_abs(spec_det(self@)) >= EPSILON as int && m@ == mv_inverse(self@),
            },
    {
        proof {
            use_type_invariant(self);
        }
        let det = self.determinant();
        let det_units = det.units();
        if -EPSILON < det_units && det_units < EPSILON {
            return None;
        }
        let size = self.size;
        let mut inv = self.empty();
        let mut row: usize = 0;
        while row < size
            invariant
                0 <= row <= size,
                size == self@.size,
                3 <= size <= 4,
                det@ == spec_det(self@),
                det@ != 0,
                inv@.size == size,
                mv_ok(inv@),
                forall|a: int, b: int|
                    0 <= a < 4 && 0 <= b < 4 ==> mv_entry(inv@, a, b) == (if 0 <= b < row && 0 <= a
                        < size {
                        fx_div(spec_cof(self@, b, a), spec_det(self@))
                    } else {
                        0
                    }),
            decreases size - row,
        {
            let mut col: usize = 0;
            while col < size
                invariant
                    0 <= row < size,
                    0 <= col <= size,
                    size == self@.size,
                    3 <= size <= 4,
                    det@ == spec_det(self@),
                    det@ != 0,
                    inv@.size == size,
                    mv_ok(inv@),
                    forall|a: int, b: int|
                        0 <= a < 4 && 0 <= b < 4 ==> mv_entry(inv@, a, b) == (if (0 <= b < row && 0
                            <= a < size) || (b == row && 0 <= a < col) {
                            fx_div(spec_cof(self@, b, a), spec_det(self@))
                        } else {
                            0
                        }),
                decreases size - col,
            {
                let cof = self.cofactor(row, col);
                inv.set(col, row, cof / det);
                col = col + 1;
            }
            row = row + 1;
        }
        proof {
            assert(inv@.e =~~= mv_inverse(self@).e);
            assert(inv@ =~= mv_inverse(self@));
        }
        Some(inv)
    }
}

} // verus!
