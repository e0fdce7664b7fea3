//! Matrices of scalars, kept row by row.
use crate::arithmetic::{near, spec_near, Arithmetic};
use crate::grid::{lemma_offset, lemma_place, offset};
use crate::scalar::Scalar;
use crate::tuple::{dot, spec_dot, Tuple};
use vstd::prelude::*;

verus! {

/// A matrix with `height` rows and `width` columns.
#[derive(Clone, Debug)]
pub struct Matrix {
    width: usize,
    height: usize,
    elements: Vec<Scalar>,
}

/// A matrix as the contracts see it: its shape, and its entries row after
/// row.
pub struct Table {
    pub width: nat,
    pub height: nat,
    pub values: Seq<Scalar>,
}

impl View for Matrix {
    type V = Table;

    closed spec fn view(&self) -> Table {
        Table {
            width: self.width as nat,
            height: self.height as nat,
            values: self.elements@,
        }
    }
}

/// The row or column of a matrix that entry `i` of a submatrix comes from,
/// where `removed` is the row or column that was deleted.
pub open spec fn skip(i: int, removed: int) -> int {
    if i < removed {
        i
    } else {
        i + 1
    }
}

impl Table {
    /// The table holds one entry for each place of its rectangle.
    pub open spec fn wf(self) -> bool {
        self.values.len() == self.width * self.height
    }

    /// Four rows and four columns.
    pub open spec fn is_4x4(self) -> bool {
        &&& self.wf()
        &&& self.width == 4
        &&& self.height == 4
    }

    /// As many rows as columns.
    pub open spec fn is_square(self) -> bool {
        &&& self.wf()
        &&& self.width == self.height
    }

    /// The entry in row `row`, column `col`.
    pub open spec fn entry(self, row: int, col: int) -> Scalar {
        self.values[offset(self.width, col, row)]
    }

    /// Row `r` of a table with four columns, as a tuple.
    pub open spec fn row(self, r: int) -> Tuple {
        Tuple {
            x: self.entry(r, 0),
            y: self.entry(r, 1),
            z: self.entry(r, 2),
            w: self.entry(r, 3),
        }
    }

    /// Column `c` of a table with four rows, as a tuple.
    pub open spec fn column(self, c: int) -> Tuple {
        Tuple {
            x: self.entry(0, c),
            y: self.entry(1, c),
            z: self.entry(2, c),
            w: self.entry(3, c),
        }
    }

    /// The identity of size four: 1 on its diagonal, 0 elsewhere.
    pub open spec fn identity_4x4() -> Table {
        Table {
            width: 4,
            height: 4,
            values: Seq::new(
                16,
                |k: int|
                    if k / 4 == k % 4 {
                        Scalar::spec_one()
                    } else {
                        Scalar::spec_zero()
                    },
            ),
        }
    }

    /// The product of two tables of size four: its entry in row `r`, column
    /// `c` is the dot product of row `r` of `self` and column `c` of `rhs`.
    pub open spec fn mul<A: Arithmetic>(self, rhs: Table, f: &A) -> Table {
        Table {
            width: 4,
            height: 4,
            values: Seq::new(16, |k: int| spec_dot(self.row(k / 4), rhs.column(k % 4), f)),
        }
    }

    /// The table, of size four, applied to `t`: each coordinate is the dot
    /// product of one row and `t`.
    pub open spec fn apply<A: Arithmetic>(self, t: Tuple, f: &A) -> Tuple {
        Tuple {
            x: spec_dot(self.row(0), t, f),
            y: spec_dot(self.row(1), t, f),
            z: spec_dot(self.row(2), t, f),
            w: spec_dot(self.row(3), t, f),
        }
    }

    /// The table turned over its diagonal: its rows are the columns of
    /// `self`.
    pub open spec fn transpose(self) -> Table {
        Table {
            width: self.height,
            height: self.width,
            values: Seq::new(
                self.width * self.height,
                |k: int| self.entry(k % (self.height as int), k / (self.height as int)),
            ),
        }
    }

    /// The table without its row `row` and its column `column`.
    pub open spec fn submatrix(self, row: int, column: int) -> Table {
        let width = (self.width - 1) as nat;
        let height = (self.height - 1) as nat;
        Table {
            width,
            height,
            values: Seq::new(
                width * height,
                |k: int| self.entry(skip(k / (width as int), row), skip(k % (width as int), column)),
            ),
        }
    }

    /// Whether two tables are equal: whether they have the same shape and
    /// each entry of the one lies within 0.00001 of that of the other.
    pub open spec fn eq<A: Arithmetic>(self, other: Table, f: &A) -> bool {
        &&& self.width == other.width
        &&& self.height == other.height
        &&& forall|i: int|
            0 <= i < self.values.len() ==> spec_near(
                f,
                #[trigger] self.values[i],
                other.values[i],
                Scalar::spec_tolerance(),
            )
    }

    /// The entry of the identity in row `r`, column `c`.
    pub proof fn lemma_identity_entry(r: int, c: int)
        requires
            0 <= r < 4,
            0 <= c < 4,
        ensures
            Table::identity_4x4().is_4x4(),
            Table::identity_4x4().entry(r, c) == if r == c {
                Scalar::spec_one()
            } else {
                Scalar::spec_zero()
            },
    {
        lemma_offset(4, 4, c, r);
    }

    /// The entry of a product in row `r`, column `c`.
    pub proof fn lemma_mul_entry<A: Arithmetic>(self, rhs: Table, f: &A, r: int, c: int)
        requires
            0 <= r < 4,
            0 <= c < 4,
        ensures
            self.mul(rhs, f).is_4x4(),
            self.mul(rhs, f).entry(r, c) == spec_dot(self.row(r), rhs.column(c), f),
    {
        lemma_offset(4, 4, c, r);
    }

    /// The entry of a transpose in row `r`, column `c`.
    pub proof fn lemma_transpose_entry(self, r: int, c: int)
        requires
            self.wf(),
            0 <= r < self.width,
            0 <= c < self.height,
        ensures
            self.transpose().wf(),
            self.transpose().entry(r, c) == self.entry(c, r),
    {
        lemma_offset(self.height, self.width, c, r);
        assert(self.width * self.height == self.height * self.width) by (nonlinear_arith);
    }

    /// The entry of a submatrix in row `i`, column `j`.
    pub proof fn lemma_submatrix_entry(self, row: int, column: int, i: int, j: int)
        requires
            self.wf(),
            0 <= i < self.height - 1,
            0 <= j < self.width - 1,
        ensures
            self.submatrix(row, column).wf(),
            self.submatrix(row, column).entry(i, j) == self.entry(skip(i, row), skip(j, column)),
    {
        lemma_offset((self.width - 1) as nat, (self.height - 1) as nat, j, i);
    }

    /// Turning a table over twice gives it back.
    pub proof fn lemma_transpose_involution(self)
        requires
            self.wf(),
        ensures
            self.transpose().transpose() == self,
    {
        let t = self.transpose();
        let tt = t.transpose();
        assert(self.width * self.height == self.height * self.width) by (nonlinear_arith);
        assert forall|k: int| 0 <= k < self.values.len() implies tt.values[k] == self.values[k] by {
            lemma_place(self.width, self.height, k);
            let c = k % (self.width as int);
            let r = k / (self.width as int);
            t.lemma_transpose_entry(r, c);
            self.lemma_transpose_entry(c, r);
            assert(tt.values[k] == t.entry(c, r));
        }
        assert(tt.values =~= self.values);
    }
}

impl Matrix {
    /// The matrix holds one entry for each place of its rectangle.
    pub open spec fn wf(&self) -> bool {
        self@.wf()
    }

    /// The matrix of the given shape whose rows, one after the other, are
    /// `values`.
    pub fn new(width: usize, height: usize, values: Vec<Scalar>) -> (m: Matrix)
        requires
            values.len() == width * height,
        ensures
            m.wf(),
            m@ == (Table { width: width as nat, height: height as nat, values: values@ }),
    {
        Matrix { width, height, elements: values }
    }

    /// The number of columns.
    pub fn width(&self) -> (w: usize)
        ensures
            w == self@.width,
    {
        self.width
    }

    /// The number of rows.
    pub fn height(&self) -> (h: usize)
        ensures
            h == self@.height,
    {
        self.height
    }

    /// The entry in row `y`, column `x`.
    pub fn at(&self, y: usize, x: usize) -> (v: Scalar)
        requires
            self.wf(),
            y < self@.height,
            x < self@.width,
        ensures
            v == self@.entry(y as int, x as int),
    {
        proof {
            lemma_offset(self@.width, self@.height, x as int, y as int);
            assert(self.elements.len() == self.width * self.height);
            assert(offset(self@.width, x as int, y as int) == y * self.width + x);
            assert(0 <= y * self.width) by (nonlinear_arith);
        }
        self.elements[y * self.width + x]
    }

    /// The identity of size four.
    pub fn identity_4x4() -> (m: Matrix)
        ensures
            m@ == Table::identity_4x4(),
    {
        let o = Scalar::zero();
        let i = Scalar::one();
        let m = Matrix::new(4, 4, vec![i, o, o, o, o, i, o, o, o, o, i, o, o, o, o, i]);
        assert(m@.values =~= Table::identity_4x4().values);
        m
    }

    /// Row `r` of a matrix with four columns.
    pub fn row(&self, r: usize) -> (t: Tuple)
        requires
            self.wf(),
            self@.width == 4,
            r < self@.height,
        ensures
            t == self@.row(r as int),
    {
        Tuple { x: self.at(r, 0), y: self.at(r, 1), z: self.at(r, 2), w: self.at(r, 3) }
    }

    /// Column `c` of a matrix with four rows.
    pub fn column(&self, c: usize) -> (t: Tuple)
        requires
            self.wf(),
            self@.height == 4,
            c < self@.width,
        ensures
            t == self@.column(c as int),
    {
        Tuple { x: self.at(0, c), y: self.at(1, c), z: self.at(2, c), w: self.at(3, c) }
    }

    /// The product of `self` and `rhs`, both of size four: its entry in row
    /// `r`, column `c` is the dot product of row `r` of `self` and column `c`
    /// of `rhs`.
    pub fn mul<A: Arithmetic>(&self, rhs: &Matrix, f: &A) -> (m: Matrix)
        requires
            f.ready(),
            self@.is_4x4(),
            rhs@.is_4x4(),
        ensures
            m@ == self@.mul(rhs@, f),
    {
        let mut elements: Vec<Scalar> = Vec::new();
        let mut r: usize = 0;
        while r < 4
            invariant
                f.ready(),
                self@.is_4x4(),
                rhs@.is_4x4(),
                r <= 4,
                elements.len() == r * 4,
                forall|k: int|
                    0 <= k < elements.len() ==> #[trigger] elements[k] == spec_dot(
                        self@.row(k / 4),
                        rhs@.column(k % 4),
                        f,
                    ),
            decreases 4 - r,
        {
            let left = self.row(r);
            let mut c: usize = 0;
            while c < 4
                invariant
                    f.ready(),
                    self@.is_4x4(),
                    rhs@.is_4x4(),
                    r < 4,
                    c <= 4,
                    left == self@.row(r as int),
                    elements.len() == r * 4 + c,
                    forall|k: int|
                        0 <= k < elements.len() ==> #[trigger] elements[k] == spec_dot(
                            self@.row(k / 4),
                            rhs@.column(k % 4),
                            f,
                        ),
                decreases 4 - c,
            {
                let v = dot(&left, &rhs.column(c), f);
                elements.push(v);
                c += 1;
            }
            r += 1;
        }
        let m = Matrix { width: 4, height: 4, elements };
        assert(m@.values =~= self@.mul(rhs@, f).values);
        m
    }

    /// The matrix, of size four, applied to the tuple `t`: each coordinate of
    /// the result is the dot product of one row and `t`.
    pub fn apply<A: Arithmetic>(&self, t: &Tuple, f: &A) -> (p: Tuple)
        requires
            f.ready(),
            self@.is_4x4(),
        ensures
            p == self@.apply(*t, f),
    {
        let x = dot(&self.row(0), t, f);
        let y = dot(&self.row(1), t, f);
        let z = dot(&self.row(2), t, f);
        let w = dot(&self.row(3), t, f);
        Tuple { x, y, z, w }
    }

    /// Whether two matrices are equal: they have the same shape, and every
    /// entry of the one lies within 0.00001 of that of the other.
    pub fn eq<A: Arithmetic>(&self, other: &Matrix, f: &A) -> (same: bool)
        requires
            f.ready(),
            self.wf(),
            other.wf(),
        ensures
            same == self@.eq(other@, f),
    {
        if self.width != other.width || self.height != other.height {
            return false;
        }
        let t = Scalar::tolerance();
        let mut i: usize = 0;
        while i < self.elements.len()
            invariant
                f.ready(),
                t == Scalar::spec_tolerance(),
                i <= self.elements.len(),
                self.elements.len() == other.elements.len(),
                forall|k: int| 0 <= k < i ==> spec_near(f, #[trigger] self@.values[k], other@.values[k], t),
            decreases self.elements.len() - i,
        {
            if !near(f, self.elements[i], other.elements[i], t) {
                assert(!spec_near(f, self@.values[i as int], other@.values[i as int], t));
                return false;
            }
            i += 1;
        }
        true
    }

    /// The matrix turned over its diagonal: its rows are the columns of
    /// `self`.
    pub fn transpose(&self) -> (t: Matrix)
        requires
            self.wf(),
        ensures
            t@ == self@.transpose(),
    {
        let w: usize = self.width;
        let h: usize = self.height;
        let mut elements: Vec<Scalar> = Vec::new();
        let mut r: usize = 0;
        while r < w
            invariant
                self.wf(),
                w == self@.width,
                h == self@.height,
                r <= w,
                elements.len() == r * h,
                forall|k: int|
                    0 <= k < elements.len() ==> #[trigger] elements[k] == self@.entry(
                        k % (h as int),
                        k / (h as int),
                    ),
            decreases w - r,
        {
            let mut c: usize = 0;
            while c < h
                invariant
                    self.wf(),
                    w == self@.width,
                    h == self@.height,
                    r < w,
                    c <= h,
                    elements.len() == r * h + c,
                    forall|k: int|
                        0 <= k < elements.len() ==> #[trigger] elements[k] == self@.entry(
                            k % (h as int),
                            k / (h as int),
                        ),
                decreases h - c,
            {
                proof {
                    lemma_offset(h as nat, w as nat, c as int, r as int);
                }
                elements.push(self.at(c, r));
                c += 1;
            }
            proof {
                assert((r + 1) * h == r * h + h) by (nonlinear_arith);
            }
            r += 1;
        }
        let t = Matrix { width: h, height: w, elements };
        assert(t@.values =~= self@.transpose().values);
        t
    }
}

/// The matrix without row `row` and column `column`.
pub fn submatrix(matrix: &Matrix, row: usize, column: usize) -> (s: Matrix)
    requires
        matrix.wf(),
        row < matrix@.height,
        column < matrix@.width,
    ensures
        s@ == matrix@.submatrix(row as int, column as int),
{
    let w: usize = matrix.width;
    let h: usize = matrix.height;
    let ghost sw: int = w - 1;
    let mut elements: Vec<Scalar> = Vec::new();
    let mut y: usize = 0;
    while y < h
        invariant
            matrix.wf(),
            w == matrix@.width,
            h == matrix@.height,
            row < h,
            column < w,
            sw == w - 1,
            y <= h,
            elements.len() == (if y <= row {
                y as int
            } else {
                y - 1
            }) * sw,
            forall|k: int|
                0 <= k < elements.len() ==> #[trigger] elements[k] == matrix@.entry(
                    skip(k / sw, row as int),
                    skip(k % sw, column as int),
                ),
        decreases h - y,
    {
        let ghost done: int = if y <= row {
            y as int
        } else {
            y - 1
        };
        if y != row {
            let mut x: usize = 0;
            while x < w
                invariant
                    matrix.wf(),
                    w == matrix@.width,
                    h == matrix@.height,
                    row < h,
                    column < w,
                    sw == w - 1,
                    y < h,
                    y != row,
                    x <= w,
                    done == (if y <= row {
                        y as int
                    } else {
                        y - 1
                    }),
                    elements.len() == done * sw + (if x <= column {
                        x as int
                    } else {
                        x - 1
                    }),
                    forall|k: int|
                        0 <= k < elements.len() ==> #[trigger] elements[k] == matrix@.entry(
                            skip(k / sw, row as int),
                            skip(k % sw, column as int),
                        ),
                decreases w - x,
            {
                if x != column {
                    proof {
                        let cx: int = if x <= column {
                            x as int
                        } else {
                            x - 1
                        };
                        lemma_offset(sw as nat, (h - 1) as nat, cx, done);
                    }
                    elements.push(matrix.at(y, x));
                }
                x += 1;
            }
            proof {
                assert((done + 1) * sw == done * sw + sw) by (nonlinear_arith);
            }
        }
        y += 1;
    }
    proof {
        assert((h - 1) * sw == sw * (h - 1)) by (nonlinear_arith);
    }
    let s = Matrix { width: w - 1, height: h - 1, elements };
    assert(s@.values =~= matrix@.submatrix(row as int, column as int).values);
    s
}

} // verus!
