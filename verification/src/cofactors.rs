//! Determinants by cofactor expansion, and the inverse of a matrix.
use crate::arithmetic::{
    product_difference, spec_product_difference, spec_sum_with_product, sum_with_product, Arithmetic,
};
use crate::grid::lemma_offset;
use crate::matrix::{submatrix, Matrix, Table};
use crate::scalar::Scalar;
use core::ops::Neg;
use vstd::prelude::*;

verus! {

/// The determinant of `m`.
///
/// Of a matrix of size two with the rows (a, b) and (c, d) it is ad − bc. Of
/// any other square matrix it is what the expansion along the first row comes
/// to, all columns counted.
pub open spec fn spec_determinant<A: Arithmetic>(m: Table, f: &A) -> Scalar
    decreases m.width, 3int, 0nat,
{
    if m.width == 2 && m.height == 2 {
        spec_product_difference(f, m.entry(0, 0), m.entry(1, 1), m.entry(0, 1), m.entry(1, 0))
    } else {
        expansion(m, m.width, f)
    }
}

/// What the expansion of `m` along its first row comes to when the first `n`
/// columns are counted: with none counted it is 0, and each further column
/// adds the product of its entry in the first row and the cofactor of that
/// entry.
pub open spec fn expansion<A: Arithmetic>(m: Table, n: nat, f: &A) -> Scalar
    decreases m.width, 2int, n,
{
    if n == 0 || n > m.width {
        Scalar::spec_zero()
    } else {
        spec_sum_with_product(
            f,
            expansion(m, (n - 1) as nat, f),
            m.entry(0, n - 1),
            spec_cofactor(m, 0, n - 1, f),
        )
    }
}

/// The minor of `m` at `row`, `column`: the determinant of `m` without that
/// row and that column.
pub open spec fn spec_minor<A: Arithmetic>(m: Table, row: int, column: int, f: &A) -> Scalar
    decreases m.width, 0int, 0nat,
{
    if m.width == 0 {
        Scalar::spec_zero()
    } else {
        spec_determinant(m.submatrix(row, column), f)
    }
}

/// Whether the cofactor at `row`, `column` is the minor with its sign
/// changed: it is where `row + column` is odd.
pub open spec fn spec_cofactor_flips(row: int, column: int) -> bool {
    (row + column) % 2 == 1
}

/// The cofactor of `m` at `row`, `column`: the minor there, with its sign
/// changed where `row + column` is odd.
pub open spec fn spec_cofactor<A: Arithmetic>(m: Table, row: int, column: int, f: &A) -> Scalar
    decreases m.width, 1int, 0nat,
{
    if spec_cofactor_flips(row, column) {
        spec_minor(m, row, column, f).negated()
    } else {
        spec_minor(m, row, column, f)
    }
}

/// Whether `m` can be inverted: whether its determinant is not 0.
pub open spec fn spec_invertible<A: Arithmetic>(m: Table, f: &A) -> bool {
    !spec_determinant(m, f).equal(Scalar::spec_zero())
}

/// The inverse of the square matrix `m`: for every row `r` and column `c` of
/// `m`, its entry in row `c`, column `r` is the cofactor of `m` at `r`, `c`,
/// divided by the determinant of `m`.
pub open spec fn spec_inverse<A: Arithmetic>(m: Table, f: &A) -> Table {
    Table {
        width: m.width,
        height: m.height,
        values: Seq::new(
            m.width * m.height,
            |k: int|
                f.quotient(
                    spec_cofactor(m, k % (m.width as int), k / (m.width as int), f),
                    spec_determinant(m, f),
                ),
        ),
    }
}

/// The entry of the inverse in row `c`, column `r`.
pub proof fn lemma_inverse_entry<A: Arithmetic>(m: Table, f: &A, r: int, c: int)
    requires
        m.is_square(),
        0 <= r < m.height,
        0 <= c < m.width,
    ensures
        spec_inverse(m, f).is_square(),
        spec_inverse(m, f).entry(c, r) == f.quotient(spec_cofactor(m, r, c, f), spec_determinant(m, f)),
{
    lemma_offset(m.width, m.height, r, c);
}

/// Whether the cofactor at row `row`, column `column` is the minor with its
/// sign changed: it is where `row + column` is odd.
pub fn cofactor_flips(row: usize, column: usize) -> (flip: bool)
    ensures
        flip == spec_cofactor_flips(row as int, column as int),
{
    (row % 2) != (column % 2)
}

/// The determinant of a square matrix, by expansion along its first row.
pub fn determinant<A: Arithmetic>(m: &Matrix, f: &A) -> (d: Scalar)
    requires
        f.ready(),
        m@.is_square(),
    ensures
        d == spec_determinant(m@, f),
    decreases m@.width, 3int, 0nat,
{
    if m.width() == 2 && m.height() == 2 {
        product_difference(f, m.at(0, 0), m.at(1, 1), m.at(0, 1), m.at(1, 0))
    } else {
        let n: usize = m.width();
        let mut result = Scalar::zero();
        let mut c: usize = 0;
        while c < n
            invariant
                f.ready(),
                m@.is_square(),
                n == m@.width,
                c <= n,
                result == expansion(m@, c as nat, f),
            decreases n - c,
        {
            let x = cofactor(m, 0, c, f);
            result = sum_with_product(f, result, m.at(0, c), x);
            c += 1;
        }
        result
    }
}

/// The minor of a square matrix at `row`, `column`: the determinant of the
/// matrix without that row and that column.
pub fn minor<A: Arithmetic>(m: &Matrix, row: usize, column: usize, f: &A) -> (x: Scalar)
    requires
        f.ready(),
        m@.is_square(),
        row < m@.height,
        column < m@.width,
    ensures
        x == spec_minor(m@, row as int, column as int, f),
    decreases m@.width, 0int, 0nat,
{
    let sub = submatrix(m, row, column);
    determinant(&sub, f)
}

/// The cofactor of a square matrix at `row`, `column`: the minor there, with
/// its sign changed where `row + column` is odd.
pub fn cofactor<A: Arithmetic>(m: &Matrix, row: usize, column: usize, f: &A) -> (x: Scalar)
    requires
        f.ready(),
        m@.is_square(),
        row < m@.height,
        column < m@.width,
    ensures
        x == spec_cofactor(m@, row as int, column as int, f),
    decreases m@.width, 1int, 0nat,
{
    let value = minor(m, row, column, f);
    if cofactor_flips(row, column) {
        value.neg()
    } else {
        value
    }
}

/// Whether a square matrix can be inverted: its determinant is not 0.
pub fn invertible<A: Arithmetic>(m: &Matrix, f: &A) -> (yes: bool)
    requires
        f.ready(),
        m@.is_square(),
    ensures
        yes == spec_invertible(m@, f),
{
    determinant(m, f) != Scalar::zero()
}

/// The inverse of a square matrix that can be inverted.
///
/// For every row r and column c of the matrix, the entry of the inverse in row
/// c, column r is the cofactor at r, c divided by the determinant.
pub fn inverse<A: Arithmetic>(m: &Matrix, f: &A) -> (inv: Matrix)
    requires
        f.ready(),
        m@.is_square(),
        spec_invertible(m@, f),
    ensures
        inv@ == spec_inverse(m@, f),
{
    let d = determinant(m, f);
    let n: usize = m.width();
    let mut quotients: Vec<Scalar> = Vec::new();
    let mut r: usize = 0;
    while r < n
        invariant
            f.ready(),
            m@.is_square(),
            n == m@.width,
            d == spec_determinant(m@, f),
            r <= n,
            quotients.len() == r * n,
            forall|k: int|
                0 <= k < quotients.len() ==> #[trigger] quotients[k] == f.quotient(
                    spec_cofactor(m@, k / (n as int), k % (n as int), f),
                    d,
                ),
        decreases n - r,
    {
        let mut c: usize = 0;
        while c < n
            invariant
                f.ready(),
                m@.is_square(),
                n == m@.width,
                d == spec_determinant(m@, f),
                r < n,
                c <= n,
                quotients.len() == r * n + c,
                forall|k: int|
                    0 <= k < quotients.len() ==> #[trigger] quotients[k] == f.quotient(
                        spec_cofactor(m@, k / (n as int), k % (n as int), f),
                        d,
                    ),
            decreases n - c,
        {
            let x = cofactor(m, r, c, f);
            let q = f.div(x, d);
            proof {
                lemma_offset(n as nat, n as nat, c as int, r as int);
            }
            quotients.push(q);
            c += 1;
        }
        proof {
            assert((r + 1) * n == r * n + n) by (nonlinear_arith);
        }
        r += 1;
    }
    let by_row = Matrix::new(n, n, quotients);
    let inv = by_row.transpose();
    proof {
        let expected = spec_inverse(m@, f);
        assert forall|k: int| 0 <= k < expected.values.len() implies inv@.values[k]
            == expected.values[k] by {
            crate::grid::lemma_place(n as nat, n as nat, k);
            let i = k / (n as int);
            let j = k % (n as int);
            lemma_offset(n as nat, n as nat, i, j);
            assert(inv@.values[k] == by_row@.entry(j, i));
            assert(by_row@.entry(j, i) == quotients@[j * n + i]);
        }
        assert(inv@.values =~= expected.values);
    }
    inv
}

} // verus!
