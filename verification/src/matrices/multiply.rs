//! Three ways to multiply two 4×4 matrices. They differ in the order in which
//! the sixteen components are visited, not in what a component is: each is the
//! same four products added in the same order.

use vstd::prelude::*;

use crate::matrices::kernels::{accumulate_product, partial_sum};
use crate::matrices::{cell, Mat, Mat4, MatN};
use crate::scalar::{Make, Real};

verus! {

impl<S: Real> Mat4<S> {
    /// The `i`-th term of the component in column `col` and row `row` of the
    /// product with `rhs`.
    pub open spec fn term(self, rhs: Self, col: int, row: int, i: int) -> S {
        self.at(i, row).times(rhs.at(col, i))
    }

    /// The component in column `col` and row `row` of the product with `rhs`:
    /// the four terms, added from the first to the last.
    pub open spec fn product_cell(self, rhs: Self, col: int, row: int) -> S {
        self.term(rhs, col, row, 0).plus(self.term(rhs, col, row, 1)).plus(
            self.term(rhs, col, row, 2),
        ).plus(self.term(rhs, col, row, 3))
    }

    /// The matrix product `self * rhs`.
    pub open spec fn product(self, rhs: Self) -> Self {
        Self::from_cells(|col: int, row: int| self.product_cell(rhs, col, row))
    }

    /// The product as the accumulating loops compute it.
    pub open spec fn product_accumulated(self, rhs: Self) -> Self {
        Self::from_cells(
            |col: int, row: int| partial_sum(self.inner(), rhs.inner(), col, row, 4),
        )
    }

    /// The sum of the first `n` terms of the dot product of row `row` of
    /// `self` with row `col` of `rows`.
    pub open spec fn row_sum(self, rows: Self, col: int, row: int, n: int) -> S
        decreases n,
    {
        if n <= 1 {
            self.at(0, row).times(rows.at(0, col))
        } else {
            self.row_sum(rows, col, row, n - 1).plus(
                self.at(n - 1, row).times(rows.at(n - 1, col)),
            )
        }
    }

    /// The product of `self` with the matrix whose transpose is `rows`, as
    /// dot products of rows.
    pub open spec fn product_by_rows(self, rows: Self) -> Self {
        Self::from_cells(|col: int, row: int| self.row_sum(rows, col, row, 4))
    }

    /// The three ways of evaluating a product give the same matrix: every
    /// component is the same four terms added in the same order.
    pub proof fn lemma_product_variants_agree(a: Self, b: Self)
        ensures
            a.product_accumulated(b) == a.product(b),
            a.product_by_rows(b.transposed_spec()) == a.product(b),
    {
        broadcast use Mat4::lemma_from_cells;

        let bt = b.transposed_spec();
        assert forall|col: int, row: int| 0 <= col < 4 && 0 <= row < 4 implies partial_sum(
            a.inner(),
            b.inner(),
            col,
            row,
            4,
        ) == a.product_cell(b, col, row) && a.row_sum(bt, col, row, 4) == a.product_cell(
            b,
            col,
            row,
        ) by {
            reveal_with_fuel(partial_sum, 5);
            reveal_with_fuel(Mat4::row_sum, 5);
            assert(bt.at(0, col) == b.at(col, 0));
            assert(bt.at(1, col) == b.at(col, 1));
            assert(bt.at(2, col) == b.at(col, 2));
            assert(bt.at(3, col) == b.at(col, 3));
        }
        Self::lemma_components_determine(a.product_accumulated(b), a.product(b));
        Self::lemma_components_determine(a.product_by_rows(bt), a.product(b));
    }

    /// One component of a product, written out term by term.
    fn cell(a: &Self, b: &Self, col: usize, row: usize) -> (r: S)
        requires
            col < 4,
            row < 4,
        ensures
            r == a.product_cell(*b, col as int, row as int),
    {
        let x = a.as_slice();
        let y = b.as_slice();
        x[0][row].mul(y[col][0]).add(x[1][row].mul(y[col][1])).add(x[2][row].mul(y[col][2])).add(
            x[3][row].mul(y[col][3]),
        )
    }
}

impl<S: Real> vstd::std_specs::ops::MulSpecImpl<Mat4<S>> for Mat4<S> {
    open spec fn obeys_mul_spec() -> bool {
        true
    }

    open spec fn mul_req(self, rhs: Mat4<S>) -> bool {
        true
    }

    open spec fn mul_spec(self, rhs: Mat4<S>) -> Mat4<S> {
        self.product(rhs)
    }
}

/// `a * b` is the matrix product, not the component-wise one.
impl<S: Real> core::ops::Mul<Mat4<S>> for Mat4<S> {
    type Output = Mat4<S>;

    fn mul(self, rhs: Mat4<S>) -> (r: Mat4<S>) {
        mul1(self, rhs)
    }
}

/// The product `a * b`, every component written out as a sum of four terms.
pub fn mul1<S: Real>(a: Mat4<S>, b: Mat4<S>) -> (c: Mat4<S>)
    ensures
        c == a.product(b),
{
    let c = Mat4::make(
        [
            [
                Mat4::cell(&a, &b, 0, 0),
                Mat4::cell(&a, &b, 0, 1),
                Mat4::cell(&a, &b, 0, 2),
                Mat4::cell(&a, &b, 0, 3),
            ],
            [
                Mat4::cell(&a, &b, 1, 0),
                Mat4::cell(&a, &b, 1, 1),
                Mat4::cell(&a, &b, 1, 2),
                Mat4::cell(&a, &b, 1, 3),
            ],
            [
                Mat4::cell(&a, &b, 2, 0),
                Mat4::cell(&a, &b, 2, 1),
                Mat4::cell(&a, &b, 2, 2),
                Mat4::cell(&a, &b, 2, 3),
            ],
            [
                Mat4::cell(&a, &b, 3, 0),
                Mat4::cell(&a, &b, 3, 1),
                Mat4::cell(&a, &b, 3, 2),
                Mat4::cell(&a, &b, 3, 3),
            ],
        ],
    );
    proof {
        broadcast use Mat4::lemma_from_cells;

        Mat4::lemma_components_determine(c, a.product(b));
    }
    c
}

/// The product `a * b` by three nested loops: over the columns, over the
/// rows, and over the four terms of a component.
pub fn mul2<S: Real>(a: Mat4<S>, b: Mat4<S>) -> (c: Mat4<S>)
    ensures
        c == a.product_accumulated(b),
        c == a.product(b),
{
    let c = Mat4::make(accumulate_product(a.as_slice(), b.as_slice()));
    proof {
        broadcast use Mat4::lemma_from_cells;

        Mat4::lemma_components_determine(c, a.product_accumulated(b));
        Mat4::lemma_product_variants_agree(a, b);
    }
    c
}

/// The product `a * b` with `b` transposed first, so that every component is
/// the dot product of a row of `a` with a row of the transposed `b`.
pub fn mul3<S: Real>(a: Mat4<S>, b: Mat4<S>) -> (c: Mat4<S>)
    ensures
        c == a.product_by_rows(b.transposed_spec()),
        c == a.product(b),
{
    let bt = b.transpose();
    let x = a.as_slice();
    let y = bt.as_slice();
    let mut out = *x;
    let mut row: usize = 0;
    while row < 4
        invariant
            row <= 4,
            *x == a.inner(),
            *y == bt.inner(),
            forall|k: int, j: int|
                0 <= k < 4 && 0 <= j < row ==> cell(out, k, j) == a.row_sum(bt, k, j, 4),
        decreases 4 - row,
    {
        let mut col: usize = 0;
        while col < 4
            invariant
                row < 4,
                col <= 4,
                *x == a.inner(),
                *y == bt.inner(),
                forall|k: int, j: int|
                    0 <= k < 4 && 0 <= j < 4 && (j < row || (j == row && k < col)) ==> cell(
                        out,
                        k,
                        j,
                    ) == a.row_sum(bt, k, j, 4),
            decreases 4 - col,
        {
            let mut sum = x[0][row].mul(y[0][col]);
            let mut i: usize = 1;
            while i < 4
                invariant
                    col < 4,
                    row < 4,
                    1 <= i <= 4,
                    *x == a.inner(),
                    *y == bt.inner(),
                    sum == a.row_sum(bt, col as int, row as int, i as int),
                decreases 4 - i,
            {
                sum = sum.add(x[i][row].mul(y[i][col]));
                i += 1;
            }
            let ghost prev = out;
            out[col][row] = sum;
            assert forall|k: int, j: int| 0 <= k < 4 && 0 <= j < 4 implies cell(out, k, j) == if k
                == col && j == row {
                sum
            } else {
                cell(prev, k, j)
            } by {}
            col += 1;
        }
        row += 1;
    }
    let c = Mat4::make(out);
    proof {
        broadcast use Mat4::lemma_from_cells;

        Mat4::lemma_components_determine(c, a.product_by_rows(bt));
        Mat4::lemma_product_variants_agree(a, b);
    }
    c
}

} // verus!
