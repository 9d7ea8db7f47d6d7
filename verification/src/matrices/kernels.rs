//! Loops over arrays of columns that the matrices of every size share.

use vstd::prelude::*;

use crate::matrices::cell;
use crate::scalar::Real;

verus! {

/// The four operations that are applied component by component.
#[derive(Clone, Copy)]
pub(crate) enum Op {
    Plus,
    Minus,
    Times,
    Over,
}

impl Op {
    /// The result of the operation on two components.
    pub(crate) open spec fn on<S: Real>(self, a: S, b: S) -> S {
        match self {
            Op::Plus => a.plus(b),
            Op::Minus => a.minus(b),
            Op::Times => a.times(b),
            Op::Over => a.over(b),
        }
    }

    pub(crate) fn apply<S: Real>(self, a: S, b: S) -> (r: S)
        ensures
            r == self.on(a, b),
    {
        match self {
            Op::Plus => a.add(b),
            Op::Minus => a.sub(b),
            Op::Times => a.mul(b),
            Op::Over => a.div(b),
        }
    }
}

/// What one component of the left operand is combined with.
pub(crate) enum Side<S, const N: usize> {
    /// The component in the same place of another matrix.
    Matrix([[S; N]; N]),
    /// One scalar, on the right of every component.
    Right(S),
    /// One scalar, on the left of every component.
    Left(S),
}

impl<S: Real, const N: usize> Side<S, N> {
    /// The component that `op` gives in column `col` and row `row`.
    pub(crate) open spec fn on(self, op: Op, a: [[S; N]; N], col: int, row: int) -> S {
        match self {
            Side::Matrix(b) => op.on(cell(a, col, row), cell(b, col, row)),
            Side::Right(s) => op.on(cell(a, col, row), s),
            Side::Left(s) => op.on(s, cell(a, col, row)),
        }
    }
}

/// Applies `op` to every component of `a` and what `side` holds for it.
pub(crate) fn combine<S: Real, const N: usize>(op: Op, a: &[[S; N]; N], side: &Side<S, N>) -> (out:
    [[S; N]; N])
    ensures
        forall|col: int, row: int|
            0 <= col < N && 0 <= row < N ==> cell(out, col, row) == side.on(op, *a, col, row),
{
    let mut out = *a;
    let mut col: usize = 0;
    while col < N
        invariant
            col <= N,
            forall|c: int, j: int|
                0 <= c < col && 0 <= j < N ==> cell(out, c, j) == side.on(op, *a, c, j),
        decreases N - col,
    {
        let mut row: usize = 0;
        while row < N
            invariant
                col < N,
                row <= N,
                forall|c: int, j: int|
                    0 <= c < N && 0 <= j < N && (c < col || (c == col && j < row)) ==> cell(
                        out,
                        c,
                        j,
                    ) == side.on(op, *a, c, j),
            decreases N - row,
        {
            let value = match side {
                Side::Matrix(b) => op.apply(a[col][row], b[col][row]),
                Side::Right(s) => op.apply(a[col][row], *s),
                Side::Left(s) => op.apply(*s, a[col][row]),
            };
            let ghost prev = out;
            out[col][row] = value;
            assert forall|c: int, j: int| 0 <= c < N && 0 <= j < N implies cell(out, c, j) == if c
                == col && j == row {
                value
            } else {
                cell(prev, c, j)
            } by {}
            row += 1;
        }
        col += 1;
    }
    out
}

/// The `i`-th term of the component in column `col` and row `row` of the
/// matrix product `a * b`.
pub open spec fn term<S: Real, const N: usize>(
    a: [[S; N]; N],
    b: [[S; N]; N],
    col: int,
    row: int,
    i: int,
) -> S {
    cell(a, i, row).times(cell(b, col, i))
}

/// The sum of the first `n` terms of a component of the matrix product
/// `a * b`, accumulated one term at a time from the first on.
pub open spec fn partial_sum<S: Real, const N: usize>(
    a: [[S; N]; N],
    b: [[S; N]; N],
    col: int,
    row: int,
    n: int,
) -> S
    decreases n,
{
    if n <= 1 {
        term(a, b, col, row, 0)
    } else {
        partial_sum(a, b, col, row, n - 1).plus(term(a, b, col, row, n - 1))
    }
}

/// The matrix product `x * y` by three nested loops: over the columns, over
/// the rows, and over the terms of a component.
pub(crate) fn accumulate_product<S: Real, const N: usize>(x: &[[S; N]; N], y: &[[S; N]; N]) -> (out:
    [[S; N]; N])
    ensures
        forall|col: int, row: int|
            0 <= col < N && 0 <= row < N ==> cell(out, col, row) == partial_sum(
                *x,
                *y,
                col,
                row,
                N as int,
            ),
{
    let mut out = *x;
    let mut col: usize = 0;
    while col < N
        invariant
            col <= N,
            forall|k: int, j: int|
                0 <= k < col && 0 <= j < N ==> cell(out, k, j) == partial_sum(
                    *x,
                    *y,
                    k,
                    j,
                    N as int,
                ),
        decreases N - col,
    {
        let mut row: usize = 0;
        while row < N
            invariant
                col < N,
                row <= N,
                forall|k: int, j: int|
                    0 <= k < N && 0 <= j < N && (k < col || (k == col && j < row)) ==> cell(
                        out,
                        k,
                        j,
                    ) == partial_sum(*x, *y, k, j, N as int),
            decreases N - row,
        {
            let mut sum = x[0][row].mul(y[col][0]);
            let mut i: usize = 1;
            while i < N
                invariant
                    col < N,
                    row < N,
                    1 <= i <= N,
                    sum == partial_sum(*x, *y, col as int, row as int, i as int),
                decreases N - i,
            {
                sum = sum.add(x[i][row].mul(y[col][i]));
                i += 1;
            }
            let ghost prev = out;
            out[col][row] = sum;
            assert forall|k: int, j: int| 0 <= k < N && 0 <= j < N implies cell(out, k, j) == if k
                == col && j == row {
                sum
            } else {
                cell(prev, k, j)
            } by {}
            row += 1;
        }
        col += 1;
    }
    out
}

/// The transpose of `m`, made in place by swapping the components across the
/// diagonal.
pub(crate) fn swap_transpose<S: Real, const N: usize>(m: [[S; N]; N]) -> (out: [[S; N]; N])
    ensures
        forall|col: int, row: int|
            0 <= col < N && 0 <= row < N ==> cell(out, col, row) == cell(m, row, col),
{
    let mut out = m;
    let mut diag: usize = 0;
    while diag < N
        invariant
            diag <= N,
            forall|col: int, row: int|
                0 <= col < N && 0 <= row < N ==> cell(out, col, row) == if col < diag || row
                    < diag {
                    cell(m, row, col)
                } else {
                    cell(m, col, row)
                },
        decreases N - diag,
    {
        let mut c: usize = diag + 1;
        while c < N
            invariant
                diag < N,
                diag < c <= N,
                forall|col: int, row: int|
                    0 <= col < N && 0 <= row < N ==> cell(out, col, row) == if col < diag || row
                        < diag || (row == diag && col < c) || (col == diag && row < c) {
                        cell(m, row, col)
                    } else {
                        cell(m, col, row)
                    },
            decreases N - c,
        {
            let ghost prev = out;
            let t = out[c][diag];
            out[c][diag] = out[diag][c];
            out[diag][c] = t;
            assert forall|col: int, row: int| 0 <= col < N && 0 <= row < N implies cell(
                out,
                col,
                row,
            ) == if col == c && row == diag {
                cell(prev, diag as int, c as int)
            } else if col == diag && row == c {
                cell(prev, c as int, diag as int)
            } else {
                cell(prev, col, row)
            } by {}
            c += 1;
        }
        diag += 1;
    }
    out
}

/// The transpose of `m`, built component by component.
pub(crate) fn copy_transpose<S: Real, const N: usize>(m: &[[S; N]; N]) -> (out: [[S; N]; N])
    ensures
        forall|col: int, row: int|
            0 <= col < N && 0 <= row < N ==> cell(out, col, row) == cell(*m, row, col),
{
    let mut out = *m;
    let mut col: usize = 0;
    while col < N
        invariant
            col <= N,
            forall|c: int, j: int|
                0 <= c < col && 0 <= j < N ==> cell(out, c, j) == cell(*m, j, c),
        decreases N - col,
    {
        let mut row: usize = 0;
        while row < N
            invariant
                col < N,
                row <= N,
                forall|c: int, j: int|
                    0 <= c < N && 0 <= j < N && (c < col || (c == col && j < row)) ==> cell(
                        out,
                        c,
                        j,
                    ) == cell(*m, j, c),
            decreases N - row,
        {
            let ghost prev = out;
            let value = m[row][col];
            out[col][row] = value;
            assert forall|c: int, j: int| 0 <= c < N && 0 <= j < N implies cell(out, c, j) == if c
                == col && j == row {
                value
            } else {
                cell(prev, c, j)
            } by {}
            row += 1;
        }
        col += 1;
    }
    out
}

} // verus!
