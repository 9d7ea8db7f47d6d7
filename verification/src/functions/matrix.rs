//! Functions on square matrices of any size.

#![allow(non_snake_case)]

use vstd::prelude::*;

use crate::matrices::kernels::{combine, copy_transpose, Op, Side};
use crate::matrices::{cell, MatN};
use crate::scalar::Real;
use crate::vectors::VecN;

verus! {

/// The component-wise product of two matrices, which is not their matrix
/// product.
pub fn matrixCompMult<S: Real, const N: usize, M: MatN<S, N>>(x: &M, y: &M) -> (r: M)
    ensures
        forall|col: int, row: int|
            0 <= col < N && 0 <= row < N ==> cell(r.inner(), col, row) == cell(
                x.inner(),
                col,
                row,
            ).times(cell(y.inner(), col, row)),
{
    M::from_array(combine(Op::Times, x.as_slice(), &Side::Matrix(*y.as_slice())))
}

/// The outer product of `x` with `y`: the component in row `i` and column `j`
/// is `x[i] * y[j]`.
pub fn outerProduct<S: Real, const N: usize, V: VecN<S, N>, M: MatN<S, N>>(x: &V, y: &V) -> (r: M)
    ensures
        forall|col: int, row: int|
            0 <= col < N && 0 <= row < N ==> cell(r.inner(), col, row) == x.inner()@[row].times(
                y.inner()@[col],
            ),
{
    let a = x.as_slice();
    let b = y.as_slice();
    let mut out = [*a;N];
    let mut col: usize = 0;
    while col < N
        invariant
            col <= N,
            forall|c: int, j: int|
                0 <= c < col && 0 <= j < N ==> cell(out, c, j) == a@[j].times(b@[c]),
        decreases N - col,
    {
        let mut row: usize = 0;
        while row < N
            invariant
                col < N,
                row <= N,
                forall|c: int, j: int|
                    0 <= c < N && 0 <= j < N && (c < col || (c == col && j < row)) ==> cell(
                        out,
                        c,
                        j,
                    ) == a@[j].times(b@[c]),
            decreases N - row,
        {
            let ghost prev = out;
            let value = a[row].mul(b[col]);
            out[col][row] = value;
            assert forall|c: int, j: int| 0 <= c < N && 0 <= j < N implies cell(out, c, j) == if c
                == col && j == row {
                value
            } else {
                cell(prev, c, j)
            } by {}
            row += 1;
        }
        col += 1;
    }
    M::from_array(out)
}

/// Whether `t` holds the components of `m` with rows and columns exchanged.
pub open spec fn is_transposed<S, const N: usize>(m: [[S; N]; N], t: [[S; N]; N]) -> bool {
    forall|col: int, row: int|
        0 <= col < N && 0 <= row < N ==> cell(t, col, row) == cell(m, row, col)
}

/// Transposing twice gives the matrix back.
pub proof fn lemma_transpose_involution<S, const N: usize>(
    m: [[S; N]; N],
    once: [[S; N]; N],
    twice: [[S; N]; N],
)
    requires
        is_transposed(m, once),
        is_transposed(once, twice),
    ensures
        twice == m,
{
    assert forall|col: int| 0 <= col < N implies twice@[col] == m@[col] by {
        assert forall|row: int| 0 <= row < N implies twice@[col]@[row] == m@[col]@[row] by {
            assert(cell(twice, col, row) == cell(once, row, col));
            assert(cell(once, row, col) == cell(m, col, row));
        }
        assert(twice@[col] =~= m@[col]);
    }
    assert(twice =~= m);
}

/// The transpose: rows and columns change places.
pub fn transpose<S: Real, const N: usize, M: MatN<S, N>>(mat: &M) -> (r: M)
    ensures
        is_transposed(mat.inner(), r.inner()),
{
    M::from_array(copy_transpose(mat.as_slice()))
}

/// The inverse of a matrix, given what a dense solver found for it: the
/// inverse it found, or the matrix of not-a-number components where it found
/// the matrix singular.
pub fn inverse<S: Real, const N: usize, M: MatN<S, N>>(solved: Option<M>) -> (r: M)
    ensures
        match solved {
            Some(m) => r == m,
            None => forall|col: int, row: int|
                0 <= col < N && 0 <= row < N ==> cell(r.inner(), col, row) == S::nan_spec(),
        },
{
    match solved {
        Some(m) => m,
        None => M::from_array([[S::nan();N];N]),
    }
}

} // verus!
