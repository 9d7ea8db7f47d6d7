//! Square matrices of two, three and four columns, held column after column.

use vstd::prelude::*;

use crate::scalar::{Make, Real};

pub mod kernels;
pub mod mat2;
pub mod mat3;
pub mod mat4;
pub mod multiply;

pub use mat2::{Mat2, Mat2Constructor};
pub use mat3::{Mat3, Mat3Constructor};
pub use mat4::{Mat4, Mat4Constructor};
pub use multiply::{mul1, mul2, mul3};

verus! {

/// The component in column `col` and row `row` of an array of columns.
pub open spec fn cell<S, const N: usize>(m: [[S; N]; N], col: int, row: int) -> S {
    m@[col]@[row]
}

/// A square matrix that can be transposed.
pub trait Mat: Sized {
    /// The matrix whose columns are the rows of this one.
    spec fn transposed_spec(self) -> Self;

    /// Transposes in place, by swapping the components across the diagonal.
    fn transpose(self) -> (r: Self)
        ensures
            r == self.transposed_spec(),
    ;

    /// Builds the transpose component by component, leaving `self` as it is.
    fn transposed(&self) -> (r: Self)
        ensures
            r == self.transposed_spec(),
    ;
}

/// A square matrix of `N` columns of `N` components, convertible to and from
/// the array of its columns.
pub trait MatN<S: Real, const N: usize>: Make<[[S; N]; N]> + Copy {
    fn as_array(self) -> (r: [[S; N]; N])
        ensures
            r == self.inner(),
    ;

    fn from_array(array: [[S; N]; N]) -> (r: Self)
        ensures
            r.inner() == array,
    ;

    fn as_slice(&self) -> (r: &[[S; N]; N])
        ensures
            *r == self.inner(),
    ;

    fn as_slice_mut(&mut self) -> (r: &mut [[S; N]; N])
        ensures
            *r == old(self).inner(),
            final(self).inner() == *final(r),
    ;

    fn from_slice(slice: &[[S; N]; N]) -> (r: Self)
        ensures
            r.inner() == *slice,
    ;
}

} // verus!
