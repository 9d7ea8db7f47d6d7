//! The 4×4 matrix.

use vstd::prelude::*;

use core::ops::{Add, AddAssign, Div, DivAssign, Mul, Sub, SubAssign};

use crate::matrices::kernels::{combine, copy_transpose, swap_transpose, Op, Side};
use crate::matrices::{cell, Mat, MatN};
use crate::scalar::{zero, Make, Real, Seal};
use crate::vectors::{Vec4, VecN};

verus! {

/// A 4×4 matrix held as four columns of four components: the component
/// in column `c` and row `r` is the one at place `c * 4 + r` of its view.
#[derive(Clone, Copy, Debug, PartialEq)]
pub struct Mat4<S> {
    cols: [[S; 4]; 4],
}

impl<S> Seal for Mat4<S> {

}

impl<S: Real> Make<[[S; 4]; 4]> for Mat4<S> {
    closed spec fn inner(self) -> [[S; 4]; 4] {
        self.cols
    }

    fn make(inner: [[S; 4]; 4]) -> (r: Self) {
        Mat4 { cols: inner }
    }

    proof fn lemma_inner_determines(a: Self, b: Self) {
    }
}

/// The view of a matrix is the sequence of its sixteen components, column after
/// column.
impl<S: Real> View for Mat4<S> {
    type V = Seq<S>;

    open spec fn view(&self) -> Seq<S> {
        Seq::new(16, |i: int| self.at(i / 4, i % 4))
    }
}

impl<S: Real> Mat4<S> {
    /// The component in column `col` and row `row`.
    pub open spec fn at(self, col: int, row: int) -> S {
        cell(self.inner(), col, row)
    }

    /// The matrix whose component in column `col` and row `row` is
    /// `f(col, row)`, as `lemma_from_cells` says.
    pub closed spec fn from_cells(f: spec_fn(int, int) -> S) -> Self {
        Mat4 {
            cols: [
                [f(0, 0), f(0, 1), f(0, 2), f(0, 3)],
                [f(1, 0), f(1, 1), f(1, 2), f(1, 3)],
                [f(2, 0), f(2, 1), f(2, 2), f(2, 3)],
                [f(3, 0), f(3, 1), f(3, 2), f(3, 3)],
            ],
        }
    }

    pub broadcast proof fn lemma_from_cells(f: spec_fn(int, int) -> S, col: int, row: int)
        requires
            0 <= col < 4,
            0 <= row < 4,
        ensures
            #[trigger] Self::from_cells(f).at(col, row) == f(col, row),
    {
    }

    /// A matrix is determined by its sixteen components.
    pub proof fn lemma_components_determine(a: Self, b: Self)
        requires
            forall|col: int, row: int|
                0 <= col < 4 && 0 <= row < 4 ==> a.at(col, row) == b.at(col, row),
        ensures
            a == b,
    {
        let x = a.inner();
        let y = b.inner();
        assert forall|col: int| 0 <= col < 4 implies x@[col] == y@[col] by {
            assert forall|row: int| 0 <= row < 4 implies x@[col]@[row] == y@[col]@[row] by {
                assert(a.at(col, row) == b.at(col, row));
            }
            assert(x@[col] =~= y@[col]);
        }
        assert(x =~= y);
        Self::lemma_inner_determines(a, b);
    }

    /// The matrix whose components, column after column, are the entries of
    /// `s`.
    pub open spec fn from_flat(s: Seq<S>) -> Self {
        Self::from_cells(|col: int, row: int| s[col * 4 + row])
    }

    /// Round trip: sixteen components made into a matrix and read back are the
    /// same components, in the same order.
    pub proof fn lemma_flat_round_trip(s: Seq<S>)
        requires
            s.len() == 16,
        ensures
            Self::from_flat(s)@ == s,
    {
        broadcast use Mat4::lemma_from_cells;

        assert forall|i: int| 0 <= i < 16 implies Self::from_flat(s)@[i] == s[i] by {
            assert(Self::from_flat(s).at(i / 4, i % 4) == s[(i / 4) * 4 + i % 4]);
        }
        assert(Self::from_flat(s)@ =~= s);
    }

    /// Round trip: a matrix read out and made again from its components is the
    /// same matrix.
    pub proof fn lemma_matrix_round_trip(m: Self)
        ensures
            Self::from_flat(m@) == m,
    {
        broadcast use Mat4::lemma_from_cells;

        assert forall|col: int, row: int| 0 <= col < 4 && 0 <= row < 4 implies Self::from_flat(
            m@,
        ).at(col, row) == m.at(col, row) by {
            assert(m@[col * 4 + row] == m.at((col * 4 + row) / 4, (col * 4 + row) % 4));
        }
        Self::lemma_components_determine(Self::from_flat(m@), m);
    }

    /// Transposing twice gives the matrix back.
    pub proof fn lemma_transpose_involution(m: Self)
        ensures
            m.transposed_spec().transposed_spec() == m,
    {
        broadcast use Mat4::lemma_from_cells;

        Self::lemma_components_determine(m.transposed_spec().transposed_spec(), m);
    }

    /// All components are equal, each pair as the component type compares
    /// them.
    pub open spec fn same(self, other: Self) -> bool {
        forall|col: int, row: int|
            0 <= col < 4 && 0 <= row < 4 ==> (#[trigger] self.at(col, row)).same(
                other.at(col, row),
            )
    }

    /// The component-wise sum of two matrices.
    pub open spec fn plus(self, rhs: Self) -> Self {
        Self::from_cells(|col: int, row: int| self.at(col, row).plus(rhs.at(col, row)))
    }

    /// The sum of every component with the scalar `s` on the right.
    pub open spec fn plus_scalar(self, s: S) -> Self {
        Self::from_cells(|col: int, row: int| self.at(col, row).plus(s))
    }

    /// The sum of the scalar `s` on the left with every component.
    pub open spec fn scalar_plus(s: S, rhs: Self) -> Self {
        Self::from_cells(|col: int, row: int| s.plus(rhs.at(col, row)))
    }

    /// The component-wise difference of two matrices.
    pub open spec fn minus(self, rhs: Self) -> Self {
        Self::from_cells(|col: int, row: int| self.at(col, row).minus(rhs.at(col, row)))
    }

    /// The difference of every component with the scalar `s` on the right.
    pub open spec fn minus_scalar(self, s: S) -> Self {
        Self::from_cells(|col: int, row: int| self.at(col, row).minus(s))
    }

    /// The difference of the scalar `s` on the left with every component.
    pub open spec fn scalar_minus(s: S, rhs: Self) -> Self {
        Self::from_cells(|col: int, row: int| s.minus(rhs.at(col, row)))
    }

    /// The component-wise product of two matrices.
    pub open spec fn times(self, rhs: Self) -> Self {
        Self::from_cells(|col: int, row: int| self.at(col, row).times(rhs.at(col, row)))
    }

    /// The product of every component with the scalar `s` on the right.
    pub open spec fn times_scalar(self, s: S) -> Self {
        Self::from_cells(|col: int, row: int| self.at(col, row).times(s))
    }

    /// The product of the scalar `s` on the left with every component.
    pub open spec fn scalar_times(s: S, rhs: Self) -> Self {
        Self::from_cells(|col: int, row: int| s.times(rhs.at(col, row)))
    }

    /// The component-wise quotient of two matrices.
    pub open spec fn over(self, rhs: Self) -> Self {
        Self::from_cells(|col: int, row: int| self.at(col, row).over(rhs.at(col, row)))
    }

    /// The quotient of every component with the scalar `s` on the right.
    pub open spec fn over_scalar(self, s: S) -> Self {
        Self::from_cells(|col: int, row: int| self.at(col, row).over(s))
    }

    /// The quotient of the scalar `s` on the left with every component.
    pub open spec fn scalar_over(s: S, rhs: Self) -> Self {
        Self::from_cells(|col: int, row: int| s.over(rhs.at(col, row)))
    }

    /// The matrix whose components, column after column, are `elements`.
    pub fn from_array(elements: [S; 16]) -> (r: Self)
        ensures
            r@ == elements@,
            r == Self::from_flat(elements@),
    {
        let r = Mat4 {
            cols: [
                [elements[0], elements[1], elements[2], elements[3]],
                [elements[4], elements[5], elements[6], elements[7]],
                [elements[8], elements[9], elements[10], elements[11]],
                [elements[12], elements[13], elements[14], elements[15]],
            ],
        };
        assert(r@ =~= elements@);
        proof {
            Self::lemma_matrix_round_trip(r);
        }
        r
    }

    /// The sixteen components, column after column.
    pub fn to_array(self) -> (r: [S; 16])
        ensures
            r@ == self@,
    {
        let r = [
            self.cols[0][0],
            self.cols[0][1],
            self.cols[0][2],
            self.cols[0][3],
            self.cols[1][0],
            self.cols[1][1],
            self.cols[1][2],
            self.cols[1][3],
            self.cols[2][0],
            self.cols[2][1],
            self.cols[2][2],
            self.cols[2][3],
            self.cols[3][0],
            self.cols[3][1],
            self.cols[3][2],
            self.cols[3][3],
        ];
        assert(r@ =~= self@);
        r
    }

    /// Exact equality of all components.
    pub fn equals(&self, other: &Self) -> (r: bool)
        ensures
            r == self.same(*other),
    {
        let mut i: usize = 0;
        while i < 16
            invariant
                i <= 16,
                forall|col: int, row: int|
                    0 <= col < 4 && 0 <= row < 4 && col * 4 + row < i ==> (#[trigger] self.at(
                        col,
                        row,
                    )).same(other.at(col, row)),
            decreases 16 - i,
        {
            if !self.cols[i / 4][i % 4].eq(other.cols[i / 4][i % 4]) {
                assert(!self.at((i / 4) as int, (i % 4) as int).same(
                    other.at((i / 4) as int, (i % 4) as int),
                ));
                return false;
            }
            i += 1;
        }
        true
    }

    /// The column `index`.
    pub fn index(&self, index: usize) -> (r: &[S; 4])
        requires
            index < 4,
        ensures
            forall|row: int| 0 <= row < 4 ==> r@[row] == self.at(index as int, row),
    {
        &self.cols[index]
    }

    /// The column `index`, to be written through.
    pub fn index_mut(&mut self, index: usize) -> (r: &mut [S; 4])
        requires
            index < 4,
        ensures
            forall|row: int| 0 <= row < 4 ==> r@[row] == old(self).at(index as int, row),
            forall|col: int, row: int|
                0 <= col < 4 && 0 <= row < 4 ==> final(self).at(col, row) == if col == index {
                    final(r)@[row]
                } else {
                    old(self).at(col, row)
                },
    {
        &mut self.cols[index]
    }

    /// The component-wise product, which is not the matrix product.
    pub fn component_mul(self, rhs: Self) -> (r: Self)
        ensures
            r == self.times(rhs),
    {
        let r = Mat4 { cols: combine(Op::Times, &self.cols, &Side::Matrix(rhs.cols)) };
        proof {
            broadcast use Mat4::lemma_from_cells;

            Self::lemma_components_determine(r, self.times(rhs));
        }
        r
    }

    /// `lhs + self`: the scalar stands on the left of every component.
    pub fn radd(self, lhs: S) -> (r: Self)
        ensures
            r == Self::scalar_plus(lhs, self),
    {
        let r = Mat4 { cols: combine(Op::Plus, &self.cols, &Side::Left(lhs)) };
        proof {
            broadcast use Mat4::lemma_from_cells;

            Self::lemma_components_determine(r, Self::scalar_plus(lhs, self));
        }
        r
    }

    /// `lhs - self`: the scalar stands on the left of every component.
    pub fn rsub(self, lhs: S) -> (r: Self)
        ensures
            r == Self::scalar_minus(lhs, self),
    {
        let r = Mat4 { cols: combine(Op::Minus, &self.cols, &Side::Left(lhs)) };
        proof {
            broadcast use Mat4::lemma_from_cells;

            Self::lemma_components_determine(r, Self::scalar_minus(lhs, self));
        }
        r
    }

    /// `lhs * self`: the scalar stands on the left of every component.
    pub fn rmul(self, lhs: S) -> (r: Self)
        ensures
            r == Self::scalar_times(lhs, self),
    {
        let r = Mat4 { cols: combine(Op::Times, &self.cols, &Side::Left(lhs)) };
        proof {
            broadcast use Mat4::lemma_from_cells;

            Self::lemma_components_determine(r, Self::scalar_times(lhs, self));
        }
        r
    }

    /// `lhs / self`: the scalar stands on the left of every component.
    pub fn rdiv(self, lhs: S) -> (r: Self)
        ensures
            r == Self::scalar_over(lhs, self),
    {
        let r = Mat4 { cols: combine(Op::Over, &self.cols, &Side::Left(lhs)) };
        proof {
            broadcast use Mat4::lemma_from_cells;

            Self::lemma_components_determine(r, Self::scalar_over(lhs, self));
        }
        r
    }

}

impl<S: Real> Mat for Mat4<S> {
    open spec fn transposed_spec(self) -> Self {
        Self::from_cells(|col: int, row: int| self.at(row, col))
    }

    fn transpose(self) -> (r: Self) {
        let r = Mat4 { cols: swap_transpose(self.cols) };
        proof {
            broadcast use Mat4::lemma_from_cells;

            Self::lemma_components_determine(r, self.transposed_spec());
        }
        r
    }

    fn transposed(&self) -> (r: Self) {
        let r = Mat4 { cols: copy_transpose(&self.cols) };
        proof {
            broadcast use Mat4::lemma_from_cells;

            Self::lemma_components_determine(r, self.transposed_spec());
        }
        r
    }
}

/// The ways to construct a `Mat4`: from one scalar, or from four columns.
pub trait Mat4Constructor<T>: Seal + Sized {
    /// The matrix that the arguments stand for.
    spec fn resolved(args: T) -> Self;

    fn new(args: T) -> (r: Self)
        ensures
            r == Self::resolved(args),
    ;
}

/// A single scalar `s` gives `s` on the diagonal and zero everywhere else.
impl<S: Real> Mat4Constructor<S> for Mat4<S> {
    open spec fn resolved(args: S) -> Self {
        Self::from_cells(
            |col: int, row: int|
                if col == row {
                    args
                } else {
                    zero::<S>()
                },
        )
    }

    fn new(args: S) -> (r: Self) {
        let s = args;
        let z = S::from_i32(0);
        let r = Mat4 { cols: [[s, z, z, z], [z, s, z, z], [z, z, s, z], [z, z, z, s]] };
        proof {
            broadcast use Mat4::lemma_from_cells;

            Self::lemma_components_determine(r, Self::resolved(args));
        }
        r
    }
}

/// Four vectors become the four columns, in the order given.
impl<S: Real> Mat4Constructor<(Vec4<S>, Vec4<S>, Vec4<S>, Vec4<S>)> for Mat4<S> {
    open spec fn resolved(args: (Vec4<S>, Vec4<S>, Vec4<S>, Vec4<S>)) -> Self {
        Self::from_cells(
            |col: int, row: int|
                if col == 0 {
                    args.0@[row]
                } else if col == 1 {
                    args.1@[row]
                } else if col == 2 {
                    args.2@[row]
                } else {
                    args.3@[row]
                },
        )
    }

    fn new(args: (Vec4<S>, Vec4<S>, Vec4<S>, Vec4<S>)) -> (r: Self) {
        let (v1, v2, v3, v4) = args;
        let r = Mat4 { cols: [v1.as_array(), v2.as_array(), v3.as_array(), v4.as_array()] };
        proof {
            broadcast use Mat4::lemma_from_cells;

            Self::lemma_components_determine(r, Self::resolved(args));
        }
        r
    }
}

impl<S: Real> MatN<S, 4> for Mat4<S> {
    fn as_array(self) -> (r: [[S; 4]; 4]) {
        self.cols
    }

    fn from_array(array: [[S; 4]; 4]) -> (r: Self) {
        Mat4 { cols: array }
    }

    fn as_slice(&self) -> (r: &[[S; 4]; 4]) {
        &self.cols
    }

    fn as_slice_mut(&mut self) -> (r: &mut [[S; 4]; 4]) {
        &mut self.cols
    }

    fn from_slice(slice: &[[S; 4]; 4]) -> (r: Self) {
        Mat4 { cols: *slice }
    }
}

impl<S: Real> vstd::std_specs::ops::AddSpecImpl<Mat4<S>> for Mat4<S> {
    open spec fn obeys_add_spec() -> bool {
        true
    }

    open spec fn add_req(self, rhs: Mat4<S>) -> bool {
        true
    }

    open spec fn add_spec(self, rhs: Mat4<S>) -> Mat4<S> {
        self.plus(rhs)
    }
}

/// `a + b` works component by component.
impl<S: Real> Add<Mat4<S>> for Mat4<S> {
    type Output = Mat4<S>;

    fn add(self, rhs: Mat4<S>) -> (r: Mat4<S>) {
        let r = Mat4 { cols: combine(Op::Plus, &self.cols, &Side::Matrix(rhs.cols)) };
        proof {
            broadcast use Mat4::lemma_from_cells;

            Self::lemma_components_determine(r, self.plus(rhs));
        }
        r
    }
}

impl<S: Real> AddAssign<Mat4<S>> for Mat4<S> {
    fn add_assign(&mut self, rhs: Mat4<S>)
        ensures
            *final(self) == old(self).plus(rhs),
    {
        let r = Mat4 { cols: combine(Op::Plus, &self.cols, &Side::Matrix(rhs.cols)) };
        proof {
            broadcast use Mat4::lemma_from_cells;

            Self::lemma_components_determine(r, self.plus(rhs));
        }
        *self = r;
    }
}

impl<S: Real> vstd::std_specs::ops::AddSpecImpl<S> for Mat4<S> {
    open spec fn obeys_add_spec() -> bool {
        true
    }

    open spec fn add_req(self, rhs: S) -> bool {
        true
    }

    open spec fn add_spec(self, rhs: S) -> Mat4<S> {
        self.plus_scalar(rhs)
    }
}

/// `matrix + scalar`: the scalar stands on the right of every component.
impl<S: Real> Add<S> for Mat4<S> {
    type Output = Mat4<S>;

    fn add(self, rhs: S) -> (r: Mat4<S>) {
        let r = Mat4 { cols: combine(Op::Plus, &self.cols, &Side::Right(rhs)) };
        proof {
            broadcast use Mat4::lemma_from_cells;

            Self::lemma_components_determine(r, self.plus_scalar(rhs));
        }
        r
    }
}

impl<S: Real> vstd::std_specs::ops::SubSpecImpl<Mat4<S>> for Mat4<S> {
    open spec fn obeys_sub_spec() -> bool {
        true
    }

    open spec fn sub_req(self, rhs: Mat4<S>) -> bool {
        true
    }

    open spec fn sub_spec(self, rhs: Mat4<S>) -> Mat4<S> {
        self.minus(rhs)
    }
}

/// `a - b` works component by component.
impl<S: Real> Sub<Mat4<S>> for Mat4<S> {
    type Output = Mat4<S>;

    fn sub(self, rhs: Mat4<S>) -> (r: Mat4<S>) {
        let r = Mat4 { cols: combine(Op::Minus, &self.cols, &Side::Matrix(rhs.cols)) };
        proof {
            broadcast use Mat4::lemma_from_cells;

            Self::lemma_components_determine(r, self.minus(rhs));
        }
        r
    }
}

impl<S: Real> SubAssign<Mat4<S>> for Mat4<S> {
    fn sub_assign(&mut self, rhs: Mat4<S>)
        ensures
            *final(self) == old(self).minus(rhs),
    {
        let r = Mat4 { cols: combine(Op::Minus, &self.cols, &Side::Matrix(rhs.cols)) };
        proof {
            broadcast use Mat4::lemma_from_cells;

            Self::lemma_components_determine(r, self.minus(rhs));
        }
        *self = r;
    }
}

impl<S: Real> vstd::std_specs::ops::SubSpecImpl<S> for Mat4<S> {
    open spec fn obeys_sub_spec() -> bool {
        true
    }

    open spec fn sub_req(self, rhs: S) -> bool {
        true
    }

    open spec fn sub_spec(self, rhs: S) -> Mat4<S> {
        self.minus_scalar(rhs)
    }
}

/// `matrix - scalar`: the scalar stands on the right of every component.
impl<S: Real> Sub<S> for Mat4<S> {
    type Output = Mat4<S>;

    fn sub(self, rhs: S) -> (r: Mat4<S>) {
        let r = Mat4 { cols: combine(Op::Minus, &self.cols, &Side::Right(rhs)) };
        proof {
            broadcast use Mat4::lemma_from_cells;

            Self::lemma_components_determine(r, self.minus_scalar(rhs));
        }
        r
    }
}

impl<S: Real> vstd::std_specs::ops::MulSpecImpl<S> for Mat4<S> {
    open spec fn obeys_mul_spec() -> bool {
        true
    }

    open spec fn mul_req(self, rhs: S) -> bool {
        true
    }

    open spec fn mul_spec(self, rhs: S) -> Mat4<S> {
        self.times_scalar(rhs)
    }
}

/// `matrix * scalar`: the scalar stands on the right of every component.
impl<S: Real> Mul<S> for Mat4<S> {
    type Output = Mat4<S>;

    fn mul(self, rhs: S) -> (r: Mat4<S>) {
        let r = Mat4 { cols: combine(Op::Times, &self.cols, &Side::Right(rhs)) };
        proof {
            broadcast use Mat4::lemma_from_cells;

            Self::lemma_components_determine(r, self.times_scalar(rhs));
        }
        r
    }
}

impl<S: Real> vstd::std_specs::ops::DivSpecImpl<Mat4<S>> for Mat4<S> {
    open spec fn obeys_div_spec() -> bool {
        true
    }

    open spec fn div_req(self, rhs: Mat4<S>) -> bool {
        true
    }

    open spec fn div_spec(self, rhs: Mat4<S>) -> Mat4<S> {
        self.over(rhs)
    }
}

/// `a / b` works component by component.
impl<S: Real> Div<Mat4<S>> for Mat4<S> {
    type Output = Mat4<S>;

    fn div(self, rhs: Mat4<S>) -> (r: Mat4<S>) {
        let r = Mat4 { cols: combine(Op::Over, &self.cols, &Side::Matrix(rhs.cols)) };
        proof {
            broadcast use Mat4::lemma_from_cells;

            Self::lemma_components_determine(r, self.over(rhs));
        }
        r
    }
}

impl<S: Real> DivAssign<Mat4<S>> for Mat4<S> {
    fn div_assign(&mut self, rhs: Mat4<S>)
        ensures
            *final(self) == old(self).over(rhs),
    {
        let r = Mat4 { cols: combine(Op::Over, &self.cols, &Side::Matrix(rhs.cols)) };
        proof {
            broadcast use Mat4::lemma_from_cells;

            Self::lemma_components_determine(r, self.over(rhs));
        }
        *self = r;
    }
}

impl<S: Real> vstd::std_specs::ops::DivSpecImpl<S> for Mat4<S> {
    open spec fn obeys_div_spec() -> bool {
        true
    }

    open spec fn div_req(self, rhs: S) -> bool {
        true
    }

    open spec fn div_spec(self, rhs: S) -> Mat4<S> {
        self.over_scalar(rhs)
    }
}

/// `matrix / scalar`: the scalar stands on the right of every component.
impl<S: Real> Div<S> for Mat4<S> {
    type Output = Mat4<S>;

    fn div(self, rhs: S) -> (r: Mat4<S>) {
        let r = Mat4 { cols: combine(Op::Over, &self.cols, &Side::Right(rhs)) };
        proof {
            broadcast use Mat4::lemma_from_cells;

            Self::lemma_components_determine(r, self.over_scalar(rhs));
        }
        r
    }
}

} // verus!
