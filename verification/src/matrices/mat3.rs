//! The 3×3 matrix.

use vstd::prelude::*;

use core::ops::{Add, AddAssign, Div, DivAssign, Mul, Sub, SubAssign};

use crate::matrices::kernels::{
    accumulate_product, combine, copy_transpose, partial_sum, swap_transpose, Op, Side,
};
use crate::matrices::{cell, Mat, MatN};
use crate::scalar::{zero, Make, Real, Seal};
use crate::vectors::{Vec3, VecN};

verus! {

/// A 3×3 matrix held as three columns of three components: the component
/// in column `c` and row `r` is the one at place `c * 3 + r` of its view.
#[derive(Clone, Copy, Debug, PartialEq)]
pub struct Mat3<S> {
    cols: [[S; 3]; 3],
}

impl<S> Seal for Mat3<S> {

}

impl<S: Real> Make<[[S; 3]; 3]> for Mat3<S> {
    closed spec fn inner(self) -> [[S; 3]; 3] {
        self.cols
    }

    fn make(inner: [[S; 3]; 3]) -> (r: Self) {
        Mat3 { cols: inner }
    }

    proof fn lemma_inner_determines(a: Self, b: Self) {
    }
}

/// The view of a matrix is the sequence of its nine components, column after
/// column.
impl<S: Real> View for Mat3<S> {
    type V = Seq<S>;

    open spec fn view(&self) -> Seq<S> {
        Seq::new(9, |i: int| self.at(i / 3, i % 3))
    }
}

impl<S: Real> Mat3<S> {
    /// The component in column `col` and row `row`.
    pub open spec fn at(self, col: int, row: int) -> S {
        cell(self.inner(), col, row)
    }

    /// The matrix whose component in column `col` and row `row` is
    /// `f(col, row)`, as `lemma_from_cells` says.
    pub closed spec fn from_cells(f: spec_fn(int, int) -> S) -> Self {
        Mat3 {
            cols: [
                [f(0, 0), f(0, 1), f(0, 2)],
                [f(1, 0), f(1, 1), f(1, 2)],
                [f(2, 0), f(2, 1), f(2, 2)],
            ],
        }
    }

    pub broadcast proof fn lemma_from_cells(f: spec_fn(int, int) -> S, col: int, row: int)
        requires
            0 <= col < 3,
            0 <= row < 3,
        ensures
            #[trigger] Self::from_cells(f).at(col, row) == f(col, row),
    {
    }

    /// A matrix is determined by its nine components.
    pub proof fn lemma_components_determine(a: Self, b: Self)
        requires
            forall|col: int, row: int|
                0 <= col < 3 && 0 <= row < 3 ==> a.at(col, row) == b.at(col, row),
        ensures
            a == b,
    {
        let x = a.inner();
        let y = b.inner();
        assert forall|col: int| 0 <= col < 3 implies x@[col] == y@[col] by {
            assert forall|row: int| 0 <= row < 3 implies x@[col]@[row] == y@[col]@[row] by {
                assert(a.at(col, row) == b.at(col, row));
            }
            assert(x@[col] =~= y@[col]);
        }
        assert(x =~= y);
        Self::lemma_inner_determines(a, b);
    }

    /// The matrix whose components, column after column, are the entries of
    /// `s`.
    pub open spec fn from_flat(s: Seq<S>) -> Self {
        Self::from_cells(|col: int, row: int| s[col * 3 + row])
    }

    /// Round trip: nine components made into a matrix and read back are the
    /// same components, in the same order.
    pub proof fn lemma_flat_round_trip(s: Seq<S>)
        requires
            s.len() == 9,
        ensures
            Self::from_flat(s)@ == s,
    {
        broadcast use Mat3::lemma_from_cells;

        assert forall|i: int| 0 <= i < 9 implies Self::from_flat(s)@[i] == s[i] by {
            assert(Self::from_flat(s).at(i / 3, i % 3) == s[(i / 3) * 3 + i % 3]);
        }
        assert(Self::from_flat(s)@ =~= s);
    }

    /// Round trip: a matrix read out and made again from its components is the
    /// same matrix.
    pub proof fn lemma_matrix_round_trip(m: Self)
        ensures
            Self::from_flat(m@) == m,
    {
        broadcast use Mat3::lemma_from_cells;

        assert forall|col: int, row: int| 0 <= col < 3 && 0 <= row < 3 implies Self::from_flat(
            m@,
        ).at(col, row) == m.at(col, row) by {
            assert(m@[col * 3 + row] == m.at((col * 3 + row) / 3, (col * 3 + row) % 3));
        }
        Self::lemma_components_determine(Self::from_flat(m@), m);
    }

    /// Transposing twice gives the matrix back.
    pub proof fn lemma_transpose_involution(m: Self)
        ensures
            m.transposed_spec().transposed_spec() == m,
    {
        broadcast use Mat3::lemma_from_cells;

        Self::lemma_components_determine(m.transposed_spec().transposed_spec(), m);
    }

    /// All components are equal, each pair as the component type compares
    /// them.
    pub open spec fn same(self, other: Self) -> bool {
        forall|col: int, row: int|
            0 <= col < 3 && 0 <= row < 3 ==> (#[trigger] self.at(col, row)).same(
                other.at(col, row),
            )
    }

    /// The component-wise sum of two matrices.
    pub open spec fn plus(self, rhs: Self) -> Self {
        Self::from_cells(|col: int, row: int| self.at(col, row).plus(rhs.at(col, row)))
    }

    /// The sum of every component with the scalar `s` on the right.
    pub open spec fn plus_scalar(self, s: S) -> Self {
        Self::from_cells(|col: int, row: int| self.at(col, row).plus(s))
    }

    /// The sum of the scalar `s` on the left with every component.
    pub open spec fn scalar_plus(s: S, rhs: Self) -> Self {
        Self::from_cells(|col: int, row: int| s.plus(rhs.at(col, row)))
    }

    /// The component-wise difference of two matrices.
    pub open spec fn minus(self, rhs: Self) -> Self {
        Self::from_cells(|col: int, row: int| self.at(col, row).minus(rhs.at(col, row)))
    }

    /// The difference of every component with the scalar `s` on the right.
    pub open spec fn minus_scalar(self, s: S) -> Self {
        Self::from_cells(|col: int, row: int| self.at(col, row).minus(s))
    }

    /// The difference of the scalar `s` on the left with every component.
    pub open spec fn scalar_minus(s: S, rhs: Self) -> Self {
        Self::from_cells(|col: int, row: int| s.minus(rhs.at(col, row)))
    }

    /// The component-wise product of two matrices.
    pub open spec fn times(self, rhs: Self) -> Self {
        Self::from_cells(|col: int, row: int| self.at(col, row).times(rhs.at(col, row)))
    }

    /// The product of every component with the scalar `s` on the right.
    pub open spec fn times_scalar(self, s: S) -> Self {
        Self::from_cells(|col: int, row: int| self.at(col, row).times(s))
    }

    /// The product of the scalar `s` on the left with every component.
    pub open spec fn scalar_times(s: S, rhs: Self) -> Self {
        Self::from_cells(|col: int, row: int| s.times(rhs.at(col, row)))
    }

    /// The component-wise quotient of two matrices.
    pub open spec fn over(self, rhs: Self) -> Self {
        Self::from_cells(|col: int, row: int| self.at(col, row).over(rhs.at(col, row)))
    }

    /// The quotient of every component with the scalar `s` on the right.
    pub open spec fn over_scalar(self, s: S) -> Self {
        Self::from_cells(|col: int, row: int| self.at(col, row).over(s))
    }

    /// The quotient of the scalar `s` on the left with every component.
    pub open spec fn scalar_over(s: S, rhs: Self) -> Self {
        Self::from_cells(|col: int, row: int| s.over(rhs.at(col, row)))
    }

    /// The matrix product `self * rhs`: the component in column `col` and row
    /// `row` is the sum over `i` of `self[i][row] * rhs[col][i]`, added from the
    /// first term on.
    pub open spec fn product(self, rhs: Self) -> Self {
        Self::from_cells(
            |col: int, row: int| partial_sum(self.inner(), rhs.inner(), col, row, 3),
        )
    }

    /// The matrix whose components, column after column, are `elements`.
    pub fn from_array(elements: [S; 9]) -> (r: Self)
        ensures
            r@ == elements@,
            r == Self::from_flat(elements@),
    {
        let r = Mat3 {
            cols: [
                [elements[0], elements[1], elements[2]],
                [elements[3], elements[4], elements[5]],
                [elements[6], elements[7], elements[8]],
            ],
        };
        assert(r@ =~= elements@);
        proof {
            Self::lemma_matrix_round_trip(r);
        }
        r
    }

    /// The nine components, column after column.
    pub fn to_array(self) -> (r: [S; 9])
        ensures
            r@ == self@,
    {
        let r = [
            self.cols[0][0],
            self.cols[0][1],
            self.cols[0][2],
            self.cols[1][0],
            self.cols[1][1],
            self.cols[1][2],
            self.cols[2][0],
            self.cols[2][1],
            self.cols[2][2],
        ];
        assert(r@ =~= self@);
        r
    }

    /// Exact equality of all components.
    pub fn equals(&self, other: &Self) -> (r: bool)
        ensures
            r == self.same(*other),
    {
        let mut i: usize = 0;
        while i < 9
            invariant
                i <= 9,
                forall|col: int, row: int|
                    0 <= col < 3 && 0 <= row < 3 && col * 3 + row < i ==> (#[trigger] self.at(
                        col,
                        row,
                    )).same(other.at(col, row)),
            decreases 9 - i,
        {
            if !self.cols[i / 3][i % 3].eq(other.cols[i / 3][i % 3]) {
                assert(!self.at((i / 3) as int, (i % 3) as int).same(
                    other.at((i / 3) as int, (i % 3) as int),
                ));
                return false;
            }
            i += 1;
        }
        true
    }

    /// The column `index`.
    pub fn index(&self, index: usize) -> (r: &[S; 3])
        requires
            index < 3,
        ensures
            forall|row: int| 0 <= row < 3 ==> r@[row] == self.at(index as int, row),
    {
        &self.cols[index]
    }

    /// The column `index`, to be written through.
    pub fn index_mut(&mut self, index: usize) -> (r: &mut [S; 3])
        requires
            index < 3,
        ensures
            forall|row: int| 0 <= row < 3 ==> r@[row] == old(self).at(index as int, row),
            forall|col: int, row: int|
                0 <= col < 3 && 0 <= row < 3 ==> final(self).at(col, row) == if col == index {
                    final(r)@[row]
                } else {
                    old(self).at(col, row)
                },
    {
        &mut self.cols[index]
    }

    /// The component-wise product, which is not the matrix product.
    pub fn component_mul(self, rhs: Self) -> (r: Self)
        ensures
            r == self.times(rhs),
    {
        let r = Mat3 { cols: combine(Op::Times, &self.cols, &Side::Matrix(rhs.cols)) };
        proof {
            broadcast use Mat3::lemma_from_cells;

            Self::lemma_components_determine(r, self.times(rhs));
        }
        r
    }

    /// `lhs + self`: the scalar stands on the left of every component.
    pub fn radd(self, lhs: S) -> (r: Self)
        ensures
            r == Self::scalar_plus(lhs, self),
    {
        let r = Mat3 { cols: combine(Op::Plus, &self.cols, &Side::Left(lhs)) };
        proof {
            broadcast use Mat3::lemma_from_cells;

            Self::lemma_components_determine(r, Self::scalar_plus(lhs, self));
        }
        r
    }

    /// `lhs - self`: the scalar stands on the left of every component.
    pub fn rsub(self, lhs: S) -> (r: Self)
        ensures
            r == Self::scalar_minus(lhs, self),
    {
        let r = Mat3 { cols: combine(Op::Minus, &self.cols, &Side::Left(lhs)) };
        proof {
            broadcast use Mat3::lemma_from_cells;

            Self::lemma_components_determine(r, Self::scalar_minus(lhs, self));
        }
        r
    }

    /// `lhs * self`: the scalar stands on the left of every component.
    pub fn rmul(self, lhs: S) -> (r: Self)
        ensures
            r == Self::scalar_times(lhs, self),
    {
        let r = Mat3 { cols: combine(Op::Times, &self.cols, &Side::Left(lhs)) };
        proof {
            broadcast use Mat3::lemma_from_cells;

            Self::lemma_components_determine(r, Self::scalar_times(lhs, self));
        }
        r
    }

    /// `lhs / self`: the scalar stands on the left of every component.
    pub fn rdiv(self, lhs: S) -> (r: Self)
        ensures
            r == Self::scalar_over(lhs, self),
    {
        let r = Mat3 { cols: combine(Op::Over, &self.cols, &Side::Left(lhs)) };
        proof {
            broadcast use Mat3::lemma_from_cells;

            Self::lemma_components_determine(r, Self::scalar_over(lhs, self));
        }
        r
    }

}

impl<S: Real> Mat for Mat3<S> {
    open spec fn transposed_spec(self) -> Self {
        Self::from_cells(|col: int, row: int| self.at(row, col))
    }

    fn transpose(self) -> (r: Self) {
        let r = Mat3 { cols: swap_transpose(self.cols) };
        proof {
            broadcast use Mat3::lemma_from_cells;

            Self::lemma_components_determine(r, self.transposed_spec());
        }
        r
    }

    fn transposed(&self) -> (r: Self) {
        let r = Mat3 { cols: copy_transpose(&self.cols) };
        proof {
            broadcast use Mat3::lemma_from_cells;

            Self::lemma_components_determine(r, self.transposed_spec());
        }
        r
    }
}

/// The ways to construct a `Mat3`: from one scalar, or from three columns.
pub trait Mat3Constructor<T>: Seal + Sized {
    /// The matrix that the arguments stand for.
    spec fn resolved(args: T) -> Self;

    fn new(args: T) -> (r: Self)
        ensures
            r == Self::resolved(args),
    ;
}

/// A single scalar `s` gives `s` on the diagonal and zero everywhere else.
impl<S: Real> Mat3Constructor<S> for Mat3<S> {
    open spec fn resolved(args: S) -> Self {
        Self::from_cells(
            |col: int, row: int|
                if col == row {
                    args
                } else {
                    zero::<S>()
                },
        )
    }

    fn new(args: S) -> (r: Self) {
        let s = args;
        let z = S::from_i32(0);
        let r = Mat3 { cols: [[s, z, z], [z, s, z], [z, z, s]] };
        proof {
            broadcast use Mat3::lemma_from_cells;

            Self::lemma_components_determine(r, Self::resolved(args));
        }
        r
    }
}

/// Three vectors become the three columns, in the order given.
impl<S: Real> Mat3Constructor<(Vec3<S>, Vec3<S>, Vec3<S>)> for Mat3<S> {
    open spec fn resolved(args: (Vec3<S>, Vec3<S>, Vec3<S>)) -> Self {
        Self::from_cells(
            |col: int, row: int|
                if col == 0 {
                    args.0@[row]
                } else if col == 1 {
                    args.1@[row]
                } else {
                    args.2@[row]
                },
        )
    }

    fn new(args: (Vec3<S>, Vec3<S>, Vec3<S>)) -> (r: Self) {
        let (v1, v2, v3) = args;
        let r = Mat3 { cols: [v1.as_array(), v2.as_array(), v3.as_array()] };
        proof {
            broadcast use Mat3::lemma_from_cells;

            Self::lemma_components_determine(r, Self::resolved(args));
        }
        r
    }
}

impl<S: Real> MatN<S, 3> for Mat3<S> {
    fn as_array(self) -> (r: [[S; 3]; 3]) {
        self.cols
    }

    fn from_array(array: [[S; 3]; 3]) -> (r: Self) {
        Mat3 { cols: array }
    }

    fn as_slice(&self) -> (r: &[[S; 3]; 3]) {
        &self.cols
    }

    fn as_slice_mut(&mut self) -> (r: &mut [[S; 3]; 3]) {
        &mut self.cols
    }

    fn from_slice(slice: &[[S; 3]; 3]) -> (r: Self) {
        Mat3 { cols: *slice }
    }
}

impl<S: Real> vstd::std_specs::ops::AddSpecImpl<Mat3<S>> for Mat3<S> {
    open spec fn obeys_add_spec() -> bool {
        true
    }

    open spec fn add_req(self, rhs: Mat3<S>) -> bool {
        true
    }

    open spec fn add_spec(self, rhs: Mat3<S>) -> Mat3<S> {
        self.plus(rhs)
    }
}

/// `a + b` works component by component.
impl<S: Real> Add<Mat3<S>> for Mat3<S> {
    type Output = Mat3<S>;

    fn add(self, rhs: Mat3<S>) -> (r: Mat3<S>) {
        let r = Mat3 { cols: combine(Op::Plus, &self.cols, &Side::Matrix(rhs.cols)) };
        proof {
            broadcast use Mat3::lemma_from_cells;

            Self::lemma_components_determine(r, self.plus(rhs));
        }
        r
    }
}

impl<S: Real> AddAssign<Mat3<S>> for Mat3<S> {
    fn add_assign(&mut self, rhs: Mat3<S>)
        ensures
            *final(self) == old(self).plus(rhs),
    {
        let r = Mat3 { cols: combine(Op::Plus, &self.cols, &Side::Matrix(rhs.cols)) };
        proof {
            broadcast use Mat3::lemma_from_cells;

            Self::lemma_components_determine(r, self.plus(rhs));
        }
        *self = r;
    }
}

impl<S: Real> vstd::std_specs::ops::AddSpecImpl<S> for Mat3<S> {
    open spec fn obeys_add_spec() -> bool {
        true
    }

    open spec fn add_req(self, rhs: S) -> bool {
        true
    }

    open spec fn add_spec(self, rhs: S) -> Mat3<S> {
        self.plus_scalar(rhs)
    }
}

/// `matrix + scalar`: the scalar stands on the right of every component.
impl<S: Real> Add<S> for Mat3<S> {
    type Output = Mat3<S>;

    fn add(self, rhs: S) -> (r: Mat3<S>) {
        let r = Mat3 { cols: combine(Op::Plus, &self.cols, &Side::Right(rhs)) };
        proof {
            broadcast use Mat3::lemma_from_cells;

            Self::lemma_components_determine(r, self.plus_scalar(rhs));
        }
        r
    }
}

impl<S: Real> vstd::std_specs::ops::SubSpecImpl<Mat3<S>> for Mat3<S> {
    open spec fn obeys_sub_spec() -> bool {
        true
    }

    open spec fn sub_req(self, rhs: Mat3<S>) -> bool {
        true
    }

    open spec fn sub_spec(self, rhs: Mat3<S>) -> Mat3<S> {
        self.minus(rhs)
    }
}

/// `a - b` works component by component.
impl<S: Real> Sub<Mat3<S>> for Mat3<S> {
    type Output = Mat3<S>;

    fn sub(self, rhs: Mat3<S>) -> (r: Mat3<S>) {
        let r = Mat3 { cols: combine(Op::Minus, &self.cols, &Side::Matrix(rhs.cols)) };
        proof {
            broadcast use Mat3::lemma_from_cells;

            Self::lemma_components_determine(r, self.minus(rhs));
        }
        r
    }
}

impl<S: Real> SubAssign<Mat3<S>> for Mat3<S> {
    fn sub_assign(&mut self, rhs: Mat3<S>)
        ensures
            *final(self) == old(self).minus(rhs),
    {
        let r = Mat3 { cols: combine(Op::Minus, &self.cols, &Side::Matrix(rhs.cols)) };
        proof {
            broadcast use Mat3::lemma_from_cells;

            Self::lemma_components_determine(r, self.minus(rhs));
        }
        *self = r;
    }
}

impl<S: Real> vstd::std_specs::ops::SubSpecImpl<S> for Mat3<S> {
    open spec fn obeys_sub_spec() -> bool {
        true
    }

    open spec fn sub_req(self, rhs: S) -> bool {
        true
    }

    open spec fn sub_spec(self, rhs: S) -> Mat3<S> {
        self.minus_scalar(rhs)
    }
}

/// `matrix - scalar`: the scalar stands on the right of every component.
impl<S: Real> Sub<S> for Mat3<S> {
    type Output = Mat3<S>;

    fn sub(self, rhs: S) -> (r: Mat3<S>) {
        let r = Mat3 { cols: combine(Op::Minus, &self.cols, &Side::Right(rhs)) };
        proof {
            broadcast use Mat3::lemma_from_cells;

            Self::lemma_components_determine(r, self.minus_scalar(rhs));
        }
        r
    }
}

impl<S: Real> vstd::std_specs::ops::MulSpecImpl<Mat3<S>> for Mat3<S> {
    open spec fn obeys_mul_spec() -> bool {
        true
    }

    open spec fn mul_req(self, rhs: Mat3<S>) -> bool {
        true
    }

    open spec fn mul_spec(self, rhs: Mat3<S>) -> Mat3<S> {
        self.product(rhs)
    }
}

/// `a * b` is the matrix product, not the component-wise one.
impl<S: Real> Mul<Mat3<S>> for Mat3<S> {
    type Output = Mat3<S>;

    fn mul(self, rhs: Mat3<S>) -> (r: Mat3<S>) {
        let r = Mat3 { cols: accumulate_product(&self.cols, &rhs.cols) };
        proof {
            broadcast use Mat3::lemma_from_cells;

            Self::lemma_components_determine(r, self.product(rhs));
        }
        r
    }
}

impl<S: Real> vstd::std_specs::ops::MulSpecImpl<S> for Mat3<S> {
    open spec fn obeys_mul_spec() -> bool {
        true
    }

    open spec fn mul_req(self, rhs: S) -> bool {
        true
    }

    open spec fn mul_spec(self, rhs: S) -> Mat3<S> {
        self.times_scalar(rhs)
    }
}

/// `matrix * scalar`: the scalar stands on the right of every component.
impl<S: Real> Mul<S> for Mat3<S> {
    type Output = Mat3<S>;

    fn mul(self, rhs: S) -> (r: Mat3<S>) {
        let r = Mat3 { cols: combine(Op::Times, &self.cols, &Side::Right(rhs)) };
        proof {
            broadcast use Mat3::lemma_from_cells;

            Self::lemma_components_determine(r, self.times_scalar(rhs));
        }
        r
    }
}

impl<S: Real> vstd::std_specs::ops::DivSpecImpl<Mat3<S>> for Mat3<S> {
    open spec fn obeys_div_spec() -> bool {
        true
    }

    open spec fn div_req(self, rhs: Mat3<S>) -> bool {
        true
    }

    open spec fn div_spec(self, rhs: Mat3<S>) -> Mat3<S> {
        self.over(rhs)
    }
}

/// `a / b` works component by component.
impl<S: Real> Div<Mat3<S>> for Mat3<S> {
    type Output = Mat3<S>;

    fn div(self, rhs: Mat3<S>) -> (r: Mat3<S>) {
        let r = Mat3 { cols: combine(Op::Over, &self.cols, &Side::Matrix(rhs.cols)) };
        proof {
            broadcast use Mat3::lemma_from_cells;

            Self::lemma_components_determine(r, self.over(rhs));
        }
        r
    }
}

impl<S: Real> DivAssign<Mat3<S>> for Mat3<S> {
    fn div_assign(&mut self, rhs: Mat3<S>)
        ensures
            *final(self) == old(self).over(rhs),
    {
        let r = Mat3 { cols: combine(Op::Over, &self.cols, &Side::Matrix(rhs.cols)) };
        proof {
            broadcast use Mat3::lemma_from_cells;

            Self::lemma_components_determine(r, self.over(rhs));
        }
        *self = r;
    }
}

impl<S: Real> vstd::std_specs::ops::DivSpecImpl<S> for Mat3<S> {
    open spec fn obeys_div_spec() -> bool {
        true
    }

    open spec fn div_req(self, rhs: S) -> bool {
        true
    }

    open spec fn div_spec(self, rhs: S) -> Mat3<S> {
        self.over_scalar(rhs)
    }
}

/// `matrix / scalar`: the scalar stands on the right of every component.
impl<S: Real> Div<S> for Mat3<S> {
    type Output = Mat3<S>;

    fn div(self, rhs: S) -> (r: Mat3<S>) {
        let r = Mat3 { cols: combine(Op::Over, &self.cols, &Side::Right(rhs)) };
        proof {
            broadcast use Mat3::lemma_from_cells;

            Self::lemma_components_determine(r, self.over_scalar(rhs));
        }
        r
    }
}

} // verus!
