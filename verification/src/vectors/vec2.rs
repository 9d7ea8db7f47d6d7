//! The vector of two components.

use vstd::prelude::*;

use core::ops::{Add, AddAssign, Div, DivAssign, Mul, MulAssign, Sub, SubAssign};

use crate::scalar::{zero, Make, Real, Seal};
use crate::vectors::{Vec3, Vec4, VecN};

verus! {

/// A vector of two components: `x` and `y`, in this order.
#[derive(Clone, Copy, Debug, PartialEq, PartialOrd)]
pub struct Vec2<S> {
    e: [S; 2],
}

impl<S> Seal for Vec2<S> {

}

impl<S: Real> Make<[S; 2]> for Vec2<S> {
    closed spec fn inner(self) -> [S; 2] {
        self.e
    }

    fn make(inner: [S; 2]) -> (r: Self) {
        Vec2 { e: inner }
    }

    proof fn lemma_inner_determines(a: Self, b: Self) {
    }
}

/// The view of a vector is the sequence of its two components.
impl<S: Real> View for Vec2<S> {
    type V = Seq<S>;

    open spec fn view(&self) -> Seq<S> {
        self.inner()@
    }
}

impl<S: Real> Vec2<S> {
    /// The vector whose components are the first two entries of `s`; what
    /// its view is, `lemma_from_seq` says.
    pub closed spec fn from_seq(s: Seq<S>) -> Self {
        Vec2 { e: [s[0], s[1]] }
    }

    /// Round trip: two components made into a vector and read back are the
    /// same components, in the same order.
    pub broadcast proof fn lemma_from_seq(s: Seq<S>)
        requires
            s.len() == 2,
        ensures
            #[trigger] Self::from_seq(s)@ == s,
    {
        assert(Self::from_seq(s)@ =~= s);
    }

    /// Round trip: a vector read out and made again from its components is the
    /// same vector.
    pub proof fn lemma_of_view(v: Self)
        ensures
            Self::from_seq(v@) == v,
    {
        Self::lemma_from_seq(v@);
        Self::lemma_view_determines(Self::from_seq(v@), v);
    }

    /// A vector is determined by its components.
    pub proof fn lemma_view_determines(a: Self, b: Self)
        requires
            a@ =~= b@,
        ensures
            a == b,
    {
        assert(a.inner() =~= b.inner());
        Self::lemma_inner_determines(a, b);
    }

    /// The vector with the same component `s` everywhere.
    pub open spec fn splat(s: S) -> Self {
        Self::from_seq(Seq::new(2, |i: int| s))
    }

    /// The component-wise sum of two vectors.
    pub open spec fn plus(self, rhs: Self) -> Self {
        Self::from_seq(Seq::new(2, |i: int| self@[i].plus(rhs@[i])))
    }

    /// The sum of every component with the scalar `s` on the right.
    pub open spec fn plus_scalar(self, s: S) -> Self {
        Self::from_seq(Seq::new(2, |i: int| self@[i].plus(s)))
    }

    /// The sum of the scalar `s` on the left with every component.
    pub open spec fn scalar_plus(s: S, rhs: Self) -> Self {
        Self::from_seq(Seq::new(2, |i: int| s.plus(rhs@[i])))
    }

    /// The component-wise difference of two vectors.
    pub open spec fn minus(self, rhs: Self) -> Self {
        Self::from_seq(Seq::new(2, |i: int| self@[i].minus(rhs@[i])))
    }

    /// The difference of every component with the scalar `s` on the right.
    pub open spec fn minus_scalar(self, s: S) -> Self {
        Self::from_seq(Seq::new(2, |i: int| self@[i].minus(s)))
    }

    /// The difference of the scalar `s` on the left with every component.
    pub open spec fn scalar_minus(s: S, rhs: Self) -> Self {
        Self::from_seq(Seq::new(2, |i: int| s.minus(rhs@[i])))
    }

    /// The component-wise product of two vectors.
    pub open spec fn times(self, rhs: Self) -> Self {
        Self::from_seq(Seq::new(2, |i: int| self@[i].times(rhs@[i])))
    }

    /// The product of every component with the scalar `s` on the right.
    pub open spec fn times_scalar(self, s: S) -> Self {
        Self::from_seq(Seq::new(2, |i: int| self@[i].times(s)))
    }

    /// The product of the scalar `s` on the left with every component.
    pub open spec fn scalar_times(s: S, rhs: Self) -> Self {
        Self::from_seq(Seq::new(2, |i: int| s.times(rhs@[i])))
    }

    /// The component-wise quotient of two vectors.
    pub open spec fn over(self, rhs: Self) -> Self {
        Self::from_seq(Seq::new(2, |i: int| self@[i].over(rhs@[i])))
    }

    /// The quotient of every component with the scalar `s` on the right.
    pub open spec fn over_scalar(self, s: S) -> Self {
        Self::from_seq(Seq::new(2, |i: int| self@[i].over(s)))
    }

    /// The quotient of the scalar `s` on the left with every component.
    pub open spec fn scalar_over(s: S, rhs: Self) -> Self {
        Self::from_seq(Seq::new(2, |i: int| s.over(rhs@[i])))
    }

    /// All components are equal, each pair as the component type compares
    /// them.
    pub open spec fn same(self, other: Self) -> bool {
        &&& self@[0].same(other@[0])
        &&& self@[1].same(other@[1])
    }

    /// The lexicographic order: the first pair of components that are not
    /// equal decides, and it decides for `self` when its component is below.
    pub open spec fn below(self, other: Self) -> bool {
        ||| self@[0].below(other@[0])
        ||| {
            &&& self@[0].same(other@[0])
            &&& self@[1].below(other@[1])
        }
    }

    /// The vector of the components given, in the order given.
    pub fn _new(x: S, y: S) -> (r: Self)
        ensures
            r@ == seq![x, y],
    {
        Vec2 { e: [x, y] }
    }

    /// The first component.
    pub fn x(&self) -> (r: S)
        ensures
            r == self@[0],
    {
        self.e[0]
    }

    /// The second component.
    pub fn y(&self) -> (r: S)
        ensures
            r == self@[1],
    {
        self.e[1]
    }

    /// `lhs + self`: the scalar stands on the left of every component.
    pub fn radd(self, lhs: S) -> (r: Self)
        ensures
            r == Self::scalar_plus(lhs, self),
    {
        let r = Vec2 { e: [lhs.add(self.e[0]), lhs.add(self.e[1])] };
        proof {
            broadcast use Vec2::lemma_from_seq;

            Self::lemma_view_determines(r, Self::scalar_plus(lhs, self));
        }
        r
    }

    /// `lhs - self`: the scalar stands on the left of every component.
    pub fn rsub(self, lhs: S) -> (r: Self)
        ensures
            r == Self::scalar_minus(lhs, self),
    {
        let r = Vec2 { e: [lhs.sub(self.e[0]), lhs.sub(self.e[1])] };
        proof {
            broadcast use Vec2::lemma_from_seq;

            Self::lemma_view_determines(r, Self::scalar_minus(lhs, self));
        }
        r
    }

    /// `lhs * self`: the scalar stands on the left of every component.
    pub fn rmul(self, lhs: S) -> (r: Self)
        ensures
            r == Self::scalar_times(lhs, self),
    {
        let r = Vec2 { e: [lhs.mul(self.e[0]), lhs.mul(self.e[1])] };
        proof {
            broadcast use Vec2::lemma_from_seq;

            Self::lemma_view_determines(r, Self::scalar_times(lhs, self));
        }
        r
    }

    /// `lhs / self`: the scalar stands on the left of every component.
    pub fn rdiv(self, lhs: S) -> (r: Self)
        ensures
            r == Self::scalar_over(lhs, self),
    {
        let r = Vec2 { e: [lhs.div(self.e[0]), lhs.div(self.e[1])] };
        proof {
            broadcast use Vec2::lemma_from_seq;

            Self::lemma_view_determines(r, Self::scalar_over(lhs, self));
        }
        r
    }

    /// Exact equality of all components.
    pub fn equals(&self, other: &Self) -> (r: bool)
        ensures
            r == self.same(*other),
    {
        self.e[0].eq(other.e[0]) && self.e[1].eq(other.e[1])
    }

    /// The lexicographic order on the components.
    pub fn less(&self, other: &Self) -> (r: bool)
        ensures
            r == self.below(*other),
    {
        if self.e[0].lt(other.e[0]) {
            true
        } else if self.e[0].eq(other.e[0]) {
            self.e[1].lt(other.e[1])
        } else {
            false
        }
    }
}

impl<S: Real> VecN<S, 2> for Vec2<S> {
    fn as_array(self) -> (r: [S; 2])
        ensures
            r@ == self@,
    {
        self.e
    }

    fn from_array(array: [S; 2]) -> (r: Self)
        ensures
            r@ == array@,
            r == Self::from_seq(array@),
    {
        let r = Vec2 { e: array };
        proof {
            Self::lemma_of_view(r);
        }
        r
    }

    fn as_slice(&self) -> (r: &[S; 2])
        ensures
            r@ == self@,
    {
        &self.e
    }

    fn as_slice_mut(&mut self) -> (r: &mut [S; 2])
        ensures
            r@ == old(self)@,
            final(self)@ == final(r)@,
    {
        &mut self.e
    }

    fn from_slice(slice: &[S; 2]) -> (r: Self)
        ensures
            r@ == slice@,
            r == Self::from_seq(slice@),
    {
        let r = Vec2 { e: [slice[0], slice[1]] };
        assert(r@ =~= slice@);
        proof {
            Self::lemma_of_view(r);
        }
        r
    }
}

/// The ways to construct a `Vec2`: the component counts of the arguments add
/// up to two, or a single argument is broadcast, cut or filled with zeros.
pub trait Vec2Constructor<T>: Seal + Sized {
    /// The vector that the arguments stand for.
    spec fn resolved(args: T) -> Self;

    fn new(args: T) -> (r: Self)
        ensures
            r == Self::resolved(args),
    ;
}

impl<S: Real> Vec2Constructor<(S, S)> for Vec2<S> {
    open spec fn resolved(args: (S, S)) -> Self {
        Self::from_seq(seq![args.0, args.1])
    }

    fn new(args: (S, S)) -> (r: Self) {
        let (a, b) = args;
        let r = Self::_new(a, b);
        proof {
            broadcast use Vec2::lemma_from_seq;

            Self::lemma_view_determines(r, Self::resolved(args));
        }
        r
    }
}

/// A single scalar is broadcast to all two components.
impl<S: Real> Vec2Constructor<S> for Vec2<S> {
    open spec fn resolved(args: S) -> Self {
        Self::splat(args)
    }

    fn new(args: S) -> (r: Self) {
        let r = Self::_new(args, args);
        proof {
            broadcast use Vec2::lemma_from_seq;

            Self::lemma_view_determines(r, Self::resolved(args));
        }
        r
    }
}

/// A longer vector is cut after its first two components.
impl<S: Real> Vec2Constructor<Vec3<S>> for Vec2<S> {
    open spec fn resolved(args: Vec3<S>) -> Self {
        Self::from_seq(seq![args@[0], args@[1]])
    }

    fn new(args: Vec3<S>) -> (r: Self) {
        let r = Self::_new(args.x(), args.y());
        proof {
            broadcast use Vec2::lemma_from_seq;

            Self::lemma_view_determines(r, Self::resolved(args));
        }
        r
    }
}

/// A longer vector is cut after its first two components.
impl<S: Real> Vec2Constructor<Vec4<S>> for Vec2<S> {
    open spec fn resolved(args: Vec4<S>) -> Self {
        Self::from_seq(seq![args@[0], args@[1]])
    }

    fn new(args: Vec4<S>) -> (r: Self) {
        let r = Self::_new(args.x(), args.y());
        proof {
            broadcast use Vec2::lemma_from_seq;

            Self::lemma_view_determines(r, Self::resolved(args));
        }
        r
    }
}

impl<S: Real> Vec2<S> {
    /// A single scalar stands for the vector that repeats it.
    pub proof fn lemma_splat(s: S)
        ensures
            Vec2::<S>::resolved(s) == Vec2::<S>::resolved((s, s)),
    {
        broadcast use Vec2::lemma_from_seq;

        Self::lemma_view_determines(Vec2::<S>::resolved(s), Vec2::<S>::resolved((s, s)));
    }

    /// Constructions that list the same components in the same order give the
    /// same vector, however the components are grouped into smaller vectors.
    pub proof fn lemma_construction_equivalence(a: S, b: S)
        ensures
            ({
                let flat = Self::from_seq(seq![a, b]);
                &&& Vec2::<S>::resolved((a, b)) == flat
            }),
    {
        broadcast use Vec2::lemma_from_seq;

        let flat = Self::from_seq(seq![a, b]);
        Self::lemma_view_determines(Vec2::<S>::resolved((a, b)), flat);
    }
}

impl<S: Real> vstd::std_specs::ops::AddSpecImpl<Vec2<S>> for Vec2<S> {
    open spec fn obeys_add_spec() -> bool {
        true
    }

    open spec fn add_req(self, rhs: Vec2<S>) -> bool {
        true
    }

    open spec fn add_spec(self, rhs: Vec2<S>) -> Vec2<S> {
        self.plus(rhs)
    }
}

impl<S: Real> Add<Vec2<S>> for Vec2<S> {
    type Output = Vec2<S>;

    fn add(self, rhs: Vec2<S>) -> (r: Vec2<S>) {
        let r = Vec2 { e: [self.e[0].add(rhs.e[0]), self.e[1].add(rhs.e[1])] };
        proof {
            broadcast use Vec2::lemma_from_seq;

            Self::lemma_view_determines(r, self.plus(rhs));
        }
        r
    }
}

impl<S: Real> AddAssign<Vec2<S>> for Vec2<S> {
    fn add_assign(&mut self, rhs: Vec2<S>)
        ensures
            *final(self) == old(self).plus(rhs),
    {
        self.e[0] = self.e[0].add(rhs.e[0]);
        self.e[1] = self.e[1].add(rhs.e[1]);
        proof {
            broadcast use Vec2::lemma_from_seq;

            Self::lemma_view_determines(*self, old(self).plus(rhs));
        }
    }
}

impl<S: Real> vstd::std_specs::ops::AddSpecImpl<S> for Vec2<S> {
    open spec fn obeys_add_spec() -> bool {
        true
    }

    open spec fn add_req(self, rhs: S) -> bool {
        true
    }

    open spec fn add_spec(self, rhs: S) -> Vec2<S> {
        self.plus_scalar(rhs)
    }
}

/// `vector + scalar`: the scalar stands on the right of every component.
impl<S: Real> Add<S> for Vec2<S> {
    type Output = Vec2<S>;

    fn add(self, rhs: S) -> (r: Vec2<S>) {
        let r = Vec2 { e: [self.e[0].add(rhs), self.e[1].add(rhs)] };
        proof {
            broadcast use Vec2::lemma_from_seq;

            Self::lemma_view_determines(r, self.plus_scalar(rhs));
        }
        r
    }
}

impl<S: Real> vstd::std_specs::ops::SubSpecImpl<Vec2<S>> for Vec2<S> {
    open spec fn obeys_sub_spec() -> bool {
        true
    }

    open spec fn sub_req(self, rhs: Vec2<S>) -> bool {
        true
    }

    open spec fn sub_spec(self, rhs: Vec2<S>) -> Vec2<S> {
        self.minus(rhs)
    }
}

impl<S: Real> Sub<Vec2<S>> for Vec2<S> {
    type Output = Vec2<S>;

    fn sub(self, rhs: Vec2<S>) -> (r: Vec2<S>) {
        let r = Vec2 { e: [self.e[0].sub(rhs.e[0]), self.e[1].sub(rhs.e[1])] };
        proof {
            broadcast use Vec2::lemma_from_seq;

            Self::lemma_view_determines(r, self.minus(rhs));
        }
        r
    }
}

impl<S: Real> SubAssign<Vec2<S>> for Vec2<S> {
    fn sub_assign(&mut self, rhs: Vec2<S>)
        ensures
            *final(self) == old(self).minus(rhs),
    {
        self.e[0] = self.e[0].sub(rhs.e[0]);
        self.e[1] = self.e[1].sub(rhs.e[1]);
        proof {
            broadcast use Vec2::lemma_from_seq;

            Self::lemma_view_determines(*self, old(self).minus(rhs));
        }
    }
}

impl<S: Real> vstd::std_specs::ops::SubSpecImpl<S> for Vec2<S> {
    open spec fn obeys_sub_spec() -> bool {
        true
    }

    open spec fn sub_req(self, rhs: S) -> bool {
        true
    }

    open spec fn sub_spec(self, rhs: S) -> Vec2<S> {
        self.minus_scalar(rhs)
    }
}

/// `vector - scalar`: the scalar stands on the right of every component.
impl<S: Real> Sub<S> for Vec2<S> {
    type Output = Vec2<S>;

    fn sub(self, rhs: S) -> (r: Vec2<S>) {
        let r = Vec2 { e: [self.e[0].sub(rhs), self.e[1].sub(rhs)] };
        proof {
            broadcast use Vec2::lemma_from_seq;

            Self::lemma_view_determines(r, self.minus_scalar(rhs));
        }
        r
    }
}

impl<S: Real> vstd::std_specs::ops::MulSpecImpl<Vec2<S>> for Vec2<S> {
    open spec fn obeys_mul_spec() -> bool {
        true
    }

    open spec fn mul_req(self, rhs: Vec2<S>) -> bool {
        true
    }

    open spec fn mul_spec(self, rhs: Vec2<S>) -> Vec2<S> {
        self.times(rhs)
    }
}

impl<S: Real> Mul<Vec2<S>> for Vec2<S> {
    type Output = Vec2<S>;

    fn mul(self, rhs: Vec2<S>) -> (r: Vec2<S>) {
        let r = Vec2 { e: [self.e[0].mul(rhs.e[0]), self.e[1].mul(rhs.e[1])] };
        proof {
            broadcast use Vec2::lemma_from_seq;

            Self::lemma_view_determines(r, self.times(rhs));
        }
        r
    }
}

impl<S: Real> MulAssign<Vec2<S>> for Vec2<S> {
    fn mul_assign(&mut self, rhs: Vec2<S>)
        ensures
            *final(self) == old(self).times(rhs),
    {
        self.e[0] = self.e[0].mul(rhs.e[0]);
        self.e[1] = self.e[1].mul(rhs.e[1]);
        proof {
            broadcast use Vec2::lemma_from_seq;

            Self::lemma_view_determines(*self, old(self).times(rhs));
        }
    }
}

impl<S: Real> vstd::std_specs::ops::MulSpecImpl<S> for Vec2<S> {
    open spec fn obeys_mul_spec() -> bool {
        true
    }

    open spec fn mul_req(self, rhs: S) -> bool {
        true
    }

    open spec fn mul_spec(self, rhs: S) -> Vec2<S> {
        self.times_scalar(rhs)
    }
}

/// `vector * scalar`: the scalar stands on the right of every component.
impl<S: Real> Mul<S> for Vec2<S> {
    type Output = Vec2<S>;

    fn mul(self, rhs: S) -> (r: Vec2<S>) {
        let r = Vec2 { e: [self.e[0].mul(rhs), self.e[1].mul(rhs)] };
        proof {
            broadcast use Vec2::lemma_from_seq;

            Self::lemma_view_determines(r, self.times_scalar(rhs));
        }
        r
    }
}

impl<S: Real> vstd::std_specs::ops::DivSpecImpl<Vec2<S>> for Vec2<S> {
    open spec fn obeys_div_spec() -> bool {
        true
    }

    open spec fn div_req(self, rhs: Vec2<S>) -> bool {
        true
    }

    open spec fn div_spec(self, rhs: Vec2<S>) -> Vec2<S> {
        self.over(rhs)
    }
}

impl<S: Real> Div<Vec2<S>> for Vec2<S> {
    type Output = Vec2<S>;

    fn div(self, rhs: Vec2<S>) -> (r: Vec2<S>) {
        let r = Vec2 { e: [self.e[0].div(rhs.e[0]), self.e[1].div(rhs.e[1])] };
        proof {
            broadcast use Vec2::lemma_from_seq;

            Self::lemma_view_determines(r, self.over(rhs));
        }
        r
    }
}

impl<S: Real> DivAssign<Vec2<S>> for Vec2<S> {
    fn div_assign(&mut self, rhs: Vec2<S>)
        ensures
            *final(self) == old(self).over(rhs),
    {
        self.e[0] = self.e[0].div(rhs.e[0]);
        self.e[1] = self.e[1].div(rhs.e[1]);
        proof {
            broadcast use Vec2::lemma_from_seq;

            Self::lemma_view_determines(*self, old(self).over(rhs));
        }
    }
}

impl<S: Real> vstd::std_specs::ops::DivSpecImpl<S> for Vec2<S> {
    open spec fn obeys_div_spec() -> bool {
        true
    }

    open spec fn div_req(self, rhs: S) -> bool {
        true
    }

    open spec fn div_spec(self, rhs: S) -> Vec2<S> {
        self.over_scalar(rhs)
    }
}

/// `vector / scalar`: the scalar stands on the right of every component.
impl<S: Real> Div<S> for Vec2<S> {
    type Output = Vec2<S>;

    fn div(self, rhs: S) -> (r: Vec2<S>) {
        let r = Vec2 { e: [self.e[0].div(rhs), self.e[1].div(rhs)] };
        proof {
            broadcast use Vec2::lemma_from_seq;

            Self::lemma_view_determines(r, self.over_scalar(rhs));
        }
        r
    }
}

} // verus!
