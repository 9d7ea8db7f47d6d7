//! The vector of four components.

use vstd::prelude::*;

use core::ops::{Add, AddAssign, Div, DivAssign, Mul, MulAssign, Sub, SubAssign};

use crate::scalar::{zero, Make, Real, Seal};
use crate::vectors::{Vec2, Vec2Constructor, Vec3, Vec3Constructor, VecN};

verus! {

/// A vector of four components: `x`, `y`, `z` and `w`, in this order.
#[derive(Clone, Copy, Debug, PartialEq, PartialOrd)]
pub struct Vec4<S> {
    e: [S; 4],
}

impl<S> Seal for Vec4<S> {

}

impl<S: Real> Make<[S; 4]> for Vec4<S> {
    closed spec fn inner(self) -> [S; 4] {
        self.e
    }

    fn make(inner: [S; 4]) -> (r: Self) {
        Vec4 { e: inner }
    }

    proof fn lemma_inner_determines(a: Self, b: Self) {
    }
}

/// The view of a vector is the sequence of its four components.
impl<S: Real> View for Vec4<S> {
    type V = Seq<S>;

    open spec fn view(&self) -> Seq<S> {
        self.inner()@
    }
}

impl<S: Real> Vec4<S> {
    /// The vector whose components are the first four entries of `s`; what
    /// its view is, `lemma_from_seq` says.
    pub closed spec fn from_seq(s: Seq<S>) -> Self {
        Vec4 { e: [s[0], s[1], s[2], s[3]] }
    }

    /// Round trip: four components made into a vector and read back are the
    /// same components, in the same order.
    pub broadcast proof fn lemma_from_seq(s: Seq<S>)
        requires
            s.len() == 4,
        ensures
            #[trigger] Self::from_seq(s)@ == s,
    {
        assert(Self::from_seq(s)@ =~= s);
    }

    /// Round trip: a vector read out and made again from its components is the
    /// same vector.
    pub proof fn lemma_of_view(v: Self)
        ensures
            Self::from_seq(v@) == v,
    {
        Self::lemma_from_seq(v@);
        Self::lemma_view_determines(Self::from_seq(v@), v);
    }

    /// A vector is determined by its components.
    pub proof fn lemma_view_determines(a: Self, b: Self)
        requires
            a@ =~= b@,
        ensures
            a == b,
    {
        assert(a.inner() =~= b.inner());
        Self::lemma_inner_determines(a, b);
    }

    /// The vector with the same component `s` everywhere.
    pub open spec fn splat(s: S) -> Self {
        Self::from_seq(Seq::new(4, |i: int| s))
    }

    /// The component-wise sum of two vectors.
    pub open spec fn plus(self, rhs: Self) -> Self {
        Self::from_seq(Seq::new(4, |i: int| self@[i].plus(rhs@[i])))
    }

    /// The sum of every component with the scalar `s` on the right.
    pub open spec fn plus_scalar(self, s: S) -> Self {
        Self::from_seq(Seq::new(4, |i: int| self@[i].plus(s)))
    }

    /// The sum of the scalar `s` on the left with every component.
    pub open spec fn scalar_plus(s: S, rhs: Self) -> Self {
        Self::from_seq(Seq::new(4, |i: int| s.plus(rhs@[i])))
    }

    /// The component-wise difference of two vectors.
    pub open spec fn minus(self, rhs: Self) -> Self {
        Self::from_seq(Seq::new(4, |i: int| self@[i].minus(rhs@[i])))
    }

    /// The difference of every component with the scalar `s` on the right.
    pub open spec fn minus_scalar(self, s: S) -> Self {
        Self::from_seq(Seq::new(4, |i: int| self@[i].minus(s)))
    }

    /// The difference of the scalar `s` on the left with every component.
    pub open spec fn scalar_minus(s: S, rhs: Self) -> Self {
        Self::from_seq(Seq::new(4, |i: int| s.minus(rhs@[i])))
    }

    /// The component-wise product of two vectors.
    pub open spec fn times(self, rhs: Self) -> Self {
        Self::from_seq(Seq::new(4, |i: int| self@[i].times(rhs@[i])))
    }

    /// The product of every component with the scalar `s` on the right.
    pub open spec fn times_scalar(self, s: S) -> Self {
        Self::from_seq(Seq::new(4, |i: int| self@[i].times(s)))
    }

    /// The product of the scalar `s` on the left with every component.
    pub open spec fn scalar_times(s: S, rhs: Self) -> Self {
        Self::from_seq(Seq::new(4, |i: int| s.times(rhs@[i])))
    }

    /// The component-wise quotient of two vectors.
    pub open spec fn over(self, rhs: Self) -> Self {
        Self::from_seq(Seq::new(4, |i: int| self@[i].over(rhs@[i])))
    }

    /// The quotient of every component with the scalar `s` on the right.
    pub open spec fn over_scalar(self, s: S) -> Self {
        Self::from_seq(Seq::new(4, |i: int| self@[i].over(s)))
    }

    /// The quotient of the scalar `s` on the left with every component.
    pub open spec fn scalar_over(s: S, rhs: Self) -> Self {
        Self::from_seq(Seq::new(4, |i: int| s.over(rhs@[i])))
    }

    /// All components are equal, each pair as the component type compares
    /// them.
    pub open spec fn same(self, other: Self) -> bool {
        &&& self@[0].same(other@[0])
        &&& self@[1].same(other@[1])
        &&& self@[2].same(other@[2])
        &&& self@[3].same(other@[3])
    }

    /// The lexicographic order: the first pair of components that are not
    /// equal decides, and it decides for `self` when its component is below.
    pub open spec fn below(self, other: Self) -> bool {
        ||| self@[0].below(other@[0])
        ||| {
            &&& self@[0].same(other@[0])
            &&& self@[1].below(other@[1])
        }
        ||| {
            &&& self@[0].same(other@[0])
            &&& self@[1].same(other@[1])
            &&& self@[2].below(other@[2])
        }
        ||| {
            &&& self@[0].same(other@[0])
            &&& self@[1].same(other@[1])
            &&& self@[2].same(other@[2])
            &&& self@[3].below(other@[3])
        }
    }

    /// The vector of the components given, in the order given.
    pub fn _new(x: S, y: S, z: S, w: S) -> (r: Self)
        ensures
            r@ == seq![x, y, z, w],
    {
        Vec4 { e: [x, y, z, w] }
    }

    /// The first component.
    pub fn x(&self) -> (r: S)
        ensures
            r == self@[0],
    {
        self.e[0]
    }

    /// The second component.
    pub fn y(&self) -> (r: S)
        ensures
            r == self@[1],
    {
        self.e[1]
    }

    /// The third component.
    pub fn z(&self) -> (r: S)
        ensures
            r == self@[2],
    {
        self.e[2]
    }

    /// The fourth component.
    pub fn w(&self) -> (r: S)
        ensures
            r == self@[3],
    {
        self.e[3]
    }

    /// `lhs + self`: the scalar stands on the left of every component.
    pub fn radd(self, lhs: S) -> (r: Self)
        ensures
            r == Self::scalar_plus(lhs, self),
    {
        let r = Vec4 {
            e: [
                lhs.add(self.e[0]),
                lhs.add(self.e[1]),
                lhs.add(self.e[2]),
                lhs.add(self.e[3]),
            ],
        };
        proof {
            broadcast use Vec4::lemma_from_seq;

            Self::lemma_view_determines(r, Self::scalar_plus(lhs, self));
        }
        r
    }

    /// `lhs - self`: the scalar stands on the left of every component.
    pub fn rsub(self, lhs: S) -> (r: Self)
        ensures
            r == Self::scalar_minus(lhs, self),
    {
        let r = Vec4 {
            e: [
                lhs.sub(self.e[0]),
                lhs.sub(self.e[1]),
                lhs.sub(self.e[2]),
                lhs.sub(self.e[3]),
            ],
        };
        proof {
            broadcast use Vec4::lemma_from_seq;

            Self::lemma_view_determines(r, Self::scalar_minus(lhs, self));
        }
        r
    }

    /// `lhs * self`: the scalar stands on the left of every component.
    pub fn rmul(self, lhs: S) -> (r: Self)
        ensures
            r == Self::scalar_times(lhs, self),
    {
        let r = Vec4 {
            e: [
                lhs.mul(self.e[0]),
                lhs.mul(self.e[1]),
                lhs.mul(self.e[2]),
                lhs.mul(self.e[3]),
            ],
        };
        proof {
            broadcast use Vec4::lemma_from_seq;

            Self::lemma_view_determines(r, Self::scalar_times(lhs, self));
        }
        r
    }

    /// `lhs / self`: the scalar stands on the left of every component.
    pub fn rdiv(self, lhs: S) -> (r: Self)
        ensures
            r == Self::scalar_over(lhs, self),
    {
        let r = Vec4 {
            e: [
                lhs.div(self.e[0]),
                lhs.div(self.e[1]),
                lhs.div(self.e[2]),
                lhs.div(self.e[3]),
            ],
        };
        proof {
            broadcast use Vec4::lemma_from_seq;

            Self::lemma_view_determines(r, Self::scalar_over(lhs, self));
        }
        r
    }

    /// Exact equality of all components.
    pub fn equals(&self, other: &Self) -> (r: bool)
        ensures
            r == self.same(*other),
    {
        self.e[0].eq(other.e[0]) && self.e[1].eq(other.e[1]) && self.e[2].eq(other.e[2])
            && self.e[3].eq(other.e[3])
    }

    /// The lexicographic order on the components.
    pub fn less(&self, other: &Self) -> (r: bool)
        ensures
            r == self.below(*other),
    {
        if self.e[0].lt(other.e[0]) {
            true
        } else if self.e[0].eq(other.e[0]) {
            if self.e[1].lt(other.e[1]) {
                true
            } else if self.e[1].eq(other.e[1]) {
                if self.e[2].lt(other.e[2]) {
                    true
                } else if self.e[2].eq(other.e[2]) {
                    self.e[3].lt(other.e[3])
                } else {
                    false
                }
            } else {
                false
            }
        } else {
            false
        }
    }
}

impl<S: Real> VecN<S, 4> for Vec4<S> {
    fn as_array(self) -> (r: [S; 4])
        ensures
            r@ == self@,
    {
        self.e
    }

    fn from_array(array: [S; 4]) -> (r: Self)
        ensures
            r@ == array@,
            r == Self::from_seq(array@),
    {
        let r = Vec4 { e: array };
        proof {
            Self::lemma_of_view(r);
        }
        r
    }

    fn as_slice(&self) -> (r: &[S; 4])
        ensures
            r@ == self@,
    {
        &self.e
    }

    fn as_slice_mut(&mut self) -> (r: &mut [S; 4])
        ensures
            r@ == old(self)@,
            final(self)@ == final(r)@,
    {
        &mut self.e
    }

    fn from_slice(slice: &[S; 4]) -> (r: Self)
        ensures
            r@ == slice@,
            r == Self::from_seq(slice@),
    {
        let r = Vec4 { e: [slice[0], slice[1], slice[2], slice[3]] };
        assert(r@ =~= slice@);
        proof {
            Self::lemma_of_view(r);
        }
        r
    }
}

/// The ways to construct a `Vec4`: the component counts of the arguments add
/// up to four, or a single argument is broadcast, cut or filled with zeros.
pub trait Vec4Constructor<T>: Seal + Sized {
    /// The vector that the arguments stand for.
    spec fn resolved(args: T) -> Self;

    fn new(args: T) -> (r: Self)
        ensures
            r == Self::resolved(args),
    ;
}

impl<S: Real> Vec4Constructor<(S, S, S, S)> for Vec4<S> {
    open spec fn resolved(args: (S, S, S, S)) -> Self {
        Self::from_seq(seq![args.0, args.1, args.2, args.3])
    }

    fn new(args: (S, S, S, S)) -> (r: Self) {
        let (a, b, c, d) = args;
        let r = Self::_new(a, b, c, d);
        proof {
            broadcast use Vec4::lemma_from_seq;

            Self::lemma_view_determines(r, Self::resolved(args));
        }
        r
    }
}

impl<S: Real> Vec4Constructor<(Vec2<S>, S, S)> for Vec4<S> {
    open spec fn resolved(args: (Vec2<S>, S, S)) -> Self {
        Self::from_seq(seq![args.0@[0], args.0@[1], args.1, args.2])
    }

    fn new(args: (Vec2<S>, S, S)) -> (r: Self) {
        let (a, b, c) = args;
        let r = Self::_new(a.x(), a.y(), b, c);
        proof {
            broadcast use Vec4::lemma_from_seq;

            Self::lemma_view_determines(r, Self::resolved(args));
        }
        r
    }
}

impl<S: Real> Vec4Constructor<(S, Vec2<S>, S)> for Vec4<S> {
    open spec fn resolved(args: (S, Vec2<S>, S)) -> Self {
        Self::from_seq(seq![args.0, args.1@[0], args.1@[1], args.2])
    }

    fn new(args: (S, Vec2<S>, S)) -> (r: Self) {
        let (a, b, c) = args;
        let r = Self::_new(a, b.x(), b.y(), c);
        proof {
            broadcast use Vec4::lemma_from_seq;

            Self::lemma_view_determines(r, Self::resolved(args));
        }
        r
    }
}

impl<S: Real> Vec4Constructor<(S, S, Vec2<S>)> for Vec4<S> {
    open spec fn resolved(args: (S, S, Vec2<S>)) -> Self {
        Self::from_seq(seq![args.0, args.1, args.2@[0], args.2@[1]])
    }

    fn new(args: (S, S, Vec2<S>)) -> (r: Self) {
        let (a, b, c) = args;
        let r = Self::_new(a, b, c.x(), c.y());
        proof {
            broadcast use Vec4::lemma_from_seq;

            Self::lemma_view_determines(r, Self::resolved(args));
        }
        r
    }
}

impl<S: Real> Vec4Constructor<(Vec3<S>, S)> for Vec4<S> {
    open spec fn resolved(args: (Vec3<S>, S)) -> Self {
        Self::from_seq(seq![args.0@[0], args.0@[1], args.0@[2], args.1])
    }

    fn new(args: (Vec3<S>, S)) -> (r: Self) {
        let (a, b) = args;
        let r = Self::_new(a.x(), a.y(), a.z(), b);
        proof {
            broadcast use Vec4::lemma_from_seq;

            Self::lemma_view_determines(r, Self::resolved(args));
        }
        r
    }
}

impl<S: Real> Vec4Constructor<(S, Vec3<S>)> for Vec4<S> {
    open spec fn resolved(args: (S, Vec3<S>)) -> Self {
        Self::from_seq(seq![args.0, args.1@[0], args.1@[1], args.1@[2]])
    }

    fn new(args: (S, Vec3<S>)) -> (r: Self) {
        let (a, b) = args;
        let r = Self::_new(a, b.x(), b.y(), b.z());
        proof {
            broadcast use Vec4::lemma_from_seq;

            Self::lemma_view_determines(r, Self::resolved(args));
        }
        r
    }
}

impl<S: Real> Vec4Constructor<(Vec2<S>, Vec2<S>)> for Vec4<S> {
    open spec fn resolved(args: (Vec2<S>, Vec2<S>)) -> Self {
        Self::from_seq(seq![args.0@[0], args.0@[1], args.1@[0], args.1@[1]])
    }

    fn new(args: (Vec2<S>, Vec2<S>)) -> (r: Self) {
        let (a, b) = args;
        let r = Self::_new(a.x(), a.y(), b.x(), b.y());
        proof {
            broadcast use Vec4::lemma_from_seq;

            Self::lemma_view_determines(r, Self::resolved(args));
        }
        r
    }
}

/// A single scalar is broadcast to all four components.
impl<S: Real> Vec4Constructor<S> for Vec4<S> {
    open spec fn resolved(args: S) -> Self {
        Self::splat(args)
    }

    fn new(args: S) -> (r: Self) {
        let r = Self::_new(args, args, args, args);
        proof {
            broadcast use Vec4::lemma_from_seq;

            Self::lemma_view_determines(r, Self::resolved(args));
        }
        r
    }
}

/// A shorter vector is filled up with zeros.
impl<S: Real> Vec4Constructor<Vec2<S>> for Vec4<S> {
    open spec fn resolved(args: Vec2<S>) -> Self {
        Self::from_seq(seq![args@[0], args@[1], zero::<S>(), zero::<S>()])
    }

    fn new(args: Vec2<S>) -> (r: Self) {
        let z: S = S::from_i32(0);
        let r = Self::_new(args.x(), args.y(), z, z);
        proof {
            broadcast use Vec4::lemma_from_seq;

            Self::lemma_view_determines(r, Self::resolved(args));
        }
        r
    }
}

/// A shorter vector is filled up with zeros.
impl<S: Real> Vec4Constructor<Vec3<S>> for Vec4<S> {
    open spec fn resolved(args: Vec3<S>) -> Self {
        Self::from_seq(seq![args@[0], args@[1], args@[2], zero::<S>()])
    }

    fn new(args: Vec3<S>) -> (r: Self) {
        let z: S = S::from_i32(0);
        let r = Self::_new(args.x(), args.y(), args.z(), z);
        proof {
            broadcast use Vec4::lemma_from_seq;

            Self::lemma_view_determines(r, Self::resolved(args));
        }
        r
    }
}

impl<S: Real> Vec4<S> {
    /// A single scalar stands for the vector that repeats it.
    pub proof fn lemma_splat(s: S)
        ensures
            Vec4::<S>::resolved(s) == Vec4::<S>::resolved((s, s, s, s)),
    {
        broadcast use Vec4::lemma_from_seq;

        Self::lemma_view_determines(Vec4::<S>::resolved(s), Vec4::<S>::resolved((s, s, s, s)));
    }

    /// Constructions that list the same components in the same order give the
    /// same vector, however the components are grouped into smaller vectors.
    pub proof fn lemma_construction_equivalence(a: S, b: S, c: S, d: S)
        ensures
            ({
                let flat = Self::from_seq(seq![a, b, c, d]);
                &&& Vec4::<S>::resolved((a, b, c, d)) == flat
                &&& Vec4::<S>::resolved((Vec2::<S>::resolved((a, b)), c, d)) == flat
                &&& Vec4::<S>::resolved((a, Vec2::<S>::resolved((b, c)), d)) == flat
                &&& Vec4::<S>::resolved((a, b, Vec2::<S>::resolved((c, d)))) == flat
                &&& Vec4::<S>::resolved((Vec3::<S>::resolved((a, b, c)), d)) == flat
                &&& Vec4::<S>::resolved((a, Vec3::<S>::resolved((b, c, d)))) == flat
                &&& Vec4::<S>::resolved(
                    (Vec2::<S>::resolved((a, b)), Vec2::<S>::resolved((c, d))),
                ) == flat
            }),
    {
        broadcast use Vec2::lemma_from_seq;
        broadcast use Vec3::lemma_from_seq;
        broadcast use Vec4::lemma_from_seq;

        let flat = Self::from_seq(seq![a, b, c, d]);
        Self::lemma_view_determines(Vec4::<S>::resolved((a, b, c, d)), flat);
        Self::lemma_view_determines(Vec4::<S>::resolved((Vec2::<S>::resolved((a, b)), c, d)), flat);
        Self::lemma_view_determines(Vec4::<S>::resolved((a, Vec2::<S>::resolved((b, c)), d)), flat);
        Self::lemma_view_determines(Vec4::<S>::resolved((a, b, Vec2::<S>::resolved((c, d)))), flat);
        Self::lemma_view_determines(Vec4::<S>::resolved((Vec3::<S>::resolved((a, b, c)), d)), flat);
        Self::lemma_view_determines(Vec4::<S>::resolved((a, Vec3::<S>::resolved((b, c, d)))), flat);
        Self::lemma_view_determines(
            Vec4::<S>::resolved((Vec2::<S>::resolved((a, b)), Vec2::<S>::resolved((c, d)))),
            flat,
        );
    }
}

impl<S: Real> vstd::std_specs::ops::AddSpecImpl<Vec4<S>> for Vec4<S> {
    open spec fn obeys_add_spec() -> bool {
        true
    }

    open spec fn add_req(self, rhs: Vec4<S>) -> bool {
        true
    }

    open spec fn add_spec(self, rhs: Vec4<S>) -> Vec4<S> {
        self.plus(rhs)
    }
}

impl<S: Real> Add<Vec4<S>> for Vec4<S> {
    type Output = Vec4<S>;

    fn add(self, rhs: Vec4<S>) -> (r: Vec4<S>) {
        let r = Vec4 {
            e: [
                self.e[0].add(rhs.e[0]),
                self.e[1].add(rhs.e[1]),
                self.e[2].add(rhs.e[2]),
                self.e[3].add(rhs.e[3]),
            ],
        };
        proof {
            broadcast use Vec4::lemma_from_seq;

            Self::lemma_view_determines(r, self.plus(rhs));
        }
        r
    }
}

impl<S: Real> AddAssign<Vec4<S>> for Vec4<S> {
    fn add_assign(&mut self, rhs: Vec4<S>)
        ensures
            *final(self) == old(self).plus(rhs),
    {
        self.e[0] = self.e[0].add(rhs.e[0]);
        self.e[1] = self.e[1].add(rhs.e[1]);
        self.e[2] = self.e[2].add(rhs.e[2]);
        self.e[3] = self.e[3].add(rhs.e[3]);
        proof {
            broadcast use Vec4::lemma_from_seq;

            Self::lemma_view_determines(*self, old(self).plus(rhs));
        }
    }
}

impl<S: Real> vstd::std_specs::ops::AddSpecImpl<S> for Vec4<S> {
    open spec fn obeys_add_spec() -> bool {
        true
    }

    open spec fn add_req(self, rhs: S) -> bool {
        true
    }

    open spec fn add_spec(self, rhs: S) -> Vec4<S> {
        self.plus_scalar(rhs)
    }
}

/// `vector + scalar`: the scalar stands on the right of every component.
impl<S: Real> Add<S> for Vec4<S> {
    type Output = Vec4<S>;

    fn add(self, rhs: S) -> (r: Vec4<S>) {
        let r = Vec4 {
            e: [
                self.e[0].add(rhs),
                self.e[1].add(rhs),
                self.e[2].add(rhs),
                self.e[3].add(rhs),
            ],
        };
        proof {
            broadcast use Vec4::lemma_from_seq;

            Self::lemma_view_determines(r, self.plus_scalar(rhs));
        }
        r
    }
}

impl<S: Real> vstd::std_specs::ops::SubSpecImpl<Vec4<S>> for Vec4<S> {
    open spec fn obeys_sub_spec() -> bool {
        true
    }

    open spec fn sub_req(self, rhs: Vec4<S>) -> bool {
        true
    }

    open spec fn sub_spec(self, rhs: Vec4<S>) -> Vec4<S> {
        self.minus(rhs)
    }
}

impl<S: Real> Sub<Vec4<S>> for Vec4<S> {
    type Output = Vec4<S>;

    fn sub(self, rhs: Vec4<S>) -> (r: Vec4<S>) {
        let r = Vec4 {
            e: [
                self.e[0].sub(rhs.e[0]),
                self.e[1].sub(rhs.e[1]),
                self.e[2].sub(rhs.e[2]),
                self.e[3].sub(rhs.e[3]),
            ],
        };
        proof {
            broadcast use Vec4::lemma_from_seq;

            Self::lemma_view_determines(r, self.minus(rhs));
        }
        r
    }
}

impl<S: Real> SubAssign<Vec4<S>> for Vec4<S> {
    fn sub_assign(&mut self, rhs: Vec4<S>)
        ensures
            *final(self) == old(self).minus(rhs),
    {
        self.e[0] = self.e[0].sub(rhs.e[0]);
        self.e[1] = self.e[1].sub(rhs.e[1]);
        self.e[2] = self.e[2].sub(rhs.e[2]);
        self.e[3] = self.e[3].sub(rhs.e[3]);
        proof {
            broadcast use Vec4::lemma_from_seq;

            Self::lemma_view_determines(*self, old(self).minus(rhs));
        }
    }
}

impl<S: Real> vstd::std_specs::ops::SubSpecImpl<S> for Vec4<S> {
    open spec fn obeys_sub_spec() -> bool {
        true
    }

    open spec fn sub_req(self, rhs: S) -> bool {
        true
    }

    open spec fn sub_spec(self, rhs: S) -> Vec4<S> {
        self.minus_scalar(rhs)
    }
}

/// `vector - scalar`: the scalar stands on the right of every component.
impl<S: Real> Sub<S> for Vec4<S> {
    type Output = Vec4<S>;

    fn sub(self, rhs: S) -> (r: Vec4<S>) {
        let r = Vec4 {
            e: [
                self.e[0].sub(rhs),
                self.e[1].sub(rhs),
                self.e[2].sub(rhs),
                self.e[3].sub(rhs),
            ],
        };
        proof {
            broadcast use Vec4::lemma_from_seq;

            Self::lemma_view_determines(r, self.minus_scalar(rhs));
        }
        r
    }
}

impl<S: Real> vstd::std_specs::ops::MulSpecImpl<Vec4<S>> for Vec4<S> {
    open spec fn obeys_mul_spec() -> bool {
        true
    }

    open spec fn mul_req(self, rhs: Vec4<S>) -> bool {
        true
    }

    open spec fn mul_spec(self, rhs: Vec4<S>) -> Vec4<S> {
        self.times(rhs)
    }
}

impl<S: Real> Mul<Vec4<S>> for Vec4<S> {
    type Output = Vec4<S>;

    fn mul(self, rhs: Vec4<S>) -> (r: Vec4<S>) {
        let r = Vec4 {
            e: [
                self.e[0].mul(rhs.e[0]),
                self.e[1].mul(rhs.e[1]),
                self.e[2].mul(rhs.e[2]),
                self.e[3].mul(rhs.e[3]),
            ],
        };
        proof {
            broadcast use Vec4::lemma_from_seq;

            Self::lemma_view_determines(r, self.times(rhs));
        }
        r
    }
}

impl<S: Real> MulAssign<Vec4<S>> for Vec4<S> {
    fn mul_assign(&mut self, rhs: Vec4<S>)
        ensures
            *final(self) == old(self).times(rhs),
    {
        self.e[0] = self.e[0].mul(rhs.e[0]);
        self.e[1] = self.e[1].mul(rhs.e[1]);
        self.e[2] = self.e[2].mul(rhs.e[2]);
        self.e[3] = self.e[3].mul(rhs.e[3]);
        proof {
            broadcast use Vec4::lemma_from_seq;

            Self::lemma_view_determines(*self, old(self).times(rhs));
        }
    }
}

impl<S: Real> vstd::std_specs::ops::MulSpecImpl<S> for Vec4<S> {
    open spec fn obeys_mul_spec() -> bool {
        true
    }

    open spec fn mul_req(self, rhs: S) -> bool {
        true
    }

    open spec fn mul_spec(self, rhs: S) -> Vec4<S> {
        self.times_scalar(rhs)
    }
}

/// `vector * scalar`: the scalar stands on the right of every component.
impl<S: Real> Mul<S> for Vec4<S> {
    type Output = Vec4<S>;

    fn mul(self, rhs: S) -> (r: Vec4<S>) {
        let r = Vec4 {
            e: [
                self.e[0].mul(rhs),
                self.e[1].mul(rhs),
                self.e[2].mul(rhs),
                self.e[3].mul(rhs),
            ],
        };
        proof {
            broadcast use Vec4::lemma_from_seq;

            Self::lemma_view_determines(r, self.times_scalar(rhs));
        }
        r
    }
}

impl<S: Real> vstd::std_specs::ops::DivSpecImpl<Vec4<S>> for Vec4<S> {
    open spec fn obeys_div_spec() -> bool {
        true
    }

    open spec fn div_req(self, rhs: Vec4<S>) -> bool {
        true
    }

    open spec fn div_spec(self, rhs: Vec4<S>) -> Vec4<S> {
        self.over(rhs)
    }
}

impl<S: Real> Div<Vec4<S>> for Vec4<S> {
    type Output = Vec4<S>;

    fn div(self, rhs: Vec4<S>) -> (r: Vec4<S>) {
        let r = Vec4 {
            e: [
                self.e[0].div(rhs.e[0]),
                self.e[1].div(rhs.e[1]),
                self.e[2].div(rhs.e[2]),
                self.e[3].div(rhs.e[3]),
            ],
        };
        proof {
            broadcast use Vec4::lemma_from_seq;

            Self::lemma_view_determines(r, self.over(rhs));
        }
        r
    }
}

impl<S: Real> DivAssign<Vec4<S>> for Vec4<S> {
    fn div_assign(&mut self, rhs: Vec4<S>)
        ensures
            *final(self) == old(self).over(rhs),
    {
        self.e[0] = self.e[0].div(rhs.e[0]);
        self.e[1] = self.e[1].div(rhs.e[1]);
        self.e[2] = self.e[2].div(rhs.e[2]);
        self.e[3] = self.e[3].div(rhs.e[3]);
        proof {
            broadcast use Vec4::lemma_from_seq;

            Self::lemma_view_determines(*self, old(self).over(rhs));
        }
    }
}

impl<S: Real> vstd::std_specs::ops::DivSpecImpl<S> for Vec4<S> {
    open spec fn obeys_div_spec() -> bool {
        true
    }

    open spec fn div_req(self, rhs: S) -> bool {
        true
    }

    open spec fn div_spec(self, rhs: S) -> Vec4<S> {
        self.over_scalar(rhs)
    }
}

/// `vector / scalar`: the scalar stands on the right of every component.
impl<S: Real> Div<S> for Vec4<S> {
    type Output = Vec4<S>;

    fn div(self, rhs: S) -> (r: Vec4<S>) {
        let r = Vec4 {
            e: [
                self.e[0].div(rhs),
                self.e[1].div(rhs),
                self.e[2].div(rhs),
                self.e[3].div(rhs),
            ],
        };
        proof {
            broadcast use Vec4::lemma_from_seq;

            Self::lemma_view_determines(r, self.over_scalar(rhs));
        }
        r
    }
}

} // verus!
