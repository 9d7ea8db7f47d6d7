//! The component type and the integer kinds that narrow to it.

use vstd::prelude::*;

verus! {

/// Marker of the types that take part in this library: the integer kinds,
/// the component types, the vectors and the matrices.
pub trait Seal {

}

/// The arithmetic of the component type that every vector and matrix holds.
///
/// Beside each executable operation stands a spec method that names the value
/// it returns, as a function of the operands alone. An implementation owes
/// exactly that: the same operands give the same result. Nothing is said
/// about what the value is, so no algebraic law (commutativity, a neutral
/// zero) is available to the functions of this crate; their contracts state
/// which operations are applied to which components, and in what order.
pub trait Real: Seal + Copy {
    /// The component that stands for the integer `v`.
    spec fn from_int_spec(v: i128) -> Self;

    /// The sentinel for a result that is not a number.
    spec fn nan_spec() -> Self;

    /// `self + rhs`.
    spec fn plus(self, rhs: Self) -> Self;

    /// `self - rhs`.
    spec fn minus(self, rhs: Self) -> Self;

    /// `self * rhs`.
    spec fn times(self, rhs: Self) -> Self;

    /// `self / rhs`. Division by zero is no fault: it gives a sentinel.
    spec fn over(self, rhs: Self) -> Self;

    /// `-self`.
    spec fn negated(self) -> Self;

    /// The square root of `self`.
    spec fn root(self) -> Self;

    /// `self < rhs`: the strict order of the component type, which holds of
    /// no pair with an operand that is not a number.
    spec fn below(self, rhs: Self) -> bool;

    /// `self == rhs`: the equality of the component type, which need not be
    /// reflexive.
    spec fn same(self, rhs: Self) -> bool;

    fn from_i32(v: i32) -> (r: Self)
        ensures
            r == Self::from_int_spec(v as i128),
    ;

    fn from_i64(v: i64) -> (r: Self)
        ensures
            r == Self::from_int_spec(v as i128),
    ;

    fn from_u32(v: u32) -> (r: Self)
        ensures
            r == Self::from_int_spec(v as i128),
    ;

    fn from_u64(v: u64) -> (r: Self)
        ensures
            r == Self::from_int_spec(v as i128),
    ;

    fn nan() -> (r: Self)
        ensures
            r == Self::nan_spec(),
    ;

    fn add(self, rhs: Self) -> (r: Self)
        ensures
            r == self.plus(rhs),
    ;

    fn sub(self, rhs: Self) -> (r: Self)
        ensures
            r == self.minus(rhs),
    ;

    fn mul(self, rhs: Self) -> (r: Self)
        ensures
            r == self.times(rhs),
    ;

    fn div(self, rhs: Self) -> (r: Self)
        ensures
            r == self.over(rhs),
    ;

    fn neg(self) -> (r: Self)
        ensures
            r == self.negated(),
    ;

    fn sqrt(self) -> (r: Self)
        ensures
            r == self.root(),
    ;

    fn lt(self, rhs: Self) -> (r: bool)
        ensures
            r == self.below(rhs),
    ;

    fn eq(self, rhs: Self) -> (r: bool)
        ensures
            r == self.same(rhs),
    ;
}

/// The zero of the component type.
pub open spec fn zero<S: Real>() -> S {
    S::from_int_spec(0)
}

/// The one of the component type.
pub open spec fn one<S: Real>() -> S {
    S::from_int_spec(1)
}

/// An integer kind that can stand for a component: it is narrowed to the
/// component type before it is used.
pub trait GLScalar: Seal + Copy {
    /// The integer this value holds.
    spec fn value(self) -> i128;

    /// The component that stands for this integer.
    fn as_<S: Real>(self) -> (r: S)
        ensures
            r == S::from_int_spec(self.value()),
    ;
}

impl Seal for i32 {

}

impl GLScalar for i32 {
    open spec fn value(self) -> i128 {
        self as i128
    }

    fn as_<S: Real>(self) -> (r: S) {
        S::from_i32(self)
    }
}

impl Seal for i64 {

}

impl GLScalar for i64 {
    open spec fn value(self) -> i128 {
        self as i128
    }

    fn as_<S: Real>(self) -> (r: S) {
        S::from_i64(self)
    }
}

impl Seal for u32 {

}

impl GLScalar for u32 {
    open spec fn value(self) -> i128 {
        self as i128
    }

    fn as_<S: Real>(self) -> (r: S) {
        S::from_u32(self)
    }
}

impl Seal for u64 {

}

impl GLScalar for u64 {
    open spec fn value(self) -> i128 {
        self as i128
    }

    fn as_<S: Real>(self) -> (r: S) {
        S::from_u64(self)
    }
}

/// A value built from, and determined by, an inner representation `T`.
pub trait Make<T>: Seal + Sized {
    /// The representation this value was made from.
    spec fn inner(self) -> T;

    fn make(inner: T) -> (r: Self)
        ensures
            r.inner() == inner,
    ;

    /// Two values with the same inner representation are the same value.
    proof fn lemma_inner_determines(a: Self, b: Self)
        requires
            a.inner() == b.inner(),
        ensures
            a == b,
    ;
}

} // verus!
