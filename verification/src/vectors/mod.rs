//! Vectors of two, three and four components.

use vstd::prelude::*;

use crate::scalar::{GLScalar, Make, Real, Seal};

pub mod vec2;
pub mod vec3;
pub mod vec4;

pub use vec2::{Vec2, Vec2Constructor};
pub use vec3::{Vec3, Vec3Constructor};
pub use vec4::{Vec4, Vec4Constructor};

verus! {

/// What may stand as an argument of a two-component constructor.
pub trait Parameter2: Seal {

}

impl<T: GLScalar> Parameter2 for T {

}

/// What may stand as an argument of a three-component constructor.
pub trait Parameter3: Seal {

}

impl<T: Parameter2> Parameter3 for T {

}

/// What may stand as an argument of a four-component constructor.
pub trait Parameter4: Seal {

}

impl<T: Parameter3> Parameter4 for T {

}

/// A vector of exactly `N` components, convertible to and from the ordered
/// array of its components.
pub trait VecN<S: Real, const N: usize>: Make<[S; N]> + Copy {
    fn as_array(self) -> (r: [S; N])
        ensures
            r@ == self.inner()@,
    ;

    fn from_array(array: [S; N]) -> (r: Self)
        ensures
            r.inner()@ == array@,
    ;

    fn as_slice(&self) -> (r: &[S; N])
        ensures
            r@ == self.inner()@,
    ;

    fn as_slice_mut(&mut self) -> (r: &mut [S; N])
        ensures
            r@ == old(self).inner()@,
            final(self).inner()@ == final(r)@,
    ;

    fn from_slice(slice: &[S; N]) -> (r: Self)
        ensures
            r.inner()@ == slice@,
    ;
}

} // verus!
