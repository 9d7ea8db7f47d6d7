//! The view transform of a camera.

#![allow(non_snake_case)]

use vstd::prelude::*;

use crate::functions::geometric::{cross, cross_spec, dot, dot_spec, normalize, normalize_spec};
use crate::matrices::Mat4;
use crate::scalar::{one, zero, Real};
use crate::vectors::Vec3;

verus! {

/// The direction from the point looked at back to the eye, at length one.
pub open spec fn forward_spec<S: Real>(eye: Vec3<S>, center: Vec3<S>) -> Seq<S> {
    normalize_spec(eye.minus(center)@)
}

/// The direction to the right of the viewer, at length one.
pub open spec fn right_spec<S: Real>(eye: Vec3<S>, center: Vec3<S>, up: Vec3<S>) -> Seq<S> {
    normalize_spec(cross_spec(up@, forward_spec(eye, center)))
}

/// The components of the view matrix, column after column. Its rows are
/// `right`, `up` and `forward`, each followed by the negated dot product of
/// the eye with that axis; the last row is `(0, 0, 0, 1)`.
pub open spec fn look_at_spec<S: Real>(eye: Vec3<S>, center: Vec3<S>, up: Vec3<S>) -> Seq<S> {
    let forward = forward_spec(eye, center);
    let right = right_spec(eye, center, up);
    seq![
        right[0],
        up@[0],
        forward[0],
        zero::<S>(),
        right[1],
        up@[1],
        forward[1],
        zero::<S>(),
        right[2],
        up@[2],
        forward[2],
        zero::<S>(),
        dot_spec(eye@, right).negated(),
        dot_spec(eye@, up@).negated(),
        dot_spec(eye@, forward).negated(),
        one::<S>(),
    ]
}

/// The view matrix of a camera at `eye` that looks at `center`: it turns world
/// space into camera space and moves the eye to the origin. `up` is taken as
/// it is given, so it has to be at right angles to the viewing direction.
pub fn lookAt<S: Real>(eye: Vec3<S>, center: Vec3<S>, up: Vec3<S>) -> (r: Mat4<S>)
    ensures
        r@ == look_at_spec(eye, center, up),
{
    let forward = normalize(eye - center);
    let right = normalize(cross(up, forward));
    let tx = dot(eye, right).neg();
    let ty = dot(eye, up).neg();
    let tz = dot(eye, forward).neg();
    let o = S::from_i32(0);
    Mat4::from_array(
        [
            right.x(),
            up.x(),
            forward.x(),
            o,
            right.y(),
            up.y(),
            forward.y(),
            o,
            right.z(),
            up.z(),
            forward.z(),
            o,
            tx,
            ty,
            tz,
            S::from_i32(1),
        ],
    )
}

} // verus!
