//! Lengths, products and the reflection and refraction of rays.

#![allow(non_snake_case)]

use vstd::prelude::*;

use crate::scalar::{one, zero, Real};
use crate::vectors::VecN;

verus! {

/// The sum of the first `n` products `a[k] * b[k]`, added one after the other
/// from the first on; zero where there is none.
pub open spec fn partial_dot<S: Real>(a: Seq<S>, b: Seq<S>, n: int) -> S
    decreases n,
{
    if n <= 0 {
        zero::<S>()
    } else if n == 1 {
        a[0].times(b[0])
    } else {
        partial_dot(a, b, n - 1).plus(a[n - 1].times(b[n - 1]))
    }
}

/// The dot product: the sum of the products of the components.
pub open spec fn dot_spec<S: Real>(a: Seq<S>, b: Seq<S>) -> S {
    partial_dot(a, b, a.len() as int)
}

/// The length: the square root of the sum of the squared components.
pub open spec fn length_spec<S: Real>(a: Seq<S>) -> S {
    dot_spec(a, a).root()
}

/// The components of `b - a`.
pub open spec fn delta_spec<S: Real>(a: Seq<S>, b: Seq<S>) -> Seq<S> {
    Seq::new(a.len(), |k: int| b[k].minus(a[k]))
}

/// The distance from `a` to `b`: the length of `b - a`.
pub open spec fn distance_spec<S: Real>(a: Seq<S>, b: Seq<S>) -> S {
    length_spec(delta_spec(a, b))
}

/// The cross product of two vectors of three components.
pub open spec fn cross_spec<S: Real>(a: Seq<S>, b: Seq<S>) -> Seq<S> {
    seq![
        a[1].times(b[2]).minus(a[2].times(b[1])),
        a[2].times(b[0]).minus(a[0].times(b[2])),
        a[0].times(b[1]).minus(a[1].times(b[0])),
    ]
}

/// Every component divided by the length.
pub open spec fn normalize_spec<S: Real>(a: Seq<S>) -> Seq<S> {
    Seq::new(a.len(), |k: int| a[k].over(length_spec(a)))
}

/// Every component negated.
pub open spec fn negated_spec<S: Real>(a: Seq<S>) -> Seq<S> {
    Seq::new(a.len(), |k: int| a[k].negated())
}

/// `n` where it points against `i`, that is where their dot product is below
/// zero, and `-n` in every other case, a dot product of zero included.
pub open spec fn face_forward_spec<S: Real>(n: Seq<S>, i: Seq<S>) -> Seq<S> {
    if dot_spec(n, i).below(zero::<S>()) {
        n
    } else {
        negated_spec(n)
    }
}

/// The factor `2 * dot(n, i)` by which `n` is scaled in a reflection.
pub open spec fn reflect_factor<S: Real>(i: Seq<S>, n: Seq<S>) -> S {
    S::from_int_spec(2).times(dot_spec(n, i))
}

/// `i - 2 * dot(n, i) * n`.
pub open spec fn reflect_spec<S: Real>(i: Seq<S>, n: Seq<S>) -> Seq<S> {
    Seq::new(i.len(), |k: int| i[k].minus(reflect_factor(i, n).times(n[k])))
}

/// `1 - eta^2 * (1 - dot(n, i)^2)`: below zero where the reflection is total.
pub open spec fn refract_k<S: Real>(i: Seq<S>, n: Seq<S>, eta: S) -> S {
    one::<S>().minus(
        eta.times(eta).times(one::<S>().minus(dot_spec(n, i).times(dot_spec(n, i)))),
    )
}

/// The factor `eta * dot(n, i) + sqrt(k)` by which `n` is scaled in a
/// refraction.
pub open spec fn refract_factor<S: Real>(i: Seq<S>, n: Seq<S>, eta: S) -> S {
    eta.times(dot_spec(n, i)).plus(refract_k(i, n, eta).root())
}

/// The zero vector where `k` is below zero, and
/// `eta * i - (eta * dot(n, i) + sqrt(k)) * n` in every other case.
pub open spec fn refract_spec<S: Real>(i: Seq<S>, n: Seq<S>, eta: S) -> Seq<S> {
    if refract_k(i, n, eta).below(zero::<S>()) {
        Seq::new(i.len(), |k: int| zero::<S>())
    } else {
        Seq::new(i.len(), |k: int| eta.times(i[k]).minus(refract_factor(i, n, eta).times(n[k])))
    }
}

/// The dot product of two arrays of components.
fn dot_arrays<S: Real, const N: usize>(a: &[S; N], b: &[S; N]) -> (r: S)
    ensures
        r == dot_spec(a@, b@),
{
    if N == 0 {
        return S::from_i32(0);
    }
    let mut sum = a[0].mul(b[0]);
    let mut k: usize = 1;
    while k < N
        invariant
            1 <= k <= N,
            sum == partial_dot(a@, b@, k as int),
        decreases N - k,
    {
        sum = sum.add(a[k].mul(b[k]));
        k += 1;
    }
    sum
}

/// The length of `x`.
pub fn length<S: Real, const N: usize, V: VecN<S, N>>(x: V) -> (r: S)
    ensures
        r == length_spec(x.inner()@),
{
    let a = x.as_array();
    dot_arrays(&a, &a).sqrt()
}

/// The distance between the points `x` and `y`.
pub fn distance<S: Real, const N: usize, V: VecN<S, N>>(x: V, y: V) -> (r: S)
    ensures
        r == distance_spec(x.inner()@, y.inner()@),
{
    let a = x.as_array();
    let b = y.as_array();
    let mut delta = a;
    let mut k: usize = 0;
    while k < N
        invariant
            k <= N,
            forall|j: int| 0 <= j < k ==> delta@[j] == b@[j].minus(a@[j]),
        decreases N - k,
    {
        delta[k] = b[k].sub(a[k]);
        k += 1;
    }
    assert(delta@ =~= delta_spec(a@, b@));
    length(V::from_array(delta))
}

/// The dot product of `x` and `y`.
pub fn dot<S: Real, const N: usize, V: VecN<S, N>>(x: V, y: V) -> (r: S)
    ensures
        r == dot_spec(x.inner()@, y.inner()@),
{
    let a = x.as_array();
    let b = y.as_array();
    dot_arrays(&a, &b)
}

/// The cross product, which only vectors of three components have.
pub fn cross<S: Real, V: VecN<S, 3>>(x: V, y: V) -> (r: V)
    ensures
        r.inner()@ == cross_spec(x.inner()@, y.inner()@),
{
    let a = x.as_array();
    let b = y.as_array();
    let c = [
        a[1].mul(b[2]).sub(a[2].mul(b[1])),
        a[2].mul(b[0]).sub(a[0].mul(b[2])),
        a[0].mul(b[1]).sub(a[1].mul(b[0])),
    ];
    assert(c@ =~= cross_spec(a@, b@));
    V::from_array(c)
}

/// `x` divided by its length. A vector of length zero is not treated apart:
/// its components are what the division by zero gives.
pub fn normalize<S: Real, const N: usize, V: VecN<S, N>>(x: V) -> (r: V)
    ensures
        r.inner()@ == normalize_spec(x.inner()@),
{
    let a = x.as_array();
    let len = dot_arrays(&a, &a).sqrt();
    let mut out = a;
    let mut k: usize = 0;
    while k < N
        invariant
            k <= N,
            forall|j: int| 0 <= j < k ==> out@[j] == a@[j].over(len),
        decreases N - k,
    {
        out[k] = a[k].div(len);
        k += 1;
    }
    assert(out@ =~= normalize_spec(a@));
    V::from_array(out)
}

/// `n`, turned so that it points against `i`: `n` itself where the dot product
/// of the two is below zero, `-n` where it is zero or above.
pub fn faceForward<S: Real, const N: usize, V: VecN<S, N>>(n: V, i: V) -> (r: V)
    ensures
        r.inner()@ == face_forward_spec(n.inner()@, i.inner()@),
{
    let a = n.as_array();
    let b = i.as_array();
    let d = dot_arrays(&a, &b);
    if d.lt(S::from_i32(0)) {
        V::from_array(a)
    } else {
        let mut out = a;
        let mut k: usize = 0;
        while k < N
            invariant
                k <= N,
                forall|j: int| 0 <= j < k ==> out@[j] == a@[j].negated(),
            decreases N - k,
        {
            out[k] = a[k].neg();
            k += 1;
        }
        assert(out@ =~= negated_spec(a@));
        V::from_array(out)
    }
}

/// The direction of the ray `i` after its reflection at a surface with the
/// normal `n`.
pub fn reflect<S: Real, const N: usize, V: VecN<S, N>>(i: V, n: V) -> (r: V)
    ensures
        r.inner()@ == reflect_spec(i.inner()@, n.inner()@),
{
    let a = i.as_array();
    let b = n.as_array();
    let factor = S::from_i32(2).mul(dot_arrays(&b, &a));
    let mut out = a;
    let mut k: usize = 0;
    while k < N
        invariant
            k <= N,
            forall|j: int| 0 <= j < k ==> out@[j] == a@[j].minus(factor.times(b@[j])),
        decreases N - k,
    {
        out[k] = a[k].sub(factor.mul(b[k]));
        k += 1;
    }
    assert(out@ =~= reflect_spec(a@, b@));
    V::from_array(out)
}

/// The direction of the ray `i` after its refraction at a surface with the
/// normal `n`, for the ratio `eta` of the indices of refraction. Where the
/// reflection is total, the result is the zero vector.
pub fn refract<S: Real, const N: usize, V: VecN<S, N>>(i: V, n: V, eta: S) -> (r: V)
    ensures
        r.inner()@ == refract_spec(i.inner()@, n.inner()@, eta),
{
    let a = i.as_array();
    let b = n.as_array();
    let n_dot_i = dot_arrays(&b, &a);
    let unit = S::from_i32(1);
    let k = unit.sub(eta.mul(eta).mul(unit.sub(n_dot_i.mul(n_dot_i))));
    if k.lt(S::from_i32(0)) {
        let nothing = [S::from_i32(0);N];
        assert(nothing@ =~= refract_spec(a@, b@, eta));
        V::from_array(nothing)
    } else {
        let factor = eta.mul(n_dot_i).add(k.sqrt());
        let mut out = a;
        let mut j: usize = 0;
        while j < N
            invariant
                j <= N,
                forall|m: int|
                    0 <= m < j ==> out@[m] == eta.times(a@[m]).minus(factor.times(b@[m])),
            decreases N - j,
        {
            out[j] = eta.mul(a[j]).sub(factor.mul(b[j]));
            j += 1;
        }
        assert(out@ =~= refract_spec(a@, b@, eta));
        V::from_array(out)
    }
}

} // verus!
