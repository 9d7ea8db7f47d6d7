use gl_types::functions::{
    cross, distance, dot, faceForward, inverse, length, lookAt, matrixCompMult, normalize,
    outerProduct, reflect, refract, transpose,
};
use gl_types::matrices::{
    mul1, mul2, mul3, Mat, Mat2, Mat2Constructor, Mat3, Mat3Constructor, Mat4, Mat4Constructor,
    MatN,
};
use gl_types::scalar::{GLScalar, Make, Real, Seal};
use gl_types::vectors::{
    Vec2, Vec2Constructor, Vec3, Vec3Constructor, Vec4, Vec4Constructor, VecN,
};
use rand::Rng;

/// The component type of these tests: a 32-bit float.
#[derive(Clone, Copy, Debug, PartialEq, PartialOrd)]
struct R(f32);

impl Seal for R {}

impl Real for R {
    fn from_int_spec(v: i128) -> Self {
        R(v as f32)
    }

    fn nan_spec() -> Self {
        R(f32::NAN)
    }

    fn plus(self, rhs: Self) -> Self {
        R(self.0 + rhs.0)
    }

    fn minus(self, rhs: Self) -> Self {
        R(self.0 - rhs.0)
    }

    fn times(self, rhs: Self) -> Self {
        R(self.0 * rhs.0)
    }

    fn over(self, rhs: Self) -> Self {
        R(self.0 / rhs.0)
    }

    fn negated(self) -> Self {
        R(-self.0)
    }

    fn root(self) -> Self {
        R(self.0.sqrt())
    }

    fn below(self, rhs: Self) -> bool {
        self.0 < rhs.0
    }

    fn same(self, rhs: Self) -> bool {
        self.0 == rhs.0
    }

    fn from_i32(v: i32) -> Self {
        R(v as f32)
    }

    fn from_i64(v: i64) -> Self {
        R(v as f32)
    }

    fn from_u32(v: u32) -> Self {
        R(v as f32)
    }

    fn from_u64(v: u64) -> Self {
        R(v as f32)
    }

    fn nan() -> Self {
        R(f32::NAN)
    }

    fn add(self, rhs: Self) -> Self {
        R(self.0 + rhs.0)
    }

    fn sub(self, rhs: Self) -> Self {
        R(self.0 - rhs.0)
    }

    fn mul(self, rhs: Self) -> Self {
        R(self.0 * rhs.0)
    }

    fn div(self, rhs: Self) -> Self {
        R(self.0 / rhs.0)
    }

    fn neg(self) -> Self {
        R(-self.0)
    }

    fn sqrt(self) -> Self {
        R(self.0.sqrt())
    }

    fn lt(self, rhs: Self) -> bool {
        self.0 < rhs.0
    }

    fn eq(self, rhs: Self) -> bool {
        self.0 == rhs.0
    }
}

fn v2(x: f32, y: f32) -> Vec2<R> {
    Vec2::_new(R(x), R(y))
}

fn v3(x: f32, y: f32, z: f32) -> Vec3<R> {
    Vec3::_new(R(x), R(y), R(z))
}

fn v4(x: f32, y: f32, z: f32, w: f32) -> Vec4<R> {
    Vec4::_new(R(x), R(y), R(z), R(w))
}

fn reals<const N: usize>(a: [f32; N]) -> [R; N] {
    a.map(R)
}

fn floats<const N: usize>(a: [R; N]) -> [f32; N] {
    a.map(|r| r.0)
}

/// The matrix whose components, column after column, are 1 to 16.
fn counting() -> Mat4<R> {
    let mut a = [0f32; 16];
    for i in 0..16 {
        a[i] = (i + 1) as f32;
    }
    Mat4::from_array(reals(a))
}

fn random_matrix(rng: &mut rand::rngs::ThreadRng) -> Mat4<R> {
    let mut a = [0f32; 16];
    for i in 0..16 {
        a[i] = rng.gen_range(-10.0..10.0);
    }
    Mat4::from_array(reals(a))
}

/// What a dense solver finds for `m`: its inverse, where it has one.
fn solve(m: &Mat4<R>) -> Option<Mat4<R>> {
    let found = nalgebra::Matrix4::<f32>::from_column_slice(&floats(m.to_array())).try_inverse()?;
    let mut a = [0f32; 16];
    a.copy_from_slice(found.as_slice());
    Some(Mat4::from_array(reals(a)))
}

#[test]
fn vector_round_trip() {
    let a = reals([1.5, -2.25]);
    assert_eq!(Vec2::from_array(a).as_array(), a);
    assert_eq!(Vec2::from_slice(&a).as_array(), a);
    let a = reals([1.5, -2.25, 0.0]);
    assert_eq!(Vec3::from_array(a).as_array(), a);
    let a = reals([1.5, -2.25, 0.0, 1e30]);
    assert_eq!(Vec4::from_array(a).as_array(), a);
    let v = v4(4.0, 3.0, 2.0, 1.0);
    assert_eq!(Vec4::from_array(v.as_array()), v);
    assert_eq!(v.as_array(), reals([4.0, 3.0, 2.0, 1.0]));
}

#[test]
fn components_keep_their_order() {
    let v = v4(1.0, 2.0, 3.0, 4.0);
    assert_eq!((v.x(), v.y(), v.z(), v.w()), (R(1.0), R(2.0), R(3.0), R(4.0)));
    let v = v3(1.0, 2.0, 3.0);
    assert_eq!((v.x(), v.y(), v.z()), (R(1.0), R(2.0), R(3.0)));
    let v = v2(1.0, 2.0);
    assert_eq!((v.x(), v.y()), (R(1.0), R(2.0)));
}

#[test]
fn slice_writes_reach_the_vector() {
    let mut v = v3(1.0, 2.0, 3.0);
    v.as_slice_mut()[1] = R(7.0);
    assert_eq!(v, v3(1.0, 7.0, 3.0));
    assert_eq!(v.as_slice(), &reals([1.0, 7.0, 3.0]));
}

#[test]
fn make_keeps_the_components() {
    let v = <Vec3<R> as Make<[R; 3]>>::make(reals([1.0, 2.0, 3.0]));
    assert_eq!(v, v3(1.0, 2.0, 3.0));
    let m = <Mat4<R> as Make<[[R; 4]; 4]>>::make([reals([1.0, 2.0, 3.0, 4.0]); 4]);
    assert_eq!(m.index(2), &reals([1.0, 2.0, 3.0, 4.0]));
}

#[test]
fn matrix_round_trip() {
    let mut a = [0f32; 16];
    for i in 0..16 {
        a[i] = i as f32 * 0.5 - 3.0;
    }
    let a = reals(a);
    let m = Mat4::from_array(a);
    assert_eq!(m.to_array(), a);
    assert_eq!(Mat4::from_array(m.to_array()), m);
    let cols = m.as_array();
    assert_eq!(<Mat4<R> as MatN<R, 4>>::from_array(cols), m);
    assert_eq!(<Mat4<R> as MatN<R, 4>>::from_slice(m.as_slice()), m);
}

#[test]
fn matrix_is_column_major() {
    let m = counting();
    for col in 0..4 {
        for row in 0..4 {
            assert_eq!(m.index(col)[row], R((col * 4 + row + 1) as f32));
        }
    }
    assert_eq!(m.as_array()[1], reals([5.0, 6.0, 7.0, 8.0]));
}

#[test]
fn index_mut_writes_one_component() {
    let mut m = counting();
    m.index_mut(2)[1] = R(-1.0);
    let mut expected = counting().to_array();
    expected[9] = R(-1.0);
    assert_eq!(m.to_array(), expected);
    m.as_slice_mut()[0][3] = R(-2.0);
    expected[3] = R(-2.0);
    assert_eq!(m.to_array(), expected);
}

#[test]
fn transpose_twice_is_identity() {
    let mut rng = rand::thread_rng();
    for _ in 0..1000 {
        let m = random_matrix(&mut rng);
        assert_eq!(m.transpose().transpose(), m);
        assert_eq!(m.transposed().transposed(), m);
        assert_eq!(m.transpose(), m.transposed());
        let once: Mat4<R> = transpose(&m);
        assert_eq!(once, m.transposed());
        let twice: Mat4<R> = transpose(&once);
        assert_eq!(twice, m);
    }
}

#[test]
fn transpose_swaps_rows_and_columns() {
    let t = counting().transpose();
    assert_eq!(
        t.to_array(),
        reals([
            1.0, 5.0, 9.0, 13.0, 2.0, 6.0, 10.0, 14.0, 3.0, 7.0, 11.0, 15.0, 4.0, 8.0, 12.0, 16.0
        ])
    );
}

#[test]
fn splat_construction() {
    let five: R = 5.as_();
    assert_eq!(Vec3::new(five), v3(5.0, 5.0, 5.0));
    assert_eq!(Vec2::new(five), v2(5.0, 5.0));
    assert_eq!(Vec4::new(five), v4(5.0, 5.0, 5.0, 5.0));
}

#[test]
fn nested_construction_is_flat() {
    let (a, b, c, d) = (R(1.5), R(-2.0), R(3.25), R(4.0));
    let flat = Vec4::new((a, b, c, d));
    assert_eq!(flat, v4(1.5, -2.0, 3.25, 4.0));
    assert_eq!(Vec4::new((Vec2::new((a, b)), c, d)), flat);
    assert_eq!(Vec4::new((a, Vec2::new((b, c)), d)), flat);
    assert_eq!(Vec4::new((a, b, Vec2::new((c, d)))), flat);
    assert_eq!(Vec4::new((Vec3::new((a, b, c)), d)), flat);
    assert_eq!(Vec4::new((a, Vec3::new((b, c, d)))), flat);
    assert_eq!(Vec4::new((Vec2::new((a, b)), Vec2::new((c, d)))), flat);
    assert_eq!(Vec3::new((Vec2::new((a, b)), c)), v3(1.5, -2.0, 3.25));
    assert_eq!(Vec3::new((a, Vec2::new((b, c)))), v3(1.5, -2.0, 3.25));
}

#[test]
fn cutting_and_filling_constructions() {
    let v = v4(1.0, 2.0, 3.0, 4.0);
    assert_eq!(Vec2::new(v), v2(1.0, 2.0));
    assert_eq!(Vec3::new(v), v3(1.0, 2.0, 3.0));
    assert_eq!(Vec2::new(v3(1.0, 2.0, 3.0)), v2(1.0, 2.0));
    assert_eq!(Vec3::new(v2(1.0, 2.0)), v3(1.0, 2.0, 0.0));
    assert_eq!(Vec4::new(v2(1.0, 2.0)), v4(1.0, 2.0, 0.0, 0.0));
    assert_eq!(Vec4::new(v3(1.0, 2.0, 3.0)), v4(1.0, 2.0, 3.0, 0.0));
}

#[test]
fn integer_kinds_narrow_to_components() {
    let a: R = (-3i32).as_();
    let b: R = 3u32.as_();
    let c: R = (-(1i64 << 40)).as_();
    let d: R = (1u64 << 40).as_();
    assert_eq!(a, R(-3.0));
    assert_eq!(b, R(3.0));
    assert_eq!(c, R(-1099511627776.0));
    assert_eq!(d, R(1099511627776.0));
    let rounded: R = 16777217i32.as_();
    assert_eq!(rounded, R(16777216.0));
}

#[test]
fn matrix_from_one_scalar_is_diagonal() {
    let m: Mat4<R> = Mat4::new(R(2.5));
    for col in 0..4 {
        for row in 0..4 {
            let expected = if col == row { 2.5 } else { 0.0 };
            assert_eq!(m.index(col)[row], R(expected));
        }
    }
    let splat = Vec4::new(R(2.5));
    assert_ne!(m.index(0), &splat.as_array());
}

#[test]
fn matrix_from_columns_keeps_their_order() {
    let m = Mat4::new((
        v4(1.0, 2.0, 3.0, 4.0),
        v4(5.0, 6.0, 7.0, 8.0),
        v4(9.0, 10.0, 11.0, 12.0),
        v4(13.0, 14.0, 15.0, 16.0),
    ));
    assert_eq!(m, counting());
}

#[test]
fn vector_and_scalar() {
    let v = v3(1.0, 2.0, 4.0);
    let s = R(2.0);
    assert_eq!(v + s, v3(3.0, 4.0, 6.0));
    assert_eq!(v - s, v3(-1.0, 0.0, 2.0));
    assert_eq!(v * s, v3(2.0, 4.0, 8.0));
    assert_eq!(v / s, v3(0.5, 1.0, 2.0));
    assert_eq!(v.radd(s), v3(3.0, 4.0, 6.0));
    assert_eq!(v.rsub(s), v3(1.0, 0.0, -2.0));
    assert_eq!(v.rmul(s), v3(2.0, 4.0, 8.0));
    assert_eq!(v.rdiv(s), v3(2.0, 1.0, 0.5));
    let v = v2(1.0, 2.0);
    assert_eq!(v - s, v2(-1.0, 0.0));
    assert_eq!(v.rsub(s), v2(1.0, 0.0));
    assert_eq!(v.rdiv(s), v2(2.0, 1.0));
    let v = v4(1.0, 2.0, 4.0, 8.0);
    assert_eq!(v / s, v4(0.5, 1.0, 2.0, 4.0));
    assert_eq!(v.rsub(s), v4(1.0, 0.0, -2.0, -6.0));
    assert_eq!(v.rdiv(s), v4(2.0, 1.0, 0.5, 0.25));
}

#[test]
fn vector_and_vector() {
    let a = v4(1.0, 2.0, 3.0, 4.0);
    let b = v4(8.0, 4.0, 2.0, 1.0);
    assert_eq!(a + b, v4(9.0, 6.0, 5.0, 5.0));
    assert_eq!(a - b, v4(-7.0, -2.0, 1.0, 3.0));
    assert_eq!(a * b, v4(8.0, 8.0, 6.0, 4.0));
    assert_eq!(a / b, v4(0.125, 0.5, 1.5, 4.0));
    let mut c = a;
    c -= b;
    assert_eq!(c, v4(-7.0, -2.0, 1.0, 3.0));
    c /= b;
    assert_eq!(c, v4(-0.875, -0.5, 0.5, 3.0));
}

#[test]
fn division_by_zero_gives_a_sentinel() {
    let q = v3(1.0, -1.0, 0.0) / v3(0.0, 0.0, 0.0);
    assert_eq!(q.x(), R(f32::INFINITY));
    assert_eq!(q.y(), R(f32::NEG_INFINITY));
    assert!(q.z().0.is_nan());
    let q = v2(1.0, 0.0) / R(0.0);
    assert_eq!(q.x(), R(f32::INFINITY));
    assert!(q.y().0.is_nan());
}

#[test]
fn equality_and_order() {
    let a = v3(1.0, 2.0, 3.0);
    assert!(a.equals(&v3(1.0, 2.0, 3.0)));
    assert!(!a.equals(&v3(1.0, 2.0, 3.5)));
    assert!(v3(0.0, 2.0, 3.0).equals(&v3(-0.0, 2.0, 3.0)));
    let nan = v3(1.0, f32::NAN, 3.0);
    assert!(!nan.equals(&nan));

    assert!(a.less(&v3(1.0, 2.0, 3.5)));
    assert!(a.less(&v3(1.0, 2.5, 0.0)));
    assert!(a.less(&v3(2.0, 0.0, 0.0)));
    assert!(!a.less(&a));
    assert!(!a.less(&v3(1.0, 1.0, 9.0)));
    assert!(!nan.less(&v3(1.0, 5.0, 9.0)));
    assert!(!a.less(&nan));
    assert!(v3(0.0, f32::NAN, 0.0).less(&v3(1.0, 0.0, 0.0)));
    assert_eq!(a.less(&v3(1.0, 2.5, 0.0)), a < v3(1.0, 2.5, 0.0));
    assert_eq!(nan.less(&a), nan < a);

    assert!(v2(1.0, 2.0).less(&v2(1.0, 3.0)));
    assert!(!v2(1.0, 3.0).less(&v2(1.0, 3.0)));
    assert!(v4(1.0, 2.0, 3.0, 4.0).less(&v4(1.0, 2.0, 3.0, 5.0)));
    assert!(v4(1.0, 2.0, 3.0, 4.0).equals(&v4(1.0, 2.0, 3.0, 4.0)));
    assert!(!v2(1.0, 2.0).equals(&v2(2.0, 1.0)));

    let m = counting();
    assert!(m.equals(&counting()));
    let mut other = counting();
    other.index_mut(3)[3] = R(0.0);
    assert!(!m.equals(&other));
}

#[test]
fn matrix_component_arithmetic() {
    let a = counting();
    let b: Mat4<R> = Mat4::new(R(2.0)) + R(1.0);
    let sum = a + b;
    let difference = a - b;
    let quotient = a / b;
    let product = a.component_mul(b);
    let by_function: Mat4<R> = matrixCompMult(&a, &b);
    for col in 0..4 {
        for row in 0..4 {
            let x = (col * 4 + row + 1) as f32;
            let y = if col == row { 3.0 } else { 1.0 };
            assert_eq!(sum.index(col)[row], R(x + y));
            assert_eq!(difference.index(col)[row], R(x - y));
            assert_eq!(quotient.index(col)[row], R(x / y));
            assert_eq!(product.index(col)[row], R(x * y));
        }
    }
    assert_eq!(by_function, product);

    let mut c = a;
    c += b;
    assert_eq!(c, sum);
    c -= b;
    c -= b;
    assert_eq!(c, difference);
    let mut c = a;
    c /= b;
    assert_eq!(c, quotient);

    assert_eq!((a * R(2.0)).index(1), &reals([10.0, 12.0, 14.0, 16.0]));
    assert_eq!((a - R(1.0)).index(0), &reals([0.0, 1.0, 2.0, 3.0]));
    assert_eq!((a / R(2.0)).index(0), &reals([0.5, 1.0, 1.5, 2.0]));
    assert_eq!(a.radd(R(1.0)).index(0), &reals([2.0, 3.0, 4.0, 5.0]));
    assert_eq!(a.rsub(R(1.0)).index(0), &reals([0.0, -1.0, -2.0, -3.0]));
    assert_eq!(a.rmul(R(2.0)).index(0), &reals([2.0, 4.0, 6.0, 8.0]));
    assert_eq!(a.rdiv(R(8.0)).index(0), &reals([8.0, 4.0, 8.0 / 3.0, 2.0]));
}

#[test]
fn matrix_product_of_known_matrices() {
    let a = counting();
    let identity: Mat4<R> = Mat4::new(R(1.0));
    assert_eq!(mul1(a, identity), a);
    assert_eq!(mul1(identity, a), a);

    let b = a.transposed();
    // Row r of `a` is (r + 1, r + 5, r + 9, r + 13); column c of `b` is row c of `a`.
    let c = mul1(a, b);
    for col in 0..4 {
        for row in 0..4 {
            let mut expected = 0.0;
            for i in 0..4 {
                expected += ((i * 4 + row + 1) * (i * 4 + col + 1)) as f32;
            }
            assert_eq!(c.index(col)[row], R(expected));
        }
    }
    assert_eq!(c.index(0)[0], R(276.0));
    assert_eq!(c.index(1)[0], R(304.0));
    assert_eq!(c.index(3)[3], R(480.0));
    assert_eq!(a * b, c);
    assert_eq!(mul2(a, b), c);
    assert_eq!(mul3(a, b), c);
    assert_ne!(mul1(a, b), a.component_mul(b));
}

#[test]
fn multiply_variants_agree() {
    let mut rng = rand::thread_rng();
    for _ in 0..1000 {
        let a = random_matrix(&mut rng);
        let b = random_matrix(&mut rng);
        let c1 = mul1(a, b).to_array();
        let c2 = mul2(a, b).to_array();
        let c3 = mul3(a, b).to_array();
        let c4 = (a * b).to_array();
        for i in 0..16 {
            assert_eq!(c1[i].0.to_bits(), c2[i].0.to_bits());
            assert_eq!(c1[i].0.to_bits(), c3[i].0.to_bits());
            assert_eq!(c1[i].0.to_bits(), c4[i].0.to_bits());
        }
    }
}

#[test]
fn multiply_variants_agree_on_signed_zeros() {
    let a = Mat4::from_array(reals([-0.0; 16]));
    let b = Mat4::from_array(reals([0.0; 16]));
    let c1 = mul1(a, b).to_array();
    let c2 = mul2(a, b).to_array();
    let c3 = mul3(a, b).to_array();
    for i in 0..16 {
        assert_eq!(c1[i].0.to_bits(), (-0.0f32).to_bits());
        assert_eq!(c2[i].0.to_bits(), c1[i].0.to_bits());
        assert_eq!(c3[i].0.to_bits(), c1[i].0.to_bits());
    }
}

#[test]
fn dot_length_and_distance() {
    assert_eq!(dot(v3(1.0, 2.0, 3.0), v3(4.0, 5.0, 6.0)), R(32.0));
    assert_eq!(dot(v2(1.0, 2.0), v2(3.0, 4.0)), R(11.0));
    assert_eq!(dot(v4(1.0, 2.0, 3.0, 4.0), v4(4.0, 3.0, 2.0, 1.0)), R(20.0));
    assert_eq!(length(v2(3.0, 4.0)), R(5.0));
    assert_eq!(length(v3(2.0, 3.0, 6.0)), R(7.0));
    assert_eq!(length(v4(1.0, 1.0, 1.0, 1.0)), R(2.0));
    assert_eq!(distance(v2(1.0, 1.0), v2(4.0, 5.0)), R(5.0));
    assert_eq!(distance(v3(1.0, 2.0, 3.0), v3(1.0, 2.0, 3.0)), R(0.0));
}

#[test]
fn cross_of_the_axes() {
    let x = v3(1.0, 0.0, 0.0);
    let y = v3(0.0, 1.0, 0.0);
    let z = v3(0.0, 0.0, 1.0);
    assert_eq!(cross(x, y), z);
    assert_eq!(cross(y, z), x);
    assert_eq!(cross(z, x), y);
    assert_eq!(cross(y, x), v3(0.0, 0.0, -1.0));
    assert_eq!(cross(v3(1.0, 2.0, 3.0), v3(4.0, 5.0, 6.0)), v3(-3.0, 6.0, -3.0));
}

#[test]
fn normalize_divides_by_the_length() {
    assert_eq!(normalize(v2(3.0, 4.0)), v2(3.0 / 5.0, 4.0 / 5.0));
    assert_eq!(normalize(v3(0.0, 0.0, 5.0)), v3(0.0, 0.0, 1.0));
    let n = normalize(v3(0.0, 0.0, 0.0));
    assert!(n.x().0.is_nan() && n.y().0.is_nan() && n.z().0.is_nan());
    let n = normalize(v2(f32::MAX, f32::MAX));
    assert_eq!(n, v2(0.0, 0.0));
}

#[test]
fn face_forward_picks_the_side() {
    let n = v3(0.0, 1.0, 0.0);
    assert_eq!(faceForward(n, v3(0.0, -1.0, 0.0)), n);
    assert_eq!(faceForward(n, v3(0.0, 1.0, 0.0)), v3(0.0, -1.0, 0.0));
    let tie = faceForward(n, v3(1.0, 0.0, 0.0));
    assert_eq!(tie, v3(0.0, -1.0, 0.0));
    assert!(tie.x().0.is_sign_negative());
    let n = v2(3.0, -4.0);
    assert_eq!(faceForward(n, v2(1.0, 1.0)), n);
    assert_eq!(faceForward(n, v2(1.0, -1.0)), v2(-3.0, 4.0));
}

#[test]
fn reflect_mirrors_at_the_plane() {
    assert_eq!(reflect(v3(1.0, -1.0, 0.0), v3(0.0, 1.0, 0.0)), v3(1.0, 1.0, 0.0));
    assert_eq!(reflect(v2(3.0, 4.0), v2(1.0, 0.0)), v2(-3.0, 4.0));
    assert_eq!(reflect(v3(1.0, 2.0, 3.0), v3(0.0, 0.0, 2.0)), v3(1.0, 2.0, -21.0));
}

#[test]
fn reflection_identity() {
    let mut rng = rand::thread_rng();
    for _ in 0..1000 {
        let n = normalize(v3(
            rng.gen_range(-1.0..1.0),
            rng.gen_range(-1.0..1.0),
            rng.gen_range(0.5..1.0),
        ));
        let i = v3(rng.gen_range(-1.0..1.0), rng.gen_range(-1.0..1.0), rng.gen_range(-1.0..1.0));
        let mirrored = dot(reflect(i, n), n).0;
        let incoming = dot(i, n).0;
        assert!((mirrored + incoming).abs() < 1e-5);
    }
}

#[test]
fn refract_total_internal_reflection() {
    let i = v3(0.8, -0.6, 0.0);
    let n = v3(0.0, 1.0, 0.0);
    let r = refract(i, n, R(1.5));
    assert_eq!(floats(r.as_array()).map(f32::to_bits), [0, 0, 0]);
    let r = refract(v2(0.8, -0.6), v2(0.0, 1.0), R(1.5));
    assert_eq!(floats(r.as_array()).map(f32::to_bits), [0, 0]);
    let r = refract(v4(0.8, -0.6, 0.0, 0.0), v4(0.0, 1.0, 0.0, 0.0), R(-1.5));
    assert_eq!(floats(r.as_array()).map(f32::to_bits), [0, 0, 0, 0]);
}

#[test]
fn refract_bends_the_ray() {
    let n = v3(0.0, 1.0, 0.0);
    assert_eq!(refract(v3(0.0, -1.0, 0.0), n, R(1.0)), v3(0.0, -1.0, 0.0));
    // k = 1 - 0.25 * (1 - 0.36) = 0.84
    let r = refract(v3(0.8, -0.6, 0.0), n, R(0.5));
    let k = 1.0f32 - 0.5 * 0.5 * (1.0 - (-0.6f32) * (-0.6));
    let factor = 0.5 * -0.6f32 + k.sqrt();
    assert_eq!(r, v3(0.5 * 0.8 - factor * 0.0, 0.5 * -0.6 - factor * 1.0, 0.0));
    assert!((r.y().0 + 0.84f32.sqrt()).abs() < 1e-6);
    // k is exactly zero: the ray is still refracted.
    let r = refract(v3(1.0, 0.0, 0.0), n, R(1.0));
    assert_eq!(r, v3(1.0, 0.0, 0.0));
}

#[test]
fn outer_product_of_two_vectors() {
    let m: Mat4<R> = outerProduct(&v4(1.0, 2.0, 3.0, 4.0), &v4(5.0, 6.0, 7.0, 8.0));
    for col in 0..4 {
        for row in 0..4 {
            assert_eq!(m.index(col)[row], R(((row + 1) * (col + 5)) as f32));
        }
    }
    assert_eq!(m.index(1), &reals([6.0, 12.0, 18.0, 24.0]));
}

#[test]
fn inverse_of_a_singular_matrix_is_not_a_number() {
    let singular = counting();
    assert!(solve(&singular).is_none());
    let r: Mat4<R> = inverse(solve(&singular));
    for c in r.to_array() {
        assert!(c.0.is_nan());
    }
    let direct: Mat4<R> = inverse(None);
    for c in direct.to_array() {
        assert!(c.0.is_nan());
    }
}

#[test]
fn inverse_of_a_regular_matrix_is_what_was_found() {
    let m: Mat4<R> = Mat4::new(R(2.0));
    let found = solve(&m);
    assert!(found.is_some());
    let r = inverse(found);
    assert_eq!(r, Mat4::new(R(0.5)));
    assert_eq!(mul1(m, r), Mat4::new(R(1.0)));
    assert_eq!(inverse(Some(m)), m);
}

#[test]
fn look_at_along_the_z_axis() {
    let eye = v3(0.0, 0.0, 5.0);
    let m = lookAt(eye, v3(0.0, 0.0, 0.0), v3(0.0, 1.0, 0.0));
    assert_eq!(m.index(0), &reals([1.0, 0.0, 0.0, 0.0]));
    assert_eq!(m.index(1), &reals([0.0, 1.0, 0.0, 0.0]));
    assert_eq!(m.index(2), &reals([0.0, 0.0, 1.0, 0.0]));
    assert_eq!(m.index(3), &reals([0.0, 0.0, -5.0, 1.0]));

    // The eye itself is moved to the origin.
    let zeros = v4(0.0, 0.0, 0.0, 0.0);
    let moved = mul1(m, Mat4::new((Vec4::new((eye, R(1.0))), zeros, zeros, zeros)));
    assert_eq!(moved.index(0), &reals([0.0, 0.0, 0.0, 1.0]));
}

#[test]
fn look_at_from_the_side() {
    let eye = v3(3.0, 0.0, 0.0);
    let m = lookAt(eye, v3(1.0, 0.0, 0.0), v3(0.0, 1.0, 0.0));
    // forward = (1, 0, 0), right = up x forward = (0, 0, -1)
    assert_eq!(m.index(0), &reals([0.0, 0.0, 1.0, 0.0]));
    assert_eq!(m.index(1), &reals([0.0, 1.0, 0.0, 0.0]));
    assert_eq!(m.index(2), &reals([-1.0, 0.0, 0.0, 0.0]));
    assert_eq!(m.index(3), &reals([0.0, 0.0, -3.0, 1.0]));
}

fn counting3() -> Mat3<R> {
    Mat3::from_array(reals([1.0, 2.0, 3.0, 4.0, 5.0, 6.0, 7.0, 8.0, 9.0]))
}

#[test]
fn smaller_matrices_round_trip() {
    let a = reals([1.0, 2.0, 3.0, 4.0]);
    let m = Mat2::from_array(a);
    assert_eq!(m.to_array(), a);
    assert_eq!(Mat2::from_array(m.to_array()), m);
    assert_eq!(m.index(1), &reals([3.0, 4.0]));
    assert_eq!(m.as_array(), [reals([1.0, 2.0]), reals([3.0, 4.0])]);

    let m = counting3();
    assert_eq!(m.to_array(), reals([1.0, 2.0, 3.0, 4.0, 5.0, 6.0, 7.0, 8.0, 9.0]));
    assert_eq!(Mat3::from_array(m.to_array()), m);
    assert_eq!(m.index(2), &reals([7.0, 8.0, 9.0]));
    let mut w = m;
    w.index_mut(0)[2] = R(0.0);
    assert_eq!(w.to_array(), reals([1.0, 2.0, 0.0, 4.0, 5.0, 6.0, 7.0, 8.0, 9.0]));
}

#[test]
fn smaller_matrices_transpose() {
    let m = Mat2::from_array(reals([1.0, 2.0, 3.0, 4.0]));
    assert_eq!(m.transpose().to_array(), reals([1.0, 3.0, 2.0, 4.0]));
    assert_eq!(m.transposed(), m.transpose());
    assert_eq!(m.transpose().transpose(), m);
    let by_function: Mat2<R> = transpose(&m);
    assert_eq!(by_function, m.transposed());

    let m = counting3();
    assert_eq!(
        m.transpose().to_array(),
        reals([1.0, 4.0, 7.0, 2.0, 5.0, 8.0, 3.0, 6.0, 9.0])
    );
    assert_eq!(m.transposed(), m.transpose());
    assert_eq!(m.transposed().transposed(), m);
    let by_function: Mat3<R> = transpose(&m);
    assert_eq!(by_function, m.transposed());
}

#[test]
fn smaller_matrices_construction() {
    let m: Mat2<R> = Mat2::new(R(3.0));
    assert_eq!(m.to_array(), reals([3.0, 0.0, 0.0, 3.0]));
    let m = Mat2::new((v2(1.0, 2.0), v2(3.0, 4.0)));
    assert_eq!(m.to_array(), reals([1.0, 2.0, 3.0, 4.0]));

    let m: Mat3<R> = Mat3::new(R(3.0));
    assert_eq!(m.to_array(), reals([3.0, 0.0, 0.0, 0.0, 3.0, 0.0, 0.0, 0.0, 3.0]));
    let m = Mat3::new((v3(1.0, 2.0, 3.0), v3(4.0, 5.0, 6.0), v3(7.0, 8.0, 9.0)));
    assert_eq!(m, counting3());
}

#[test]
fn smaller_matrices_product() {
    let a = Mat2::from_array(reals([1.0, 2.0, 3.0, 4.0]));
    assert_eq!((a * a).to_array(), reals([7.0, 10.0, 15.0, 22.0]));
    assert_eq!(a * Mat2::new(R(1.0)), a);
    assert_eq!(a.component_mul(a).to_array(), reals([1.0, 4.0, 9.0, 16.0]));
    let b = Mat2::from_array(reals([0.0, 1.0, 1.0, 0.0]));
    assert_eq!((a * b).to_array(), reals([3.0, 4.0, 1.0, 2.0]));
    assert_eq!((b * a).to_array(), reals([2.0, 1.0, 4.0, 3.0]));

    let a = counting3();
    assert_eq!(
        (a * a).to_array(),
        reals([30.0, 36.0, 42.0, 66.0, 81.0, 96.0, 102.0, 126.0, 150.0])
    );
    assert_eq!(Mat3::new(R(1.0)) * a, a);
}

#[test]
fn smaller_matrices_arithmetic() {
    let a = Mat2::from_array(reals([1.0, 2.0, 3.0, 4.0]));
    let b = Mat2::from_array(reals([4.0, 2.0, 1.0, 0.5]));
    assert_eq!((a + b).to_array(), reals([5.0, 4.0, 4.0, 4.5]));
    assert_eq!((a - b).to_array(), reals([-3.0, 0.0, 2.0, 3.5]));
    assert_eq!((a / b).to_array(), reals([0.25, 1.0, 3.0, 8.0]));
    assert_eq!((a * R(2.0)).to_array(), reals([2.0, 4.0, 6.0, 8.0]));
    assert_eq!(a.rsub(R(1.0)).to_array(), reals([0.0, -1.0, -2.0, -3.0]));
    let mut c = a;
    c += b;
    assert_eq!(c, a + b);
    assert!(a.equals(&a));
    assert!(!a.equals(&b));

    let a = counting3();
    let one: Mat3<R> = Mat3::new(R(1.0));
    assert_eq!(
        (a - one).to_array(),
        reals([0.0, 2.0, 3.0, 4.0, 4.0, 6.0, 7.0, 8.0, 8.0])
    );
    let product: Mat3<R> = matrixCompMult(&a, &one);
    assert_eq!(product.to_array(), reals([1.0, 0.0, 0.0, 0.0, 5.0, 0.0, 0.0, 0.0, 9.0]));
    assert!(a.equals(&counting3()));
}

#[test]
fn outer_product_in_smaller_sizes() {
    let m: Mat2<R> = outerProduct(&v2(1.0, 2.0), &v2(3.0, 4.0));
    assert_eq!(m.to_array(), reals([3.0, 6.0, 4.0, 8.0]));
    let m: Mat3<R> = outerProduct(&v3(1.0, 2.0, 3.0), &v3(1.0, 10.0, 100.0));
    assert_eq!(
        m.to_array(),
        reals([1.0, 2.0, 3.0, 10.0, 20.0, 30.0, 100.0, 200.0, 300.0])
    );
}

#[test]
fn inverse_in_smaller_sizes() {
    let singular = Mat2::from_array(reals([1.0, 2.0, 2.0, 4.0]));
    let found = nalgebra::Matrix2::<f32>::from_column_slice(&floats(singular.to_array()))
        .try_inverse()
        .map(|m| Mat2::from_array(reals([m[(0, 0)], m[(1, 0)], m[(0, 1)], m[(1, 1)]])));
    assert!(found.is_none());
    let r: Mat2<R> = inverse(found);
    assert!(r.to_array().iter().all(|c| c.0.is_nan()));

    let regular = Mat2::from_array(reals([2.0, 0.0, 0.0, 4.0]));
    let found = nalgebra::Matrix2::<f32>::from_column_slice(&floats(regular.to_array()))
        .try_inverse()
        .map(|m| Mat2::from_array(reals([m[(0, 0)], m[(1, 0)], m[(0, 1)], m[(1, 1)]])));
    let r: Mat2<R> = inverse(found);
    assert_eq!(r.to_array(), reals([0.5, 0.0, 0.0, 0.25]));

    let r: Mat3<R> = inverse(None);
    assert!(r.to_array().iter().all(|c| c.0.is_nan()));
}

#[test]
fn determinant_of_the_identity_is_one() {
    let m: Mat2<R> = Mat2::new(R(1.0));
    let d = nalgebra::Matrix2::<f32>::from_column_slice(&floats(m.to_array())).determinant();
    assert_eq!(d, 1.0);
    let m: Mat3<R> = Mat3::new(R(1.0));
    let d = nalgebra::Matrix3::<f32>::from_column_slice(&floats(m.to_array())).determinant();
    assert_eq!(d, 1.0);
    let m: Mat4<R> = Mat4::new(R(1.0));
    let d = nalgebra::Matrix4::<f32>::from_column_slice(&floats(m.to_array())).determinant();
    assert_eq!(d, 1.0);
}
