use std::time::{Duration, Instant};

use gl_types::matrices::{mul1, mul2, mul3, Mat, Mat4, Mat4Constructor};
use gl_types::scalar::{GLScalar, Real, Seal};
use gl_types::vectors::{
    Vec2, Vec2Constructor, Vec3, Vec3Constructor, Vec4, Vec4Constructor, VecN,
};
use rand::Rng;

const TEST_COUNT: usize = 100000;

/// The component type of these tests: a 32-bit float.
#[derive(Clone, Copy, Debug, PartialEq, PartialOrd)]
struct R(f32);

impl Seal for R {}

impl Real for R {
    fn from_int_spec(v: i128) -> Self {
        R(v as f32)
    }

    fn nan_spec() -> Self {
        R(f32::NAN)
    }

    fn plus(self, rhs: Self) -> Self {
        R(self.0 + rhs.0)
    }

    fn minus(self, rhs: Self) -> Self {
        R(self.0 - rhs.0)
    }

    fn times(self, rhs: Self) -> Self {
        R(self.0 * rhs.0)
    }

    fn over(self, rhs: Self) -> Self {
        R(self.0 / rhs.0)
    }

    fn negated(self) -> Self {
        R(-self.0)
    }

    fn root(self) -> Self {
        R(self.0.sqrt())
    }

    fn below(self, rhs: Self) -> bool {
        self.0 < rhs.0
    }

    fn same(self, rhs: Self) -> bool {
        self.0 == rhs.0
    }

    fn from_i32(v: i32) -> Self {
        R(v as f32)
    }

    fn from_i64(v: i64) -> Self {
        R(v as f32)
    }

    fn from_u32(v: u32) -> Self {
        R(v as f32)
    }

    fn from_u64(v: u64) -> Self {
        R(v as f32)
    }

    fn nan() -> Self {
        R(f32::NAN)
    }

    fn add(self, rhs: Self) -> Self {
        R(self.0 + rhs.0)
    }

    fn sub(self, rhs: Self) -> Self {
        R(self.0 - rhs.0)
    }

    fn mul(self, rhs: Self) -> Self {
        R(self.0 * rhs.0)
    }

    fn div(self, rhs: Self) -> Self {
        R(self.0 / rhs.0)
    }

    fn neg(self) -> Self {
        R(-self.0)
    }

    fn sqrt(self) -> Self {
        R(self.0.sqrt())
    }

    fn lt(self, rhs: Self) -> bool {
        self.0 < rhs.0
    }

    fn eq(self, rhs: Self) -> bool {
        self.0 == rhs.0
    }
}

fn rand_array<const N: usize>() -> [R; N] {
    let mut rng = rand::thread_rng();

    let mut array = [R(0f32); N];
    for i in 0..N {
        array[i] = R(rng.gen());
    }

    array
}

fn rand_vec<V: VecN<R, N>, const N: usize>() -> V {
    V::from_array(rand_array())
}

#[test]
pub fn slices() {
    let mut rng = rand::thread_rng();

    for _ in 0..TEST_COUNT {
        // Vec2
        let mut array = [R(rng.gen()), R(rng.gen())];
        let mut v = Vec2::_new(array[0], array[1]);

        assert_eq!(v.as_slice(), &array);
        assert_eq!(v.as_slice_mut(), &mut array);
        assert_eq!(v.as_array(), array);

        let v1 = Vec2::from_slice(&array);
        let v2 = Vec2::from_array(array);

        assert_eq!(v, v1);
        assert_eq!(v, v2);

        // Vec3
        let mut array = [R(rng.gen()), R(rng.gen()), R(rng.gen())];
        let mut v = Vec3::_new(array[0], array[1], array[2]);

        assert_eq!(v.as_slice(), &array);
        assert_eq!(v.as_slice_mut(), &mut array);
        assert_eq!(v.as_array(), array);

        let v1 = Vec3::from_slice(&array);
        let v2 = Vec3::from_array(array);

        assert_eq!(v, v1);
        assert_eq!(v, v2);

        // Vec4
        let mut array = [R(rng.gen()), R(rng.gen()), R(rng.gen()), R(rng.gen())];
        let mut v = Vec4::_new(array[0], array[1], array[2], array[3]);

        assert_eq!(v.as_slice(), &array);
        assert_eq!(v.as_slice_mut(), &mut array);
        assert_eq!(v.as_array(), array);

        let v1 = Vec4::from_slice(&array);
        let v2 = Vec4::from_array(array);

        assert_eq!(v, v1);
        assert_eq!(v, v2);
    }
}

#[test]
pub fn constructors() {
    let zero: R = 0.as_();
    for _ in 0..TEST_COUNT {
        let v2: Vec2<R> = rand_vec();
        let (x, y) = (v2.x(), v2.y());
        assert_eq!(Vec2::new(zero), Vec2::_new(R(0.0), R(0.0)));
        assert_eq!(Vec2::new(x), Vec2::_new(x, x));
        assert_eq!(Vec2::new((x, y)), Vec2::_new(x, y));

        let v3: Vec3<R> = rand_vec();
        let (x, y, z) = (v3.x(), v3.y(), v3.z());
        assert_eq!(Vec3::new(zero), Vec3::_new(R(0.0), R(0.0), R(0.0)));
        assert_eq!(Vec3::new(x), Vec3::_new(x, x, x));
        assert_eq!(Vec3::new((Vec2::new(x), y)), Vec3::_new(x, x, y));
        assert_eq!(Vec3::new((x, Vec2::new(y))), Vec3::_new(x, y, y));
        assert_eq!(Vec3::new((x, y, z)), Vec3::_new(x, y, z));

        let v4: Vec4<R> = rand_vec();
        let (x, y, z, w) = (v4.x(), v4.y(), v4.z(), v4.w());
        assert_eq!(Vec4::new(zero), Vec4::_new(R(0.0), R(0.0), R(0.0), R(0.0)));
        assert_eq!(Vec4::new(x), Vec4::_new(x, x, x, x));
        assert_eq!(Vec4::new((Vec3::new(x), y)), Vec4::_new(x, x, x, y));
        assert_eq!(Vec4::new((x, Vec3::new(y))), Vec4::_new(x, y, y, y));
        assert_eq!(Vec4::new((Vec2::new(x), Vec2::new(y))), Vec4::_new(x, x, y, y));
        assert_eq!(Vec4::new((Vec2::new(x), y, z)), Vec4::_new(x, x, y, z));
        assert_eq!(Vec4::new((x, Vec2::new(y), z)), Vec4::_new(x, y, y, z));
        assert_eq!(Vec4::new((x, y, Vec2::new(z))), Vec4::_new(x, y, z, z));
        assert_eq!(Vec4::new((x, y, z, w)), Vec4::_new(x, y, z, w));
    }
}

fn operate_array<const N: usize, F: Fn(f32, f32) -> f32>(a: &[R; N], b: &[R; N], f: F) -> [R; N] {
    let mut out = [R(0f32); N];
    for i in 0..N {
        out[i] = R(f(a[i].0, b[i].0));
    }

    out
}

#[test]
pub fn addition() {
    for _ in 0..TEST_COUNT {
        let f = |a, b| a + b;

        // Vec2
        let a = rand_array();
        let b = rand_array();
        let c = operate_array(&a, &b, f);
        assert_eq!(Vec2::from_slice(&a) + Vec2::from_slice(&b), Vec2::from_slice(&c));

        let mut a = Vec2::from_array(a);
        let b = Vec2::from_array(b);
        let c = Vec2::from_array(c);
        a += b;
        assert_eq!(a, c);

        // Vec3
        let a = rand_array();
        let b = rand_array();
        let c = operate_array(&a, &b, f);
        assert_eq!(Vec3::from_slice(&a) + Vec3::from_slice(&b), Vec3::from_slice(&c));

        let mut a = Vec3::from_array(a);
        let b = Vec3::from_array(b);
        let c = Vec3::from_array(c);
        a += b;
        assert_eq!(a, c);

        // Vec4
        let a = rand_array();
        let b = rand_array();
        let c = operate_array(&a, &b, f);
        assert_eq!(Vec4::from_slice(&a) + Vec4::from_slice(&b), Vec4::from_slice(&c));

        let mut a = Vec4::from_array(a);
        let b = Vec4::from_array(b);
        let c = Vec4::from_array(c);
        a += b;
        assert_eq!(a, c);
    }
}

#[test]
pub fn subtraction() {
    for _ in 0..TEST_COUNT {
        let f = |a, b| a - b;

        // Vec2
        let a = rand_array();
        let b = rand_array();
        let c = operate_array(&a, &b, f);
        assert_eq!(Vec2::from_slice(&a) - Vec2::from_slice(&b), Vec2::from_slice(&c));

        let mut a = Vec2::from_array(a);
        let b = Vec2::from_array(b);
        let c = Vec2::from_array(c);
        a -= b;
        assert_eq!(a, c);

        // Vec3
        let a = rand_array();
        let b = rand_array();
        let c = operate_array(&a, &b, f);
        assert_eq!(Vec3::from_slice(&a) - Vec3::from_slice(&b), Vec3::from_slice(&c));

        let mut a = Vec3::from_array(a);
        let b = Vec3::from_array(b);
        let c = Vec3::from_array(c);
        a -= b;
        assert_eq!(a, c);

        // Vec4
        let a = rand_array();
        let b = rand_array();
        let c = operate_array(&a, &b, f);
        assert_eq!(Vec4::from_slice(&a) - Vec4::from_slice(&b), Vec4::from_slice(&c));

        let mut a = Vec4::from_array(a);
        let b = Vec4::from_array(b);
        let c = Vec4::from_array(c);
        a -= b;
        assert_eq!(a, c);
    }
}

#[test]
pub fn multiplication() {
    for _ in 0..TEST_COUNT {
        let f = |a, b| a * b;

        // Vec2
        let a = rand_array();
        let b = rand_array();
        let c = operate_array(&a, &b, f);
        assert_eq!(Vec2::from_slice(&a) * Vec2::from_slice(&b), Vec2::from_slice(&c));

        let mut a = Vec2::from_array(a);
        let b = Vec2::from_array(b);
        let c = Vec2::from_array(c);
        a *= b;
        assert_eq!(a, c);

        // Vec3
        let a = rand_array();
        let b = rand_array();
        let c = operate_array(&a, &b, f);
        assert_eq!(Vec3::from_slice(&a) * Vec3::from_slice(&b), Vec3::from_slice(&c));

        let mut a = Vec3::from_array(a);
        let b = Vec3::from_array(b);
        let c = Vec3::from_array(c);
        a *= b;
        assert_eq!(a, c);

        // Vec4
        let a = rand_array();
        let b = rand_array();
        let c = operate_array(&a, &b, f);
        assert_eq!(Vec4::from_slice(&a) * Vec4::from_slice(&b), Vec4::from_slice(&c));

        let mut a = Vec4::from_array(a);
        let b = Vec4::from_array(b);
        let c = Vec4::from_array(c);
        a *= b;
        assert_eq!(a, c);
    }
}

#[test]
pub fn division() {
    for _ in 0..TEST_COUNT {
        let f = |a, b| a / b;

        // Vec2
        let a = rand_array();
        let b = rand_array();
        let c = operate_array(&a, &b, f);
        assert_eq!(Vec2::from_slice(&a) / Vec2::from_slice(&b), Vec2::from_slice(&c));

        let mut a = Vec2::from_array(a);
        let b = Vec2::from_array(b);
        let c = Vec2::from_array(c);
        a /= b;
        assert_eq!(a, c);

        // Vec3
        let a = rand_array();
        let b = rand_array();
        let c = operate_array(&a, &b, f);
        assert_eq!(Vec3::from_slice(&a) / Vec3::from_slice(&b), Vec3::from_slice(&c));

        let mut a = Vec3::from_array(a);
        let b = Vec3::from_array(b);
        let c = Vec3::from_array(c);
        a /= b;
        assert_eq!(a, c);

        // Vec4
        let a = rand_array();
        let b = rand_array();
        let c = operate_array(&a, &b, f);
        assert_eq!(Vec4::from_slice(&a) / Vec4::from_slice(&b), Vec4::from_slice(&c));

        let mut a = Vec4::from_array(a);
        let b = Vec4::from_array(b);
        let c = Vec4::from_array(c);
        a /= b;
        assert_eq!(a, c);
    }
}

fn vec4_of(a: i32, b: i32, c: i32, d: i32) -> Vec4<R> {
    Vec4::new((a.as_(), b.as_(), c.as_(), d.as_()))
}

#[test]
pub fn transpose() {
    let a: Mat4<R> = Mat4::new((
        vec4_of(1, 2, 3, 4),
        vec4_of(5, 6, 7, 8),
        vec4_of(9, 10, 11, 12),
        vec4_of(13, 14, 15, 16),
    ));
    let b: Mat4<R> = Mat4::new((
        vec4_of(1, 5, 9, 13),
        vec4_of(2, 6, 10, 14),
        vec4_of(3, 7, 11, 15),
        vec4_of(4, 8, 12, 16),
    ))
    .transpose();

    assert_eq!(a, b);
}

const TIMES: u32 = 100000;

#[test]
pub fn timing() {
    let mut t1 = Duration::ZERO;
    let mut t2 = Duration::ZERO;
    let mut t3 = Duration::ZERO;
    let mut t4 = Duration::ZERO;
    let arr_a = rand_array();
    let arr_b = rand_array();
    let a1 = Mat4::from_array(arr_a);
    let b1 = Mat4::from_array(arr_b);
    let a2 = Mat4::from_array(arr_a);
    let b2 = Mat4::from_array(arr_b);
    let a3 = Mat4::from_array(arr_a);
    let b3 = Mat4::from_array(arr_b);
    let mut a4 = nalgebra::Matrix4::<f32>::zeros();
    let mut b4 = nalgebra::Matrix4::<f32>::zeros();

    for c in 0..4 {
        for r in 0..4 {
            a4[(r, c)] = a1.index(c)[r].0;
            b4[(r, c)] = b1.index(c)[r].0;
        }
    }

    for _ in 0..TIMES {
        let start = Instant::now();
        let _c1 = mul1(a1, b1);
        t1 += Instant::now() - start;

        let start = Instant::now();
        let _c2 = mul2(a2, b2);
        t2 += Instant::now() - start;

        let start = Instant::now();
        let _c3 = mul3(a3, b3);
        t3 += Instant::now() - start;

        let start = Instant::now();
        let _c4 = a4.clone() * b4.clone();
        t4 += Instant::now() - start;
    }

    println!(
        "mul1: {}, mul2: {}, mul3: {}, glm: {}",
        t1.as_millis(),
        t2.as_millis(),
        t3.as_millis(),
        t4.as_millis()
    );
}
