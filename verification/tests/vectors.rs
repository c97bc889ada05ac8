use raytracer::interval::Interval;
use raytracer::vec3::{channel_clip, saturate, Vec3};

#[test]
fn indexing() {
    let x: Vec3<f64> = Vec3 {
        x: 1.0,
        y: 2.0,
        z: 3.0,
    };
    assert_eq!(x[0], 1.0);
    assert_eq!(x[1], 2.0);

    let mut y: Vec3<f64> = Vec3 {
        x: 10.0,
        y: 2.0,
        z: 3.0,
    };
    y[0] = 1.0;
    assert_eq!(y, x);
}

#[test]
#[should_panic]
fn invalid_indexing() {
    let x: Vec3<f64> = Vec3 {
        x: 1.0,
        y: 2.0,
        z: 3.0,
    };
    x[5];
}

#[test]
fn indexing_reaches_every_component() {
    let mut v: Vec3<f64> = Vec3::new(1.0, 2.0, 3.0);
    assert_eq!(v[2], 3.0);
    v[1] = 5.0;
    v[2] = 7.0;
    assert_eq!(v, Vec3::new(1.0, 5.0, 7.0));
}

#[test]
fn addition() {
    let x: Vec3<f64> = Vec3 {
        x: 0.0,
        y: 1.0,
        z: 2.0,
    };
    let y: Vec3<f64> = Vec3 {
        x: 0.0,
        y: 1.0,
        z: 2.0,
    };
    let z: Vec3<f64> = Vec3 {
        x: 0.0,
        y: 2.0,
        z: 4.0,
    };
    let x_plus_one: Vec3<f64> = Vec3 {
        x: 1.0,
        y: 2.0,
        z: 3.0,
    };
    // Vec3 + Vec3
    assert_eq!(z, x + y);
    // Vec3 + scalar
    assert_eq!(x_plus_one, x + 1.0);

    let mut mx: Vec3<f64> = x;
    let mut my: Vec3<f64> = y;

    // +=
    mx += my;
    assert_eq!(mx, z);

    // the other way round
    mx = x;
    my += mx;
    assert_eq!(my, z);
}

#[test]
fn subtraction() {
    let x: Vec3<f64> = Vec3 {
        x: 0.0,
        y: 1.0,
        z: 2.0,
    };
    let y: Vec3<f64> = Vec3 {
        x: 0.0,
        y: 1.0,
        z: 2.0,
    };
    let x_minus_one: Vec3<f64> = Vec3 {
        x: -1.0,
        y: 0.0,
        z: 1.0,
    };
    let zero: Vec3<f64> = Vec3 {
        x: 0.0,
        y: 0.0,
        z: 0.0,
    };
    assert_eq!(zero, x - y);
    assert_eq!(x_minus_one, x - 1.0);
}

#[test]
fn constructors_agree() {
    let a: Vec3<f64> = Vec3::new(1.5, -2.0, 4.0);
    let b: Vec3<f64> = Vec3::from((1.5, -2.0, 4.0));
    assert_eq!(a, b);
    assert_eq!(a.x, 1.5);
    assert_eq!(a.y, -2.0);
    assert_eq!(a.z, 4.0);
    assert_eq!(Vec3::from_float(2.5), Vec3::new(2.5, 2.5, 2.5));
}

#[test]
fn multiplication_and_division() {
    let a: Vec3<f64> = Vec3::new(1.0, 2.0, 3.0);
    let b: Vec3<f64> = Vec3::new(4.0, 8.0, 12.0);
    assert_eq!(a * b, Vec3::new(4.0, 16.0, 36.0));
    assert_eq!(a * 2.0, Vec3::new(2.0, 4.0, 6.0));
    assert_eq!(b / a, Vec3::new(4.0, 4.0, 4.0));
    assert_eq!(b / 4.0, Vec3::new(1.0, 2.0, 3.0));
    assert_eq!(-a, Vec3::new(-1.0, -2.0, -3.0));
}

#[test]
fn compound_assignment() {
    let a: Vec3<f64> = Vec3::new(1.0, 2.0, 3.0);
    let mut v = a;
    v += 1.0;
    assert_eq!(v, Vec3::new(2.0, 3.0, 4.0));
    v -= a;
    assert_eq!(v, Vec3::new(1.0, 1.0, 1.0));
    v -= 0.5;
    assert_eq!(v, Vec3::new(0.5, 0.5, 0.5));
    v *= 4.0;
    assert_eq!(v, Vec3::new(2.0, 2.0, 2.0));
    v *= a;
    assert_eq!(v, Vec3::new(2.0, 4.0, 6.0));
    v /= 2.0;
    assert_eq!(v, a);
    v /= a;
    assert_eq!(v, Vec3::new(1.0, 1.0, 1.0));
}

#[test]
fn division_by_zero_is_not_guarded() {
    let a: Vec3<f64> = Vec3::new(1.0, -1.0, 0.0);
    let q = a / 0.0;
    assert_eq!(q.x, f64::INFINITY);
    assert_eq!(q.y, f64::NEG_INFINITY);
    assert!(q.z.is_nan());
}

#[test]
fn addition_does_not_depend_on_the_order() {
    let a: Vec3<f64> = Vec3::new(0.1, -7.25, 3.0e10);
    let b: Vec3<f64> = Vec3::new(0.2, 1.0e-9, -4.5);
    assert_eq!(a + b, b + a);
    let back = (a + b) - b;
    assert!((back.x - a.x).abs() < 1e-9);
    assert!((back.y - a.y).abs() < 1e-9);
    assert!((back.z - a.z).abs() < 1e-5);
}

#[test]
fn saturate_cuts_at_both_ends() {
    assert_eq!(saturate(0), 0);
    assert_eq!(saturate(255), 255);
    assert_eq!(saturate(-7), -7);
    assert_eq!(saturate(2147483647), 2147483647);
    assert_eq!(saturate(2147483648), 2147483647);
    assert_eq!(saturate(i64::MAX), i32::MAX);
    assert_eq!(saturate(-2147483648), -2147483648);
    assert_eq!(saturate(-2147483649), -2147483648);
    assert_eq!(saturate(i64::MIN), i32::MIN);
}

#[test]
fn channel_clip_keeps_to_a_byte() {
    assert_eq!(channel_clip(0), 0);
    assert_eq!(channel_clip(128), 128);
    assert_eq!(channel_clip(255), 255);
    assert_eq!(channel_clip(256), 255);
    assert_eq!(channel_clip(-1), 0);
    assert_eq!(channel_clip(i64::MAX), 255);
    assert_eq!(channel_clip(i64::MIN), 0);
}

#[test]
fn interval_ends() {
    let unit = Interval::new(0.0, 1.0);
    assert!(!unit.surrounds(0.0));
    assert!(unit.surrounds(0.5));
    assert!(unit.contains(1.0));
    assert!(!unit.surrounds(1.0));
    assert!(unit.contains(0.0));
    assert!(!unit.contains(-0.1));
    assert!(!unit.contains(1.1));
}

#[test]
fn interval_clamp_and_size() {
    let range = Interval::new(0.0, 0.999);
    assert_eq!(range.clamp(-3.0), 0.0);
    assert_eq!(range.clamp(0.25), 0.25);
    assert_eq!(range.clamp(0.999), 0.999);
    assert_eq!(range.clamp(1.0), 0.999);
    assert_eq!(Interval::new(2.0, 5.5).size(), 3.5);
    assert_eq!(Interval::new(5.0, 2.0).size(), -3.0);
}

#[test]
fn interval_leaves_what_does_not_compare() {
    let range = Interval::new(0.0, 1.0);
    assert!(range.clamp(f64::NAN).is_nan());
    assert!(!range.contains(f64::NAN));
    assert!(!range.surrounds(f64::NAN));
}

#[test]
fn interval_works_on_integers() {
    let range = Interval::new(3, 8);
    assert_eq!(range.clamp(1), 3);
    assert_eq!(range.clamp(9), 8);
    assert!(range.surrounds(4));
    assert!(!range.surrounds(8));
    assert_eq!(range.size(), 5);
}
