use raytracer::camera::{bounce, color_estimate, sky_color, Camera};
use raytracer::hittable::{HitRecord, Hittable, HittableList};
use raytracer::interval::Interval;
use raytracer::pinhole;
use raytracer::random::{Midpoint, RandomSource};
use raytracer::ray::Ray;
use raytracer::scalar::{ratio, Scalar};
use raytracer::sphere::{hit_sphere, ray_color, Sphere};
use raytracer::vec3::Vec3;
use std::ops::{Add, Div, Mul, Neg, Sub};

/// The scalar of these tests: a double.
#[derive(Clone, Copy, Debug, PartialEq, PartialOrd, Default)]
struct Real(f64);

impl Add for Real {
    type Output = Real;
    fn add(self, o: Real) -> Real {
        Real(self.0 + o.0)
    }
}

impl Sub for Real {
    type Output = Real;
    fn sub(self, o: Real) -> Real {
        Real(self.0 - o.0)
    }
}

impl Mul for Real {
    type Output = Real;
    fn mul(self, o: Real) -> Real {
        Real(self.0 * o.0)
    }
}

impl Div for Real {
    type Output = Real;
    fn div(self, o: Real) -> Real {
        Real(self.0 / o.0)
    }
}

impl Neg for Real {
    type Output = Real;
    fn neg(self) -> Real {
        Real(-self.0)
    }
}

impl Scalar for Real {
    fn from_int(n: i64) -> Real {
        Real(n as f64)
    }

    fn to_int(self) -> i64 {
        self.0 as i64
    }

    fn sqrt(self) -> Real {
        Real(self.0.sqrt())
    }

    fn infinity() -> Real {
        Real(f64::INFINITY)
    }

    fn neg_infinity() -> Real {
        Real(f64::NEG_INFINITY)
    }
}

/// A source that hands out a fixed sequence of fractions of the range,
/// over and over, and counts its draws.
struct Sequence {
    fractions: Vec<f64>,
    drawn: usize,
}

impl Sequence {
    fn of(fractions: Vec<f64>) -> Sequence {
        Sequence { fractions, drawn: 0 }
    }
}

impl RandomSource<Real> for Sequence {
    fn uniform(&mut self, min: Real, max: Real) -> Real {
        let f = self.fractions[self.drawn % self.fractions.len()];
        self.drawn += 1;
        Real(min.0 + (max.0 - min.0) * f)
    }
}

fn v(x: f64, y: f64, z: f64) -> Vec3<Real> {
    Vec3::new(Real(x), Real(y), Real(z))
}

fn small_sphere() -> Sphere<Real> {
    Sphere::new(v(0.0, 0.0, -1.0), Real(0.5))
}

fn ground() -> Sphere<Real> {
    Sphere::new(v(0.0, -100.5, -1.0), Real(100.0))
}

fn two_spheres() -> HittableList<Real> {
    let mut world = HittableList::new();
    world.objects.push(Box::new(small_sphere()));
    world.objects.push(Box::new(ground()));
    world
}

fn forward() -> Interval<Real> {
    Interval::new(Real(0.0), Real(f64::INFINITY))
}

fn marked() -> HitRecord<Real> {
    HitRecord {
        front_face: false,
        normal: v(9.0, 9.0, 9.0),
        p: v(8.0, 8.0, 8.0),
        t: Real(7.0),
    }
}

fn same(a: &HitRecord<Real>, b: &HitRecord<Real>) -> bool {
    a.front_face == b.front_face && a.normal == b.normal && a.p == b.p && a.t == b.t
}

#[test]
fn ratio_gives_the_decimal_constants() {
    assert_eq!(ratio::<Real>(1, 2), Real(0.5));
    assert_eq!(ratio::<Real>(-1, 2), Real(-0.5));
    assert_eq!(ratio::<Real>(999, 1000), Real(0.999));
    assert_eq!(ratio::<Real>(7, 10), Real(0.7));
    assert_eq!(ratio::<Real>(255999, 1000), Real(255.999));
}

#[test]
fn length() {
    let x: Vec3<Real> = Vec3 {
        x: Real(2.0),
        y: Real(3.0),
        z: Real(6.0),
    };
    let y = Real(7.0);
    assert_eq!(x.length(), y);
    assert_eq!(Vec3::length(x), y);
}

#[test]
fn zero_and_one() {
    assert_eq!(Vec3::<Real>::zero(), v(0.0, 0.0, 0.0));
    assert_eq!(Vec3::<Real>::one(), v(1.0, 1.0, 1.0));
}

#[test]
fn products() {
    let a = v(1.0, 2.0, 3.0);
    let b = v(4.0, -5.0, 6.0);
    assert_eq!(a.length_squared(), Real(14.0));
    assert_eq!(a.dot(&b), Real(12.0));
    assert_eq!(a.dot(&b), b.dot(&a));
    assert_eq!(Vec3::cross(&a, &b), v(27.0, 6.0, -13.0));
    assert_eq!(Vec3::cross(&v(1.0, 0.0, 0.0), &v(0.0, 1.0, 0.0)), v(0.0, 0.0, 1.0));
}

#[test]
fn unit_vector_has_length_one() {
    let vectors = vec![
        v(2.0, 3.0, 6.0),
        v(0.1, -7.25, 3.0e10),
        v(1.0e-12, 0.0, 0.0),
        v(-1.0, -1.0, -1.0),
        v(0.004444444444444473, 0.0, -1.0),
    ];
    for a in vectors {
        let one = a.unit_vector().length();
        assert!((one.0 - 1.0).abs() < 1e-9);
    }
    assert_eq!(v(0.0, 0.0, -4.0).unit_vector(), v(0.0, 0.0, -1.0));
}

#[test]
fn unit_vector_of_zero_is_no_number() {
    let u = v(0.0, 0.0, 0.0).unit_vector();
    assert!(u.x.0.is_nan());
    assert!(u.y.0.is_nan());
    assert!(u.z.0.is_nan());
}

#[test]
fn colour_channels_for_one_sample() {
    assert_eq!(v(1.0, 0.5, 0.0).write_color(), Vec3::new(255, 127, 0));
    assert_eq!(v(0.25, 0.999, 2.0).write_color(), Vec3::new(63, 255, 511));
    assert_eq!(v(f64::NAN, 1.0e300, -1.0e300).write_color(), Vec3::new(0, i32::MAX, i32::MIN));
}

#[test]
fn colour_channels_for_a_sum_of_samples() {
    assert_eq!(v(2.0, 1.0, 0.0).write_color_aa(2), Vec3::new(255, 128, 0));
    assert_eq!(v(0.5, 0.7, 1.0).write_color_aa(1), Vec3::new(128, 179, 255));
    assert_eq!(v(-3.0, 50.0, 25.0).write_color_aa(100), Vec3::new(0, 128, 64));
    assert_eq!(v(40.0, 40.0, 40.0).write_color_aa(10), Vec3::new(255, 255, 255));
    assert_eq!(
        v(f64::NAN, f64::INFINITY, f64::NEG_INFINITY).write_color_aa(3),
        Vec3::new(0, 255, 0)
    );
    // no samples: the mean of nothing is no number, or beyond every number
    assert_eq!(v(0.0, 1.0, -1.0).write_color_aa(0), Vec3::new(0, 255, 0));
}

#[test]
fn random_vectors_take_three_draws_in_order() {
    let mut rng = Sequence::of(vec![0.0, 0.25, 0.5]);
    assert_eq!(Vec3::random(&mut rng), v(0.0, 0.25, 0.5));
    assert_eq!(rng.drawn, 3);
    assert_eq!(Vec3::random_range(&mut rng, Real(-1.0), Real(1.0)), v(-1.0, -0.5, 0.0));
    assert_eq!(rng.drawn, 6);
    assert_eq!(Vec3::random_range(&mut rng, Real(10.0), Real(20.0)), v(10.0, 12.5, 15.0));
}

#[test]
fn sample_square_takes_two_draws() {
    let mut rng = Sequence::of(vec![0.0, 0.75, 0.5]);
    assert_eq!(Vec3::sample_square(&mut rng), v(-0.5, 0.25, 0.0));
    assert_eq!(rng.drawn, 2);
    assert_eq!(Vec3::sample_square(&mut rng), v(0.0, -0.5, 0.0));
}

#[test]
fn inside_the_unit_sphere() {
    assert!(v(0.0, 0.0, 0.0).in_unit_sphere());
    assert!(v(0.5, 0.5, 0.5).in_unit_sphere());
    assert!(!v(1.0, 0.0, 0.0).in_unit_sphere());
    assert!(!v(0.75, 0.75, 0.0).in_unit_sphere());
    assert!(!v(f64::NAN, 0.0, 0.0).in_unit_sphere());
}

#[test]
fn rejection_keeps_the_first_point_inside() {
    // the first candidate is the corner (-1, -1, -1), the second (0.5, 0, 0.5)
    let mut rng = Sequence::of(vec![0.0, 0.0, 0.0, 0.75, 0.5, 0.75]);
    let point = Vec3::random_in_unit_sphere(&mut rng, 5);
    assert_eq!(point, Some(v(0.5, 0.0, 0.5)));
    assert_eq!(rng.drawn, 6);
}

#[test]
fn rejection_gives_up_after_its_tries() {
    let mut rng = Sequence::of(vec![0.0]);
    assert_eq!(Vec3::random_in_unit_sphere(&mut rng, 4), None);
    assert_eq!(rng.drawn, 12);
    assert_eq!(Vec3::random_in_unit_sphere(&mut rng, 0), None);
    assert_eq!(rng.drawn, 12);
}

#[test]
fn ray_at() {
    let r = Ray::new(v(1.0, 2.0, 3.0), v(0.5, 0.0, -1.0));
    assert_eq!(r.origin(), v(1.0, 2.0, 3.0));
    assert_eq!(r.direction(), v(0.5, 0.0, -1.0));
    assert_eq!(r.at(Real(0.0)), v(1.0, 2.0, 3.0));
    assert_eq!(r.at(Real(2.0)), v(2.0, 2.0, 1.0));
    assert_eq!(r.at(Real(-4.0)), v(-1.0, 2.0, 7.0));
}

#[test]
fn a_new_record_is_all_zero() {
    let rec: HitRecord<Real> = HitRecord::new();
    assert!(rec.front_face);
    assert_eq!(rec.normal(), v(0.0, 0.0, 0.0));
    assert_eq!(rec.point(), v(0.0, 0.0, 0.0));
    assert_eq!(rec.t, Real(0.0));
}

#[test]
fn the_normal_is_turned_against_the_ray() {
    let r = Ray::new(v(0.0, 0.0, 0.0), v(0.0, 0.0, -1.0));
    let mut rec = marked();
    rec.set_face_normal(&r, &v(0.0, 0.0, 1.0));
    assert!(rec.front_face);
    assert_eq!(rec.normal(), v(0.0, 0.0, 1.0));
    rec.set_face_normal(&r, &v(0.0, 0.0, -1.0));
    assert!(!rec.front_face);
    assert_eq!(rec.normal(), v(0.0, 0.0, 1.0));
    // a ray along the surface counts as coming from inside
    rec.set_face_normal(&r, &v(0.0, 1.0, 0.0));
    assert!(!rec.front_face);
    assert_eq!(rec.normal(), v(0.0, -1.0, 0.0));
    assert_eq!(rec.point(), v(8.0, 8.0, 8.0));
    assert_eq!(rec.t, Real(7.0));
}

#[test]
fn a_ray_from_outside_hits_the_near_side() {
    let r = Ray::new(v(0.0, 0.0, 0.0), v(0.0, 0.0, -1.0));
    let mut rec = marked();
    assert!(small_sphere().hit(&r, forward(), &mut rec));
    assert_eq!(rec.t, Real(0.5));
    assert_eq!(rec.point(), v(0.0, 0.0, -0.5));
    assert_eq!(rec.normal(), v(0.0, 0.0, 1.0));
    assert!(rec.front_face);
}

#[test]
fn a_ray_that_misses_reports_nothing() {
    let r = Ray::new(v(0.0, 0.0, 0.0), v(0.0, 1.0, 0.0));
    let mut rec = marked();
    assert!(!small_sphere().hit(&r, forward(), &mut rec));
    assert!(same(&rec, &marked()));
}

#[test]
fn a_ray_from_inside_hits_the_far_side() {
    let r = Ray::new(v(0.0, 0.0, -1.0), v(0.0, 0.0, -1.0));
    let mut rec = marked();
    assert!(small_sphere().hit(&r, forward(), &mut rec));
    assert_eq!(rec.t, Real(0.5));
    assert_eq!(rec.point(), v(0.0, 0.0, -1.5));
    assert!(!rec.front_face);
    assert_eq!(rec.normal(), v(0.0, 0.0, 1.0));
}

#[test]
fn the_ends_of_the_range_do_not_count() {
    let r = Ray::new(v(0.0, 0.0, 0.0), v(0.0, 0.0, -1.0));
    let mut rec = marked();
    // the near root is 0.5 and the far root 1.5
    assert!(small_sphere().hit(&r, Interval::new(Real(0.5), Real(2.0)), &mut rec));
    assert_eq!(rec.t, Real(1.5));
    assert!(!rec.front_face);
    let mut rec = marked();
    assert!(!small_sphere().hit(&r, Interval::new(Real(0.5), Real(1.5)), &mut rec));
    assert!(same(&rec, &marked()));
    assert!(!small_sphere().hit(&r, Interval::new(Real(0.6), Real(1.4)), &mut rec));
    assert!(!small_sphere().hit(&r, Interval::new(Real(2.0), Real(9.0)), &mut rec));
    assert!(!small_sphere().hit(&r, Interval::empty(), &mut rec));
    assert!(small_sphere().hit(&r, Interval::universe(), &mut rec));
    assert_eq!(rec.t, Real(0.5));
}

#[test]
fn a_sphere_behind_the_ray_is_not_hit() {
    let r = Ray::new(v(0.0, 0.0, 0.0), v(0.0, 0.0, 1.0));
    let mut rec = marked();
    assert!(!small_sphere().hit(&r, forward(), &mut rec));
    assert_eq!(hit_sphere(&v(0.0, 0.0, -1.0), Real(0.5), &r), Real(-1.5));
}

#[test]
fn the_plain_test_gives_the_near_root_or_minus_one() {
    let center = v(0.0, 0.0, -1.0);
    let hit = Ray::new(v(0.0, 0.0, 0.0), v(0.0, 0.0, -1.0));
    let miss = Ray::new(v(0.0, 0.0, 0.0), v(0.0, 1.0, 0.0));
    assert_eq!(hit_sphere(&center, Real(0.5), &hit), Real(0.5));
    assert_eq!(hit_sphere(&center, Real(0.5), &miss), Real(-1.0));
}

#[test]
fn the_plain_picture() {
    let hit = Ray::new(v(0.0, 0.0, 0.0), v(0.0, 0.0, -1.0));
    assert_eq!(ray_color(&hit), v(0.5, 0.5, 1.0));
    let up = Ray::new(v(0.0, 0.0, 0.0), v(0.0, 2.0, 0.0));
    assert_eq!(ray_color(&up), v(0.5, 0.7, 1.0));
    let away = Ray::new(v(0.0, 0.0, 0.0), v(0.0, 0.0, 1.0));
    assert_eq!(ray_color(&away), v(0.75, 0.85, 1.0));
}

#[test]
fn the_sky_is_white_below_and_blue_above() {
    let up = Ray::new(v(0.0, 0.0, 0.0), v(0.0, 3.0, 0.0));
    let down = Ray::new(v(0.0, 0.0, 0.0), v(0.0, -3.0, 0.0));
    let level = Ray::new(v(0.0, 0.0, 0.0), v(0.0, 0.0, -1.0));
    assert_eq!(sky_color(&up), v(0.5, 0.7, 1.0));
    assert_eq!(sky_color(&down), v(1.0, 1.0, 1.0));
    assert_eq!(sky_color(&level), v(0.75, 0.85, 1.0));
}

#[test]
fn an_empty_list_is_never_hit() {
    let world: HittableList<Real> = HittableList::new();
    let r = Ray::new(v(0.0, 0.0, 0.0), v(0.0, 0.0, -1.0));
    let mut rec = marked();
    assert!(!world.hit(&r, forward(), &mut rec));
    assert!(same(&rec, &marked()));
}

#[test]
fn a_list_reports_the_nearer_of_two_hits() {
    let near = Sphere::new(v(0.0, 0.0, -1.0), Real(0.5));
    let far = Sphere::new(v(0.0, 0.0, -3.0), Real(1.0));
    let r = Ray::new(v(0.0, 0.0, 0.0), v(0.0, 0.0, -1.0));

    let mut alone = marked();
    assert!(far.hit(&r, forward(), &mut alone));
    assert_eq!(alone.t, Real(2.0));

    let mut world = HittableList::new();
    world.objects.push(Box::new(near));
    world.objects.push(Box::new(far));
    let mut rec = marked();
    assert!(world.hit(&r, forward(), &mut rec));
    assert_eq!(rec.t, Real(0.5));
    assert_eq!(rec.point(), v(0.0, 0.0, -0.5));
    assert_eq!(rec.normal(), v(0.0, 0.0, 1.0));

    let mut world = HittableList::new();
    world.objects.push(Box::new(far));
    world.objects.push(Box::new(near));
    let mut rec = marked();
    assert!(world.hit(&r, forward(), &mut rec));
    assert_eq!(rec.t, Real(0.5));
    assert_eq!(rec.point(), v(0.0, 0.0, -0.5));
}

#[test]
fn a_list_keeps_to_the_range() {
    let r = Ray::new(v(0.0, 0.0, 0.0), v(0.0, 0.0, -1.0));
    let mut world = HittableList::new();
    world.objects.push(Box::new(Sphere::new(v(0.0, 0.0, -1.0), Real(0.5))));
    world.objects.push(Box::new(Sphere::new(v(0.0, 0.0, -3.0), Real(1.0))));
    // beyond the first sphere: the second one's near side at 2
    let mut rec = marked();
    assert!(world.hit(&r, Interval::new(Real(1.5), Real(10.0)), &mut rec));
    assert_eq!(rec.t, Real(2.0));
    // between the spheres: nothing
    let mut rec = marked();
    assert!(!world.hit(&r, Interval::new(Real(1.5), Real(2.0)), &mut rec));
    assert!(same(&rec, &marked()));
}

#[test]
fn a_list_in_a_list() {
    let r = Ray::new(v(0.0, 0.0, 0.0), v(0.0, 0.0, -1.0));
    let mut inner = HittableList::new();
    inner.objects.push(Box::new(Sphere::new(v(0.0, 0.0, -3.0), Real(1.0))));
    let mut world = HittableList::new();
    world.objects.push(Box::new(inner));
    world.objects.push(Box::new(Sphere::new(v(0.0, 0.0, -8.0), Real(1.0))));
    let mut rec = marked();
    assert!(world.hit(&r, forward(), &mut rec));
    assert_eq!(rec.t, Real(2.0));
}

#[test]
fn a_new_camera_has_no_viewport_yet() {
    let cam = Camera::new(Real(16.0 / 9.0), 400, 100);
    assert_eq!(cam.aspect_ratio, Real(16.0 / 9.0));
    assert_eq!(cam.image_width, 400);
    assert_eq!(cam.samples_per_pixel, 100);
    assert_eq!(cam.max_depth, 50);
    assert_eq!(cam.max_tries, u64::MAX);
    assert_eq!(cam.image_height, 225);
    assert_eq!(cam.center, v(0.0, 0.0, 0.0));
    assert_eq!(cam.pixel00_location, v(0.0, 0.0, 0.0));
    assert_eq!(cam.pixel_delta_u, v(0.0, 0.0, 0.0));
    assert_eq!(cam.pixel_delta_v, v(0.0, 0.0, 0.0));
}

#[test]
fn the_default_camera() {
    let cam: Camera<Real> = Camera::default();
    assert_eq!(cam, Camera::new(Real(1.0), 100, 10));
}

#[test]
fn initialize_derives_the_viewport() {
    let mut cam = Camera::new(Real(16.0 / 9.0), 400, 1);
    cam.initialize();
    assert_eq!(cam.image_height, 225);
    assert_eq!(cam.center, v(0.0, 0.0, 0.0));
    assert_eq!(cam.pixel_delta_u, v(0.008888888888888889, 0.0, 0.0));
    assert_eq!(cam.pixel_delta_v, v(0.0, -0.008888888888888889, 0.0));
    assert_eq!(cam.pixel00_location, v(-1.7733333333333332, 0.9955555555555555, -1.0));
    assert_eq!(cam.aspect_ratio, Real(16.0 / 9.0));
    assert_eq!(cam.image_width, 400);
    assert_eq!(cam.samples_per_pixel, 1);
}

#[test]
fn the_image_is_at_least_one_pixel_high() {
    let mut cam = Camera::new(Real(16.0), 4, 1);
    assert_eq!(cam.image_height, 0);
    cam.initialize();
    assert_eq!(cam.image_height, 1);
    // the viewport goes by the true height: 2 * 4 / 1 wide
    assert_eq!(cam.pixel_delta_u, v(2.0, 0.0, 0.0));
    assert_eq!(cam.pixel_delta_v, v(0.0, -2.0, 0.0));
    assert_eq!(cam.pixel00_location, v(-3.0, 0.0, -1.0));
}

#[test]
fn initialize_twice_is_initialize_once() {
    let mut once = Camera::new(Real(16.0 / 9.0), 400, 7);
    once.initialize();
    let mut twice = once;
    twice.initialize();
    assert_eq!(once, twice);
    twice.initialize();
    assert_eq!(once, twice);
}

#[test]
fn rays_go_through_their_pixels() {
    let mut cam = Camera::new(Real(2.0), 4, 1);
    cam.initialize();
    // 4 by 2 pixels, each one unit wide and high, the first about (-1.5, 0.5, -1)
    assert_eq!(cam.image_height, 2);
    assert_eq!(cam.pixel00_location, v(-1.5, 0.5, -1.0));
    let middle = cam.ray_through(0, 0, v(0.0, 0.0, 0.0));
    assert_eq!(middle.origin(), v(0.0, 0.0, 0.0));
    assert_eq!(middle.direction(), v(-1.5, 0.5, -1.0));
    let last = cam.ray_through(3, 1, v(0.25, -0.5, 0.0));
    assert_eq!(last.direction(), v(1.75, 0.0, -1.0));

    let mut rng = Sequence::of(vec![0.75, 0.0]);
    let jittered = cam.get_ray(3, 1, &mut rng);
    assert_eq!(jittered.origin(), v(0.0, 0.0, 0.0));
    assert_eq!(jittered.direction(), v(1.75, 0.0, -1.0));
    assert_eq!(rng.drawn, 2);
}

#[test]
fn a_ray_bounces_towards_the_normal() {
    let rec = HitRecord {
        front_face: true,
        normal: v(0.0, 0.0, 1.0),
        p: v(0.0, 0.0, -0.5),
        t: Real(0.5),
    };
    let out = bounce(&rec, v(0.25, -0.5, 0.0));
    assert_eq!(out.origin(), v(0.0, 0.0, -0.5));
    assert_eq!(out.direction(), v(0.25, -0.5, 1.0));
}

#[test]
fn no_budget_no_light() {
    let world = two_spheres();
    let empty: HittableList<Real> = HittableList::new();
    let rays = vec![
        Ray::new(v(0.0, 0.0, 0.0), v(0.0, 0.0, -1.0)),
        Ray::new(v(0.0, 0.0, 0.0), v(0.0, 1.0, 0.0)),
        Ray::new(v(3.0, -2.0, 1.0), v(0.0, 0.0, 0.0)),
    ];
    for r in rays {
        for depth in vec![0, -1, i64::MIN] {
            let mut rng = Sequence::of(vec![0.5]);
            assert_eq!(color_estimate(&r, &world, depth, 9, &mut rng), Some(v(0.0, 0.0, 0.0)));
            assert_eq!(color_estimate(&r, &empty, depth, 9, &mut rng), Some(v(0.0, 0.0, 0.0)));
            assert_eq!(rng.drawn, 0);
        }
    }
}

#[test]
fn a_ray_that_hits_nothing_sees_the_sky() {
    let world = two_spheres();
    let up = Ray::new(v(0.0, 0.0, 0.0), v(0.0, 1.0, 0.0));
    let mut rng = Sequence::of(vec![0.5]);
    assert_eq!(color_estimate(&up, &world, 50, 9, &mut rng), Some(v(0.5, 0.7, 1.0)));
    assert_eq!(rng.drawn, 0);
}

#[test]
fn each_bounce_halves_the_light() {
    let mut world = HittableList::new();
    world.objects.push(Box::new(small_sphere()));
    let r = Ray::new(v(0.0, 0.0, 0.0), v(0.0, 0.0, -1.0));
    // the bounce leaves (0, 0, -0.5) along the normal (0, 0, 1) and sees
    // the sky level with the horizon
    let mut rng = Sequence::of(vec![0.5]);
    assert_eq!(color_estimate(&r, &world, 2, 9, &mut rng), Some(v(0.375, 0.425, 0.5)));
    assert_eq!(rng.drawn, 3);
    // with one bounce less the light is cut off
    let mut rng = Sequence::of(vec![0.5]);
    assert_eq!(color_estimate(&r, &world, 1, 9, &mut rng), Some(v(0.0, 0.0, 0.0)));
    assert_eq!(rng.drawn, 3);
}

#[test]
fn no_direction_no_estimate() {
    let world = two_spheres();
    let r = Ray::new(v(0.0, 0.0, 0.0), v(0.0, 0.0, -1.0));
    let mut rng = Sequence::of(vec![0.0]);
    assert_eq!(color_estimate(&r, &world, 5, 3, &mut rng), None);
    assert_eq!(rng.drawn, 9);
}

#[test]
fn surfaces_painted_by_their_normals() {
    let world = two_spheres();
    let r = Ray::new(v(0.0, 0.0, 0.0), v(0.0, 0.0, -1.0));
    assert_eq!(Camera::ray_color(&r, &world), v(0.5, 0.5, 1.0));
    let up = Ray::new(v(0.0, 0.0, 0.0), v(0.0, 1.0, 0.0));
    assert_eq!(Camera::ray_color(&up, &world), v(0.5, 0.7, 1.0));
    let through = Ray::new(v(0.0, 0.0, 0.0), v(0.004444444444444473, 0.0, -1.0));
    assert_eq!(
        Camera::ray_color(&through, &world),
        v(0.502222244170638, 0.5, 0.9999950616064583)
    );
}

#[test]
fn one_pixel_is_the_mean_of_its_samples() {
    let mut cam = Camera::new(Real(1.0), 1, 4);
    cam.initialize();
    let empty: HittableList<Real> = HittableList::new();
    // without jitter each of the four rays looks level: (0.75, 0.85, 1.0)
    let mut rng = Sequence::of(vec![0.5]);
    assert_eq!(cam.sample_pixel(&empty, 0, 0, &mut rng), Some(Vec3::new(192, 217, 255)));
    assert_eq!(rng.drawn, 8);
    cam.samples_per_pixel = 0;
    let mut rng = Sequence::of(vec![0.5]);
    assert!(cam.sample_pixel(&empty, 0, 0, &mut rng).is_some());
    assert_eq!(rng.drawn, 0);
}

#[test]
fn render_writes_row_by_row() {
    let mut cam = Camera::new(Real(1.5), 3, 1);
    let empty: HittableList<Real> = HittableList::new();
    let mut rng = Sequence::of(vec![0.5]);
    let pixels = cam.render(&empty, &mut rng).unwrap();
    assert_eq!(cam.image_height, 2);
    assert_eq!(pixels.len(), 6);
    // the sky is the same along a row and whiter in the lower row
    assert_eq!(pixels[0], pixels[2]);
    assert_eq!(pixels[3], pixels[5]);
    assert!(pixels[0].x < pixels[3].x);
    assert!(pixels[1].x < pixels[4].x);
    let mut alone = cam;
    let mut rng = Sequence::of(vec![0.5]);
    assert_eq!(alone.sample_pixel(&empty, 1, 0, &mut rng), Some(pixels[1]));
    assert_eq!(alone.sample_pixel(&empty, 2, 1, &mut rng), Some(pixels[5]));
}

#[test]
fn render_gives_up_with_its_sampler() {
    let mut cam = Camera::new(Real(1.0), 2, 1);
    cam.max_tries = 2;
    let world = two_spheres();
    let mut rng = Sequence::of(vec![0.0]);
    assert_eq!(cam.render(&world, &mut rng), None);
}

#[test]
fn render_of_no_columns_is_empty() {
    let mut cam = Camera::new(Real(1.0), 0, 1);
    let world = two_spheres();
    let mut rng = Sequence::of(vec![0.5]);
    assert_eq!(cam.render(&world, &mut rng), Some(vec![]));
    assert_eq!(cam.image_height, 1);
}

#[test]
fn two_spheres_end_to_end() {
    let world = two_spheres();
    let mut cam = Camera::new(Real(16.0 / 9.0), 400, 1);
    cam.max_depth = 1;
    // no jitter: every offset is the middle of its range
    let pixels = cam.render(&world, &mut Midpoint).unwrap();
    let mut rng = Sequence::of(vec![0.5]);
    assert_eq!(Some(pixels.clone()), cam.render(&world, &mut rng));
    assert_eq!(cam.image_height, 225);
    assert_eq!(pixels.len(), 400 * 225);

    // the upper left pixel shows the sky
    assert_eq!(pixels[0], Vec3::new(163, 200, 255));
    let corner = cam.ray_through(0, 0, v(0.0, 0.0, 0.0));
    assert_eq!(sky_color(&corner).write_color_aa(1), pixels[0]);
    assert_eq!(Camera::ray_color(&corner, &world).write_color_aa(1), pixels[0]);

    // the ray through the middle of the image hits the small sphere; with
    // one bounce and no more its light is cut off
    let middle = cam.ray_through(200, 112, v(0.0, 0.0, 0.0));
    assert_eq!(middle.direction(), v(0.004444444444444473, 0.0, -1.0));
    assert_eq!(pixels[112 * 400 + 200], Vec3::new(0, 0, 0));
    // painted by its normal, the same spot is 0.5 * (normal + 1)
    let mut rec = marked();
    assert!(world.hit(&middle, forward(), &mut rec));
    let painted = (rec.normal() + v(1.0, 1.0, 1.0)) * Real(0.5);
    assert_eq!(Camera::ray_color(&middle, &world), painted);
    assert_eq!(painted.write_color_aa(1), Vec3::new(128, 128, 255));

    // the lowest row shows the ground sphere
    let low = cam.ray_through(0, 224, v(0.0, 0.0, 0.0));
    let mut rec = marked();
    assert!(world.hit(&low, forward(), &mut rec));
    assert_eq!(pixels[224 * 400], Vec3::new(0, 0, 0));
}

#[test]
fn the_source_without_chance() {
    let mut rng = Midpoint;
    assert_eq!(rng.uniform(Real(0.0), Real(1.0)), Real(0.5));
    assert_eq!(rng.uniform(Real(-1.0), Real(1.0)), Real(0.0));
    assert_eq!(rng.uniform(Real(2.0), Real(10.0)), Real(6.0));
    assert_eq!(Vec3::<Real>::sample_square(&mut rng), v(0.0, 0.0, 0.0));
    assert_eq!(Vec3::<Real>::random(&mut rng), v(0.5, 0.5, 0.5));
    assert_eq!(Vec3::<Real>::random_in_unit_sphere(&mut rng, 1), Some(v(0.0, 0.0, 0.0)));
}

#[test]
fn rendering_without_chance_repeats() {
    let world = two_spheres();
    let mut cam = Camera::new(Real(2.0), 40, 3);
    let first = cam.render(&world, &mut Midpoint).unwrap();
    let second = cam.render(&world, &mut Midpoint).unwrap();
    assert_eq!(first.len(), 40 * 20);
    assert_eq!(first, second);
    // with three equal samples the mean is the sample
    let mut single = Camera::new(Real(2.0), 40, 1);
    let third = single.render(&world, &mut Midpoint).unwrap();
    let mut close = true;
    for k in 0..first.len() {
        close = close
            && (first[k].x - third[k].x).abs() <= 1
            && (first[k].y - third[k].y).abs() <= 1
            && (first[k].z - third[k].z).abs() <= 1;
    }
    assert!(close);
}

#[test]
fn the_viewport_camera() {
    let cam = pinhole::Camera::new(Real(2.0), Real(2.0), Real(1.0), v(0.0, 0.0, 0.0));
    assert_eq!(cam.origin, v(0.0, 0.0, 0.0));
    assert_eq!(cam.horizontal, v(4.0, 0.0, 0.0));
    assert_eq!(cam.vertical, v(0.0, 2.0, 0.0));
    assert_eq!(cam.lower_left_corner, v(-2.0, -1.0, -1.0));
    let corner = cam.get_ray(Real(0.0), Real(0.0));
    assert_eq!(corner.origin(), v(0.0, 0.0, 0.0));
    assert_eq!(corner.direction(), v(-2.0, -1.0, -1.0));
    let middle = cam.get_ray(Real(0.5), Real(0.5));
    assert_eq!(middle.direction(), v(0.0, 0.0, -1.0));
    let moved = pinhole::Camera::new(Real(1.0), Real(2.0), Real(3.0), v(1.0, 1.0, 1.0));
    assert_eq!(moved.lower_left_corner, v(0.0, 0.0, -2.0));
    assert_eq!(moved.get_ray(Real(1.0), Real(1.0)).direction(), v(1.0, 1.0, -3.0));
    assert_eq!(moved.get_ray(Real(1.0), Real(1.0)).origin(), v(1.0, 1.0, 1.0));
}
