//! Spheres, and where a ray meets one.
//!
//! A ray `O + t D` meets the sphere of centre `C` and radius `r` where
//! `|O + t D - C|^2 = r^2`, a quadratic in `t`. With `oc = O - C`,
//! `a = D . D`, `half_b = oc . D` and `c = oc . oc - r^2` its roots are
//! `(-half_b -+ sqrt(half_b^2 - a c)) / a`.
use vstd::prelude::*;
use vstd::std_specs::ops::{AddSpec, DivSpec, MulSpec, NegSpec, SubSpec};
use vstd::std_specs::cmp::PartialOrdIs;
use std::ops::Neg;
use crate::hittable::{HitRecord, Hittable};
use crate::interval::Interval;
use crate::ray::Ray;
use crate::scalar::{exact_arith, one_spec, ratio, ratio_spec, total_arith, zero_spec, Scalar};
use crate::vec3::{Color, Point3, Vec3};
use crate::camera::{sky_color, sky_spec};

verus! {

/// The sphere about `center` with the given radius.
#[derive(Debug, Clone, Copy, PartialEq)]
pub struct Sphere<T> {
    pub center: Point3<T>,
    pub radius: T,
}

/// `D . D` for the ray's direction `D`.
pub open spec fn quadratic_a<T: Scalar>(r: Ray<T>) -> T {
    r.dir.length_squared_spec()
}

/// `(O - C) . D` for the ray `O + t D` and the centre `C`.
pub open spec fn quadratic_half_b<T: Scalar>(center: Point3<T>, r: Ray<T>) -> T {
    r.orig.sub_spec(center).dot_spec(r.dir)
}

/// `(O - C) . (O - C) - radius^2`.
pub open spec fn quadratic_c<T: Scalar>(center: Point3<T>, radius: T, r: Ray<T>) -> T {
    r.orig.sub_spec(center).length_squared_spec().sub_spec(radius.mul_spec(radius))
}

/// `half_b^2 - a c`: negative where the ray's line misses the sphere.
pub open spec fn discriminant_spec<T: Scalar>(center: Point3<T>, radius: T, r: Ray<T>) -> T {
    let half_b = quadratic_half_b(center, r);
    half_b.mul_spec(half_b).sub_spec(quadratic_a(r).mul_spec(quadratic_c(center, radius, r)))
}

/// The smaller root, `(-half_b - sqrt(discriminant)) / a`: where the line
/// enters the sphere.
pub open spec fn near_root_spec<T: Scalar>(center: Point3<T>, radius: T, r: Ray<T>) -> T {
    quadratic_half_b(center, r).neg_spec().sub_spec(
        discriminant_spec(center, radius, r).sqrt_spec(),
    ).div_spec(quadratic_a(r))
}

/// The larger root, `(-half_b + sqrt(discriminant)) / a`: where the line
/// leaves the sphere.
pub open spec fn far_root_spec<T: Scalar>(center: Point3<T>, radius: T, r: Ray<T>) -> T {
    quadratic_half_b(center, r).neg_spec().add_spec(
        discriminant_spec(center, radius, r).sqrt_spec(),
    ).div_spec(quadratic_a(r))
}

/// What the plain intersection test gives: the smaller root, or minus one
/// where the discriminant is negative.
pub open spec fn hit_sphere_spec<T: Scalar>(center: Point3<T>, radius: T, r: Ray<T>) -> T {
    if discriminant_spec(center, radius, r).is_lt(&zero_spec::<T>()) {
        T::from_int_spec(-1i64)
    } else {
        near_root_spec(center, radius, r)
    }
}

/// The parameter at which the line of `r` enters the sphere about `center`,
/// or minus one where it misses the sphere. The parameter may be negative:
/// the sphere then lies behind the ray's origin.
pub fn hit_sphere<T: Scalar>(center: &Point3<T>, radius: T, r: &Ray<T>) -> (t: T)
    requires
        total_arith::<T>(),
    ensures
        exact_arith::<T>() ==> t == hit_sphere_spec(*center, radius, *r),
{
    let oc = r.origin() - *center;
    let a = r.direction().length_squared();
    let half_b = oc.dot(&r.direction());
    let c = oc.length_squared() - radius * radius;
    let discriminant = half_b * half_b - a * c;
    if discriminant < T::from_int(0) {
        T::from_int(-1)
    } else {
        (half_b.neg() - discriminant.sqrt()) / a
    }
}

/// The centre of the sphere that the plain picture shows: one unit in
/// front of the origin.
pub open spec fn picture_center_spec<T: Scalar>() -> Point3<T> {
    Vec3 { x: zero_spec::<T>(), y: zero_spec::<T>(), z: T::from_int_spec(-1i64) }
}

/// The colour along `r` in the plain picture of one sphere, of radius one
/// half about `(0, 0, -1)`, painted by its normals against the sky.
///
/// Where the line of `r` enters the sphere at a parameter `t` above zero,
/// the colour is `(n + 1) * 0.5` for the unit vector `n` from the centre to
/// the point `r(t)`. Elsewhere it is the colour of the sky.
pub open spec fn ray_color_spec<T: Scalar>(r: Ray<T>) -> Color<T> {
    let t = hit_sphere_spec(picture_center_spec::<T>(), ratio_spec::<T>(1, 2), r);
    if t.is_gt(&zero_spec::<T>()) {
        let n = r.at_spec(t).sub_spec(picture_center_spec::<T>()).unit_vector_spec();
        n.add_spec(Vec3::splat(one_spec::<T>())).mul_spec(ratio_spec::<T>(1, 2))
    } else {
        sky_spec(r)
    }
}

/// The colour along `r` in the plain picture of one sphere, of radius one
/// half about `(0, 0, -1)`, painted by its normals against the sky.
pub fn ray_color<T: Scalar>(r: &Ray<T>) -> (c: Color<T>)
    requires
        total_arith::<T>(),
    ensures
        exact_arith::<T>() ==> c == ray_color_spec(*r),
{
    let zero = T::from_int(0);
    let one = T::from_int(1);
    let center = Point3::new(zero, zero, T::from_int(-1));
    let t = hit_sphere(&center, ratio(1, 2), r);
    if t > zero {
        let n = (r.at(t) - center).unit_vector();
        return (n + Color::new(one, one, one)) * ratio::<T>(1, 2);
    }
    sky_color(r)
}

impl<T: Scalar> Sphere<T> {
    /// The parameter of the hit of `r` inside `ray_t`: the smaller root
    /// where `ray_t` surrounds it, else the larger root where `ray_t`
    /// surrounds that, else none; and none where the discriminant is
    /// negative.
    pub open spec fn root_spec(self, r: Ray<T>, ray_t: Interval<T>) -> Option<T> {
        let near = near_root_spec(self.center, self.radius, r);
        let far = far_root_spec(self.center, self.radius, r);
        if discriminant_spec(self.center, self.radius, r).is_lt(&zero_spec::<T>()) {
            None
        } else if ray_t.surrounds_spec(near) {
            Some(near)
        } else if ray_t.surrounds_spec(far) {
            Some(far)
        } else {
            None
        }
    }

    /// The outward normal at the point `p` of the surface: `(p - center) /
    /// radius`.
    pub open spec fn outward_normal_spec(self, p: Point3<T>) -> Vec3<T> {
        p.sub_spec(self.center).div_spec(self.radius)
    }

    /// The record of a hit of `r` at the parameter `t`: the point `r(t)`,
    /// and the outward normal there turned against the ray.
    pub open spec fn record_spec(self, r: Ray<T>, t: T) -> HitRecord<T> {
        let p = r.at_spec(t);
        let outward = self.outward_normal_spec(p);
        let front = HitRecord::<T>::faces_front(r.dir, outward);
        HitRecord {
            front_face: front,
            normal: if front {
                outward
            } else {
                outward.neg_spec()
            },
            p,
            t,
        }
    }

    /// A sphere reports only hits that lie strictly inside the range asked
    /// for.
    pub proof fn lemma_hits_inside(self, r: Ray<T>, ray_t: Interval<T>)
        ensures
            self.hit_spec(r, ray_t) matches Some(rec) ==> ray_t.surrounds_spec(rec.t),
    {
    }

    /// The sphere about `c` with the radius `r`. A radius of zero or below
    /// is taken as it is.
    pub fn new(c: Point3<T>, r: T) -> (s: Self)
        ensures
            s == (Sphere { center: c, radius: r }),
    {
        Sphere { center: c, radius: r }
    }
}

impl<T: Scalar> Hittable<T> for Sphere<T> {
    /// A sphere follows its specification.
    open spec fn obeys_hit_spec(&self) -> bool {
        true
    }

    /// The record at the first root that `ray_t` surrounds.
    open spec fn hit_spec(&self, r: Ray<T>, ray_t: Interval<T>) -> Option<HitRecord<T>> {
        match self.root_spec(r, ray_t) {
            Some(t) => Some(self.record_spec(r, t)),
            None => None,
        }
    }

    /// Solves the quadratic and reports the nearer root that lies strictly
    /// inside `ray_t`. On a miss `rec` stays as it was.
    fn hit(&self, r: &Ray<T>, ray_t: Interval<T>, rec: &mut HitRecord<T>) -> (b: bool)
        ensures
            !b ==> *final(rec) == *old(rec),
    {
        let oc = r.origin() - self.center;
        let a = r.direction().length_squared();
        let half_b = oc.dot(&r.direction());
        let c = oc.length_squared() - self.radius * self.radius;

        let discriminant = half_b * half_b - a * c;
        if discriminant < T::from_int(0) {
            return false;
        }
        let sqrtd = discriminant.sqrt();

        let mut root = (half_b.neg() - sqrtd) / a;
        if !ray_t.surrounds(root) {
            root = (half_b.neg() + sqrtd) / a;
            if !ray_t.surrounds(root) {
                return false;
            }
        }
        rec.t = root;
        rec.p = r.at(rec.t);
        let outward_normal = (rec.point() - self.center) / self.radius;
        rec.set_face_normal(r, &outward_normal);

        true
    }
}

} // verus!
