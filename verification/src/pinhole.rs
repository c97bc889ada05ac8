//! A camera described by its viewport alone.
//!
//! This camera knows nothing of pixels: it is given the viewport's size and
//! distance, and sends a ray to the point of the viewport at the fractions
//! `u` and `v` of its width and height, counted from its lower left corner.
use vstd::prelude::*;
use vstd::std_specs::ops::{AddSpec, DivSpec, MulSpec, SubSpec};
use crate::ray::Ray;
use crate::scalar::{exact_arith, total_arith, zero_spec, Scalar};
use crate::vec3::{Point3, Vec3};

verus! {

/// A camera at `origin` that looks at a viewport spanned by `horizontal`
/// and `vertical` from `lower_left_corner`.
#[derive(Debug, Clone, Copy, PartialEq)]
pub struct Camera<T> {
    pub origin: Point3<T>,
    pub lower_left_corner: Point3<T>,
    pub horizontal: Vec3<T>,
    pub vertical: Vec3<T>,
}

impl<T: Scalar> Camera<T> {
    /// The camera at `origin` with a viewport `viewport_height` high and
    /// `aspect_ratio * viewport_height` wide, `focal_length` away along
    /// the negative `z` axis and centred on it.
    pub open spec fn new_spec(
        aspect_ratio: T,
        viewport_height: T,
        focal_length: T,
        origin: Point3<T>,
    ) -> Self {
        let two = T::from_int_spec(2);
        let viewport_width = aspect_ratio.mul_spec(viewport_height);
        let horizontal = Vec3 { x: viewport_width, y: zero_spec::<T>(), z: zero_spec::<T>() };
        let vertical = Vec3 { x: zero_spec::<T>(), y: viewport_height, z: zero_spec::<T>() };
        let distance = Vec3 { x: zero_spec::<T>(), y: zero_spec::<T>(), z: focal_length };
        Camera {
            origin,
            lower_left_corner: origin.sub_spec(horizontal.div_spec(two)).sub_spec(
                vertical.div_spec(two),
            ).sub_spec(distance),
            horizontal,
            vertical,
        }
    }

    /// The ray from the origin to the point
    /// `lower_left_corner + horizontal * u + vertical * v`.
    pub open spec fn get_ray_spec(self, u: T, v: T) -> Ray<T> {
        Ray {
            orig: self.origin,
            dir: self.lower_left_corner.add_spec(self.horizontal.mul_spec(u)).add_spec(
                self.vertical.mul_spec(v),
            ).sub_spec(self.origin),
        }
    }

    /// The camera at `origin` for a viewport of the given height and
    /// aspect ratio at the distance `focal_length`.
    pub fn new(aspect_ratio: T, viewport_height: T, focal_length: T, origin: Point3<T>) -> (r: Self)
        requires
            total_arith::<T>(),
        ensures
            exact_arith::<T>() ==> r == Self::new_spec(
                aspect_ratio,
                viewport_height,
                focal_length,
                origin,
            ),
            r.origin == origin,
    {
        let zero = T::from_int(0);
        let two = T::from_int(2);
        let viewport_width = aspect_ratio * viewport_height;
        let horizontal = Vec3 { x: viewport_width, y: zero, z: zero };
        let vertical = Vec3 { x: zero, y: viewport_height, z: zero };
        let distance = Vec3 { x: zero, y: zero, z: focal_length };
        let lower_left_corner = origin - horizontal / two - vertical / two - distance;

        Camera { origin, lower_left_corner, horizontal, vertical }
    }

    /// The ray to the point of the viewport at the fraction `u` of its
    /// width and `v` of its height.
    pub fn get_ray(&self, u: T, v: T) -> (r: Ray<T>)
        requires
            total_arith::<T>(),
        ensures
            exact_arith::<T>() ==> r == self.get_ray_spec(u, v),
            r.orig == self.origin,
    {
        let direction = self.lower_left_corner + self.horizontal * u + self.vertical * v
            - self.origin;
        Ray::new(self.origin, direction)
    }
}

} // verus!
