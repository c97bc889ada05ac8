//! Rays: half-lines from an origin along a direction.
use vstd::prelude::*;
use vstd::std_specs::ops::{AddSpec, MulSpec};
use crate::scalar::{exact_arith, total_arith, Scalar};
use crate::vec3::{Point3, Vec3};

verus! {

/// The ray `orig + t * dir`.
#[derive(Debug, Clone, Copy, PartialEq)]
pub struct Ray<T> {
    pub orig: Point3<T>,
    pub dir: Vec3<T>,
}

impl<T: Scalar> Ray<T> {
    /// The point `orig + dir * t`.
    pub open spec fn at_spec(self, t: T) -> Vec3<T> {
        self.orig.add_spec(self.dir.mul_spec(t))
    }

    /// The ray from `p` along `d`.
    pub fn new(p: Point3<T>, d: Vec3<T>) -> (r: Ray<T>)
        ensures
            r == (Ray { orig: p, dir: d }),
    {
        Ray { orig: p, dir: d }
    }

    /// Where the ray starts.
    pub fn origin(&self) -> (r: Point3<T>)
        ensures
            r == self.orig,
    {
        self.orig
    }

    /// Where the ray points.
    pub fn direction(&self) -> (r: Vec3<T>)
        ensures
            r == self.dir,
    {
        self.dir
    }

    /// The point of the ray at the parameter `t`.
    pub fn at(&self, t: T) -> (r: Vec3<T>)
        requires
            total_arith::<T>(),
        ensures
            exact_arith::<T>() ==> r == self.at_spec(t),
    {
        self.orig + self.dir * t
    }
}

} // verus!
