//! A small ray tracer: vectors, rays, spheres, a list of surfaces that
//! reports the nearest hit, and a camera that samples them into pixels.
//!
//! The crate computes over any number type that implements
//! [`scalar::Scalar`], and draws its random numbers from any
//! [`random::RandomSource`]. It writes nothing: [`camera::Camera::render`]
//! hands back the integer channels of the pixels in the order in which an
//! image file lists them.
pub mod scalar;
pub mod interval;
pub mod random;
pub mod vec3;
pub mod ray;
pub mod hittable;
pub mod sphere;
pub mod camera;
pub mod pinhole;
