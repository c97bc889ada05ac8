//! Three-component vectors over a scalar.
//!
//! A [`Vec3`] serves as a direction, as a point in space ([`Point3`]) and as
//! an RGB colour ([`Color`]). The constructors and the component access work
//! for any component type; the arithmetic operators ask only for the operator
//! of the component type; lengths, constants and colour output ask for a
//! [`Scalar`].
use vstd::prelude::*;
use vstd::std_specs::ops::{AddSpec, DivSpec, MulSpec, NegSpec, SubSpec};
use vstd::std_specs::cmp::PartialOrdIs;
use std::ops::{Add, AddAssign, Div, DivAssign, Index, IndexMut, Mul, MulAssign, Neg, Sub, SubAssign};
use crate::scalar::{exact_arith, one_spec, ratio, ratio_spec, total_arith, zero_spec, Scalar};
use crate::interval::Interval;
use crate::random::{exact_random, RandomSource};

verus! {

/// A vector of three components.
#[derive(Debug, Default, Clone, Copy, PartialEq)]
pub struct Vec3<T> {
    pub x: T,
    pub y: T,
    pub z: T,
}

/// A position in space.
pub type Point3<T> = Vec3<T>;

/// A colour: red in `x`, green in `y`, blue in `z`.
pub type Color<T> = Vec3<T>;

impl<T> Vec3<T> {
    /// The component at `i`: 0 is `x`, 1 is `y`, anything else is `z`.
    pub open spec fn component(self, i: int) -> T {
        if i == 0 {
            self.x
        } else if i == 1 {
            self.y
        } else {
            self.z
        }
    }

    /// The vector with the component at `i` replaced by `value`.
    pub open spec fn with_component(self, i: int, value: T) -> Self {
        if i == 0 {
            Vec3 { x: value, y: self.y, z: self.z }
        } else if i == 1 {
            Vec3 { x: self.x, y: value, z: self.z }
        } else {
            Vec3 { x: self.x, y: self.y, z: value }
        }
    }

    /// The vector with the given components.
    pub fn new(xvalue: T, yvalue: T, zvalue: T) -> (r: Vec3<T>)
        ensures
            r == (Vec3 { x: xvalue, y: yvalue, z: zvalue }),
    {
        Vec3 { x: xvalue, y: yvalue, z: zvalue }
    }
}

impl<T: Copy> Vec3<T> {
    /// The vector whose three components all equal `value`.
    pub open spec fn splat(value: T) -> Self {
        Vec3 { x: value, y: value, z: value }
    }

    /// The vector whose three components all equal `value`.
    pub fn from_float(value: T) -> (r: Vec3<T>)
        ensures
            r == Self::splat(value),
    {
        Vec3 { x: value, y: value, z: value }
    }
}

impl<T> From<(T, T, T)> for Vec3<T> {
    fn from(t: (T, T, T)) -> (r: Vec3<T>)
    {
        Vec3 { x: t.0, y: t.1, z: t.2 }
    }
}

impl<T> vstd::std_specs::convert::FromSpecImpl<(T, T, T)> for Vec3<T> {
    open spec fn obeys_from_spec() -> bool {
        true
    }

    open spec fn from_spec(t: (T, T, T)) -> Vec3<T> {
        Vec3 { x: t.0, y: t.1, z: t.2 }
    }
}

impl<T> Index<usize> for Vec3<T> {
    type Output = T;

    /// The component at `i`: 0 is `x`, 1 is `y`, 2 is `z`. There is no
    /// other index, and code that is not verified stops here with one.
    fn index(&self, i: usize) -> (r: &T)
        ensures
            *r == self.component(i as int),
    {
        if i == 0 {
            &self.x
        } else if i == 1 {
            &self.y
        } else if i == 2 {
            &self.z
        } else {
            vstd::pervasive::unreached()
        }
    }
}

impl<T> vstd::std_specs::core::IndexSpecImpl<usize> for Vec3<T> {
    open spec fn index_req(&self, i: &usize) -> bool {
        *i < 3
    }
}

impl<T> IndexMut<usize> for Vec3<T> {
    /// The component at `i`, to be written through: 0 is `x`, 1 is `y`,
    /// 2 is `z`. There is no other index, and code that is not verified
    /// stops here with one.
    fn index_mut(&mut self, i: usize) -> (r: &mut T)
        requires
            i < 3,
        ensures
            *r == old(self).component(i as int),
            *final(self) == old(self).with_component(i as int, *final(r)),
    {
        if i == 0 {
            &mut self.x
        } else if i == 1 {
            &mut self.y
        } else if i == 2 {
            &mut self.z
        } else {
            vstd::pervasive::unreached()
        }
    }
}


impl<T: Copy + Add<Output = T>> Add for Vec3<T> {
    type Output = Vec3<T>;

    /// The sum of two vectors, component by component.
    fn add(self, other: Vec3<T>) -> (r: Vec3<T>)
    {
        Vec3 { x: self.x + other.x, y: self.y + other.y, z: self.z + other.z }
    }
}

impl<T: Copy + Add<Output = T>> vstd::std_specs::ops::AddSpecImpl for Vec3<T> {
    open spec fn obeys_add_spec() -> bool {
        T::obeys_add_spec()
    }

    open spec fn add_req(self, other: Vec3<T>) -> bool {
        &&& self.x.add_req(other.x)
        &&& self.y.add_req(other.y)
        &&& self.z.add_req(other.z)
    }

    open spec fn add_spec(self, other: Vec3<T>) -> Vec3<T> {
        Vec3 {
            x: self.x.add_spec(other.x),
            y: self.y.add_spec(other.y),
            z: self.z.add_spec(other.z),
        }
    }
}

impl<T: Copy + Add<Output = T>> Add<T> for Vec3<T> {
    type Output = Vec3<T>;

    /// The sum of each component and one scalar.
    fn add(self, other: T) -> (r: Vec3<T>)
    {
        Vec3 { x: self.x + other, y: self.y + other, z: self.z + other }
    }
}

impl<T: Copy + Add<Output = T>> vstd::std_specs::ops::AddSpecImpl<T> for Vec3<T> {
    open spec fn obeys_add_spec() -> bool {
        T::obeys_add_spec()
    }

    open spec fn add_req(self, other: T) -> bool {
        &&& self.x.add_req(other)
        &&& self.y.add_req(other)
        &&& self.z.add_req(other)
    }

    open spec fn add_spec(self, other: T) -> Vec3<T> {
        Vec3 { x: self.x.add_spec(other), y: self.y.add_spec(other), z: self.z.add_spec(other) }
    }
}

impl<T: Copy + Add<Output = T>> AddAssign for Vec3<T> {
    /// Replaces the vector by its sum with `other`, component by component.
    fn add_assign(&mut self, other: Vec3<T>)
        requires
            old(self).add_req(other),
        ensures
            T::obeys_add_spec() ==> *final(self) == old(self).add_spec(other),
    {
        *self = *self + other;
    }
}

impl<T: Copy + Add<Output = T>> AddAssign<T> for Vec3<T> {
    /// Replaces each component by its sum with the scalar `other`.
    fn add_assign(&mut self, other: T)
        requires
            old(self).add_req(other),
        ensures
            T::obeys_add_spec() ==> *final(self) == old(self).add_spec(other),
    {
        *self = *self + other;
    }
}

impl<T: Copy + Sub<Output = T>> Sub for Vec3<T> {
    type Output = Vec3<T>;

    /// The difference of two vectors, component by component.
    fn sub(self, other: Vec3<T>) -> (r: Vec3<T>)
    {
        Vec3 { x: self.x - other.x, y: self.y - other.y, z: self.z - other.z }
    }
}

impl<T: Copy + Sub<Output = T>> vstd::std_specs::ops::SubSpecImpl for Vec3<T> {
    open spec fn obeys_sub_spec() -> bool {
        T::obeys_sub_spec()
    }

    open spec fn sub_req(self, other: Vec3<T>) -> bool {
        &&& self.x.sub_req(other.x)
        &&& self.y.sub_req(other.y)
        &&& self.z.sub_req(other.z)
    }

    open spec fn sub_spec(self, other: Vec3<T>) -> Vec3<T> {
        Vec3 {
            x: self.x.sub_spec(other.x),
            y: self.y.sub_spec(other.y),
            z: self.z.sub_spec(other.z),
        }
    }
}

impl<T: Copy + Sub<Output = T>> Sub<T> for Vec3<T> {
    type Output = Vec3<T>;

    /// The difference of each component and one scalar.
    fn sub(self, other: T) -> (r: Vec3<T>)
    {
        Vec3 { x: self.x - other, y: self.y - other, z: self.z - other }
    }
}

impl<T: Copy + Sub<Output = T>> vstd::std_specs::ops::SubSpecImpl<T> for Vec3<T> {
    open spec fn obeys_sub_spec() -> bool {
        T::obeys_sub_spec()
    }

    open spec fn sub_req(self, other: T) -> bool {
        &&& self.x.sub_req(other)
        &&& self.y.sub_req(other)
        &&& self.z.sub_req(other)
    }

    open spec fn sub_spec(self, other: T) -> Vec3<T> {
        Vec3 { x: self.x.sub_spec(other), y: self.y.sub_spec(other), z: self.z.sub_spec(other) }
    }
}

impl<T: Copy + Sub<Output = T>> SubAssign for Vec3<T> {
    /// Replaces the vector by its difference with `other`, component by component.
    fn sub_assign(&mut self, other: Vec3<T>)
        requires
            old(self).sub_req(other),
        ensures
            T::obeys_sub_spec() ==> *final(self) == old(self).sub_spec(other),
    {
        *self = *self - other;
    }
}

impl<T: Copy + Sub<Output = T>> SubAssign<T> for Vec3<T> {
    /// Replaces each component by its difference with the scalar `other`.
    fn sub_assign(&mut self, other: T)
        requires
            old(self).sub_req(other),
        ensures
            T::obeys_sub_spec() ==> *final(self) == old(self).sub_spec(other),
    {
        *self = *self - other;
    }
}

impl<T: Copy + Mul<Output = T>> Mul for Vec3<T> {
    type Output = Vec3<T>;

    /// The product of two vectors, component by component.
    fn mul(self, other: Vec3<T>) -> (r: Vec3<T>)
    {
        Vec3 { x: self.x * other.x, y: self.y * other.y, z: self.z * other.z }
    }
}

impl<T: Copy + Mul<Output = T>> vstd::std_specs::ops::MulSpecImpl for Vec3<T> {
    open spec fn obeys_mul_spec() -> bool {
        T::obeys_mul_spec()
    }

    open spec fn mul_req(self, other: Vec3<T>) -> bool {
        &&& self.x.mul_req(other.x)
        &&& self.y.mul_req(other.y)
        &&& self.z.mul_req(other.z)
    }

    open spec fn mul_spec(self, other: Vec3<T>) -> Vec3<T> {
        Vec3 {
            x: self.x.mul_spec(other.x),
            y: self.y.mul_spec(other.y),
            z: self.z.mul_spec(other.z),
        }
    }
}

impl<T: Copy + Mul<Output = T>> Mul<T> for Vec3<T> {
    type Output = Vec3<T>;

    /// The product of each component and one scalar.
    fn mul(self, other: T) -> (r: Vec3<T>)
    {
        Vec3 { x: self.x * other, y: self.y * other, z: self.z * other }
    }
}

impl<T: Copy + Mul<Output = T>> vstd::std_specs::ops::MulSpecImpl<T> for Vec3<T> {
    open spec fn obeys_mul_spec() -> bool {
        T::obeys_mul_spec()
    }

    open spec fn mul_req(self, other: T) -> bool {
        &&& self.x.mul_req(other)
        &&& self.y.mul_req(other)
        &&& self.z.mul_req(other)
    }

    open spec fn mul_spec(self, other: T) -> Vec3<T> {
        Vec3 { x: self.x.mul_spec(other), y: self.y.mul_spec(other), z: self.z.mul_spec(other) }
    }
}

impl<T: Copy + Mul<Output = T>> MulAssign for Vec3<T> {
    /// Replaces the vector by its product with `other`, component by component.
    fn mul_assign(&mut self, other: Vec3<T>)
        requires
            old(self).mul_req(other),
        ensures
            T::obeys_mul_spec() ==> *final(self) == old(self).mul_spec(other),
    {
        *self = *self * other;
    }
}

impl<T: Copy + Mul<Output = T>> MulAssign<T> for Vec3<T> {
    /// Replaces each component by its product with the scalar `other`.
    fn mul_assign(&mut self, other: T)
        requires
            old(self).mul_req(other),
        ensures
            T::obeys_mul_spec() ==> *final(self) == old(self).mul_spec(other),
    {
        *self = *self * other;
    }
}

impl<T: Copy + Div<Output = T>> Div for Vec3<T> {
    type Output = Vec3<T>;

    /// The quotient of two vectors, component by component.
    fn div(self, other: Vec3<T>) -> (r: Vec3<T>)
    {
        Vec3 { x: self.x / other.x, y: self.y / other.y, z: self.z / other.z }
    }
}

impl<T: Copy + Div<Output = T>> vstd::std_specs::ops::DivSpecImpl for Vec3<T> {
    open spec fn obeys_div_spec() -> bool {
        T::obeys_div_spec()
    }

    open spec fn div_req(self, other: Vec3<T>) -> bool {
        &&& self.x.div_req(other.x)
        &&& self.y.div_req(other.y)
        &&& self.z.div_req(other.z)
    }

    open spec fn div_spec(self, other: Vec3<T>) -> Vec3<T> {
        Vec3 {
            x: self.x.div_spec(other.x),
            y: self.y.div_spec(other.y),
            z: self.z.div_spec(other.z),
        }
    }
}

impl<T: Copy + Div<Output = T>> Div<T> for Vec3<T> {
    type Output = Vec3<T>;

    /// The quotient of each component and one scalar.
    fn div(self, other: T) -> (r: Vec3<T>)
    {
        Vec3 { x: self.x / other, y: self.y / other, z: self.z / other }
    }
}

impl<T: Copy + Div<Output = T>> vstd::std_specs::ops::DivSpecImpl<T> for Vec3<T> {
    open spec fn obeys_div_spec() -> bool {
        T::obeys_div_spec()
    }

    open spec fn div_req(self, other: T) -> bool {
        &&& self.x.div_req(other)
        &&& self.y.div_req(other)
        &&& self.z.div_req(other)
    }

    open spec fn div_spec(self, other: T) -> Vec3<T> {
        Vec3 { x: self.x.div_spec(other), y: self.y.div_spec(other), z: self.z.div_spec(other) }
    }
}

impl<T: Copy + Div<Output = T>> DivAssign for Vec3<T> {
    /// Replaces the vector by its quotient with `other`, component by component.
    fn div_assign(&mut self, other: Vec3<T>)
        requires
            old(self).div_req(other),
        ensures
            T::obeys_div_spec() ==> *final(self) == old(self).div_spec(other),
    {
        *self = *self / other;
    }
}

impl<T: Copy + Div<Output = T>> DivAssign<T> for Vec3<T> {
    /// Replaces each component by its quotient with the scalar `other`.
    fn div_assign(&mut self, other: T)
        requires
            old(self).div_req(other),
        ensures
            T::obeys_div_spec() ==> *final(self) == old(self).div_spec(other),
    {
        *self = *self / other;
    }
}

impl<T: Copy + Neg<Output = T>> Neg for Vec3<T> {
    type Output = Vec3<T>;

    /// The vector with each component negated.
    fn neg(self) -> (r: Vec3<T>)
    {
        Vec3 { x: self.x.neg(), y: self.y.neg(), z: self.z.neg() }
    }
}

impl<T: Copy + Neg<Output = T>> vstd::std_specs::ops::NegSpecImpl for Vec3<T> {
    open spec fn obeys_neg_spec() -> bool {
        T::obeys_neg_spec()
    }

    open spec fn neg_req(self) -> bool {
        &&& self.x.neg_req()
        &&& self.y.neg_req()
        &&& self.z.neg_req()
    }

    open spec fn neg_spec(self) -> Vec3<T> {
        Vec3 { x: self.x.neg_spec(), y: self.y.neg_spec(), z: self.z.neg_spec() }
    }
}


/// The integer `v` brought into the range of `i32`.
pub open spec fn saturate_spec(v: i64) -> i32 {
    if v < i32::MIN {
        i32::MIN
    } else if v > i32::MAX {
        i32::MAX
    } else {
        v as i32
    }
}

/// Brings an integer into the range of `i32`: values beyond an end become
/// that end.
pub fn saturate(v: i64) -> (r: i32)
    ensures
        r == saturate_spec(v),
{
    if v < -2147483648 {
        -2147483648
    } else if v > 2147483647 {
        2147483647
    } else {
        v as i32
    }
}

/// The integer `v` brought into the range of a colour channel, from 0 to
/// 255.
pub open spec fn channel_clip_spec(v: i64) -> i32 {
    if v < 0 {
        0
    } else if v > 255 {
        255
    } else {
        v as i32
    }
}

/// Brings an integer into the range of a colour channel: what lies below 0
/// becomes 0, what lies above 255 becomes 255.
pub fn channel_clip(v: i64) -> (r: i32)
    ensures
        r == channel_clip_spec(v),
        0 <= r <= 255,
{
    if v < 0 {
        0
    } else if v > 255 {
        255
    } else {
        v as i32
    }
}

/// Whether each of the three channels lies between 0 and 255.
pub open spec fn is_pixel(channels: Vec3<i32>) -> bool {
    &&& 0 <= channels.x <= 255
    &&& 0 <= channels.y <= 255
    &&& 0 <= channels.z <= 255
}

/// The interval that a colour channel is brought into before it is turned
/// into an integer: from zero to 0.999.
pub open spec fn channel_range_spec<T: Scalar>() -> Interval<T> {
    Interval { min: zero_spec::<T>(), max: ratio_spec::<T>(999, 1000) }
}

/// The integer written for the channel value `c`: `255.999 * c`, cut to an
/// integer.
pub open spec fn channel_spec<T: Scalar>(c: T) -> i32 {
    saturate_spec(ratio_spec::<T>(255999, 1000).mul_spec(c).to_int_spec())
}

/// The integer written for a channel that holds the sum `c` of `samples`
/// samples: the mean `c * (1 / samples)`, brought into `[0, 0.999]`, times
/// 256, cut to an integer between 0 and 255.
pub open spec fn channel_aa_spec<T: Scalar>(c: T, samples: i64) -> i32 {
    let scale = one_spec::<T>().div_spec(T::from_int_spec(samples));
    let mean = c.mul_spec(scale);
    channel_clip_spec(
        T::from_int_spec(256).mul_spec(channel_range_spec::<T>().clamp_spec(mean)).to_int_spec(),
    )
}

impl<T: Scalar> Vec3<T> {
    /// The vector of three zeros.
    pub open spec fn zero_spec() -> Self {
        Self::splat(zero_spec::<T>())
    }

    /// The vector of three ones.
    pub open spec fn one_spec() -> Self {
        Self::splat(one_spec::<T>())
    }

    /// `x * v.x + y * v.y + z * v.z`, summed from the left.
    pub open spec fn dot_spec(self, v: Self) -> T {
        self.x.mul_spec(v.x).add_spec(self.y.mul_spec(v.y)).add_spec(self.z.mul_spec(v.z))
    }

    /// The dot product of the vector with itself.
    pub open spec fn length_squared_spec(self) -> T {
        self.dot_spec(self)
    }

    /// The square root of the squared length.
    pub open spec fn length_spec(self) -> T {
        self.length_squared_spec().sqrt_spec()
    }

    /// The cross product `u x v`.
    pub open spec fn cross_spec(u: Self, v: Self) -> Self {
        Vec3 {
            x: u.y.mul_spec(v.z).sub_spec(u.z.mul_spec(v.y)),
            y: u.z.mul_spec(v.x).sub_spec(u.x.mul_spec(v.z)),
            z: u.x.mul_spec(v.y).sub_spec(u.y.mul_spec(v.x)),
        }
    }

    /// The vector divided by its length.
    pub open spec fn unit_vector_spec(self) -> Self {
        self.div_spec(self.length_spec())
    }

    /// The three channels as written for a single sample.
    pub open spec fn write_color_spec(self) -> Vec3<i32> {
        Vec3 { x: channel_spec(self.x), y: channel_spec(self.y), z: channel_spec(self.z) }
    }

    /// The three channels as written for a sum of `samples` samples.
    pub open spec fn write_color_aa_spec(self, samples: i64) -> Vec3<i32> {
        Vec3 {
            x: channel_aa_spec(self.x, samples),
            y: channel_aa_spec(self.y, samples),
            z: channel_aa_spec(self.z, samples),
        }
    }

    /// Whether the squared length is below one.
    pub open spec fn in_unit_sphere_spec(self) -> bool {
        self.length_squared_spec().is_lt(&one_spec::<T>())
    }

    /// The vector of three zeros.
    pub fn zero() -> (r: Vec3<T>)
        ensures
            exact_arith::<T>() ==> r == Self::zero_spec(),
    {
        Vec3 { x: T::from_int(0), y: T::from_int(0), z: T::from_int(0) }
    }

    /// The vector of three ones.
    pub fn one() -> (r: Vec3<T>)
        ensures
            exact_arith::<T>() ==> r == Self::one_spec(),
    {
        Vec3 { x: T::from_int(1), y: T::from_int(1), z: T::from_int(1) }
    }

    /// The square of the vector's length.
    pub fn length_squared(self) -> (r: T)
        requires
            total_arith::<T>(),
        ensures
            exact_arith::<T>() ==> r == self.length_squared_spec(),
    {
        self.x * self.x + self.y * self.y + self.z * self.z
    }

    /// The vector's length.
    pub fn length(self) -> (r: T)
        requires
            total_arith::<T>(),
        ensures
            exact_arith::<T>() ==> r == self.length_spec(),
    {
        let result = self.length_squared();
        result.sqrt()
    }

    /// The dot product with `v`.
    pub fn dot(&self, v: &Vec3<T>) -> (r: T)
        requires
            total_arith::<T>(),
        ensures
            exact_arith::<T>() ==> r == self.dot_spec(*v),
    {
        self.x * v.x + self.y * v.y + self.z * v.z
    }

    /// The cross product `u x v`.
    pub fn cross(u: &Vec3<T>, v: &Vec3<T>) -> (r: Vec3<T>)
        requires
            total_arith::<T>(),
        ensures
            exact_arith::<T>() ==> r == Self::cross_spec(*u, *v),
    {
        Vec3 {
            x: u.y * v.z - u.z * v.y,
            y: u.z * v.x - u.x * v.z,
            z: u.x * v.y - u.y * v.x,
        }
    }

    /// The vector scaled to length one. A vector of length zero is divided
    /// by zero, and what the scalar makes of that comes out.
    pub fn unit_vector(self) -> (r: Vec3<T>)
        requires
            total_arith::<T>(),
        ensures
            exact_arith::<T>() ==> r == self.unit_vector_spec(),
    {
        self / self.length()
    }

    /// The integer value of each channel of a colour whose channels lie
    /// between zero and one: `255.999` times the channel, cut to an integer.
    pub fn write_color(&self) -> (r: Vec3<i32>)
        requires
            total_arith::<T>(),
        ensures
            exact_arith::<T>() ==> r == self.write_color_spec(),
    {
        let scale: T = ratio(255999, 1000);
        let ir: i32 = saturate((scale * self.x).to_int());
        let ig: i32 = saturate((scale * self.y).to_int());
        let ib: i32 = saturate((scale * self.z).to_int());
        Vec3 { x: ir, y: ig, z: ib }
    }

    /// The integer value of each channel of a colour that holds the sum of
    /// `samples_per_pixel` samples: the mean of the samples, brought into
    /// `[0, 0.999]`, times 256, cut to an integer.
    ///
    /// Each channel lies between 0 and 255. With a floating-point scalar
    /// the product is never outside that range; the last cut makes it hold
    /// of every scalar.
    pub fn write_color_aa(&self, samples_per_pixel: i64) -> (r: Vec3<i32>)
        requires
            total_arith::<T>(),
        ensures
            exact_arith::<T>() ==> r == self.write_color_aa_spec(samples_per_pixel),
            is_pixel(r),
    {
        let scale = T::from_int(1) / T::from_int(samples_per_pixel);
        let range: Interval<T> = Interval::new(T::from_int(0), ratio(999, 1000));
        let full = T::from_int(256);
        let ir: i32 = channel_clip((full * range.clamp(self.x * scale)).to_int());
        let ig: i32 = channel_clip((full * range.clamp(self.y * scale)).to_int());
        let ib: i32 = channel_clip((full * range.clamp(self.z * scale)).to_int());
        Vec3 { x: ir, y: ig, z: ib }
    }

    /// Whether the vector lies strictly inside the sphere of radius one
    /// about the origin.
    pub fn in_unit_sphere(&self) -> (r: bool)
        requires
            total_arith::<T>(),
        ensures
            exact_arith::<T>() ==> r == self.in_unit_sphere_spec(),
    {
        self.length_squared() < T::from_int(1)
    }
}


impl<T: Scalar> Vec3<T> {
    /// Three scalars drawn one after the other from `[min, max)`, as `x`,
    /// `y` and `z`, and the source after the third draw.
    pub open spec fn random_range_spec<R: RandomSource<T>>(rng: R, min: T, max: T) -> (Self, R) {
        let (x, after_x) = rng.draw_spec(min, max);
        let (y, after_y) = after_x.draw_spec(min, max);
        let (z, after_z) = after_y.draw_spec(min, max);
        (Vec3 { x, y, z }, after_z)
    }

    /// Three scalars drawn from `[0, 1)`.
    pub open spec fn random_spec<R: RandomSource<T>>(rng: R) -> (Self, R) {
        Self::random_range_spec(rng, zero_spec::<T>(), one_spec::<T>())
    }

    /// The first of at most `tries` vectors drawn from the cube `[-1, 1)^3`
    /// that lies inside the unit sphere, and the source after that draw;
    /// `None` where all of them lie outside.
    pub open spec fn random_in_unit_sphere_spec<R: RandomSource<T>>(rng: R, tries: nat) -> (
        Option<Self>,
        R,
    )
        decreases tries,
    {
        if tries == 0 {
            (None, rng)
        } else {
            let (point, after) = Self::random_range_spec(
                rng,
                T::from_int_spec(-1i64),
                T::from_int_spec(1),
            );
            if point.in_unit_sphere_spec() {
                (Some(point), after)
            } else {
                Self::random_in_unit_sphere_spec(after, (tries - 1) as nat)
            }
        }
    }

    /// A vector with each component drawn from `[0, 1)`.
    pub fn random<R: RandomSource<T>>(rng: &mut R) -> (r: Self)
        requires
            total_arith::<T>(),
        ensures
            exact_random::<T, R>() ==> (r, *final(rng)) == Self::random_spec(*old(rng)),
    {
        let low = T::from_int(0);
        let high = T::from_int(1);
        Self::random_range(rng, low, high)
    }

    /// A vector with each component drawn from `[min, max)`.
    pub fn random_range<R: RandomSource<T>>(rng: &mut R, min: T, max: T) -> (r: Self)
        requires
            total_arith::<T>(),
        ensures
            R::obeys_random_spec() ==> (r, *final(rng)) == Self::random_range_spec(
                *old(rng),
                min,
                max,
            ),
    {
        let randx = rng.uniform(min, max);
        let randy = rng.uniform(min, max);
        let randz = rng.uniform(min, max);
        Vec3 { x: randx, y: randy, z: randz }
    }

    /// A point inside the unit sphere, found by rejection: draws vectors
    /// from the cube `[-1, 1)^3` until one has a squared length below one,
    /// and gives up with `None` after `tries` draws.
    pub fn random_in_unit_sphere<R: RandomSource<T>>(rng: &mut R, tries: u64) -> (r: Option<Self>)
        requires
            total_arith::<T>(),
        ensures
            exact_random::<T, R>() ==> (r, *final(rng)) == Self::random_in_unit_sphere_spec(
                *old(rng),
                tries as nat,
            ),
            exact_arith::<T>() ==> (r matches Some(point) ==> point.in_unit_sphere_spec()),
            tries == 0 ==> r.is_none(),
    {
        let low = T::from_int(-1);
        let high = T::from_int(1);
        let mut left: u64 = tries;
        while left > 0
            invariant
                left <= tries,
                total_arith::<T>(),
                exact_arith::<T>() ==> low == T::from_int_spec(-1i64) && high == T::from_int_spec(1),
                exact_random::<T, R>() ==> Self::random_in_unit_sphere_spec(*rng, left as nat)
                    == Self::random_in_unit_sphere_spec(*old(rng), tries as nat),
            decreases left,
        {
            let point = Self::random_range(rng, low, high);
            if point.in_unit_sphere() {
                return Some(point);
            }
            left = left - 1;
        }
        None
    }
}


impl<T: Scalar> Vec3<T> {
    /// A point of the square about the origin with sides of length one:
    /// `x` and `y` drawn from `[-0.5, 0.5)`, `z` zero.
    pub open spec fn sample_square_spec<R: RandomSource<T>>(rng: R) -> (Self, R) {
        let low = ratio_spec::<T>(-1i64, 2);
        let high = ratio_spec::<T>(1, 2);
        let (x, after_x) = rng.draw_spec(low, high);
        let (y, after_y) = after_x.draw_spec(low, high);
        (Vec3 { x, y, z: zero_spec::<T>() }, after_y)
    }

    /// A random point of the square about the origin with sides of length
    /// one, in the plane `z = 0`.
    pub fn sample_square<R: RandomSource<T>>(rng: &mut R) -> (r: Self)
        requires
            total_arith::<T>(),
        ensures
            exact_random::<T, R>() ==> (r, *final(rng)) == Self::sample_square_spec(*old(rng)),
    {
        let low: T = ratio(-1, 2);
        let high: T = ratio(1, 2);
        let x = rng.uniform(low, high);
        let y = rng.uniform(low, high);
        Vec3 { x, y, z: T::from_int(0) }
    }
}

impl<T: Scalar> Vec3<T> {
    /// The sum of two vectors does not depend on their order, where the
    /// sum of two scalars does not.
    pub proof fn lemma_add_commutes(a: Self, b: Self)
        requires
            forall|x: T, y: T| #[trigger] x.add_spec(y) == y.add_spec(x),
        ensures
            a.add_spec(b) == b.add_spec(a),
    {
    }

    /// Adding a vector and taking it away again gives the first vector
    /// back, where that holds of scalars.
    pub proof fn lemma_add_then_sub(a: Self, b: Self)
        requires
            forall|x: T, y: T| (#[trigger] x.add_spec(y)).sub_spec(y) == x,
        ensures
            a.add_spec(b).sub_spec(b) == a,
    {
    }

    /// The dot product does not depend on the order of the vectors, where
    /// the product of two scalars does not.
    pub proof fn lemma_dot_symmetric(a: Self, b: Self)
        requires
            forall|x: T, y: T| #[trigger] x.mul_spec(y) == y.mul_spec(x),
        ensures
            a.dot_spec(b) == b.dot_spec(a),
    {
    }
}

} // verus!
