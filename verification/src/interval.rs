//! Ranges of scalars.
//!
//! An [`Interval`] bounds the ray parameters that count as a hit, and the
//! values of a colour channel. Nothing asks that `min` be at most `max`: the
//! empty interval has them the other way round.
use vstd::prelude::*;
use vstd::std_specs::ops::SubSpec;
use vstd::std_specs::cmp::{PartialOrdIs, PartialOrdSpec};
use std::ops::Sub;
use crate::scalar::Scalar;

verus! {

/// The range from `min` to `max`.
#[derive(Debug, Clone, Copy, PartialEq)]
pub struct Interval<T> {
    pub min: T,
    pub max: T,
}

impl<T: Scalar> Default for Interval<T> {
    /// The empty interval.
    fn default() -> (r: Self)
        ensures
            T::obeys_scalar_spec() ==> r == Self::empty_spec(),
    {
        Self::empty()
    }
}

impl<T: Scalar> Interval<T> {
    /// The interval from positive to negative infinity, which holds nothing.
    pub open spec fn empty_spec() -> Self {
        Interval { min: T::infinity_spec(), max: T::neg_infinity_spec() }
    }

    /// The interval from negative to positive infinity.
    pub open spec fn universe_spec() -> Self {
        Interval { min: T::neg_infinity_spec(), max: T::infinity_spec() }
    }

    /// The interval that no scalar lies in.
    pub fn empty() -> (r: Self)
        ensures
            T::obeys_scalar_spec() ==> r == Self::empty_spec(),
    {
        Interval { min: T::infinity(), max: T::neg_infinity() }
    }

    /// The interval of all scalars.
    pub fn universe() -> (r: Self)
        ensures
            T::obeys_scalar_spec() ==> r == Self::universe_spec(),
    {
        Interval { min: T::neg_infinity(), max: T::infinity() }
    }
}

impl<T: Copy + PartialOrd> Interval<T> {
    /// `min` where `x` is below it, `max` where `x` is above it, else `x`.
    pub open spec fn clamp_spec(self, x: T) -> T {
        if x.is_lt(&self.min) {
            self.min
        } else if x.is_gt(&self.max) {
            self.max
        } else {
            x
        }
    }

    /// `min <= x <= max`.
    pub open spec fn contains_spec(self, x: T) -> bool {
        x.is_ge(&self.min) && x.is_le(&self.max)
    }

    /// `min < x < max`.
    pub open spec fn surrounds_spec(self, x: T) -> bool {
        self.min.is_lt(&x) && x.is_lt(&self.max)
    }

    /// The interval with the given ends.
    pub fn new(min: T, max: T) -> (r: Self)
        ensures
            r == (Interval { min, max }),
    {
        Interval { min, max }
    }

    /// Moves `x` to the nearer end where it lies outside the interval.
    pub fn clamp(&self, x: T) -> (r: T)
        ensures
            T::obeys_partial_cmp_spec() ==> r == self.clamp_spec(x),
            r == self.min || r == self.max || r == x,
    {
        if x < self.min {
            self.min
        } else if x > self.max {
            self.max
        } else {
            x
        }
    }

    /// Whether `x` lies in the interval, ends included.
    pub fn contains(&self, x: T) -> (r: bool)
        ensures
            T::obeys_partial_cmp_spec() ==> r == self.contains_spec(x),
    {
        x >= self.min && x <= self.max
    }

    /// Whether `x` lies in the interval, ends excluded.
    pub fn surrounds(&self, x: T) -> (r: bool)
        ensures
            T::obeys_partial_cmp_spec() ==> r == self.surrounds_spec(x),
    {
        self.min < x && x < self.max
    }
}

impl<T: Copy + Sub<Output = T>> Interval<T> {
    /// The length of the interval, `max - min`.
    pub fn size(&self) -> (r: T)
        requires
            self.max.sub_req(self.min),
        ensures
            T::obeys_sub_spec() ==> r == self.max.sub_spec(self.min),
    {
        self.max - self.min
    }
}

} // verus!
