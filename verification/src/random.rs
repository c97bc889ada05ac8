//! The source of random scalars.
//!
//! The renderer draws its sample offsets and its bounce directions from a
//! source that the caller hands in. To verified code a source is a state and a
//! function from state and range to the scalar drawn and the next state: a
//! seeded generator or a fixed sequence is one. A source that asks the
//! machine for entropy declares nothing, and the contracts then speak only of
//! what holds of every draw.
use vstd::prelude::*;
use vstd::std_specs::ops::{AddSpec, MulSpec, SubSpec};
use crate::scalar::{exact_arith, ratio, ratio_spec, total_arith, Scalar};

verus! {

/// A source of scalars drawn uniformly from a range.
pub trait RandomSource<T: Scalar>: Sized {
    /// Whether `uniform` follows `draw_spec`.
    open spec fn obeys_random_spec() -> bool {
        false
    }

    /// The scalar drawn from `[min, max)` in this state, and the state after
    /// the draw.
    open spec fn draw_spec(self, min: T, max: T) -> (T, Self) {
        arbitrary()
    }

    /// Draws a scalar from `[min, max)`.
    fn uniform(&mut self, min: T, max: T) -> (r: T)
        requires
            total_arith::<T>(),
        ensures
            Self::obeys_random_spec() ==> (r, *final(self)) == old(self).draw_spec(min, max),
    ;
}

/// The scalar's operations and the source's draws all return what their
/// specification functions say.
pub open spec fn exact_random<T: Scalar, R: RandomSource<T>>() -> bool {
    exact_arith::<T>() && R::obeys_random_spec()
}

/// The source without chance: every draw is the middle of its range.
///
/// A camera that samples from it sends each ray through the centre of its
/// pixel, and renders the same image every time.
#[derive(Debug, Clone, Copy, PartialEq, Default)]
pub struct Midpoint;

impl<T: Scalar> RandomSource<T> for Midpoint {
    /// The draws are exact where the scalar's arithmetic is.
    open spec fn obeys_random_spec() -> bool {
        exact_arith::<T>()
    }

    /// `min + (max - min) * 0.5`, and the source as it was.
    open spec fn draw_spec(self, min: T, max: T) -> (T, Self) {
        (min.add_spec(max.sub_spec(min).mul_spec(ratio_spec::<T>(1, 2))), self)
    }

    /// The middle of `[min, max)`.
    fn uniform(&mut self, min: T, max: T) -> (r: T)
    {
        min + (max - min) * ratio(1, 2)
    }
}

} // verus!
