//! The number type that the renderer computes with.
//!
//! Every geometric routine of this crate is generic over a scalar `T`. Its
//! arithmetic and its comparisons come from the operator traits of the
//! standard library; what these do not offer (conversion from and to
//! integers, a square root, an infinite value) comes from [`Scalar`].
//!
//! Nothing is assumed of a scalar. Each contract of this crate has the form
//! `exact_arith::<T>() ==> ...`: it describes the result over the scalar's own
//! specification functions, for scalars that declare that their operations
//! follow them. A function that computes asks for `total_arith::<T>()`: the
//! operators of `T` must be defined on all operands, as those of a
//! floating-point type are and those of an integer type, which overflow, are
//! not.
use vstd::prelude::*;
use vstd::std_specs::ops::{AddSpec, DivSpec, MulSpec, NegSpec, SubSpec};
use vstd::std_specs::cmp::{PartialOrdIs, PartialOrdSpec};
use std::ops::{Add, Div, Mul, Neg, Sub};

verus! {

/// What a number type offers beyond the arithmetic operators.
///
/// The contracts below bind an implementation only where it declares
/// `obeys_scalar_spec()`: then each method returns what the specification
/// function of the same name gives for the same arguments. An implementation
/// written outside verified code declares nothing, and nothing is believed of
/// it.
pub trait Scalar: Copy + Add<Output = Self> + Sub<Output = Self> + Mul<Output = Self> + Div<
    Output = Self,
> + Neg<Output = Self> + PartialOrd {
    /// Whether the methods follow their specification functions.
    open spec fn obeys_scalar_spec() -> bool {
        false
    }

    /// The scalar that stands for the integer `n`.
    open spec fn from_int_spec(n: i64) -> Self {
        arbitrary()
    }

    /// The integer part of the scalar.
    open spec fn to_int_spec(self) -> i64 {
        arbitrary()
    }

    /// The square root of the scalar.
    open spec fn sqrt_spec(self) -> Self {
        arbitrary()
    }

    /// The scalar above every finite one.
    open spec fn infinity_spec() -> Self {
        arbitrary()
    }

    /// The scalar below every finite one.
    open spec fn neg_infinity_spec() -> Self {
        arbitrary()
    }

    /// Converts an integer to the nearest scalar.
    fn from_int(n: i64) -> (r: Self)
        ensures
            Self::obeys_scalar_spec() ==> r == Self::from_int_spec(n),
    ;

    /// Cuts the fraction off and converts to an integer. A floating-point
    /// type gives the nearest end of `i64` for a value beyond it, and zero
    /// for what is no number.
    fn to_int(self) -> (r: i64)
        ensures
            Self::obeys_scalar_spec() ==> r == self.to_int_spec(),
    ;

    /// The square root. A floating-point type gives no number for a
    /// negative scalar.
    fn sqrt(self) -> (r: Self)
        ensures
            Self::obeys_scalar_spec() ==> r == self.sqrt_spec(),
    ;

    /// Positive infinity.
    fn infinity() -> (r: Self)
        ensures
            Self::obeys_scalar_spec() ==> r == Self::infinity_spec(),
    ;

    /// Negative infinity.
    fn neg_infinity() -> (r: Self)
        ensures
            Self::obeys_scalar_spec() ==> r == Self::neg_infinity_spec(),
    ;
}

/// No arithmetic operation of `T` has a precondition: each is defined on
/// every pair of operands.
pub open spec fn total_arith<T: Scalar>() -> bool {
    &&& forall|a: T, b: T| #[trigger] a.add_req(b)
    &&& forall|a: T, b: T| #[trigger] a.sub_req(b)
    &&& forall|a: T, b: T| #[trigger] a.mul_req(b)
    &&& forall|a: T, b: T| #[trigger] a.div_req(b)
    &&& forall|a: T| #[trigger] a.neg_req()
}

/// Every operation of `T` returns what its specification function says.
pub open spec fn exact_arith<T: Scalar>() -> bool {
    &&& T::obeys_add_spec()
    &&& T::obeys_sub_spec()
    &&& T::obeys_mul_spec()
    &&& T::obeys_div_spec()
    &&& T::obeys_neg_spec()
    &&& T::obeys_partial_cmp_spec()
    &&& T::obeys_scalar_spec()
}

/// `a < b`.
pub open spec fn below<T: Scalar>(a: T, b: T) -> bool {
    a.is_lt(&b)
}

/// `<` carries over: from `a < b` and `b < c` follows `a < c`.
pub open spec fn below_is_transitive<T: Scalar>() -> bool {
    forall|a: T, b: T, c: T|
        #![trigger below(a, b), below(b, c)]
        below(a, b) && below(b, c) ==> below(a, c)
}

/// The scalar zero.
pub open spec fn zero_spec<T: Scalar>() -> T {
    T::from_int_spec(0)
}

/// The scalar one.
pub open spec fn one_spec<T: Scalar>() -> T {
    T::from_int_spec(1)
}

/// The quotient of the scalars that stand for `num` and `den`.
pub open spec fn ratio_spec<T: Scalar>(num: i64, den: i64) -> T {
    T::from_int_spec(num).div_spec(T::from_int_spec(den))
}

/// The scalar `num / den`, computed by one division of scalars.
///
/// This is how the crate writes its decimal constants: `ratio(1, 2)` for one
/// half, `ratio(999, 1000)` for the upper end of a colour channel.
pub fn ratio<T: Scalar>(num: i64, den: i64) -> (r: T)
    requires
        total_arith::<T>(),
    ensures
        exact_arith::<T>() ==> r == ratio_spec::<T>(num, den),
{
    T::from_int(num) / T::from_int(den)
}

} // verus!
