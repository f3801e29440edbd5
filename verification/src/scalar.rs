//! The numeric capability that the integrator is generic over.

use std::ops::Add;
use std::ops::Mul;
use std::ops::Sub;
use vstd::prelude::*;
use vstd::std_specs::ops::AddSpec;
use vstd::std_specs::ops::MulSpec;
use vstd::std_specs::ops::SubSpec;

verus! {

/// A number type the integrator can compute with.
///
/// The arithmetic operators come from `std::ops`; their meaning in contracts
/// is the `add_spec`, `sub_spec` and `mul_spec` that vstd attaches to them.
/// The four methods here supply what the operators do not: the constants one
/// and one half, and the sine and cosine of an angle in radians.
///
/// Each method's result is tied to its spec function only for a type that
/// declares `obeys_scalar_spec()`. A type whose arithmetic is not a function
/// of its arguments alone leaves it `false` and promises nothing.
pub trait Scalar: Copy + Add<Self, Output = Self> + Sub<Self, Output = Self> + Mul<
    Self,
    Output = Self,
> {
    /// The real number that this value stands for. A type that makes no
    /// claim on its arithmetic need not say.
    open spec fn value(self) -> real {
        arbitrary()
    }

    /// Whether the four methods below return what their spec functions say.
    /// A type that does not declare so promises nothing.
    open spec fn obeys_scalar_spec() -> bool {
        false
    }

    /// What `one` returns, for a type that obeys.
    open spec fn one_spec() -> Self {
        arbitrary()
    }

    /// What `half` returns, for a type that obeys.
    open spec fn half_spec() -> Self {
        arbitrary()
    }

    /// What `sin` returns, for a type that obeys.
    open spec fn sin_spec(self) -> Self {
        arbitrary()
    }

    /// What `cos` returns, for a type that obeys.
    open spec fn cos_spec(self) -> Self {
        arbitrary()
    }

    /// The multiplicative identity.
    fn one() -> (r: Self)
        ensures
            Self::obeys_scalar_spec() ==> r == Self::one_spec(),
    ;

    /// The constant one half.
    fn half() -> (r: Self)
        ensures
            Self::obeys_scalar_spec() ==> r == Self::half_spec(),
    ;

    /// The sine of `self`, an angle in radians.
    fn sin(self) -> (r: Self)
        ensures
            Self::obeys_scalar_spec() ==> r == self.sin_spec(),
    ;

    /// The cosine of `self`, an angle in radians.
    fn cos(self) -> (r: Self)
        ensures
            Self::obeys_scalar_spec() ==> r == self.cos_spec(),
    ;
}

/// Every sum, difference and product of two values of `T` may be computed:
/// none of the three operators has a precondition that an argument can fail.
/// The operators of a floating-point type are total in this sense.
pub open spec fn total<T: Scalar>() -> bool {
    &&& forall|x: T, y: T| #[trigger] x.add_req(y)
    &&& forall|x: T, y: T| #[trigger] x.sub_req(y)
    &&& forall|x: T, y: T| #[trigger] x.mul_req(y)
}

/// The operators and the four methods of `T` are functions of their arguments:
/// each returns what its spec function says.
pub open spec fn specified<T: Scalar>() -> bool {
    &&& T::obeys_add_spec()
    &&& T::obeys_sub_spec()
    &&& T::obeys_mul_spec()
    &&& T::obeys_scalar_spec()
}

} // verus!
