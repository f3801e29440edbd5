//! Angular quantities and the rule that advances one by its rate.

use crate::scalar::specified;
use crate::scalar::total;
use crate::scalar::Scalar;
use crate::vector::cross;
use crate::vector::dot;
use crate::vector::scaled;
use crate::vector::sum;
use vstd::prelude::*;
use vstd::std_specs::ops::AddSpec;
use vstd::std_specs::ops::MulSpec;
use vstd::std_specs::ops::SubSpec;

verus! {

/// An angular quantity: a magnitude and a three-dimensional vector.
///
/// As an orientation it is an accumulated angle and an axis; as a torque, an
/// angular rate and its axis; as a wrench, the rate of that rate and its axis.
/// The vector need not have unit length.
pub type Attitude<T> = (T, [T; 3]);

/// An angular quantity as a magnitude and a mathematical vector.
pub open spec fn model<T>(a: Attitude<T>) -> (T, Seq<T>) {
    (a.0, a.1@)
}

/// The angle, in radians, by which the rate `b` turns in time `t`.
pub open spec fn turn<T: Scalar>(b: (T, Seq<T>), t: T) -> T {
    b.0.mul_spec(t)
}

/// The magnitude of `a` after the rate `b` has acted for time `t`: the rate's
/// magnitude counts in proportion to the dot product of the two vectors.
pub open spec fn advanced_magnitude<T: Scalar>(a: (T, Seq<T>), b: (T, Seq<T>), t: T) -> T {
    a.0.add_spec(dot(a.1, b.1).mul_spec(b.0).mul_spec(t))
}

/// Rodrigues' rotation of `v` about `axis`, given the cosine `c` and the sine
/// `s` of the angle: `v c + (axis x v) s + axis (axis . v) (1 - c)`.
/// The axis is used as it is given, not normalised.
pub open spec fn rotated<T: Scalar>(v: Seq<T>, axis: Seq<T>, c: T, s: T) -> Seq<T> {
    sum(
        scaled(v, c),
        sum(
            scaled(cross(axis, v), s),
            scaled(axis, dot(axis, v).mul_spec(T::one_spec().sub_spec(c))),
        ),
    )
}

/// The angular quantity `a` advanced by its rate `b` over time `t`.
pub open spec fn angular_spec<T: Scalar>(a: (T, Seq<T>), b: (T, Seq<T>), t: T) -> (T, Seq<T>) {
    (
        advanced_magnitude(a, b, t),
        rotated(a.1, b.1, turn(b, t).cos_spec(), turn(b, t).sin_spec()),
    )
}

/// Solves the analogue of `s' = s + v * t` for angular quantities: `a` is the
/// state, `b` its rate one derivative order higher, `t` the time.
pub fn angular<T: Scalar>(a: Attitude<T>, b: Attitude<T>, t: T) -> (r: Attitude<T>)
    requires
        total::<T>(),
    ensures
        specified::<T>() ==> model(r) == angular_spec(model(a), model(b), t),
{
    let magnitude = a.0 + vecmath::vec3_dot(a.1, b.1) * b.0 * t;
    let theta = b.0 * t;
    let c = theta.cos();
    let s = theta.sin();
    let along = vecmath::vec3_scale(b.1, vecmath::vec3_dot(b.1, a.1) * (T::one() - c));
    let across = vecmath::vec3_scale(vecmath::vec3_cross(b.1, a.1), s);
    let vector = vecmath::vec3_add(vecmath::vec3_scale(a.1, c), vecmath::vec3_add(across, along));
    (magnitude, vector)
}

} // verus!
