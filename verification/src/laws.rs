//! What holds of the integrator over a number type whose arithmetic is exact.

use crate::attitude::advanced_magnitude;
use crate::attitude::angular_spec;
use crate::attitude::model;
use crate::attitude::rotated;
use crate::attitude::turn;
use crate::attitude::Attitude;
use crate::body::half_step;
use crate::body::mid_torque;
use crate::body::next_orientation;
use crate::body::next_position;
use crate::body::next_torque;
use crate::body::next_velocity;
use crate::scalar::specified;
use crate::scalar::Scalar;
use crate::vector::cross;
use crate::vector::dot;
use vstd::prelude::*;
use vstd::std_specs::ops::AddSpec;
use vstd::std_specs::ops::MulSpec;
use vstd::std_specs::ops::SubSpec;

verus! {

/// The arithmetic of `T` is that of the real numbers: every operation returns
/// what its spec function says, `+`, `-` and `*` act on the values as they do
/// on reals, one and one half are what their names say, an angle of zero has
/// cosine one and sine zero, and two numbers with the same value are the same.
///
/// Rounded arithmetic does not meet this: the laws below are stated of exact
/// number types, and hold of rounded ones only up to their rounding.
pub open spec fn exact<T: Scalar>() -> bool {
    &&& specified::<T>()
    &&& forall|x: T, y: T| #[trigger] x.add_spec(y).value() == x.value() + y.value()
    &&& forall|x: T, y: T| #[trigger] x.sub_spec(y).value() == x.value() - y.value()
    &&& forall|x: T, y: T| #[trigger] x.mul_spec(y).value() == x.value() * y.value()
    &&& T::one_spec().value() == 1real
    &&& T::half_spec().value() + T::half_spec().value() == 1real
    &&& forall|x: T| x.value() == 0real ==> #[trigger] x.cos_spec().value() == 1real
    &&& forall|x: T| x.value() == 0real ==> #[trigger] x.sin_spec().value() == 0real
    &&& forall|x: T, y: T| #[trigger] x.value() == #[trigger] y.value() ==> x == y
}

/// One component of a half kick, a drift and a half kick, over the reals.
proof fn lemma_kick_drift_kick(p: real, v: real, a: real, d: real, h: real)
    requires
        h + h == 1real,
    ensures
        (v + a * (h * d)) + a * (h * d) == v + a * d,
        p + (v + a * (h * d)) * d == p + v * d + a * d * d / 2real,
{
    assert((v + a * (h * d)) + a * (h * d) == v + a * d) by (nonlinear_arith)
        requires
            h + h == 1real,
    ;
    assert(p + (v + a * (h * d)) * d == p + v * d + a * d * d / 2real) by (nonlinear_arith)
        requires
            h + h == 1real,
    ;
}

/// Constant-acceleration exactness: over an exact number type one linear step
/// gives the analytic solution, `vel + acc dt` for the velocity and
/// `pos + vel dt + acc dt^2 / 2` for the position, in each component.
pub proof fn linear_step_is_analytic<T: Scalar>(pos: [T; 3], vel: [T; 3], acc: [T; 3], dt: T)
    requires
        exact::<T>(),
    ensures
        forall|i: int|
            0 <= i < 3 ==> (#[trigger] next_velocity(vel@, acc@, dt)[i]).value() == vel[i].value()
                + acc[i].value() * dt.value(),
        forall|i: int|
            0 <= i < 3 ==> (#[trigger] next_position(pos@, vel@, acc@, dt)[i]).value()
                == pos[i].value() + vel[i].value() * dt.value() + acc[i].value() * dt.value()
                * dt.value() / 2real,
{
    let h = T::half_spec().value();
    lemma_kick_drift_kick(pos[0].value(), vel[0].value(), acc[0].value(), dt.value(), h);
    lemma_kick_drift_kick(pos[1].value(), vel[1].value(), acc[1].value(), dt.value(), h);
    lemma_kick_drift_kick(pos[2].value(), vel[2].value(), acc[2].value(), dt.value(), h);
}

/// One component of a step by `d` followed by a step by `b = -d`, over the reals.
proof fn lemma_there_and_back(p: real, v: real, a: real, d: real, b: real, h: real)
    requires
        h + h == 1real,
        b == -d,
    ensures
        ({
            let v1 = (v + a * (h * d)) + a * (h * d);
            (v1 + a * (h * b)) + a * (h * b) == v
        }),
        ({
            let v1 = (v + a * (h * d)) + a * (h * d);
            let p1 = p + (v + a * (h * d)) * d;
            p1 + (v1 + a * (h * b)) * b == p
        }),
{
    let m = v + a * (h * d);
    let v1 = m + a * (h * d);
    assert(a * (h * b) == -(a * (h * d))) by (nonlinear_arith)
        requires
            b == -d,
    ;
    assert(m * b == -(m * d)) by (nonlinear_arith)
        requires
            b == -d,
    ;
}

/// Time symmetry: over an exact number type, a linear step by `dt` followed by
/// a linear step by `back`, the negation of `dt`, under the same acceleration
/// restores the position and the velocity.
pub proof fn linear_step_is_reversible<T: Scalar>(
    pos: [T; 3],
    vel: [T; 3],
    acc: [T; 3],
    dt: T,
    back: T,
)
    requires
        exact::<T>(),
        back.value() == -dt.value(),
    ensures
        next_velocity(next_velocity(vel@, acc@, dt), acc@, back) == vel@,
        next_position(
            next_position(pos@, vel@, acc@, dt),
            next_velocity(vel@, acc@, dt),
            acc@,
            back,
        ) == pos@,
{
    let h = T::half_spec().value();
    let v1 = next_velocity(vel@, acc@, dt);
    let p1 = next_position(pos@, vel@, acc@, dt);
    let v2 = next_velocity(v1, acc@, back);
    let p2 = next_position(p1, v1, acc@, back);
    assert forall|i: int| 0 <= i < 3 implies v2[i] == vel@[i] && p2[i] == pos@[i] by {
        lemma_there_and_back(
            pos[i].value(),
            vel[i].value(),
            acc[i].value(),
            dt.value(),
            back.value(),
            h,
        );
        assert(v2[i].value() == vel[i].value());
        assert(p2[i].value() == pos[i].value());
    }
    assert(v2 =~= vel@);
    assert(p2 =~= pos@);
}

/// One component of Rodrigues' formula at an angle with cosine one and sine
/// zero, over the reals.
proof fn lemma_rotation_by_nothing(v: real, x: real, u: real, k: real, c: real, s: real)
    requires
        c == 1real,
        s == 0real,
    ensures
        v * c + (x * s + u * (k * (1real - c))) == v,
{
    assert(v * c + (x * s + u * (k * (1real - c))) == v) by (nonlinear_arith)
        requires
            c == 1real,
            s == 0real,
    ;
}

/// Over an exact number type, a rate that turns by the angle zero in time `t`
/// leaves an angular quantity as it is.
proof fn lemma_no_turn_no_change<T: Scalar>(a: Attitude<T>, b: Attitude<T>, t: T)
    requires
        exact::<T>(),
        b.0.value() * t.value() == 0real,
    ensures
        angular_spec(model(a), model(b), t) == model(a),
{
    let am = model(a);
    let bm = model(b);
    let theta = turn(bm, t);
    let c = theta.cos_spec();
    let s = theta.sin_spec();
    assert(theta.value() == 0real);
    let dv = dot(am.1, bm.1).value();
    let bv = b.0.value();
    let tv = t.value();
    assert((dv * bv) * tv == 0real) by (nonlinear_arith)
        requires
            bv * tv == 0real,
    ;
    assert(advanced_magnitude(am, bm, t).value() == a.0.value());
    let r = rotated(am.1, bm.1, c, s);
    let k = dot(bm.1, am.1).value();
    let x = cross(bm.1, am.1);
    assert forall|i: int| 0 <= i < 3 implies r[i] == a.1@[i] by {
        lemma_rotation_by_nothing(
            a.1[i].value(),
            x[i].value(),
            b.1[i].value(),
            k,
            c.value(),
            s.value(),
        );
        assert(r[i].value() == a.1[i].value());
    }
    assert(r =~= a.1@);
}

/// Zero-rate identity: over an exact number type, a rate of magnitude zero
/// leaves an angular quantity as it is, for every time `t` and whatever the
/// rate's vector holds.
pub proof fn zero_rate_is_identity<T: Scalar>(a: Attitude<T>, b: Attitude<T>, t: T)
    requires
        exact::<T>(),
        b.0.value() == 0real,
    ensures
        angular_spec(model(a), model(b), t) == model(a),
{
    let bv = b.0.value();
    let tv = t.value();
    assert(bv * tv == 0real) by (nonlinear_arith)
        requires
            bv == 0real,
    ;
    lemma_no_turn_no_change(a, b, t);
}

/// Composition at time zero: over an exact number type, no rate changes an
/// angular quantity in no time.
pub proof fn zero_time_is_identity<T: Scalar>(a: Attitude<T>, b: Attitude<T>, t: T)
    requires
        exact::<T>(),
        t.value() == 0real,
    ensures
        angular_spec(model(a), model(b), t) == model(a),
{
    let bv = b.0.value();
    let tv = t.value();
    assert(bv * tv == 0real) by (nonlinear_arith)
        requires
            tv == 0real,
    ;
    lemma_no_turn_no_change(a, b, t);
}

/// The vector `u` has length one: its components' squares sum to one.
pub open spec fn unit<T: Scalar>(u: Seq<T>) -> bool {
    u[0].value() * u[0].value() + u[1].value() * u[1].value() + u[2].value() * u[2].value()
        == 1real
}

/// One component of Rodrigues' formula for a vector turned about itself, over
/// the reals: `x` is the component of its cross product with itself, `k` its
/// dot product with itself.
proof fn lemma_rotation_about_itself(u: real, x: real, k: real, c: real, s: real)
    requires
        x == 0real,
        k == 1real,
    ensures
        u * c + (x * s + u * (k * (1real - c))) == u,
{
    assert(u * c + (x * s + u * (k * (1real - c))) == u) by (nonlinear_arith)
        requires
            x == 0real,
            k == 1real,
    ;
}

/// The product of two reals does not depend on their order.
proof fn lemma_product_commutes(x: real, y: real)
    ensures
        x * y - y * x == 0real,
{
    assert(x * y - y * x == 0real) by (nonlinear_arith);
}

/// Parallel-axis additivity: over an exact number type, where the state and
/// the rate share one unit vector, the magnitudes add as `a + b t` and the
/// vector stays as it is, being turned about itself.
pub proof fn parallel_axis_is_additive<T: Scalar>(a: Attitude<T>, b: Attitude<T>, t: T)
    requires
        exact::<T>(),
        a.1 == b.1,
        unit(a.1@),
    ensures
        angular_spec(model(a), model(b), t).0.value() == a.0.value() + b.0.value()
            * t.value(),
        angular_spec(model(a), model(b), t).1 == a.1@,
{
    let am = model(a);
    let bm = model(b);
    let u = a.1@;
    let c = turn(bm, t).cos_spec();
    let s = turn(bm, t).sin_spec();
    let k = dot(u, u).value();
    assert(k == 1real);
    let bv = b.0.value();
    let tv = t.value();
    assert((k * bv) * tv == bv * tv) by (nonlinear_arith)
        requires
            k == 1real,
    ;
    let x = cross(u, u);
    lemma_product_commutes(u[1].value(), u[2].value());
    lemma_product_commutes(u[2].value(), u[0].value());
    lemma_product_commutes(u[0].value(), u[1].value());
    let r = rotated(u, u, c, s);
    assert forall|i: int| 0 <= i < 3 implies r[i] == u[i] by {
        assert(x[i].value() == 0real);
        lemma_rotation_about_itself(u[i].value(), x[i].value(), k, c.value(), s.value());
        assert(r[i].value() == u[i].value());
    }
    assert(r =~= u);
}

/// Over an exact number type, a body whose torque and wrench both have
/// magnitude zero keeps its torque and its orientation through an angular
/// step, whatever the three vectors hold.
pub proof fn angular_step_without_rates_is_identity<T: Scalar>(
    ori: Attitude<T>,
    tor: Attitude<T>,
    wre: Attitude<T>,
    dt: T,
)
    requires
        exact::<T>(),
        tor.0.value() == 0real,
        wre.0.value() == 0real,
    ensures
        next_torque(model(tor), model(wre), dt) == model(tor),
        next_orientation(model(ori), model(tor), model(wre), dt) == model(ori),
{
    zero_rate_is_identity(tor, wre, half_step(dt));
    assert(mid_torque(model(tor), model(wre), dt) == model(tor));
    zero_rate_is_identity(ori, tor, dt);
}

} // verus!
