use rigid_body::angular;
use rigid_body::Attitude;
use rigid_body::RigidBody;
use rigid_body::Scalar;
use std::ops::Add;
use std::ops::Mul;
use std::ops::Sub;

/// A double-precision number as the integrator's scalar.
#[derive(Clone, Copy, Debug, PartialEq)]
struct Num(f64);

impl Add for Num {
    type Output = Num;

    fn add(self, rhs: Num) -> Num {
        Num(self.0 + rhs.0)
    }
}

impl Sub for Num {
    type Output = Num;

    fn sub(self, rhs: Num) -> Num {
        Num(self.0 - rhs.0)
    }
}

impl Mul for Num {
    type Output = Num;

    fn mul(self, rhs: Num) -> Num {
        Num(self.0 * rhs.0)
    }
}

impl Scalar for Num {
    fn one() -> Num {
        Num(1.0)
    }

    fn half() -> Num {
        Num(0.5)
    }

    fn sin(self) -> Num {
        Num(self.0.sin())
    }

    fn cos(self) -> Num {
        Num(self.0.cos())
    }
}

fn v(x: f64, y: f64, z: f64) -> [Num; 3] {
    [Num(x), Num(y), Num(z)]
}

fn att(m: f64, x: f64, y: f64, z: f64) -> Attitude<Num> {
    (Num(m), v(x, y, z))
}

fn close(a: Num, b: f64) -> bool {
    (a.0 - b).abs() <= 1e-12
}

fn close3(a: [Num; 3], b: [f64; 3]) -> bool {
    close(a[0], b[0]) && close(a[1], b[1]) && close(a[2], b[2])
}

fn body_at_rest() -> RigidBody<Num> {
    RigidBody {
        pos: v(0.0, 0.0, 0.0),
        vel: v(0.0, 0.0, 0.0),
        acc: v(0.0, 0.0, 0.0),
        ori: att(0.0, 0.0, 0.0, 1.0),
        tor: att(0.0, 0.0, 0.0, 0.0),
        wre: att(0.0, 0.0, 0.0, 0.0),
    }
}

#[test]
fn falling_body_after_one_step() {
    let mut body = body_at_rest();
    body.vel = v(1.0, 0.0, 0.0);
    body.acc = v(0.0, -9.8, 0.0);
    body.update(Num(0.1));
    assert!(close3(body.vel, [1.0, -0.98, 0.0]));
    assert!(close3(body.pos, [0.1, -0.049, 0.0]));
    assert_eq!(body.acc, v(0.0, -9.8, 0.0));
    assert_eq!(body.ori, att(0.0, 0.0, 0.0, 1.0));
    assert_eq!(body.tor, att(0.0, 0.0, 0.0, 0.0));
    assert_eq!(body.wre, att(0.0, 0.0, 0.0, 0.0));
}

#[test]
fn linear_step_matches_constant_acceleration() {
    // All values are dyadic, so every operation is exact in binary.
    let mut body = body_at_rest();
    body.pos = v(1.0, 2.0, 3.0);
    body.vel = v(0.5, -1.0, 4.0);
    body.acc = v(2.0, 4.0, -8.0);
    body.update_linear(Num(0.25));
    // vel + acc dt
    assert_eq!(body.vel, v(1.0, 0.0, 2.0));
    // pos + vel dt + acc dt^2 / 2
    assert_eq!(body.pos, v(1.1875, 1.875, 3.75));
    assert_eq!(body.acc, v(2.0, 4.0, -8.0));
}

#[test]
fn linear_step_leaves_the_angular_state() {
    let mut body = body_at_rest();
    body.vel = v(1.0, 2.0, 3.0);
    body.acc = v(-1.0, 0.5, 0.0);
    body.ori = att(0.5, 0.0, 1.0, 0.0);
    body.tor = att(2.0, 1.0, 0.0, 0.0);
    body.wre = att(3.0, 0.0, 0.0, 1.0);
    body.update_linear(Num(0.5));
    assert_eq!(body.ori, att(0.5, 0.0, 1.0, 0.0));
    assert_eq!(body.tor, att(2.0, 1.0, 0.0, 0.0));
    assert_eq!(body.wre, att(3.0, 0.0, 0.0, 1.0));
}

#[test]
fn linear_step_with_zero_dt_changes_nothing() {
    let mut body = body_at_rest();
    body.pos = v(1.0, 2.0, 3.0);
    body.vel = v(0.5, -1.0, 4.0);
    body.acc = v(2.0, 4.0, -8.0);
    body.update_linear(Num(0.0));
    assert_eq!(body.pos, v(1.0, 2.0, 3.0));
    assert_eq!(body.vel, v(0.5, -1.0, 4.0));
}

#[test]
fn linear_step_there_and_back() {
    let mut body = body_at_rest();
    body.pos = v(1.0, 2.0, 3.0);
    body.vel = v(0.5, -1.0, 4.0);
    body.acc = v(2.0, 4.0, -8.0);
    body.update_linear(Num(0.25));
    assert_ne!(body.pos, v(1.0, 2.0, 3.0));
    body.update_linear(Num(-0.25));
    assert_eq!(body.pos, v(1.0, 2.0, 3.0));
    assert_eq!(body.vel, v(0.5, -1.0, 4.0));
}

#[test]
fn negative_dt_runs_backwards() {
    let mut body = body_at_rest();
    body.vel = v(1.0, 0.0, 0.0);
    body.acc = v(0.0, 2.0, 0.0);
    body.update_linear(Num(-0.5));
    assert_eq!(body.vel, v(1.0, -1.0, 0.0));
    assert_eq!(body.pos, v(-0.5, 0.25, 0.0));
}

#[test]
fn zero_rate_leaves_the_quantity() {
    let a = att(0.75, 0.25, -2.0, 8.0);
    assert_eq!(angular(a, att(0.0, 3.0, -4.0, 5.0), Num(1.5)), a);
    assert_eq!(angular(a, att(0.0, 0.0, 0.0, 0.0), Num(-7.0)), a);
}

#[test]
fn zero_time_leaves_the_quantity() {
    let a = att(0.75, 0.25, -2.0, 8.0);
    assert_eq!(angular(a, att(2.5, 3.0, -4.0, 5.0), Num(0.0)), a);
}

#[test]
fn parallel_unit_axes_add_magnitudes() {
    let a = att(1.0, 0.0, 0.0, 1.0);
    let b = att(2.0, 0.0, 0.0, 1.0);
    let r = angular(a, b, Num(3.0));
    assert_eq!(r.0, Num(7.0));
    assert!(close3(r.1, [0.0, 0.0, 1.0]));
}

#[test]
fn orthogonal_axes_add_nothing_to_the_magnitude() {
    let a = att(1.0, 1.0, 0.0, 0.0);
    let b = att(2.0, 0.0, 0.0, 1.0);
    let r = angular(a, b, Num(3.0));
    assert_eq!(r.0, Num(1.0));
}

#[test]
fn magnitude_weighs_the_rate_by_the_dot_product() {
    // 1 + (1*4 + 2*5 + 3*6) * 2 * 0.5
    let a = att(1.0, 1.0, 2.0, 3.0);
    let b = att(2.0, 4.0, 5.0, 6.0);
    let r = angular(a, b, Num(0.5));
    assert_eq!(r.0, Num(33.0));
}

#[test]
fn quarter_turn_about_z_takes_x_to_y() {
    let quarter = std::f64::consts::FRAC_PI_2;
    let r = angular(att(0.0, 1.0, 0.0, 0.0), att(quarter, 0.0, 0.0, 1.0), Num(1.0));
    assert!(close3(r.1, [0.0, 1.0, 0.0]));
    assert!(close(r.0, 0.0));
}

#[test]
fn angle_is_rate_times_time() {
    // A rate of a half turn per unit time, acting for half a unit, is a
    // quarter turn.
    let half_turn = std::f64::consts::PI;
    let r = angular(att(0.0, 1.0, 0.0, 0.0), att(half_turn, 0.0, 0.0, 1.0), Num(0.5));
    assert!(close3(r.1, [0.0, 1.0, 0.0]));
}

#[test]
fn half_turn_about_z_negates_x_and_keeps_z() {
    let half_turn = std::f64::consts::PI;
    let r = angular(att(0.0, 1.0, 0.0, 2.0), att(half_turn, 0.0, 0.0, 1.0), Num(1.0));
    assert!(close3(r.1, [-1.0, 0.0, 2.0]));
}

#[test]
fn axis_is_not_normalised() {
    // With cosine -1 and sine 0 the result is -v + 2 axis (axis . v):
    // for the axis (0, 0, 2) and v = (1, 0, 1) that is (-1, 0, 7).
    let half_turn = std::f64::consts::PI;
    let r = angular(att(0.0, 1.0, 0.0, 1.0), att(half_turn, 0.0, 0.0, 2.0), Num(1.0));
    assert!(close3(r.1, [-1.0, 0.0, 7.0]));
}

#[test]
fn angular_step_is_kick_drift_kick() {
    let mut body = body_at_rest();
    body.ori = att(0.25, 0.0, 0.0, 1.0);
    body.tor = att(1.5, 0.0, 1.0, 0.0);
    body.wre = att(0.5, 1.0, 0.0, 0.0);
    let dt = Num(0.125);
    let half_dt = Num(0.0625);
    let tor1 = angular(body.tor, body.wre, half_dt);
    let ori1 = angular(body.ori, tor1, dt);
    let tor2 = angular(tor1, body.wre, half_dt);
    let before = body;
    body.update_angular(dt);
    assert_eq!(body.tor, tor2);
    assert_eq!(body.ori, ori1);
    assert_ne!(body.tor, before.tor);
    assert_ne!(body.ori, before.ori);
    assert_eq!(body.wre, before.wre);
    assert_eq!(body.pos, before.pos);
    assert_eq!(body.vel, before.vel);
    assert_eq!(body.acc, before.acc);
}

#[test]
fn update_is_linear_then_angular() {
    let mut body = body_at_rest();
    body.pos = v(1.0, 2.0, 3.0);
    body.vel = v(0.5, -1.0, 4.0);
    body.acc = v(2.0, 4.0, -8.0);
    body.ori = att(0.25, 0.0, 0.0, 1.0);
    body.tor = att(1.5, 0.0, 1.0, 0.0);
    body.wre = att(0.5, 1.0, 0.0, 0.0);
    let mut linear = body;
    linear.update_linear(Num(0.25));
    let mut angular_only = body;
    angular_only.update_angular(Num(0.25));
    body.update(Num(0.25));
    assert_eq!(body.pos, linear.pos);
    assert_eq!(body.vel, linear.vel);
    assert_eq!(body.ori, angular_only.ori);
    assert_eq!(body.tor, angular_only.tor);
    assert_eq!(body.acc, v(2.0, 4.0, -8.0));
    assert_eq!(body.wre, att(0.5, 1.0, 0.0, 0.0));
}

#[test]
fn a_body_is_copied_by_value() {
    let mut body = body_at_rest();
    body.vel = v(1.0, 0.0, 0.0);
    let kept = body;
    let cloned = body.clone();
    body.update(Num(1.0));
    assert_eq!(kept.pos, v(0.0, 0.0, 0.0));
    assert_eq!(cloned.pos, v(0.0, 0.0, 0.0));
    assert_eq!(body.pos, v(1.0, 0.0, 0.0));
}
