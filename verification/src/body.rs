//! The state of one rigid body and the rules that move it through time.

use crate::attitude::angular;
use crate::attitude::angular_spec;
use crate::attitude::model;
use crate::attitude::Attitude;
use crate::scalar::specified;
use crate::scalar::total;
use crate::scalar::Scalar;
use crate::vector::scaled;
use crate::vector::sum;
use vecmath::Vector3;
use vstd::prelude::*;
use vstd::std_specs::ops::MulSpec;

verus! {

/// A minimalistic description of a rigid body.
#[derive(Debug)]
pub struct RigidBody<T> {
    /// Linear position.
    pub pos: Vector3<T>,
    /// Linear velocity.
    pub vel: Vector3<T>,
    /// Linear acceleration.
    pub acc: Vector3<T>,
    /// Orientation (angular position).
    pub ori: Attitude<T>,
    /// Torque (angular velocity).
    pub tor: Attitude<T>,
    /// Wrench (angular acceleration).
    pub wre: Attitude<T>,
}

impl<T: Copy> Clone for RigidBody<T> {
    /// A body is a plain value: its clone has the same six fields.
    fn clone(&self) -> (r: Self)
        ensures
            r == *self,
    {
        *self
    }
}

impl<T: Copy> Copy for RigidBody<T> {

}

/// Half of the time step `dt`.
pub open spec fn half_step<T: Scalar>(dt: T) -> T {
    T::half_spec().mul_spec(dt)
}

/// The vector `s` moved along its rate `v` for time `t`: `s + v t`.
pub open spec fn moved<T: Scalar>(s: Seq<T>, v: Seq<T>, t: T) -> Seq<T> {
    sum(s, scaled(v, t))
}

/// The velocity after the first half kick.
pub open spec fn mid_velocity<T: Scalar>(vel: Seq<T>, acc: Seq<T>, dt: T) -> Seq<T> {
    moved(vel, acc, half_step(dt))
}

/// The velocity after a whole step: two half kicks.
pub open spec fn next_velocity<T: Scalar>(vel: Seq<T>, acc: Seq<T>, dt: T) -> Seq<T> {
    moved(mid_velocity(vel, acc, dt), acc, half_step(dt))
}

/// The position after a whole step: a drift at the mid velocity.
pub open spec fn next_position<T: Scalar>(pos: Seq<T>, vel: Seq<T>, acc: Seq<T>, dt: T) -> Seq<
    T,
> {
    moved(pos, mid_velocity(vel, acc, dt), dt)
}

/// The torque after the first half kick by the wrench.
pub open spec fn mid_torque<T: Scalar>(tor: (T, Seq<T>), wre: (T, Seq<T>), dt: T) -> (T, Seq<T>) {
    angular_spec(tor, wre, half_step(dt))
}

/// The torque after a whole step: two half kicks by the wrench.
pub open spec fn next_torque<T: Scalar>(tor: (T, Seq<T>), wre: (T, Seq<T>), dt: T) -> (T, Seq<T>) {
    angular_spec(mid_torque(tor, wre, dt), wre, half_step(dt))
}

/// The orientation after a whole step: a drift at the mid torque.
pub open spec fn next_orientation<T: Scalar>(
    ori: (T, Seq<T>),
    tor: (T, Seq<T>),
    wre: (T, Seq<T>),
    dt: T,
) -> (T, Seq<T>) {
    angular_spec(ori, mid_torque(tor, wre, dt), dt)
}

impl<T: Scalar> RigidBody<T> {
    /// Updates linear coordinates by moving through time: half a kick of the
    /// velocity, a drift of the position, and the other half of the kick.
    pub fn update_linear(&mut self, dt: T)
        requires
            total::<T>(),
        ensures
            final(self).acc == old(self).acc,
            final(self).ori == old(self).ori,
            final(self).tor == old(self).tor,
            final(self).wre == old(self).wre,
            specified::<T>() ==> final(self).vel@ == next_velocity(
                old(self).vel@,
                old(self).acc@,
                dt,
            ),
            specified::<T>() ==> final(self).pos@ == next_position(
                old(self).pos@,
                old(self).vel@,
                old(self).acc@,
                dt,
            ),
    {
        let half_dt = T::half() * dt;
        self.vel = vecmath::vec3_add(self.vel, vecmath::vec3_scale(self.acc, half_dt));
        self.pos = vecmath::vec3_add(self.pos, vecmath::vec3_scale(self.vel, dt));
        self.vel = vecmath::vec3_add(self.vel, vecmath::vec3_scale(self.acc, half_dt));
    }

    /// Updates angular coordinates by moving through time: half a kick of the
    /// torque by the wrench, a drift of the orientation by the torque, and the
    /// other half of the kick.
    pub fn update_angular(&mut self, dt: T)
        requires
            total::<T>(),
        ensures
            final(self).pos == old(self).pos,
            final(self).vel == old(self).vel,
            final(self).acc == old(self).acc,
            final(self).wre == old(self).wre,
            specified::<T>() ==> model(final(self).tor) == next_torque(
                model(old(self).tor),
                model(old(self).wre),
                dt,
            ),
            specified::<T>() ==> model(final(self).ori) == next_orientation(
                model(old(self).ori),
                model(old(self).tor),
                model(old(self).wre),
                dt,
            ),
    {
        let half_dt = T::half() * dt;
        self.tor = angular(self.tor, self.wre, half_dt);
        self.ori = angular(self.ori, self.tor, dt);
        self.tor = angular(self.tor, self.wre, half_dt);
    }

    /// Updates coordinates by moving the body through time: the linear rule,
    /// then the angular rule, with the same `dt`.
    pub fn update(&mut self, dt: T)
        requires
            total::<T>(),
        ensures
            final(self).acc == old(self).acc,
            final(self).wre == old(self).wre,
            specified::<T>() ==> final(self).vel@ == next_velocity(
                old(self).vel@,
                old(self).acc@,
                dt,
            ),
            specified::<T>() ==> final(self).pos@ == next_position(
                old(self).pos@,
                old(self).vel@,
                old(self).acc@,
                dt,
            ),
            specified::<T>() ==> model(final(self).tor) == next_torque(
                model(old(self).tor),
                model(old(self).wre),
                dt,
            ),
            specified::<T>() ==> model(final(self).ori) == next_orientation(
                model(old(self).ori),
                model(old(self).tor),
                model(old(self).wre),
                dt,
            ),
    {
        self.update_linear(dt);
        self.update_angular(dt);
    }
}

} // verus!
