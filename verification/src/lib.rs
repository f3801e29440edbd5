//! A minimal rigid-body kinematic integrator.
//!
//! A body carries a linear state (position, velocity, acceleration) and an
//! angular state (orientation, torque, wrench). One time step advances both
//! with a symmetric kick-drift-kick rule. The numeric type is a parameter:
//! any type with total `+`, `-`, `*`, a one, a half, a sine and a cosine.

pub mod attitude;
pub mod body;
pub mod laws;
pub mod scalar;
pub mod vector;

pub use attitude::angular;
pub use attitude::Attitude;
pub use body::RigidBody;
pub use scalar::Scalar;
pub use vecmath::Vector3;
