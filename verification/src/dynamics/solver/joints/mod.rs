//! Motors on the free axis of a joint.
//!
//! A motor is a one-dimensional actuator on the axis that a joint leaves
//! free: the angle of a revolute joint, the slider of a prismatic joint. It
//! is solved like any other constraint, by accumulating an impulse, next to
//! the limits of the joint, which are constraints of their own.

pub mod motor;

pub use motor::AngularMotor;
pub use motor::LinearMotor;
pub use motor::MotorModel;
