//! Narrow-phase contact queries and the constraint solver of a rigid-body
//! simulator, over exact fixed-point arithmetic, in the plane ([`dim2`]) and
//! in space ([`dim3`]).
//!
//! Every scalar quantity is a [`math::Scalar`]: a signed 64-bit number with 32
//! fractional bits whose operations round toward zero and saturate at the ends
//! of the range. All results are therefore the same on every machine.

pub mod collision;
pub mod dim2;
pub mod dim3;
pub mod dynamics;
pub mod math;
pub mod resources;
