//! What the solvers of every dimension share.

pub mod joints;
pub mod softness;
