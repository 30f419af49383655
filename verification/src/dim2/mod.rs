//! The contact core in the plane.

pub mod collision;
pub mod dynamics;
pub mod math;
