//! The contact core in space.

pub mod collision;
pub mod dynamics;
pub mod math;
