//! The bodies as the solver sees them, and the constraints it solves.

pub mod contact;
pub mod joints;
pub mod solver_body;
