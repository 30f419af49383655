//! Rigid-body dynamics: what the solvers of every dimension share.

pub mod solver;
