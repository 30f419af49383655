//! Rigid-body dynamics in space: the constraint solver.

pub mod solver;
