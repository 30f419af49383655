//! Rigid-body dynamics in the plane: the constraint solver.

pub mod solver;
