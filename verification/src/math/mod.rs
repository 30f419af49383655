//! Fixed-point scalars.

pub mod scalar;

pub use scalar::Scalar;
