//! Vectors, rotations, isometries and symmetric matrices in space.

pub mod matrix;
pub mod rotation;
pub mod vector;

pub use matrix::SymmetricMatrix;
pub use rotation::Isometry;
pub use rotation::Rotation;
pub use vector::Vector;
