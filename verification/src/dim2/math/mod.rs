//! Planar vectors, rotations and isometries.

pub mod rotation;
pub mod vector;

pub use rotation::Isometry;
pub use rotation::Rotation;
pub use vector::Vector;
