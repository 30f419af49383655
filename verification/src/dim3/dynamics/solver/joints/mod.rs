//! The free axes of the joints in space, with their motors and limits.

pub mod prismatic;
pub mod revolute;

pub use prismatic::PrismaticJoint;
pub use revolute::RevoluteJoint;
