//! Contact data and the narrow-phase contact queries in the plane.

pub mod contact_query;
pub mod contact_types;
