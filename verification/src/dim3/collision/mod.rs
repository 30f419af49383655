//! Contact data and the narrow-phase contact queries in space.

pub mod contact_query;
pub mod contact_types;
