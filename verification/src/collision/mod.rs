//! What the contact data of every dimension shares.

pub mod contact_query;
pub mod contact_types;
