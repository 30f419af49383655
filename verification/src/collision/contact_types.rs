//! The identifiers that contact data carries.

use vstd::prelude::*;

verus! {

/// An opaque, stable handle of a rigid body.
#[derive(Clone, Copy, Debug, PartialEq, Eq, Structural)]
pub struct Entity {
    /// The bits of the handle. They are only ever compared and copied.
    pub bits: u64,
}

/// The stable identifier of a contact pair, which survives from one step to
/// the next.
#[derive(Clone, Copy, Debug, PartialEq, Eq, Structural)]
pub struct ContactId {
    /// The index of the pair in its owner's storage.
    pub index: u32,
}

/// The identifier of a geometric feature (vertex, edge, face) of a shape.
///
/// Two contact points of successive steps that carry the same pair of known
/// feature identifiers are the same physical contact.
#[derive(Clone, Copy, Debug, PartialEq, Eq, Structural)]
pub struct PackedFeatureId {
    /// The packed code of the feature; zero stands for an unknown feature.
    pub code: u32,
}

impl PackedFeatureId {
    /// The identifier of an unknown feature.
    pub open spec fn unknown_spec() -> PackedFeatureId {
        PackedFeatureId { code: 0 }
    }

    /// The identifier of an unknown feature.
    pub fn unknown() -> (r: PackedFeatureId)
        ensures
            r == PackedFeatureId::unknown_spec(),
    {
        PackedFeatureId { code: 0 }
    }

    /// Whether the feature is unknown.
    pub fn is_unknown(self) -> (r: bool)
        ensures
            r == (self == PackedFeatureId::unknown_spec()),
    {
        self.code == 0
    }
}

} // verus!
