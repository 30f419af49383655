//! The settings and the contact store of the simulation.

use vstd::prelude::*;
use crate::collision::contact_types::Entity;
use crate::math::scalar::Scalar;
use crate::dim2::math::vector::Vector;

verus! {

/// The raw value of the default downward acceleration of gravity: 9.81.
pub const DEFAULT_GRAVITY_RAW: i64 = 42_133_629_173;

/// The raw value of the default time step: one sixtieth of a second.
pub const DELTA_TIME_RAW: i64 = 71_582_788;

/// Amount of substeps used in the simulation.
#[derive(Clone, Copy, Debug, PartialEq, Eq, Structural)]
pub struct XPBDSubsteps(pub u32);

impl Default for XPBDSubsteps {
    /// Eight substeps.
    fn default() -> (r: XPBDSubsteps)
        ensures
            r.0 == 8,
    {
        XPBDSubsteps(8)
    }
}

/// Substep delta time.
#[derive(Clone, Copy, Debug, PartialEq, Eq, Structural)]
pub struct SubDeltaTime(pub Scalar);

impl Default for SubDeltaTime {
    /// The default time step divided by the default number of substeps.
    fn default() -> (r: SubDeltaTime)
        ensures
            r.0 == (Scalar { raw: DELTA_TIME_RAW }).div_spec(Scalar::of(8 * crate::math::scalar::ONE_RAW)),
    {
        let substeps = XPBDSubsteps::default();
        SubDeltaTime(Scalar::from_raw(DELTA_TIME_RAW).div(Scalar::from_int(substeps.0 as i32)))
    }
}

/// The acceleration of gravity.
#[derive(Clone, Copy, Debug, PartialEq, Eq, Structural)]
pub struct Gravity(pub Vector);

impl Default for Gravity {
    /// 9.81 downward.
    fn default() -> (r: Gravity)
        ensures
            r.0.x@ == 0,
            r.0.y@ == -DEFAULT_GRAVITY_RAW,
    {
        Gravity(Vector::new(Scalar::zero(), Scalar::from_raw(-DEFAULT_GRAVITY_RAW)))
    }
}

/// Data related to a contact between two bodies.
#[derive(Clone, Copy, Debug, PartialEq, Eq, Structural)]
pub struct Contact {
    /// The first body.
    pub entity_a: Entity,
    /// The second body.
    pub entity_b: Entity,
    /// Local contact point a
    pub r_a: Vector,
    /// Local contact point b
    pub r_b: Vector,
    /// Contact normal from contact point a to b
    pub normal: Vector,
    /// Penetration depth
    pub penetration: Scalar,
}

/// Stores dynamic-dynamic contact data.
#[derive(Debug)]
pub struct DynamicContacts(pub Vec<Contact>);

/// Stores dynamic-static contact data.
#[derive(Debug)]
pub struct StaticContacts(pub Vec<Contact>);

impl Default for DynamicContacts {
    /// No contacts.
    fn default() -> (r: DynamicContacts)
        ensures
            r.0@.len() == 0,
    {
        DynamicContacts(Vec::new())
    }
}

impl Default for StaticContacts {
    /// No contacts.
    fn default() -> (r: StaticContacts)
        ensures
            r.0@.len() == 0,
    {
        StaticContacts(Vec::new())
    }
}

} // verus!
