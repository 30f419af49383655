//! Contact points and manifolds in space.

use vstd::prelude::*;
use crate::collision::contact_types::PackedFeatureId;
use crate::dim2::math::vector::Vector as TangentImpulse;
use crate::dim3::math::vector::Vector;
use crate::math::scalar::Scalar;

verus! {

/// One pair of closest points between two shapes, in each shape's local frame.
#[derive(Clone, Copy, Debug, PartialEq, Eq, Structural)]
pub struct SingleContact {
    /// The contact point on the first shape, in its local frame.
    pub point1: Vector,
    /// The contact point on the second shape, in its local frame.
    pub point2: Vector,
    /// The outward unit normal on the first shape, in its local frame.
    pub normal1: Vector,
    /// The outward unit normal on the second shape, in its local frame.
    pub normal2: Vector,
    /// The penetration depth; negative where the shapes are apart.
    pub penetration: Scalar,
}

impl SingleContact {
    /// The contact with the given points, normals and penetration depth.
    pub fn new(
        point1: Vector,
        point2: Vector,
        normal1: Vector,
        normal2: Vector,
        penetration: Scalar,
    ) -> (r: SingleContact)
        ensures
            r == (SingleContact { point1, point2, normal1, normal2, penetration }),
    {
        SingleContact { point1, point2, normal1, normal2, penetration }
    }
}

/// A point of a contact manifold.
#[derive(Clone, Copy, Debug, PartialEq, Eq, Structural)]
pub struct ContactPoint {
    /// The contact point relative to the first body.
    pub anchor1: Vector,
    /// The contact point relative to the second body.
    pub anchor2: Vector,
    /// The penetration depth; negative where the shapes are apart.
    pub penetration: Scalar,
    /// The normal impulse to start the next solve with.
    pub normal_impulse: Scalar,
    /// The friction impulse to start the next solve with, along the two
    /// tangent directions.
    pub tangent_impulse: TangentImpulse,
    /// The feature of the first shape that the point lies on.
    pub feature_id1: PackedFeatureId,
    /// The feature of the second shape that the point lies on.
    pub feature_id2: PackedFeatureId,
}

impl ContactPoint {
    /// The point that `new` makes: no impulses and unknown features.
    pub open spec fn new_spec(anchor1: Vector, anchor2: Vector, penetration: Scalar) -> ContactPoint {
        ContactPoint {
            anchor1,
            anchor2,
            penetration,
            normal_impulse: Scalar { raw: 0 },
            tangent_impulse: TangentImpulse { x: Scalar { raw: 0 }, y: Scalar { raw: 0 } },
            feature_id1: PackedFeatureId::unknown_spec(),
            feature_id2: PackedFeatureId::unknown_spec(),
        }
    }

    /// The same point, lying on the given features.
    pub open spec fn with_feature_ids_spec(
        self,
        id1: PackedFeatureId,
        id2: PackedFeatureId,
    ) -> ContactPoint {
        ContactPoint { feature_id1: id1, feature_id2: id2, ..self }
    }

    /// Whether `self` and `previous` are the same physical contact: both
    /// feature identifiers are known and equal.
    pub open spec fn matches_spec(self, previous: ContactPoint) -> bool {
        &&& self.feature_id1 != PackedFeatureId::unknown_spec()
        &&& self.feature_id2 != PackedFeatureId::unknown_spec()
        &&& self.feature_id1 == previous.feature_id1
        &&& self.feature_id2 == previous.feature_id2
    }

    /// A point with the given anchors and penetration depth, no impulses and
    /// unknown features.
    pub fn new(anchor1: Vector, anchor2: Vector, penetration: Scalar) -> (r: ContactPoint)
        ensures
            r == ContactPoint::new_spec(anchor1, anchor2, penetration),
    {
        ContactPoint {
            anchor1,
            anchor2,
            penetration,
            normal_impulse: Scalar::zero(),
            tangent_impulse: TangentImpulse::zero(),
            feature_id1: PackedFeatureId::unknown(),
            feature_id2: PackedFeatureId::unknown(),
        }
    }

    /// The same point, lying on the given features.
    pub fn with_feature_ids(self, id1: PackedFeatureId, id2: PackedFeatureId) -> (r: ContactPoint)
        ensures
            r == self.with_feature_ids_spec(id1, id2),
    {
        ContactPoint { feature_id1: id1, feature_id2: id2, ..self }
    }

    /// Whether `self` and `previous` are the same physical contact.
    pub fn matches(&self, previous: &ContactPoint) -> (r: bool)
        ensures
            r == self.matches_spec(*previous),
    {
        !self.feature_id1.is_unknown() && !self.feature_id2.is_unknown()
            && self.feature_id1.code == previous.feature_id1.code
            && self.feature_id2.code == previous.feature_id2.code
    }
}

/// The contact points between two bodies that share one normal.
#[derive(Clone, Debug)]
pub struct ContactManifold {
    /// The contact points, in the order in which they were found.
    pub points: Vec<ContactPoint>,
    /// The unit normal shared by the points, pointing away from the first body.
    pub normal: Vector,
}

/// What a contact manifold holds.
pub struct ContactManifoldView {
    /// The contact points, in order.
    pub points: Seq<ContactPoint>,
    /// The shared normal.
    pub normal: Vector,
}

impl View for ContactManifold {
    type V = ContactManifoldView;

    open spec fn view(&self) -> ContactManifoldView {
        ContactManifoldView { points: self.points@, normal: self.normal }
    }
}

/// The views of a sequence of manifolds.
pub open spec fn manifold_views(manifolds: Seq<ContactManifold>) -> Seq<ContactManifoldView> {
    manifolds.map_values(|m: ContactManifold| m@)
}

/// The index of the first point of `previous`, from `from` on, that is the
/// same physical contact as `contact`, if there is one.
pub open spec fn first_match_spec(contact: ContactPoint, previous: Seq<ContactPoint>, from: int) -> Option<int>
    decreases previous.len() - from,
{
    if from < 0 || from >= previous.len() {
        None
    } else if contact.matches_spec(previous[from]) {
        Some(from)
    } else {
        first_match_spec(contact, previous, from + 1)
    }
}

/// The point `contact` with the impulses of the first point of `previous`
/// that is the same physical contact, and `contact` itself where there is none.
pub open spec fn matched_point_spec(contact: ContactPoint, previous: Seq<ContactPoint>) -> ContactPoint {
    match first_match_spec(contact, previous, 0) {
        Some(j) => ContactPoint {
            normal_impulse: previous[j].normal_impulse,
            tangent_impulse: previous[j].tangent_impulse,
            ..contact
        },
        None => contact,
    }
}

/// `first_match_spec` finds the least matching index from `from` on, and
/// finds none only where no point from `from` on matches.
pub proof fn lemma_first_match(contact: ContactPoint, previous: Seq<ContactPoint>, from: int)
    requires
        0 <= from,
    ensures
        match first_match_spec(contact, previous, from) {
            Some(j) => from <= j < previous.len() && contact.matches_spec(previous[j]) && forall|k: int|
                from <= k < j ==> !contact.matches_spec(#[trigger] previous[k]),
            None => forall|k: int|
                from <= k < previous.len() ==> !contact.matches_spec(#[trigger] previous[k]),
        },
    decreases previous.len() - from,
{
    if from < previous.len() && !contact.matches_spec(previous[from]) {
        lemma_first_match(contact, previous, from + 1);
    }
}

impl ContactManifold {
    /// The manifold with the given points and normal.
    pub fn new(points: Vec<ContactPoint>, normal: Vector) -> (r: ContactManifold)
        ensures
            r@ == (ContactManifoldView { points: points@, normal }),
    {
        ContactManifold { points, normal }
    }

    /// Copies the impulses of the previous step to the points of this
    /// manifold, for warm starting.
    ///
    /// A point takes the impulses of the first of `previous_contacts` that
    /// lies on the same pair of known features. A point without such a
    /// predecessor keeps its own impulses.
    pub fn match_contacts(&mut self, previous_contacts: &Vec<ContactPoint>)
        ensures
            final(self).normal == old(self).normal,
            final(self).points@ == old(self).points@.map_values(
                |contact: ContactPoint| matched_point_spec(contact, previous_contacts@),
            ),
    {
        let ghost begin = self.points@;
        let count = self.points.len();
        let mut i: usize = 0;
        while i < count
            invariant
                i <= count,
                count == begin.len(),
                self.points@.len() == count,
                self.normal == old(self).normal,
                forall|k: int|
                    0 <= k < i ==> #[trigger] self.points@[k] == matched_point_spec(
                        begin[k],
                        previous_contacts@,
                    ),
                forall|k: int| i <= k < count ==> #[trigger] self.points@[k] == begin[k],
            decreases count - i,
        {
            let mut contact = self.points[i];
            let mut j: usize = 0;
            let mut found = false;
            while j < previous_contacts.len() && !found
                invariant
                    j <= previous_contacts.len(),
                    contact == begin[i as int] || found,
                    !found ==> first_match_spec(begin[i as int], previous_contacts@, 0)
                        == first_match_spec(begin[i as int], previous_contacts@, j as int),
                    found ==> contact == matched_point_spec(begin[i as int], previous_contacts@),
                decreases previous_contacts.len() - j + (if found { 0int } else { 1int }),
            {
                let previous = previous_contacts[j];
                if contact.matches(&previous) {
                    contact.normal_impulse = previous.normal_impulse;
                    contact.tangent_impulse = previous.tangent_impulse;
                    found = true;
                } else {
                    j = j + 1;
                }
            }
            self.points[i] = contact;
            i = i + 1;
        }
    }
}

} // verus!
