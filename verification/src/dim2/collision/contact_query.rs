//! Turning the findings of the shape-pair algorithms into contact data, in
//! the plane.
//!
//! | Contact query         | Description                                               |
//! | --------------------- | --------------------------------------------------------- |
//! | [`contact`]           | One pair of contact points between two shapes.            |
//! | [`contact_manifolds`] | All contact manifolds between two shapes.                 |
//! | [`closest_points`]    | The closest points between two shapes.                    |
//! | [`time_of_impact`]    | When two moving shapes hit each other for the first time. |
//!
//! The shape-pair algorithms themselves work on shapes; each function here
//! takes what such an algorithm found and decides what the caller gets.

use vstd::prelude::*;
use crate::collision::contact_query::TimeOfImpactStatus;
use crate::collision::contact_query::UnsupportedShape;
use crate::collision::contact_types::PackedFeatureId;
use crate::dim2::collision::contact_types::ContactManifold;
use crate::dim2::collision::contact_types::ContactManifoldView;
use crate::dim2::collision::contact_types::ContactPoint;
use crate::dim2::collision::contact_types::SingleContact;
use crate::dim2::collision::contact_types::manifold_views;
use crate::dim2::math::rotation::Isometry;
use crate::dim2::math::rotation::Rotation;
use crate::dim2::math::vector::Vector;
use crate::math::scalar::Scalar;

verus! {

/// A pair of closest points as a shape-pair algorithm reports it, in world
/// space.
#[derive(Clone, Copy, Debug, PartialEq, Eq, Structural)]
pub struct ShapeContact {
    /// The point on the first shape.
    pub point1: Vector,
    /// The point on the second shape.
    pub point2: Vector,
    /// The outward normal on the first shape.
    pub normal1: Vector,
    /// The outward normal on the second shape.
    pub normal2: Vector,
    /// The signed distance between the points; negative where the shapes overlap.
    pub dist: Scalar,
}

/// A point of a manifold as the manifold algorithm reports it.
#[derive(Clone, Copy, Debug, PartialEq, Eq, Structural)]
pub struct ShapeManifoldPoint {
    /// The point on the first shape, in the frame of its sub-shape.
    pub local_p1: Vector,
    /// The point on the second shape, in the frame of its sub-shape.
    pub local_p2: Vector,
    /// The signed distance between the points; negative where the shapes overlap.
    pub dist: Scalar,
    /// The feature of the first shape that the point lies on.
    pub fid1: PackedFeatureId,
    /// The feature of the second shape that the point lies on.
    pub fid2: PackedFeatureId,
}

/// A manifold as the manifold algorithm reports it, in the frame of the first
/// shape.
#[derive(Clone, Debug)]
pub struct ShapeManifold {
    /// The pose of the first sub-shape in the first shape, if it is not the identity.
    pub subshape_pos1: Option<Isometry>,
    /// The pose of the second sub-shape in the second shape, if it is not the identity.
    pub subshape_pos2: Option<Isometry>,
    /// The normal in the frame of the first sub-shape.
    pub local_n1: Vector,
    /// The points of the manifold.
    pub contacts: Vec<ShapeManifoldPoint>,
}

/// The closest points between two shapes.
#[derive(Clone, Copy, Debug, PartialEq, Eq, Structural)]
pub enum ClosestPoints {
    /// The two shapes touch or overlap.
    Intersecting,
    /// The two shapes are apart, by no more than the maximum distance asked
    /// for. The points are in world space.
    WithinMargin(Vector, Vector),
    /// The two shapes are apart by more than the maximum distance asked for.
    OutsideMargin,
}

/// The closest points between two shapes as the shape-pair algorithm reports
/// them.
#[derive(Clone, Copy, Debug, PartialEq, Eq, Structural)]
pub enum ShapeProximity {
    /// The two shapes touch or overlap.
    Intersecting,
    /// The two shapes are apart, within the margin; the closest points.
    WithinMargin(Vector, Vector),
    /// The two shapes are apart by more than the margin.
    Disjoint,
}

/// A hit as the shape cast reports it.
#[derive(Clone, Copy, Debug, PartialEq, Eq, Structural)]
pub struct ShapeCastHit {
    /// The time at which the shapes touch.
    pub time_of_impact: Scalar,
    /// The closest point on the first shape at that time, in its local frame.
    pub witness1: Vector,
    /// The closest point on the second shape at that time, in its local frame.
    pub witness2: Vector,
    /// The outward normal on the first shape at that time, in its local frame.
    pub normal1: Vector,
    /// The outward normal on the second shape at that time, in its local frame.
    pub normal2: Vector,
    /// The way in which the cast ended.
    pub status: TimeOfImpactStatus,
}

/// The first contact of two moving shapes.
#[derive(Clone, Copy, Debug, PartialEq, Eq, Structural)]
pub struct TimeOfImpact {
    /// The time at which the shapes come into contact.
    pub time_of_impact: Scalar,
    /// The closest point on the first shape at that time, in its local frame.
    pub point1: Vector,
    /// The closest point on the second shape at that time, in its local frame.
    pub point2: Vector,
    /// The outward normal on the first shape at that time, in its local frame.
    pub normal1: Vector,
    /// The outward normal on the second shape at that time, in its local frame.
    pub normal2: Vector,
    /// The way in which the computation ended.
    pub status: TimeOfImpactStatus,
}

/// The point `point` of world space in the local frame of a shape at the
/// position `position` with the rotation `rotation`: what the point lies from
/// the position, turned back by the rotation.
pub open spec fn local_point_spec(position: Vector, rotation: Rotation, point: Vector) -> Vector {
    rotation.inverse_spec().rotate_spec(point.sub_spec(position))
}

/// The contact that `found` stands for in the local frames of two shapes at
/// the positions `position1` and `position2` with the rotations `rotation1`
/// and `rotation2`, or `None` where a normal is degenerate.
pub open spec fn local_contact_spec(
    position1: Vector,
    rotation1: Rotation,
    position2: Vector,
    rotation2: Rotation,
    found: ShapeContact,
) -> Option<SingleContact> {
    let normal1 = rotation1.inverse_spec().rotate_spec(found.normal1).normalize_spec();
    let normal2 = rotation2.inverse_spec().rotate_spec(found.normal2).normalize_spec();
    if !normal1.is_normalized_spec() || !normal2.is_normalized_spec() {
        None
    } else {
        Some(
            SingleContact {
                point1: local_point_spec(position1, rotation1, found.point1),
                point2: local_point_spec(position2, rotation2, found.point2),
                normal1,
                normal2,
                penetration: found.dist.neg_spec(),
            },
        )
    }
}

/// What `contact` returns.
pub open spec fn contact_spec(
    position1: Vector,
    rotation1: Rotation,
    position2: Vector,
    rotation2: Rotation,
    found: Result<Option<ShapeContact>, UnsupportedShape>,
) -> Result<Option<SingleContact>, UnsupportedShape> {
    match found {
        Err(e) => Err(e),
        Ok(None) => Ok(None),
        Ok(Some(c)) => Ok(local_contact_spec(position1, rotation1, position2, rotation2, c)),
    }
}

/// Computes one pair of contact points between two shapes at the positions
/// `position1` and `position2` with the rotations `rotation1` and `rotation2`
/// from what the closest-point algorithm `found` for them in world space.
///
/// Each point is brought into the local frame of its shape: it is taken from
/// the position of the shape and turned back by its rotation. Each normal is
/// turned back by the rotation of its shape. The penetration depth is the
/// negated distance. The result is `Ok(None)` where the shapes are farther
/// apart than the prediction distance (nothing was found) and where a normal
/// is degenerate, and the error of the algorithm where it has one.
pub fn contact(
    position1: Vector,
    rotation1: Rotation,
    position2: Vector,
    rotation2: Rotation,
    found: Result<Option<ShapeContact>, UnsupportedShape>,
) -> (r: Result<Option<SingleContact>, UnsupportedShape>)
    ensures
        r == contact_spec(position1, rotation1, position2, rotation2, found),
        r is Err <==> found is Err,
        r matches Ok(Some(c)) ==> c.normal1.is_normalized_spec() && c.normal2.is_normalized_spec(),
{
    match found {
        Err(e) => Err(e),
        Ok(None) => Ok(None),
        Ok(Some(c)) => {
            let inverse1 = rotation1.inverse();
            let inverse2 = rotation2.inverse();
            let point1 = inverse1.rotate(c.point1.sub(position1));
            let point2 = inverse2.rotate(c.point2.sub(position2));
            let normal1 = inverse1.rotate(c.normal1).normalize();
            let normal2 = inverse2.rotate(c.normal2).normalize();
            if !normal1.is_normalized() || !normal2.is_normalized() {
                Ok(None)
            } else {
                Ok(Some(SingleContact::new(point1, point2, normal1, normal2, c.dist.neg())))
            }
        },
    }
}

/// The pose of a sub-shape: the identity where none is given.
pub open spec fn subshape_pose_spec(pose: Option<Isometry>) -> Isometry {
    match pose {
        Some(p) => p,
        None => Isometry::identity_spec(),
    }
}

/// The contact point that stands for the manifold point `c` of sub-shapes
/// with the poses `pos1` and `pos2`.
pub open spec fn manifold_point_spec(pos1: Isometry, pos2: Isometry, c: ShapeManifoldPoint) -> ContactPoint {
    ContactPoint::new_spec(
        pos1.transform_point_spec(c.local_p1),
        pos2.transform_point_spec(c.local_p2),
        c.dist.neg_spec(),
    ).with_feature_ids_spec(c.fid1, c.fid2)
}

/// The world-space normal of the manifold `m` of a first shape with the
/// rotation `rotation1`.
pub open spec fn manifold_normal_spec(rotation1: Rotation, m: ShapeManifold) -> Vector {
    rotation1.rotate_spec(
        subshape_pose_spec(m.subshape_pos1).rotation.rotate_spec(m.local_n1).normalize_spec(),
    )
}

/// The contact manifold that stands for `m`, or `None` where `m` has no
/// points or its normal is degenerate.
pub open spec fn manifold_spec(rotation1: Rotation, m: ShapeManifold) -> Option<ContactManifoldView> {
    if m.contacts@.len() == 0 || !manifold_normal_spec(rotation1, m).is_normalized_spec() {
        None
    } else {
        Some(
            ContactManifoldView {
                points: m.contacts@.map_values(
                    |c: ShapeManifoldPoint|
                        manifold_point_spec(
                            subshape_pose_spec(m.subshape_pos1),
                            subshape_pose_spec(m.subshape_pos2),
                            c,
                        ),
                ),
                normal: manifold_normal_spec(rotation1, m),
            },
        )
    }
}

/// The contact manifolds that stand for those of `found`, in order, without
/// those that have no points or a degenerate normal.
pub open spec fn exact_manifolds_spec(rotation1: Rotation, found: Seq<ShapeManifold>) -> Seq<ContactManifoldView>
    decreases found.len(),
{
    if found.len() == 0 {
        Seq::empty()
    } else {
        let front = exact_manifolds_spec(rotation1, found.drop_last());
        match manifold_spec(rotation1, found.last()) {
            Some(m) => front.push(m),
            None => front,
        }
    }
}

/// The one-point manifold of the support-map contact `c`, or nothing where
/// its normal is degenerate.
pub open spec fn fallback_manifolds_spec(rotation1: Rotation, c: ShapeContact) -> Seq<ContactManifoldView> {
    let normal = rotation1.rotate_spec(c.normal1);
    if !normal.is_normalized_spec() {
        Seq::empty()
    } else {
        seq![
            ContactManifoldView {
                points: seq![ContactPoint::new_spec(c.point1, c.point2, c.dist.neg_spec())],
                normal,
            },
        ]
    }
}

/// What `contact_manifolds` leaves in its output buffer.
pub open spec fn contact_manifolds_spec(
    rotation1: Rotation,
    dispatched: Result<Vec<ShapeManifold>, UnsupportedShape>,
    support_map_contact: Option<ShapeContact>,
) -> Seq<ContactManifoldView> {
    match dispatched {
        Ok(found) => exact_manifolds_spec(rotation1, found@),
        Err(_) => match support_map_contact {
            Some(c) => fallback_manifolds_spec(rotation1, c),
            None => Seq::empty(),
        },
    }
}

/// Whether the normal of `m` is a unit vector and `m` has a point.
pub open spec fn manifold_is_valid(m: ContactManifoldView) -> bool {
    m.points.len() > 0 && m.normal.is_normalized_spec()
}

/// Every manifold of `exact_manifolds_spec` has a point and a unit normal.
pub proof fn lemma_exact_manifolds_valid(rotation1: Rotation, found: Seq<ShapeManifold>)
    ensures
        exact_manifolds_spec(rotation1, found).len() <= found.len(),
        forall|i: int|
            0 <= i < exact_manifolds_spec(rotation1, found).len() ==> manifold_is_valid(
                #[trigger] exact_manifolds_spec(rotation1, found)[i],
            ),
    decreases found.len(),
{
    if found.len() > 0 {
        lemma_exact_manifolds_valid(rotation1, found.drop_last());
    }
}

/// The contact points of the manifold `m`, each in the frame of its shape.
fn manifold_points(m: &ShapeManifold) -> (points: Vec<ContactPoint>)
    ensures
        points@ == m.contacts@.map_values(
            |c: ShapeManifoldPoint|
                manifold_point_spec(
                    subshape_pose_spec(m.subshape_pos1),
                    subshape_pose_spec(m.subshape_pos2),
                    c,
                ),
        ),
{
    let pos1 = match m.subshape_pos1 {
        Some(p) => p,
        None => Isometry::identity(),
    };
    let pos2 = match m.subshape_pos2 {
        Some(p) => p,
        None => Isometry::identity(),
    };
    let mut points: Vec<ContactPoint> = Vec::new();
    let mut j: usize = 0;
    while j < m.contacts.len()
        invariant
            j <= m.contacts.len(),
            points.len() == j,
            pos1 == subshape_pose_spec(m.subshape_pos1),
            pos2 == subshape_pose_spec(m.subshape_pos2),
            forall|k: int| 0 <= k < j ==> points[k] == manifold_point_spec(pos1, pos2, #[trigger] m.contacts[k]),
        decreases m.contacts.len() - j,
    {
        let c = m.contacts[j];
        let point = ContactPoint::new(
            pos1.transform_point(c.local_p1),
            pos2.transform_point(c.local_p2),
            c.dist.neg(),
        ).with_feature_ids(c.fid1, c.fid2);
        points.push(point);
        j = j + 1;
    }
    points
}

/// Computes all contact manifolds between two shapes from what the manifold
/// algorithm `dispatched` for them, and leaves them in `manifolds`, whose
/// earlier content is dropped.
///
/// `rotation1` is the rotation of the first shape. Where the manifold
/// algorithm does not support the pair of shapes, `support_map_contact` is
/// consulted: the contact that the support-map algorithm found for them, if
/// both are convex and close enough. It then yields a single manifold of one
/// point without feature identifiers.
///
/// Manifolds without points and manifolds whose normal is degenerate are left
/// out.
pub fn contact_manifolds(
    rotation1: Rotation,
    dispatched: &Result<Vec<ShapeManifold>, UnsupportedShape>,
    support_map_contact: Option<ShapeContact>,
    manifolds: &mut Vec<ContactManifold>,
)
    ensures
        manifold_views(final(manifolds)@) == contact_manifolds_spec(
            rotation1,
            *dispatched,
            support_map_contact,
        ),
        forall|i: int| 0 <= i < final(manifolds)@.len() ==> manifold_is_valid(#[trigger] final(manifolds)@[i]@),
        dispatched matches Ok(found) ==> final(manifolds)@.len() <= found@.len(),
        dispatched is Err ==> final(manifolds)@.len() <= 1,
{
    manifolds.clear();
    match dispatched {
        Err(_) => {
            if let Some(c) = support_map_contact {
                let normal = rotation1.rotate(c.normal1);
                if normal.is_normalized() {
                    let mut points: Vec<ContactPoint> = Vec::new();
                    points.push(ContactPoint::new(c.point1, c.point2, c.dist.neg()));
                    manifolds.push(ContactManifold::new(points, normal));
                    assert(manifold_views(manifolds@) =~= fallback_manifolds_spec(rotation1, c));
                } else {
                    assert(manifold_views(manifolds@) =~= fallback_manifolds_spec(rotation1, c));
                }
            } else {
                assert(manifold_views(manifolds@) =~= Seq::<ContactManifoldView>::empty());
            }
        },
        Ok(found) => {
            let mut i: usize = 0;
            assert(found@.take(0) =~= Seq::<ShapeManifold>::empty());
            assert(manifold_views(manifolds@) =~= Seq::<ContactManifoldView>::empty());
            while i < found.len()
                invariant
                    i <= found.len(),
                    manifold_views(manifolds@) == exact_manifolds_spec(rotation1, found@.take(i as int)),
                decreases found.len() - i,
            {
                let m = &found[i];
                proof {
                    assert(found@.take(i + 1).drop_last() =~= found@.take(i as int));
                    assert(found@.take(i + 1).last() == found@[i as int]);
                }
                let ghost before = manifolds@;
                if m.contacts.len() > 0 {
                    let pos1 = match m.subshape_pos1 {
                        Some(p) => p,
                        None => Isometry::identity(),
                    };
                    let local_normal = pos1.rotation.rotate(m.local_n1).normalize();
                    let normal = rotation1.rotate(local_normal);
                    if normal.is_normalized() {
                        let points = manifold_points(m);
                        manifolds.push(ContactManifold::new(points, normal));
                        assert(manifold_views(manifolds@) =~= manifold_views(before).push(
                            manifold_spec(rotation1, *m).unwrap(),
                        ));
                    }
                }
                i = i + 1;
            }
            proof {
                assert(found@.take(found@.len() as int) =~= found@);
                lemma_exact_manifolds_valid(rotation1, found@);
            }
        },
    }
    proof {
        let views = manifold_views(manifolds@);
        assert(views.len() == manifolds@.len());
        assert forall|i: int| 0 <= i < manifolds@.len() implies manifold_is_valid(
            #[trigger] manifolds@[i]@,
        ) by {
            assert(views[i] == manifolds@[i]@);
        }
    }
}

/// What `closest_points` returns.
pub open spec fn closest_points_spec(
    found: Result<ShapeProximity, UnsupportedShape>,
) -> Result<ClosestPoints, UnsupportedShape> {
    match found {
        Err(e) => Err(e),
        Ok(ShapeProximity::Intersecting) => Ok(ClosestPoints::Intersecting),
        Ok(ShapeProximity::WithinMargin(p1, p2)) => Ok(ClosestPoints::WithinMargin(p1, p2)),
        Ok(ShapeProximity::Disjoint) => Ok(ClosestPoints::OutsideMargin),
    }
}

/// Classifies the closest points between two shapes from what the
/// closest-point algorithm `found` for them: intersecting, apart within the
/// maximum distance (with the two points), or farther apart than it.
pub fn closest_points(found: Result<ShapeProximity, UnsupportedShape>) -> (r: Result<
    ClosestPoints,
    UnsupportedShape,
>)
    ensures
        r == closest_points_spec(found),
{
    match found {
        Err(e) => Err(e),
        Ok(ShapeProximity::Intersecting) => Ok(ClosestPoints::Intersecting),
        Ok(ShapeProximity::WithinMargin(p1, p2)) => Ok(ClosestPoints::WithinMargin(p1, p2)),
        Ok(ShapeProximity::Disjoint) => Ok(ClosestPoints::OutsideMargin),
    }
}

/// The time of impact that stands for the hit `hit`.
pub open spec fn hit_spec(hit: ShapeCastHit) -> TimeOfImpact {
    TimeOfImpact {
        time_of_impact: hit.time_of_impact,
        point1: hit.witness1,
        point2: hit.witness2,
        normal1: hit.normal1,
        normal2: hit.normal2,
        status: hit.status,
    }
}

/// What `time_of_impact` returns.
pub open spec fn time_of_impact_spec(
    found: Result<Option<ShapeCastHit>, UnsupportedShape>,
) -> Result<Option<TimeOfImpact>, UnsupportedShape> {
    match found {
        Err(e) => Err(e),
        Ok(None) => Ok(None),
        Ok(Some(hit)) => Ok(Some(hit_spec(hit))),
    }
}

/// Computes when two moving shapes hit each other for the first time from
/// what the shape cast `found` for them when run with the options of
/// `time_of_impact_options`.
///
/// The result is `Ok(None)` where the cast found no impact up to the maximum
/// time, and the error of the cast where it has one.
pub fn time_of_impact(found: Result<Option<ShapeCastHit>, UnsupportedShape>) -> (r: Result<
    Option<TimeOfImpact>,
    UnsupportedShape,
>)
    ensures
        r == time_of_impact_spec(found),
{
    match found {
        Err(e) => Err(e),
        Ok(None) => Ok(None),
        Ok(Some(hit)) => Ok(
            Some(
                TimeOfImpact {
                    time_of_impact: hit.time_of_impact,
                    point1: hit.witness1,
                    point2: hit.witness2,
                    normal1: hit.normal1,
                    normal2: hit.normal2,
                    status: hit.status,
                },
            ),
        ),
    }
}

} // verus!
