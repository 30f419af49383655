use avian::dim2::collision::contact_query::closest_points;
use avian::dim2::collision::contact_query::contact;
use avian::dim2::collision::contact_query::contact_manifolds;
use avian::dim2::collision::contact_query::time_of_impact;
use avian::collision::contact_query::time_of_impact_options;
use avian::dim2::collision::contact_query::ClosestPoints;
use avian::dim2::collision::contact_query::ShapeCastHit;
use avian::dim2::collision::contact_query::ShapeContact;
use avian::dim2::collision::contact_query::ShapeManifold;
use avian::dim2::collision::contact_query::ShapeManifoldPoint;
use avian::dim2::collision::contact_query::ShapeProximity;
use avian::collision::contact_query::TimeOfImpactStatus;
use avian::collision::contact_query::UnsupportedShape;
use avian::dim2::collision::contact_types::ContactManifold;
use avian::dim2::collision::contact_types::ContactPoint;
use avian::collision::contact_types::PackedFeatureId;
use avian::dim2::math::rotation::Isometry;
use avian::dim2::math::rotation::Rotation;
use avian::math::scalar::Scalar;
use avian::math::scalar::ONE_RAW;
use avian::dim2::math::vector::Vector;
use parry2d::query::PersistentQueryDispatcher;

fn fixed(value: f32) -> Scalar {
    Scalar::from_raw((value as f64 * 4294967296.0).round() as i64)
}

fn fixed_vector(v: parry2d::math::Vector) -> Vector {
    if !v.is_finite() {
        return Vector::zero();
    }
    Vector::new(fixed(v.x), fixed(v.y))
}

fn vector(x: f32, y: f32) -> Vector {
    Vector::new(fixed(x), fixed(y))
}

fn fixed_rotation(rotation: parry2d::math::Rotation) -> Rotation {
    Rotation { cos: fixed(rotation.cos()), sin: fixed(rotation.sin()) }
}

fn fixed_contact(c: parry2d::query::Contact) -> ShapeContact {
    ShapeContact {
        point1: fixed_vector(c.point1),
        point2: fixed_vector(c.point2),
        normal1: fixed_vector(c.normal1),
        normal2: fixed_vector(c.normal2),
        dist: fixed(c.dist),
    }
}

fn fixed_pose(pose: Option<&parry2d::math::Pose>) -> Option<Isometry> {
    match pose {
        Some(p) => Some(Isometry::new(fixed_vector(p.translation), fixed_rotation(p.rotation))),
        None => None,
    }
}

fn fixed_manifold(m: &parry2d::query::ContactManifold<(), ()>) -> ShapeManifold {
    let mut contacts = Vec::new();
    for c in m.contacts() {
        contacts.push(ShapeManifoldPoint {
            local_p1: fixed_vector(c.local_p1),
            local_p2: fixed_vector(c.local_p2),
            dist: fixed(c.dist),
            fid1: PackedFeatureId { code: c.fid1.0 },
            fid2: PackedFeatureId { code: c.fid2.0 },
        });
    }
    ShapeManifold {
        subshape_pos1: fixed_pose(m.subshape_pos1()),
        subshape_pos2: fixed_pose(m.subshape_pos2()),
        local_n1: fixed_vector(m.local_n1),
        contacts,
    }
}

fn found_contact(
    pos1: &parry2d::math::Pose,
    shape1: &dyn parry2d::shape::Shape,
    pos2: &parry2d::math::Pose,
    shape2: &dyn parry2d::shape::Shape,
    prediction: f32,
) -> Result<Option<ShapeContact>, UnsupportedShape> {
    match parry2d::query::contact(pos1, shape1, pos2, shape2, prediction) {
        Ok(Some(c)) => Ok(Some(fixed_contact(c))),
        Ok(None) => Ok(None),
        Err(_) => Err(UnsupportedShape),
    }
}

fn found_manifolds(
    pos1: &parry2d::math::Pose,
    shape1: &dyn parry2d::shape::Shape,
    pos2: &parry2d::math::Pose,
    shape2: &dyn parry2d::shape::Shape,
    prediction: f32,
) -> Result<Vec<ShapeManifold>, UnsupportedShape> {
    let pos12 = pos1.inv_mul(pos2);
    let mut manifolds: Vec<parry2d::query::ContactManifold<(), ()>> = Vec::new();
    let result = parry2d::query::DefaultQueryDispatcher.contact_manifolds(
        &pos12,
        shape1,
        shape2,
        prediction,
        &mut manifolds,
        &mut None,
    );
    match result {
        Ok(()) => Ok(manifolds.iter().map(fixed_manifold).collect()),
        Err(_) => Err(UnsupportedShape),
    }
}

fn found_proximity(
    pos1: &parry2d::math::Pose,
    shape1: &dyn parry2d::shape::Shape,
    pos2: &parry2d::math::Pose,
    shape2: &dyn parry2d::shape::Shape,
    max_distance: f32,
) -> Result<ShapeProximity, UnsupportedShape> {
    match parry2d::query::closest_points(pos1, shape1, pos2, shape2, max_distance) {
        Ok(parry2d::query::ClosestPoints::Intersecting) => Ok(ShapeProximity::Intersecting),
        Ok(parry2d::query::ClosestPoints::WithinMargin(p1, p2)) => {
            Ok(ShapeProximity::WithinMargin(fixed_vector(p1), fixed_vector(p2)))
        }
        Ok(parry2d::query::ClosestPoints::Disjoint) => Ok(ShapeProximity::Disjoint),
        Err(_) => Err(UnsupportedShape),
    }
}

fn unit_x() -> Vector {
    vector(1.0, 0.0)
}

fn sample_contact() -> ShapeContact {
    ShapeContact {
        point1: vector(0.5, 0.0),
        point2: vector(0.25, 0.0),
        normal1: vector(1.0, 0.0),
        normal2: vector(-1.0, 0.0),
        dist: fixed(-0.25),
    }
}

fn sample_point(x: f32, dist: f32, fid1: u32, fid2: u32) -> ShapeManifoldPoint {
    ShapeManifoldPoint {
        local_p1: vector(x, 0.5),
        local_p2: vector(x, -0.5),
        dist: fixed(dist),
        fid1: PackedFeatureId { code: fid1 },
        fid2: PackedFeatureId { code: fid2 },
    }
}

#[test]
fn contact_of_touching_circle_and_square_has_penetration_one_half() {
    let circle = parry2d::shape::Ball::new(0.5);
    let square = parry2d::shape::Cuboid::new(parry2d::math::Vector::new(0.5, 0.5));
    let pos1 = parry2d::math::Pose::identity();
    let pos2 = parry2d::math::Pose::translation(0.5, 0.0);
    let found = found_contact(&pos1, &circle, &pos2, &square, 0.0);
    let result = contact(Vector::zero(), Rotation::identity(), vector(0.5, 0.0), Rotation::identity(), found)
        .expect("supported shapes");
    let c = result.expect("the shapes overlap");
    assert_eq!(c.penetration, fixed(0.5));
    // Each point lies where its own shape has it: on the rim of the circle,
    // and on the left side of the square.
    assert_eq!(c.point1, vector(0.5, 0.0));
    assert_eq!(c.point2, vector(-0.5, 0.0));
    assert!(c.normal1.is_normalized());
    assert!(c.normal2.is_normalized());
}

#[test]
fn contact_beyond_the_prediction_distance_is_none() {
    let circle = parry2d::shape::Ball::new(0.5);
    let square = parry2d::shape::Cuboid::new(parry2d::math::Vector::new(0.5, 0.5));
    let pos1 = parry2d::math::Pose::identity();
    let pos2 = parry2d::math::Pose::translation(5.0, 0.0);
    let found = found_contact(&pos1, &circle, &pos2, &square, 0.0);
    assert_eq!(
        contact(Vector::zero(), Rotation::identity(), vector(5.0, 0.0), Rotation::identity(), found),
        Ok(None)
    );
}

#[test]
fn contact_is_brought_into_the_local_frames() {
    // The first shape is turned a quarter turn counterclockwise, the second a
    // quarter turn clockwise.
    let rotation1 = Rotation { cos: fixed(0.0), sin: fixed(1.0) };
    let rotation2 = Rotation { cos: fixed(0.0), sin: fixed(-1.0) };
    let result =
        contact(vector(0.5, 1.0), rotation1, vector(0.25, -2.0), rotation2, Ok(Some(sample_contact())));
    let c = result.expect("supported").expect("valid normals");
    // The first point lies (0, -1) from the first shape, the second (0, 2)
    // from the second; each is turned back by the rotation of its shape.
    assert_eq!(c.point1, vector(-1.0, 0.0));
    assert_eq!(c.point2, vector(-2.0, 0.0));
    assert_eq!(c.normal1, vector(0.0, -1.0));
    assert_eq!(c.normal2, vector(0.0, -1.0));
    assert_eq!(c.penetration, fixed(0.25));
}

#[test]
fn contact_with_a_degenerate_normal_is_none() {
    let mut degenerate = sample_contact();
    degenerate.normal2 = Vector::zero();
    assert_eq!(contact(Vector::zero(), Rotation::identity(), Vector::zero(), Rotation::identity(), Ok(Some(degenerate))), Ok(None));
    let mut degenerate = sample_contact();
    degenerate.normal1 = Vector::zero();
    assert_eq!(contact(Vector::zero(), Rotation::identity(), Vector::zero(), Rotation::identity(), Ok(Some(degenerate))), Ok(None));
}

#[test]
fn contact_with_a_normal_that_is_not_a_number_is_none() {
    let mut broken = sample_contact();
    broken.normal1 = fixed_vector(parry2d::math::Vector::new(1.0, f32::NAN));
    assert_eq!(broken.normal1, Vector::zero());
    assert_eq!(contact(Vector::zero(), Rotation::identity(), Vector::zero(), Rotation::identity(), Ok(Some(broken))), Ok(None));
}

#[test]
fn contact_normalizes_the_normals() {
    let mut long = sample_contact();
    long.normal1 = vector(3.0, 4.0);
    let c = contact(Vector::zero(), Rotation::identity(), Vector::zero(), Rotation::identity(), Ok(Some(long)))
        .expect("supported")
        .expect("valid normals");
    assert_eq!(c.normal1.x.raw, 2_576_980_377);
    assert_eq!(c.normal1.y.raw, 3_435_973_836);
}

#[test]
fn contact_of_unsupported_shapes_is_an_error() {
    assert_eq!(
        contact(Vector::zero(), Rotation::identity(), Vector::zero(), Rotation::identity(), Err(UnsupportedShape)),
        Err(UnsupportedShape)
    );
}

#[test]
fn contact_manifolds_of_overlapping_circle_and_square() {
    let circle = parry2d::shape::Ball::new(0.5);
    let square = parry2d::shape::Cuboid::new(parry2d::math::Vector::new(0.5, 0.5));
    let pos1 = parry2d::math::Pose::identity();
    let pos2 = parry2d::math::Pose::translation(0.25, 0.0);
    let found = found_manifolds(&pos1, &circle, &pos2, &square, 0.0);
    let mut manifolds = vec![ContactManifold::new(Vec::new(), unit_x())];
    contact_manifolds(Rotation::identity(), &found, None, &mut manifolds);
    assert_eq!(manifolds.is_empty(), false);
    for manifold in manifolds.iter() {
        assert!(!manifold.points.is_empty());
        assert!(manifold.normal.is_normalized());
    }
    assert_eq!(manifolds[0].points.len(), 1);
    assert_eq!(manifolds[0].points[0].penetration, fixed(0.75));
    assert_eq!(manifolds[0].normal, unit_x());
}

#[test]
fn contact_manifolds_of_two_squares_keep_feature_ids() {
    let square = parry2d::shape::Cuboid::new(parry2d::math::Vector::new(0.5, 0.5));
    let pos1 = parry2d::math::Pose::identity();
    let pos2 = parry2d::math::Pose::translation(0.0, 0.75);
    let found = found_manifolds(&pos1, &square, &pos2, &square, 0.0);
    let source = found.clone().expect("supported shapes");
    let mut manifolds = Vec::new();
    contact_manifolds(Rotation::identity(), &found, None, &mut manifolds);
    assert_eq!(manifolds.len(), 1);
    assert_eq!(manifolds[0].points.len(), 2);
    assert_eq!(manifolds[0].normal, vector(0.0, 1.0));
    for (point, from) in manifolds[0].points.iter().zip(source[0].contacts.iter()) {
        assert_eq!(point.penetration, fixed(0.25));
        assert_eq!(point.feature_id1, from.fid1);
        assert_eq!(point.feature_id2, from.fid2);
        assert_eq!(point.anchor1, from.local_p1);
        assert_eq!(point.anchor2, from.local_p2);
        assert_eq!(point.normal_impulse, Scalar::zero());
        assert_eq!(point.tangent_impulse, Scalar::zero());
    }
}

#[test]
fn contact_manifolds_replace_the_old_content() {
    let stale = ContactManifold::new(vec![ContactPoint::new(unit_x(), unit_x(), fixed(1.0))], unit_x());
    let mut manifolds = vec![stale.clone(), stale];
    contact_manifolds(Rotation::identity(), &Ok(Vec::new()), None, &mut manifolds);
    assert!(manifolds.is_empty());
}

#[test]
fn contact_manifolds_drop_empty_and_degenerate_manifolds() {
    let empty = ShapeManifold {
        subshape_pos1: None,
        subshape_pos2: None,
        local_n1: unit_x(),
        contacts: Vec::new(),
    };
    let degenerate = ShapeManifold {
        subshape_pos1: None,
        subshape_pos2: None,
        local_n1: Vector::zero(),
        contacts: vec![sample_point(0.0, -0.125, 1, 2)],
    };
    let good = ShapeManifold {
        subshape_pos1: None,
        subshape_pos2: None,
        local_n1: vector(0.0, 1.0),
        contacts: vec![sample_point(-0.5, -0.125, 1, 2), sample_point(0.5, 0.25, 3, 4)],
    };
    let second = ShapeManifold {
        subshape_pos1: None,
        subshape_pos2: None,
        local_n1: vector(0.0, -2.0),
        contacts: vec![sample_point(0.0, 0.0, 7, 8)],
    };
    let found = Ok(vec![empty, good, degenerate, second]);
    let mut manifolds = Vec::new();
    contact_manifolds(Rotation::identity(), &found, Some(sample_contact()), &mut manifolds);
    assert_eq!(manifolds.len(), 2);
    assert_eq!(manifolds[0].normal, vector(0.0, 1.0));
    assert_eq!(manifolds[0].points.len(), 2);
    assert_eq!(
        manifolds[0].points[0],
        ContactPoint::new(vector(-0.5, 0.5), vector(-0.5, -0.5), fixed(0.125))
            .with_feature_ids(PackedFeatureId { code: 1 }, PackedFeatureId { code: 2 })
    );
    assert_eq!(
        manifolds[0].points[1],
        ContactPoint::new(vector(0.5, 0.5), vector(0.5, -0.5), fixed(-0.25))
            .with_feature_ids(PackedFeatureId { code: 3 }, PackedFeatureId { code: 4 })
    );
    // The normal of the second is normalized before it is used.
    assert_eq!(manifolds[1].normal, vector(0.0, -1.0));
    assert_eq!(manifolds[1].points.len(), 1);
}

#[test]
fn contact_manifolds_apply_the_subshape_poses_and_the_rotation() {
    let quarter = Rotation { cos: fixed(0.0), sin: fixed(1.0) };
    let manifold = ShapeManifold {
        subshape_pos1: Some(Isometry::new(vector(10.0, 0.0), quarter)),
        subshape_pos2: Some(Isometry::new(vector(0.0, -3.0), Rotation::identity())),
        local_n1: unit_x(),
        contacts: vec![sample_point(1.0, -0.5, 5, 6)],
    };
    let mut manifolds = Vec::new();
    contact_manifolds(quarter, &Ok(vec![manifold]), None, &mut manifolds);
    assert_eq!(manifolds.len(), 1);
    // Two quarter turns bring the normal from +x to -x.
    assert_eq!(manifolds[0].normal, vector(-1.0, 0.0));
    // (1, 0.5) turned a quarter turn is (-0.5, 1); moved by (10, 0).
    assert_eq!(manifolds[0].points[0].anchor1, vector(9.5, 1.0));
    assert_eq!(manifolds[0].points[0].anchor2, vector(1.0, -3.5));
    assert_eq!(manifolds[0].points[0].penetration, fixed(0.5));
}

#[test]
fn contact_manifolds_fall_back_to_the_support_map_contact() {
    let mut manifolds = vec![ContactManifold::new(Vec::new(), unit_x())];
    contact_manifolds(
        Rotation { cos: fixed(0.0), sin: fixed(1.0) },
        &Err(UnsupportedShape),
        Some(sample_contact()),
        &mut manifolds,
    );
    assert_eq!(manifolds.len(), 1);
    assert_eq!(manifolds[0].normal, vector(0.0, 1.0));
    assert_eq!(
        manifolds[0].points,
        vec![ContactPoint::new(vector(0.5, 0.0), vector(0.25, 0.0), fixed(0.25))]
    );
    assert_eq!(manifolds[0].points[0].feature_id1, PackedFeatureId::unknown());
}

#[test]
fn contact_manifolds_fallback_with_support_map_contact_from_the_algorithm() {
    let circle = parry2d::shape::Ball::new(0.5);
    let square = parry2d::shape::Cuboid::new(parry2d::math::Vector::new(0.5, 0.5));
    let pos12 = parry2d::math::Pose::translation(0.75, 0.0);
    let found = parry2d::query::contact::contact_support_map_support_map(&pos12, &circle, &square, 0.0)
        .map(fixed_contact);
    assert!(found.is_some());
    let mut manifolds = Vec::new();
    contact_manifolds(Rotation::identity(), &Err(UnsupportedShape), found, &mut manifolds);
    assert_eq!(manifolds.len(), 1);
    assert_eq!(manifolds[0].points.len(), 1);
    let depth = manifolds[0].points[0].penetration.raw - fixed(0.25).raw;
    assert!(depth.abs() < ONE_RAW / 10_000);
}

#[test]
fn contact_manifolds_without_fallback_are_empty() {
    let mut manifolds = vec![ContactManifold::new(Vec::new(), unit_x())];
    contact_manifolds(Rotation::identity(), &Err(UnsupportedShape), None, &mut manifolds);
    assert!(manifolds.is_empty());
    let mut degenerate = sample_contact();
    degenerate.normal1 = vector(0.5, 0.0);
    contact_manifolds(Rotation::identity(), &Err(UnsupportedShape), Some(degenerate), &mut manifolds);
    assert!(manifolds.is_empty());
}

#[test]
fn closest_points_intersecting_within_margin_and_outside() {
    let circle = parry2d::shape::Ball::new(0.5);
    let square = parry2d::shape::Cuboid::new(parry2d::math::Vector::new(0.5, 0.5));
    let origin = parry2d::math::Pose::identity();
    let at = |x: f32| parry2d::math::Pose::translation(x, 0.0);
    assert_eq!(
        closest_points(found_proximity(&origin, &circle, &at(0.0), &square, 2.0)),
        Ok(ClosestPoints::Intersecting)
    );
    assert_eq!(
        closest_points(found_proximity(&origin, &circle, &at(1.5), &square, 2.0)),
        Ok(ClosestPoints::WithinMargin(vector(0.5, 0.0), vector(1.0, 0.0)))
    );
    assert_eq!(
        closest_points(found_proximity(&origin, &circle, &at(5.0), &square, 2.0)),
        Ok(ClosestPoints::OutsideMargin)
    );
}

#[test]
fn closest_points_maps_each_finding() {
    assert_eq!(closest_points(Ok(ShapeProximity::Intersecting)), Ok(ClosestPoints::Intersecting));
    assert_eq!(closest_points(Ok(ShapeProximity::Disjoint)), Ok(ClosestPoints::OutsideMargin));
    assert_eq!(
        closest_points(Ok(ShapeProximity::WithinMargin(unit_x(), vector(2.0, 3.0)))),
        Ok(ClosestPoints::WithinMargin(unit_x(), vector(2.0, 3.0)))
    );
    assert_eq!(closest_points(Err(UnsupportedShape)), Err(UnsupportedShape));
}

#[test]
fn time_of_impact_options_stop_at_penetration() {
    let options = time_of_impact_options(fixed(100.0));
    assert_eq!(options.max_time_of_impact, fixed(100.0));
    assert_eq!(options.target_distance, Scalar::zero());
    assert!(options.stop_at_penetration);
    assert!(options.compute_impact_geometry_on_penetration);
}

#[test]
fn time_of_impact_of_circle_and_square_approaching_head_on() {
    let circle = parry2d::shape::Ball::new(0.5);
    let square = parry2d::shape::Cuboid::new(parry2d::math::Vector::new(0.5, 0.5));
    let pos1 = parry2d::math::Pose::translation(-5.0, 0.0);
    let pos2 = parry2d::math::Pose::translation(5.0, 0.0);
    let options = time_of_impact_options(fixed(100.0));
    let cast = parry2d::query::cast_shapes(
        &pos1,
        parry2d::math::Vector::new(1.0, 0.0),
        &circle,
        &pos2,
        parry2d::math::Vector::new(-1.0, 0.0),
        &square,
        parry2d::query::ShapeCastOptions {
            max_time_of_impact: (options.max_time_of_impact.raw as f64 / 4294967296.0) as f32,
            target_distance: (options.target_distance.raw as f64 / 4294967296.0) as f32,
            stop_at_penetration: options.stop_at_penetration,
            compute_impact_geometry_on_penetration: options.compute_impact_geometry_on_penetration,
        },
    );
    let found = match cast {
        Ok(Some(hit)) => Ok(Some(ShapeCastHit {
            time_of_impact: fixed(hit.time_of_impact),
            witness1: fixed_vector(hit.witness1),
            witness2: fixed_vector(hit.witness2),
            normal1: fixed_vector(hit.normal1),
            normal2: fixed_vector(hit.normal2),
            status: match hit.status {
                parry2d::query::ShapeCastStatus::OutOfIterations => TimeOfImpactStatus::OutOfIterations,
                parry2d::query::ShapeCastStatus::Converged => TimeOfImpactStatus::Converged,
                parry2d::query::ShapeCastStatus::Failed => TimeOfImpactStatus::Failed,
                parry2d::query::ShapeCastStatus::PenetratingOrWithinTargetDist => {
                    TimeOfImpactStatus::PenetratingOrWithinTargetDist
                }
            },
        })),
        Ok(None) => Ok(None),
        Err(_) => Err(UnsupportedShape),
    };
    let result = time_of_impact(found).expect("supported shapes").expect("the shapes meet");
    // The gap of 9 closes at the speed 2.
    assert_eq!(result.time_of_impact, fixed(4.5));
    assert_eq!(result.status, TimeOfImpactStatus::Converged);
}

#[test]
fn time_of_impact_maps_each_finding() {
    let hit = ShapeCastHit {
        time_of_impact: fixed(4.5),
        witness1: vector(0.5, 0.0),
        witness2: vector(-0.5, 0.0),
        normal1: vector(1.0, 0.0),
        normal2: vector(-1.0, 0.0),
        status: TimeOfImpactStatus::PenetratingOrWithinTargetDist,
    };
    let result = time_of_impact(Ok(Some(hit))).expect("supported").expect("a hit");
    assert_eq!(result.time_of_impact, fixed(4.5));
    assert_eq!(result.point1, vector(0.5, 0.0));
    assert_eq!(result.point2, vector(-0.5, 0.0));
    assert_eq!(result.normal1, vector(1.0, 0.0));
    assert_eq!(result.normal2, vector(-1.0, 0.0));
    assert_eq!(result.status, TimeOfImpactStatus::PenetratingOrWithinTargetDist);
    assert_eq!(time_of_impact(Ok(None)), Ok(None));
    assert_eq!(time_of_impact(Err(UnsupportedShape)), Err(UnsupportedShape));
}

#[test]
fn intersecting_shapes_have_no_distance_and_no_closest_points() {
    let circle = parry2d::shape::Ball::new(0.5);
    let square = parry2d::shape::Cuboid::new(parry2d::math::Vector::new(0.5, 0.5));
    let origin = parry2d::math::Pose::identity();
    for step in 0..40 {
        let other = parry2d::math::Pose::translation(step as f32 * 0.125, step as f32 * 0.0625);
        let distance = parry2d::query::distance(&origin, &circle, &other, &square).expect("supported").distance;
        let intersecting =
            parry2d::query::intersection_test(&origin, &circle, &other, &square).expect("supported").intersecting;
        let closest = closest_points(found_proximity(&origin, &circle, &other, &square, 100.0));
        assert_eq!(distance == 0.0, intersecting);
        assert_eq!(closest == Ok(ClosestPoints::Intersecting), intersecting);
        assert!(distance >= 0.0);
    }
}
