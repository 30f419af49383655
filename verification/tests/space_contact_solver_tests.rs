use avian::collision::contact_types::ContactId;
use avian::collision::contact_types::Entity;
use avian::collision::contact_types::PackedFeatureId;
use avian::dim2::math::vector::Vector as TangentImpulse;
use avian::dim3::collision::contact_types::ContactManifold;
use avian::dim3::collision::contact_types::ContactPoint;
use avian::dim3::dynamics::solver::contact::normal_part::angular_response;
use avian::dim3::dynamics::solver::contact::normal_part::effective_mass;
use avian::dim3::dynamics::solver::contact::relative_velocity;
use avian::dim3::dynamics::solver::contact::ContactConstraint;
use avian::dim3::dynamics::solver::contact::ContactNormalPart;
use avian::dim3::dynamics::solver::contact::ContactTangentPart;
use avian::dim3::dynamics::solver::solver_body::apply_angular_impulse;
use avian::dim3::dynamics::solver::solver_body::apply_impulse;
use avian::dim3::dynamics::solver::solver_body::SolverBody;
use avian::dim3::dynamics::solver::solver_body::SolverBodyInertia;
use avian::dim3::math::matrix::SymmetricMatrix;
use avian::dim3::math::vector::Vector;
use avian::dynamics::solver::softness::SoftnessCoefficients;
use avian::math::scalar::Scalar;
use avian::math::scalar::ONE_RAW;

/// The scalar `num / den`, for a denominator that is a power of two.
fn q(num: i64, den: i64) -> Scalar {
    Scalar::from_raw(num * (ONE_RAW / den))
}

fn w(value: i64) -> Scalar {
    q(value, 1)
}

fn v3(x: i64, y: i64, z: i64) -> Vector {
    Vector::new(w(x), w(y), w(z))
}

fn up3() -> Vector {
    v3(0, 1, 0)
}

fn moving3(linear: Vector, angular: Vector) -> SolverBody {
    SolverBody { linear_velocity: linear, angular_velocity: angular, ..SolverBody::at_rest() }
}

fn unit_inertia3() -> SolverBodyInertia {
    SolverBodyInertia::new(Scalar::one(), SymmetricMatrix::from_diagonal(Scalar::one()), 0)
}

fn point_mass3() -> SolverBodyInertia {
    SolverBodyInertia::new(Scalar::one(), SymmetricMatrix::zero(), 0)
}

fn ground3() -> SolverBodyInertia {
    SolverBodyInertia::infinite(0)
}

fn centered3(penetration: Scalar) -> ContactManifold {
    ContactManifold::new(vec![ContactPoint::new(Vector::zero(), Vector::zero(), penetration)], up3())
}

fn build3(
    manifold: &ContactManifold,
    body1: &SolverBody,
    body2: &SolverBody,
    inertia1: &SolverBodyInertia,
    inertia2: &SolverBodyInertia,
    friction: Scalar,
    restitution: Scalar,
    warm_start: bool,
) -> ContactConstraint {
    ContactConstraint::generate(
        Entity { bits: 1 },
        Entity { bits: 2 },
        ContactId { index: 7 },
        3,
        manifold,
        body1,
        body2,
        inertia1,
        inertia2,
        friction,
        restitution,
        Vector::zero(),
        SoftnessCoefficients::rigid(),
        warm_start,
    )
}

fn close3(a: Scalar, b: Scalar, raw_tolerance: i64) -> bool {
    (a.raw - b.raw).abs() <= raw_tolerance
}

fn in_cone(part: &ContactTangentPart, friction: Scalar, normal_impulse: Scalar) -> bool {
    part.impulse.length().raw <= friction.mul(normal_impulse).raw
}

#[test]
fn velocity_at_point_in_space_adds_the_turning_velocity() {
    let body = moving3(v3(1, 2, 3), v3(0, 0, 1));
    assert_eq!(body.velocity_at_point(v3(1, 0, 0)), v3(1, 3, 3));
    assert_eq!(
        relative_velocity(&SolverBody::at_rest(), &body, v3(5, 5, 5), v3(1, 0, 0)),
        v3(1, 3, 3)
    );
}

#[test]
fn apply_impulse_in_space_acts_against_the_first_body_and_on_the_second() {
    let mut body1 = moving3(v3(1, 1, 1), v3(0, 0, 1));
    let mut body2 = SolverBody::at_rest();
    let inertia1 = SolverBodyInertia::new(q(1, 2), SymmetricMatrix::from_diagonal(q(1, 4)), 0);
    let inertia2 = SolverBodyInertia::new(w(2), SymmetricMatrix::from_diagonal(w(1)), 0);
    apply_impulse(&mut body1, &mut body2, &inertia1, &inertia2, v3(1, 0, 0), v3(0, -1, 0), v3(2, 4, 0));
    // v1 -= (2, 4, 0) / 2; w1 -= ((1, 0, 0) x (2, 4, 0)) / 4 = (0, 0, 1)
    assert_eq!(body1.linear_velocity, v3(0, -1, 1));
    assert_eq!(body1.angular_velocity, v3(0, 0, 0));
    // v2 += 2 * (2, 4, 0); w2 += (0, -1, 0) x (2, 4, 0) = (0, 0, 2)
    assert_eq!(body2.linear_velocity, v3(4, 8, 0));
    assert_eq!(body2.angular_velocity, v3(0, 0, 2));
    apply_angular_impulse(&mut body1, &mut body2, &inertia1, &inertia2, v3(4, 0, 0));
    assert_eq!(body1.angular_velocity, v3(-1, 0, 0));
    assert_eq!(body2.angular_velocity, v3(4, 0, 2));
}

#[test]
fn effective_inertias_in_space_follow_dominance() {
    let light = SolverBodyInertia::new(w(2), SymmetricMatrix::from_diagonal(w(3)), 1);
    let heavy = SolverBodyInertia::new(w(4), SymmetricMatrix::from_diagonal(w(5)), -1);
    assert_eq!(SolverBodyInertia::relative_dominance(&light, &heavy), 2);
    let (a, b) = SolverBodyInertia::effective_pair(&light, &heavy);
    assert_eq!(a, SolverBodyInertia::infinite(1));
    assert_eq!(b, heavy);
    let (a, b) = SolverBodyInertia::effective_pair(&heavy, &light);
    assert_eq!(a, heavy);
    assert_eq!(b, SolverBodyInertia::infinite(1));
    assert_eq!(SolverBodyInertia::effective_pair(&light, &light), (light, light));
    assert_eq!(light.effective_inv_mass(), w(2));
    assert_eq!(light.effective_inv_angular_inertia(), SymmetricMatrix::from_diagonal(w(3)));
    assert_eq!(light.dominance(), 1);
    assert_eq!(light.to_infinite(), SolverBodyInertia::infinite(1));
}

#[test]
fn effective_mass_in_space_counts_the_lever_arms() {
    let i1 = SymmetricMatrix::from_diagonal(w(1));
    let i2 = SymmetricMatrix::from_diagonal(q(1, 2));
    // (1, 5, 0) x n = (0, 0, 1); (-2, 3, 0) x n = (0, 0, -2)
    assert_eq!(angular_response(i1, i2, v3(1, 5, 0), v3(-2, 3, 0), up3(), up3()), w(3));
    assert_eq!(effective_mass(w(1), i1, i2, v3(1, 5, 0), v3(-2, 3, 0), up3()), q(1, 4));
    assert_eq!(
        effective_mass(Scalar::zero(), SymmetricMatrix::zero(), SymmetricMatrix::zero(), up3(), up3(), up3()),
        Scalar::zero()
    );
}

#[test]
fn tangent_directions_follow_the_slide() {
    let rest = SolverBody::at_rest();
    let constraint = build3(
        &centered3(Scalar::zero()),
        &rest,
        &rest,
        &unit_inertia3(),
        &unit_inertia3(),
        Scalar::zero(),
        Scalar::zero(),
        false,
    );
    // The first body slides along x relative to the second; what it moves
    // along the normal does not count.
    assert_eq!(constraint.tangent_directions(v3(3, 5, 0), v3(0, 0, 0)), [v3(1, 0, 0), v3(0, 0, 1)]);
    assert_eq!(constraint.tangent_directions(v3(0, 1, 0), v3(0, 1, 2)), [v3(0, 0, -1), v3(1, 0, 0)]);
    // Without a slide any direction at a right angle to the normal serves.
    assert_eq!(constraint.tangent_directions(v3(0, 7, 0), v3(0, 0, 0)), [v3(0, 0, 1), v3(-1, 0, 0)]);
    assert_eq!(constraint.tangent_directions(v3(1, 1, 1), v3(1, 1, 1)), [v3(0, 0, 1), v3(-1, 0, 0)]);
}

#[test]
fn tangent_directions_are_unit_vectors_for_the_slowest_slide() {
    let rest = SolverBody::at_rest();
    let constraint = build3(
        &centered3(Scalar::zero()),
        &rest,
        &rest,
        &unit_inertia3(),
        &unit_inertia3(),
        Scalar::zero(),
        Scalar::zero(),
        false,
    );
    // A slide of one raw unit along two axes has no direction that could be
    // told: the tangents are those of no slide.
    let slow = Vector::new(Scalar::from_raw(1), Scalar::zero(), Scalar::from_raw(1));
    let tangents = constraint.tangent_directions(slow, Vector::zero());
    assert_eq!(tangents, [v3(0, 0, 1), v3(-1, 0, 0)]);
    // A slide that is slow, but not too slow, keeps its direction.
    let slide = Vector::new(Scalar::from_raw(3 << 20), Scalar::from_raw(77), Scalar::from_raw(-(4 << 20)));
    let tangents = constraint.tangent_directions(slide, Vector::zero());
    assert!(tangents[0].is_normalized());
    assert!(tangents[0].x.raw > 0 && tangents[0].z.raw < 0);
    let mut seed: i64 = 99;
    let mut next = |span: i64| {
        seed = (seed * 1_103_515_245 + 12_345) % 2_147_483_648;
        Scalar::from_raw(seed % (2 * span + 1) - span)
    };
    for round in 0..400 {
        let span = 1 << (round % 40);
        let velocity = Vector::new(next(span), next(span), next(span));
        let tangents = constraint.tangent_directions(velocity, Vector::zero());
        assert!(tangents[0].is_normalized());
        assert!(tangents[1].is_normalized());
        assert!(tangents[0].dot(constraint.normal).abs().raw < ONE_RAW / 1000);
        assert!(tangents[1].dot(constraint.normal).abs().raw < ONE_RAW / 1000);
        assert!(tangents[0].dot(tangents[1]).abs().raw < ONE_RAW / 1000);
    }
}

#[test]
fn tangent_directions_of_a_normal_that_is_no_unit_vector_are_axes() {
    let rest = SolverBody::at_rest();
    let mut constraint = build3(
        &centered3(Scalar::zero()),
        &rest,
        &rest,
        &unit_inertia3(),
        &unit_inertia3(),
        Scalar::zero(),
        Scalar::zero(),
        false,
    );
    constraint.normal = v3(0, 2, 0);
    assert_eq!(constraint.tangent_directions(v3(3, 0, 0), Vector::zero()), [v3(0, 0, 1), v3(-1, 0, 0)]);
    constraint.normal = v3(0, -2, 1);
    assert_eq!(constraint.tangent_directions(v3(3, 0, 0), Vector::zero()), [v3(0, 0, 1), v3(1, 0, 0)]);
    constraint.normal = v3(3, -2, 1);
    assert_eq!(constraint.tangent_directions(Vector::zero(), Vector::zero()), [v3(0, 1, 0), v3(0, 0, -1)]);
    constraint.normal = v3(0, 0, -5);
    assert_eq!(constraint.tangent_directions(Vector::zero(), Vector::zero()), [v3(1, 0, 0), v3(0, 1, 0)]);
}

#[test]
fn generate_in_space_builds_one_point_for_each_manifold_point() {
    let mut first = ContactPoint::new(v3(1, 1, 0), v3(1, -1, 0), q(1, 4));
    first.normal_impulse = w(5);
    first.tangent_impulse = TangentImpulse::new(w(-2), w(1));
    let second = ContactPoint::new(v3(-1, 1, 0), v3(-1, -1, 0), q(-1, 2));
    let manifold = ContactManifold::new(vec![first, second], up3());
    let body1 = moving3(v3(0, 1, 0), Vector::zero());
    let body2 = moving3(v3(3, -1, 0), v3(0, 0, 1));
    let constraint = build3(&manifold, &body1, &body2, &unit_inertia3(), &unit_inertia3(), q(1, 2), q(1, 4), true);
    assert_eq!(constraint.body1, Entity { bits: 1 });
    assert_eq!(constraint.body2, Entity { bits: 2 });
    assert_eq!(constraint.contact_id, ContactId { index: 7 });
    assert_eq!(constraint.manifold_index, 3);
    assert_eq!(constraint.relative_dominance, 0);
    assert_eq!(constraint.friction, q(1, 2));
    assert_eq!(constraint.restitution, q(1, 4));
    assert_eq!(constraint.tangent_velocity, Vector::zero());
    assert_eq!(constraint.normal, up3());
    assert_eq!(constraint.points.len(), 2);

    let point = constraint.points[0];
    assert_eq!(point.anchor1, v3(1, 1, 0));
    assert_eq!(point.anchor2, v3(1, -1, 0));
    // v2 at (1, -1, 0) is (3, -1, 0) + (0, 0, 1) x (1, -1, 0) = (4, 0, 0).
    assert_eq!(point.normal_speed, w(-1));
    assert_eq!(point.initial_separation, q(7, 4));
    // k = 2 + 1 + 1 along the normal
    assert_eq!(point.normal_part.effective_mass, q(1, 4));
    assert_eq!(point.normal_part.impulse, w(5));
    let tangent = point.tangent_part.expect("friction is not zero");
    assert_eq!(tangent.impulse, TangentImpulse::new(w(-2), w(1)));
    // The first body slides along -x: the tangents are (-1, 0, 0) and
    // (0, 0, -1). Along x the lever arms are (0, 0, -1) and (0, 0, 1); along z
    // they are (1, 0, -1) and (-1, 0, -1).
    assert_eq!(tangent.response11, w(4));
    assert_eq!(tangent.response12, w(0));
    assert_eq!(tangent.response22, w(6));

    let point = constraint.points[1];
    assert_eq!(point.normal_speed, w(-3));
    assert_eq!(point.initial_separation, q(5, 2));
    assert_eq!(point.normal_part.impulse, Scalar::zero());

    let cold = build3(&manifold, &body1, &body2, &unit_inertia3(), &unit_inertia3(), q(1, 2), q(1, 4), false);
    assert_eq!(cold.points[0].normal_part.impulse, Scalar::zero());
    assert_eq!(cold.points[0].tangent_part.expect("friction").impulse, TangentImpulse::zero());
    let smooth =
        build3(&manifold, &body1, &body2, &unit_inertia3(), &unit_inertia3(), Scalar::zero(), q(1, 4), true);
    assert!(smooth.points[0].tangent_part.is_none());
    let dominant = SolverBodyInertia::new(w(1), SymmetricMatrix::from_diagonal(w(1)), 5);
    let dominated =
        build3(&centered3(Scalar::zero()), &body1, &body2, &dominant, &point_mass3(), Scalar::zero(), w(0), false);
    assert_eq!(dominated.relative_dominance, 5);
    assert_eq!(dominated.points[0].normal_part.effective_mass, w(1));
}

#[test]
fn solve_in_space_stops_an_approach_with_a_normal_impulse() {
    let manifold = centered3(Scalar::zero());
    let mut body1 = SolverBody::at_rest();
    let mut body2 = moving3(v3(3, -2, 4), Vector::zero());
    let mut constraint =
        build3(&manifold, &body1, &body2, &ground3(), &point_mass3(), Scalar::zero(), Scalar::zero(), false);
    constraint.solve(&mut body1, &mut body2, &ground3(), &point_mass3(), q(1, 64), false, w(4));
    assert_eq!(constraint.points[0].normal_part.impulse, w(2));
    assert_eq!(constraint.points[0].normal_part.total_impulse, w(2));
    assert_eq!(body2.linear_velocity, v3(3, 0, 4));
    assert_eq!(body1, SolverBody::at_rest());
    // A body that moves away is not held.
    let mut leaving = moving3(v3(0, 2, 0), Vector::zero());
    let mut free =
        build3(&manifold, &body1, &leaving, &ground3(), &point_mass3(), Scalar::zero(), Scalar::zero(), false);
    free.solve(&mut body1, &mut leaving, &ground3(), &point_mass3(), q(1, 64), false, w(4));
    assert_eq!(leaving.linear_velocity, v3(0, 2, 0));
    assert_eq!(free.points[0].normal_part.impulse, Scalar::zero());
}

#[test]
fn solve_in_space_lets_a_speculative_point_close_its_gap_in_one_step() {
    let manifold = centered3(q(-1, 2));
    let mut body1 = SolverBody::at_rest();
    let mut body2 = moving3(v3(0, -3, 0), Vector::zero());
    let mut constraint =
        build3(&manifold, &body1, &body2, &ground3(), &point_mass3(), Scalar::zero(), Scalar::zero(), false);
    body2.delta_position = Vector::new(Scalar::zero(), q(-1, 4), Scalar::zero());
    constraint.solve(&mut body1, &mut body2, &ground3(), &point_mass3(), q(1, 2), true, w(4));
    // The gap of 1/4 closes in the step of 1/2 at the speed 1/2.
    assert_eq!(body2.linear_velocity, Vector::new(Scalar::zero(), q(-1, 2), Scalar::zero()));
}

#[test]
fn solve_in_space_keeps_friction_within_the_cone() {
    let manifold = centered3(Scalar::zero());
    let mut body1 = SolverBody::at_rest();
    let mut body2 = moving3(v3(3, -2, 0), Vector::zero());
    let friction = q(1, 2);
    let mut constraint =
        build3(&manifold, &body1, &body2, &ground3(), &point_mass3(), friction, Scalar::zero(), false);
    constraint.solve(&mut body1, &mut body2, &ground3(), &point_mass3(), q(1, 64), false, w(4));
    let point = constraint.points[0];
    assert_eq!(point.normal_part.impulse, w(2));
    // Stopping the slide would take the impulse 3 against it; the cone allows
    // the length 1, and the shortened impulse falls one raw unit short of it.
    let part = point.tangent_part.expect("friction");
    assert_eq!(part.impulse, TangentImpulse::new(Scalar::from_raw(ONE_RAW - 1), Scalar::zero()));
    assert_eq!(body2.linear_velocity, Vector::new(Scalar::from_raw(2 * ONE_RAW + 1), w(0), w(0)));
    assert!(in_cone(&part, friction, point.normal_part.impulse));
}

#[test]
fn solve_in_space_stops_a_slow_slide_within_the_cone() {
    let manifold = centered3(Scalar::zero());
    let mut body1 = SolverBody::at_rest();
    let mut body2 = moving3(Vector::new(w(0), w(-2), q(-1, 4)), Vector::zero());
    let mut constraint =
        build3(&manifold, &body1, &body2, &ground3(), &point_mass3(), q(1, 2), Scalar::zero(), false);
    constraint.solve(&mut body1, &mut body2, &ground3(), &point_mass3(), q(1, 64), false, w(4));
    assert_eq!(body2.linear_velocity, Vector::zero());
    assert_eq!(
        constraint.points[0].tangent_part.expect("friction").impulse,
        TangentImpulse::new(q(1, 4), Scalar::zero())
    );
}

#[test]
fn solve_in_space_drives_toward_the_tangent_velocity() {
    let manifold = centered3(Scalar::zero());
    let mut body1 = SolverBody::at_rest();
    let mut body2 = moving3(v3(0, -4, 0), Vector::zero());
    let mut constraint =
        build3(&manifold, &body1, &body2, &ground3(), &point_mass3(), w(1), Scalar::zero(), false);
    // A conveyor belt that carries the second body along.
    constraint.tangent_velocity = v3(3, 0, -1);
    constraint.solve(&mut body1, &mut body2, &ground3(), &point_mass3(), q(1, 64), false, w(4));
    assert_eq!(constraint.points[0].normal_part.impulse, w(4));
    assert_eq!(body2.linear_velocity, v3(3, 0, -1));
}

#[test]
fn solve_in_space_friction_cone_holds_over_many_configurations() {
    let inertia = SolverBodyInertia::new(
        q(3, 4),
        SymmetricMatrix { m00: q(1, 2), m01: q(1, 8), m02: w(0), m11: q(3, 4), m12: q(-1, 8), m22: w(1) },
        0,
    );
    let mut seed: i64 = 4711;
    let mut next = |span: i64| {
        seed = (seed * 1_103_515_245 + 12_345) % 2_147_483_648;
        Scalar::from_raw((seed % (2 * span + 1) - span) * (ONE_RAW / 16))
    };
    for _ in 0..200 {
        let manifold = ContactManifold::new(
            vec![
                ContactPoint::new(
                    Vector::new(next(32), next(32), next(32)),
                    Vector::new(next(32), next(8), next(32)),
                    next(4),
                ),
                ContactPoint::new(
                    Vector::new(next(32), next(32), next(32)),
                    Vector::new(next(32), next(8), next(32)),
                    next(4),
                ),
            ],
            up3(),
        );
        let mut body1 = SolverBody::at_rest();
        let mut body2 = moving3(
            Vector::new(next(64), next(64), next(64)),
            Vector::new(next(16), next(16), next(16)),
        );
        let friction = next(16).abs();
        let mut constraint =
            build3(&manifold, &body1, &body2, &ground3(), &inertia, friction, Scalar::zero(), false);
        for _ in 0..4 {
            constraint.solve(&mut body1, &mut body2, &ground3(), &inertia, q(1, 64), true, w(4));
            for point in constraint.points.iter() {
                assert!(point.normal_part.impulse.raw >= 0);
                if let Some(part) = point.tangent_part {
                    assert!(in_cone(&part, friction, point.normal_part.impulse));
                }
            }
            assert_eq!(body1, SolverBody::at_rest());
        }
    }
}

#[test]
fn restitution_in_space_makes_a_fast_contact_bounce() {
    let manifold = centered3(Scalar::zero());
    let mut body1 = SolverBody::at_rest();
    let mut body2 = moving3(v3(0, -2, 0), Vector::zero());
    let mut constraint =
        build3(&manifold, &body1, &body2, &ground3(), &point_mass3(), Scalar::zero(), q(1, 2), false);
    constraint.solve(&mut body1, &mut body2, &ground3(), &point_mass3(), q(1, 64), false, w(4));
    assert_eq!(body2.linear_velocity, Vector::zero());
    let solved = constraint.clone();
    // The speed 2 before the solve does not exceed the threshold 2.
    constraint.apply_restitution(&mut body1, &mut body2, &ground3(), &point_mass3(), w(2));
    assert_eq!(body2.linear_velocity, Vector::zero());
    assert_eq!(constraint.points[0].normal_part, solved.points[0].normal_part);
    // It exceeds a threshold that is one raw unit less.
    constraint.apply_restitution(
        &mut body1,
        &mut body2,
        &ground3(),
        &point_mass3(),
        Scalar::from_raw(2 * ONE_RAW - 1),
    );
    // Half of the speed 2 comes back.
    assert_eq!(body2.linear_velocity, v3(0, 1, 0));
    assert_eq!(constraint.points[0].normal_part.impulse, w(3));
    assert_eq!(constraint.points[0].normal_part.total_impulse, w(3));
    assert_eq!(body1, SolverBody::at_rest());
}

#[test]
fn restitution_in_space_passes_over_a_point_that_carried_no_impulse() {
    let manifold = centered3(w(-8));
    let mut body1 = SolverBody::at_rest();
    let mut body2 = moving3(v3(0, -2, 0), Vector::zero());
    let mut constraint =
        build3(&manifold, &body1, &body2, &ground3(), &point_mass3(), Scalar::zero(), q(1, 2), false);
    constraint.solve(&mut body1, &mut body2, &ground3(), &point_mass3(), w(1), false, w(4));
    assert_eq!(constraint.points[0].normal_part.total_impulse, Scalar::zero());
    constraint.apply_restitution(&mut body1, &mut body2, &ground3(), &point_mass3(), w(1));
    assert_eq!(body2.linear_velocity, v3(0, -2, 0));
    assert_eq!(constraint.points[0].normal_part.impulse, Scalar::zero());
}

#[test]
fn warm_start_in_space_applies_the_accumulated_impulses() {
    let manifold =
        ContactManifold::new(vec![ContactPoint::new(v3(1, 0, 0), v3(0, -1, 0), Scalar::zero())], up3());
    let rest = SolverBody::at_rest();
    let inertia = unit_inertia3();
    let mut constraint = build3(&manifold, &rest, &rest, &inertia, &inertia, w(1), Scalar::zero(), false);
    constraint.points[0].normal_part.impulse = w(4);
    constraint.points[0].tangent_part.as_mut().expect("friction").impulse = TangentImpulse::new(w(-2), w(6));
    let mut body1 = SolverBody::at_rest();
    let mut body2 = SolverBody::at_rest();
    constraint.warm_start(
        &mut body1,
        &mut body2,
        &inertia,
        &inertia,
        up3(),
        [v3(1, 0, 0), v3(0, 0, 1)],
        q(1, 2),
    );
    // p = 1/2 * (4 * (0, 1, 0) - 2 * (1, 0, 0) + 6 * (0, 0, 1)) = (-1, 2, 3)
    assert_eq!(body1.linear_velocity, v3(1, -2, -3));
    assert_eq!(body2.linear_velocity, v3(-1, 2, 3));
    // (1, 0, 0) x (-1, 2, 3) = (0, -3, 2); (0, -1, 0) x (-1, 2, 3) = (-3, 0, -1)
    assert_eq!(body1.angular_velocity, v3(0, 3, -2));
    assert_eq!(body2.angular_velocity, v3(-3, 0, -1));
}

#[test]
fn a_body_of_infinite_mass_in_space_is_immune_to_every_pass() {
    let manifold = ContactManifold::new(
        vec![
            ContactPoint::new(v3(1, 2, 0), v3(-1, -1, 1), q(1, 4)),
            ContactPoint::new(v3(-1, 2, 1), v3(2, -1, -1), q(1, 8)),
        ],
        up3(),
    );
    let inertia = unit_inertia3();
    let begin = moving3(v3(1, 1, 1), v3(1, 0, 2));
    let mut body1 = begin;
    let start2 = moving3(v3(4, -3, 1), v3(-2, 1, 0));
    let mut body2 = start2;
    let mut constraint = build3(&manifold, &body1, &body2, &ground3(), &inertia, q(1, 2), q(1, 2), false);
    constraint.points[0].normal_part.impulse = w(1);
    let tangents = constraint.tangent_directions(body1.linear_velocity, body2.linear_velocity);
    constraint.warm_start(&mut body1, &mut body2, &ground3(), &inertia, up3(), tangents, w(1));
    assert_eq!(body1, begin);
    constraint.solve(&mut body1, &mut body2, &ground3(), &inertia, q(1, 64), true, w(4));
    assert_eq!(body1, begin);
    constraint.apply_restitution(&mut body1, &mut body2, &ground3(), &inertia, Scalar::zero());
    assert_eq!(body1, begin);
    assert!(body2 != start2);
    constraint.map_entities(Entity { bits: 10 }, Entity { bits: 20 });
    assert_eq!(constraint.body1, Entity { bits: 10 });
    assert_eq!(constraint.body2, Entity { bits: 20 });
}

#[test]
fn store_impulses_and_match_contacts_in_space() {
    let known = |a: u32, b: u32, x: i64| {
        ContactPoint::new(v3(x, 0, 0), v3(x, 0, 0), Scalar::zero())
            .with_feature_ids(PackedFeatureId { code: a }, PackedFeatureId { code: b })
    };
    let mut manifold = ContactManifold::new(vec![known(1, 2, 0), known(3, 4, 1)], up3());
    let rest = SolverBody::at_rest();
    let mut constraint =
        build3(&manifold, &rest, &rest, &unit_inertia3(), &unit_inertia3(), w(1), Scalar::zero(), false);
    constraint.points[0].normal_part.impulse = w(10);
    constraint.points[0].tangent_part.as_mut().expect("friction").impulse = TangentImpulse::new(w(-1), w(2));
    constraint.points[1].normal_part.impulse = w(20);
    constraint.points[1].tangent_part = None;
    constraint.store_impulses(&mut manifold);
    assert_eq!(manifold.points[0].normal_impulse, w(10));
    assert_eq!(manifold.points[0].tangent_impulse, TangentImpulse::new(w(-1), w(2)));
    assert_eq!(manifold.points[1].normal_impulse, w(20));
    assert_eq!(manifold.points[1].tangent_impulse, TangentImpulse::zero());

    let mut next = ContactManifold::new(
        vec![
            known(3, 4, 8),
            known(9, 9, 5),
            known(1, 2, 9),
            ContactPoint::new(Vector::zero(), Vector::zero(), Scalar::zero()),
        ],
        up3(),
    );
    next.match_contacts(&manifold.points);
    assert_eq!(next.points[0].normal_impulse, w(20));
    assert_eq!(next.points[0].anchor1, v3(8, 0, 0));
    assert_eq!(next.points[1].normal_impulse, Scalar::zero());
    assert_eq!(next.points[2].normal_impulse, w(10));
    assert_eq!(next.points[2].tangent_impulse, TangentImpulse::new(w(-1), w(2)));
    assert_eq!(next.points[3].normal_impulse, Scalar::zero());
    assert!(known(1, 2, 0).matches(&known(1, 2, 5)));
    assert!(!known(1, 2, 0).matches(&known(2, 1, 5)));
    assert!(!known(0, 2, 0).matches(&known(0, 2, 5)));
}

#[test]
fn warm_started_solve_in_space_reaches_the_steady_state_of_a_long_solve() {
    let corner = |x: i64, z: i64, a: u32| {
        ContactPoint::new(v3(x, 4, z), Vector::new(w(x), q(-1, 2), w(z)), Scalar::zero())
            .with_feature_ids(PackedFeatureId { code: a }, PackedFeatureId { code: a + 100 })
    };
    let corners = || vec![corner(-1, -1, 1), corner(2, -1, 2), corner(0, 2, 3)];
    let inertia = SolverBodyInertia::new(w(1), SymmetricMatrix::from_diagonal(q(1, 2)), 0);
    let falling = moving3(v3(0, -1, 0), Vector::new(q(1, 4), w(0), q(1, 8)));
    let step = q(1, 64);

    // Solving from zero, for long.
    let mut manifold = ContactManifold::new(corners(), up3());
    let mut body1 = SolverBody::at_rest();
    let mut body2 = falling;
    let mut long =
        build3(&manifold, &body1, &body2, &ground3(), &inertia, Scalar::zero(), Scalar::zero(), false);
    for _ in 0..600 {
        long.solve(&mut body1, &mut body2, &ground3(), &inertia, step, false, w(4));
    }
    let steady = body2;
    long.store_impulses(&mut manifold);
    assert!(long.points.iter().all(|point| point.normal_part.impulse.raw > 0));

    // One solve from zero is not there yet.
    let mut body2 = falling;
    let mut short =
        build3(&manifold, &body1, &body2, &ground3(), &inertia, Scalar::zero(), Scalar::zero(), false);
    short.solve(&mut body1, &mut body2, &ground3(), &inertia, step, false, w(4));
    assert!(!close3(short.points[0].normal_part.impulse, long.points[0].normal_part.impulse, 1 << 20));

    // The same configuration, warm started with what the long solve stored.
    let mut next = ContactManifold::new(corners(), up3());
    next.match_contacts(&manifold.points);
    let mut body2 = falling;
    let mut warm =
        build3(&next, &body1, &body2, &ground3(), &inertia, Scalar::zero(), Scalar::zero(), true);
    let tangents = warm.tangent_directions(body1.linear_velocity, body2.linear_velocity);
    warm.warm_start(&mut body1, &mut body2, &ground3(), &inertia, up3(), tangents, w(1));
    warm.solve(&mut body1, &mut body2, &ground3(), &inertia, step, false, w(4));
    for (a, b) in warm.points.iter().zip(long.points.iter()) {
        assert!(close3(a.normal_part.impulse, b.normal_part.impulse, 256));
    }
    assert!(close3(body2.linear_velocity.y, steady.linear_velocity.y, 256));
    assert!(close3(body2.angular_velocity.x, steady.angular_velocity.x, 256));
    assert!(close3(body2.angular_velocity.z, steady.angular_velocity.z, 256));
}

#[test]
fn parts_in_space_generate_and_solve() {
    let i1 = SymmetricMatrix::from_diagonal(w(1));
    let mut normal = ContactNormalPart::generate(
        w(1),
        i1,
        SymmetricMatrix::zero(),
        v3(1, 0, 0),
        v3(0, 0, 0),
        up3(),
        Some(w(3)),
        SoftnessCoefficients::rigid(),
    );
    assert_eq!(normal.impulse, w(3));
    assert_eq!(normal.effective_mass, q(1, 2));
    let applied = normal.solve_impulse(Scalar::zero(), v3(5, 8, 1), up3(), false, w(4), q(1, 64));
    assert_eq!(applied, w(-3));
    assert_eq!(normal.impulse, Scalar::zero());

    let mut tangent = ContactTangentPart::generate(
        w(1),
        i1,
        SymmetricMatrix::zero(),
        v3(0, 1, 0),
        v3(0, 0, 0),
        [v3(1, 0, 0), v3(0, 0, 1)],
        None,
    );
    assert_eq!(tangent.impulse, TangentImpulse::zero());
    // (0, 1, 0) x (1, 0, 0) = (0, 0, -1); (0, 1, 0) x (0, 0, 1) = (1, 0, 0)
    assert_eq!(tangent.response11, w(2));
    assert_eq!(tangent.response12, w(0));
    assert_eq!(tangent.response22, w(2));
    let applied =
        tangent.solve_impulse([v3(1, 0, 0), v3(0, 0, 1)], v3(2, 7, -4), v3(1, 0, 0), q(1, 4), w(64));
    // The slip is (1, 7, -4): -1/4 * (2 * 1, 2 * -4), within the limit 16
    assert_eq!(tangent.impulse, TangentImpulse::new(q(-1, 2), w(2)));
    assert_eq!(applied, Vector::new(q(-1, 2), w(0), w(2)));
}

#[test]
fn warm_start_in_space_replays_a_solve_from_zero() {
    let manifold = ContactManifold::new(
        vec![
            ContactPoint::new(v3(-1, 4, 1), Vector::new(w(-1), q(-1, 2), w(1)), q(1, 8)),
            ContactPoint::new(v3(2, 4, -1), Vector::new(w(2), q(-1, 2), w(-1)), Scalar::zero()),
            ContactPoint::new(v3(5, 4, 0), Vector::new(w(1), q(-3, 4), w(2)), q(-1, 4)),
        ],
        up3(),
    );
    let inertia1 = SolverBodyInertia::new(q(1, 4), SymmetricMatrix::from_diagonal(q(1, 8)), 0);
    let inertia2 = SolverBodyInertia::new(
        w(1),
        SymmetricMatrix { m00: q(1, 2), m01: q(1, 8), m02: w(0), m11: q(3, 4), m12: q(-1, 8), m22: w(1) },
        0,
    );
    let begin1 = moving3(Vector::new(q(1, 8), q(1, 2), w(0)), Vector::new(w(0), q(-1, 4), q(1, 8)));
    let begin2 = moving3(Vector::new(q(1, 4), w(-1), q(1, 2)), Vector::new(q(1, 4), w(0), q(-1, 2)));
    let mut body1 = begin1;
    let mut body2 = begin2;
    let mut constraint =
        build3(&manifold, &body1, &body2, &inertia1, &inertia2, Scalar::zero(), Scalar::zero(), false);
    constraint.solve(&mut body1, &mut body2, &inertia1, &inertia2, q(1, 64), true, w(4));
    assert!(body1 != begin1 && body2 != begin2);
    let mut again1 = begin1;
    let mut again2 = begin2;
    let tangents = constraint.tangent_directions(again1.linear_velocity, again2.linear_velocity);
    let normal = constraint.normal;
    constraint.warm_start(&mut again1, &mut again2, &inertia1, &inertia2, normal, tangents, Scalar::one());
    assert_eq!(again1, body1);
    assert_eq!(again2, body2);
}
