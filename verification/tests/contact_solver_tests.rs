use avian::collision::contact_types::ContactId;
use avian::dim2::collision::contact_types::ContactManifold;
use avian::dim2::collision::contact_types::ContactPoint;
use avian::collision::contact_types::Entity;
use avian::collision::contact_types::PackedFeatureId;
use avian::dim2::dynamics::solver::contact::normal_part::effective_mass;
use avian::dim2::dynamics::solver::contact::relative_velocity;
use avian::dim2::dynamics::solver::contact::ContactConstraint;
use avian::dim2::dynamics::solver::contact::ContactConstraintPoint;
use avian::dim2::dynamics::solver::contact::ContactNormalPart;
use avian::dim2::dynamics::solver::contact::ContactTangentPart;
use avian::dynamics::solver::softness::SoftnessCoefficients;
use avian::dynamics::solver::softness::SoftnessParameters;
use avian::dim2::dynamics::solver::solver_body::apply_angular_impulse;
use avian::dim2::dynamics::solver::solver_body::apply_impulse;
use avian::dim2::dynamics::solver::solver_body::SolverBody;
use avian::dim2::dynamics::solver::solver_body::SolverBodyInertia;
use avian::dim2::math::rotation::Rotation;
use avian::math::scalar::Scalar;
use avian::math::scalar::ONE_RAW;
use avian::dim2::math::vector::Vector;

/// The scalar `num / den`, for a denominator that is a power of two.
fn ratio(num: i64, den: i64) -> Scalar {
    Scalar::from_raw(num * (ONE_RAW / den))
}

fn whole_number(value: i64) -> Scalar {
    ratio(value, 1)
}

fn vec2(x: Scalar, y: Scalar) -> Vector {
    Vector::new(x, y)
}

fn whole_vector(x: i64, y: i64) -> Vector {
    Vector::new(whole_number(x), whole_number(y))
}

fn up() -> Vector {
    whole_vector(0, 1)
}

fn moving(linear: Vector, angular: Scalar) -> SolverBody {
    SolverBody { linear_velocity: linear, angular_velocity: angular, ..SolverBody::at_rest() }
}

fn unit_inertia() -> SolverBodyInertia {
    SolverBodyInertia::new(Scalar::one(), Scalar::one(), 0)
}

fn point_mass() -> SolverBodyInertia {
    SolverBodyInertia::new(Scalar::one(), Scalar::zero(), 0)
}

fn centered_manifold(penetration: Scalar) -> ContactManifold {
    ContactManifold::new(vec![ContactPoint::new(Vector::zero(), Vector::zero(), penetration)], up())
}

fn build(
    manifold: &ContactManifold,
    body1: &SolverBody,
    body2: &SolverBody,
    inertia1: &SolverBodyInertia,
    inertia2: &SolverBodyInertia,
    friction: Scalar,
    restitution: Scalar,
    warm_start: bool,
) -> ContactConstraint {
    ContactConstraint::generate(
        Entity { bits: 1 },
        Entity { bits: 2 },
        ContactId { index: 7 },
        3,
        manifold,
        body1,
        body2,
        inertia1,
        inertia2,
        friction,
        restitution,
        Scalar::zero(),
        SoftnessCoefficients::rigid(),
        warm_start,
    )
}

fn close(a: Scalar, b: Scalar, raw_tolerance: i64) -> bool {
    (a.raw - b.raw).abs() <= raw_tolerance
}

#[test]
fn velocity_at_point_adds_the_turning_velocity() {
    let body = moving(whole_vector(1, 2), whole_number(3));
    // 3 * perp((2, 1)) = 3 * (-1, 2)
    assert_eq!(body.velocity_at_point(whole_vector(2, 1)), whole_vector(-2, 8));
    assert_eq!(
        relative_velocity(&SolverBody::at_rest(), &body, whole_vector(5, 5), whole_vector(2, 1)),
        whole_vector(-2, 8)
    );
}

#[test]
fn apply_impulse_acts_against_the_first_body_and_on_the_second() {
    let mut body1 = moving(whole_vector(1, 1), whole_number(1));
    let mut body2 = moving(whole_vector(-1, 0), whole_number(0));
    let inertia1 = SolverBodyInertia::new(ratio(1, 2), ratio(1, 4), 0);
    let inertia2 = SolverBodyInertia::new(whole_number(2), whole_number(1), 0);
    apply_impulse(
        &mut body1,
        &mut body2,
        &inertia1,
        &inertia2,
        whole_vector(1, 0),
        whole_vector(0, -1),
        whole_vector(2, 4),
    );
    // v1 -= (2, 4) / 2; w1 -= (1 * 4 - 0 * 2) / 4
    assert_eq!(body1.linear_velocity, whole_vector(0, -1));
    assert_eq!(body1.angular_velocity, whole_number(0));
    // v2 += 2 * (2, 4); w2 += 0 * 4 - (-1) * 2
    assert_eq!(body2.linear_velocity, whole_vector(3, 8));
    assert_eq!(body2.angular_velocity, whole_number(2));
    assert_eq!(body1.delta_position, Vector::zero());
    assert_eq!(body2.delta_rotation, Rotation::identity());
}

#[test]
fn apply_angular_impulse_turns_the_bodies_against_each_other() {
    let mut body1 = moving(whole_vector(1, 1), whole_number(1));
    let mut body2 = moving(whole_vector(-1, 0), whole_number(0));
    let inertia1 = SolverBodyInertia::new(ratio(1, 2), ratio(1, 4), 0);
    let inertia2 = SolverBodyInertia::new(whole_number(2), whole_number(3), 0);
    apply_angular_impulse(&mut body1, &mut body2, &inertia1, &inertia2, whole_number(2));
    assert_eq!(body1.angular_velocity, ratio(1, 2));
    assert_eq!(body2.angular_velocity, whole_number(6));
    assert_eq!(body1.linear_velocity, whole_vector(1, 1));
    assert_eq!(body2.linear_velocity, whole_vector(-1, 0));
}

#[test]
fn effective_inertias_follow_dominance() {
    let light = SolverBodyInertia::new(whole_number(2), whole_number(3), 1);
    let heavy = SolverBodyInertia::new(whole_number(4), whole_number(5), -1);
    assert_eq!(SolverBodyInertia::relative_dominance(&light, &heavy), 2);
    assert_eq!(
        SolverBodyInertia::relative_dominance(
            &SolverBodyInertia::infinite(-128),
            &SolverBodyInertia::infinite(127)
        ),
        -255
    );
    let (a, b) = SolverBodyInertia::effective_pair(&light, &heavy);
    assert_eq!(a, SolverBodyInertia::infinite(1));
    assert_eq!(b, heavy);
    let (a, b) = SolverBodyInertia::effective_pair(&heavy, &light);
    assert_eq!(a, heavy);
    assert_eq!(b, SolverBodyInertia::infinite(1));
    let (a, b) = SolverBodyInertia::effective_pair(&light, &light);
    assert_eq!((a, b), (light, light));
    assert_eq!(light.effective_inv_mass(), whole_number(2));
    assert_eq!(light.effective_inv_angular_inertia(), whole_number(3));
    assert_eq!(light.dominance(), 1);
    assert_eq!(light.to_infinite().effective_inv_mass(), Scalar::zero());
}

#[test]
fn softness_coefficients_of_a_damped_spring() {
    assert_eq!(
        SoftnessParameters::new(whole_number(1), Scalar::zero()).compute_coefficients(ratio(1, 64)),
        SoftnessCoefficients::rigid()
    );
    // w = 2, z = 1/2, h = 1/2: a1 = 2, a2 = 2, a3 = 1/3
    let spring = SoftnessParameters { damping_ratio: ratio(1, 2), angular_frequency: whole_number(2) };
    let k = spring.compute_coefficients(ratio(1, 2));
    let third = Scalar::one().div(whole_number(3));
    assert_eq!(k.bias, whole_number(1));
    assert_eq!(k.impulse_scale, third);
    assert_eq!(k.mass_scale, whole_number(2).mul(third));
    // The angular frequency is two pi times the frequency.
    assert_eq!(
        SoftnessParameters::new(whole_number(1), whole_number(5)).angular_frequency.raw,
        134_930_377_045
    );
}

#[test]
fn effective_mass_counts_the_lever_arms() {
    // k = 1 + 1 * (r1 x n)^2 + 1/2 * (r2 x n)^2 with r1 x n = 1 and r2 x n = -2
    let mass = effective_mass(
        whole_number(1),
        whole_number(1),
        ratio(1, 2),
        whole_vector(1, 5),
        whole_vector(-2, 3),
        up(),
    );
    assert_eq!(mass, ratio(1, 4));
    assert_eq!(
        effective_mass(Scalar::zero(), Scalar::zero(), Scalar::zero(), up(), up(), up()),
        Scalar::zero()
    );
}

#[test]
fn generate_builds_one_point_for_each_manifold_point() {
    let mut first = ContactPoint::new(whole_vector(1, 1), whole_vector(1, -1), ratio(1, 4));
    first.normal_impulse = whole_number(5);
    first.tangent_impulse = whole_number(-2);
    let second = ContactPoint::new(whole_vector(-1, 1), whole_vector(-1, -1), ratio(-1, 2));
    let manifold = ContactManifold::new(vec![first, second], up());
    let body1 = moving(whole_vector(0, 1), Scalar::zero());
    let body2 = moving(whole_vector(3, -1), whole_number(1));
    let constraint = build(
        &manifold,
        &body1,
        &body2,
        &unit_inertia(),
        &unit_inertia(),
        ratio(1, 2),
        ratio(1, 4),
        true,
    );
    assert_eq!(constraint.body1, Entity { bits: 1 });
    assert_eq!(constraint.body2, Entity { bits: 2 });
    assert_eq!(constraint.contact_id, ContactId { index: 7 });
    assert_eq!(constraint.manifold_index, 3);
    assert_eq!(constraint.relative_dominance, 0);
    assert_eq!(constraint.friction, ratio(1, 2));
    assert_eq!(constraint.restitution, ratio(1, 4));
    assert_eq!(constraint.normal, up());
    assert_eq!(constraint.points.len(), 2);

    let point = constraint.points[0];
    assert_eq!(point.anchor1, whole_vector(1, 1));
    assert_eq!(point.anchor2, whole_vector(1, -1));
    // v2 at (1, -1) is (3, -1) + 1 * (1, 1) = (4, 0); v1 is (0, 1).
    assert_eq!(point.normal_speed, whole_number(-1));
    // -1/4 - ((1, -1) - (1, 1)) . n = -1/4 + 2
    assert_eq!(point.initial_separation, ratio(7, 4));
    // k = 2 + 1 + 1 along the normal, and along the tangent (1, 0)
    assert_eq!(point.normal_part.effective_mass, ratio(1, 4));
    assert_eq!(point.normal_part.impulse, whole_number(5));
    assert_eq!(point.normal_part.total_impulse, Scalar::zero());
    assert_eq!(point.normal_part.softness, SoftnessCoefficients::rigid());
    let tangent = point.tangent_part.expect("friction is not zero");
    assert_eq!(tangent.impulse, whole_number(-2));
    assert_eq!(tangent.effective_mass, ratio(1, 4));

    let point = constraint.points[1];
    // v2 at (-1, -1) is (3, -1) + 1 * (1, -1) = (4, -2); v1 is (0, 1).
    assert_eq!(point.normal_speed, whole_number(-3));
    assert_eq!(point.initial_separation, ratio(5, 2));
    assert_eq!(point.normal_part.impulse, Scalar::zero());
}

#[test]
fn generate_without_warm_start_begins_at_zero() {
    let mut first = ContactPoint::new(Vector::zero(), Vector::zero(), Scalar::zero());
    first.normal_impulse = whole_number(5);
    first.tangent_impulse = whole_number(-2);
    let manifold = ContactManifold::new(vec![first], up());
    let rest = SolverBody::at_rest();
    let constraint =
        build(&manifold, &rest, &rest, &unit_inertia(), &unit_inertia(), ratio(1, 2), Scalar::zero(), false);
    assert_eq!(constraint.points[0].normal_part.impulse, Scalar::zero());
    assert_eq!(constraint.points[0].tangent_part.expect("friction").impulse, Scalar::zero());
}

#[test]
fn generate_has_a_friction_part_only_where_friction_is_not_zero() {
    let manifold = centered_manifold(Scalar::zero());
    let rest = SolverBody::at_rest();
    let smooth =
        build(&manifold, &rest, &rest, &unit_inertia(), &unit_inertia(), Scalar::zero(), Scalar::zero(), false);
    assert!(smooth.points[0].tangent_part.is_none());
    let rough = build(
        &manifold,
        &rest,
        &rest,
        &unit_inertia(),
        &unit_inertia(),
        Scalar::from_raw(1),
        Scalar::zero(),
        false,
    );
    assert!(rough.points[0].tangent_part.is_some());
}

#[test]
fn generate_treats_the_dominant_body_as_infinite() {
    let manifold = centered_manifold(Scalar::zero());
    let rest = SolverBody::at_rest();
    let dominant = SolverBodyInertia::new(whole_number(1), whole_number(1), 5);
    let constraint =
        build(&manifold, &rest, &rest, &dominant, &point_mass(), Scalar::zero(), Scalar::zero(), false);
    assert_eq!(constraint.relative_dominance, 5);
    // Only the inverse mass of the second body counts.
    assert_eq!(constraint.points[0].normal_part.effective_mass, whole_number(1));
    let constraint =
        build(&manifold, &rest, &rest, &point_mass(), &point_mass(), Scalar::zero(), Scalar::zero(), false);
    assert_eq!(constraint.points[0].normal_part.effective_mass, ratio(1, 2));
}

#[test]
fn tangent_direction_is_the_normal_turned_clockwise() {
    let manifold = centered_manifold(Scalar::zero());
    let rest = SolverBody::at_rest();
    let constraint =
        build(&manifold, &rest, &rest, &unit_inertia(), &unit_inertia(), Scalar::zero(), Scalar::zero(), false);
    assert_eq!(constraint.tangent_directions(whole_vector(9, 9), whole_vector(-3, 1)), [whole_vector(1, 0)]);
    let mut turned = constraint.clone();
    turned.normal = whole_vector(1, 0);
    assert_eq!(turned.tangent_directions(Vector::zero(), Vector::zero()), [whole_vector(0, -1)]);
    // The tangent of a unit normal is a unit vector.
    turned.normal = whole_vector(3, 4).normalize();
    assert!(turned.normal.is_normalized());
    assert!(turned.tangent_directions(Vector::zero(), Vector::zero())[0].is_normalized());
}

#[test]
fn map_entities_renames_the_bodies() {
    let manifold = centered_manifold(Scalar::zero());
    let rest = SolverBody::at_rest();
    let mut constraint =
        build(&manifold, &rest, &rest, &unit_inertia(), &unit_inertia(), Scalar::zero(), Scalar::zero(), false);
    constraint.map_entities(Entity { bits: 10 }, Entity { bits: 20 });
    assert_eq!(constraint.body1, Entity { bits: 10 });
    assert_eq!(constraint.body2, Entity { bits: 20 });
    assert_eq!(constraint.points.len(), 1);
    assert_eq!(constraint.contact_id, ContactId { index: 7 });
}

#[test]
fn solve_stops_an_approach_with_a_normal_impulse() {
    let manifold = centered_manifold(Scalar::zero());
    let ground = SolverBodyInertia::infinite(0);
    let mut body1 = SolverBody::at_rest();
    let mut body2 = moving(whole_vector(3, -2), Scalar::zero());
    let mut constraint =
        build(&manifold, &body1, &body2, &ground, &point_mass(), Scalar::zero(), Scalar::zero(), false);
    constraint.solve(
        &mut body1,
        &mut body2,
        &ground,
        &point_mass(),
        ratio(1, 64),
        false,
        whole_number(4),
    );
    assert_eq!(constraint.points[0].normal_part.impulse, whole_number(2));
    assert_eq!(constraint.points[0].normal_part.total_impulse, whole_number(2));
    assert_eq!(body2.linear_velocity, whole_vector(3, 0));
    assert_eq!(body1, SolverBody::at_rest());
    // A second solve finds the bodies at rest along the normal.
    constraint.solve(
        &mut body1,
        &mut body2,
        &ground,
        &point_mass(),
        ratio(1, 64),
        false,
        whole_number(4),
    );
    assert_eq!(constraint.points[0].normal_part.impulse, whole_number(2));
    assert_eq!(constraint.points[0].normal_part.total_impulse, whole_number(4));
    assert_eq!(body2.linear_velocity, whole_vector(3, 0));
}

#[test]
fn solve_shares_the_impulse_between_two_bodies() {
    let manifold = centered_manifold(Scalar::zero());
    let mut body1 = moving(whole_vector(0, 1), Scalar::zero());
    let mut body2 = moving(whole_vector(0, -1), Scalar::zero());
    let heavy = SolverBodyInertia::new(ratio(1, 4), Scalar::zero(), 0);
    let light = SolverBodyInertia::new(ratio(3, 4), Scalar::zero(), 0);
    let mut constraint = build(&manifold, &body1, &body2, &heavy, &light, Scalar::zero(), Scalar::zero(), false);
    constraint.solve(&mut body1, &mut body2, &heavy, &light, ratio(1, 64), false, whole_number(4));
    // The effective mass is 1, the closing speed 2: the impulse is 2.
    assert_eq!(constraint.points[0].normal_part.impulse, whole_number(2));
    assert_eq!(body1.linear_velocity, vec2(Scalar::zero(), ratio(1, 2)));
    assert_eq!(body2.linear_velocity, vec2(Scalar::zero(), ratio(1, 2)));
}

#[test]
fn solve_never_pulls() {
    let manifold = centered_manifold(Scalar::zero());
    let ground = SolverBodyInertia::infinite(0);
    let mut body1 = SolverBody::at_rest();
    let mut body2 = moving(whole_vector(0, 2), Scalar::zero());
    let mut constraint =
        build(&manifold, &body1, &body2, &ground, &point_mass(), Scalar::zero(), Scalar::zero(), false);
    constraint.solve(
        &mut body1,
        &mut body2,
        &ground,
        &point_mass(),
        ratio(1, 64),
        false,
        whole_number(4),
    );
    assert_eq!(constraint.points[0].normal_part.impulse, Scalar::zero());
    assert_eq!(body2.linear_velocity, whole_vector(0, 2));
}

#[test]
fn solve_lets_a_speculative_point_close_its_gap_in_one_step() {
    // The bodies are 1/2 apart and approach at the speed 3; the step is 1/2.
    let manifold = centered_manifold(ratio(-1, 2));
    let ground = SolverBodyInertia::infinite(0);
    let mut body1 = SolverBody::at_rest();
    let mut body2 = moving(whole_vector(0, -3), Scalar::zero());
    let mut constraint =
        build(&manifold, &body1, &body2, &ground, &point_mass(), Scalar::zero(), Scalar::zero(), false);
    assert_eq!(constraint.points[0].initial_separation, ratio(1, 2));
    constraint.solve(&mut body1, &mut body2, &ground, &point_mass(), ratio(1, 2), true, whole_number(4));
    assert_eq!(constraint.points[0].normal_part.impulse, whole_number(2));
    assert_eq!(body2.linear_velocity, whole_vector(0, -1));
}

#[test]
fn solve_counts_what_the_bodies_have_moved_since_the_step_began() {
    // The bodies began 1/2 apart; the second has since come 1/4 closer.
    let manifold = centered_manifold(ratio(-1, 2));
    let ground = SolverBodyInertia::infinite(0);
    let mut body1 = SolverBody::at_rest();
    let mut body2 = moving(whole_vector(0, -3), Scalar::zero());
    let mut constraint =
        build(&manifold, &body1, &body2, &ground, &point_mass(), Scalar::zero(), Scalar::zero(), false);
    body2.delta_position = vec2(Scalar::zero(), ratio(-1, 4));
    constraint.solve(&mut body1, &mut body2, &ground, &point_mass(), ratio(1, 2), true, whole_number(4));
    // The gap of 1/4 closes in the step of 1/2 at the speed 1/2.
    assert_eq!(body2.linear_velocity, vec2(Scalar::zero(), ratio(-1, 2)));
    assert_eq!(body2.delta_position, vec2(Scalar::zero(), ratio(-1, 4)));
}

#[test]
fn solve_with_bias_pushes_an_overlap_apart_softly() {
    let manifold = centered_manifold(ratio(1, 2));
    let ground = SolverBodyInertia::infinite(0);
    let softness = SoftnessCoefficients {
        bias: whole_number(4),
        mass_scale: ratio(1, 2),
        impulse_scale: ratio(1, 4),
    };
    let mut body1 = SolverBody::at_rest();
    let mut body2 = SolverBody::at_rest();
    let mut constraint = ContactConstraint::generate(
        Entity { bits: 1 },
        Entity { bits: 2 },
        ContactId { index: 0 },
        0,
        &manifold,
        &body1,
        &body2,
        &ground,
        &point_mass(),
        Scalar::zero(),
        Scalar::zero(),
        Scalar::zero(),
        softness,
        false,
    );
    // The bias 4 * (-1/2) is capped at the speed -1.
    constraint.solve(&mut body1, &mut body2, &ground, &point_mass(), ratio(1, 64), true, whole_number(1));
    assert_eq!(constraint.points[0].normal_part.impulse, ratio(1, 2));
    assert_eq!(body2.linear_velocity, vec2(Scalar::zero(), ratio(1, 2)));
    // -1/2 * (1/2 - 1) - 1/4 * 1/2 = 1/8
    constraint.solve(&mut body1, &mut body2, &ground, &point_mass(), ratio(1, 64), true, whole_number(1));
    assert_eq!(constraint.points[0].normal_part.impulse, ratio(5, 8));
    assert_eq!(body2.linear_velocity, vec2(Scalar::zero(), ratio(5, 8)));
    assert_eq!(constraint.points[0].normal_part.total_impulse, ratio(9, 8));
    // Without bias the overlap is only brought to rest.
    let mut still = SolverBody::at_rest();
    let mut relaxed = constraint.clone();
    relaxed.points[0].normal_part.impulse = Scalar::zero();
    relaxed.solve(&mut body1, &mut still, &ground, &point_mass(), ratio(1, 64), false, whole_number(1));
    assert_eq!(still, SolverBody::at_rest());
}

#[test]
fn solve_keeps_friction_within_the_cone() {
    let manifold = centered_manifold(Scalar::zero());
    let ground = SolverBodyInertia::infinite(0);
    let mut body1 = SolverBody::at_rest();
    let mut body2 = moving(whole_vector(3, -2), Scalar::zero());
    let friction = ratio(1, 2);
    let mut constraint =
        build(&manifold, &body1, &body2, &ground, &point_mass(), friction, Scalar::zero(), false);
    constraint.solve(
        &mut body1,
        &mut body2,
        &ground,
        &point_mass(),
        ratio(1, 64),
        false,
        whole_number(4),
    );
    let point = constraint.points[0];
    assert_eq!(point.normal_part.impulse, whole_number(2));
    // Stopping the slide would take -3; the cone allows 1/2 * 2.
    assert_eq!(point.tangent_part.expect("friction").impulse, whole_number(-1));
    assert_eq!(body2.linear_velocity, whole_vector(2, 0));
    assert!(
        point.tangent_part.expect("friction").impulse.abs().raw
            <= friction.mul(point.normal_part.impulse).raw
    );
}

#[test]
fn solve_stops_a_slow_slide_within_the_cone() {
    let manifold = centered_manifold(Scalar::zero());
    let ground = SolverBodyInertia::infinite(0);
    let mut body1 = SolverBody::at_rest();
    let mut body2 = moving(vec2(ratio(-1, 4), whole_number(-2)), Scalar::zero());
    let mut constraint =
        build(&manifold, &body1, &body2, &ground, &point_mass(), ratio(1, 2), Scalar::zero(), false);
    constraint.solve(
        &mut body1,
        &mut body2,
        &ground,
        &point_mass(),
        ratio(1, 64),
        false,
        whole_number(4),
    );
    assert_eq!(constraint.points[0].tangent_part.expect("friction").impulse, ratio(1, 4));
    assert_eq!(body2.linear_velocity, Vector::zero());
}

#[test]
fn solve_drives_toward_the_tangent_speed() {
    let manifold = centered_manifold(Scalar::zero());
    let ground = SolverBodyInertia::infinite(0);
    let mut body1 = SolverBody::at_rest();
    let mut body2 = moving(whole_vector(0, -4), Scalar::zero());
    let mut constraint =
        build(&manifold, &body1, &body2, &ground, &point_mass(), whole_number(1), Scalar::zero(), false);
    // A conveyor belt that carries the second body along at the speed 3.
    constraint.tangent_speed = whole_number(3);
    constraint.solve(
        &mut body1,
        &mut body2,
        &ground,
        &point_mass(),
        ratio(1, 64),
        false,
        whole_number(4),
    );
    assert_eq!(constraint.points[0].normal_part.impulse, whole_number(4));
    assert_eq!(constraint.points[0].tangent_part.expect("friction").impulse, whole_number(3));
    assert_eq!(body2.linear_velocity, whole_vector(3, 0));
}

#[test]
fn solve_passes_over_a_point_without_friction_part() {
    let manifold = centered_manifold(Scalar::zero());
    let ground = SolverBodyInertia::infinite(0);
    let mut body1 = SolverBody::at_rest();
    let mut body2 = moving(whole_vector(3, -2), Scalar::zero());
    let mut constraint =
        build(&manifold, &body1, &body2, &ground, &point_mass(), Scalar::zero(), Scalar::zero(), false);
    constraint.solve(
        &mut body1,
        &mut body2,
        &ground,
        &point_mass(),
        ratio(1, 64),
        false,
        whole_number(4),
    );
    assert!(constraint.points[0].tangent_part.is_none());
    assert_eq!(body2.linear_velocity, whole_vector(3, 0));
}

#[test]
fn solve_friction_cone_holds_over_many_configurations() {
    let ground = SolverBodyInertia::infinite(0);
    let inertia = SolverBodyInertia::new(ratio(3, 4), ratio(1, 2), 0);
    let mut seed: i64 = 12345;
    let mut next = |span: i64| {
        seed = (seed * 1_103_515_245 + 12_345) % 2_147_483_648;
        Scalar::from_raw((seed % (2 * span + 1) - span) * (ONE_RAW / 16))
    };
    for _ in 0..200 {
        let manifold = ContactManifold::new(
            vec![
                ContactPoint::new(vec2(next(32), next(32)), vec2(next(32), next(8)), next(4)),
                ContactPoint::new(vec2(next(32), next(32)), vec2(next(32), next(8)), next(4)),
            ],
            up(),
        );
        let mut body1 = SolverBody::at_rest();
        let mut body2 = moving(vec2(next(64), next(64)), next(16));
        let friction = next(16).abs();
        let mut constraint =
            build(&manifold, &body1, &body2, &ground, &inertia, friction, Scalar::zero(), false);
        for _ in 0..4 {
            constraint.solve(&mut body1, &mut body2, &ground, &inertia, ratio(1, 64), true, whole_number(4));
            for point in constraint.points.iter() {
                assert!(point.normal_part.impulse.raw >= 0);
                if let Some(part) = point.tangent_part {
                    assert!(part.impulse.abs().raw <= friction.mul(point.normal_part.impulse).raw);
                }
            }
            assert_eq!(body1, SolverBody::at_rest());
        }
    }
}

#[test]
fn restitution_makes_a_fast_contact_bounce() {
    let manifold = centered_manifold(Scalar::zero());
    let ground = SolverBodyInertia::infinite(0);
    let mut body1 = SolverBody::at_rest();
    let mut body2 = moving(whole_vector(0, -2), Scalar::zero());
    let mut constraint =
        build(&manifold, &body1, &body2, &ground, &point_mass(), Scalar::zero(), ratio(1, 2), false);
    constraint.solve(
        &mut body1,
        &mut body2,
        &ground,
        &point_mass(),
        ratio(1, 64),
        false,
        whole_number(4),
    );
    assert_eq!(body2.linear_velocity, Vector::zero());
    constraint.apply_restitution(&mut body1, &mut body2, &ground, &point_mass(), whole_number(1));
    // Half of the speed 2 comes back.
    assert_eq!(body2.linear_velocity, whole_vector(0, 1));
    assert_eq!(constraint.points[0].normal_part.impulse, whole_number(3));
    assert_eq!(constraint.points[0].normal_part.total_impulse, whole_number(3));
    assert_eq!(body1, SolverBody::at_rest());
}

#[test]
fn restitution_does_not_apply_at_exactly_the_threshold() {
    let manifold = centered_manifold(Scalar::zero());
    let ground = SolverBodyInertia::infinite(0);
    let mut body1 = SolverBody::at_rest();
    let mut body2 = moving(whole_vector(0, -2), Scalar::zero());
    let mut constraint =
        build(&manifold, &body1, &body2, &ground, &point_mass(), Scalar::zero(), whole_number(1), false);
    constraint.solve(
        &mut body1,
        &mut body2,
        &ground,
        &point_mass(),
        ratio(1, 64),
        false,
        whole_number(4),
    );
    let solved = constraint.clone();
    // The speed 2 before the solve does not exceed the threshold 2.
    constraint.apply_restitution(&mut body1, &mut body2, &ground, &point_mass(), whole_number(2));
    assert_eq!(body2.linear_velocity, Vector::zero());
    assert_eq!(constraint.points[0].normal_part, solved.points[0].normal_part);
    // It exceeds a threshold that is one raw unit less.
    constraint.apply_restitution(
        &mut body1,
        &mut body2,
        &ground,
        &point_mass(),
        Scalar::from_raw(2 * ONE_RAW - 1),
    );
    assert_eq!(body2.linear_velocity, whole_vector(0, 2));
}

#[test]
fn restitution_passes_over_a_slow_contact() {
    let manifold = centered_manifold(Scalar::zero());
    let ground = SolverBodyInertia::infinite(0);
    let mut body1 = SolverBody::at_rest();
    let mut body2 = moving(whole_vector(0, -2), Scalar::zero());
    let mut constraint =
        build(&manifold, &body1, &body2, &ground, &point_mass(), Scalar::zero(), ratio(1, 2), false);
    constraint.solve(
        &mut body1,
        &mut body2,
        &ground,
        &point_mass(),
        ratio(1, 64),
        false,
        whole_number(4),
    );
    let before = constraint.points[0];
    // The speed 2 before the solve is below the threshold.
    constraint.apply_restitution(
        &mut body1,
        &mut body2,
        &ground,
        &point_mass(),
        Scalar::from_raw(2 * ONE_RAW + 1),
    );
    assert_eq!(body2.linear_velocity, Vector::zero());
    assert_eq!(constraint.points[0].normal_part, before.normal_part);
}

#[test]
fn restitution_passes_over_a_point_that_carried_no_impulse() {
    // A speculative point: the bodies approach fast but do not meet.
    let manifold = centered_manifold(whole_number(-8));
    let ground = SolverBodyInertia::infinite(0);
    let mut body1 = SolverBody::at_rest();
    let mut body2 = moving(whole_vector(0, -2), Scalar::zero());
    let mut constraint =
        build(&manifold, &body1, &body2, &ground, &point_mass(), Scalar::zero(), ratio(1, 2), false);
    constraint.solve(&mut body1, &mut body2, &ground, &point_mass(), whole_number(1), false, whole_number(4));
    assert_eq!(constraint.points[0].normal_part.total_impulse, Scalar::zero());
    assert_eq!(body2.linear_velocity, whole_vector(0, -2));
    constraint.apply_restitution(&mut body1, &mut body2, &ground, &point_mass(), whole_number(1));
    assert_eq!(body2.linear_velocity, whole_vector(0, -2));
    assert_eq!(constraint.points[0].normal_part.impulse, Scalar::zero());
}

#[test]
fn restitution_only_touches_the_points_that_bounce() {
    let fast = ContactPoint::new(Vector::zero(), whole_vector(-1, 0), Scalar::zero());
    let slow = ContactPoint::new(Vector::zero(), whole_vector(1, 0), Scalar::zero());
    let manifold = ContactManifold::new(vec![fast, slow], up());
    let ground = SolverBodyInertia::infinite(0);
    let inertia = unit_inertia();
    let mut body1 = SolverBody::at_rest();
    // The point at x = -1 comes down at the speed 3, the one at x = 1 at 1.
    let mut body2 = moving(whole_vector(0, -2), whole_number(1));
    let mut constraint =
        build(&manifold, &body1, &body2, &ground, &inertia, Scalar::zero(), ratio(1, 2), false);
    assert_eq!(constraint.points[0].normal_speed, whole_number(-3));
    assert_eq!(constraint.points[1].normal_speed, whole_number(-1));
    for _ in 0..40 {
        constraint.solve(&mut body1, &mut body2, &ground, &inertia, ratio(1, 64), false, whole_number(4));
    }
    let before = constraint.clone();
    assert!(before.points[0].normal_part.total_impulse.raw != 0);
    assert!(before.points[1].normal_part.total_impulse.raw != 0);
    constraint.apply_restitution(&mut body1, &mut body2, &ground, &inertia, whole_number(2));
    assert_eq!(constraint.points[1].normal_part, before.points[1].normal_part);
    assert!(constraint.points[0].normal_part.impulse.raw > before.points[0].normal_part.impulse.raw);
    assert_eq!(constraint.points[0].anchor2, before.points[0].anchor2);
}

#[test]
fn warm_start_applies_the_accumulated_impulses() {
    let manifold = ContactManifold::new(
        vec![ContactPoint::new(whole_vector(1, 0), whole_vector(0, -1), Scalar::zero())],
        up(),
    );
    let rest = SolverBody::at_rest();
    let inertia = unit_inertia();
    let mut constraint =
        build(&manifold, &rest, &rest, &inertia, &inertia, whole_number(1), Scalar::zero(), false);
    constraint.points[0].normal_part.impulse = whole_number(4);
    constraint.points[0].tangent_part = Some(ContactTangentPart {
        impulse: whole_number(-2),
        effective_mass: whole_number(1),
    });
    let mut body1 = SolverBody::at_rest();
    let mut body2 = SolverBody::at_rest();
    let tangents = constraint.tangent_directions(Vector::zero(), Vector::zero());
    constraint.warm_start(&mut body1, &mut body2, &inertia, &inertia, up(), tangents, ratio(1, 2));
    // p = 1/2 * (4 * (0, 1) - 2 * (1, 0)) = (-1, 2)
    assert_eq!(body1.linear_velocity, whole_vector(1, -2));
    assert_eq!(body2.linear_velocity, whole_vector(-1, 2));
    // (1, 0) x (-1, 2) = 2; (0, -1) x (-1, 2) = -1
    assert_eq!(body1.angular_velocity, whole_number(-2));
    assert_eq!(body2.angular_velocity, whole_number(-1));
    assert_eq!(constraint.points[0].normal_part.impulse, whole_number(4));
}

#[test]
fn warm_start_without_friction_part_applies_the_normal_impulse() {
    let manifold = centered_manifold(Scalar::zero());
    let rest = SolverBody::at_rest();
    let mut constraint =
        build(&manifold, &rest, &rest, &point_mass(), &point_mass(), Scalar::zero(), Scalar::zero(), false);
    constraint.points[0].normal_part.impulse = whole_number(3);
    let mut body1 = SolverBody::at_rest();
    let mut body2 = SolverBody::at_rest();
    constraint.warm_start(
        &mut body1,
        &mut body2,
        &point_mass(),
        &point_mass(),
        up(),
        [whole_vector(1, 0)],
        whole_number(1),
    );
    assert_eq!(body1.linear_velocity, whole_vector(0, -3));
    assert_eq!(body2.linear_velocity, whole_vector(0, 3));
}

#[test]
fn a_body_of_infinite_mass_is_immune_to_every_pass() {
    let manifold = ContactManifold::new(
        vec![
            ContactPoint::new(whole_vector(1, 2), whole_vector(-1, -1), ratio(1, 4)),
            ContactPoint::new(whole_vector(-1, 2), whole_vector(2, -1), ratio(1, 8)),
        ],
        up(),
    );
    let wall = SolverBodyInertia::infinite(0);
    let inertia = unit_inertia();
    let begin = moving(whole_vector(1, 1), whole_number(1));
    let mut body1 = begin;
    let mut body2 = moving(whole_vector(4, -3), whole_number(-2));
    let mut constraint =
        build(&manifold, &body1, &body2, &wall, &inertia, ratio(1, 2), ratio(1, 2), false);
    constraint.points[0].normal_part.impulse = whole_number(1);
    let tangents = constraint.tangent_directions(Vector::zero(), Vector::zero());
    constraint.warm_start(&mut body1, &mut body2, &wall, &inertia, up(), tangents, whole_number(1));
    assert_eq!(body1, begin);
    constraint.solve(&mut body1, &mut body2, &wall, &inertia, ratio(1, 64), true, whole_number(4));
    assert_eq!(body1, begin);
    constraint.apply_restitution(&mut body1, &mut body2, &wall, &inertia, Scalar::zero());
    assert_eq!(body1, begin);
    assert!(body2 != moving(whole_vector(4, -3), whole_number(-2)));
}

#[test]
fn store_impulses_and_match_contacts_carry_impulses_to_the_next_step() {
    let known = |a: u32, b: u32, x: i64| {
        ContactPoint::new(whole_vector(x, 0), whole_vector(x, 0), Scalar::zero())
            .with_feature_ids(PackedFeatureId { code: a }, PackedFeatureId { code: b })
    };
    let mut manifold = ContactManifold::new(vec![known(1, 2, 0), known(3, 4, 1), known(5, 6, 2)], up());
    let rest = SolverBody::at_rest();
    let mut constraint =
        build(&manifold, &rest, &rest, &unit_inertia(), &unit_inertia(), whole_number(1), Scalar::zero(), false);
    constraint.points[0].normal_part.impulse = whole_number(10);
    constraint.points[0].tangent_part.as_mut().expect("friction").impulse = whole_number(-1);
    constraint.points[1].normal_part.impulse = whole_number(20);
    constraint.points[1].tangent_part = None;
    constraint.points.truncate(2);
    manifold.points[2].normal_impulse = whole_number(99);
    constraint.store_impulses(&mut manifold);
    assert_eq!(manifold.points[0].normal_impulse, whole_number(10));
    assert_eq!(manifold.points[0].tangent_impulse, whole_number(-1));
    assert_eq!(manifold.points[1].normal_impulse, whole_number(20));
    assert_eq!(manifold.points[1].tangent_impulse, Scalar::zero());
    // The third point has no constraint point and stays as it is.
    assert_eq!(manifold.points[2].normal_impulse, whole_number(99));
    assert_eq!(manifold.points[0].feature_id1, PackedFeatureId { code: 1 });

    // In the next step the points come in another order, one is new, and one
    // has unknown features.
    let mut fresh = known(9, 9, 5);
    fresh.normal_impulse = whole_number(7);
    let mut next = ContactManifold::new(
        vec![
            known(3, 4, 8),
            fresh,
            known(1, 2, 9),
            ContactPoint::new(Vector::zero(), Vector::zero(), Scalar::zero()),
        ],
        up(),
    );
    next.match_contacts(&manifold.points);
    assert_eq!(next.points[0].normal_impulse, whole_number(20));
    assert_eq!(next.points[0].anchor1, whole_vector(8, 0));
    assert_eq!(next.points[1].normal_impulse, whole_number(7));
    assert_eq!(next.points[2].normal_impulse, whole_number(10));
    assert_eq!(next.points[2].tangent_impulse, whole_number(-1));
    assert_eq!(next.points[3].normal_impulse, Scalar::zero());
    assert_eq!(next.normal, up());
}

#[test]
fn match_contacts_takes_the_first_predecessor_and_ignores_unknown_features() {
    let tagged = |a: u32, b: u32, impulse: i64| {
        let mut point = ContactPoint::new(Vector::zero(), Vector::zero(), Scalar::zero())
            .with_feature_ids(PackedFeatureId { code: a }, PackedFeatureId { code: b });
        point.normal_impulse = whole_number(impulse);
        point
    };
    let previous = vec![tagged(0, 0, 1), tagged(1, 0, 2), tagged(1, 2, 3), tagged(1, 2, 4), tagged(2, 1, 5)];
    let mut manifold =
        ContactManifold::new(vec![tagged(1, 2, 0), tagged(0, 0, 50), tagged(1, 0, 60), tagged(2, 1, 0)], up());
    manifold.match_contacts(&previous);
    assert_eq!(manifold.points[0].normal_impulse, whole_number(3));
    assert_eq!(manifold.points[1].normal_impulse, whole_number(50));
    assert_eq!(manifold.points[2].normal_impulse, whole_number(60));
    assert_eq!(manifold.points[3].normal_impulse, whole_number(5));
    assert!(tagged(1, 2, 0).matches(&tagged(1, 2, 9)));
    assert!(!tagged(1, 2, 0).matches(&tagged(2, 1, 9)));
    assert!(!tagged(0, 2, 0).matches(&tagged(0, 2, 9)));
}

#[test]
fn warm_started_solve_reaches_the_steady_state_of_a_long_solve() {
    let corner = |x: i64, a: u32| {
        ContactPoint::new(whole_vector(x, 4), vec2(whole_number(x), ratio(-1, 2)), Scalar::zero())
            .with_feature_ids(PackedFeatureId { code: a }, PackedFeatureId { code: a + 100 })
    };
    let ground = SolverBodyInertia::infinite(0);
    let inertia = SolverBodyInertia::new(whole_number(1), ratio(1, 2), 0);
    let falling = moving(vec2(ratio(1, 4), whole_number(-1)), ratio(1, 4));
    let friction = ratio(1, 2);
    let step = ratio(1, 64);

    // Solving from zero, for long.
    let mut manifold = ContactManifold::new(vec![corner(-1, 1), corner(2, 2)], up());
    let mut body1 = SolverBody::at_rest();
    let mut body2 = falling;
    let mut long = build(&manifold, &body1, &body2, &ground, &inertia, friction, Scalar::zero(), false);
    for _ in 0..400 {
        long.solve(&mut body1, &mut body2, &ground, &inertia, step, false, whole_number(4));
    }
    let steady = body2;
    long.store_impulses(&mut manifold);
    assert!(long.points[0].normal_part.impulse.raw > 0);
    assert!(long.points[1].normal_part.impulse.raw > 0);

    // One solve from zero is not there yet.
    let mut body2 = falling;
    let mut short = build(&manifold, &body1, &body2, &ground, &inertia, friction, Scalar::zero(), false);
    short.solve(&mut body1, &mut body2, &ground, &inertia, step, false, whole_number(4));
    assert!(!close(short.points[0].normal_part.impulse, long.points[0].normal_part.impulse, 1 << 20));

    // The same configuration, warm started with what the long solve stored.
    let mut next = ContactManifold::new(vec![corner(-1, 1), corner(2, 2)], up());
    next.match_contacts(&manifold.points);
    let mut body2 = falling;
    let mut warm = build(&next, &body1, &body2, &ground, &inertia, friction, Scalar::zero(), true);
    let tangents = warm.tangent_directions(body1.linear_velocity, body2.linear_velocity);
    warm.warm_start(&mut body1, &mut body2, &ground, &inertia, up(), tangents, whole_number(1));
    warm.solve(&mut body1, &mut body2, &ground, &inertia, step, false, whole_number(4));
    for (w, l) in warm.points.iter().zip(long.points.iter()) {
        assert!(close(w.normal_part.impulse, l.normal_part.impulse, 64));
        assert!(close(
            w.tangent_part.expect("friction").impulse,
            l.tangent_part.expect("friction").impulse,
            64
        ));
    }
    assert!(close(body2.linear_velocity.x, steady.linear_velocity.x, 64));
    assert!(close(body2.linear_velocity.y, steady.linear_velocity.y, 64));
    assert!(close(body2.angular_velocity, steady.angular_velocity, 64));
}

#[test]
fn normal_part_generate_and_solve() {
    let mut part = ContactNormalPart::generate(
        whole_number(1),
        whole_number(1),
        Scalar::zero(),
        whole_vector(1, 0),
        whole_vector(0, 0),
        up(),
        Some(whole_number(3)),
        SoftnessCoefficients::rigid(),
    );
    assert_eq!(part.impulse, whole_number(3));
    assert_eq!(part.effective_mass, ratio(1, 2));
    // -1/2 * 8 would bring the accumulated impulse to -1: it stops at zero.
    let applied =
        part.solve_impulse(Scalar::zero(), whole_vector(5, 8), up(), false, whole_number(4), ratio(1, 64));
    assert_eq!(applied, whole_number(-3));
    assert_eq!(part.impulse, Scalar::zero());
    let applied =
        part.solve_impulse(Scalar::zero(), whole_vector(5, -8), up(), false, whole_number(4), ratio(1, 64));
    assert_eq!(applied, whole_number(4));
    assert_eq!(part.total_impulse, whole_number(4));
    let applied = part.apply_restitution(whole_number(0), whole_number(-8), ratio(1, 4));
    assert_eq!(applied, whole_number(1));
    assert_eq!(part.impulse, whole_number(5));
    assert_eq!(part.total_impulse, whole_number(5));
}

#[test]
fn tangent_part_generate_and_solve() {
    let mut part = ContactTangentPart::generate(
        whole_number(1),
        whole_number(1),
        Scalar::zero(),
        whole_vector(0, 1),
        whole_vector(0, 0),
        [whole_vector(1, 0)],
        None,
    );
    assert_eq!(part.impulse, Scalar::zero());
    assert_eq!(part.effective_mass, ratio(1, 2));
    let applied = part.solve_impulse(
        [whole_vector(1, 0)],
        whole_vector(2, 7),
        whole_number(1),
        ratio(1, 4),
        whole_number(8),
    );
    // 1/2 * (1 - 2) = -1/2, within the limit 2
    assert_eq!(applied, vec2(ratio(-1, 2), Scalar::zero()));
    assert_eq!(part.impulse, ratio(-1, 2));
    let applied = part.solve_impulse(
        [whole_vector(1, 0)],
        whole_vector(-9, 7),
        whole_number(1),
        ratio(1, 4),
        whole_number(8),
    );
    assert_eq!(part.impulse, whole_number(2));
    assert_eq!(applied, vec2(ratio(5, 2), Scalar::zero()));
}

#[test]
fn constraint_point_is_plain_data() {
    let point = ContactConstraintPoint {
        normal_part: ContactNormalPart {
            impulse: Scalar::zero(),
            total_impulse: Scalar::zero(),
            effective_mass: Scalar::one(),
            softness: SoftnessCoefficients::rigid(),
        },
        tangent_part: None,
        anchor1: whole_vector(1, 2),
        anchor2: whole_vector(3, 4),
        normal_speed: whole_number(-1),
        initial_separation: ratio(1, 2),
    };
    let copy = point;
    assert_eq!(copy.anchor1, point.anchor1);
    assert_eq!(copy.normal_part, point.normal_part);
    assert!(copy.tangent_part.is_none());
}

#[test]
fn warm_start_replays_a_solve_from_zero() {
    let manifold = ContactManifold::new(
        vec![
            ContactPoint::new(whole_vector(-1, 4), vec2(whole_number(-1), ratio(-1, 2)), ratio(1, 8)),
            ContactPoint::new(whole_vector(2, 4), vec2(whole_number(2), ratio(-1, 2)), Scalar::zero()),
            ContactPoint::new(whole_vector(5, 4), vec2(whole_number(1), ratio(-3, 4)), ratio(-1, 4)),
        ],
        up(),
    );
    let inertia1 = SolverBodyInertia::new(ratio(1, 3 + 1), ratio(1, 8), 0);
    let inertia2 = SolverBodyInertia::new(whole_number(1), ratio(1, 2), 0);
    let begin1 = moving(vec2(ratio(1, 8), ratio(1, 2)), ratio(-1, 4));
    let begin2 = moving(vec2(ratio(1, 4), whole_number(-1)), ratio(1, 4));
    let mut body1 = begin1;
    let mut body2 = begin2;
    let mut constraint =
        build(&manifold, &body1, &body2, &inertia1, &inertia2, Scalar::zero(), Scalar::zero(), false);
    constraint.solve(&mut body1, &mut body2, &inertia1, &inertia2, ratio(1, 64), true, whole_number(4));
    assert!(body1 != begin1 && body2 != begin2);
    let mut again1 = begin1;
    let mut again2 = begin2;
    let tangents = constraint.tangent_directions(again1.linear_velocity, again2.linear_velocity);
    let normal = constraint.normal;
    constraint.warm_start(&mut again1, &mut again2, &inertia1, &inertia2, normal, tangents, Scalar::one());
    assert_eq!(again1, body1);
    assert_eq!(again2, body2);
}
