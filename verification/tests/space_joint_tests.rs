use avian::collision::contact_types::Entity;
use avian::dim3::dynamics::solver::joints::prismatic::DistanceLimit;
use avian::dim3::dynamics::solver::joints::prismatic::PrismaticJoint;
use avian::dim3::dynamics::solver::joints::revolute::RevoluteJoint;
use avian::dim3::dynamics::solver::solver_body::SolverBody;
use avian::dim3::dynamics::solver::solver_body::SolverBodyInertia;
use avian::dim3::math::matrix::SymmetricMatrix;
use avian::dim3::math::rotation::Rotation;
use avian::dim3::math::vector::Vector;
use avian::dynamics::solver::joints::motor::AngularMotor;
use avian::dynamics::solver::joints::motor::LinearMotor;
use avian::dynamics::solver::joints::motor::MotorModel;
use avian::dynamics::solver::softness::SoftnessCoefficients;
use avian::math::scalar::Scalar;
use avian::math::scalar::ONE_RAW;

/// The scalar `num / den`, for a denominator that is a power of two.
fn part(num: i64, den: i64) -> Scalar {
    Scalar::from_raw(num * (ONE_RAW / den))
}

fn n(value: i64) -> Scalar {
    part(value, 1)
}

fn xyz(x: i64, y: i64, z: i64) -> Vector {
    Vector::new(n(x), n(y), n(z))
}

fn base3() -> SolverBodyInertia {
    SolverBodyInertia::infinite(0)
}

fn body3() -> SolverBodyInertia {
    SolverBodyInertia::new(Scalar::one(), SymmetricMatrix::from_diagonal(Scalar::one()), 0)
}

fn particle3() -> SolverBodyInertia {
    SolverBodyInertia::new(Scalar::one(), SymmetricMatrix::zero(), 0)
}

fn damper() -> MotorModel {
    MotorModel::AccelerationBased { stiffness: Scalar::zero(), damping: n(1) }
}

fn pair() -> (Entity, Entity) {
    (Entity { bits: 1 }, Entity { bits: 2 })
}

fn about(a: Scalar, b: Scalar, raw_tolerance: i64) -> bool {
    (a.raw - b.raw).abs() <= raw_tolerance
}

#[test]
fn revolute_joint_in_space_is_built_step_by_step() {
    let (a, b) = pair();
    let joint = RevoluteJoint::new(a, b);
    assert_eq!(joint.hinge_axis, xyz(0, 0, 1));
    assert!(!joint.motor.enabled);
    let motor = AngularMotor::new(damper()).with_target_velocity(n(4));
    let joint = joint.with_hinge_axis(xyz(1, 0, 0)).with_motor(motor);
    assert_eq!(joint.hinge_axis, xyz(1, 0, 0));
    assert_eq!(joint.motor, motor);
    assert_eq!(joint.body1, a);
    assert_eq!(joint.body2, b);
}

#[test]
fn revolute_motor_in_space_turns_about_the_hinge_axis() {
    let (a, b) = pair();
    let motor = AngularMotor::new(damper()).with_target_velocity(n(4));
    let mut joint = RevoluteJoint::new(a, b).with_hinge_axis(xyz(0, 1, 0)).with_motor(motor);
    let wide = SolverBodyInertia::new(
        n(1),
        SymmetricMatrix { m00: n(5), m01: n(0), m02: n(0), m11: n(1), m12: n(0), m22: n(7) },
        0,
    );
    joint.prepare(&base3(), &wide);
    assert_eq!(joint.motor_part.effective_mass, n(1));
    let mut body1 = SolverBody::at_rest();
    let mut body2 = SolverBody { angular_velocity: xyz(3, 0, -1), ..SolverBody::at_rest() };
    // h = 1, c = 1: the mass scale is 1/2.
    joint.solve(&mut body1, &mut body2, &base3(), &wide, Scalar::zero(), n(1));
    assert_eq!(joint.motor_part.impulse, n(2));
    assert_eq!(body2.angular_velocity, xyz(3, 2, -1));
    assert_eq!(body1, SolverBody::at_rest());
    assert_eq!(body2.linear_velocity, Vector::zero());
}

#[test]
fn revolute_motor_in_space_is_bound_by_its_greatest_torque() {
    let (a, b) = pair();
    let motor = AngularMotor::new(damper()).with_target_velocity(n(4)).with_max_torque(n(2));
    let mut joint = RevoluteJoint::new(a, b).with_motor(motor);
    joint.prepare(&body3(), &body3());
    assert_eq!(joint.motor_part.effective_mass, part(1, 2));
    let mut body1 = SolverBody::at_rest();
    let mut body2 = SolverBody::at_rest();
    joint.solve(&mut body1, &mut body2, &body3(), &body3(), Scalar::zero(), part(1, 2));
    // The motor asks for 1/3 * 1/2 * 4; the torque 2 over the step 1/2 allows 1.
    assert!(joint.motor_part.impulse.raw < ONE_RAW);
    let motor = AngularMotor::new(damper()).with_target_velocity(n(400)).with_max_torque(n(2));
    let mut joint = RevoluteJoint::new(a, b).with_motor(motor);
    joint.prepare(&body3(), &body3());
    let mut body1 = SolverBody::at_rest();
    let mut body2 = SolverBody::at_rest();
    joint.solve(&mut body1, &mut body2, &body3(), &body3(), Scalar::zero(), part(1, 2));
    assert_eq!(joint.motor_part.impulse, n(1));
    assert_eq!(body1.angular_velocity, xyz(0, 0, -1));
    assert_eq!(body2.angular_velocity, xyz(0, 0, 1));
}

#[test]
fn disabled_revolute_motor_in_space_changes_nothing() {
    let (a, b) = pair();
    let mut motor = AngularMotor::new(damper()).with_target_velocity(n(4));
    motor.enabled = false;
    let mut joint = RevoluteJoint::new(a, b).with_motor(motor);
    joint.motor_part.impulse = n(3);
    let begin1 = SolverBody { angular_velocity: xyz(1, 0, 2), ..SolverBody::at_rest() };
    let begin2 = SolverBody { angular_velocity: xyz(0, -2, 1), ..SolverBody::at_rest() };
    let mut body1 = begin1;
    let mut body2 = begin2;
    let before = joint;
    joint.warm_start(&mut body1, &mut body2, &body3(), &body3(), n(1));
    joint.solve(&mut body1, &mut body2, &body3(), &body3(), n(3), n(1));
    assert_eq!(joint, before);
    assert_eq!(body1, begin1);
    assert_eq!(body2, begin2);
    joint.prepare(&body3(), &body3());
    assert_eq!(joint.motor_part.impulse, Scalar::zero());
}

#[test]
fn revolute_warm_start_in_space_applies_the_accumulated_impulse() {
    let (a, b) = pair();
    let mut joint =
        RevoluteJoint::new(a, b).with_hinge_axis(xyz(1, 0, 0)).with_motor(AngularMotor::new(damper()));
    joint.motor_part.impulse = n(4);
    let mut body1 = SolverBody::at_rest();
    let mut body2 = SolverBody::at_rest();
    joint.warm_start(&mut body1, &mut body2, &body3(), &body3(), part(1, 2));
    assert_eq!(body1.angular_velocity, xyz(-2, 0, 0));
    assert_eq!(body2.angular_velocity, xyz(2, 0, 0));
}

#[test]
fn spring_damper_and_acceleration_based_motors_in_space_agree() {
    let (a, b) = pair();
    let spring = MotorModel::SpringDamper { frequency: n(5), damping_ratio: n(1) };
    let gains = spring.gains();
    let direct = MotorModel::AccelerationBased { stiffness: gains.stiffness, damping: gains.damping };
    let target = part(3, 4);
    let step = part(1, 64);
    let run = |model: MotorModel| {
        let motor = AngularMotor::new(model).with_target_position(target);
        let mut joint = RevoluteJoint::new(a, b).with_motor(motor);
        let mut body1 = SolverBody::at_rest();
        let mut body2 = SolverBody::at_rest();
        let mut angle = Scalar::zero();
        let mut trace = Vec::new();
        for _ in 0..240 {
            joint.motor_part.impulse = Scalar::zero();
            joint.prepare(&base3(), &body3());
            joint.solve(&mut body1, &mut body2, &base3(), &body3(), angle, step);
            angle = angle.add(body2.angular_velocity.z.mul(step));
            trace.push((angle, body2.angular_velocity));
        }
        trace
    };
    let with_spring = run(spring);
    assert_eq!(with_spring, run(direct));
    let (angle, speed) = with_spring[239];
    assert!(about(angle, target, ONE_RAW / 1000));
    assert!(about(speed.z, Scalar::zero(), ONE_RAW / 1000));
    assert_eq!(speed.x, Scalar::zero());
}

#[test]
fn prismatic_joint_in_space_is_built_step_by_step() {
    let (a, b) = pair();
    let joint = PrismaticJoint::new(a, b);
    assert_eq!(joint.slider_axis, xyz(1, 0, 0));
    assert!(joint.limits.is_none());
    assert!(!joint.motor.enabled);
    let motor = LinearMotor::new(damper()).with_target_position(n(50));
    let joint = joint.with_slider_axis(xyz(0, 0, 1)).with_limits(n(-100), n(100)).with_motor(motor);
    assert_eq!(joint.slider_axis, xyz(0, 0, 1));
    assert_eq!(joint.limits, Some(DistanceLimit { min: n(-100), max: n(100) }));
    assert_eq!(joint.motor, motor);
}

#[test]
fn prismatic_frame_in_space_follows_the_bodies() {
    let (a, b) = pair();
    let mut joint = PrismaticJoint::new(a, b);
    joint.prepare(xyz(1, 0, 0), xyz(0, 2, 0), xyz(3, 0, 1), &body3(), &body3(), SoftnessCoefficients::rigid());
    let rest = SolverBody::at_rest();
    // d = (3, 0, 1) + (0, 2, 0) - (1, 0, 0) = (2, 2, 1)
    assert_eq!(joint.frame(&rest, &rest), (xyz(1, 0, 0), xyz(3, 2, 1), xyz(0, 2, 0), n(2)));
    let mut moved = rest;
    moved.delta_position = xyz(4, 1, 0);
    assert_eq!(joint.frame(&rest, &moved).3, n(6));
    // The axis turns with the first body: half a turn about the third axis.
    let mut turned = rest;
    turned.delta_rotation = Rotation { x: n(0), y: n(0), z: n(1), w: n(0) };
    let frame = joint.frame(&turned, &rest);
    assert_eq!(frame.0, xyz(-1, 0, 0));
    // d = (3, 0, 1) + (0, 2, 0) - (-1, 0, 0) = (4, 2, 1)
    assert_eq!(frame.3, n(-4));
}

#[test]
fn prismatic_motor_in_space_drives_along_the_axis() {
    let (a, b) = pair();
    let motor = LinearMotor::new(damper()).with_target_velocity(n(4));
    let mut joint = PrismaticJoint::new(a, b).with_slider_axis(xyz(0, 0, 1)).with_motor(motor);
    joint.prepare(xyz(0, 0, 0), xyz(0, 0, 0), xyz(0, 0, 0), &base3(), &particle3(), SoftnessCoefficients::rigid());
    assert_eq!(joint.motor_part.effective_mass, n(1));
    let mut body1 = SolverBody::at_rest();
    let mut body2 = SolverBody { linear_velocity: xyz(7, 1, 0), ..SolverBody::at_rest() };
    joint.solve(&mut body1, &mut body2, &base3(), &particle3(), n(1), false, n(4));
    assert_eq!(joint.motor_part.impulse, n(2));
    assert_eq!(body2.linear_velocity, xyz(7, 1, 2));
    assert_eq!(body1, SolverBody::at_rest());
}

#[test]
fn prismatic_limits_in_space_stop_the_slider() {
    let (a, b) = pair();
    let mut joint = PrismaticJoint::new(a, b).with_limits(n(-1), n(1));
    joint.prepare(xyz(0, 0, 0), xyz(0, 0, 0), xyz(1, 0, 0), &base3(), &particle3(), SoftnessCoefficients::rigid());
    let mut body1 = SolverBody::at_rest();
    let mut body2 = SolverBody { linear_velocity: xyz(3, 5, -2), ..SolverBody::at_rest() };
    joint.solve(&mut body1, &mut body2, &base3(), &particle3(), part(1, 2), false, n(4));
    assert_eq!(body2.linear_velocity, xyz(0, 5, -2));
    assert_eq!(joint.upper_part.impulse, n(3));
    assert_eq!(joint.lower_part.impulse, Scalar::zero());

    let mut joint = PrismaticJoint::new(a, b).with_limits(n(-1), n(1));
    joint.prepare(xyz(0, 0, 0), xyz(0, 0, 0), xyz(-1, 0, 0), &base3(), &particle3(), SoftnessCoefficients::rigid());
    let mut body2 = SolverBody { linear_velocity: xyz(-3, 5, -2), ..SolverBody::at_rest() };
    joint.solve(&mut body1, &mut body2, &base3(), &particle3(), part(1, 2), false, n(4));
    assert_eq!(body2.linear_velocity, xyz(0, 5, -2));
    assert_eq!(joint.lower_part.impulse, n(3));
    assert_eq!(joint.upper_part.impulse, Scalar::zero());
}

#[test]
fn disabled_prismatic_motor_in_space_leaves_the_limits_alone_to_act() {
    let (a, b) = pair();
    let mut motor = LinearMotor::new(damper()).with_target_velocity(n(40));
    motor.enabled = false;
    let solve = |joint: &mut PrismaticJoint, body2: &mut SolverBody| {
        let mut body1 = SolverBody::at_rest();
        joint.prepare(xyz(0, 1, 0), xyz(0, -1, 1), xyz(1, 2, 0), &base3(), &body3(), SoftnessCoefficients::rigid());
        for _ in 0..3 {
            joint.solve(&mut body1, body2, &base3(), &body3(), part(1, 2), true, n(4));
        }
    };
    let start = SolverBody { linear_velocity: xyz(3, 5, 1), angular_velocity: xyz(0, 1, 1), ..SolverBody::at_rest() };
    let mut with_motor_off = PrismaticJoint::new(a, b).with_limits(n(-1), n(1)).with_motor(motor);
    with_motor_off.motor_part.impulse = n(9);
    let mut without_motor = PrismaticJoint::new(a, b).with_limits(n(-1), n(1));
    let mut body_a = start;
    let mut body_b = start;
    solve(&mut with_motor_off, &mut body_a);
    solve(&mut without_motor, &mut body_b);
    assert_eq!(body_a, body_b);
    assert_eq!(with_motor_off.lower_part, without_motor.lower_part);
    assert_eq!(with_motor_off.upper_part, without_motor.upper_part);
    assert!(with_motor_off.upper_part.impulse.raw > 0);

    let mut free = PrismaticJoint::new(a, b).with_motor(motor);
    let mut body_c = start;
    solve(&mut free, &mut body_c);
    assert_eq!(body_c, start);
}

#[test]
fn prismatic_limit_in_space_is_not_bound_by_the_force_of_the_motor() {
    let (a, b) = pair();
    let motor = LinearMotor::new(damper()).with_target_velocity(n(10)).with_max_force(part(1, 4));
    let mut joint = PrismaticJoint::new(a, b).with_limits(n(-1), n(1)).with_motor(motor);
    joint.prepare(xyz(0, 0, 0), xyz(0, 0, 0), xyz(1, 0, 0), &base3(), &particle3(), SoftnessCoefficients::rigid());
    let mut body1 = SolverBody::at_rest();
    let mut body2 = SolverBody { linear_velocity: xyz(8, 0, 0), ..SolverBody::at_rest() };
    joint.solve(&mut body1, &mut body2, &base3(), &particle3(), n(1), false, n(4));
    assert_eq!(joint.motor_part.impulse, part(1, 4));
    assert_eq!(joint.upper_part.impulse, part(33, 4));
    assert_eq!(body2.linear_velocity, xyz(0, 0, 0));
}

#[test]
fn prismatic_warm_start_in_space_applies_motor_and_limits() {
    let (a, b) = pair();
    let motor = LinearMotor::new(damper());
    let mut joint = PrismaticJoint::new(a, b).with_slider_axis(xyz(0, 1, 0)).with_limits(n(-1), n(1)).with_motor(motor);
    joint.motor_part.impulse = n(4);
    joint.lower_part.impulse = n(2);
    joint.upper_part.impulse = n(1);
    let mut body1 = SolverBody::at_rest();
    let mut body2 = SolverBody::at_rest();
    joint.warm_start(&mut body1, &mut body2, &particle3(), &particle3(), part(1, 2));
    assert_eq!(body2.linear_velocity, Vector::new(n(0), part(5, 2), n(0)));
    assert_eq!(body1.linear_velocity, Vector::new(n(0), part(-5, 2), n(0)));
}
