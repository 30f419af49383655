//! The motor and the limits on the slider of a prismatic joint.

use vstd::prelude::*;
use crate::collision::contact_types::Entity;
use crate::dim2::dynamics::solver::contact::normal_part::effective_mass;
use crate::dim2::dynamics::solver::contact::normal_part::effective_mass_spec;
use crate::dim2::dynamics::solver::contact::normal_part::ContactNormalPart;
use crate::dim2::dynamics::solver::contact::relative_velocity;
use crate::dim2::dynamics::solver::contact::relative_velocity_spec;
use crate::dynamics::solver::joints::motor::LinearMotor;
use crate::dynamics::solver::joints::motor::MotorModel;
use crate::dynamics::solver::joints::motor::MotorPart;
use crate::dynamics::solver::softness::SoftnessCoefficients;
use crate::dim2::dynamics::solver::solver_body::apply_impulse;
use crate::dim2::dynamics::solver::solver_body::apply_impulse_spec;
use crate::dim2::dynamics::solver::solver_body::lemma_apply_impulse_immune;
use crate::dim2::dynamics::solver::solver_body::SolverBody;
use crate::dim2::dynamics::solver::solver_body::SolverBodyInertia;
use crate::math::scalar::Scalar;
use crate::dim2::math::vector::Vector;

verus! {

/// The range in which the translation along the slider may lie.
#[derive(Clone, Copy, Debug, PartialEq, Eq, Structural)]
pub struct DistanceLimit {
    /// The least translation.
    pub min: Scalar,
    /// The greatest translation.
    pub max: Scalar,
}

/// What a prismatic joint does about the translation of its second body
/// along the slider axis of its first.
///
/// The joint leaves the translation free within its limits; a motor may
/// drive it. Each limit is a constraint of its own that only ever pushes
/// back into the range, and is solved like the normal part of a contact.
#[derive(Clone, Copy, Debug)]
pub struct PrismaticJoint {
    /// The first body of the joint.
    pub body1: Entity,
    /// The second body of the joint.
    pub body2: Entity,
    /// The point of the joint on the first body, from its center of mass, as
    /// the body was turned when the step began.
    pub anchor1: Vector,
    /// The point of the joint on the second body, from its center of mass,
    /// as the body was turned when the step began.
    pub anchor2: Vector,
    /// The unit axis of the slider, fixed to the first body, as the body was
    /// turned when the step began.
    pub slider_axis: Vector,
    /// Where the center of mass of the second body was from that of the
    /// first when the step began.
    pub delta_center: Vector,
    /// The range of the translation, if it is limited.
    pub limits: Option<DistanceLimit>,
    /// The motor on the translation.
    pub motor: LinearMotor,
    /// The impulse that the motor has accumulated, and the mass it moves.
    pub motor_part: MotorPart,
    /// The lower limit.
    pub lower_part: ContactNormalPart,
    /// The upper limit.
    pub upper_part: ContactNormalPart,
}

/// The slider as it lies at the time of a solve.
pub struct SliderFrame {
    /// The axis, turned with the first body.
    pub axis: Vector,
    /// The point on the first body at which impulses along the axis act, from
    /// its center of mass: where the anchor of the second body lies.
    pub r1: Vector,
    /// The anchor of the second body, from its center of mass, turned with it.
    pub r2: Vector,
    /// The translation of the second anchor from the first along the axis.
    pub translation: Scalar,
}

/// The joint and the two bodies after a solve.
pub struct PrismaticState {
    /// The motor part of the joint.
    pub motor_part: MotorPart,
    /// The lower limit of the joint.
    pub lower_part: ContactNormalPart,
    /// The upper limit of the joint.
    pub upper_part: ContactNormalPart,
    /// The first body.
    pub body1: SolverBody,
    /// The second body.
    pub body2: SolverBody,
}

impl PrismaticJoint {
    /// The slider as it lies for bodies that have moved and turned as
    /// `body1` and `body2` have since the step began.
    pub open spec fn frame_spec(self, body1: SolverBody, body2: SolverBody) -> SliderFrame {
        let r1 = body1.delta_rotation.rotate_spec(self.anchor1);
        let r2 = body2.delta_rotation.rotate_spec(self.anchor2);
        let d = body2.delta_position.sub_spec(body1.delta_position).add_spec(self.delta_center).add_spec(
            r2.sub_spec(r1),
        );
        let axis = body1.delta_rotation.rotate_spec(self.slider_axis);
        SliderFrame { axis, r1: d.add_spec(r1), r2, translation: axis.dot_spec(d) }
    }

    /// The joint with its state `state`.
    pub open spec fn with_state(self, state: PrismaticState) -> PrismaticJoint {
        PrismaticJoint {
            motor_part: state.motor_part,
            lower_part: state.lower_part,
            upper_part: state.upper_part,
            ..self
        }
    }

    /// The state of the joint with the bodies `body1` and `body2`.
    pub open spec fn state(self, body1: SolverBody, body2: SolverBody) -> PrismaticState {
        PrismaticState {
            motor_part: self.motor_part,
            lower_part: self.lower_part,
            upper_part: self.upper_part,
            body1,
            body2,
        }
    }

    /// The state after the motor has been solved.
    pub open spec fn motor_step_spec(
        self,
        frame: SliderFrame,
        state: PrismaticState,
        inertia1: SolverBodyInertia,
        inertia2: SolverBodyInertia,
        delta_secs: Scalar,
    ) -> PrismaticState {
        let speed = relative_velocity_spec(state.body1, state.body2, frame.r1, frame.r2).dot_spec(
            frame.axis,
        );
        let solved = state.motor_part.solve_impulse_spec(
            self.motor.motor_model.gains_spec(),
            frame.translation.sub_spec(self.motor.target_position),
            speed.sub_spec(self.motor.target_velocity),
            self.motor.max_force,
            delta_secs,
        );
        let after = apply_impulse_spec(
            state.body1,
            state.body2,
            inertia1,
            inertia2,
            frame.r1,
            frame.r2,
            frame.axis.scale_spec(solved.1),
        );
        PrismaticState { motor_part: solved.0, body1: after.0, body2: after.1, ..state }
    }

    /// The state after the lower limit `min` has been solved: the second
    /// anchor is pushed along the axis, and never pulled.
    pub open spec fn lower_step_spec(
        frame: SliderFrame,
        state: PrismaticState,
        min: Scalar,
        inertia1: SolverBodyInertia,
        inertia2: SolverBodyInertia,
        delta_secs: Scalar,
        use_bias: bool,
        max_bias_speed: Scalar,
    ) -> PrismaticState {
        let solved = state.lower_part.solve_impulse_spec(
            frame.translation.sub_spec(min),
            relative_velocity_spec(state.body1, state.body2, frame.r1, frame.r2),
            frame.axis,
            use_bias,
            max_bias_speed,
            delta_secs,
        );
        let after = apply_impulse_spec(
            state.body1,
            state.body2,
            inertia1,
            inertia2,
            frame.r1,
            frame.r2,
            frame.axis.scale_spec(solved.1),
        );
        PrismaticState { lower_part: solved.0, body1: after.0, body2: after.1, ..state }
    }

    /// The state after the upper limit `max` has been solved: the second
    /// anchor is pushed against the axis, and never pulled.
    pub open spec fn upper_step_spec(
        frame: SliderFrame,
        state: PrismaticState,
        max: Scalar,
        inertia1: SolverBodyInertia,
        inertia2: SolverBodyInertia,
        delta_secs: Scalar,
        use_bias: bool,
        max_bias_speed: Scalar,
    ) -> PrismaticState {
        let solved = state.upper_part.solve_impulse_spec(
            max.sub_spec(frame.translation),
            relative_velocity_spec(state.body1, state.body2, frame.r1, frame.r2),
            frame.axis.neg_spec(),
            use_bias,
            max_bias_speed,
            delta_secs,
        );
        let after = apply_impulse_spec(
            state.body1,
            state.body2,
            inertia1,
            inertia2,
            frame.r1,
            frame.r2,
            frame.axis.neg_spec().scale_spec(solved.1),
        );
        PrismaticState { upper_part: solved.0, body1: after.0, body2: after.1, ..state }
    }

    /// The state after the limits have been solved, the lower one first. A
    /// joint without limits stays as it is.
    pub open spec fn limits_spec(
        self,
        frame: SliderFrame,
        state: PrismaticState,
        inertia1: SolverBodyInertia,
        inertia2: SolverBodyInertia,
        delta_secs: Scalar,
        use_bias: bool,
        max_bias_speed: Scalar,
    ) -> PrismaticState {
        match self.limits {
            None => state,
            Some(limit) => PrismaticJoint::upper_step_spec(
                frame,
                PrismaticJoint::lower_step_spec(
                    frame,
                    state,
                    limit.min,
                    inertia1,
                    inertia2,
                    delta_secs,
                    use_bias,
                    max_bias_speed,
                ),
                limit.max,
                inertia1,
                inertia2,
                delta_secs,
                use_bias,
                max_bias_speed,
            ),
        }
    }

    /// The state after a solve: the motor first, where it is enabled, then
    /// the limits.
    pub open spec fn solve_spec(
        self,
        body1: SolverBody,
        body2: SolverBody,
        inertia1: SolverBodyInertia,
        inertia2: SolverBodyInertia,
        delta_secs: Scalar,
        use_bias: bool,
        max_bias_speed: Scalar,
    ) -> PrismaticState {
        let frame = self.frame_spec(body1, body2);
        let begin = self.state(body1, body2);
        let driven = if self.motor.enabled {
            self.motor_step_spec(frame, begin, inertia1, inertia2, delta_secs)
        } else {
            begin
        };
        self.limits_spec(frame, driven, inertia1, inertia2, delta_secs, use_bias, max_bias_speed)
    }

    /// Whether `self` differs from `other` at most in what its motor and its
    /// limits have accumulated.
    pub open spec fn same_setup(self, other: PrismaticJoint) -> bool {
        &&& self.body1 == other.body1
        &&& self.body2 == other.body2
        &&& self.anchor1 == other.anchor1
        &&& self.anchor2 == other.anchor2
        &&& self.slider_axis == other.slider_axis
        &&& self.delta_center == other.delta_center
        &&& self.limits == other.limits
        &&& self.motor == other.motor
    }

    /// The joint that `new` makes.
    pub open spec fn new_spec(body1: Entity, body2: Entity) -> PrismaticJoint {
        let rigid = ContactNormalPart {
            impulse: Scalar { raw: 0 },
            total_impulse: Scalar { raw: 0 },
            effective_mass: Scalar { raw: 0 },
            softness: SoftnessCoefficients::rigid_spec(),
        };
        PrismaticJoint {
            body1,
            body2,
            anchor1: Vector { x: Scalar { raw: 0 }, y: Scalar { raw: 0 } },
            anchor2: Vector { x: Scalar { raw: 0 }, y: Scalar { raw: 0 } },
            slider_axis: Vector { x: Scalar { raw: crate::math::scalar::ONE_RAW }, y: Scalar { raw: 0 } },
            delta_center: Vector { x: Scalar { raw: 0 }, y: Scalar { raw: 0 } },
            limits: None,
            motor: LinearMotor { enabled: false, ..LinearMotor::new_spec(MotorModel::default_spec()) },
            motor_part: MotorPart {
                impulse: Scalar { raw: 0 },
                effective_mass: Scalar { raw: 0 },
            },
            lower_part: rigid,
            upper_part: rigid,
        }
    }

    /// A joint between two bodies along the horizontal axis, with the anchors
    /// at the centers of mass, without limits, whose motor is not enabled.
    pub fn new(body1: Entity, body2: Entity) -> (r: PrismaticJoint)
        ensures
            r == PrismaticJoint::new_spec(body1, body2),
    {
        let rigid = ContactNormalPart {
            impulse: Scalar::zero(),
            total_impulse: Scalar::zero(),
            effective_mass: Scalar::zero(),
            softness: SoftnessCoefficients::rigid(),
        };
        PrismaticJoint {
            body1,
            body2,
            anchor1: Vector::zero(),
            anchor2: Vector::zero(),
            slider_axis: Vector::new(Scalar::one(), Scalar::zero()),
            delta_center: Vector::zero(),
            limits: None,
            motor: LinearMotor::new_disabled(MotorModel::default()),
            motor_part: MotorPart::new(),
            lower_part: rigid,
            upper_part: rigid,
        }
    }

    /// The same joint along the axis `axis`.
    pub fn with_slider_axis(self, axis: Vector) -> (r: PrismaticJoint)
        ensures
            r == (PrismaticJoint { slider_axis: axis, ..self }),
    {
        PrismaticJoint { slider_axis: axis, ..self }
    }

    /// The same joint with the translation limited to the range from `min` to
    /// `max`.
    pub fn with_limits(self, min: Scalar, max: Scalar) -> (r: PrismaticJoint)
        ensures
            r == (PrismaticJoint { limits: Some(DistanceLimit { min, max }), ..self }),
    {
        PrismaticJoint { limits: Some(DistanceLimit { min, max }), ..self }
    }

    /// The same joint with the motor `motor`.
    pub fn with_motor(self, motor: LinearMotor) -> (r: PrismaticJoint)
        ensures
            r == (PrismaticJoint { motor, ..self }),
    {
        PrismaticJoint { motor, ..self }
    }

    /// The slider as it lies for the given bodies.
    pub fn frame(&self, body1: &SolverBody, body2: &SolverBody) -> (r: (Vector, Vector, Vector, Scalar))
        ensures
            (SliderFrame { axis: r.0, r1: r.1, r2: r.2, translation: r.3 }) == self.frame_spec(
                *body1,
                *body2,
            ),
    {
        let r1 = body1.delta_rotation.rotate(self.anchor1);
        let r2 = body2.delta_rotation.rotate(self.anchor2);
        let d = body2.delta_position.sub(body1.delta_position).add(self.delta_center).add(r2.sub(r1));
        let axis = body1.delta_rotation.rotate(self.slider_axis);
        (axis, d.add(r1), r2, axis.dot(d))
    }

    /// Prepares the joint for the solves of a step that begins with the
    /// anchors `anchor1` and `anchor2` and the second center of mass at
    /// `delta_center` from the first: the motor and the limits move the
    /// effective mass along the axis, and the limits are as soft as
    /// `softness`.
    ///
    /// What the limits have accumulated is kept for warm starting; so is what
    /// the motor has accumulated where it is enabled.
    pub fn prepare(
        &mut self,
        anchor1: Vector,
        anchor2: Vector,
        delta_center: Vector,
        inertia1: &SolverBodyInertia,
        inertia2: &SolverBodyInertia,
        softness: SoftnessCoefficients,
    )
        ensures
            *final(self) == ({
                let mass = effective_mass_spec(
                    inertia1.inv_mass.add_spec(inertia2.inv_mass),
                    inertia1.inv_angular_inertia,
                    inertia2.inv_angular_inertia,
                    delta_center.add_spec(anchor2),
                    anchor2,
                    old(self).slider_axis,
                );
                PrismaticJoint {
                    anchor1,
                    anchor2,
                    delta_center,
                    motor_part: MotorPart {
                        impulse: if old(self).motor.enabled {
                            old(self).motor_part.impulse
                        } else {
                            Scalar { raw: 0 }
                        },
                        effective_mass: mass,
                    },
                    lower_part: ContactNormalPart {
                        effective_mass: mass,
                        softness,
                        total_impulse: Scalar { raw: 0 },
                        ..old(self).lower_part
                    },
                    upper_part: ContactNormalPart {
                        effective_mass: mass,
                        softness,
                        total_impulse: Scalar { raw: 0 },
                        ..old(self).upper_part
                    },
                    ..*old(self)
                }
            }),
    {
        let mass = effective_mass(
            inertia1.inv_mass.add(inertia2.inv_mass),
            inertia1.inv_angular_inertia,
            inertia2.inv_angular_inertia,
            delta_center.add(anchor2),
            anchor2,
            self.slider_axis,
        );
        self.anchor1 = anchor1;
        self.anchor2 = anchor2;
        self.delta_center = delta_center;
        self.motor_part.effective_mass = mass;
        if !self.motor.enabled {
            self.motor_part.impulse = Scalar::zero();
        }
        self.lower_part.effective_mass = mass;
        self.lower_part.softness = softness;
        self.lower_part.total_impulse = Scalar::zero();
        self.upper_part.effective_mass = mass;
        self.upper_part.softness = softness;
        self.upper_part.total_impulse = Scalar::zero();
    }

    /// The impulse along the axis with which the joint is warm started: what
    /// the motor, where it is enabled, and the limits, where there are any,
    /// have accumulated. The upper limit pushes against the axis.
    pub open spec fn warm_start_impulse_spec(self) -> Scalar {
        let driven = if self.motor.enabled {
            self.motor_part.impulse
        } else {
            Scalar { raw: 0 }
        };
        if self.limits is Some {
            driven.add_spec(self.lower_part.impulse).sub_spec(self.upper_part.impulse)
        } else {
            driven
        }
    }

    /// Warm starts the joint by applying the impulses that its motor and its
    /// limits have accumulated, scaled by `warm_start_coefficient`.
    pub fn warm_start(
        &self,
        body1: &mut SolverBody,
        body2: &mut SolverBody,
        inertia1: &SolverBodyInertia,
        inertia2: &SolverBodyInertia,
        warm_start_coefficient: Scalar,
    )
        ensures
            (*final(body1), *final(body2)) == ({
                let frame = self.frame_spec(*old(body1), *old(body2));
                apply_impulse_spec(
                    *old(body1),
                    *old(body2),
                    *inertia1,
                    *inertia2,
                    frame.r1,
                    frame.r2,
                    frame.axis.scale_spec(
                        warm_start_coefficient.mul_spec(self.warm_start_impulse_spec()),
                    ),
                )
            }),
            inertia1.is_infinite() ==> *final(body1) == *old(body1),
            inertia2.is_infinite() ==> *final(body2) == *old(body2),
    {
        let frame = self.frame(body1, body2);
        let driven = if self.motor.enabled {
            self.motor_part.impulse
        } else {
            Scalar::zero()
        };
        let axial = match self.limits {
            Some(_) => driven.add(self.lower_part.impulse).sub(self.upper_part.impulse),
            None => driven,
        };
        let impulse = frame.0.scale(warm_start_coefficient.mul(axial));
        proof {
            lemma_apply_impulse_immune(*body1, *body2, *inertia1, *inertia2, frame.1, frame.2, impulse);
        }
        apply_impulse(body1, body2, inertia1, inertia2, frame.1, frame.2, impulse);
    }

    /// Solves the joint, applying impulses along the slider axis to the given
    /// bodies: that of the motor first, then those of the limits.
    ///
    /// A motor that is not enabled is passed over: the solve is then that of
    /// the limits alone. The limits are not bound by the greatest force of
    /// the motor.
    pub fn solve(
        &mut self,
        body1: &mut SolverBody,
        body2: &mut SolverBody,
        inertia1: &SolverBodyInertia,
        inertia2: &SolverBodyInertia,
        delta_secs: Scalar,
        use_bias: bool,
        max_bias_speed: Scalar,
    )
        ensures
            final(self).same_setup(*old(self)),
            final(self).state(*final(body1), *final(body2)) == old(self).solve_spec(
                *old(body1),
                *old(body2),
                *inertia1,
                *inertia2,
                delta_secs,
                use_bias,
                max_bias_speed,
            ),
            !old(self).motor.enabled ==> final(self).motor_part == old(self).motor_part && final(self).state(*final(body1), *final(body2)) == old(self).limits_spec(
                old(self).frame_spec(*old(body1), *old(body2)),
                old(self).state(*old(body1), *old(body2)),
                *inertia1,
                *inertia2,
                delta_secs,
                use_bias,
                max_bias_speed,
            ),
            !old(self).motor.enabled && old(self).limits is None ==> final(self).state(
                *final(body1),
                *final(body2),
            ) == old(self).state(*old(body1), *old(body2)),
            old(self).motor.enabled && old(self).motor.max_force@ >= 0 && delta_secs@ >= 0
                ==> final(self).motor_part.impulse.abs_spec()@ <= MotorPart::impulse_limit_spec(
                old(self).motor.max_force,
                delta_secs,
            )@,
            old(self).limits is Some ==> final(self).lower_part.impulse@ >= 0 && final(self).upper_part.impulse@ >= 0,
            final(body1).delta_position == old(body1).delta_position,
            final(body2).delta_position == old(body2).delta_position,
            final(body1).delta_rotation == old(body1).delta_rotation,
            final(body2).delta_rotation == old(body2).delta_rotation,
            inertia1.is_infinite() ==> *final(body1) == *old(body1),
            inertia2.is_infinite() ==> *final(body2) == *old(body2),
    {
        let frame = self.frame(body1, body2);
        let axis = frame.0;
        let r1 = frame.1;
        let r2 = frame.2;
        let translation = frame.3;

        // Motor
        if self.motor.enabled {
            let speed = relative_velocity(body1, body2, r1, r2).dot(axis);
            let mut part = self.motor_part;
            let applied = part.solve_impulse(
                self.motor.motor_model.gains(),
                translation.sub(self.motor.target_position),
                speed.sub(self.motor.target_velocity),
                self.motor.max_force,
                delta_secs,
            );
            self.motor_part = part;
            let impulse = axis.scale(applied);
            proof {
                lemma_apply_impulse_immune(*body1, *body2, *inertia1, *inertia2, r1, r2, impulse);
            }
            apply_impulse(body1, body2, inertia1, inertia2, r1, r2, impulse);
        }

        // Limits
        if let Some(limit) = self.limits {
            // Lower limit
            let velocity = relative_velocity(body1, body2, r1, r2);
            let mut part = self.lower_part;
            let applied = part.solve_impulse(
                translation.sub(limit.min),
                velocity,
                axis,
                use_bias,
                max_bias_speed,
                delta_secs,
            );
            self.lower_part = part;
            let impulse = axis.scale(applied);
            proof {
                lemma_apply_impulse_immune(*body1, *body2, *inertia1, *inertia2, r1, r2, impulse);
            }
            apply_impulse(body1, body2, inertia1, inertia2, r1, r2, impulse);

            // Upper limit, against the axis
            let velocity = relative_velocity(body1, body2, r1, r2);
            let mut part = self.upper_part;
            let applied = part.solve_impulse(
                limit.max.sub(translation),
                velocity,
                axis.neg(),
                use_bias,
                max_bias_speed,
                delta_secs,
            );
            self.upper_part = part;
            let impulse = axis.neg().scale(applied);
            proof {
                lemma_apply_impulse_immune(*body1, *body2, *inertia1, *inertia2, r1, r2, impulse);
            }
            apply_impulse(body1, body2, inertia1, inertia2, r1, r2, impulse);
        }
    }
}

/// A motor that is not enabled is passed over: the solve is that of the
/// limits alone, and changes nothing where the joint has no limits.
pub proof fn lemma_disabled_prismatic_motor(
    joint: PrismaticJoint,
    body1: SolverBody,
    body2: SolverBody,
    inertia1: SolverBodyInertia,
    inertia2: SolverBodyInertia,
    delta_secs: Scalar,
    use_bias: bool,
    max_bias_speed: Scalar,
)
    requires
        !joint.motor.enabled,
    ensures
        joint.solve_spec(body1, body2, inertia1, inertia2, delta_secs, use_bias, max_bias_speed)
            == joint.limits_spec(
            joint.frame_spec(body1, body2),
            joint.state(body1, body2),
            inertia1,
            inertia2,
            delta_secs,
            use_bias,
            max_bias_speed,
        ),
        joint.solve_spec(
            body1,
            body2,
            inertia1,
            inertia2,
            delta_secs,
            use_bias,
            max_bias_speed,
        ).motor_part == joint.motor_part,
        joint.limits is None ==> joint.solve_spec(
            body1,
            body2,
            inertia1,
            inertia2,
            delta_secs,
            use_bias,
            max_bias_speed,
        ) == joint.state(body1, body2),
{
}

/// A joint with a spring-damper motor and the same joint with an
/// acceleration-based motor of the stiffness and damping that stand for the
/// spring are solved alike. From the same state they therefore come to the
/// same target.
pub proof fn lemma_prismatic_models_agree(
    joint: PrismaticJoint,
    frequency: Scalar,
    damping_ratio: Scalar,
    body1: SolverBody,
    body2: SolverBody,
    inertia1: SolverBodyInertia,
    inertia2: SolverBodyInertia,
    delta_secs: Scalar,
    use_bias: bool,
    max_bias_speed: Scalar,
)
    ensures
        ({
            let spring = MotorModel::SpringDamper { frequency, damping_ratio };
            let direct = MotorModel::AccelerationBased {
                stiffness: spring.gains_spec().stiffness,
                damping: spring.gains_spec().damping,
            };
            (PrismaticJoint { motor: LinearMotor { motor_model: spring, ..joint.motor }, ..joint }).solve_spec(
                body1,
                body2,
                inertia1,
                inertia2,
                delta_secs,
                use_bias,
                max_bias_speed,
            ) == (PrismaticJoint {
                motor: LinearMotor { motor_model: direct, ..joint.motor },
                ..joint
            }).solve_spec(body1, body2, inertia1, inertia2, delta_secs, use_bias, max_bias_speed)
        }),
{
}

} // verus!
