//! The motor on the angle of a revolute joint.

use vstd::prelude::*;
use crate::collision::contact_types::Entity;
use crate::dynamics::solver::joints::motor::AngularMotor;
use crate::dynamics::solver::joints::motor::MotorModel;
use crate::dynamics::solver::joints::motor::MotorPart;
use crate::dim2::dynamics::solver::solver_body::apply_angular_impulse;
use crate::dim2::dynamics::solver::solver_body::apply_angular_impulse_spec;
use crate::dim2::dynamics::solver::solver_body::SolverBody;
use crate::dim2::dynamics::solver::solver_body::SolverBodyInertia;
use crate::math::scalar::Scalar;

verus! {

/// What a revolute joint does about the angle between its two bodies.
///
/// The joint leaves the angle free; a motor may drive it.
#[derive(Clone, Copy, Debug, PartialEq, Eq, Structural)]
pub struct RevoluteJoint {
    /// The first body of the joint.
    pub body1: Entity,
    /// The second body of the joint.
    pub body2: Entity,
    /// The motor on the angle of the second body relative to the first.
    pub motor: AngularMotor,
    /// The impulse that the motor has accumulated, and the mass it moves.
    pub motor_part: MotorPart,
}

/// The joint and the two bodies after a solve.
pub struct RevoluteState {
    /// The motor part of the joint.
    pub motor_part: MotorPart,
    /// The first body.
    pub body1: SolverBody,
    /// The second body.
    pub body2: SolverBody,
}

impl RevoluteJoint {
    /// The state after the motor has been solved at the angle
    /// `relative_angle` of the second body relative to the first.
    pub open spec fn motor_step_spec(
        self,
        body1: SolverBody,
        body2: SolverBody,
        inertia1: SolverBodyInertia,
        inertia2: SolverBodyInertia,
        relative_angle: Scalar,
        delta_secs: Scalar,
    ) -> RevoluteState {
        let solved = self.motor_part.solve_impulse_spec(
            self.motor.motor_model.gains_spec(),
            relative_angle.sub_spec(self.motor.target_position),
            body2.angular_velocity.sub_spec(body1.angular_velocity).sub_spec(self.motor.target_velocity),
            self.motor.max_torque,
            delta_secs,
        );
        let after = apply_angular_impulse_spec(body1, body2, inertia1, inertia2, solved.1);
        RevoluteState { motor_part: solved.0, body1: after.0, body2: after.1 }
    }

    /// The state after a solve: that of the motor step where the motor is
    /// enabled, and the state before where it is not.
    pub open spec fn solve_spec(
        self,
        body1: SolverBody,
        body2: SolverBody,
        inertia1: SolverBodyInertia,
        inertia2: SolverBodyInertia,
        relative_angle: Scalar,
        delta_secs: Scalar,
    ) -> RevoluteState {
        if self.motor.enabled {
            self.motor_step_spec(body1, body2, inertia1, inertia2, relative_angle, delta_secs)
        } else {
            RevoluteState { motor_part: self.motor_part, body1, body2 }
        }
    }

    /// A joint between two bodies whose motor is not enabled.
    pub fn new(body1: Entity, body2: Entity) -> (r: RevoluteJoint)
        ensures
            r == (RevoluteJoint {
                body1,
                body2,
                motor: AngularMotor { enabled: false, ..AngularMotor::new_spec(MotorModel::default_spec()) },
                motor_part: MotorPart { impulse: Scalar { raw: 0 }, effective_mass: Scalar { raw: 0 } },
            }),
    {
        RevoluteJoint {
            body1,
            body2,
            motor: AngularMotor::new_disabled(MotorModel::default()),
            motor_part: MotorPart::new(),
        }
    }

    /// The same joint with the motor `motor`.
    pub fn with_motor(self, motor: AngularMotor) -> (r: RevoluteJoint)
        ensures
            r == (RevoluteJoint { motor, ..self }),
    {
        RevoluteJoint { motor, ..self }
    }

    /// Prepares the joint for the solves of a step between bodies of the given
    /// inertias: the motor moves the reciprocal of the sum of their inverse
    /// angular inertias. The accumulated impulse is kept for warm starting
    /// where the motor is enabled, and dropped where it is not.
    pub fn prepare(&mut self, inertia1: &SolverBodyInertia, inertia2: &SolverBodyInertia)
        ensures
            final(self).body1 == old(self).body1,
            final(self).body2 == old(self).body2,
            final(self).motor == old(self).motor,
            final(self).motor_part.effective_mass == inertia1.inv_angular_inertia.add_spec(
                inertia2.inv_angular_inertia,
            ).recip_or_zero_spec(),
            final(self).motor_part.impulse == (if old(self).motor.enabled {
                old(self).motor_part.impulse
            } else {
                Scalar { raw: 0 }
            }),
    {
        self.motor_part.effective_mass = inertia1.inv_angular_inertia.add(
            inertia2.inv_angular_inertia,
        ).recip_or_zero();
        if !self.motor.enabled {
            self.motor_part.impulse = Scalar::zero();
        }
    }

    /// Warm starts the joint by applying the impulse that its motor has
    /// accumulated, scaled by `warm_start_coefficient`. A motor that is not
    /// enabled applies nothing.
    pub fn warm_start(
        &self,
        body1: &mut SolverBody,
        body2: &mut SolverBody,
        inertia1: &SolverBodyInertia,
        inertia2: &SolverBodyInertia,
        warm_start_coefficient: Scalar,
    )
        ensures
            (*final(body1), *final(body2)) == (if self.motor.enabled {
                apply_angular_impulse_spec(
                    *old(body1),
                    *old(body2),
                    *inertia1,
                    *inertia2,
                    warm_start_coefficient.mul_spec(self.motor_part.impulse),
                )
            } else {
                (*old(body1), *old(body2))
            }),
            inertia1.is_infinite() ==> *final(body1) == *old(body1),
            inertia2.is_infinite() ==> *final(body2) == *old(body2),
    {
        if self.motor.enabled {
            apply_angular_impulse(
                body1,
                body2,
                inertia1,
                inertia2,
                warm_start_coefficient.mul(self.motor_part.impulse),
            );
        }
    }

    /// Solves the joint at the angle `relative_angle` of the second body
    /// relative to the first, applying an angular impulse to the given bodies.
    ///
    /// A motor that is not enabled is passed over: the joint and the bodies
    /// stay as they are.
    pub fn solve(
        &mut self,
        body1: &mut SolverBody,
        body2: &mut SolverBody,
        inertia1: &SolverBodyInertia,
        inertia2: &SolverBodyInertia,
        relative_angle: Scalar,
        delta_secs: Scalar,
    )
        ensures
            (RevoluteState {
                motor_part: final(self).motor_part,
                body1: *final(body1),
                body2: *final(body2),
            }) == old(self).solve_spec(
                *old(body1),
                *old(body2),
                *inertia1,
                *inertia2,
                relative_angle,
                delta_secs,
            ),
            final(self).body1 == old(self).body1,
            final(self).body2 == old(self).body2,
            final(self).motor == old(self).motor,
            final(self).motor_part.effective_mass == old(self).motor_part.effective_mass,
            !old(self).motor.enabled ==> *final(self) == *old(self) && *final(body1) == *old(body1)
                && *final(body2) == *old(body2),
            old(self).motor.enabled && old(self).motor.max_torque@ >= 0 && delta_secs@ >= 0
                ==> final(self).motor_part.impulse.abs_spec()@ <= MotorPart::impulse_limit_spec(
                old(self).motor.max_torque,
                delta_secs,
            )@,
            final(body1).linear_velocity == old(body1).linear_velocity,
            final(body2).linear_velocity == old(body2).linear_velocity,
            final(body1).delta_position == old(body1).delta_position,
            final(body2).delta_position == old(body2).delta_position,
            final(body1).delta_rotation == old(body1).delta_rotation,
            final(body2).delta_rotation == old(body2).delta_rotation,
            inertia1.is_infinite() ==> *final(body1) == *old(body1),
            inertia2.is_infinite() ==> *final(body2) == *old(body2),
    {
        if self.motor.enabled {
            let mut part = self.motor_part;
            let applied = part.solve_impulse(
                self.motor.motor_model.gains(),
                relative_angle.sub(self.motor.target_position),
                body2.angular_velocity.sub(body1.angular_velocity).sub(self.motor.target_velocity),
                self.motor.max_torque,
                delta_secs,
            );
            self.motor_part = part;
            apply_angular_impulse(body1, body2, inertia1, inertia2, applied);
        }
    }
}

/// A motor that is not enabled is passed over: the solve changes neither the
/// joint nor the velocity of either body.
pub proof fn lemma_disabled_revolute_motor(
    joint: RevoluteJoint,
    body1: SolverBody,
    body2: SolverBody,
    inertia1: SolverBodyInertia,
    inertia2: SolverBodyInertia,
    relative_angle: Scalar,
    delta_secs: Scalar,
)
    requires
        !joint.motor.enabled,
    ensures
        joint.solve_spec(body1, body2, inertia1, inertia2, relative_angle, delta_secs) == (
            RevoluteState { motor_part: joint.motor_part, body1, body2 }),
{
}

/// A joint with a spring-damper motor and the same joint with an
/// acceleration-based motor of the stiffness and damping that stand for the
/// spring are solved alike. From the same state they therefore come to the
/// same target.
pub proof fn lemma_revolute_models_agree(
    joint: RevoluteJoint,
    frequency: Scalar,
    damping_ratio: Scalar,
    body1: SolverBody,
    body2: SolverBody,
    inertia1: SolverBodyInertia,
    inertia2: SolverBodyInertia,
    relative_angle: Scalar,
    delta_secs: Scalar,
)
    ensures
        ({
            let spring = MotorModel::SpringDamper { frequency, damping_ratio };
            let direct = MotorModel::AccelerationBased {
                stiffness: spring.gains_spec().stiffness,
                damping: spring.gains_spec().damping,
            };
            (RevoluteJoint { motor: AngularMotor { motor_model: spring, ..joint.motor }, ..joint }).solve_spec(
                body1,
                body2,
                inertia1,
                inertia2,
                relative_angle,
                delta_secs,
            ) == (RevoluteJoint {
                motor: AngularMotor { motor_model: direct, ..joint.motor },
                ..joint
            }).solve_spec(body1, body2, inertia1, inertia2, relative_angle, delta_secs)
        }),
{
}

} // verus!
