//! Motors: what they aim at, and how hard they push.

use vstd::prelude::*;
use crate::dynamics::solver::softness::SoftnessCoefficients;
use crate::dynamics::solver::softness::TAU_RAW;
use crate::math::scalar::Scalar;
use crate::math::scalar::ONE_RAW;

verus! {

/// How a motor turns the distance to its target into an acceleration.
#[derive(Clone, Copy, Debug, PartialEq, Eq, Structural)]
pub enum MotorModel {
    /// The motor accelerates by `stiffness` times the position error plus
    /// `damping` times the velocity error, whatever the mass it moves.
    ///
    /// With a stiffness of zero the motor aims at its target velocity alone.
    AccelerationBased {
        /// The acceleration per unit of position error.
        stiffness: Scalar,
        /// The acceleration per unit of velocity error.
        damping: Scalar,
    },
    /// The motor pulls toward its target position like a damped spring.
    SpringDamper {
        /// The natural frequency of the spring, in hertz.
        frequency: Scalar,
        /// The damping ratio; one is critical damping.
        damping_ratio: Scalar,
    },
}

/// The stiffness and damping that a motor is solved with.
#[derive(Clone, Copy, Debug, PartialEq, Eq, Structural)]
pub struct MotorGains {
    /// The acceleration per unit of position error.
    pub stiffness: Scalar,
    /// The acceleration per unit of velocity error.
    pub damping: Scalar,
}

impl MotorModel {
    /// The model that a motor has where none is chosen: no stiffness and a
    /// damping of one.
    pub open spec fn default_spec() -> MotorModel {
        MotorModel::AccelerationBased {
            stiffness: Scalar { raw: 0 },
            damping: Scalar { raw: ONE_RAW },
        }
    }

    /// The stiffness and damping that stand for the model.
    ///
    /// A spring of the angular frequency `w = 2 pi f` and the damping ratio
    /// `z` has the stiffness `w^2` and the damping `2 z w`.
    pub open spec fn gains_spec(self) -> MotorGains {
        match self {
            MotorModel::AccelerationBased { stiffness, damping } => MotorGains { stiffness, damping },
            MotorModel::SpringDamper { frequency, damping_ratio } => {
                let w = (Scalar { raw: TAU_RAW }).mul_spec(frequency);
                MotorGains {
                    stiffness: w.mul_spec(w),
                    damping: Scalar::of(2 * ONE_RAW).mul_spec(damping_ratio).mul_spec(w),
                }
            },
        }
    }

    /// The stiffness and damping that stand for the model.
    pub fn gains(&self) -> (r: MotorGains)
        ensures
            r == self.gains_spec(),
    {
        match self {
            MotorModel::AccelerationBased { stiffness, damping } => MotorGains {
                stiffness: *stiffness,
                damping: *damping,
            },
            MotorModel::SpringDamper { frequency, damping_ratio } => {
                let w = Scalar::from_raw(TAU_RAW).mul(*frequency);
                MotorGains {
                    stiffness: w.mul(w),
                    damping: Scalar::from_int(2).mul(*damping_ratio).mul(w),
                }
            },
        }
    }
}

impl Default for MotorModel {
    /// No stiffness and a damping of one.
    fn default() -> (r: MotorModel)
        ensures
            r == MotorModel::default_spec(),
    {
        MotorModel::AccelerationBased { stiffness: Scalar::zero(), damping: Scalar::one() }
    }
}

impl MotorGains {
    /// The coefficients with which a motor of these gains is solved for a
    /// time step of `delta_secs`.
    ///
    /// With `k` the stiffness, `c` the damping and `h` the time step, and
    /// `g = h (c + h k)`: the bias is `k / (c + h k)`, the mass scale
    /// `g / (1 + g)` and the impulse scale `1 / (1 + g)`. This is one implicit
    /// step of the damped spring.
    pub open spec fn coefficients_spec(self, delta_secs: Scalar) -> SoftnessCoefficients {
        let s = self.damping.add_spec(delta_secs.mul_spec(self.stiffness));
        let g = delta_secs.mul_spec(s);
        let a3 = (Scalar { raw: ONE_RAW }).div_spec((Scalar { raw: ONE_RAW }).add_spec(g));
        SoftnessCoefficients {
            bias: self.stiffness.div_spec(s),
            mass_scale: g.mul_spec(a3),
            impulse_scale: a3,
        }
    }

    /// The coefficients with which a motor of these gains is solved for a
    /// time step of `delta_secs`.
    pub fn coefficients(&self, delta_secs: Scalar) -> (r: SoftnessCoefficients)
        ensures
            r == self.coefficients_spec(delta_secs),
    {
        let s = self.damping.add(delta_secs.mul(self.stiffness));
        let g = delta_secs.mul(s);
        let a3 = Scalar::one().div(Scalar::one().add(g));
        SoftnessCoefficients { bias: self.stiffness.div(s), mass_scale: g.mul(a3), impulse_scale: a3 }
    }
}

/// A motor on the angle of a joint.
#[derive(Clone, Copy, Debug, PartialEq, Eq, Structural)]
pub struct AngularMotor {
    /// Whether the motor acts. A motor that is not enabled is passed over.
    pub enabled: bool,
    /// The angular velocity that the motor aims at.
    pub target_velocity: Scalar,
    /// The angle that the motor aims at.
    pub target_position: Scalar,
    /// The greatest torque that the motor exerts, in either direction. The
    /// greatest scalar stands for no bound.
    pub max_torque: Scalar,
    /// How the motor turns the distance to its target into an acceleration.
    pub motor_model: MotorModel,
}

/// A motor on the slider of a joint.
#[derive(Clone, Copy, Debug, PartialEq, Eq, Structural)]
pub struct LinearMotor {
    /// Whether the motor acts. A motor that is not enabled is passed over.
    pub enabled: bool,
    /// The velocity along the axis that the motor aims at.
    pub target_velocity: Scalar,
    /// The translation along the axis that the motor aims at.
    pub target_position: Scalar,
    /// The greatest force that the motor exerts, in either direction. The
    /// greatest scalar stands for no bound.
    pub max_force: Scalar,
    /// How the motor turns the distance to its target into an acceleration.
    pub motor_model: MotorModel,
}

impl AngularMotor {
    /// The motor that `new` makes: enabled, aiming at rest at the angle zero,
    /// with no bound on its torque.
    pub open spec fn new_spec(motor_model: MotorModel) -> AngularMotor {
        AngularMotor {
            enabled: true,
            target_velocity: Scalar { raw: 0 },
            target_position: Scalar { raw: 0 },
            max_torque: Scalar { raw: i64::MAX },
            motor_model,
        }
    }

    /// An enabled motor of the given model that aims at rest at the angle
    /// zero, with no bound on its torque.
    pub fn new(motor_model: MotorModel) -> (r: AngularMotor)
        ensures
            r == AngularMotor::new_spec(motor_model),
    {
        AngularMotor {
            enabled: true,
            target_velocity: Scalar::zero(),
            target_position: Scalar::zero(),
            max_torque: Scalar::max_value(),
            motor_model,
        }
    }

    /// A motor of the given model that is not enabled.
    pub fn new_disabled(motor_model: MotorModel) -> (r: AngularMotor)
        ensures
            r == (AngularMotor { enabled: false, ..AngularMotor::new_spec(motor_model) }),
    {
        AngularMotor {
            enabled: false,
            target_velocity: Scalar::zero(),
            target_position: Scalar::zero(),
            max_torque: Scalar::max_value(),
            motor_model,
        }
    }

    /// The same motor, aiming at the angular velocity `target_velocity`.
    pub fn with_target_velocity(self, target_velocity: Scalar) -> (r: AngularMotor)
        ensures
            r == (AngularMotor { target_velocity, ..self }),
    {
        AngularMotor { target_velocity, ..self }
    }

    /// The same motor, aiming at the angle `target_position`.
    pub fn with_target_position(self, target_position: Scalar) -> (r: AngularMotor)
        ensures
            r == (AngularMotor { target_position, ..self }),
    {
        AngularMotor { target_position, ..self }
    }

    /// The same motor, exerting no more than the torque `max_torque`.
    pub fn with_max_torque(self, max_torque: Scalar) -> (r: AngularMotor)
        ensures
            r == (AngularMotor { max_torque, ..self }),
    {
        AngularMotor { max_torque, ..self }
    }
}

impl Default for AngularMotor {
    /// An enabled motor of the default model.
    fn default() -> (r: AngularMotor)
        ensures
            r == AngularMotor::new_spec(MotorModel::default_spec()),
    {
        AngularMotor::new(MotorModel::default())
    }
}

impl LinearMotor {
    /// The motor that `new` makes: enabled, aiming at rest at the translation
    /// zero, with no bound on its force.
    pub open spec fn new_spec(motor_model: MotorModel) -> LinearMotor {
        LinearMotor {
            enabled: true,
            target_velocity: Scalar { raw: 0 },
            target_position: Scalar { raw: 0 },
            max_force: Scalar { raw: i64::MAX },
            motor_model,
        }
    }

    /// An enabled motor of the given model that aims at rest at the
    /// translation zero, with no bound on its force.
    pub fn new(motor_model: MotorModel) -> (r: LinearMotor)
        ensures
            r == LinearMotor::new_spec(motor_model),
    {
        LinearMotor {
            enabled: true,
            target_velocity: Scalar::zero(),
            target_position: Scalar::zero(),
            max_force: Scalar::max_value(),
            motor_model,
        }
    }

    /// A motor of the given model that is not enabled.
    pub fn new_disabled(motor_model: MotorModel) -> (r: LinearMotor)
        ensures
            r == (LinearMotor { enabled: false, ..LinearMotor::new_spec(motor_model) }),
    {
        LinearMotor {
            enabled: false,
            target_velocity: Scalar::zero(),
            target_position: Scalar::zero(),
            max_force: Scalar::max_value(),
            motor_model,
        }
    }

    /// The same motor, aiming at the velocity `target_velocity`.
    pub fn with_target_velocity(self, target_velocity: Scalar) -> (r: LinearMotor)
        ensures
            r == (LinearMotor { target_velocity, ..self }),
    {
        LinearMotor { target_velocity, ..self }
    }

    /// The same motor, aiming at the translation `target_position`.
    pub fn with_target_position(self, target_position: Scalar) -> (r: LinearMotor)
        ensures
            r == (LinearMotor { target_position, ..self }),
    {
        LinearMotor { target_position, ..self }
    }

    /// The same motor, exerting no more than the force `max_force`.
    pub fn with_max_force(self, max_force: Scalar) -> (r: LinearMotor)
        ensures
            r == (LinearMotor { max_force, ..self }),
    {
        LinearMotor { max_force, ..self }
    }
}

impl Default for LinearMotor {
    /// An enabled motor of the default model.
    fn default() -> (r: LinearMotor)
        ensures
            r == LinearMotor::new_spec(MotorModel::default_spec()),
    {
        LinearMotor::new(MotorModel::default())
    }
}

/// The impulse that a motor has accumulated, and the mass it moves.
#[derive(Clone, Copy, Debug, PartialEq, Eq, Structural)]
pub struct MotorPart {
    /// The impulse accumulated in the current solve.
    pub impulse: Scalar,
    /// The mass that an impulse along the axis has to move.
    pub effective_mass: Scalar,
}

impl MotorPart {
    /// The greatest impulse that a motor of the greatest force `max_force`
    /// gives in a time step of `delta_secs`.
    pub open spec fn impulse_limit_spec(max_force: Scalar, delta_secs: Scalar) -> Scalar {
        max_force.mul_spec(delta_secs)
    }

    /// The accumulated impulse after a solve of a motor with the gains
    /// `gains`, at the distances `position_error` and `velocity_error` of
    /// position and velocity from their targets: what one implicit step of
    /// the damped spring asks for, kept within the limit on either side.
    pub open spec fn solved_impulse_spec(
        self,
        gains: MotorGains,
        position_error: Scalar,
        velocity_error: Scalar,
        max_force: Scalar,
        delta_secs: Scalar,
    ) -> Scalar {
        let k = gains.coefficients_spec(delta_secs);
        let limit = MotorPart::impulse_limit_spec(max_force, delta_secs);
        let wanted = k.mass_scale.mul_spec(self.effective_mass).mul_spec(
            velocity_error.add_spec(k.bias.mul_spec(position_error)),
        ).neg_spec().sub_spec(k.impulse_scale.mul_spec(self.impulse));
        self.impulse.add_spec(wanted).clamp_spec(limit.neg_spec(), limit)
    }

    /// The motor part after a solve, and the impulse that the solve adds.
    pub open spec fn solve_impulse_spec(
        self,
        gains: MotorGains,
        position_error: Scalar,
        velocity_error: Scalar,
        max_force: Scalar,
        delta_secs: Scalar,
    ) -> (MotorPart, Scalar) {
        let new_impulse = self.solved_impulse_spec(
            gains,
            position_error,
            velocity_error,
            max_force,
            delta_secs,
        );
        (MotorPart { impulse: new_impulse, ..self }, new_impulse.sub_spec(self.impulse))
    }

    /// A motor part that has accumulated nothing and moves no mass.
    pub fn new() -> (r: MotorPart)
        ensures
            r.impulse@ == 0,
            r.effective_mass@ == 0,
    {
        MotorPart { impulse: Scalar::zero(), effective_mass: Scalar::zero() }
    }

    /// Solves the motor: accumulates the impulse that one implicit step of
    /// the damped spring asks for, keeps the accumulated impulse within
    /// `max_force` times `delta_secs` on either side, and returns the impulse
    /// that was added.
    pub fn solve_impulse(
        &mut self,
        gains: MotorGains,
        position_error: Scalar,
        velocity_error: Scalar,
        max_force: Scalar,
        delta_secs: Scalar,
    ) -> (applied: Scalar)
        ensures
            (*final(self), applied) == old(self).solve_impulse_spec(
                gains,
                position_error,
                velocity_error,
                max_force,
                delta_secs,
            ),
            max_force@ >= 0 && delta_secs@ >= 0 ==> final(self).impulse.abs_spec()@
                <= MotorPart::impulse_limit_spec(max_force, delta_secs)@,
    {
        let k = gains.coefficients(delta_secs);
        let limit = max_force.mul(delta_secs);
        let wanted = k.mass_scale.mul(self.effective_mass).mul(
            velocity_error.add(k.bias.mul(position_error)),
        ).neg().sub(k.impulse_scale.mul(self.impulse));
        let new_impulse = self.impulse.add(wanted).clamp(limit.neg(), limit);
        let applied = new_impulse.sub(self.impulse);
        self.impulse = new_impulse;
        proof {
            crate::math::scalar::lemma_mul_nonnegative(max_force, delta_secs);
        }
        applied
    }
}

/// A motor at its target is at rest: where position and velocity are those
/// aimed at and nothing has been accumulated, a solve adds no impulse,
/// whatever the model of the motor. The target is therefore a steady state of
/// both models.
pub proof fn lemma_motor_rests_at_target(
    part: MotorPart,
    gains: MotorGains,
    max_force: Scalar,
    delta_secs: Scalar,
)
    requires
        part.impulse@ == 0,
        max_force@ >= 0,
        delta_secs@ >= 0,
    ensures
        part.solve_impulse_spec(
            gains,
            Scalar { raw: 0 },
            Scalar { raw: 0 },
            max_force,
            delta_secs,
        ) == (part, Scalar { raw: 0 }),
{
    let zero = Scalar { raw: 0 };
    let k = gains.coefficients_spec(delta_secs);
    crate::math::scalar::lemma_mul_zero(k.bias, zero);
    crate::math::scalar::lemma_mul_zero(k.mass_scale.mul_spec(part.effective_mass), zero);
    crate::math::scalar::lemma_mul_zero(k.impulse_scale, part.impulse);
    crate::math::scalar::lemma_mul_nonnegative(max_force, delta_secs);
}

/// A spring-damper motor and an acceleration-based motor with the stiffness
/// and damping that stand for the spring are solved alike: from the same
/// state they accumulate the same impulse.
pub proof fn lemma_models_agree(
    part: MotorPart,
    frequency: Scalar,
    damping_ratio: Scalar,
    position_error: Scalar,
    velocity_error: Scalar,
    max_force: Scalar,
    delta_secs: Scalar,
)
    ensures
        ({
            let spring = MotorModel::SpringDamper { frequency, damping_ratio };
            let direct = MotorModel::AccelerationBased {
                stiffness: spring.gains_spec().stiffness,
                damping: spring.gains_spec().damping,
            };
            part.solve_impulse_spec(
                spring.gains_spec(),
                position_error,
                velocity_error,
                max_force,
                delta_secs,
            ) == part.solve_impulse_spec(
                direct.gains_spec(),
                position_error,
                velocity_error,
                max_force,
                delta_secs,
            )
        }),
{
}

} // verus!
