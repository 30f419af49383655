//! The part of a contact constraint that keeps the bodies from overlapping.

use vstd::prelude::*;
use crate::dynamics::solver::softness::SoftnessCoefficients;
use crate::math::scalar::Scalar;
use crate::math::scalar::ONE_RAW;
use crate::dim3::math::matrix::SymmetricMatrix;
use crate::dim3::math::vector::Vector;

verus! {

/// What an impulse along `d1` at the anchors `r1` and `r2` changes of the
/// relative velocity of the anchors along `d2`, per unit of impulse:
/// `(r1 x d1) . i1 (r1 x d2) + (r2 x d1) . i2 (r2 x d2)`, without the part
/// of the inverse masses.
pub open spec fn angular_response_spec(
    inv_angular_inertia1: SymmetricMatrix,
    inv_angular_inertia2: SymmetricMatrix,
    r1: Vector,
    r2: Vector,
    d1: Vector,
    d2: Vector,
) -> Scalar {
    r1.cross_spec(d1).dot_spec(inv_angular_inertia1.mul_vector_spec(r1.cross_spec(d2))).add_spec(
        r2.cross_spec(d1).dot_spec(inv_angular_inertia2.mul_vector_spec(r2.cross_spec(d2))),
    )
}

/// What an impulse along `d1` at the anchors `r1` and `r2` changes of the
/// relative velocity of the anchors along `d2`, per unit of impulse, without
/// the part of the inverse masses.
pub fn angular_response(
    inv_angular_inertia1: SymmetricMatrix,
    inv_angular_inertia2: SymmetricMatrix,
    r1: Vector,
    r2: Vector,
    d1: Vector,
    d2: Vector,
) -> (r: Scalar)
    ensures
        r == angular_response_spec(inv_angular_inertia1, inv_angular_inertia2, r1, r2, d1, d2),
{
    r1.cross(d1).dot(inv_angular_inertia1.mul_vector(r1.cross(d2))).add(
        r2.cross(d1).dot(inv_angular_inertia2.mul_vector(r2.cross(d2))),
    )
}

/// The mass that an impulse along `direction` at the anchors `r1` and `r2`
/// has to move: the reciprocal of
/// `inverse_mass_sum + (r1 x d) . i1 (r1 x d) + (r2 x d) . i2 (r2 x d)`, and
/// zero where that is zero.
pub open spec fn effective_mass_spec(
    inverse_mass_sum: Scalar,
    inv_angular_inertia1: SymmetricMatrix,
    inv_angular_inertia2: SymmetricMatrix,
    r1: Vector,
    r2: Vector,
    direction: Vector,
) -> Scalar {
    inverse_mass_sum.add_spec(
        angular_response_spec(
            inv_angular_inertia1,
            inv_angular_inertia2,
            r1,
            r2,
            direction,
            direction,
        ),
    ).recip_or_zero_spec()
}

/// The mass that an impulse along `direction` at the anchors `r1` and `r2`
/// has to move.
pub fn effective_mass(
    inverse_mass_sum: Scalar,
    inv_angular_inertia1: SymmetricMatrix,
    inv_angular_inertia2: SymmetricMatrix,
    r1: Vector,
    r2: Vector,
    direction: Vector,
) -> (r: Scalar)
    ensures
        r == effective_mass_spec(
            inverse_mass_sum,
            inv_angular_inertia1,
            inv_angular_inertia2,
            r1,
            r2,
            direction,
        ),
{
    inverse_mass_sum.add(
        angular_response(inv_angular_inertia1, inv_angular_inertia2, r1, r2, direction, direction),
    ).recip_or_zero()
}

/// The normal part of a contact constraint at one point.
#[derive(Clone, Copy, Debug, PartialEq, Eq, Structural)]
pub struct ContactNormalPart {
    /// The normal impulse accumulated in the current solve.
    pub impulse: Scalar,
    /// The sum of the normal impulses of all solves of the step, and of the
    /// restitution pass.
    pub total_impulse: Scalar,
    /// The mass that an impulse along the normal has to move.
    pub effective_mass: Scalar,
    /// How stiffly an overlap is corrected.
    pub softness: SoftnessCoefficients,
}

/// The velocity along the normal that the constraint asks for besides rest,
/// and the shares of mass and accumulated impulse it is solved with.
pub struct NormalBias {
    /// The velocity asked for.
    pub bias: Scalar,
    /// The share of the effective mass that is used.
    pub mass_scale: Scalar,
    /// The share of the accumulated impulse that is taken back.
    pub impulse_scale: Scalar,
}

impl ContactNormalPart {
    /// The normal part at a new contact point.
    pub open spec fn generate_spec(
        inverse_mass_sum: Scalar,
        inv_angular_inertia1: SymmetricMatrix,
        inv_angular_inertia2: SymmetricMatrix,
        r1: Vector,
        r2: Vector,
        normal: Vector,
        warm_start_impulse: Option<Scalar>,
        softness: SoftnessCoefficients,
    ) -> ContactNormalPart {
        ContactNormalPart {
            impulse: match warm_start_impulse {
                Some(impulse) => impulse,
                None => Scalar { raw: 0 },
            },
            total_impulse: Scalar { raw: 0 },
            effective_mass: effective_mass_spec(
                inverse_mass_sum,
                inv_angular_inertia1,
                inv_angular_inertia2,
                r1,
                r2,
                normal,
            ),
            softness,
        }
    }

    /// How the constraint is biased at the separation `separation`.
    ///
    /// A point that is still apart is asked to close the gap in exactly one
    /// time step. An overlapping point is, with `use_bias`, pushed apart
    /// softly, by no more than `max_overlap_solve_speed`; without it, it is
    /// only brought to rest.
    pub open spec fn bias_spec(
        self,
        separation: Scalar,
        use_bias: bool,
        max_overlap_solve_speed: Scalar,
        delta_secs: Scalar,
    ) -> NormalBias {
        if separation@ > 0 {
            NormalBias {
                bias: separation.div_spec(delta_secs),
                mass_scale: Scalar { raw: ONE_RAW },
                impulse_scale: Scalar { raw: 0 },
            }
        } else if use_bias {
            NormalBias {
                bias: self.softness.bias.mul_spec(separation).max_spec(max_overlap_solve_speed.neg_spec()),
                mass_scale: self.softness.mass_scale,
                impulse_scale: self.softness.impulse_scale,
            }
        } else {
            NormalBias {
                bias: Scalar { raw: 0 },
                mass_scale: Scalar { raw: ONE_RAW },
                impulse_scale: Scalar { raw: 0 },
            }
        }
    }

    /// The accumulated impulse after a solve at the separation `separation`
    /// and the relative velocity `relative_velocity` of the two anchors:
    /// never negative.
    pub open spec fn solved_impulse_spec(
        self,
        separation: Scalar,
        relative_velocity: Vector,
        normal: Vector,
        use_bias: bool,
        max_overlap_solve_speed: Scalar,
        delta_secs: Scalar,
    ) -> Scalar {
        let b = self.bias_spec(separation, use_bias, max_overlap_solve_speed, delta_secs);
        let normal_speed = relative_velocity.dot_spec(normal);
        let scaled_mass = b.mass_scale.mul_spec(self.effective_mass);
        let scaled_impulse = b.impulse_scale.mul_spec(self.impulse);
        let wanted = scaled_mass.mul_spec(normal_speed.add_spec(b.bias)).neg_spec().sub_spec(
            scaled_impulse,
        );
        self.impulse.add_spec(wanted).max_spec(Scalar { raw: 0 })
    }

    /// The normal part after a solve, and the impulse that the solve adds
    /// along the normal.
    pub open spec fn solve_impulse_spec(
        self,
        separation: Scalar,
        relative_velocity: Vector,
        normal: Vector,
        use_bias: bool,
        max_overlap_solve_speed: Scalar,
        delta_secs: Scalar,
    ) -> (ContactNormalPart, Scalar) {
        let new_impulse = self.solved_impulse_spec(
            separation,
            relative_velocity,
            normal,
            use_bias,
            max_overlap_solve_speed,
            delta_secs,
        );
        (
            ContactNormalPart {
                impulse: new_impulse,
                total_impulse: self.total_impulse.add_spec(new_impulse),
                ..self
            },
            new_impulse.sub_spec(self.impulse),
        )
    }

    /// The normal part after the restitution pass, and the impulse that the
    /// pass adds along the normal, for a point that takes part in it.
    ///
    /// `normal_speed` is the current relative speed of the anchors along the
    /// normal and `pre_solve_normal_speed` the one before the solve.
    pub open spec fn restitution_spec(
        self,
        normal_speed: Scalar,
        pre_solve_normal_speed: Scalar,
        restitution: Scalar,
    ) -> (ContactNormalPart, Scalar) {
        let wanted = self.effective_mass.neg_spec().mul_spec(
            normal_speed.add_spec(restitution.mul_spec(pre_solve_normal_speed)),
        );
        let new_impulse = self.impulse.add_spec(wanted).max_spec(Scalar { raw: 0 });
        let applied = new_impulse.sub_spec(self.impulse);
        (
            ContactNormalPart {
                impulse: new_impulse,
                total_impulse: self.total_impulse.add_spec(applied),
                ..self
            },
            applied,
        )
    }

    /// The normal part at a new contact point between two bodies with the sum
    /// `inverse_mass_sum` of inverse masses and the given inverse angular
    /// inertias, at the anchors `r1` and `r2`. It starts from
    /// `warm_start_impulse`, or from zero where there is none.
    pub fn generate(
        inverse_mass_sum: Scalar,
        inv_angular_inertia1: SymmetricMatrix,
        inv_angular_inertia2: SymmetricMatrix,
        r1: Vector,
        r2: Vector,
        normal: Vector,
        warm_start_impulse: Option<Scalar>,
        softness: SoftnessCoefficients,
    ) -> (r: ContactNormalPart)
        ensures
            r == ContactNormalPart::generate_spec(
                inverse_mass_sum,
                inv_angular_inertia1,
                inv_angular_inertia2,
                r1,
                r2,
                normal,
                warm_start_impulse,
                softness,
            ),
    {
        ContactNormalPart {
            impulse: match warm_start_impulse {
                Some(impulse) => impulse,
                None => Scalar::zero(),
            },
            total_impulse: Scalar::zero(),
            effective_mass: effective_mass(
                inverse_mass_sum,
                inv_angular_inertia1,
                inv_angular_inertia2,
                r1,
                r2,
                normal,
            ),
            softness,
        }
    }

    /// Solves the normal part: accumulates the impulse that brings the relative
    /// velocity along the normal to what the bias asks for, keeps the
    /// accumulated impulse from becoming negative, and returns the impulse
    /// that was added.
    pub fn solve_impulse(
        &mut self,
        separation: Scalar,
        relative_velocity: Vector,
        normal: Vector,
        use_bias: bool,
        max_overlap_solve_speed: Scalar,
        delta_secs: Scalar,
    ) -> (applied: Scalar)
        ensures
            (*final(self), applied) == old(self).solve_impulse_spec(
                separation,
                relative_velocity,
                normal,
                use_bias,
                max_overlap_solve_speed,
                delta_secs,
            ),
            final(self).impulse@ >= 0,
    {
        let normal_speed = relative_velocity.dot(normal);
        let mut bias = Scalar::zero();
        let mut mass_scale = Scalar::one();
        let mut impulse_scale = Scalar::zero();
        if separation.raw > 0 {
            bias = separation.div(delta_secs);
        } else if use_bias {
            bias = self.softness.bias.mul(separation).max(max_overlap_solve_speed.neg());
            mass_scale = self.softness.mass_scale;
            impulse_scale = self.softness.impulse_scale;
        }
        let scaled_mass = mass_scale.mul(self.effective_mass);
        let scaled_impulse = impulse_scale.mul(self.impulse);
        let wanted = scaled_mass.mul(normal_speed.add(bias)).neg().sub(scaled_impulse);
        let new_impulse = self.impulse.add(wanted).max(Scalar::zero());
        let applied = new_impulse.sub(self.impulse);
        self.impulse = new_impulse;
        self.total_impulse = self.total_impulse.add(new_impulse);
        applied
    }

    /// Adds the impulse that makes the bodies bounce: the one that brings the
    /// relative speed along the normal to minus `restitution` times what it
    /// was before the solve. Returns the impulse that was added.
    pub fn apply_restitution(
        &mut self,
        normal_speed: Scalar,
        pre_solve_normal_speed: Scalar,
        restitution: Scalar,
    ) -> (applied: Scalar)
        ensures
            (*final(self), applied) == old(self).restitution_spec(
                normal_speed,
                pre_solve_normal_speed,
                restitution,
            ),
            final(self).impulse@ >= 0,
    {
        let wanted = self.effective_mass.neg().mul(
            normal_speed.add(restitution.mul(pre_solve_normal_speed)),
        );
        let new_impulse = self.impulse.add(wanted).max(Scalar::zero());
        let applied = new_impulse.sub(self.impulse);
        self.impulse = new_impulse;
        self.total_impulse = self.total_impulse.add(applied);
        applied
    }
}

} // verus!
