//! The part of a contact constraint that stands for friction.

use vstd::prelude::*;
use crate::dim2::dynamics::solver::contact::normal_part::effective_mass;
use crate::dim2::dynamics::solver::contact::normal_part::effective_mass_spec;
use crate::math::scalar::Scalar;
use crate::dim2::math::vector::Vector;

verus! {

/// The friction part of a contact constraint at one point.
#[derive(Clone, Copy, Debug, PartialEq, Eq, Structural)]
pub struct ContactTangentPart {
    /// The friction impulse accumulated in the current solve, along the
    /// tangent.
    pub impulse: Scalar,
    /// The mass that an impulse along the tangent has to move.
    pub effective_mass: Scalar,
}

impl ContactTangentPart {
    /// The friction part at a new contact point.
    pub open spec fn generate_spec(
        inverse_mass_sum: Scalar,
        inv_angular_inertia1: Scalar,
        inv_angular_inertia2: Scalar,
        r1: Vector,
        r2: Vector,
        tangent: Vector,
        warm_start_impulse: Option<Scalar>,
    ) -> ContactTangentPart {
        ContactTangentPart {
            impulse: match warm_start_impulse {
                Some(impulse) => impulse,
                None => Scalar { raw: 0 },
            },
            effective_mass: effective_mass_spec(
                inverse_mass_sum,
                inv_angular_inertia1,
                inv_angular_inertia2,
                r1,
                r2,
                tangent,
            ),
        }
    }

    /// The greatest friction impulse that the normal impulse `normal_impulse`
    /// allows.
    pub open spec fn impulse_limit_spec(friction: Scalar, normal_impulse: Scalar) -> Scalar {
        friction.mul_spec(normal_impulse)
    }

    /// The accumulated friction impulse after a solve: what brings the
    /// relative speed along the tangent to `tangent_speed`, kept within the
    /// limit on either side.
    pub open spec fn solved_impulse_spec(
        self,
        tangent: Vector,
        relative_velocity: Vector,
        tangent_speed: Scalar,
        friction: Scalar,
        normal_impulse: Scalar,
    ) -> Scalar {
        let limit = ContactTangentPart::impulse_limit_spec(friction, normal_impulse);
        let wanted = self.effective_mass.mul_spec(
            tangent_speed.sub_spec(relative_velocity.dot_spec(tangent)),
        );
        self.impulse.add_spec(wanted).clamp_spec(limit.neg_spec(), limit)
    }

    /// The friction part after a solve, and the impulse that the solve adds.
    pub open spec fn solve_impulse_spec(
        self,
        tangent: Vector,
        relative_velocity: Vector,
        tangent_speed: Scalar,
        friction: Scalar,
        normal_impulse: Scalar,
    ) -> (ContactTangentPart, Vector) {
        let new_impulse = self.solved_impulse_spec(
            tangent,
            relative_velocity,
            tangent_speed,
            friction,
            normal_impulse,
        );
        (
            ContactTangentPart { impulse: new_impulse, ..self },
            tangent.scale_spec(new_impulse.sub_spec(self.impulse)),
        )
    }

    /// The friction part at a new contact point between two bodies with the
    /// sum `inverse_mass_sum` of inverse masses and the given inverse angular
    /// inertias, at the anchors `r1` and `r2`. It starts from
    /// `warm_start_impulse`, or from zero where there is none.
    pub fn generate(
        inverse_mass_sum: Scalar,
        inv_angular_inertia1: Scalar,
        inv_angular_inertia2: Scalar,
        r1: Vector,
        r2: Vector,
        tangent_directions: [Vector; 1],
        warm_start_impulse: Option<Scalar>,
    ) -> (r: ContactTangentPart)
        ensures
            r == ContactTangentPart::generate_spec(
                inverse_mass_sum,
                inv_angular_inertia1,
                inv_angular_inertia2,
                r1,
                r2,
                tangent_directions[0],
                warm_start_impulse,
            ),
    {
        ContactTangentPart {
            impulse: match warm_start_impulse {
                Some(impulse) => impulse,
                None => Scalar::zero(),
            },
            effective_mass: effective_mass(
                inverse_mass_sum,
                inv_angular_inertia1,
                inv_angular_inertia2,
                r1,
                r2,
                tangent_directions[0],
            ),
        }
    }

    /// Solves the friction part: accumulates the impulse that brings the
    /// relative speed along the tangent to `tangent_speed`, keeps the
    /// accumulated impulse within `friction` times `normal_impulse` on either
    /// side, and returns the impulse that was added, as a vector.
    pub fn solve_impulse(
        &mut self,
        tangent_directions: [Vector; 1],
        relative_velocity: Vector,
        tangent_speed: Scalar,
        friction: Scalar,
        normal_impulse: Scalar,
    ) -> (applied: Vector)
        ensures
            (*final(self), applied) == old(self).solve_impulse_spec(
                tangent_directions[0],
                relative_velocity,
                tangent_speed,
                friction,
                normal_impulse,
            ),
            friction@ >= 0 && normal_impulse@ >= 0 ==> final(self).impulse.abs_spec()@
                <= ContactTangentPart::impulse_limit_spec(friction, normal_impulse)@,
    {
        let tangent = tangent_directions[0];
        let limit = friction.mul(normal_impulse);
        let wanted = self.effective_mass.mul(tangent_speed.sub(relative_velocity.dot(tangent)));
        let new_impulse = self.impulse.add(wanted).clamp(limit.neg(), limit);
        let applied = new_impulse.sub(self.impulse);
        self.impulse = new_impulse;
        proof {
            crate::math::scalar::lemma_mul_nonnegative(friction, normal_impulse);
        }
        tangent.scale(applied)
    }
}

} // verus!
