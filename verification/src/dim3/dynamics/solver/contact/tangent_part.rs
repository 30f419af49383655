//! The part of a contact constraint that stands for friction.

use vstd::prelude::*;
use crate::dim2::math::vector::lemma_clamp_length_max;
use crate::dim2::math::vector::Vector as TangentImpulse;
use crate::dim3::dynamics::solver::contact::normal_part::angular_response;
use crate::dim3::dynamics::solver::contact::normal_part::angular_response_spec;
use crate::dim3::math::matrix::SymmetricMatrix;
use crate::dim3::math::vector::Vector;
use crate::math::scalar::Scalar;

verus! {

/// The friction part of a contact constraint at one point.
#[derive(Clone, Copy, Debug, PartialEq, Eq, Structural)]
pub struct ContactTangentPart {
    /// The friction impulse accumulated in the current solve, along the two
    /// tangent directions.
    pub impulse: TangentImpulse,
    /// What an impulse along the first tangent changes of the relative
    /// velocity along the first tangent, per unit of impulse.
    pub response11: Scalar,
    /// What an impulse along the one tangent changes of the relative velocity
    /// along the other, per unit of impulse.
    pub response12: Scalar,
    /// What an impulse along the second tangent changes of the relative
    /// velocity along the second tangent, per unit of impulse.
    pub response22: Scalar,
}

impl ContactTangentPart {
    /// The friction part at a new contact point.
    pub open spec fn generate_spec(
        inverse_mass_sum: Scalar,
        inv_angular_inertia1: SymmetricMatrix,
        inv_angular_inertia2: SymmetricMatrix,
        r1: Vector,
        r2: Vector,
        tangent1: Vector,
        tangent2: Vector,
        warm_start_impulse: Option<TangentImpulse>,
    ) -> ContactTangentPart {
        ContactTangentPart {
            impulse: match warm_start_impulse {
                Some(impulse) => impulse,
                None => TangentImpulse { x: Scalar { raw: 0 }, y: Scalar { raw: 0 } },
            },
            response11: inverse_mass_sum.add_spec(
                angular_response_spec(
                    inv_angular_inertia1,
                    inv_angular_inertia2,
                    r1,
                    r2,
                    tangent1,
                    tangent1,
                ),
            ),
            response12: angular_response_spec(
                inv_angular_inertia1,
                inv_angular_inertia2,
                r1,
                r2,
                tangent1,
                tangent2,
            ),
            response22: inverse_mass_sum.add_spec(
                angular_response_spec(
                    inv_angular_inertia1,
                    inv_angular_inertia2,
                    r1,
                    r2,
                    tangent2,
                    tangent2,
                ),
            ),
        }
    }

    /// The greatest friction impulse that the normal impulse `normal_impulse`
    /// allows.
    pub open spec fn impulse_limit_spec(friction: Scalar, normal_impulse: Scalar) -> Scalar {
        friction.mul_spec(normal_impulse)
    }

    /// The impulse along the two tangents that takes away the relative
    /// velocity `(slip1, slip2)` along them: minus the inverse of the response
    /// matrix times the velocity, and zero where the matrix has no inverse.
    pub open spec fn wanted_spec(self, slip1: Scalar, slip2: Scalar) -> TangentImpulse {
        let inv_det = self.response11.mul_spec(self.response22).sub_spec(
            self.response12.mul_spec(self.response12),
        ).recip_or_zero_spec();
        TangentImpulse {
            x: self.response22.mul_spec(slip1).sub_spec(self.response12.mul_spec(slip2)).mul_spec(
                inv_det,
            ).neg_spec(),
            y: self.response11.mul_spec(slip2).sub_spec(self.response12.mul_spec(slip1)).mul_spec(
                inv_det,
            ).neg_spec(),
        }
    }

    /// The accumulated friction impulse after a solve: what brings the
    /// relative velocity along the tangents to that of `tangent_velocity`,
    /// kept within the limit in length.
    pub open spec fn solved_impulse_spec(
        self,
        tangent1: Vector,
        tangent2: Vector,
        relative_velocity: Vector,
        tangent_velocity: Vector,
        friction: Scalar,
        normal_impulse: Scalar,
    ) -> TangentImpulse {
        let limit = ContactTangentPart::impulse_limit_spec(friction, normal_impulse);
        let slip = relative_velocity.sub_spec(tangent_velocity);
        self.impulse.add_spec(
            self.wanted_spec(slip.dot_spec(tangent1), slip.dot_spec(tangent2)),
        ).clamp_length_max_spec(limit)
    }

    /// The friction part after a solve, and the impulse that the solve adds.
    pub open spec fn solve_impulse_spec(
        self,
        tangent1: Vector,
        tangent2: Vector,
        relative_velocity: Vector,
        tangent_velocity: Vector,
        friction: Scalar,
        normal_impulse: Scalar,
    ) -> (ContactTangentPart, Vector) {
        let new_impulse = self.solved_impulse_spec(
            tangent1,
            tangent2,
            relative_velocity,
            tangent_velocity,
            friction,
            normal_impulse,
        );
        let applied = new_impulse.sub_spec(self.impulse);
        (
            ContactTangentPart { impulse: new_impulse, ..self },
            tangent1.scale_spec(applied.x).add_spec(tangent2.scale_spec(applied.y)),
        )
    }

    /// The friction part at a new contact point between two bodies with the
    /// sum `inverse_mass_sum` of inverse masses and the given inverse angular
    /// inertias, at the anchors `r1` and `r2`. It starts from
    /// `warm_start_impulse`, or from zero where there is none.
    pub fn generate(
        inverse_mass_sum: Scalar,
        inv_angular_inertia1: SymmetricMatrix,
        inv_angular_inertia2: SymmetricMatrix,
        r1: Vector,
        r2: Vector,
        tangent_directions: [Vector; 2],
        warm_start_impulse: Option<TangentImpulse>,
    ) -> (r: ContactTangentPart)
        ensures
            r == ContactTangentPart::generate_spec(
                inverse_mass_sum,
                inv_angular_inertia1,
                inv_angular_inertia2,
                r1,
                r2,
                tangent_directions[0],
                tangent_directions[1],
                warm_start_impulse,
            ),
    {
        let t1 = tangent_directions[0];
        let t2 = tangent_directions[1];
        ContactTangentPart {
            impulse: match warm_start_impulse {
                Some(impulse) => impulse,
                None => TangentImpulse::zero(),
            },
            response11: inverse_mass_sum.add(
                angular_response(inv_angular_inertia1, inv_angular_inertia2, r1, r2, t1, t1),
            ),
            response12: angular_response(inv_angular_inertia1, inv_angular_inertia2, r1, r2, t1, t2),
            response22: inverse_mass_sum.add(
                angular_response(inv_angular_inertia1, inv_angular_inertia2, r1, r2, t2, t2),
            ),
        }
    }

    /// Solves the friction part: accumulates the impulse that brings the
    /// relative velocity along the tangents to that of `tangent_velocity`,
    /// keeps the accumulated impulse within `friction` times `normal_impulse`
    /// in length, and returns the impulse that was added, as a vector.
    pub fn solve_impulse(
        &mut self,
        tangent_directions: [Vector; 2],
        relative_velocity: Vector,
        tangent_velocity: Vector,
        friction: Scalar,
        normal_impulse: Scalar,
    ) -> (applied: Vector)
        ensures
            (*final(self), applied) == old(self).solve_impulse_spec(
                tangent_directions[0],
                tangent_directions[1],
                relative_velocity,
                tangent_velocity,
                friction,
                normal_impulse,
            ),
            friction@ >= 0 && normal_impulse@ >= 0 ==> final(self).impulse.length_spec()@
                <= ContactTangentPart::impulse_limit_spec(friction, normal_impulse)@,
    {
        let t1 = tangent_directions[0];
        let t2 = tangent_directions[1];
        let limit = friction.mul(normal_impulse);
        let slip = relative_velocity.sub(tangent_velocity);
        let slip1 = slip.dot(t1);
        let slip2 = slip.dot(t2);
        let inv_det = self.response11.mul(self.response22).sub(
            self.response12.mul(self.response12),
        ).recip_or_zero();
        let wanted = TangentImpulse::new(
            self.response22.mul(slip1).sub(self.response12.mul(slip2)).mul(inv_det).neg(),
            self.response11.mul(slip2).sub(self.response12.mul(slip1)).mul(inv_det).neg(),
        );
        proof {
            crate::math::scalar::lemma_mul_nonnegative(friction, normal_impulse);
            lemma_clamp_length_max(self.impulse.add_spec(wanted), limit);
        }
        let new_impulse = self.impulse.add(wanted).clamp_length_max(limit);
        let applied = new_impulse.sub(self.impulse);
        self.impulse = new_impulse;
        t1.scale(applied.x).add(t2.scale(applied.y))
    }
}

/// Where the anchors do not slip along either tangent, nothing is wanted.
pub proof fn lemma_wanted_zero(part: ContactTangentPart, slip1: Scalar, slip2: Scalar)
    requires
        slip1@ == 0,
        slip2@ == 0,
    ensures
        part.wanted_spec(slip1, slip2) == (TangentImpulse { x: Scalar { raw: 0 }, y: Scalar { raw: 0 } }),
{
    let inv_det = part.response11.mul_spec(part.response22).sub_spec(
        part.response12.mul_spec(part.response12),
    ).recip_or_zero_spec();
    crate::math::scalar::lemma_mul_zero(part.response22, slip1);
    crate::math::scalar::lemma_mul_zero(part.response12, slip2);
    crate::math::scalar::lemma_mul_zero(part.response11, slip2);
    crate::math::scalar::lemma_mul_zero(part.response12, slip1);
    crate::math::scalar::lemma_mul_zero(
        part.response22.mul_spec(slip1).sub_spec(part.response12.mul_spec(slip2)),
        inv_det,
    );
    crate::math::scalar::lemma_mul_zero(
        part.response11.mul_spec(slip2).sub_spec(part.response12.mul_spec(slip1)),
        inv_det,
    );
}

/// A friction part whose anchors do not slip along either tangent beyond what
/// the tangent velocity asks for, and whose impulse lies within the limit,
/// stays as it is in a solve and adds no impulse.
pub proof fn lemma_solve_without_slip(
    part: ContactTangentPart,
    tangent1: Vector,
    tangent2: Vector,
    relative_velocity: Vector,
    tangent_velocity: Vector,
    friction: Scalar,
    normal_impulse: Scalar,
)
    requires
        relative_velocity.sub_spec(tangent_velocity).dot_spec(tangent1)@ == 0,
        relative_velocity.sub_spec(tangent_velocity).dot_spec(tangent2)@ == 0,
        part.impulse.clamp_length_max_spec(
            ContactTangentPart::impulse_limit_spec(friction, normal_impulse),
        ) == part.impulse,
    ensures
        part.solve_impulse_spec(
            tangent1,
            tangent2,
            relative_velocity,
            tangent_velocity,
            friction,
            normal_impulse,
        ) == (part, Vector::zero_spec()),
{
    let slip = relative_velocity.sub_spec(tangent_velocity);
    lemma_wanted_zero(part, slip.dot_spec(tangent1), slip.dot_spec(tangent2));
    let wanted = part.wanted_spec(slip.dot_spec(tangent1), slip.dot_spec(tangent2));
    assert(part.impulse.add_spec(wanted) == part.impulse);
    let applied = part.impulse.sub_spec(part.impulse);
    assert(applied.x@ == 0 && applied.y@ == 0);
    crate::dim3::math::vector::lemma_scale_zero(tangent1, applied.x);
    crate::dim3::math::vector::lemma_scale_zero(tangent2, applied.y);
}

} // verus!
