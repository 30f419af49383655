//! The state of a rigid body that the solver reads and changes.

use vstd::prelude::*;
use crate::dim3::math::matrix::lemma_mul_vector_zero;
use crate::dim3::math::matrix::SymmetricMatrix;
use crate::dim3::math::rotation::Rotation;
use crate::dim3::math::vector::lemma_cross_zero;
use crate::dim3::math::vector::lemma_scale_zero;
use crate::dim3::math::vector::Vector;
use crate::math::scalar::Scalar;

verus! {

/// The state of a body during one solve: its velocities, and how far it has
/// moved and turned since the step began.
#[derive(Clone, Copy, Debug, PartialEq, Eq, Structural)]
pub struct SolverBody {
    /// The linear velocity.
    pub linear_velocity: Vector,
    /// The angular velocity.
    pub angular_velocity: Vector,
    /// The translation accumulated since the step began.
    pub delta_position: Vector,
    /// The rotation accumulated since the step began.
    pub delta_rotation: Rotation,
}

/// The inverse mass and inverse angular inertia with which a body answers an
/// impulse. A body of infinite mass has zero for both.
#[derive(Clone, Copy, Debug, PartialEq, Eq, Structural)]
pub struct SolverBodyInertia {
    /// The effective inverse mass.
    pub inv_mass: Scalar,
    /// The effective inverse angular inertia, in world space.
    pub inv_angular_inertia: SymmetricMatrix,
    /// The dominance of the body: of two bodies in a constraint, the one with
    /// the greater dominance counts as having infinite mass.
    pub dominance: i8,
}

impl SolverBody {
    /// A body at rest that has not moved.
    pub open spec fn at_rest_spec() -> SolverBody {
        SolverBody {
            linear_velocity: Vector::zero_spec(),
            angular_velocity: Vector::zero_spec(),
            delta_position: Vector::zero_spec(),
            delta_rotation: Rotation::identity_spec(),
        }
    }

    /// The velocity of the point of the body at `point` from its center of
    /// mass: the linear velocity plus the cross product of the angular
    /// velocity and `point`.
    pub open spec fn velocity_at_point_spec(self, point: Vector) -> Vector {
        self.linear_velocity.add_spec(self.angular_velocity.cross_spec(point))
    }

    /// A body at rest that has not moved.
    pub fn at_rest() -> (r: SolverBody)
        ensures
            r == SolverBody::at_rest_spec(),
    {
        SolverBody {
            linear_velocity: Vector::zero(),
            angular_velocity: Vector::zero(),
            delta_position: Vector::zero(),
            delta_rotation: Rotation::identity(),
        }
    }

    /// The velocity of the point of the body at `point` from its center of mass.
    pub fn velocity_at_point(&self, point: Vector) -> (r: Vector)
        ensures
            r == self.velocity_at_point_spec(point),
    {
        self.linear_velocity.add(self.angular_velocity.cross(point))
    }
}

impl SolverBodyInertia {
    /// Whether the body has infinite mass and infinite angular inertia.
    pub open spec fn is_infinite(self) -> bool {
        self.inv_mass@ == 0 && self.inv_angular_inertia == SymmetricMatrix::zero_spec()
    }

    /// The same body with infinite mass and infinite angular inertia.
    pub open spec fn to_infinite_spec(self) -> SolverBodyInertia {
        SolverBodyInertia {
            inv_mass: Scalar { raw: 0 },
            inv_angular_inertia: SymmetricMatrix::zero_spec(),
            dominance: self.dominance,
        }
    }

    /// How much more dominant the first body is than the second.
    pub open spec fn relative_dominance_spec(inertia1: SolverBodyInertia, inertia2: SolverBodyInertia) -> int {
        inertia1.dominance - inertia2.dominance
    }

    /// The inertias with which two bodies answer a constraint between them:
    /// the more dominant of the two has infinite mass.
    pub open spec fn effective_pair_spec(inertia1: SolverBodyInertia, inertia2: SolverBodyInertia) -> (
        SolverBodyInertia,
        SolverBodyInertia,
    ) {
        if inertia1.dominance > inertia2.dominance {
            (inertia1.to_infinite_spec(), inertia2)
        } else if inertia1.dominance < inertia2.dominance {
            (inertia1, inertia2.to_infinite_spec())
        } else {
            (inertia1, inertia2)
        }
    }

    /// The inertia of a body with the given inverse mass, inverse angular
    /// inertia and dominance.
    pub fn new(inv_mass: Scalar, inv_angular_inertia: SymmetricMatrix, dominance: i8) -> (r: SolverBodyInertia)
        ensures
            r == (SolverBodyInertia { inv_mass, inv_angular_inertia, dominance }),
    {
        SolverBodyInertia { inv_mass, inv_angular_inertia, dominance }
    }

    /// The inertia of a body of infinite mass with the given dominance.
    pub fn infinite(dominance: i8) -> (r: SolverBodyInertia)
        ensures
            r.is_infinite(),
            r.dominance == dominance,
    {
        SolverBodyInertia {
            inv_mass: Scalar::zero(),
            inv_angular_inertia: SymmetricMatrix::zero(),
            dominance,
        }
    }

    /// The effective inverse mass.
    pub fn effective_inv_mass(&self) -> (r: Scalar)
        ensures
            r == self.inv_mass,
    {
        self.inv_mass
    }

    /// The effective inverse angular inertia.
    pub fn effective_inv_angular_inertia(&self) -> (r: SymmetricMatrix)
        ensures
            r == self.inv_angular_inertia,
    {
        self.inv_angular_inertia
    }

    /// The dominance of the body.
    pub fn dominance(&self) -> (r: i8)
        ensures
            r == self.dominance,
    {
        self.dominance
    }

    /// The same body with infinite mass and infinite angular inertia.
    pub fn to_infinite(&self) -> (r: SolverBodyInertia)
        ensures
            r == self.to_infinite_spec(),
            r.is_infinite(),
    {
        SolverBodyInertia {
            inv_mass: Scalar::zero(),
            inv_angular_inertia: SymmetricMatrix::zero(),
            dominance: self.dominance,
        }
    }

    /// How much more dominant the first body is than the second.
    pub fn relative_dominance(inertia1: &SolverBodyInertia, inertia2: &SolverBodyInertia) -> (r: i16)
        ensures
            r == SolverBodyInertia::relative_dominance_spec(*inertia1, *inertia2),
    {
        inertia1.dominance as i16 - inertia2.dominance as i16
    }

    /// The inertias with which two bodies answer a constraint between them.
    pub fn effective_pair(inertia1: &SolverBodyInertia, inertia2: &SolverBodyInertia) -> (r: (
        SolverBodyInertia,
        SolverBodyInertia,
    ))
        ensures
            r == SolverBodyInertia::effective_pair_spec(*inertia1, *inertia2),
            inertia1.dominance > inertia2.dominance ==> r.0.is_infinite(),
            inertia1.dominance < inertia2.dominance ==> r.1.is_infinite(),
    {
        if inertia1.dominance > inertia2.dominance {
            (inertia1.to_infinite(), *inertia2)
        } else if inertia1.dominance < inertia2.dominance {
            (*inertia1, inertia2.to_infinite())
        } else {
            (*inertia1, *inertia2)
        }
    }
}

/// The two bodies after the impulse `impulse` has acted between them at the
/// anchors `r1` and `r2`: the first body loses `impulse` times its inverse
/// mass of linear velocity and its inverse angular inertia times `r1 x
/// impulse` of angular velocity; the second body gains the like.
pub open spec fn apply_impulse_spec(
    body1: SolverBody,
    body2: SolverBody,
    inertia1: SolverBodyInertia,
    inertia2: SolverBodyInertia,
    r1: Vector,
    r2: Vector,
    impulse: Vector,
) -> (SolverBody, SolverBody) {
    (
        SolverBody {
            linear_velocity: body1.linear_velocity.sub_spec(impulse.scale_spec(inertia1.inv_mass)),
            angular_velocity: body1.angular_velocity.sub_spec(
                inertia1.inv_angular_inertia.mul_vector_spec(r1.cross_spec(impulse)),
            ),
            ..body1
        },
        SolverBody {
            linear_velocity: body2.linear_velocity.add_spec(impulse.scale_spec(inertia2.inv_mass)),
            angular_velocity: body2.angular_velocity.add_spec(
                inertia2.inv_angular_inertia.mul_vector_spec(r2.cross_spec(impulse)),
            ),
            ..body2
        },
    )
}

/// Applies the impulse `impulse` between two bodies at the anchors `r1` and
/// `r2`: against the first body, and on the second.
pub fn apply_impulse(
    body1: &mut SolverBody,
    body2: &mut SolverBody,
    inertia1: &SolverBodyInertia,
    inertia2: &SolverBodyInertia,
    r1: Vector,
    r2: Vector,
    impulse: Vector,
)
    ensures
        (*final(body1), *final(body2)) == apply_impulse_spec(
            *old(body1),
            *old(body2),
            *inertia1,
            *inertia2,
            r1,
            r2,
            impulse,
        ),
{
    body1.linear_velocity = body1.linear_velocity.sub(impulse.scale(inertia1.inv_mass));
    body1.angular_velocity = body1.angular_velocity.sub(
        inertia1.inv_angular_inertia.mul_vector(r1.cross(impulse)),
    );
    body2.linear_velocity = body2.linear_velocity.add(impulse.scale(inertia2.inv_mass));
    body2.angular_velocity = body2.angular_velocity.add(
        inertia2.inv_angular_inertia.mul_vector(r2.cross(impulse)),
    );
}

/// The two bodies after the angular impulse `impulse` has acted between them:
/// the first body loses its inverse angular inertia times `impulse` of angular
/// velocity, the second gains the like.
pub open spec fn apply_angular_impulse_spec(
    body1: SolverBody,
    body2: SolverBody,
    inertia1: SolverBodyInertia,
    inertia2: SolverBodyInertia,
    impulse: Vector,
) -> (SolverBody, SolverBody) {
    (
        SolverBody {
            angular_velocity: body1.angular_velocity.sub_spec(
                inertia1.inv_angular_inertia.mul_vector_spec(impulse),
            ),
            ..body1
        },
        SolverBody {
            angular_velocity: body2.angular_velocity.add_spec(
                inertia2.inv_angular_inertia.mul_vector_spec(impulse),
            ),
            ..body2
        },
    )
}

/// Applies the angular impulse `impulse` between two bodies: against the
/// first body, and on the second.
pub fn apply_angular_impulse(
    body1: &mut SolverBody,
    body2: &mut SolverBody,
    inertia1: &SolverBodyInertia,
    inertia2: &SolverBodyInertia,
    impulse: Vector,
)
    ensures
        (*final(body1), *final(body2)) == apply_angular_impulse_spec(
            *old(body1),
            *old(body2),
            *inertia1,
            *inertia2,
            impulse,
        ),
        inertia1.is_infinite() ==> *final(body1) == *old(body1),
        inertia2.is_infinite() ==> *final(body2) == *old(body2),
        impulse == Vector::zero_spec() ==> *final(body1) == *old(body1) && *final(body2) == *old(
            body2,
        ),
{
    proof {
        lemma_mul_vector_zero(inertia1.inv_angular_inertia, impulse);
        lemma_mul_vector_zero(inertia2.inv_angular_inertia, impulse);
    }
    body1.angular_velocity = body1.angular_velocity.sub(inertia1.inv_angular_inertia.mul_vector(impulse));
    body2.angular_velocity = body2.angular_velocity.add(inertia2.inv_angular_inertia.mul_vector(impulse));
}

/// An impulse leaves a body of infinite mass as it is, and a zero impulse
/// leaves both bodies as they are.
pub proof fn lemma_apply_impulse_immune(
    body1: SolverBody,
    body2: SolverBody,
    inertia1: SolverBodyInertia,
    inertia2: SolverBodyInertia,
    r1: Vector,
    r2: Vector,
    impulse: Vector,
)
    ensures
        inertia1.is_infinite() ==> apply_impulse_spec(body1, body2, inertia1, inertia2, r1, r2, impulse).0
            == body1,
        inertia2.is_infinite() ==> apply_impulse_spec(body1, body2, inertia1, inertia2, r1, r2, impulse).1
            == body2,
        impulse == Vector::zero_spec() ==> apply_impulse_spec(
            body1,
            body2,
            inertia1,
            inertia2,
            r1,
            r2,
            impulse,
        ) == (body1, body2),
{
    lemma_scale_zero(impulse, inertia1.inv_mass);
    lemma_scale_zero(impulse, inertia2.inv_mass);
    lemma_cross_zero(r1, impulse);
    lemma_cross_zero(r2, impulse);
    lemma_mul_vector_zero(inertia1.inv_angular_inertia, r1.cross_spec(impulse));
    lemma_mul_vector_zero(inertia2.inv_angular_inertia, r2.cross_spec(impulse));
}

} // verus!
