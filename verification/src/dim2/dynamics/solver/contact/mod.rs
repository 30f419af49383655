//! Constraints and other types used for solving contacts.
//!
//! A contact constraint is built from a contact manifold at the beginning of
//! a step, warm started with the impulses of the step before, solved a fixed
//! number of times, and at last given its restitution pass. Each of these
//! walks over the points of the constraint in order and applies, at each
//! point, an impulse between the two bodies.

pub mod laws;
pub mod normal_part;
pub mod tangent_part;

pub use normal_part::ContactNormalPart;
pub use tangent_part::ContactTangentPart;

use vstd::prelude::*;
use crate::collision::contact_types::ContactId;
use crate::dim2::collision::contact_types::ContactManifold;
use crate::dim2::collision::contact_types::ContactPoint;
use crate::collision::contact_types::Entity;
use crate::dynamics::solver::softness::SoftnessCoefficients;
use crate::dim2::dynamics::solver::solver_body::apply_impulse;
use crate::dim2::dynamics::solver::solver_body::apply_impulse_spec;
use crate::dim2::dynamics::solver::solver_body::lemma_apply_impulse_immune;
use crate::dim2::dynamics::solver::solver_body::SolverBody;
use crate::dim2::dynamics::solver::solver_body::SolverBodyInertia;
use crate::math::scalar::Scalar;
use crate::dim2::math::vector::Vector;

verus! {

/// Data and logic for solving a single contact point of a [`ContactConstraint`].
#[derive(Clone, Copy, Debug)]
pub struct ContactConstraintPoint {
    /// The normal part of the contact constraint.
    pub normal_part: ContactNormalPart,
    /// The tangential friction part of the contact constraint.
    ///
    /// `None` if the coefficient of friction is zero.
    pub tangent_part: Option<ContactTangentPart>,
    /// The contact point relative to the center of mass of the first body.
    pub anchor1: Vector,
    /// The contact point relative to the center of mass of the second body.
    pub anchor2: Vector,
    /// The pre-solve relative velocity of the bodies along the normal at the
    /// contact point.
    pub normal_speed: Scalar,
    /// The pre-solve separation distance between the bodies.
    ///
    /// A negative separation indicates penetration.
    pub initial_separation: Scalar,
}

/// A contact constraint used for resolving inter-penetration between two bodies.
///
/// Each constraint corresponds to the contact manifold indicated by the
/// `manifold_index`. The contact points are stored in `points`, and they all
/// share the same `normal`.
#[derive(Clone, Debug)]
pub struct ContactConstraint {
    /// The first rigid body in the contact.
    pub body1: Entity,
    /// The second rigid body in the contact.
    pub body2: Entity,
    /// The relative dominance of the bodies.
    ///
    /// If the relative dominance is positive, the first body is dominant and
    /// is considered to have infinite mass.
    pub relative_dominance: i16,
    /// The combined coefficient of dynamic friction of the bodies.
    pub friction: Scalar,
    /// The combined coefficient of restitution of the bodies.
    pub restitution: Scalar,
    /// The desired relative linear speed of the bodies along the surface,
    /// expressed in world space as `tangent_speed2 - tangent_speed1`.
    ///
    /// If set to a non-zero value, this can be used to simulate effects such
    /// as conveyor belts.
    pub tangent_speed: Scalar,
    /// The world-space contact normal shared by all points in the contact
    /// manifold.
    pub normal: Vector,
    /// The contact points in the manifold. Each point shares the same `normal`.
    pub points: Vec<ContactConstraintPoint>,
    /// The stable identifier of the contact pair.
    pub contact_id: ContactId,
    /// The index of the contact manifold in the contact pair.
    pub manifold_index: usize,
}

/// What a pass over the points of a constraint works on: the points and the
/// two bodies.
pub struct SolveState {
    /// The points of the constraint.
    pub points: Seq<ContactConstraintPoint>,
    /// The first body.
    pub body1: SolverBody,
    /// The second body.
    pub body2: SolverBody,
}

/// What a pass does at one point: the point and the two bodies after it.
pub type Step = spec_fn(ContactConstraintPoint, SolverBody, SolverBody) -> (
    ContactConstraintPoint,
    SolverBody,
    SolverBody,
);

/// The state after a pass has taken the step `step` at each of the first
/// `count` points, in order. Each step sees the bodies as the steps before it
/// left them.
pub open spec fn pass_spec(state: SolveState, count: int, step: Step) -> SolveState
    decreases count,
{
    if count <= 0 {
        state
    } else {
        let before = pass_spec(state, count - 1, step);
        let after = step(before.points[count - 1], before.body1, before.body2);
        SolveState {
            points: before.points.update(count - 1, after.0),
            body1: after.1,
            body2: after.2,
        }
    }
}

/// A pass keeps the number of points and leaves the points it has not reached
/// as they are.
pub proof fn lemma_pass_frame(state: SolveState, count: int, step: Step)
    requires
        count <= state.points.len(),
    ensures
        pass_spec(state, count, step).points.len() == state.points.len(),
        forall|j: int|
            count <= j < state.points.len() ==> #[trigger] pass_spec(state, count, step).points[j]
                == state.points[j],
    decreases count,
{
    if count > 0 {
        lemma_pass_frame(state, count - 1, step);
    }
}

/// A pass changes the point at `index` by the step at that point alone, taken
/// with the bodies as the steps before it left them.
pub proof fn lemma_pass_point(state: SolveState, count: int, step: Step, index: int)
    requires
        0 <= index < count <= state.points.len(),
    ensures
        pass_spec(state, count, step).points[index] == step(
            state.points[index],
            pass_spec(state, index, step).body1,
            pass_spec(state, index, step).body2,
        ).0,
    decreases count,
{
    lemma_pass_frame(state, count - 1, step);
    if index < count - 1 {
        lemma_pass_point(state, count - 1, step, index);
    } else {
        lemma_pass_frame(state, index, step);
    }
}

/// The velocity of the anchor `r2` of the second body relative to the anchor
/// `r1` of the first.
pub open spec fn relative_velocity_spec(body1: SolverBody, body2: SolverBody, r1: Vector, r2: Vector) -> Vector {
    body2.velocity_at_point_spec(r2).sub_spec(body1.velocity_at_point_spec(r1))
}

/// The velocity of the anchor `r2` of the second body relative to the anchor
/// `r1` of the first.
pub fn relative_velocity(body1: &SolverBody, body2: &SolverBody, r1: Vector, r2: Vector) -> (r: Vector)
    ensures
        r == relative_velocity_spec(*body1, *body2, r1, r2),
{
    body2.velocity_at_point(r2).sub(body1.velocity_at_point(r1))
}

/// The tangent direction of a contact with the normal `normal`: the normal
/// turned a quarter turn clockwise.
pub open spec fn tangent_spec(normal: Vector) -> Vector {
    Vector { x: normal.y, y: normal.x.neg_spec() }
}

/// The tangent direction of a unit normal is a unit vector.
pub proof fn lemma_tangent_is_unit(normal: Vector)
    requires
        normal.is_normalized_spec(),
    ensures
        tangent_spec(normal).is_normalized_spec(),
{
    let x = normal.x@;
    assert((-x) * (-x) == x * x) by (nonlinear_arith);
    if x == i64::MIN {
        // The square of the least scalar is out of range, and so is the
        // squared length of the normal.
        assert(x * x == 0x4000_0000_0000_0000_0000_0000_0000_0000) by (nonlinear_arith)
            requires
                x == -0x8000_0000_0000_0000,
        ;
        assert(normal.y@ * normal.y@ >= 0) by (nonlinear_arith);
    }
}

/// The impulse with which the point `point` is warm started: the normal and
/// friction impulses it has accumulated, scaled by `coefficient`.
pub open spec fn warm_start_impulse_spec(
    point: ContactConstraintPoint,
    normal: Vector,
    tangent: Vector,
    coefficient: Scalar,
) -> Vector {
    let tangent_impulse = match point.tangent_part {
        Some(part) => part.impulse,
        None => Scalar { raw: 0 },
    };
    normal.scale_spec(point.normal_part.impulse).add_spec(tangent.scale_spec(tangent_impulse)).scale_spec(
        coefficient,
    )
}

/// The point and the two bodies after the warm start at the point: the
/// warm-start impulse of the point has been applied, and the point is as it
/// was.
#[verifier::opaque]
pub open spec fn warm_start_point_spec(
    point: ContactConstraintPoint,
    body1: SolverBody,
    body2: SolverBody,
    inertia1: SolverBodyInertia,
    inertia2: SolverBodyInertia,
    normal: Vector,
    tangent: Vector,
    coefficient: Scalar,
) -> (ContactConstraintPoint, SolverBody, SolverBody) {
    let after = apply_impulse_spec(
        body1,
        body2,
        inertia1,
        inertia2,
        point.anchor1,
        point.anchor2,
        warm_start_impulse_spec(point, normal, tangent, coefficient),
    );
    (point, after.0, after.1)
}

/// The warm-start step.
pub open spec fn warm_start_step(
    inertia1: SolverBodyInertia,
    inertia2: SolverBodyInertia,
    normal: Vector,
    tangent: Vector,
    coefficient: Scalar,
) -> Step {
    |point: ContactConstraintPoint, body1: SolverBody, body2: SolverBody|
        warm_start_point_spec(point, body1, body2, inertia1, inertia2, normal, tangent, coefficient)
}

/// The current separation at the point `point`: the separation before the
/// solve, plus what the bodies have moved and turned apart along the normal
/// since.
pub open spec fn separation_spec(
    point: ContactConstraintPoint,
    body1: SolverBody,
    body2: SolverBody,
    normal: Vector,
) -> Scalar {
    let r1 = body1.delta_rotation.rotate_spec(point.anchor1);
    let r2 = body2.delta_rotation.rotate_spec(point.anchor2);
    let delta_translation = body2.delta_position.sub_spec(body1.delta_position);
    delta_translation.add_spec(r2.sub_spec(r1)).dot_spec(normal).add_spec(point.initial_separation)
}

/// The point and the two bodies after the normal step at the point: the
/// normal part of the point has been solved at the current separation and
/// relative velocity, and the added impulse has been applied along the
/// normal.
#[verifier::opaque]
pub open spec fn normal_point_spec(
    point: ContactConstraintPoint,
    body1: SolverBody,
    body2: SolverBody,
    inertia1: SolverBodyInertia,
    inertia2: SolverBodyInertia,
    normal: Vector,
    delta_secs: Scalar,
    use_bias: bool,
    max_overlap_solve_speed: Scalar,
) -> (ContactConstraintPoint, SolverBody, SolverBody) {
    let solved = point.normal_part.solve_impulse_spec(
        separation_spec(point, body1, body2, normal),
        relative_velocity_spec(body1, body2, point.anchor1, point.anchor2),
        normal,
        use_bias,
        max_overlap_solve_speed,
        delta_secs,
    );
    let after = apply_impulse_spec(
        body1,
        body2,
        inertia1,
        inertia2,
        point.anchor1,
        point.anchor2,
        normal.scale_spec(solved.1),
    );
    (ContactConstraintPoint { normal_part: solved.0, ..point }, after.0, after.1)
}

/// The normal step.
pub open spec fn normal_step(
    inertia1: SolverBodyInertia,
    inertia2: SolverBodyInertia,
    normal: Vector,
    delta_secs: Scalar,
    use_bias: bool,
    max_overlap_solve_speed: Scalar,
) -> Step {
    |point: ContactConstraintPoint, body1: SolverBody, body2: SolverBody|
        normal_point_spec(
            point,
            body1,
            body2,
            inertia1,
            inertia2,
            normal,
            delta_secs,
            use_bias,
            max_overlap_solve_speed,
        )
}

/// The point and the two bodies after the friction step at the point: at a
/// point with a friction part, that part has been solved within the cone that
/// the point's current normal impulse allows, and the added impulse has been
/// applied. A point without a friction part is passed over.
#[verifier::opaque]
pub open spec fn tangent_point_spec(
    point: ContactConstraintPoint,
    body1: SolverBody,
    body2: SolverBody,
    inertia1: SolverBodyInertia,
    inertia2: SolverBodyInertia,
    tangent: Vector,
    tangent_speed: Scalar,
    friction: Scalar,
) -> (ContactConstraintPoint, SolverBody, SolverBody) {
    match point.tangent_part {
        None => (point, body1, body2),
        Some(part) => {
            let solved = part.solve_impulse_spec(
                tangent,
                relative_velocity_spec(body1, body2, point.anchor1, point.anchor2),
                tangent_speed,
                friction,
                point.normal_part.impulse,
            );
            let after = apply_impulse_spec(
                body1,
                body2,
                inertia1,
                inertia2,
                point.anchor1,
                point.anchor2,
                solved.1,
            );
            (ContactConstraintPoint { tangent_part: Some(solved.0), ..point }, after.0, after.1)
        },
    }
}

/// The friction step.
pub open spec fn tangent_step(
    inertia1: SolverBodyInertia,
    inertia2: SolverBodyInertia,
    tangent: Vector,
    tangent_speed: Scalar,
    friction: Scalar,
) -> Step {
    |point: ContactConstraintPoint, body1: SolverBody, body2: SolverBody|
        tangent_point_spec(point, body1, body2, inertia1, inertia2, tangent, tangent_speed, friction)
}

/// Whether the point `point` bounces: before the solve the bodies approached
/// each other at the point with more than the speed `threshold`, and the point
/// has carried an impulse.
pub open spec fn restitution_applies(point: ContactConstraintPoint, threshold: Scalar) -> bool {
    point.normal_speed@ < threshold.neg_spec()@ && point.normal_part.total_impulse@ != 0
}

/// The point and the two bodies after the restitution step at the point: at
/// a point that bounces, the impulse has been added that brings the relative
/// speed along the normal to minus `restitution` times what it was before the
/// solve. Any other point is passed over.
#[verifier::opaque]
pub open spec fn restitution_point_spec(
    point: ContactConstraintPoint,
    body1: SolverBody,
    body2: SolverBody,
    inertia1: SolverBodyInertia,
    inertia2: SolverBodyInertia,
    normal: Vector,
    restitution: Scalar,
    threshold: Scalar,
) -> (ContactConstraintPoint, SolverBody, SolverBody) {
    if !restitution_applies(point, threshold) {
        (point, body1, body2)
    } else {
        let solved = point.normal_part.restitution_spec(
            relative_velocity_spec(body1, body2, point.anchor1, point.anchor2).dot_spec(normal),
            point.normal_speed,
            restitution,
        );
        let after = apply_impulse_spec(
            body1,
            body2,
            inertia1,
            inertia2,
            point.anchor1,
            point.anchor2,
            normal.scale_spec(solved.1),
        );
        (ContactConstraintPoint { normal_part: solved.0, ..point }, after.0, after.1)
    }
}

/// The restitution step.
pub open spec fn restitution_step(
    inertia1: SolverBodyInertia,
    inertia2: SolverBodyInertia,
    normal: Vector,
    restitution: Scalar,
    threshold: Scalar,
) -> Step {
    |point: ContactConstraintPoint, body1: SolverBody, body2: SolverBody|
        restitution_point_spec(point, body1, body2, inertia1, inertia2, normal, restitution, threshold)
}

/// Whether `after` is the same contact as `before`: a pass changes the
/// impulses of a point, and neither its anchors, what was measured before
/// the solve, its effective masses and softness, nor whether it has a
/// friction part.
pub open spec fn same_contact(before: ContactConstraintPoint, after: ContactConstraintPoint) -> bool {
    &&& after.anchor1 == before.anchor1
    &&& after.anchor2 == before.anchor2
    &&& after.normal_speed == before.normal_speed
    &&& after.initial_separation == before.initial_separation
    &&& after.normal_part.effective_mass == before.normal_part.effective_mass
    &&& after.normal_part.softness == before.normal_part.softness
    &&& (after.tangent_part is None <==> before.tangent_part is None)
    &&& (after.tangent_part matches Some(a) ==> before.tangent_part matches Some(b)
        && a.effective_mass == b.effective_mass)
}

/// Whether a body has the same position and rotation deltas in `after` as in
/// `before`: a pass changes velocities only.
pub open spec fn same_deltas(before: SolverBody, after: SolverBody) -> bool {
    after.delta_position == before.delta_position && after.delta_rotation == before.delta_rotation
}

/// The constraint point that is built for the manifold point `contact`
/// between two bodies in the given states.
///
/// Its anchors are those of the manifold point. Its separation before the
/// solve is the negated penetration depth, less what the anchors are apart
/// along the normal. It has a friction part if and only if `friction` is not
/// zero, and with `warm_start` it starts from the impulses that the manifold
/// point carries.
pub open spec fn generate_point_spec(
    contact: ContactPoint,
    normal: Vector,
    body1: SolverBody,
    body2: SolverBody,
    inertia1: SolverBodyInertia,
    inertia2: SolverBodyInertia,
    friction: Scalar,
    softness: SoftnessCoefficients,
    warm_start: bool,
) -> ContactConstraintPoint {
    let r1 = contact.anchor1;
    let r2 = contact.anchor2;
    let inverse_mass_sum = inertia1.inv_mass.add_spec(inertia2.inv_mass);
    ContactConstraintPoint {
        normal_part: ContactNormalPart::generate_spec(
            inverse_mass_sum,
            inertia1.inv_angular_inertia,
            inertia2.inv_angular_inertia,
            r1,
            r2,
            normal,
            if warm_start {
                Some(contact.normal_impulse)
            } else {
                None
            },
            softness,
        ),
        tangent_part: if friction@ != 0 {
            Some(
                ContactTangentPart::generate_spec(
                    inverse_mass_sum,
                    inertia1.inv_angular_inertia,
                    inertia2.inv_angular_inertia,
                    r1,
                    r2,
                    tangent_spec(normal),
                    if warm_start {
                        Some(contact.tangent_impulse)
                    } else {
                        None
                    },
                ),
            )
        } else {
            None
        },
        anchor1: r1,
        anchor2: r2,
        normal_speed: normal.dot_spec(relative_velocity_spec(body1, body2, r1, r2)),
        initial_separation: contact.penetration.neg_spec().sub_spec(r2.sub_spec(r1).dot_spec(normal)),
    }
}

/// Takes the normal step at the point `point`: solves its normal part at the
/// current separation and relative velocity, and applies the added impulse.
fn solve_normal_point(
    point: &mut ContactConstraintPoint,
    body1: &mut SolverBody,
    body2: &mut SolverBody,
    inertia1: &SolverBodyInertia,
    inertia2: &SolverBodyInertia,
    normal: Vector,
    delta_secs: Scalar,
    use_bias: bool,
    max_overlap_solve_speed: Scalar,
)
    ensures
        (*final(point), *final(body1), *final(body2)) == normal_step(
            *inertia1,
            *inertia2,
            normal,
            delta_secs,
            use_bias,
            max_overlap_solve_speed,
        )(*old(point), *old(body1), *old(body2)),
        final(point).normal_part.impulse@ >= 0,
        final(point).tangent_part == old(point).tangent_part,
        same_contact(*old(point), *final(point)),
        same_deltas(*old(body1), *final(body1)),
        same_deltas(*old(body2), *final(body2)),
        inertia1.is_infinite() ==> *final(body1) == *old(body1),
        inertia2.is_infinite() ==> *final(body2) == *old(body2),
{
    proof {
        reveal(normal_point_spec);
    }
    let r1 = body1.delta_rotation.rotate(point.anchor1);
    let r2 = body2.delta_rotation.rotate(point.anchor2);

    // Compute current separation.
    let delta_translation = body2.delta_position.sub(body1.delta_position);
    let delta_separation = delta_translation.add(r2.sub(r1));
    let separation = delta_separation.dot(normal).add(point.initial_separation);

    // Relative velocity at contact, at the fixed anchors
    let velocity = relative_velocity(body1, body2, point.anchor1, point.anchor2);

    // Compute the incremental impulse. The clamping and impulse accumulation
    // is handled by the method.
    let mut part = point.normal_part;
    let impulse_magnitude = part.solve_impulse(
        separation,
        velocity,
        normal,
        use_bias,
        max_overlap_solve_speed,
        delta_secs,
    );
    point.normal_part = part;
    let impulse = normal.scale(impulse_magnitude);

    // Apply the impulse.
    proof {
        lemma_apply_impulse_immune(
            *body1,
            *body2,
            *inertia1,
            *inertia2,
            point.anchor1,
            point.anchor2,
            impulse,
        );
    }
    apply_impulse(body1, body2, inertia1, inertia2, point.anchor1, point.anchor2, impulse);
}

/// Takes the friction step at the point `point`: solves its friction part,
/// if it has one, within the cone that its normal impulse allows, and applies
/// the added impulse.
fn solve_tangent_point(
    point: &mut ContactConstraintPoint,
    body1: &mut SolverBody,
    body2: &mut SolverBody,
    inertia1: &SolverBodyInertia,
    inertia2: &SolverBodyInertia,
    tangent_directions: [Vector; 1],
    tangent_speed: Scalar,
    friction: Scalar,
)
    ensures
        (*final(point), *final(body1), *final(body2)) == tangent_step(
            *inertia1,
            *inertia2,
            tangent_directions[0],
            tangent_speed,
            friction,
        )(*old(point), *old(body1), *old(body2)),
        final(point).normal_part == old(point).normal_part,
        friction@ >= 0 && old(point).normal_part.impulse@ >= 0 ==> (final(point).tangent_part
            matches Some(part) ==> part.impulse.abs_spec()@ <= friction.mul_spec(
            final(point).normal_part.impulse,
        )@),
        same_contact(*old(point), *final(point)),
        same_deltas(*old(body1), *final(body1)),
        same_deltas(*old(body2), *final(body2)),
        inertia1.is_infinite() ==> *final(body1) == *old(body1),
        inertia2.is_infinite() ==> *final(body2) == *old(body2),
{
    proof {
        reveal(tangent_point_spec);
    }
    match point.tangent_part {
        None => {},
        Some(friction_part) => {
            let mut friction_part = friction_part;

            // Relative velocity at contact point, at the fixed anchors
            let velocity = relative_velocity(body1, body2, point.anchor1, point.anchor2);

            // Compute the incremental impulse. The clamping and impulse
            // accumulation is handled by the method.
            let impulse = friction_part.solve_impulse(
                tangent_directions,
                velocity,
                tangent_speed,
                friction,
                point.normal_part.impulse,
            );
            point.tangent_part = Some(friction_part);

            // Apply the impulse.
            proof {
                lemma_apply_impulse_immune(
                    *body1,
                    *body2,
                    *inertia1,
                    *inertia2,
                    point.anchor1,
                    point.anchor2,
                    impulse,
                );
            }
            apply_impulse(body1, body2, inertia1, inertia2, point.anchor1, point.anchor2, impulse);
        },
    }
}

/// Takes the restitution step at the point `point`: where the point bounces,
/// adds the impulse that makes it bounce, and applies it.
fn restitute_point(
    point: &mut ContactConstraintPoint,
    body1: &mut SolverBody,
    body2: &mut SolverBody,
    inertia1: &SolverBodyInertia,
    inertia2: &SolverBodyInertia,
    normal: Vector,
    restitution: Scalar,
    threshold: Scalar,
)
    ensures
        (*final(point), *final(body1), *final(body2)) == restitution_step(
            *inertia1,
            *inertia2,
            normal,
            restitution,
            threshold,
        )(*old(point), *old(body1), *old(body2)),
        !restitution_applies(*old(point), threshold) ==> *final(point) == *old(point) && *final(body1)
            == *old(body1) && *final(body2) == *old(body2),
        old(point).normal_part.impulse@ >= 0 ==> final(point).normal_part.impulse@ >= 0,
        final(point).tangent_part == old(point).tangent_part,
        same_contact(*old(point), *final(point)),
        same_deltas(*old(body1), *final(body1)),
        same_deltas(*old(body2), *final(body2)),
        inertia1.is_infinite() ==> *final(body1) == *old(body1),
        inertia2.is_infinite() ==> *final(body2) == *old(body2),
{
    proof {
        reveal(restitution_point_spec);
    }
    // Skip restitution for speeds that do not exceed the threshold.
    // We also skip contacts that don't apply an impulse to account for
    // speculative contacts.
    if point.normal_speed.raw >= threshold.neg().raw || point.normal_part.total_impulse.raw == 0 {
        return ;
    }
    // Relative velocity at contact point, at the fixed anchors
    let velocity = relative_velocity(body1, body2, point.anchor1, point.anchor2);
    let normal_speed = velocity.dot(normal);

    // Compute the incremental normal impulse to account for restitution, and
    // clamp the accumulated impulse.
    let mut part = point.normal_part;
    let impulse_magnitude = part.apply_restitution(normal_speed, point.normal_speed, restitution);
    point.normal_part = part;

    // Apply the impulse.
    let impulse = normal.scale(impulse_magnitude);
    proof {
        lemma_apply_impulse_immune(
            *body1,
            *body2,
            *inertia1,
            *inertia2,
            point.anchor1,
            point.anchor2,
            impulse,
        );
    }
    apply_impulse(body1, body2, inertia1, inertia2, point.anchor1, point.anchor2, impulse);
}

impl ContactConstraint {
    /// Whether the constraint is well formed: a point has a friction part if
    /// and only if the coefficient of friction is not zero.
    pub open spec fn wf(self) -> bool {
        forall|i: int|
            0 <= i < self.points@.len() ==> ((#[trigger] self.points@[i]).tangent_part is None
                <==> self.friction@ == 0)
    }

    /// Whether `self` differs from `other` in its points at most.
    pub open spec fn same_setup(self, other: ContactConstraint) -> bool {
        &&& self.body1 == other.body1
        &&& self.body2 == other.body2
        &&& self.relative_dominance == other.relative_dominance
        &&& self.friction == other.friction
        &&& self.restitution == other.restitution
        &&& self.tangent_speed == other.tangent_speed
        &&& self.normal == other.normal
        &&& self.contact_id == other.contact_id
        &&& self.manifold_index == other.manifold_index
    }

    /// The state in which a pass over this constraint and two bodies begins.
    pub open spec fn state(self, body1: SolverBody, body2: SolverBody) -> SolveState {
        SolveState { points: self.points@, body1, body2 }
    }

    /// The state after a solve: first the normal step at every point, then
    /// the friction step at every point.
    pub open spec fn solve_spec(
        self,
        body1: SolverBody,
        body2: SolverBody,
        inertia1: SolverBodyInertia,
        inertia2: SolverBodyInertia,
        delta_secs: Scalar,
        use_bias: bool,
        max_overlap_solve_speed: Scalar,
    ) -> SolveState {
        let count = self.points@.len() as int;
        pass_spec(
            pass_spec(
                self.state(body1, body2),
                count,
                normal_step(
                    inertia1,
                    inertia2,
                    self.normal,
                    delta_secs,
                    use_bias,
                    max_overlap_solve_speed,
                ),
            ),
            count,
            tangent_step(
                inertia1,
                inertia2,
                tangent_spec(self.normal),
                self.tangent_speed,
                self.friction,
            ),
        )
    }

    /// Builds the constraint for the manifold `manifold` of the contact pair
    /// `contact_id` between the bodies `body1` and `body2`, in the states
    /// `solver_body1` and `solver_body2`.
    ///
    /// The more dominant of the two bodies counts as having infinite mass.
    /// There is one constraint point for each manifold point, in order.
    pub fn generate(
        body1: Entity,
        body2: Entity,
        contact_id: ContactId,
        manifold_index: usize,
        manifold: &ContactManifold,
        solver_body1: &SolverBody,
        solver_body2: &SolverBody,
        inertia1: &SolverBodyInertia,
        inertia2: &SolverBodyInertia,
        friction: Scalar,
        restitution: Scalar,
        tangent_speed: Scalar,
        softness: SoftnessCoefficients,
        warm_start: bool,
    ) -> (r: ContactConstraint)
        ensures
            r.body1 == body1,
            r.body2 == body2,
            r.contact_id == contact_id,
            r.manifold_index == manifold_index,
            r.relative_dominance == SolverBodyInertia::relative_dominance_spec(*inertia1, *inertia2),
            r.friction == friction,
            r.restitution == restitution,
            r.tangent_speed == tangent_speed,
            r.normal == manifold.normal,
            r.points@ == manifold.points@.map_values(
                |contact: ContactPoint|
                    generate_point_spec(
                        contact,
                        manifold.normal,
                        *solver_body1,
                        *solver_body2,
                        SolverBodyInertia::effective_pair_spec(*inertia1, *inertia2).0,
                        SolverBodyInertia::effective_pair_spec(*inertia1, *inertia2).1,
                        friction,
                        softness,
                        warm_start,
                    ),
            ),
            r.wf(),
    {
        let effective = SolverBodyInertia::effective_pair(inertia1, inertia2);
        let effective1 = effective.0;
        let effective2 = effective.1;
        let inverse_mass_sum = effective1.inv_mass.add(effective2.inv_mass);
        let normal = manifold.normal;
        let mut constraint = ContactConstraint {
            body1,
            body2,
            relative_dominance: SolverBodyInertia::relative_dominance(inertia1, inertia2),
            friction,
            restitution,
            tangent_speed,
            normal,
            points: Vec::new(),
            contact_id,
            manifold_index,
        };
        let tangents = constraint.tangent_directions(
            solver_body1.linear_velocity,
            solver_body2.linear_velocity,
        );
        let mut points: Vec<ContactConstraintPoint> = Vec::new();
        let mut i: usize = 0;
        while i < manifold.points.len()
            invariant
                i <= manifold.points.len(),
                points.len() == i,
                normal == manifold.normal,
                tangents[0] == tangent_spec(normal),
                (effective1, effective2) == SolverBodyInertia::effective_pair_spec(*inertia1, *inertia2),
                inverse_mass_sum == effective1.inv_mass.add_spec(effective2.inv_mass),
                forall|j: int|
                    0 <= j < i ==> points[j] == generate_point_spec(
                        #[trigger] manifold.points[j],
                        normal,
                        *solver_body1,
                        *solver_body2,
                        effective1,
                        effective2,
                        friction,
                        softness,
                        warm_start,
                    ),
            decreases manifold.points.len() - i,
        {
            let contact = manifold.points[i];
            let r1 = contact.anchor1;
            let r2 = contact.anchor2;
            let velocity = relative_velocity(solver_body1, solver_body2, r1, r2);
            let point = ContactConstraintPoint {
                normal_part: ContactNormalPart::generate(
                    inverse_mass_sum,
                    effective1.inv_angular_inertia,
                    effective2.inv_angular_inertia,
                    r1,
                    r2,
                    normal,
                    if warm_start {
                        Some(contact.normal_impulse)
                    } else {
                        None
                    },
                    softness,
                ),
                tangent_part: if friction.raw != 0 {
                    Some(
                        ContactTangentPart::generate(
                            inverse_mass_sum,
                            effective1.inv_angular_inertia,
                            effective2.inv_angular_inertia,
                            r1,
                            r2,
                            tangents,
                            if warm_start {
                                Some(contact.tangent_impulse)
                            } else {
                                None
                            },
                        ),
                    )
                } else {
                    None
                },
                anchor1: r1,
                anchor2: r2,
                normal_speed: normal.dot(velocity),
                initial_separation: contact.penetration.neg().sub(r2.sub(r1).dot(normal)),
            };
            points.push(point);
            i = i + 1;
        }
        constraint.points = points;
        proof {
            assert forall|k: int| 0 <= k < constraint.points@.len() implies ((
            #[trigger] constraint.points@[k]).tangent_part is None <==> friction@ == 0) by {
                let contact = manifold.points[k];
                assert(constraint.points@[k] == generate_point_spec(
                    contact,
                    normal,
                    *solver_body1,
                    *solver_body2,
                    effective1,
                    effective2,
                    friction,
                    softness,
                    warm_start,
                ));
            }
        }
        constraint
    }

    /// Computes the tangent direction of the contact: the normal turned a
    /// quarter turn clockwise. In the plane it does not depend on the
    /// velocities of the bodies.
    pub fn tangent_directions(&self, velocity1: Vector, velocity2: Vector) -> (r: [Vector; 1])
        ensures
            r[0] == tangent_spec(self.normal),
            self.normal.is_normalized_spec() ==> r[0].is_normalized_spec(),
    {
        proof {
            if self.normal.is_normalized_spec() {
                lemma_tangent_is_unit(self.normal);
            }
        }
        [Vector::new(self.normal.y, self.normal.x.neg())]
    }

    /// Gives the constraint the handles under which its two bodies are known
    /// after their owner has moved them.
    pub fn map_entities(&mut self, mapped_body1: Entity, mapped_body2: Entity)
        ensures
            final(self).body1 == mapped_body1,
            final(self).body2 == mapped_body2,
            final(self).points == old(self).points,
            final(self).relative_dominance == old(self).relative_dominance,
            final(self).friction == old(self).friction,
            final(self).restitution == old(self).restitution,
            final(self).tangent_speed == old(self).tangent_speed,
            final(self).normal == old(self).normal,
            final(self).contact_id == old(self).contact_id,
            final(self).manifold_index == old(self).manifold_index,
    {
        self.body1 = mapped_body1;
        self.body2 = mapped_body2;
    }

    /// The manifold point `contact` with the impulses that `point` has
    /// accumulated.
    pub open spec fn stored_point_spec(contact: ContactPoint, point: ContactConstraintPoint) -> ContactPoint {
        ContactPoint {
            normal_impulse: point.normal_part.impulse,
            tangent_impulse: match point.tangent_part {
                Some(part) => part.impulse,
                None => Scalar { raw: 0 },
            },
            ..contact
        }
    }

    /// Stores the impulses that the points of the constraint have accumulated
    /// in the points of its manifold, from which the next step is warm
    /// started. A manifold point without a constraint point stays as it is.
    pub fn store_impulses(&self, manifold: &mut ContactManifold)
        ensures
            final(manifold).normal == old(manifold).normal,
            final(manifold).points@.len() == old(manifold).points@.len(),
            forall|i: int|
                0 <= i < old(manifold).points@.len() ==> #[trigger] final(manifold).points@[i] == (if i
                    < self.points@.len() {
                    ContactConstraint::stored_point_spec(old(manifold).points@[i], self.points@[i])
                } else {
                    old(manifold).points@[i]
                }),
    {
        let ghost begin = manifold.points@;
        let mut i: usize = 0;
        while i < manifold.points.len() && i < self.points.len()
            invariant
                manifold.points@.len() == begin.len(),
                manifold.normal == old(manifold).normal,
                i <= begin.len(),
                i <= self.points@.len(),
                forall|k: int|
                    0 <= k < i ==> #[trigger] manifold.points@[k] == ContactConstraint::stored_point_spec(
                        begin[k],
                        self.points@[k],
                    ),
                forall|k: int| i <= k < begin.len() ==> #[trigger] manifold.points@[k] == begin[k],
            decreases manifold.points.len() - i,
        {
            let point = self.points[i];
            let mut contact = manifold.points[i];
            contact.normal_impulse = point.normal_part.impulse;
            contact.tangent_impulse = match point.tangent_part {
                Some(part) => part.impulse,
                None => Scalar::zero(),
            };
            manifold.points[i] = contact;
            i = i + 1;
        }
    }

    /// Warm starts the contact constraint by applying the impulses from the
    /// previous frame or substep, scaled by `warm_start_coefficient`.
    pub fn warm_start(
        &self,
        body1: &mut SolverBody,
        body2: &mut SolverBody,
        inertia1: &SolverBodyInertia,
        inertia2: &SolverBodyInertia,
        normal: Vector,
        tangent_directions: [Vector; 1],
        warm_start_coefficient: Scalar,
    )
        ensures
            self.state(*final(body1), *final(body2)) == pass_spec(
                self.state(*old(body1), *old(body2)),
                self.points@.len() as int,
                warm_start_step(
                    *inertia1,
                    *inertia2,
                    normal,
                    tangent_directions[0],
                    warm_start_coefficient,
                ),
            ),
            same_deltas(*old(body1), *final(body1)),
            same_deltas(*old(body2), *final(body2)),
            inertia1.is_infinite() ==> *final(body1) == *old(body1),
            inertia2.is_infinite() ==> *final(body2) == *old(body2),
    {
        let ghost begin = self.state(*body1, *body2);
        let ghost step = warm_start_step(
            *inertia1,
            *inertia2,
            normal,
            tangent_directions[0],
            warm_start_coefficient,
        );
        let tangent = tangent_directions[0];
        let mut i: usize = 0;
        while i < self.points.len()
            invariant
                i <= self.points.len(),
                begin.points == self.points@,
                tangent == tangent_directions[0],
                step == warm_start_step(*inertia1, *inertia2, normal, tangent, warm_start_coefficient),
                self.state(*body1, *body2) == pass_spec(begin, i as int, step),
                same_deltas(begin.body1, *body1),
                same_deltas(begin.body2, *body2),
                inertia1.is_infinite() ==> *body1 == begin.body1,
                inertia2.is_infinite() ==> *body2 == begin.body2,
            decreases self.points.len() - i,
        {
            let point = self.points[i];
            let tangent_impulse = match point.tangent_part {
                Some(part) => part.impulse,
                None => Scalar::zero(),
            };
            let p = normal.scale(point.normal_part.impulse).add(tangent.scale(tangent_impulse)).scale(
                warm_start_coefficient,
            );
            proof {
                reveal(warm_start_point_spec);
                lemma_pass_frame(begin, i as int, step);
                lemma_apply_impulse_immune(
                    *body1,
                    *body2,
                    *inertia1,
                    *inertia2,
                    point.anchor1,
                    point.anchor2,
                    p,
                );
            }
            apply_impulse(body1, body2, inertia1, inertia2, point.anchor1, point.anchor2, p);
            proof {
                assert(pass_spec(begin, i + 1, step).points =~= begin.points);
            }
            i = i + 1;
        }
    }

    /// Solves the [`ContactConstraint`], applying an impulse to the given bodies.
    ///
    /// The normal impulses are solved first, point by point; the friction
    /// impulses after them, each within the cone that the normal impulse just
    /// solved at its point allows.
    pub fn solve(
        &mut self,
        body1: &mut SolverBody,
        body2: &mut SolverBody,
        inertia1: &SolverBodyInertia,
        inertia2: &SolverBodyInertia,
        delta_secs: Scalar,
        use_bias: bool,
        max_overlap_solve_speed: Scalar,
    )
        ensures
            final(self).same_setup(*old(self)),
            final(self).state(*final(body1), *final(body2)) == old(self).solve_spec(
                *old(body1),
                *old(body2),
                *inertia1,
                *inertia2,
                delta_secs,
                use_bias,
                max_overlap_solve_speed,
            ),
            final(self).points@.len() == old(self).points@.len(),
            forall|i: int|
                0 <= i < final(self).points@.len() ==> (#[trigger] final(self).points@[i]).normal_part.impulse@
                    >= 0,
            old(self).friction@ >= 0 ==> forall|i: int|
                0 <= i < final(self).points@.len() ==> ((#[trigger] final(self).points@[i]).tangent_part
                    matches Some(part) ==> part.impulse.abs_spec()@ <= old(self).friction.mul_spec(
                    final(self).points@[i].normal_part.impulse,
                )@),
            forall|i: int|
                0 <= i < final(self).points@.len() ==> same_contact(
                    old(self).points@[i],
                    #[trigger] final(self).points@[i],
                ),
            old(self).wf() ==> final(self).wf(),
            same_deltas(*old(body1), *final(body1)),
            same_deltas(*old(body2), *final(body2)),
            inertia1.is_infinite() ==> *final(body1) == *old(body1),
            inertia2.is_infinite() ==> *final(body2) == *old(body2),
    {
        let ghost begin = self.state(*body1, *body2);
        let ghost begin_self = *self;
        let ghost n_step = normal_step(
            *inertia1,
            *inertia2,
            self.normal,
            delta_secs,
            use_bias,
            max_overlap_solve_speed,
        );
        let count = self.points.len();
        let normal = self.normal;

        // Normal impulses
        let mut i: usize = 0;
        while i < count
            invariant
                i <= count,
                count == self.points@.len(),
                count == begin.points.len(),
                self.same_setup(begin_self),
                normal == self.normal,
                n_step == normal_step(
                    *inertia1,
                    *inertia2,
                    normal,
                    delta_secs,
                    use_bias,
                    max_overlap_solve_speed,
                ),
                self.state(*body1, *body2) == pass_spec(begin, i as int, n_step),
                forall|j: int| 0 <= j < i ==> (#[trigger] self.points@[j]).normal_part.impulse@ >= 0,
                forall|j: int| 0 <= j < count ==> same_contact(begin.points[j], #[trigger] self.points@[j]),
                same_deltas(begin.body1, *body1),
                same_deltas(begin.body2, *body2),
                inertia1.is_infinite() ==> *body1 == begin.body1,
                inertia2.is_infinite() ==> *body2 == begin.body2,
            decreases count - i,
        {
            let mut point = self.points[i];
            solve_normal_point(
                &mut point,
                body1,
                body2,
                inertia1,
                inertia2,
                normal,
                delta_secs,
                use_bias,
                max_overlap_solve_speed,
            );
            self.points[i] = point;
            i = i + 1;
        }

        let tangent_directions = self.tangent_directions(body1.linear_velocity, body2.linear_velocity);
        let ghost middle = self.state(*body1, *body2);
        let ghost t_step = tangent_step(
            *inertia1,
            *inertia2,
            tangent_directions[0],
            self.tangent_speed,
            self.friction,
        );
        let tangent_speed = self.tangent_speed;
        let friction = self.friction;

        // Friction
        let mut i: usize = 0;
        while i < count
            invariant
                i <= count,
                count == self.points@.len(),
                count == begin.points.len(),
                count == middle.points.len(),
                self.same_setup(begin_self),
                tangent_speed == self.tangent_speed,
                friction == self.friction,
                t_step == tangent_step(
                    *inertia1,
                    *inertia2,
                    tangent_directions[0],
                    tangent_speed,
                    friction,
                ),
                self.state(*body1, *body2) == pass_spec(middle, i as int, t_step),
                forall|j: int| 0 <= j < count ==> (#[trigger] self.points@[j]).normal_part.impulse@ >= 0,
                friction@ >= 0 ==> forall|j: int|
                    0 <= j < i ==> ((#[trigger] self.points@[j]).tangent_part matches Some(part)
                        ==> part.impulse.abs_spec()@ <= friction.mul_spec(
                        self.points@[j].normal_part.impulse,
                    )@),
                forall|j: int| 0 <= j < count ==> same_contact(begin.points[j], #[trigger] self.points@[j]),
                same_deltas(begin.body1, *body1),
                same_deltas(begin.body2, *body2),
                inertia1.is_infinite() ==> *body1 == begin.body1,
                inertia2.is_infinite() ==> *body2 == begin.body2,
            decreases count - i,
        {
            let mut point = self.points[i];
            solve_tangent_point(
                &mut point,
                body1,
                body2,
                inertia1,
                inertia2,
                tangent_directions,
                tangent_speed,
                friction,
            );
            self.points[i] = point;
            i = i + 1;
        }
    }

    /// Applies restitution for the given bodies if the relative speed along
    /// the contact normal exceeds the given `threshold`.
    ///
    /// Only a point at which the bodies approached each other with more than
    /// that speed before the solve, and which has carried an impulse, takes
    /// part: that leaves out the speculative points.
    pub fn apply_restitution(
        &mut self,
        body1: &mut SolverBody,
        body2: &mut SolverBody,
        inertia1: &SolverBodyInertia,
        inertia2: &SolverBodyInertia,
        threshold: Scalar,
    )
        ensures
            final(self).same_setup(*old(self)),
            final(self).state(*final(body1), *final(body2)) == pass_spec(
                old(self).state(*old(body1), *old(body2)),
                old(self).points@.len() as int,
                restitution_step(
                    *inertia1,
                    *inertia2,
                    old(self).normal,
                    old(self).restitution,
                    threshold,
                ),
            ),
            final(self).points@.len() == old(self).points@.len(),
            forall|i: int|
                0 <= i < final(self).points@.len() ==> same_contact(
                    old(self).points@[i],
                    #[trigger] final(self).points@[i],
                ),
            forall|i: int|
                0 <= i < final(self).points@.len() && !restitution_applies(
                    old(self).points@[i],
                    threshold,
                ) ==> (#[trigger] final(self).points@[i]) == old(self).points@[i],
            forall|i: int|
                0 <= i < final(self).points@.len() && old(self).points@[i].normal_part.impulse@ >= 0 ==> (
                #[trigger] final(self).points@[i]).normal_part.impulse@ >= 0,
            (forall|i: int|
                0 <= i < old(self).points@.len() ==> !restitution_applies(
                    #[trigger] old(self).points@[i],
                    threshold,
                )) ==> *final(body1) == *old(body1) && *final(body2) == *old(body2),
            old(self).wf() ==> final(self).wf(),
            same_deltas(*old(body1), *final(body1)),
            same_deltas(*old(body2), *final(body2)),
            inertia1.is_infinite() ==> *final(body1) == *old(body1),
            inertia2.is_infinite() ==> *final(body2) == *old(body2),
    {
        let ghost begin = self.state(*body1, *body2);
        let ghost begin_self = *self;
        let ghost step = restitution_step(
            *inertia1,
            *inertia2,
            self.normal,
            self.restitution,
            threshold,
        );
        let count = self.points.len();
        let normal = self.normal;
        let restitution = self.restitution;
        let mut i: usize = 0;
        while i < count
            invariant
                i <= count,
                count == self.points@.len(),
                count == begin.points.len(),
                self.same_setup(begin_self),
                normal == self.normal,
                restitution == self.restitution,
                step == restitution_step(*inertia1, *inertia2, normal, restitution, threshold),
                self.state(*body1, *body2) == pass_spec(begin, i as int, step),
                forall|j: int| 0 <= j < count ==> same_contact(begin.points[j], #[trigger] self.points@[j]),
                forall|j: int| i <= j < count ==> (#[trigger] self.points@[j]) == begin.points[j],
                forall|j: int|
                    0 <= j < count && !restitution_applies(begin.points[j], threshold) ==> (
                    #[trigger] self.points@[j]) == begin.points[j],
                forall|j: int|
                    0 <= j < count && begin.points[j].normal_part.impulse@ >= 0 ==> (
                    #[trigger] self.points@[j]).normal_part.impulse@ >= 0,
                (forall|j: int|
                    0 <= j < i ==> !restitution_applies(#[trigger] begin.points[j], threshold))
                    ==> *body1 == begin.body1 && *body2 == begin.body2,
                same_deltas(begin.body1, *body1),
                same_deltas(begin.body2, *body2),
                inertia1.is_infinite() ==> *body1 == begin.body1,
                inertia2.is_infinite() ==> *body2 == begin.body2,
            decreases count - i,
        {
            let mut point = self.points[i];
            restitute_point(&mut point, body1, body2, inertia1, inertia2, normal, restitution, threshold);
            self.points[i] = point;
            i = i + 1;
        }
    }
}

} // verus!
