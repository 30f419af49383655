//! What holds of every contact constraint, whatever its points and bodies.

use vstd::prelude::*;
use crate::dim3::dynamics::solver::contact::normal_point_spec;
use crate::dim3::dynamics::solver::contact::normal_step;
use crate::dim3::dynamics::solver::contact::pass_spec;
use crate::dim3::dynamics::solver::contact::relative_velocity_spec;
use crate::dim3::dynamics::solver::contact::restitution_applies;
use crate::dim3::dynamics::solver::contact::restitution_point_spec;
use crate::dim3::dynamics::solver::contact::restitution_step;
use crate::dim3::dynamics::solver::contact::separation_spec;
use crate::dim3::dynamics::solver::contact::tangent_directions_spec;
use crate::dim3::dynamics::solver::contact::tangent_point_spec;
use crate::dim3::dynamics::solver::contact::tangent_step;
use crate::dim3::dynamics::solver::contact::lemma_pass_frame;
use crate::dim3::dynamics::solver::contact::lemma_pass_point;
use crate::dim3::dynamics::solver::contact::warm_start_point_spec;
use crate::dim3::dynamics::solver::contact::warm_start_step;
use crate::dim3::dynamics::solver::contact::ContactConstraint;
use crate::dim3::dynamics::solver::contact::ContactConstraintPoint;
use crate::dim3::dynamics::solver::contact::SolveState;
use crate::dim3::dynamics::solver::contact::Step;
use crate::dim3::dynamics::solver::contact::normal_part::ContactNormalPart;
use crate::dim3::dynamics::solver::contact::tangent_part::ContactTangentPart;
use crate::dim3::dynamics::solver::solver_body::lemma_apply_impulse_immune;
use crate::dim3::dynamics::solver::solver_body::SolverBody;
use crate::dim3::dynamics::solver::solver_body::SolverBodyInertia;
use crate::math::scalar::lemma_mul_one;
use crate::math::scalar::lemma_mul_zero;
use crate::math::scalar::ONE_RAW;
use crate::math::scalar::Scalar;
use crate::dim2::math::vector::lemma_clamp_length_max;
use crate::dim3::math::vector::lemma_scale_zero;
use crate::dim3::math::vector::Vector;

verus! {

/// Restitution is applied only at a point at which the bodies approached
/// each other with more than the threshold speed before the solve and which
/// has carried an impulse: at any other point the restitution step changes
/// neither the point nor the velocity of either body.
pub proof fn lemma_restitution_only_where_it_applies(
    point: ContactConstraintPoint,
    body1: SolverBody,
    body2: SolverBody,
    inertia1: SolverBodyInertia,
    inertia2: SolverBodyInertia,
    normal: Vector,
    restitution: Scalar,
    threshold: Scalar,
)
    requires
        point.normal_speed@ >= threshold.neg_spec()@ || point.normal_part.total_impulse@ == 0,
    ensures
        restitution_step(inertia1, inertia2, normal, restitution, threshold)(point, body1, body2) == (
            point,
            body1,
            body2,
        ),
{
    reveal(restitution_point_spec);
}

/// A friction step leaves the point within its friction cone: the length of
/// the friction impulse does not exceed the coefficient of friction times the
/// normal impulse of the point.
pub proof fn lemma_friction_step_in_cone(
    point: ContactConstraintPoint,
    body1: SolverBody,
    body2: SolverBody,
    inertia1: SolverBodyInertia,
    inertia2: SolverBodyInertia,
    tangent1: Vector,
    tangent2: Vector,
    tangent_velocity: Vector,
    friction: Scalar,
)
    requires
        friction@ >= 0,
        point.normal_part.impulse@ >= 0,
        point.tangent_part is Some,
    ensures
        ({
            let after = tangent_step(
                inertia1,
                inertia2,
                tangent1,
                tangent2,
                tangent_velocity,
                friction,
            )(point, body1, body2).0;
            &&& after.normal_part == point.normal_part
            &&& after.tangent_part is Some
            &&& after.tangent_part->0.impulse.length_spec()@ <= friction.mul_spec(
                after.normal_part.impulse,
            )@
        }),
{
    reveal(tangent_point_spec);
    crate::math::scalar::lemma_mul_nonnegative(friction, point.normal_part.impulse);
    let part = point.tangent_part->0;
    let slip = relative_velocity_spec(body1, body2, point.anchor1, point.anchor2).sub_spec(
        tangent_velocity,
    );
    lemma_clamp_length_max(
        part.impulse.add_spec(part.wanted_spec(slip.dot_spec(tangent1), slip.dot_spec(tangent2))),
        friction.mul_spec(point.normal_part.impulse),
    );
}

/// Whether the point `point` is at rest between the bodies `body1` and
/// `body2`: it touches or overlaps, carries no negative normal impulse, the
/// anchors do not move relative to each other along the normal, and, where it
/// has a friction part, they slide along the tangents as the tangent velocity
/// asks for and the friction impulse lies within the friction cone.
pub open spec fn point_at_rest(
    point: ContactConstraintPoint,
    body1: SolverBody,
    body2: SolverBody,
    normal: Vector,
    tangent_velocity: Vector,
    friction: Scalar,
) -> bool {
    let velocity = relative_velocity_spec(body1, body2, point.anchor1, point.anchor2);
    let slip = velocity.sub_spec(tangent_velocity);
    let tangents = tangent_directions_spec(normal, body1.linear_velocity, body2.linear_velocity);
    let limit = ContactTangentPart::impulse_limit_spec(friction, point.normal_part.impulse);
    &&& separation_spec(point, body1, body2, normal)@ <= 0
    &&& point.normal_part.impulse@ >= 0
    &&& velocity.dot_spec(normal)@ == 0
    &&& (point.tangent_part matches Some(part) ==> slip.dot_spec(tangents.0)@ == 0 && slip.dot_spec(
        tangents.1,
    )@ == 0 && part.impulse.clamp_length_max_spec(limit) == part.impulse)
}

/// The point `point` after a solve in which it was at rest: only the sum of
/// its normal impulses has grown.
pub open spec fn rested_point(point: ContactConstraintPoint) -> ContactConstraintPoint {
    ContactConstraintPoint {
        normal_part: ContactNormalPart {
            total_impulse: point.normal_part.total_impulse.add_spec(point.normal_part.impulse),
            ..point.normal_part
        },
        ..point
    }
}

/// The normal step at a point at rest, solved without bias, changes neither
/// the impulse of the point nor the bodies.
proof fn lemma_normal_step_at_rest(
    point: ContactConstraintPoint,
    body1: SolverBody,
    body2: SolverBody,
    inertia1: SolverBodyInertia,
    inertia2: SolverBodyInertia,
    normal: Vector,
    tangent_velocity: Vector,
    friction: Scalar,
    delta_secs: Scalar,
    max_overlap_solve_speed: Scalar,
)
    requires
        point_at_rest(point, body1, body2, normal, tangent_velocity, friction),
    ensures
        normal_step(inertia1, inertia2, normal, delta_secs, false, max_overlap_solve_speed)(
            point,
            body1,
            body2,
        ) == (rested_point(point), body1, body2),
{
    reveal(normal_point_spec);
    let velocity = relative_velocity_spec(body1, body2, point.anchor1, point.anchor2);
    let b = point.normal_part.bias_spec(
        separation_spec(point, body1, body2, normal),
        false,
        max_overlap_solve_speed,
        delta_secs,
    );
    let scaled_mass = b.mass_scale.mul_spec(point.normal_part.effective_mass);
    lemma_mul_zero(scaled_mass, velocity.dot_spec(normal).add_spec(b.bias));
    lemma_mul_zero(b.impulse_scale, point.normal_part.impulse);
    let solved = point.normal_part.solve_impulse_spec(
        separation_spec(point, body1, body2, normal),
        velocity,
        normal,
        false,
        max_overlap_solve_speed,
        delta_secs,
    );
    assert(solved.1@ == 0);
    lemma_scale_zero(normal, solved.1);
    lemma_apply_impulse_immune(
        body1,
        body2,
        inertia1,
        inertia2,
        point.anchor1,
        point.anchor2,
        normal.scale_spec(solved.1),
    );
}

/// The friction step at a point at rest changes neither the point nor the
/// bodies.
proof fn lemma_tangent_step_at_rest(
    point: ContactConstraintPoint,
    body1: SolverBody,
    body2: SolverBody,
    inertia1: SolverBodyInertia,
    inertia2: SolverBodyInertia,
    normal: Vector,
    tangent_velocity: Vector,
    friction: Scalar,
)
    requires
        point_at_rest(point, body1, body2, normal, tangent_velocity, friction),
    ensures
        tangent_step(
            inertia1,
            inertia2,
            tangent_directions_spec(normal, body1.linear_velocity, body2.linear_velocity).0,
            tangent_directions_spec(normal, body1.linear_velocity, body2.linear_velocity).1,
            tangent_velocity,
            friction,
        )(rested_point(point), body1, body2) == (rested_point(point), body1, body2),
{
    reveal(tangent_point_spec);
    match point.tangent_part {
        None => {},
        Some(part) => {
            let tangents = tangent_directions_spec(
                normal,
                body1.linear_velocity,
                body2.linear_velocity,
            );
            let velocity = relative_velocity_spec(body1, body2, point.anchor1, point.anchor2);
            crate::dim3::dynamics::solver::contact::tangent_part::lemma_solve_without_slip(
                part,
                tangents.0,
                tangents.1,
                velocity,
                tangent_velocity,
                friction,
                point.normal_part.impulse,
            );
            let solved = part.solve_impulse_spec(
                tangents.0,
                tangents.1,
                velocity,
                tangent_velocity,
                friction,
                point.normal_part.impulse,
            );
            lemma_apply_impulse_immune(
                body1,
                body2,
                inertia1,
                inertia2,
                point.anchor1,
                point.anchor2,
                solved.1,
            );
        },
    }
}

/// A pass whose step, at each of the first `count` points, leaves the bodies
/// as they are and turns the point into `changed` of it, leaves the bodies as
/// they are and turns each of these points into `changed` of it.
proof fn lemma_pass_of_still_steps(
    state: SolveState,
    count: int,
    step: Step,
    changed: spec_fn(ContactConstraintPoint) -> ContactConstraintPoint,
)
    requires
        0 <= count <= state.points.len(),
        forall|j: int|
            0 <= j < count ==> #[trigger] step(state.points[j], state.body1, state.body2) == (
                changed(state.points[j]),
                state.body1,
                state.body2,
            ),
    ensures
        pass_spec(state, count, step).body1 == state.body1,
        pass_spec(state, count, step).body2 == state.body2,
        pass_spec(state, count, step).points.len() == state.points.len(),
        forall|j: int|
            0 <= j < count ==> #[trigger] pass_spec(state, count, step).points[j] == changed(
                state.points[j],
            ),
        forall|j: int|
            count <= j < state.points.len() ==> #[trigger] pass_spec(state, count, step).points[j]
                == state.points[j],
    decreases count,
{
    if count > 0 {
        lemma_pass_of_still_steps(state, count - 1, step, changed);
        let before = pass_spec(state, count - 1, step);
        assert(before.points[count - 1] == state.points[count - 1]);
        assert(step(state.points[count - 1], state.body1, state.body2) == (
            changed(state.points[count - 1]),
            state.body1,
            state.body2,
        ));
    }
}

/// A steady state is a fixed point of the solve: where every point of a
/// constraint is at rest, a solve without bias changes neither the bodies nor
/// the impulse of any point. A warm-started solve of an unchanged
/// configuration that has reached its steady state therefore stays there.
pub proof fn lemma_solve_at_rest(
    constraint: ContactConstraint,
    body1: SolverBody,
    body2: SolverBody,
    inertia1: SolverBodyInertia,
    inertia2: SolverBodyInertia,
    delta_secs: Scalar,
    max_overlap_solve_speed: Scalar,
)
    requires
        forall|i: int|
            0 <= i < constraint.points@.len() ==> point_at_rest(
                #[trigger] constraint.points@[i],
                body1,
                body2,
                constraint.normal,
                constraint.tangent_velocity,
                constraint.friction,
            ),
    ensures
        ({
            let after = constraint.solve_spec(
                body1,
                body2,
                inertia1,
                inertia2,
                delta_secs,
                false,
                max_overlap_solve_speed,
            );
            &&& after.body1 == body1
            &&& after.body2 == body2
            &&& after.points.len() == constraint.points@.len()
            &&& forall|i: int|
                0 <= i < constraint.points@.len() ==> #[trigger] after.points[i] == rested_point(
                    constraint.points@[i],
                )
        }),
{
    let count = constraint.points@.len() as int;
    let begin = constraint.state(body1, body2);
    let n_step = normal_step(
        inertia1,
        inertia2,
        constraint.normal,
        delta_secs,
        false,
        max_overlap_solve_speed,
    );
    let rested = |point: ContactConstraintPoint| rested_point(point);
    let same = |point: ContactConstraintPoint| point;
    assert forall|j: int| 0 <= j < count implies #[trigger] n_step(
        begin.points[j],
        begin.body1,
        begin.body2,
    ) == (rested(begin.points[j]), begin.body1, begin.body2) by {
        lemma_normal_step_at_rest(
            constraint.points@[j],
            body1,
            body2,
            inertia1,
            inertia2,
            constraint.normal,
            constraint.tangent_velocity,
            constraint.friction,
            delta_secs,
            max_overlap_solve_speed,
        );
    }
    lemma_pass_of_still_steps(begin, count, n_step, rested);
    let middle = pass_spec(begin, count, n_step);
    let tangents = tangent_directions_spec(
        constraint.normal,
        middle.body1.linear_velocity,
        middle.body2.linear_velocity,
    );
    let t_step = tangent_step(
        inertia1,
        inertia2,
        tangents.0,
        tangents.1,
        constraint.tangent_velocity,
        constraint.friction,
    );
    assert forall|j: int| 0 <= j < count implies #[trigger] t_step(
        middle.points[j],
        middle.body1,
        middle.body2,
    ) == (same(middle.points[j]), middle.body1, middle.body2) by {
        assert(middle.points[j] == rested_point(constraint.points@[j]));
        lemma_tangent_step_at_rest(
            constraint.points@[j],
            body1,
            body2,
            inertia1,
            inertia2,
            constraint.normal,
            constraint.tangent_velocity,
            constraint.friction,
        );
    }
    lemma_pass_of_still_steps(middle, count, t_step, same);
}

/// With no point at which restitution applies, the restitution pass changes
/// nothing.
pub proof fn lemma_restitution_pass_without_bounce(
    constraint: ContactConstraint,
    body1: SolverBody,
    body2: SolverBody,
    inertia1: SolverBodyInertia,
    inertia2: SolverBodyInertia,
    threshold: Scalar,
)
    requires
        forall|i: int|
            0 <= i < constraint.points@.len() ==> !restitution_applies(
                #[trigger] constraint.points@[i],
                threshold,
            ),
    ensures
        pass_spec(
            constraint.state(body1, body2),
            constraint.points@.len() as int,
            restitution_step(inertia1, inertia2, constraint.normal, constraint.restitution, threshold),
        ) == constraint.state(body1, body2),
{
    let begin = constraint.state(body1, body2);
    let count = constraint.points@.len() as int;
    let step = restitution_step(
        inertia1,
        inertia2,
        constraint.normal,
        constraint.restitution,
        threshold,
    );
    let same = |point: ContactConstraintPoint| point;
    assert forall|j: int| 0 <= j < count implies #[trigger] step(
        begin.points[j],
        begin.body1,
        begin.body2,
    ) == (same(begin.points[j]), begin.body1, begin.body2) by {
        reveal(restitution_point_spec);
        assert(!restitution_applies(constraint.points@[j], threshold));
    }
    lemma_pass_of_still_steps(begin, count, step, same);
    assert(pass_spec(begin, count, step).points =~= begin.points);
}

/// Whether the point `point` is fresh and smooth: it has accumulated no
/// normal impulse and has no friction part.
pub open spec fn fresh_and_smooth(point: ContactConstraintPoint) -> bool {
    point.normal_part.impulse@ == 0 && point.tangent_part is None
}

/// Warm starting a point that a normal step has just solved from zero, with
/// the coefficient one and from the bodies as they were before the step,
/// gives the bodies as the step left them.
proof fn lemma_warm_start_replays_step(
    point: ContactConstraintPoint,
    body1: SolverBody,
    body2: SolverBody,
    inertia1: SolverBodyInertia,
    inertia2: SolverBodyInertia,
    normal: Vector,
    tangent1: Vector,
    tangent2: Vector,
    delta_secs: Scalar,
    use_bias: bool,
    max_overlap_solve_speed: Scalar,
)
    requires
        fresh_and_smooth(point),
    ensures
        ({
            let solved = normal_step(
                inertia1,
                inertia2,
                normal,
                delta_secs,
                use_bias,
                max_overlap_solve_speed,
            )(point, body1, body2);
            &&& solved.0.tangent_part is None
            &&& warm_start_step(inertia1, inertia2, normal, tangent1, tangent2, Scalar { raw: ONE_RAW })(
                solved.0,
                body1,
                body2,
            ) == solved
        }),
{
    reveal(normal_point_spec);
    reveal(warm_start_point_spec);
    let zero = Scalar { raw: 0 };
    let part = point.normal_part.solve_impulse_spec(
        separation_spec(point, body1, body2, normal),
        relative_velocity_spec(body1, body2, point.anchor1, point.anchor2),
        normal,
        use_bias,
        max_overlap_solve_speed,
        delta_secs,
    );
    assert(part.1 == part.0.impulse);
    lemma_scale_zero(tangent1, zero);
    lemma_scale_zero(tangent2, zero);
    let along = normal.scale_spec(part.0.impulse);
    assert(along.add_spec(tangent1.scale_spec(zero)).add_spec(tangent2.scale_spec(zero)) == along);
    lemma_mul_one(along.x);
    lemma_mul_one(along.y);
    lemma_mul_one(along.z);
}

/// Warm starting the first points of a constraint that a solve has just
/// solved from zero gives the bodies as the normal steps at these points left
/// them.
proof fn lemma_warm_start_replays_prefix(
    begin: SolveState,
    count: int,
    inertia1: SolverBodyInertia,
    inertia2: SolverBodyInertia,
    normal: Vector,
    tangent1: Vector,
    tangent2: Vector,
    delta_secs: Scalar,
    use_bias: bool,
    max_overlap_solve_speed: Scalar,
)
    requires
        0 <= count <= begin.points.len(),
        forall|i: int| 0 <= i < begin.points.len() ==> fresh_and_smooth(#[trigger] begin.points[i]),
    ensures
        ({
            let n_step = normal_step(
                inertia1,
                inertia2,
                normal,
                delta_secs,
                use_bias,
                max_overlap_solve_speed,
            );
            let w_step = warm_start_step(
                inertia1,
                inertia2,
                normal,
                tangent1,
                tangent2,
                Scalar { raw: ONE_RAW },
            );
            let solved = pass_spec(begin, begin.points.len() as int, n_step);
            let replayed = pass_spec(
                SolveState { points: solved.points, body1: begin.body1, body2: begin.body2 },
                count,
                w_step,
            );
            let partly = pass_spec(begin, count, n_step);
            &&& replayed.points == solved.points
            &&& replayed.body1 == partly.body1
            &&& replayed.body2 == partly.body2
        }),
    decreases count,
{
    let n_step = normal_step(inertia1, inertia2, normal, delta_secs, use_bias, max_overlap_solve_speed);
    let w_step = warm_start_step(
        inertia1,
        inertia2,
        normal,
        tangent1,
        tangent2,
        Scalar { raw: ONE_RAW },
    );
    let all = begin.points.len() as int;
    let solved = pass_spec(begin, all, n_step);
    let stored = SolveState { points: solved.points, body1: begin.body1, body2: begin.body2 };
    lemma_pass_frame(begin, all, n_step);
    if count > 0 {
        let k = count - 1;
        lemma_warm_start_replays_prefix(
            begin,
            k,
            inertia1,
            inertia2,
            normal,
            tangent1,
            tangent2,
            delta_secs,
            use_bias,
            max_overlap_solve_speed,
        );
        let partly = pass_spec(begin, k, n_step);
        let replayed = pass_spec(stored, k, w_step);
        lemma_pass_frame(begin, k, n_step);
        lemma_pass_point(begin, all, n_step, k);
        assert(partly.points[k] == begin.points[k]);
        assert(solved.points[k] == n_step(begin.points[k], partly.body1, partly.body2).0);
        lemma_warm_start_replays_step(
            begin.points[k],
            partly.body1,
            partly.body2,
            inertia1,
            inertia2,
            normal,
            tangent1,
            tangent2,
            delta_secs,
            use_bias,
            max_overlap_solve_speed,
        );
        assert(pass_spec(stored, count, w_step).points =~= solved.points);
    }
}

/// Warm starting replays a solve: where a constraint without friction is
/// solved once from zero, warm starting what the solve has accumulated, with
/// the coefficient one and from the bodies as they were before the solve,
/// gives exactly the bodies as the solve left them, whatever the tangent
/// directions.
pub proof fn lemma_warm_start_replays_solve(
    constraint: ContactConstraint,
    body1: SolverBody,
    body2: SolverBody,
    inertia1: SolverBodyInertia,
    inertia2: SolverBodyInertia,
    tangent1: Vector,
    tangent2: Vector,
    delta_secs: Scalar,
    use_bias: bool,
    max_overlap_solve_speed: Scalar,
)
    requires
        forall|i: int|
            0 <= i < constraint.points@.len() ==> fresh_and_smooth(#[trigger] constraint.points@[i]),
    ensures
        ({
            let solved = constraint.solve_spec(
                body1,
                body2,
                inertia1,
                inertia2,
                delta_secs,
                use_bias,
                max_overlap_solve_speed,
            );
            let replayed = pass_spec(
                SolveState { points: solved.points, body1, body2 },
                constraint.points@.len() as int,
                warm_start_step(
                    inertia1,
                    inertia2,
                    constraint.normal,
                    tangent1,
                    tangent2,
                    Scalar { raw: ONE_RAW },
                ),
            );
            replayed == solved
        }),
{
    let begin = constraint.state(body1, body2);
    let count = constraint.points@.len() as int;
    let n_step = normal_step(
        inertia1,
        inertia2,
        constraint.normal,
        delta_secs,
        use_bias,
        max_overlap_solve_speed,
    );
    let middle = pass_spec(begin, count, n_step);
    let tangents = tangent_directions_spec(
        constraint.normal,
        middle.body1.linear_velocity,
        middle.body2.linear_velocity,
    );
    let t_step = tangent_step(
        inertia1,
        inertia2,
        tangents.0,
        tangents.1,
        constraint.tangent_velocity,
        constraint.friction,
    );
    lemma_pass_frame(begin, count, n_step);
    // No point has a friction part, so the friction steps change nothing.
    let same = |point: ContactConstraintPoint| point;
    assert forall|j: int| 0 <= j < count implies #[trigger] t_step(
        middle.points[j],
        middle.body1,
        middle.body2,
    ) == (same(middle.points[j]), middle.body1, middle.body2) by {
        reveal(tangent_point_spec);
        reveal(normal_point_spec);
        lemma_pass_point(begin, count, n_step, j);
    }
    lemma_pass_of_still_steps(middle, count, t_step, same);
    assert(pass_spec(middle, count, t_step).points =~= middle.points);
    lemma_warm_start_replays_prefix(
        begin,
        count,
        inertia1,
        inertia2,
        constraint.normal,
        tangent1,
        tangent2,
        delta_secs,
        use_bias,
        max_overlap_solve_speed,
    );
}

} // verus!
