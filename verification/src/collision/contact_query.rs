//! What the contact queries of every dimension share.

use vstd::prelude::*;
use crate::math::scalar::Scalar;

verus! {

/// The error of a query on a pair of shapes for which no algorithm exists.
#[derive(Clone, Copy, Debug, PartialEq, Eq, Structural)]
pub struct UnsupportedShape;

/// The way in which a time-of-impact computation ended.
#[derive(Clone, Copy, Debug, PartialEq, Eq, Structural)]
pub enum TimeOfImpactStatus {
    /// The iterations ran out before the sweep converged.
    OutOfIterations,
    /// The sweep converged to the exact impact.
    Converged,
    /// The sweep failed, most likely for numerical reasons.
    Failed,
    /// The sweep ended because the shapes already overlap.
    PenetratingOrWithinTargetDist,
}

/// How a shape cast is to be run.
#[derive(Clone, Copy, Debug, PartialEq, Eq, Structural)]
pub struct ShapeCastOptions {
    /// Impacts after this time are ignored.
    pub max_time_of_impact: Scalar,
    /// The distance at which the shapes count as touching.
    pub target_distance: Scalar,
    /// Whether the cast stops at a penetration at time zero, even where the
    /// shapes are moving apart.
    pub stop_at_penetration: bool,
    /// Whether points and normals are computed for an impact at time zero.
    pub compute_impact_geometry_on_penetration: bool,
}

/// The options of the shape cast behind `time_of_impact`.
pub open spec fn time_of_impact_options_spec(max_time_of_impact: Scalar) -> ShapeCastOptions {
    ShapeCastOptions {
        max_time_of_impact,
        target_distance: Scalar { raw: 0 },
        stop_at_penetration: true,
        compute_impact_geometry_on_penetration: true,
    }
}

/// The options with which the shape cast behind `time_of_impact` is to be run:
/// it ignores impacts after `max_time_of_impact` and stops at the first
/// penetration.
pub fn time_of_impact_options(max_time_of_impact: Scalar) -> (r: ShapeCastOptions)
    ensures
        r == time_of_impact_options_spec(max_time_of_impact),
{
    ShapeCastOptions {
        max_time_of_impact,
        target_distance: Scalar::zero(),
        stop_at_penetration: true,
        compute_impact_geometry_on_penetration: true,
    }
}

} // verus!
