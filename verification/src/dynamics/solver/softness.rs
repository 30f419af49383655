//! Soft constraints: how stiffly a constraint corrects a position error.

use vstd::prelude::*;
use crate::math::scalar::Scalar;
use crate::math::scalar::ONE_RAW;

verus! {

/// The raw value of two times pi, rounded toward zero.
pub const TAU_RAW: i64 = 26_986_075_409;

/// How a soft constraint is tuned: as a damped spring.
#[derive(Clone, Copy, Debug, PartialEq, Eq, Structural)]
pub struct SoftnessParameters {
    /// The damping ratio; one is critical damping.
    pub damping_ratio: Scalar,
    /// The angular frequency: two times pi times the frequency in hertz.
    pub angular_frequency: Scalar,
}

/// The coefficients with which a soft constraint is solved for one time step.
#[derive(Clone, Copy, Debug, PartialEq, Eq, Structural)]
pub struct SoftnessCoefficients {
    /// The velocity that is asked for per unit of position error.
    pub bias: Scalar,
    /// The share of the effective mass that the constraint uses.
    pub mass_scale: Scalar,
    /// The share of the accumulated impulse that the constraint takes back.
    pub impulse_scale: Scalar,
}

impl SoftnessCoefficients {
    /// The coefficients of a rigid constraint: no bias, the whole mass, no
    /// impulse taken back.
    pub open spec fn rigid_spec() -> SoftnessCoefficients {
        SoftnessCoefficients {
            bias: Scalar { raw: 0 },
            mass_scale: Scalar { raw: ONE_RAW },
            impulse_scale: Scalar { raw: 0 },
        }
    }

    /// The coefficients of a rigid constraint.
    pub fn rigid() -> (r: SoftnessCoefficients)
        ensures
            r == SoftnessCoefficients::rigid_spec(),
    {
        SoftnessCoefficients {
            bias: Scalar::zero(),
            mass_scale: Scalar::one(),
            impulse_scale: Scalar::zero(),
        }
    }
}

impl SoftnessParameters {
    /// The parameters for a damping ratio and a frequency in hertz.
    pub open spec fn new_spec(damping_ratio: Scalar, frequency_hz: Scalar) -> SoftnessParameters {
        SoftnessParameters {
            damping_ratio,
            angular_frequency: (Scalar { raw: TAU_RAW }).mul_spec(frequency_hz),
        }
    }

    /// The coefficients for a time step of `delta_secs`.
    ///
    /// With `w` the angular frequency, `z` the damping ratio and `h` the time
    /// step: `a1 = 2 z + h w`, `a2 = h w a1`, `a3 = 1 / (1 + a2)`; the bias is
    /// `w / a1`, the mass scale `a2 a3` and the impulse scale `a3`. A frequency
    /// of zero gives the rigid coefficients.
    pub open spec fn compute_coefficients_spec(self, delta_secs: Scalar) -> SoftnessCoefficients {
        if self.angular_frequency@ == 0 {
            SoftnessCoefficients::rigid_spec()
        } else {
            let hw = self.angular_frequency.mul_spec(delta_secs);
            let a1 = Scalar::of(2 * ONE_RAW).mul_spec(self.damping_ratio).add_spec(hw);
            let a2 = hw.mul_spec(a1);
            let a3 = (Scalar { raw: ONE_RAW }).div_spec((Scalar { raw: ONE_RAW }).add_spec(a2));
            SoftnessCoefficients {
                bias: self.angular_frequency.div_spec(a1),
                mass_scale: a2.mul_spec(a3),
                impulse_scale: a3,
            }
        }
    }

    /// The parameters for a damping ratio and a frequency in hertz.
    pub fn new(damping_ratio: Scalar, frequency_hz: Scalar) -> (r: SoftnessParameters)
        ensures
            r == SoftnessParameters::new_spec(damping_ratio, frequency_hz),
    {
        SoftnessParameters {
            damping_ratio,
            angular_frequency: Scalar::from_raw(TAU_RAW).mul(frequency_hz),
        }
    }

    /// The coefficients for a time step of `delta_secs`.
    pub fn compute_coefficients(&self, delta_secs: Scalar) -> (r: SoftnessCoefficients)
        ensures
            r == self.compute_coefficients_spec(delta_secs),
    {
        if self.angular_frequency.raw == 0 {
            SoftnessCoefficients::rigid()
        } else {
            let hw = self.angular_frequency.mul(delta_secs);
            let a1 = Scalar::from_int(2).mul(self.damping_ratio).add(hw);
            let a2 = hw.mul(a1);
            let a3 = Scalar::one().div(Scalar::one().add(a2));
            SoftnessCoefficients {
                bias: self.angular_frequency.div(a1),
                mass_scale: a2.mul(a3),
                impulse_scale: a3,
            }
        }
    }
}

} // verus!
