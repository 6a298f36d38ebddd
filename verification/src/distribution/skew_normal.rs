//! The skew-normal distribution of the selection coefficient.
//!
//! A variate is generated from two independent standard-normal draws,
//! following the representation of Ghorbanzadeh et al.: with `u` the greater
//! and `v` the smaller draw, the sample is an affine image of `u` alone for
//! shape `0`, of `v` for shape `-1`, of `u` for shape `1`, and of the blend
//! `((1+shape)u + (1-shape)v) / (sqrt(1+shape^2)*sqrt(2))` otherwise.  The
//! affine image and the blend are floating-point work a caller performs; the
//! shape classification and the ordering of the draws are verified here.

use vstd::prelude::*;

use crate::error::StatsError;
use crate::numeric::INFINITY_BITS;
use crate::numeric::NEG_INFINITY_BITS;
use crate::numeric::ONE_BITS;
use crate::numeric::Real;
use crate::numeric::ZERO_BITS;

verus! {

/// Bit pattern of `-1.0`.
pub const NEG_ONE_BITS: u64 = 0xBFF0_0000_0000_0000;

/// Which combination of the two standard-normal draws a skew-normal sample
/// uses, decided by the shape parameter alone.
#[derive(Clone, Copy, Debug, PartialEq, Eq, Structural)]
pub enum SkewSamplePlan {
    /// Shape `0`: the first draw alone — the sample is exactly
    /// `Normal(location, scale)`.
    Single,
    /// Shape `-1`: the smaller of the two draws.
    Lower,
    /// Shape `1`: the greater of the two draws.
    Upper,
    /// Any other shape: the normalized blend of the two ordered draws.
    Blend,
}

/// The skew-normal distribution with parameters `location`, `scale` and
/// `shape`.
#[derive(Clone, Copy, Debug, PartialEq, Eq, Structural)]
pub struct SkewNormal {
    /// The location parameter.
    pub location: Real,
    /// The scale parameter; strictly positive.
    pub scale: Real,
    /// The shape parameter; `0` recovers the normal distribution.
    pub shape: Real,
}

impl SkewNormal {
    /// The parameters are acceptable: `location` and `scale` are not NaN and
    /// `scale` is strictly positive.  The shape is unconstrained.
    pub open spec fn spec_params_valid(location: Real, scale: Real, shape: Real) -> bool {
        &&& !location.spec_is_nan()
        &&& !scale.spec_is_nan()
        &&& !scale.spec_le(Real { bits: ZERO_BITS })
    }

    /// The value is well formed.
    pub open spec fn valid(self) -> bool {
        SkewNormal::spec_params_valid(self.location, self.scale, self.shape)
    }

    /// Constructs a new skew normal distribution with a location of
    /// `location`, a scale of `scale` and a shape of `shape`.
    ///
    /// Returns an error exactly when `location` or `scale` is NaN or
    /// `scale <= 0`; every other parameter triple succeeds.
    pub fn new(location: Real, scale: Real, shape: Real) -> (r: Result<SkewNormal, StatsError>)
        ensures
            r == (if SkewNormal::spec_params_valid(location, scale, shape) {
                Ok::<SkewNormal, StatsError>(SkewNormal { location, scale, shape })
            } else {
                Err::<SkewNormal, StatsError>(StatsError::BadParams)
            }),
            r matches Ok(v) ==> v.valid(),
    {
        let zero = Real { bits: ZERO_BITS };
        if location.is_nan() || scale.is_nan() || scale.le(zero) {
            Err(StatsError::BadParams)
        } else {
            Ok(SkewNormal { location, scale, shape })
        }
    }

    /// The plan [`SkewNormal::sample_plan`] decides on.
    pub open spec fn spec_sample_plan(self) -> SkewSamplePlan {
        if self.shape.spec_eq_value(Real { bits: ZERO_BITS }) {
            SkewSamplePlan::Single
        } else if self.shape.spec_eq_value(Real { bits: NEG_ONE_BITS }) {
            SkewSamplePlan::Lower
        } else if self.shape.spec_eq_value(Real { bits: ONE_BITS }) {
            SkewSamplePlan::Upper
        } else {
            SkewSamplePlan::Blend
        }
    }

    /// The minimum of the distribution's domain representable by a double:
    /// negative infinity.
    pub fn min(&self) -> (r: Real)
        ensures
            r.bits == NEG_INFINITY_BITS,
    {
        Real { bits: NEG_INFINITY_BITS }
    }

    /// The maximum of the distribution's domain representable by a double:
    /// positive infinity.
    pub fn max(&self) -> (r: Real)
        ensures
            r.bits == INFINITY_BITS,
    {
        Real { bits: INFINITY_BITS }
    }

    /// Decides which combination of the two standard-normal draws a sample
    /// of this distribution uses.
    ///
    /// The plan is `Single` exactly when the shape equals `0` (either zero
    /// bit pattern): a sampler following it draws from the plain normal
    /// distribution with this location and scale, untouched by the second
    /// draw.
    pub fn sample_plan(&self) -> (r: SkewSamplePlan)
        ensures
            r == self.spec_sample_plan(),
    {
        let zero = Real { bits: ZERO_BITS };
        let one = Real { bits: ONE_BITS };
        let neg_one = Real { bits: NEG_ONE_BITS };
        if self.shape.eq_value(zero) {
            SkewSamplePlan::Single
        } else if self.shape.eq_value(neg_one) {
            SkewSamplePlan::Lower
        } else if self.shape.eq_value(one) {
            SkewSamplePlan::Upper
        } else {
            SkewSamplePlan::Blend
        }
    }
}

/// A zero shape always selects the single-draw plan: sampling then reduces
/// to the normal distribution `Normal(location, scale)` itself.
pub proof fn lemma_zero_shape_samples_normal(sn: SkewNormal)
    requires
        sn.shape.spec_eq_value(Real { bits: ZERO_BITS }),
    ensures
        sn.spec_sample_plan() == SkewSamplePlan::Single,
{
}

} // verus!
