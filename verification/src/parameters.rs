//! Parameters of the model.

use vstd::prelude::*;

use crate::distribution::SkewNormal;
use crate::error::StatsError;
use crate::numeric::Real;

verus! {

/// The four free parameters of the random-selection model, together with
/// the skew-normal selection distribution they determine.
///
/// `skew_normal` is derived from `(mu, sigma, alpha)` at construction and
/// cached; `beta` only enters the dominance function `h`.
#[derive(Clone, Copy, Debug, PartialEq, Eq, Structural)]
pub struct Parameters {
    /// The location of the selection distribution.
    pub mu: Real,
    /// The scale of the selection distribution; strictly positive.
    pub sigma: Real,
    /// The shape of the selection distribution.
    pub alpha: Real,
    /// The rate of the dominance function `h(s) = exp(s*beta)/2` for
    /// negative selection.
    pub beta: Real,
    /// The selection distribution `SkewNormal(mu, sigma, alpha)`.
    pub skew_normal: SkewNormal,
}

impl Parameters {
    /// Builds the parameter set, deriving the skew-normal selection
    /// distribution from `(mu, sigma, alpha)`.
    ///
    /// Returns an error exactly when those three are unacceptable to
    /// `SkewNormal::new`: `mu` or `sigma` NaN, or `sigma <= 0`.  `beta` is
    /// stored unchecked.
    pub fn new(mu: Real, sigma: Real, alpha: Real, beta: Real) -> (r: Result<
        Parameters,
        StatsError,
    >)
        ensures
            r == (if SkewNormal::spec_params_valid(mu, sigma, alpha) {
                Ok::<Parameters, StatsError>(
                    Parameters {
                        mu,
                        sigma,
                        alpha,
                        beta,
                        skew_normal: SkewNormal { location: mu, scale: sigma, shape: alpha },
                    },
                )
            } else {
                Err::<Parameters, StatsError>(StatsError::BadParams)
            }),
            r matches Ok(v) ==> v.skew_normal.valid(),
    {
        let skew_normal = SkewNormal::new(mu, sigma, alpha)?;
        Ok(Parameters { mu, sigma, alpha, beta, skew_normal })
    }
}

} // verus!
