//! Polymorphisms in the population.
//!
//! If `x` is the allele frequency, the heterozygosity is `2x(1-x)`.  The
//! selection coefficient is either fixed or drawn from a (possibly bounded)
//! skew-normal distribution, and the dominance coefficient is either fixed
//! or a sigmoid `1/(1+exp(-rate*s))` of the realized selection.  The draws
//! and the sigmoid are floating-point work a caller performs; the parameter
//! validation, the bound acceptance test and the bookkeeping of the adaptive
//! mean estimator are verified here.

use vstd::prelude::*;

use crate::error::StatsError;
use crate::numeric::Real;
use crate::numeric::ZERO_BITS;

verus! {

/// Bit pattern of `0.5`, the largest heterozygosity `2x(1-x)` can reach.
pub const HALF_BITS: u64 = 0x3FE0_0000_0000_0000;

/// A closed interval a realized selection coefficient is resampled into.
#[derive(Clone, Copy, Debug, PartialEq, Eq, Structural)]
pub struct SelectionBounds {
    /// The lower end of the interval.
    pub lower: Real,
    /// The upper end of the interval.
    pub upper: Real,
}

/// The selection coefficient of the model: a fixed value, or a skew-normal
/// random coefficient, optionally resampled until it falls inside `bounds`.
#[derive(Clone, Copy, Debug, PartialEq, Eq, Structural)]
pub enum Selection {
    /// A fixed selection coefficient.
    Fixed(Real),
    /// A skew-normally distributed selection coefficient.
    SkewNormal {
        /// The location parameter.
        location: Real,
        /// The scale parameter; strictly positive.
        scale: Real,
        /// The shape parameter.
        shape: Real,
        /// Optional closed interval the realized coefficient is resampled
        /// into.
        bounds: Option<SelectionBounds>,
    },
}

/// The dominance coefficient of the model: a fixed value, or a sigmoid of
/// the realized selection coefficient.
#[derive(Clone, Copy, Debug, PartialEq, Eq, Structural)]
pub enum Dominance {
    /// Fixed value.
    Fixed(Real),
    /// `h(s) = 1/(1+exp(-rate*s))`.
    Sigmoid {
        /// The steepness of the sigmoid; non-negative.
        rate: Real,
    },
}

/// One decision of the adaptive mean estimator: stop, or double the
/// per-accumulator sample budget and go on.
#[derive(Clone, Copy, Debug, PartialEq, Eq, Structural)]
pub enum McDecision {
    /// The reported standard error is within the limit; the estimate stands.
    Converged,
    /// The standard error is still too large: merge `samples` more draws
    /// into every accumulator and measure again.
    Continue {
        /// The doubled per-accumulator sample budget.
        samples: usize,
    },
}

/// One decision of the adaptive mean estimator under a round cap: stop with
/// the estimate, give up, or double the budget and go on.
#[derive(Clone, Copy, Debug, PartialEq, Eq, Structural)]
pub enum McCappedDecision {
    /// The reported standard error is within the limit; the estimate stands.
    Converged,
    /// The round cap was reached with the error still above the limit.
    NotConverged,
    /// Merge `samples` more draws into every accumulator and measure again.
    Continue {
        /// The doubled per-accumulator sample budget.
        samples: usize,
    },
}

/// The random variable `2x(1-x)` for an allele frequency `x` drawn under a
/// (possibly random) selection and dominance.
#[derive(Clone, Copy, Debug, PartialEq, Eq, Structural)]
pub struct Heterozygosity {
    /// The population size `N`.
    pub population: u64,
    /// The mutation rate `U`.
    pub mutation_rate: Real,
    /// The selection coefficient, fixed or random.
    pub selection: Selection,
    /// The dominance coefficient, fixed or frequency-dependent.
    pub dominance: Dominance,
}

impl Heterozygosity {
    /// The selection parameter is acceptable: a fixed coefficient is not
    /// NaN; a skew-normal coefficient has valid skew-normal parameters and,
    /// where both bounds are given, the upper one is not below the lower
    /// (bounds are compared by one `<` test, so a NaN bound is accepted).
    pub open spec fn spec_selection_valid(selection: Selection) -> bool {
        match selection {
            Selection::Fixed(s) => !s.spec_is_nan(),
            Selection::SkewNormal { location, scale, shape, bounds } => {
                &&& !location.spec_is_nan()
                &&& !scale.spec_is_nan()
                &&& !scale.spec_le(Real { bits: ZERO_BITS })
                &&& !shape.spec_is_nan()
                &&& match bounds {
                    Some(interval) => !interval.upper.spec_lt(interval.lower),
                    None => true,
                }
            },
        }
    }

    /// The dominance parameter is acceptable: a fixed coefficient is not
    /// NaN and not negative (values above one are allowed here, unlike in
    /// `GeneticFreq::new`, which rejects them when the frequency is finally
    /// sampled); a sigmoid rate is not NaN and not negative.
    pub open spec fn spec_dominance_valid(dominance: Dominance) -> bool {
        match dominance {
            Dominance::Fixed(h) => !h.spec_is_nan() && !h.spec_lt(Real { bits: ZERO_BITS }),
            Dominance::Sigmoid { rate } => !rate.spec_is_nan() && !rate.spec_lt(
                Real { bits: ZERO_BITS },
            ),
        }
    }

    /// The value is well formed.
    pub open spec fn valid(self) -> bool {
        &&& Heterozygosity::spec_selection_valid(self.selection)
        &&& Heterozygosity::spec_dominance_valid(self.dominance)
    }

    /// Constructs the heterozygosity random variable for the given
    /// population size, mutation rate, selection and dominance.
    ///
    /// Returns an error exactly when the selection or the dominance
    /// parameter is unacceptable.
    pub fn new(
        population: u64,
        mutation_rate: Real,
        selection: Selection,
        dominance: Dominance,
    ) -> (r: Result<Heterozygosity, StatsError>)
        ensures
            r == (if Heterozygosity::spec_selection_valid(selection)
                && Heterozygosity::spec_dominance_valid(dominance) {
                Ok::<Heterozygosity, StatsError>(
                    Heterozygosity { population, mutation_rate, selection, dominance },
                )
            } else {
                Err::<Heterozygosity, StatsError>(StatsError::BadParams)
            }),
            r matches Ok(v) ==> v.valid(),
    {
        let zero = Real { bits: ZERO_BITS };
        match selection {
            Selection::Fixed(s) => {
                if s.is_nan() {
                    return Err(StatsError::BadParams);
                }
            },
            Selection::SkewNormal { location, scale, shape, bounds } => {
                if location.is_nan() || scale.is_nan() || scale.le(zero) || shape.is_nan() {
                    return Err(StatsError::BadParams);
                }
                if let Some(interval) = bounds {
                    if interval.upper.lt(interval.lower) {
                        return Err(StatsError::BadParams);
                    }
                }
            },
        }
        match dominance {
            Dominance::Fixed(h) => {
                if h.is_nan() || h.lt(zero) {
                    return Err(StatsError::BadParams);
                }
            },
            Dominance::Sigmoid { rate } => {
                if rate.lt(zero) || rate.is_nan() {
                    return Err(StatsError::BadParams);
                }
            },
        }
        Ok(Heterozygosity { population, mutation_rate, selection, dominance })
    }

    /// The minimum of the domain: a heterozygosity `2x(1-x)` cannot fall
    /// below zero.
    pub fn min(&self) -> (r: Real)
        ensures
            r.bits == ZERO_BITS,
    {
        Real { bits: ZERO_BITS }
    }

    /// The maximum of the domain: a heterozygosity `2x(1-x)` cannot exceed
    /// one half.
    pub fn max(&self) -> (r: Real)
        ensures
            r.bits == HALF_BITS,
    {
        Real { bits: HALF_BITS }
    }

    /// Whether a realized selection coefficient is accepted by the bounds of
    /// a skew-normal selection: a proposal is rejected exactly when it lies
    /// below the lower or above the upper bound.  A fixed or unbounded
    /// selection accepts every proposal.
    pub fn selection_in_bounds(&self, proposal: Real) -> (r: bool)
        ensures
            r == (match self.selection {
                Selection::SkewNormal { bounds: Some(interval), .. } => !(proposal.spec_lt(
                    interval.lower,
                ) || proposal.spec_gt(interval.upper)),
                _ => true,
            }),
    {
        match self.selection {
            Selection::SkewNormal { bounds: Some(interval), .. } => !(proposal.lt(interval.lower)
                || proposal.gt(interval.upper)),
            _ => true,
        }
    }

    /// The decision [`Heterozygosity::mc_step`] makes.
    pub open spec fn spec_mc_step(samples: usize, error: Real, error_limit: Real) -> McDecision {
        if error.spec_gt(error_limit) {
            McDecision::Continue { samples: (samples * 2) as usize }
        } else {
            McDecision::Converged
        }
    }

    /// One decision of the adaptive estimator `mc_approx_mean`: as long as
    /// the standard error across the replicate means exceeds the limit, the
    /// per-accumulator sample budget doubles; otherwise the loop stops.
    pub fn mc_step(samples: usize, error: Real, error_limit: Real) -> (r: McDecision)
        requires
            samples <= usize::MAX / 2,
        ensures
            r == Heterozygosity::spec_mc_step(samples, error, error_limit),
    {
        if error.gt(error_limit) {
            McDecision::Continue { samples: samples * 2 }
        } else {
            McDecision::Converged
        }
    }
    /// The decision [`Heterozygosity::mc_step_capped`] makes.
    pub open spec fn spec_mc_step_capped(
        samples: usize,
        rounds_done: u64,
        max_rounds: Option<u64>,
        error: Real,
        error_limit: Real,
    ) -> McCappedDecision {
        if !error.spec_gt(error_limit) {
            McCappedDecision::Converged
        } else if match max_rounds {
            Some(cap) => rounds_done >= cap,
            None => false,
        } {
            McCappedDecision::NotConverged
        } else {
            McCappedDecision::Continue { samples: (samples * 2) as usize }
        }
    }

    /// One decision of the adaptive estimator under an optional round cap:
    /// as [`Heterozygosity::mc_step`], but once `rounds_done` reaches a cap
    /// the loop gives up with `NotConverged` instead of doubling forever —
    /// the guard a production caller puts on the otherwise unbounded
    /// doubling.
    pub fn mc_step_capped(
        samples: usize,
        rounds_done: u64,
        max_rounds: Option<u64>,
        error: Real,
        error_limit: Real,
    ) -> (r: McCappedDecision)
        requires
            samples <= usize::MAX / 2,
        ensures
            r == Heterozygosity::spec_mc_step_capped(
                samples,
                rounds_done,
                max_rounds,
                error,
                error_limit,
            ),
    {
        if !error.gt(error_limit) {
            McCappedDecision::Converged
        } else if match max_rounds {
            Some(cap) => rounds_done >= cap,
            None => false,
        } {
            McCappedDecision::NotConverged
        } else {
            McCappedDecision::Continue { samples: samples * 2 }
        }
    }
}

/// Under a round cap the estimator cannot loop forever: once the cap is
/// reached, a round with the error still above the limit gives up instead
/// of doubling.
pub proof fn lemma_mc_capped_halts(
    samples: usize,
    rounds_done: u64,
    cap: u64,
    error: Real,
    error_limit: Real,
)
    requires
        rounds_done >= cap,
    ensures
        !(Heterozygosity::spec_mc_step_capped(samples, rounds_done, Some(cap), error, error_limit)
            is Continue),
{
}

/// The adaptive mean estimator stops only with its reported standard error
/// within the limit: whenever the loop's decision is `Converged` and the
/// error estimate is an actual number, that estimate is at most the limit.
pub proof fn lemma_mc_converged_error_within_limit(samples: usize, error: Real, error_limit: Real)
    requires
        !error.spec_is_nan(),
        !error_limit.spec_is_nan(),
        Heterozygosity::spec_mc_step(samples, error, error_limit) is Converged,
    ensures
        error.spec_le(error_limit),
{
    crate::numeric::lemma_le_total(error, error_limit);
}

} // verus!
