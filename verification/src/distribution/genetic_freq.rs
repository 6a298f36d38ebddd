//! The stationary distribution of the allele frequency under
//! mutation-selection-drift balance.
//!
//! A sample is produced by rejection: a proposal `x` is drawn from
//! `Beta(4*N*U, 4*N*U)` and accepted with probability
//! `exp(2*N*s*(x^2 + 2*h*x*(1-x) - c))`, where the offset `c` is `1` for
//! non-negative selection and `0` for negative selection — the offset keeps
//! the exponent non-positive on either branch.  The proposal and the
//! acceptance test are floating-point work a caller performs; the parameter
//! validation and the branch decision are verified here.

use vstd::prelude::*;

use crate::error::StatsError;
use crate::numeric::INFINITY_BITS;
use crate::numeric::NEG_INFINITY_BITS;
use crate::numeric::ONE_BITS;
use crate::numeric::Real;
use crate::numeric::ZERO_BITS;

verus! {

/// Distribution over allele frequency.
#[derive(Clone, Copy, Debug, PartialEq, Eq, Structural)]
pub struct GeneticFreq {
    /// The population size `N`.
    pub population: u64,
    /// The mutation rate `U`.
    pub mutation_rate: Real,
    /// The selection coefficient `s`.
    pub selection: Real,
    /// The dominance coefficient `h`, within `[0, 1]`.
    pub dominance: Real,
}

impl GeneticFreq {
    /// The dominance coefficient lies in `[0, 1]` and is not NaN.
    pub open spec fn spec_dominance_valid(dominance: Real) -> bool {
        &&& !dominance.spec_is_nan()
        &&& !dominance.spec_gt(Real { bits: ONE_BITS })
        &&& !dominance.spec_lt(Real { bits: ZERO_BITS })
    }

    /// The value is well formed.
    pub open spec fn valid(self) -> bool {
        GeneticFreq::spec_dominance_valid(self.dominance)
    }

    /// Constructs the allele-frequency distribution for the given population
    /// size, mutation rate, selection and dominance.
    ///
    /// Returns an error exactly when `dominance` is NaN or outside `[0, 1]`;
    /// the other parameters are stored unchecked.
    pub fn new(population: u64, mutation_rate: Real, selection: Real, dominance: Real) -> (r:
        Result<GeneticFreq, StatsError>)
        ensures
            r == (if GeneticFreq::spec_dominance_valid(dominance) {
                Ok::<GeneticFreq, StatsError>(
                    GeneticFreq { population, mutation_rate, selection, dominance },
                )
            } else {
                Err::<GeneticFreq, StatsError>(StatsError::BadParams)
            }),
            r matches Ok(v) ==> v.valid(),
    {
        let zero = Real { bits: ZERO_BITS };
        let one = Real { bits: ONE_BITS };
        if dominance.is_nan() || dominance.gt(one) || dominance.lt(zero) {
            Err(StatsError::BadParams)
        } else {
            Ok(GeneticFreq { population, mutation_rate, selection, dominance })
        }
    }

    /// The minimum of the formal domain representable by a double: negative
    /// infinity (informational; samples in fact lie in `(0, 1)`).
    pub fn min(&self) -> (r: Real)
        ensures
            r.bits == NEG_INFINITY_BITS,
    {
        Real { bits: NEG_INFINITY_BITS }
    }

    /// The maximum of the formal domain representable by a double: positive
    /// infinity (informational; samples in fact lie in `(0, 1)`).
    pub fn max(&self) -> (r: Real)
        ensures
            r.bits == INFINITY_BITS,
    {
        Real { bits: INFINITY_BITS }
    }

    /// Decides which acceptance exponent a rejection sampler for this
    /// distribution uses: the offset `c` in
    /// `exp(2*N*s*(x^2 + 2*h*x*(1-x) - c))` is `1` exactly when the
    /// selection coefficient is not negative (a NaN selection also lands on
    /// that branch, as a comparison with zero fails).
    pub fn acceptance_offset_is_one(&self) -> (r: bool)
        ensures
            r == !self.selection.spec_lt(Real { bits: ZERO_BITS }),
    {
        let zero = Real { bits: ZERO_BITS };
        !self.selection.lt(zero)
    }
}

} // verus!
