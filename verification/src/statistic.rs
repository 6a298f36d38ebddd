//! Statistics that can be contrasted with real data.
//!
//! `Substitutions` is the expected (or sampled) fixation count under a
//! skew-normally distributed selection coefficient.  Its mean is a numeric
//! integration of the fixation rate against the selection density, and a
//! sample normalizes a Gaussian absorption approximation — floating-point
//! work a caller performs.  The species constants and the branch decisions
//! of those formulas are carried and verified here.

use vstd::prelude::*;

use crate::numeric::Real;
use crate::numeric::ZERO_BITS;
use crate::parameters::Parameters;

verus! {

/// Bit pattern of `1e-6`: below this selection strength the fixation
/// formula for positive selection switches to its series expansion, to
/// avoid cancellation between two vanishing exponentials.
pub const SERIES_THRESHOLD_BITS: u64 = 0x3EB0_C6F7_A0B5_ED8D;

/// Expected or sampled fixation count under random selection.
#[derive(Clone, Copy, Debug, PartialEq, Eq, Structural)]
pub struct Substitutions {
    /// The population size `N`.
    pub n: u64,
    /// The per-generation mutation rate `u` of the species.
    pub u: Real,
    /// The time (generation count) constant `t` of the species.
    pub t: Real,
    /// The parameters of the selection model.
    pub param: Parameters,
}

impl Substitutions {
    /// Builds the statistic for a population of `n` with the species
    /// constants `u` and `t`.  Nothing is validated: `n` is not checked
    /// against the parameter fields, matching the permissive construction
    /// of the model.
    pub fn new(n: u64, u: Real, t: Real, param: Parameters) -> (r: Substitutions)
        ensures
            r == (Substitutions { n, u, t, param }),
    {
        Substitutions { n, u, t, param }
    }

    /// Decides which branch the dominance function `h` takes: `h(s)` is the
    /// constant `1/2` exactly when `s >= 0` (so a NaN selection lands on
    /// the exponential branch `h(s) = exp(s*beta)/2`).
    pub fn h_is_half(&self, s: Real) -> (r: bool)
        ensures
            r == s.spec_ge(Real { bits: ZERO_BITS }),
    {
        let zero = Real { bits: ZERO_BITS };
        s.ge(zero)
    }

    /// Decides which branch the positive-selection fixation formula takes:
    /// below `1e-6` the closed form `(1-exp(-s))/(1-exp(-2Ns))` is replaced
    /// by its series expansion in `s`.
    pub fn positive_selection_uses_series(&self, s: Real) -> (r: bool)
        ensures
            r == s.spec_lt(Real { bits: SERIES_THRESHOLD_BITS }),
    {
        let threshold = Real { bits: SERIES_THRESHOLD_BITS };
        s.lt(threshold)
    }

    /// Decides whether the sampling formula's denominator `aux = 1 - 2*h(s)`
    /// vanished exactly, in which case the closed-form ratio replaces the
    /// Gaussian normalization.
    pub fn aux_vanished(&self, aux: Real) -> (r: bool)
        ensures
            r == aux.spec_eq_value(Real { bits: ZERO_BITS }),
    {
        let zero = Real { bits: ZERO_BITS };
        aux.eq_value(zero)
    }
}

} // verus!
