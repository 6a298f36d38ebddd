//! Root finding with exponential search for space together with binary
//! search for the root.
//!
//! From an initial point the algorithm expands an interval `[lower, upper]`
//! in both directions at exponential rate, clamped to an overall
//! `[minimum, maximum]`; once the function changes sign between the ends,
//! bisection narrows the interval to the tolerance.  The function values and
//! every piece of interval arithmetic are floating-point work the caller
//! performs; which end moves where, when a bracket is declared, and when the
//! search gives up are decided and verified here.  The caller reports each
//! comparison as the sign of a product of two function values; the product
//! is taken in floating point, so one that underflows to zero counts as "no
//! sign change", exactly as the comparison `f(a)*f(b) < 0` has it.

use vstd::prelude::*;

use crate::numeric::Real;
use crate::numeric::INFINITY_BITS;
use crate::numeric::NEG_INFINITY_BITS;
use crate::numeric::ZERO_BITS;

verus! {

/// Bit pattern of `1e-10`, the default tolerance.
pub const DEFAULT_TOL_BITS: u64 = 0x3DDB_7CDF_D9D7_BDBB;

/// Bit pattern of `1e-6`, the default first expansion step.
pub const DEFAULT_STEP_BITS: u64 = 0x3EB0_C6F7_A0B5_ED8D;

/// The default cap on exponential-search rounds.
pub const DEFAULT_MAX_EXP_ITERATIONS: u64 = 1000;

/// Failure of the root search.
#[derive(Clone, Copy, Debug, PartialEq, Eq, Structural)]
pub enum SearchError {
    /// The exponential search passed its round cap without a sign change.
    SearchExhausted,
}

impl SearchError {
    /// A short description of the failure.
    pub fn message(self) -> &'static str {
        match self {
            SearchError::SearchExhausted => "early stopped exponential search: iteration cap reached",
        }
    }
}

/// What one round of the exponential search concluded.
#[derive(Clone, Copy, Debug, PartialEq, Eq, Structural)]
pub enum ExpOutcome {
    /// A sign change was found; `[lower, upper]` now brackets a root and
    /// bisection may start.
    Bracketed,
    /// No sign change yet; the interval widened and the step doubled.
    Expanded,
    /// No sign change within the round cap: the search failed.
    Exhausted,
}

/// Root finding state: exponential search for space together with binary
/// search for the root.
#[derive(Clone, Copy, Debug, PartialEq, Eq, Structural)]
pub struct ExpBinary {
    /// Tolerance: the size of the interval in which the root is to be
    /// found.
    pub tol: Real,
    /// Overall maximum bound of the search space.
    pub maximum: Real,
    /// Overall minimum bound of the search space.
    pub minimum: Real,
    /// Maximum number of rounds of the exponential search.
    pub max_exp_iterations: u64,
    /// Current expansion step; doubles every round.
    pub step: Real,
    /// Rounds of the exponential search taken so far.
    pub counter_exp_iteration: u64,
    /// Upper end of the current interval.
    pub upper: Real,
    /// Lower end of the current interval.
    pub lower: Real,
}

impl ExpBinary {
    /// Starts a search at `init` with the default tolerance `1e-10`, step
    /// `1e-6`, unbounded search space and a cap of 1000 expansion rounds.
    pub fn new(init: Real) -> (r: ExpBinary)
        ensures
            r == (ExpBinary {
                tol: Real { bits: DEFAULT_TOL_BITS },
                maximum: Real { bits: INFINITY_BITS },
                minimum: Real { bits: NEG_INFINITY_BITS },
                max_exp_iterations: DEFAULT_MAX_EXP_ITERATIONS,
                step: Real { bits: DEFAULT_STEP_BITS },
                counter_exp_iteration: 0,
                upper: init,
                lower: init,
            }),
    {
        ExpBinary {
            tol: Real { bits: DEFAULT_TOL_BITS },
            maximum: Real { bits: INFINITY_BITS },
            minimum: Real { bits: NEG_INFINITY_BITS },
            max_exp_iterations: DEFAULT_MAX_EXP_ITERATIONS,
            step: Real { bits: DEFAULT_STEP_BITS },
            counter_exp_iteration: 0,
            upper: init,
            lower: init,
        }
    }

    /// Replaces the tolerance.
    pub fn set_tol(&mut self, tol: Real)
        ensures
            *final(self) == (ExpBinary { tol, ..*old(self) }),
    {
        self.tol = tol;
    }

    /// Replaces the overall maximum bound.
    pub fn set_maximum(&mut self, maximum: Real)
        ensures
            *final(self) == (ExpBinary { maximum, ..*old(self) }),
    {
        self.maximum = maximum;
    }

    /// Replaces the overall minimum bound.
    pub fn set_minimum(&mut self, minimum: Real)
        ensures
            *final(self) == (ExpBinary { minimum, ..*old(self) }),
    {
        self.minimum = minimum;
    }

    /// Replaces the cap on exponential-search rounds.
    pub fn set_max_exp_iterations(&mut self, max_exp_iterations: u64)
        ensures
            *final(self) == (ExpBinary { max_exp_iterations, ..*old(self) }),
    {
        self.max_exp_iterations = max_exp_iterations;
    }

    /// Replaces the expansion step.
    pub fn set_step(&mut self, step: Real)
        ensures
            *final(self) == (ExpBinary { step, ..*old(self) }),
    {
        self.step = step;
    }

    /// The first widening before the round loop: both ends move one step
    /// out (the caller clamps them to the overall bounds) and the step
    /// doubles.
    pub fn prime(&mut self, widened_upper: Real, widened_lower: Real, doubled_step: Real)
        ensures
            *final(self) == (ExpBinary {
                upper: widened_upper,
                lower: widened_lower,
                step: doubled_step,
                ..*old(self)
            }),
    {
        self.upper = widened_upper;
        self.lower = widened_lower;
        self.step = doubled_step;
    }

    /// What a round of the exponential search concludes from the three
    /// reported sign products: the current interval brackets, one of the
    /// widened intervals brackets, or — with the round counted — the search
    /// is exhausted once the counter passes the cap.
    pub open spec fn spec_round_outcome(
        self,
        prod_low_up: Real,
        prod_up_next: Real,
        prod_low_next: Real,
    ) -> ExpOutcome {
        let zero = Real { bits: ZERO_BITS };
        if prod_low_up.spec_lt(zero) || prod_up_next.spec_lt(zero) || prod_low_next.spec_lt(zero) {
            ExpOutcome::Bracketed
        } else if self.counter_exp_iteration + 1 > self.max_exp_iterations {
            ExpOutcome::Exhausted
        } else {
            ExpOutcome::Expanded
        }
    }

    /// One round of the exponential search.
    ///
    /// The caller reports `prod_low_up = f(lower)*f(upper)`, the widened
    /// candidates `next_upper = min(upper+step, maximum)` and
    /// `next_lower = max(lower-step, minimum)` with their sign products
    /// `prod_up_next = f(upper)*f(next_upper)` and
    /// `prod_low_next = f(lower)*f(next_lower)`, and `doubled_step`.
    /// The round then decides, in this order: the current interval already
    /// brackets (state unchanged); the upper widening brackets (the
    /// interval becomes `[upper, next_upper]`); the lower widening brackets
    /// (the interval becomes `[next_lower, lower]`); otherwise both ends
    /// widen, the step doubles and the round is counted — exhausting the
    /// search when the counter passes the cap.
    pub fn exp_round(
        &mut self,
        prod_low_up: Real,
        next_upper: Real,
        prod_up_next: Real,
        next_lower: Real,
        prod_low_next: Real,
        doubled_step: Real,
    ) -> (r: ExpOutcome)
        requires
            old(self).counter_exp_iteration < u64::MAX,
        ensures
            r == old(self).spec_round_outcome(prod_low_up, prod_up_next, prod_low_next),
            ({
                let zero = Real { bits: ZERO_BITS };
                &&& prod_low_up.spec_lt(zero) ==> *final(self) == *old(self)
                &&& !prod_low_up.spec_lt(zero) && prod_up_next.spec_lt(zero) ==> *final(self) == (ExpBinary {
                    lower: old(self).upper,
                    upper: next_upper,
                    ..*old(self)
                })
                &&& !prod_low_up.spec_lt(zero) && !prod_up_next.spec_lt(zero)
                    && prod_low_next.spec_lt(zero) ==> *final(self) == (ExpBinary {
                    upper: old(self).lower,
                    lower: next_lower,
                    ..*old(self)
                })
                &&& !prod_low_up.spec_lt(zero) && !prod_up_next.spec_lt(zero)
                    && !prod_low_next.spec_lt(zero) ==> *final(self) == (ExpBinary {
                    upper: next_upper,
                    lower: next_lower,
                    step: doubled_step,
                    counter_exp_iteration: (old(self).counter_exp_iteration + 1) as u64,
                    ..*old(self)
                })
            }),
    {
        let zero = Real { bits: ZERO_BITS };
        if prod_low_up.lt(zero) {
            return ExpOutcome::Bracketed;
        }
        if prod_up_next.lt(zero) {
            self.lower = self.upper;
            self.upper = next_upper;
            return ExpOutcome::Bracketed;
        }
        if prod_low_next.lt(zero) {
            self.upper = self.lower;
            self.lower = next_lower;
            return ExpOutcome::Bracketed;
        }
        self.upper = next_upper;
        self.lower = next_lower;
        self.step = doubled_step;
        self.counter_exp_iteration = self.counter_exp_iteration + 1;
        if self.counter_exp_iteration > self.max_exp_iterations {
            ExpOutcome::Exhausted
        } else {
            ExpOutcome::Expanded
        }
    }

    /// Whether bisection still has work: the reported interval size
    /// `gap = |lower - upper|` exceeds the tolerance.
    pub fn bisect_more(&self, gap: Real) -> (r: bool)
        ensures
            r == gap.spec_gt(self.tol),
    {
        gap.gt(self.tol)
    }

    /// One bisection step.
    ///
    /// The caller reports the midpoint `middle = (lower+upper)*0.5` and the
    /// sign product `prod_mid_upper = f(middle)*f(upper_value)`'s value
    /// `f(middle)*upper_value`.  When that product is positive the root lies
    /// below the midpoint: `upper` moves to `middle` and the caller must
    /// refresh its cached `upper_value` (the returned flag says so);
    /// otherwise `lower` moves to `middle`.
    pub fn bisect_step(&mut self, middle: Real, prod_mid_upper: Real) -> (moved_upper: bool)
        ensures
            prod_mid_upper.spec_gt(Real { bits: ZERO_BITS }) ==> *final(self) == (ExpBinary {
                upper: middle,
                ..*old(self)
            }) && moved_upper,
            !prod_mid_upper.spec_gt(Real { bits: ZERO_BITS }) ==> *final(self) == (ExpBinary {
                lower: middle,
                ..*old(self)
            }) && !moved_upper,
    {
        let zero = Real { bits: ZERO_BITS };
        if prod_mid_upper.gt(zero) {
            self.upper = middle;
            true
        } else {
            self.lower = middle;
            false
        }
    }
}

/// Without a sign change the exponential search cannot run on unboundedly:
/// a bracket-less round at a counter short of the cap is merely `Expanded`
/// and raises the counter by one, and the first bracket-less round at or
/// past the cap reports `Exhausted`.
pub proof fn lemma_no_sign_change_exhausts(
    s: ExpBinary,
    prod_low_up: Real,
    prod_up_next: Real,
    prod_low_next: Real,
)
    requires
        !prod_low_up.spec_lt(Real { bits: ZERO_BITS }),
        !prod_up_next.spec_lt(Real { bits: ZERO_BITS }),
        !prod_low_next.spec_lt(Real { bits: ZERO_BITS }),
        s.counter_exp_iteration < u64::MAX,
    ensures
        s.spec_round_outcome(prod_low_up, prod_up_next, prod_low_next) == (if s.counter_exp_iteration
            >= s.max_exp_iterations {
            ExpOutcome::Exhausted
        } else {
            ExpOutcome::Expanded
        }),
{
}

} // verus!
