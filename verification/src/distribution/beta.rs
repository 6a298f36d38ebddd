//! The Beta distribution, the proposal used by the allele-frequency sampler.
//!
//! Construction follows Cheng's rejection method for generating Beta
//! variates: the two shape parameters are reordered so the smaller one leads,
//! and one of two algorithm variants is selected — `BB` when the smaller
//! parameter exceeds one, `BC` otherwise.  The variant's numeric constants,
//! and the rejection loop itself, are floating-point work a caller performs;
//! everything the construction *decides* is verified here.

use vstd::prelude::*;

use crate::numeric::ONE_BITS;
use crate::numeric::Real;
use crate::numeric::ZERO_BITS;

verus! {

/// Bit pattern of `0.5`, the threshold splitting algorithm BC's two paths.
pub const BC_HALF_BITS: u64 = 0x3FE0_0000_0000_0000;

/// Bit pattern of `0.25`, algorithm BC's fast-accept threshold.
pub const BC_QUARTER_BITS: u64 = 0x3FD0_0000_0000_0000;

/// The algorithm a `Beta` value selects at construction.
///
/// `BB` serves shape pairs whose smaller parameter exceeds one, `BC` the
/// rest; each variant has its own precomputed constants and rejection test,
/// which the sampling caller derives from `a` and `b`.
#[derive(Clone, Copy, Debug, PartialEq, Eq, Structural)]
pub enum BetaAlgorithm {
    /// Cheng's algorithm BB, for `min(alpha, beta) > 1`.
    BB,
    /// Cheng's algorithm BC, for `min(alpha, beta) <= 1`.
    BC,
}

/// Error type returned from `Beta::new`.
#[derive(Clone, Copy, Debug, PartialEq, Eq, Structural)]
pub enum BetaError {
    /// `alpha <= 0` or NaN.
    AlphaTooSmall,
    /// `beta <= 0` or NaN.
    BetaTooSmall,
}

impl BetaError {
    /// A short description of the failure.
    pub fn message(self) -> (r: &'static str)
        ensures
            r@ == (if self is AlphaTooSmall {
                "alpha is not positive in beta distribution"@
            } else {
                "beta is not positive in beta distribution"@
            }),
    {
        match self {
            BetaError::AlphaTooSmall => "alpha is not positive in beta distribution",
            BetaError::BetaTooSmall => "beta is not positive in beta distribution",
        }
    }
}

/// How one round of algorithm BC proceeds after its screening tests.
#[derive(Clone, Copy, Debug, PartialEq, Eq, Structural)]
pub enum BcTriage {
    /// The candidate is discarded before any logarithm is taken.
    Reject,
    /// The fast-accept short-circuit: the candidate stands without the full
    /// log-ratio test.
    AcceptFast,
    /// The full log-ratio test decides.
    FullTest,
}

/// The Beta distribution with shape parameters `alpha` and `beta`.
///
/// `a` holds the smaller and `b` the larger of the two shapes;
/// `switched_params` records whether they arrived the other way round, so
/// that a sampler can recover the correct output side (`w / (b + w)` when not
/// switched, `b / (b + w)` when switched).
#[derive(Clone, Copy, Debug, PartialEq, Eq, Structural)]
pub struct Beta {
    /// The smaller shape parameter.
    pub a: Real,
    /// The larger shape parameter.
    pub b: Real,
    /// True when the caller's `alpha` was not the smaller shape.
    pub switched_params: bool,
    /// The variant of Cheng's method that serves this shape pair.
    pub algorithm: BetaAlgorithm,
}

impl Beta {
    /// The value `Beta::new(alpha, beta)` yields on valid shapes.
    pub open spec fn spec_new(alpha: Real, beta: Real) -> Beta {
        let a = if alpha.spec_lt(beta) {
            alpha
        } else {
            beta
        };
        let b = if alpha.spec_lt(beta) {
            beta
        } else {
            alpha
        };
        Beta {
            a,
            b,
            switched_params: !alpha.spec_lt(beta),
            algorithm: if a.spec_gt(Real { bits: ONE_BITS }) {
                BetaAlgorithm::BB
            } else {
                BetaAlgorithm::BC
            },
        }
    }

    /// Both shapes are strictly positive (and so not NaN).
    pub open spec fn spec_params_valid(alpha: Real, beta: Real) -> bool {
        alpha.spec_gt(Real { bits: ZERO_BITS }) && beta.spec_gt(Real { bits: ZERO_BITS })
    }

    /// The value is well formed: positive shapes, the smaller one first.
    pub open spec fn valid(self) -> bool {
        &&& self.a.spec_gt(Real { bits: ZERO_BITS })
        &&& self.b.spec_gt(Real { bits: ZERO_BITS })
        &&& self.a.spec_le(self.b)
        &&& self.algorithm == (if self.a.spec_gt(Real { bits: ONE_BITS }) {
            BetaAlgorithm::BB
        } else {
            BetaAlgorithm::BC
        })
    }

    /// Construct an object representing the `Beta(alpha, beta)` distribution.
    ///
    /// Fails with `AlphaTooSmall` unless `alpha > 0`, then with
    /// `BetaTooSmall` unless `beta > 0` (a NaN shape fails the same way).
    /// On success the shapes are reordered so the smaller leads, and the
    /// algorithm variant is selected by whether that smaller shape exceeds
    /// one.
    pub fn new(alpha: Real, beta: Real) -> (r: Result<Beta, BetaError>)
        ensures
            r == (if !alpha.spec_gt(Real { bits: ZERO_BITS }) {
                Err::<Beta, BetaError>(BetaError::AlphaTooSmall)
            } else if !beta.spec_gt(Real { bits: ZERO_BITS }) {
                Err::<Beta, BetaError>(BetaError::BetaTooSmall)
            } else {
                Ok::<Beta, BetaError>(Beta::spec_new(alpha, beta))
            }),
            r matches Ok(v) ==> v.valid(),
    {
        let zero = Real { bits: ZERO_BITS };
        if !alpha.gt(zero) {
            return Err(BetaError::AlphaTooSmall);
        }
        if !beta.gt(zero) {
            return Err(BetaError::BetaTooSmall);
        }
        let switched_params = !alpha.lt(beta);
        let a = if switched_params {
            beta
        } else {
            alpha
        };
        let b = if switched_params {
            alpha
        } else {
            beta
        };
        let algorithm = if a.gt(Real { bits: ONE_BITS }) {
            BetaAlgorithm::BB
        } else {
            BetaAlgorithm::BC
        };
        proof {
            crate::numeric::lemma_le_total(alpha, beta);
        }
        Ok(Beta { a, b, switched_params, algorithm })
    }

    /// Whether algorithm BB accepts a candidate, from the three rejection
    /// tests of Cheng's method in their order: the quick screen
    /// `s + 1 + ln 5 >= 5z`, then `s >= ln z`, then the full log-ratio test,
    /// which accepts unless `r + alpha'*ln(alpha'/(b+w)) < ln z`.
    pub open spec fn spec_bb_accepts(
        quick: Real,
        five_z: Real,
        s: Real,
        log_z: Real,
        full: Real,
    ) -> bool {
        quick.spec_ge(five_z) || s.spec_ge(log_z) || !full.spec_lt(log_z)
    }

    /// Decides one round of algorithm BB.
    ///
    /// The caller reports `quick = s + 1 + ln 5`, `five_z = 5z`, `s`,
    /// `log_z = ln z` and `full = r + alpha'*ln(alpha'/(b+w))`; the round
    /// accepts the candidate exactly when one of Cheng's three tests does.
    pub fn bb_accepts(quick: Real, five_z: Real, s: Real, log_z: Real, full: Real) -> (r: bool)
        ensures
            r == Beta::spec_bb_accepts(quick, five_z, s, log_z, full),
    {
        quick.ge(five_z) || s.ge(log_z) || !full.lt(log_z)
    }

    /// How algorithm BC proceeds, from its screening tests: on the low
    /// branch (`u1 < 0.5`) the candidate is discarded when
    /// `u2/4 + z - y >= kappa1`; on the high branch `z <= 1/4` accepts at
    /// once and `z >= kappa2` discards; everything else goes to the full
    /// log-ratio test.
    pub open spec fn spec_bc_triage(
        u1: Real,
        screen: Real,
        kappa1: Real,
        z: Real,
        kappa2: Real,
    ) -> BcTriage {
        if u1.spec_lt(Real { bits: BC_HALF_BITS }) {
            if screen.spec_ge(kappa1) {
                BcTriage::Reject
            } else {
                BcTriage::FullTest
            }
        } else if z.spec_le(Real { bits: BC_QUARTER_BITS }) {
            BcTriage::AcceptFast
        } else if z.spec_ge(kappa2) {
            BcTriage::Reject
        } else {
            BcTriage::FullTest
        }
    }

    /// Decides the screening of one round of algorithm BC.
    ///
    /// The caller reports the first uniform draw `u1`, the low-branch screen
    /// value `screen = u2/4 + z - y` with its threshold `kappa1`, and the
    /// candidate `z` with the high-branch threshold `kappa2`.
    pub fn bc_triage(u1: Real, screen: Real, kappa1: Real, z: Real, kappa2: Real) -> (r: BcTriage)
        ensures
            r == Beta::spec_bc_triage(u1, screen, kappa1, z, kappa2),
    {
        let half = Real { bits: BC_HALF_BITS };
        let quarter = Real { bits: BC_QUARTER_BITS };
        if u1.lt(half) {
            if screen.ge(kappa1) {
                BcTriage::Reject
            } else {
                BcTriage::FullTest
            }
        } else if z.le(quarter) {
            BcTriage::AcceptFast
        } else if z.ge(kappa2) {
            BcTriage::Reject
        } else {
            BcTriage::FullTest
        }
    }

    /// Decides algorithm BC's full log-ratio test: the candidate stands
    /// unless `alpha'*(ln(alpha'/(b+w)) + v) - ln 4 < ln z` — the reported
    /// left-hand side falls below `ln z`.
    pub fn bc_full_accepts(lhs: Real, log_z: Real) -> (r: bool)
        ensures
            r == !lhs.spec_lt(log_z),
    {
        !lhs.lt(log_z)
    }
}

} // verus!
