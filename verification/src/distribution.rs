//! Distributions of the model: the Beta proposal, the skew-normal selection
//! distribution, the stationary allele-frequency distribution, and the
//! heterozygosity statistic built from them, together with the histogram
//! helper used to approximate a distribution's CDF.

pub use self::beta::BcTriage;
pub use self::beta::Beta;
pub use self::beta::BetaAlgorithm;
pub use self::beta::BetaError;
pub use self::genetic_freq::GeneticFreq;
pub use self::heterozygosity::Dominance;
pub use self::heterozygosity::Heterozygosity;
pub use self::heterozygosity::McCappedDecision;
pub use self::heterozygosity::McDecision;
pub use self::heterozygosity::lemma_mc_capped_halts;
pub use self::heterozygosity::Selection;
pub use self::heterozygosity::SelectionBounds;
pub use self::heterozygosity::lemma_mc_converged_error_within_limit;
pub use self::skew_normal::SkewNormal;
pub use self::skew_normal::SkewSamplePlan;

pub mod helper;

mod beta;
mod genetic_freq;
mod heterozygosity;
mod skew_normal;
