//! Population-genetics estimation core.
//!
//! The crate models expected heterozygosity and substitution statistics under
//! a Wright-Fisher model in which the selection coefficient may itself be
//! drawn from a skew-normal distribution.  All numeric parameters are
//! double-precision values carried as raw IEEE-754 bit patterns (see
//! [`numeric::Real`]): the verified core owns every parameter check, every
//! branch decision and all of the adaptive-loop bookkeeping, while callers
//! supply the floating-point arithmetic and the random draws.

pub mod distribution;
pub mod error;
pub mod numeric;
mod parameters;
mod root_finding;
mod statistic;

pub use self::distribution::Beta;
pub use self::distribution::BetaError;
pub use self::distribution::Dominance;
pub use self::distribution::GeneticFreq;
pub use self::distribution::Heterozygosity;
pub use self::distribution::Selection;
pub use self::distribution::SkewNormal;
pub use self::numeric::Real;
pub use self::parameters::Parameters;
pub use self::root_finding::ExpBinary;
pub use self::root_finding::ExpOutcome;
pub use self::root_finding::SearchError;
pub use self::statistic::Substitutions;
