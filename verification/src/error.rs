//! Errors shared by the distribution constructors.

use vstd::prelude::*;

verus! {

/// Failure of a distribution constructor.
#[derive(Clone, Copy, Debug, PartialEq, Eq, Structural)]
pub enum StatsError {
    /// A parameter was NaN, out of its domain, or a pair of bounds was
    /// ordered the wrong way round.
    BadParams,
}

impl StatsError {
    /// A short description of the failure.
    pub fn message(self) -> &'static str {
        match self {
            StatsError::BadParams => "bad distribution parameters",
        }
    }
}

} // verus!
