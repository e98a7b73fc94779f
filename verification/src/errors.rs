//! The two failures that end a whole run. Per-hostname and per-address
//! failures never appear here: they are absorbed as empty results.

use vstd::prelude::*;

verus! {

/// A fatal pipeline failure.
#[derive(Debug, Clone, Copy, PartialEq, Eq, Structural)]
pub enum PipelineError {
    /// No valid target was supplied, so there is nothing to resolve.
    InputError,
    /// The scanning engine cannot be invoked at all, so no address could
    /// ever be scanned.
    EngineUnavailable,
}

impl PipelineError {
    /// A short description of the failure, for the caller to log.
    pub fn describe(&self) -> (r: &'static str)
        ensures
            *self is InputError ==> r@ == "no valid targets were supplied"@,
            *self is EngineUnavailable ==> r@ == "the scanning engine is not available"@,
    {
        match self {
            PipelineError::InputError => "no valid targets were supplied",
            PipelineError::EngineUnavailable => "the scanning engine is not available",
        }
    }
}

} // verus!
