//! The raw-protocol fallback writer's failure taxonomy.
//!
//! The fallback streams the original encoded bytes to an external
//! helper process.  Spawning a process is I/O that the library cannot
//! perform itself; the driver runs the helper and reports what
//! happened through this type, and the orchestrator's verified
//! transition decides the terminal outcome from it.

use vstd::prelude::*;

verus! {

/// Why the fallback raw-protocol write failed.  Every variant is
/// terminal for the whole copy request: no further fallback exists.
pub enum FallbackError {
    /// The helper executable could not be launched.
    Spawn(String),
    /// The byte stream could not be fully written to the helper's
    /// standard input.
    Write(String),
    /// The helper exited with a non-zero status; carries its
    /// diagnostic output.
    HelperExit(String),
}

impl FallbackError {
    /// The human-readable cause carried by the error.
    pub open spec fn detail_view(&self) -> Seq<char> {
        match self {
            FallbackError::Spawn(s) => s@,
            FallbackError::Write(s) => s@,
            FallbackError::HelperExit(s) => s@,
        }
    }

    /// Hand out the human-readable cause.
    pub fn into_detail(self) -> (r: String)
        ensures
            r@ == self.detail_view(),
    {
        match self {
            FallbackError::Spawn(s) => s,
            FallbackError::Write(s) => s,
            FallbackError::HelperExit(s) => s,
        }
    }
}

/// The failure detail of a fallback result: `None` when the helper
/// succeeded, the error's cause when it failed.
pub open spec fn fallback_detail(r: Result<(), FallbackError>) -> Option<Seq<char>> {
    match r {
        Ok(()) => None,
        Err(e) => Some(e.detail_view()),
    }
}

} // verus!
