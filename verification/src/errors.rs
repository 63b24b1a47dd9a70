//! Error taxonomy of the library.
//!
//! Discovery, client construction, remote calls and the selection
//! workflows each fail in their own way; every remote failure is turned
//! into the nearest workflow-level error before it leaves this crate.

use vstd::prelude::*;

verus! {

/// Failure of credential discovery from the process listing.
#[derive(Clone, Copy, Debug, PartialEq, Eq, Structural)]
pub enum DiscoveryError {
    /// No running game-client process was found.
    ProcessNotFound,
    /// The process exists but its command line lacks the port or token flag.
    PatternNotMatched,
}

/// Failure of (re)building the authenticated client.
#[derive(Clone, Copy, Debug, PartialEq, Eq, Structural)]
pub enum BuildError {
    /// Credential discovery failed.
    Discovery(DiscoveryError),
    /// The HTTPS client itself could not be constructed.
    ClientConstruction,
}

/// Failure of one remote call.
#[derive(Clone, Copy, Debug, PartialEq, Eq, Structural)]
pub enum CallError {
    /// No response was obtained (connection refused, timeout, ...).
    Transport,
    /// A response arrived but its body did not decode as expected.
    Decode,
}

/// Workflow-level failures of the two selection pipelines.
#[derive(Clone, Copy, Debug, PartialEq, Eq, Structural)]
pub enum SelectError {
    /// The client is not reachable; no workflow step was attempted.
    ClientOffline,
    /// The current summoner identity could not be fetched.
    IdentityUnavailable,
    /// No champion-select phase is active.
    NotInChampSelect,
    /// The champion has not been locked in yet.
    ChampionNotPicked,
    /// No roster entry for the caller, or no champion selected there.
    NothingPicked,
    /// The eligibility and ownership filters left nothing to pick from.
    NoCandidates,
    /// The selection submit call failed after a pick was made.
    SubmitFailed,
    /// The chosen chroma's color string is not a valid hex color.
    InvalidColorFormat,
}

} // verus!
