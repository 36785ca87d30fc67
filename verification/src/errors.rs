//! The fatal error kinds a run can end with.

use vstd::prelude::*;

verus! {

/// Why a run was refused or aborted.
///
/// Every kind is fatal: the run stops and no further sample is produced.
/// A response body that fails to decode is not an error at all — its
/// iteration completes with a content length of zero.
#[derive(Clone, Copy, PartialEq, Eq, Structural, Debug)]
pub enum EngineError {
    /// A malformed header entry (no `=`, bad name, or bad value), or an
    /// empty URL list with a nonzero request count.
    Configuration,
    /// The URL string selected for the current iteration does not parse.
    InvalidUrl,
    /// The executor could not connect, send or receive at all for the
    /// current iteration.  No retry, no skip: the run is over.
    Transport,
}

} // verus!
