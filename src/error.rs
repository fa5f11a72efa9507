//! The ways a refresh can fail.
use vstd::prelude::*;

verus! {

/// Why a refresh stopped. No variant carries a secret.
#[derive(Debug, Clone, Copy, PartialEq, Eq, Structural)]
pub enum RefreshError {
    /// No profile matches the requested name.
    NotFound,
    /// The cached token's expiry is not in the future.
    Stale,
    /// A file exists but does not have the expected shape.
    Malformed,
    /// A file could not be opened, read or written.
    IoFailure,
    /// The token exchange failed or answered incompletely.
    ExchangeFailure,
    /// The interactive login program could not be started.
    ExternalProcessFailure,
}

} // verus!
