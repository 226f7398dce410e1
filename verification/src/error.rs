//! Errors raised by the hook's own logic. Failures of the surrounding
//! environment (storage faults, a downstream hook that rejects a call) are
//! the environment's to report and never arise inside the library.

use vstd::prelude::*;

verus! {

/// Why an operation of the hook was refused.
#[derive(Clone, Copy, Debug, PartialEq, Eq, Structural)]
pub enum ContractError {
    /// The caller is not the current owner, for an owner-gated operation.
    Unauthorized,
    /// A malformed address or malformed message bytes were handed in.
    ValidationError,
    /// The fallback hook was read before it was ever set, or the owner was
    /// consulted before initialization.
    NotConfigured,
}

} // verus!
