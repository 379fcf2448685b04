//! The failure taxonomy of the instruction core.

use vstd::prelude::*;

verus! {

/// Every way an instruction can fail. Each check in the handlers is
/// fail-fast: the first violated condition decides the error, and a failed
/// instruction leaves the storage buffer untouched.
#[derive(Clone, Copy, Debug, PartialEq, Eq, Structural)]
pub enum CounterError {
    /// A required signer did not sign.
    MissingSignature,
    /// A caller-supplied or self-derived address disagrees with the
    /// recomputed derivation (or no derivation exists for the identity).
    SeedMismatch,
    /// The storage account is not owned by the handling program although it
    /// must already have been initialized.
    WrongOwner,
    /// The record's stored authority disagrees with the acting signer.
    AuthorizationFailure,
    /// The counter would leave its representable range upward.
    ArithmeticOverflow,
    /// The counter would leave its representable range downward.
    ArithmeticUnderflow,
    /// The instruction payload does not decode to a known operation.
    MalformedInstruction,
    /// The stored buffer does not hold a well-formed counter record.
    MalformedState,
    /// The host refused an account-creation or funding request. The library's
    /// own checks never produce this variant; the embedding that performs the
    /// provisioning call reports the host's refusal with it.
    HostRejected,
}

} // verus!
