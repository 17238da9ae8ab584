use vstd::prelude::*;

verus! {

/// The ways an authorization check can fail. Every failure is final: the
/// surrounding invocation framework is expected to abort the whole call
/// rather than recover.
#[derive(Clone, Copy, Debug, PartialEq, Eq, Structural)]
pub enum AuthError {
    /// The nonce embedded in the attempt does not equal the stored nonce.
    StaleOrReplayedNonce,
    /// The cryptographic signature check failed.
    InvalidSignature,
    /// A contract identity's own authorization check failed.
    NestedAuthorizationFailed,
    /// Two values from different runtime contexts were compared.
    ContextMismatch,
    /// A value cannot be interpreted as the expected identity shape.
    ConversionError,
}

} // verus!
