//! The errors that the protocols report.

use vstd::prelude::*;

verus! {

/// A failure inside the vault, carried as the opaque code the vault reported.
#[derive(Clone, Copy, Debug, PartialEq, Eq, Structural)]
pub struct VaultError {
    pub code: u32,
}

/// Everything that can go wrong in a protocol run or in the contact registry.
///
/// An error says which rule was broken and, for the vault, an opaque code:
/// it never carries key material or message content.
#[derive(Clone, Copy, Debug, PartialEq, Eq, Structural)]
pub enum OckamError {
    /// Bytes that should hold a message are truncated or malformed.
    EncodingError,
    /// The bytes of an attestation request are truncated or malformed.
    MalformedRequest,
    /// A primitive of the vault failed.
    VaultError(VaultError),
    /// A response names another verifier than the one checking it.
    AttestationRequesterDoesntMatch,
    /// A response echoes another nonce than the one of the request.
    AttestationNonceDoesntMatch,
    /// The signature of a response does not verify under the claimant's key.
    SignatureInvalid,
    /// A contact's identifier is not the digest of the key it carries.
    VerifyFailed,
    /// The identifier is already registered with different key material.
    DuplicateContact,
    /// No contact is registered under the identifier.
    UnknownContact,
}

impl OckamError {
    /// Whether the error reports bytes that could not be read as a message.
    pub open spec fn spec_is_encoding_error(&self) -> bool {
        *self == OckamError::EncodingError || *self == OckamError::MalformedRequest
    }

    /// Whether the error reports bytes that could not be read as a message.
    #[verifier::when_used_as_spec(spec_is_encoding_error)]
    pub fn is_encoding_error(&self) -> (b: bool)
        ensures
            b == self.spec_is_encoding_error(),
    {
        match self {
            OckamError::EncodingError => true,
            OckamError::MalformedRequest => true,
            _ => false,
        }
    }

    /// Whether the error ends a verification: one of the three checks on a
    /// response failed.
    pub open spec fn spec_is_verification_failure(&self) -> bool {
        *self == OckamError::AttestationRequesterDoesntMatch
            || *self == OckamError::AttestationNonceDoesntMatch
            || *self == OckamError::SignatureInvalid
    }

    /// Whether the error ends a verification: one of the three checks on a
    /// response failed.
    #[verifier::when_used_as_spec(spec_is_verification_failure)]
    pub fn is_verification_failure(&self) -> (b: bool)
        ensures
            b == self.spec_is_verification_failure(),
    {
        match self {
            OckamError::AttestationRequesterDoesntMatch => true,
            OckamError::AttestationNonceDoesntMatch => true,
            OckamError::SignatureInvalid => true,
            _ => false,
        }
    }
}

} // verus!
