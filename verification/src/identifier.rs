//! The stable name of an identity.

use vstd::prelude::*;
use crate::bytes;

verus! {

/// The number of bytes in a profile identifier.
pub const PROFILE_IDENTIFIER_LENGTH: usize = 32;

/// The name of a profile: the digest of the public key it was created with.
///
/// Two identifiers are the same when their bytes are. An identifier never
/// changes once its profile exists.
#[derive(Clone, Copy, Debug, PartialEq, Eq, Hash)]
pub struct ProfileIdentifier([u8; 32]);

impl View for ProfileIdentifier {
    type V = Seq<u8>;

    closed spec fn view(&self) -> Seq<u8> {
        self.0@
    }
}

impl ProfileIdentifier {
    /// The identifier whose bytes are those of `hash`.
    pub fn from_hash(hash: [u8; 32]) -> (identifier: ProfileIdentifier)
        ensures
            identifier@ == hash@,
    {
        ProfileIdentifier(hash)
    }

    /// The bytes of the identifier.
    pub fn as_bytes(&self) -> (bytes: &[u8; 32])
        ensures
            bytes@ == self@,
    {
        &self.0
    }

    /// Whether `other` names the same profile.
    pub fn same_as(&self, other: &ProfileIdentifier) -> (same: bool)
        ensures
            same == (self@ == other@),
    {
        bytes::equal(self.0.as_slice(), other.0.as_slice())
    }

    /// An identifier is always 32 bytes wide.
    pub proof fn lemma_width(&self)
        ensures
            self@.len() == PROFILE_IDENTIFIER_LENGTH,
    {
    }

    /// Identifiers with the same bytes are the same identifier.
    pub proof fn lemma_same_bytes_same_identifier(a: ProfileIdentifier, b: ProfileIdentifier)
        requires
            a@ == b@,
        ensures
            a == b,
    {
        assert(a.0 =~= b.0);
    }
}

} // verus!
