//! The vault capability: every cryptographic primitive that the protocols use.
//!
//! A vault keeps key material to itself. Callers hold handles to secrets and
//! see public keys, signatures and digests, never a private key.

use vstd::prelude::*;
use crate::error::VaultError;

verus! {

/// Handle to a secret that lives inside a vault. It is usable only through the
/// vault that issued it.
#[derive(Debug, PartialEq, Eq, Hash)]
pub struct Secret {
    index: usize,
}

impl Secret {
    /// The position of the secret inside its vault.
    pub closed spec fn spec_index(&self) -> usize {
        self.index
    }

    /// A handle to the secret at `index`.
    pub fn new(index: usize) -> (secret: Secret)
        ensures
            secret.spec_index() == index,
    {
        Secret { index }
    }

    /// The position of the secret inside its vault.
    #[verifier::when_used_as_spec(spec_index)]
    pub fn index(&self) -> (index: usize)
        ensures
            index == self.spec_index(),
    {
        self.index
    }
}

impl Clone for Secret {
    fn clone(&self) -> (secret: Secret)
        ensures
            secret == *self,
    {
        Secret { index: self.index }
    }
}

/// A public key, as plain bytes.
#[derive(Debug, PartialEq, Eq, Hash)]
pub struct PublicKey {
    bytes: Vec<u8>,
}

impl View for PublicKey {
    type V = Seq<u8>;

    closed spec fn view(&self) -> Seq<u8> {
        self.bytes@
    }
}

impl PublicKey {
    /// The key made of `bytes`.
    pub fn new(bytes: Vec<u8>) -> (key: PublicKey)
        ensures
            key@ == bytes@,
    {
        PublicKey { bytes }
    }

    /// The bytes of the key.
    pub fn as_slice(&self) -> (bytes: &[u8])
        ensures
            bytes@ == self@,
    {
        self.bytes.as_slice()
    }
}

impl Clone for PublicKey {
    fn clone(&self) -> (key: PublicKey)
        ensures
            key@ == self@,
    {
        let mut bytes: Vec<u8> = Vec::new();
        crate::bytes::append(&mut bytes, self.bytes.as_slice());
        PublicKey { bytes }
    }
}

/// The outcome of a draw of random bytes, with the bytes as a sequence.
pub open spec fn drawn_bytes<const N: usize>(outcome: Result<[u8; N], VaultError>) -> Result<
    Seq<u8>,
    VaultError,
> {
    match outcome {
        Ok(bytes) => Ok(bytes@),
        Err(error) => Err(error),
    }
}

/// The outcome of asking for a public key, with the key as a sequence of
/// bytes.
pub open spec fn key_bytes(outcome: Result<PublicKey, VaultError>) -> Result<Seq<u8>, VaultError> {
    match outcome {
        Ok(key) => Ok(key@),
        Err(error) => Err(error),
    }
}

/// What the identity layer asks of a vault.
///
/// The library promises nothing about what a vault answers. Each operation has
/// a relation beside it, which holds of every outcome the operation can have
/// and, where the operation may change the vault, of the state it leaves
/// behind. Left as it is, a relation admits everything; an implementation that
/// can prove more states it there. The contracts of the protocols say which
/// arguments reach the vault and what is made of each outcome.
///
/// Digests and verification are pure: they take the vault as it is and leave
/// it so, and their relations do not see its state at all.
pub trait ProfileVault {
    /// Holds of every outcome that `secret_generate` can have in this state,
    /// and of the state `after` it.
    open spec fn secret_generate_yields(&self, outcome: Result<Secret, VaultError>, after: &Self)
        -> bool {
        true
    }

    /// Holds of every outcome that `secret_public_key_get` can have in this
    /// state.
    open spec fn secret_public_key_get_yields(
        &self,
        secret: Secret,
        outcome: Result<Seq<u8>, VaultError>,
    ) -> bool {
        true
    }

    /// Holds of every outcome that `sha256` can have.
    open spec fn sha256_yields(data: Seq<u8>, outcome: Result<[u8; 32], VaultError>) -> bool {
        true
    }

    /// Holds of every outcome that a draw of `count` bytes with
    /// `random_bytes` can have in this state, and of the state `after` it.
    open spec fn random_bytes_yields(
        &self,
        count: nat,
        outcome: Result<Seq<u8>, VaultError>,
        after: &Self,
    ) -> bool {
        true
    }

    /// Holds of every outcome that `sign` can have in this state, and of the
    /// state `after` it.
    open spec fn sign_yields(
        &self,
        secret: Secret,
        message: Seq<u8>,
        outcome: Result<[u8; 64], VaultError>,
        after: &Self,
    ) -> bool {
        true
    }

    /// Holds of every outcome that `verify` can have.
    open spec fn verify_yields(
        signature: Seq<u8>,
        public_key: Seq<u8>,
        message: Seq<u8>,
        outcome: Result<bool, VaultError>,
    ) -> bool {
        true
    }

    /// Creates a signing key inside the vault and hands back its handle.
    fn secret_generate(&mut self) -> (outcome: Result<Secret, VaultError>)
        ensures
            old(self).secret_generate_yields(outcome, final(self)),
    ;

    /// The public key that belongs to `secret`.
    fn secret_public_key_get(&self, secret: &Secret) -> (outcome: Result<PublicKey, VaultError>)
        ensures
            self.secret_public_key_get_yields(*secret, key_bytes(outcome)),
    ;

    /// The SHA-256 digest of `data`.
    fn sha256(&self, data: &[u8]) -> (outcome: Result<[u8; 32], VaultError>)
        ensures
            Self::sha256_yields(data@, outcome),
    ;

    /// `N` bytes from a cryptographically secure random source. A vault that
    /// cannot draw them fails; it never makes bytes up.
    fn random_bytes<const N: usize>(&mut self) -> (outcome: Result<[u8; N], VaultError>)
        ensures
            old(self).random_bytes_yields(N as nat, drawn_bytes(outcome), final(self)),
    ;

    /// A signature over `message` under the key behind `secret`. Fails when
    /// the handle is invalid or revoked.
    fn sign(&mut self, secret: &Secret, message: &[u8]) -> (outcome: Result<
        [u8; 64],
        VaultError,
    >)
        ensures
            old(self).sign_yields(*secret, message@, outcome, final(self)),
    ;

    /// Whether `signature` is a signature over `message` under `public_key`.
    fn verify(&self, signature: &[u8; 64], public_key: &[u8], message: &[u8]) -> (outcome: Result<
        bool,
        VaultError,
    >)
        ensures
            Self::verify_yields(signature@, public_key@, message@, outcome),
    ;
}

/// What the key exchange asks of a vault on top of the identity layer:
/// Diffie-Hellman between a secret of the vault and a peer's public key, and
/// key derivation over secrets of the vault. Both hand back handles; the
/// shared secret itself stays inside the vault.
pub trait X3dhVault: ProfileVault {
    /// Holds of every outcome that `ec_diffie_hellman` can have in this
    /// state, and of the state `after` it.
    open spec fn ec_diffie_hellman_yields(
        &self,
        secret: Secret,
        peer_public_key: Seq<u8>,
        outcome: Result<Secret, VaultError>,
        after: &Self,
    ) -> bool {
        true
    }

    /// Holds of every outcome that `hkdf_sha256` can have in this state, and
    /// of the state `after` it.
    open spec fn hkdf_sha256_yields(
        &self,
        salt: Secret,
        info: Seq<u8>,
        input_key_material: Option<Secret>,
        outcome: Result<Secret, VaultError>,
        after: &Self,
    ) -> bool {
        true
    }

    /// The secret that the key behind `secret` and `peer_public_key` share.
    fn ec_diffie_hellman(&mut self, secret: &Secret, peer_public_key: &[u8]) -> (outcome: Result<
        Secret,
        VaultError,
    >)
        ensures
            old(self).ec_diffie_hellman_yields(*secret, peer_public_key@, outcome, final(self)),
    ;

    /// A secret derived with HKDF over SHA-256 from `salt`, `info` and, where
    /// there is one, `input_key_material`.
    fn hkdf_sha256(
        &mut self,
        salt: &Secret,
        info: &[u8],
        input_key_material: Option<&Secret>,
    ) -> (outcome: Result<Secret, VaultError>)
        ensures
            old(self).hkdf_sha256_yields(
                *salt,
                info@,
                match input_key_material {
                    Some(secret) => Some(*secret),
                    None => None,
                },
                outcome,
                final(self),
            ),
    ;
}

} // verus!
