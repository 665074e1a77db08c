//! Profiles and contacts: a local identity, and what a peer gets to know of
//! it.

use vstd::prelude::*;
use crate::attestation::{response_data_for, response_from, wire, Attestation};
use crate::bytes::equal;
use crate::error::{OckamError, VaultError};
use crate::identifier::ProfileIdentifier;
use crate::vault::{key_bytes, ProfileVault, PublicKey, Secret};

verus! {

/// What a contact says: an identifier and the key that is claimed for it.
pub struct ContactView {
    pub identifier: Seq<u8>,
    pub public_key: Seq<u8>,
}

/// The public side of a profile, as a peer keeps it: the identifier and the
/// current public key.
#[derive(Debug)]
pub struct Contact {
    identifier: ProfileIdentifier,
    public_key: PublicKey,
}

impl View for Contact {
    type V = ContactView;

    closed spec fn view(&self) -> ContactView {
        ContactView { identifier: self.identifier@, public_key: self.public_key@ }
    }
}

/// What a check of a contact comes to, given the digest of its key: the
/// identifier has to be that digest.
pub open spec fn binding_verdict(contact: ContactView, digest: Result<[u8; 32], VaultError>)
    -> Result<(), OckamError> {
    match digest {
        Ok(hash) => if hash@ == contact.identifier {
            Ok(())
        } else {
            Err(OckamError::VerifyFailed)
        },
        Err(error) => Err(OckamError::VaultError(error)),
    }
}

impl Contact {
    /// The contact that claims `public_key` for `identifier`. Nothing is
    /// checked here: see `verify`.
    pub fn new(identifier: ProfileIdentifier, public_key: PublicKey) -> (contact: Contact)
        ensures
            contact@.identifier == identifier@,
            contact@.public_key == public_key@,
    {
        Contact { identifier, public_key }
    }

    /// The identifier of the contact.
    pub fn identifier(&self) -> (identifier: &ProfileIdentifier)
        ensures
            identifier@ == self@.identifier,
    {
        &self.identifier
    }

    /// The public key of the contact.
    pub fn public_key(&self) -> (public_key: &PublicKey)
        ensures
            public_key@ == self@.public_key,
    {
        &self.public_key
    }

    /// Checks that the identifier is the digest of the key, so that the
    /// contact cannot name an identity whose key it does not carry.
    pub fn verify<V: ProfileVault>(&self, vault: &V) -> (outcome: Result<(), OckamError>)
        ensures
            exists|digest: Result<[u8; 32], VaultError>| #[trigger]
                V::sha256_yields(self@.public_key, digest) && outcome == binding_verdict(
                    self@,
                    digest,
                ),
    {
        let digest = vault.sha256(self.public_key.as_slice());
        assert(self@.public_key == self.public_key@);
        self.verify_with_digest(digest)
    }

    /// What the check comes to, given the digest of the key.
    pub fn verify_with_digest(&self, digest: Result<[u8; 32], VaultError>) -> (outcome: Result<
        (),
        OckamError,
    >)
        ensures
            outcome == binding_verdict(self@, digest),
    {
        match digest {
            Ok(hash) => {
                if equal(hash.as_slice(), self.identifier.as_bytes().as_slice()) {
                    Ok(())
                } else {
                    Err(OckamError::VerifyFailed)
                }
            },
            Err(error) => Err(OckamError::VaultError(error)),
        }
    }
}

impl Clone for Contact {
    fn clone(&self) -> (contact: Contact)
        ensures
            contact@ == self@,
    {
        Contact { identifier: self.identifier, public_key: self.public_key.clone() }
    }
}

/// A local identity: an identifier, the handle of the signing key that the
/// vault keeps for it, and the public half of that key.
#[derive(Debug)]
pub struct Profile {
    identifier: ProfileIdentifier,
    secret: Secret,
    public_key: PublicKey,
}

impl Profile {
    /// The identifier of the profile, as bytes.
    pub closed spec fn spec_identifier(&self) -> Seq<u8> {
        self.identifier@
    }

    /// The handle of the signing key.
    pub closed spec fn spec_secret(&self) -> Secret {
        self.secret
    }

    /// The public half of the signing key, as bytes.
    pub closed spec fn spec_public_key(&self) -> Seq<u8> {
        self.public_key@
    }

    /// What `to_contact` hands out.
    pub open spec fn spec_contact(&self) -> ContactView {
        ContactView { identifier: self.spec_identifier(), public_key: self.spec_public_key() }
    }

    /// What becomes of a key once its digest is known: the profile named by
    /// the digest, or the vault's failure.
    pub open spec fn named_by(
        created: Result<Profile, OckamError>,
        secret: Secret,
        public_key: Seq<u8>,
        digest: Result<[u8; 32], VaultError>,
    ) -> bool {
        match digest {
            Ok(hash) => created matches Ok(profile) && profile.spec_identifier() == hash@
                && profile.spec_secret() == secret && profile.spec_public_key() == public_key,
            Err(error) => created == Err::<Profile, OckamError>(OckamError::VaultError(error)),
        }
    }

    /// What becomes of a signing key that `vault` holds under `secret`: the
    /// vault is asked for the public half, the public half is digested, and
    /// the profile is named by the digest. The first failure of the vault
    /// ends the creation.
    pub open spec fn made_around<V: ProfileVault>(
        created: Result<Profile, OckamError>,
        secret: Secret,
        vault: &V,
    ) -> bool {
        exists|got: Result<PublicKey, VaultError>| #[trigger]
            vault.secret_public_key_get_yields(secret, key_bytes(got)) && match got {
                Err(error) => created == Err::<Profile, OckamError>(OckamError::VaultError(error)),
                Ok(public_key) => exists|digest: Result<[u8; 32], VaultError>| #[trigger]
                    V::sha256_yields(public_key@, digest) && Self::named_by(
                        created,
                        secret,
                        public_key@,
                        digest,
                    ),
            }
    }

    /// Creates an identity: has the vault generate a signing key, asks for
    /// its public half, and names the profile by the digest of that key.
    ///
    /// The first failure of the vault ends the creation. The vault is changed
    /// by the generation of the key and by nothing else.
    pub fn create<V: ProfileVault>(vault: &mut V) -> (created: Result<Profile, OckamError>)
        ensures
            exists|generated: Result<Secret, VaultError>| #[trigger]
                old(vault).secret_generate_yields(generated, final(vault)) && match generated {
                    Err(error) => created == Err::<Profile, OckamError>(
                        OckamError::VaultError(error),
                    ),
                    Ok(secret) => Self::made_around(created, secret, final(vault)),
                },
    {
        let generated = vault.secret_generate();
        match generated {
            Ok(secret) => Self::create_with_secret(secret, vault),
            Err(error) => Err(OckamError::VaultError(error)),
        }
    }

    /// Creates an identity around a signing key that the vault holds
    /// already: asks for its public half and names the profile by the digest
    /// of that key.
    pub fn create_with_secret<V: ProfileVault>(secret: Secret, vault: &V) -> (created: Result<
        Profile,
        OckamError,
    >)
        ensures
            Self::made_around(created, secret, vault),
    {
        let got = vault.secret_public_key_get(&secret);
        match got {
            Ok(public_key) => {
                let digest = vault.sha256(public_key.as_slice());
                Self::create_with_digest(secret, public_key, digest)
            },
            Err(error) => Err(OckamError::VaultError(error)),
        }
    }

    /// The profile around a key whose digest is known, or the failure of the
    /// digest.
    pub fn create_with_digest(
        secret: Secret,
        public_key: PublicKey,
        digest: Result<[u8; 32], VaultError>,
    ) -> (created: Result<Profile, OckamError>)
        ensures
            Self::named_by(created, secret, public_key@, digest),
    {
        match digest {
            Ok(hash) => {
                let identifier = ProfileIdentifier::from_hash(hash);
                Ok(Profile { identifier, secret, public_key })
            },
            Err(error) => Err(OckamError::VaultError(error)),
        }
    }

    /// The identifier of the profile.
    pub fn identifier(&self) -> (identifier: &ProfileIdentifier)
        ensures
            identifier@ == self.spec_identifier(),
    {
        &self.identifier
    }

    /// The public half of the signing key.
    pub fn public_key(&self) -> (public_key: &PublicKey)
        ensures
            public_key@ == self.spec_public_key(),
    {
        &self.public_key
    }

    /// What a peer may know of the profile: its identifier and public key.
    pub fn to_contact(&self) -> (contact: Contact)
        ensures
            contact@ == self.spec_contact(),
    {
        Contact { identifier: self.identifier, public_key: self.public_key.clone() }
    }

    /// Answers the request in `request_data` for the verifier
    /// `requester_profile_id`, signing with this profile's own key.
    pub fn generate_attestation_response<V: ProfileVault>(
        &self,
        request_data: &[u8],
        requester_profile_id: ProfileIdentifier,
        vault: &mut V,
    ) -> (response: Result<Vec<u8>, OckamError>)
        ensures
            match response_data_for(request_data@, requester_profile_id@) {
                Err(error) => response == Err::<Vec<u8>, OckamError>(error) && *final(vault)
                    == *old(vault),
                Ok(data) => exists|signed: Result<[u8; 64], VaultError>| #[trigger]
                    old(vault).sign_yields(
                        self.spec_secret(),
                        data.encoding(),
                        signed,
                        final(vault),
                    ) && wire(response) == response_from(data, signed),
            },
    {
        assert(self.spec_secret() == self.secret);
        Attestation::generate_attestation_response(
            request_data,
            requester_profile_id,
            &self.secret,
            vault,
        )
    }
}

} // verus!
