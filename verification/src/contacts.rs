//! The contact registry: the identities that a local actor has come to trust,
//! each under its identifier.

use vstd::prelude::*;
use crate::attestation::{request_from, verification, wire, Attestation};
use crate::error::{OckamError, VaultError};
use crate::identifier::ProfileIdentifier;
use crate::profile::{binding_verdict, Contact, ContactView};
use crate::vault::{drawn_bytes, ProfileVault};

verus! {

/// The contacts of a local actor, by identifier. No identifier is registered
/// twice, and the order in which contacts came in plays no role.
#[derive(Debug)]
pub struct ContactRegistry {
    entries: Vec<Contact>,
}

/// The registry under the short name that callers know it by.
pub type Contacts = ContactRegistry;

/// Whether one of `entries` carries `identifier`.
spec fn holds(entries: Seq<Contact>, identifier: Seq<u8>) -> bool {
    exists|i: int| 0 <= i < entries.len() && (#[trigger] entries[i])@.identifier == identifier
}

/// The place of an entry that carries `identifier`.
spec fn place(entries: Seq<Contact>, identifier: Seq<u8>) -> int {
    choose|i: int| 0 <= i < entries.len() && (#[trigger] entries[i])@.identifier == identifier
}

/// No two of `entries` carry the same identifier.
spec fn distinct(entries: Seq<Contact>) -> bool {
    forall|i: int, j: int|
        0 <= i < j < entries.len() ==> (#[trigger] entries[i])@.identifier != (
        #[trigger] entries[j])@.identifier
}

/// The registry that `entries` make: each identifier with the key registered
/// for it.
spec fn registry_of(entries: Seq<Contact>) -> Map<Seq<u8>, Seq<u8>> {
    Map::new(
        |identifier: Seq<u8>| holds(entries, identifier),
        |identifier: Seq<u8>| entries[place(entries, identifier)]@.public_key,
    )
}

/// What becomes of a registry when a contact asks to come in.
///
/// The contact is refused when its identifier is not the digest of its key,
/// or when the identifier is registered with another key: the first seen
/// stays. A contact that is registered already, key and all, changes nothing.
pub open spec fn admission(
    registry: Map<Seq<u8>, Seq<u8>>,
    contact: ContactView,
    digest: Result<[u8; 32], VaultError>,
) -> Result<Map<Seq<u8>, Seq<u8>>, OckamError> {
    match binding_verdict(contact, digest) {
        Err(error) => Err(error),
        Ok(_) => if !registry.dom().contains(contact.identifier) {
            Ok(registry.insert(contact.identifier, contact.public_key))
        } else if registry[contact.identifier] == contact.public_key {
            Ok(registry)
        } else {
            Err(OckamError::DuplicateContact)
        },
    }
}

/// The first key seen for an identifier stays: whatever contact asks to come
/// in, and whatever the vault says of it, every identifier that was
/// registered keeps its key, and at most the contact's own identifier is new.
pub proof fn lemma_first_seen_wins(
    registry: Map<Seq<u8>, Seq<u8>>,
    contact: ContactView,
    digest: Result<[u8; 32], VaultError>,
)
    requires
        admission(registry, contact, digest) is Ok,
    ensures
        ({
            let admitted = admission(registry, contact, digest)->Ok_0;
            &&& forall|identifier: Seq<u8>| #[trigger]
                registry.dom().contains(identifier) ==> admitted.dom().contains(identifier)
                    && admitted[identifier] == registry[identifier]
            &&& forall|identifier: Seq<u8>| #[trigger]
                admitted.dom().contains(identifier) ==> registry.dom().contains(identifier)
                    || identifier == contact.identifier
            &&& admitted.dom().contains(contact.identifier)
            &&& admitted[contact.identifier] == contact.public_key
            &&& digest matches Ok(hash) && hash@ == contact.identifier
        }),
{
}

/// In a registry without duplicates every entry is found under its own
/// identifier.
proof fn lemma_entry_is_registered(entries: Seq<Contact>, i: int)
    requires
        distinct(entries),
        0 <= i < entries.len(),
    ensures
        holds(entries, entries[i]@.identifier),
        place(entries, entries[i]@.identifier) == i,
        registry_of(entries).dom().contains(entries[i]@.identifier),
        registry_of(entries)[entries[i]@.identifier] == entries[i]@.public_key,
{
    let identifier = entries[i]@.identifier;
    let p = place(entries, identifier);
    assert(0 <= p < entries.len() && entries[p]@.identifier == identifier);
    if p < i {
        assert(entries[p]@.identifier != entries[i]@.identifier);
    } else if i < p {
        assert(entries[i]@.identifier != entries[p]@.identifier);
    }
}

/// Appending a contact whose identifier is new registers it and leaves the
/// rest as it was.
proof fn lemma_push_registers(entries: Seq<Contact>, contact: Contact)
    requires
        distinct(entries),
        !holds(entries, contact@.identifier),
    ensures
        distinct(entries.push(contact)),
        registry_of(entries.push(contact)) == registry_of(entries).insert(
            contact@.identifier,
            contact@.public_key,
        ),
{
    let grown = entries.push(contact);
    assert forall|i: int, j: int| 0 <= i < j < grown.len() implies (#[trigger] grown[i])@.identifier
        != (#[trigger] grown[j])@.identifier by {
        if j == entries.len() {
            assert(entries[i]@.identifier != contact@.identifier);
        } else {
            assert(entries[i]@.identifier != entries[j]@.identifier);
        }
    }
    let before = registry_of(entries);
    let after = registry_of(grown);
    let expected = before.insert(contact@.identifier, contact@.public_key);
    assert forall|identifier: Seq<u8>| after.dom().contains(identifier)
        <==> expected.dom().contains(identifier) by {
        if holds(entries, identifier) {
            let i = place(entries, identifier);
            assert(grown[i]@.identifier == identifier);
        }
        if holds(grown, identifier) {
            let i = place(grown, identifier);
            if i < entries.len() {
                assert(entries[i]@.identifier == identifier);
            }
        }
        assert(grown[entries.len() as int]@.identifier == contact@.identifier);
    }
    assert forall|identifier: Seq<u8>| after.dom().contains(identifier) implies after[identifier]
        == expected[identifier] by {
        let i = place(grown, identifier);
        lemma_entry_is_registered(grown, i);
        if i < entries.len() {
            assert(entries[i]@.identifier == identifier);
            lemma_entry_is_registered(entries, i);
        }
    }
    assert(after =~= expected);
}

/// A registry without duplicates has as many identifiers as entries.
proof fn lemma_registry_size(entries: Seq<Contact>)
    requires
        distinct(entries),
    ensures
        registry_of(entries).dom().finite(),
        registry_of(entries).dom().len() == entries.len(),
    decreases entries.len(),
{
    if entries.len() == 0 {
        assert(registry_of(entries).dom() =~= Set::<Seq<u8>>::empty());
    } else {
        let init = entries.drop_last();
        let last = entries.last();
        assert forall|i: int, j: int| 0 <= i < j < init.len() implies (#[trigger] init[i])@.identifier
            != (#[trigger] init[j])@.identifier by {
            assert(entries[i]@.identifier != entries[j]@.identifier);
        }
        assert(!holds(init, last@.identifier)) by {
            if holds(init, last@.identifier) {
                let i = place(init, last@.identifier);
                assert(entries[i]@.identifier != entries[entries.len() - 1]@.identifier);
            }
        }
        lemma_registry_size(init);
        lemma_push_registers(init, last);
        assert(init.push(last) =~= entries);
    }
}

impl View for ContactRegistry {
    type V = Map<Seq<u8>, Seq<u8>>;

    closed spec fn view(&self) -> Map<Seq<u8>, Seq<u8>> {
        registry_of(self.entries@)
    }
}

impl ContactRegistry {
    #[verifier::type_invariant]
    spec fn without_duplicates(&self) -> bool {
        distinct(self.entries@)
    }

    /// A registry without contacts.
    pub fn new() -> (contacts: ContactRegistry)
        ensures
            contacts@ == Map::<Seq<u8>, Seq<u8>>::empty(),
    {
        let contacts = ContactRegistry { entries: Vec::new() };
        assert(contacts@ =~= Map::<Seq<u8>, Seq<u8>>::empty());
        contacts
    }

    /// The number of registered contacts.
    pub fn len(&self) -> (len: usize)
        ensures
            self@.dom().finite(),
            len == self@.dom().len(),
    {
        proof {
            use_type_invariant(self);
            lemma_registry_size(self.entries@);
        }
        self.entries.len()
    }

    /// Whether no contact is registered.
    pub fn is_empty(&self) -> (empty: bool)
        ensures
            empty == (self@ == Map::<Seq<u8>, Seq<u8>>::empty()),
    {
        proof {
            use_type_invariant(self);
            lemma_registry_size(self.entries@);
            if self.entries@.len() == 0 {
                assert(self@ =~= Map::<Seq<u8>, Seq<u8>>::empty());
            }
        }
        self.entries.len() == 0
    }

    /// The place of the entry that carries `identifier`, if there is one.
    fn find(&self, identifier: &ProfileIdentifier) -> (found: Option<usize>)
        ensures
            match found {
                Some(i) => i < self.entries@.len() && self.entries@[i as int]@.identifier
                    == identifier@,
                None => !holds(self.entries@, identifier@),
            },
    {
        let mut i: usize = 0;
        while i < self.entries.len()
            invariant
                i <= self.entries@.len(),
                forall|j: int| 0 <= j < i ==> (#[trigger] self.entries@[j])@.identifier
                    != identifier@,
            decreases self.entries@.len() - i,
        {
            if self.entries[i].identifier().same_as(identifier) {
                return Some(i);
            }
            i += 1;
        }
        None
    }

    /// The contact registered under `identifier`. Fails with
    /// `UnknownContact` exactly when there is none; a lookup never registers
    /// anything.
    pub fn get(&self, identifier: &ProfileIdentifier) -> (found: Result<&Contact, OckamError>)
        ensures
            match found {
                Ok(contact) => self@.dom().contains(identifier@) && contact@ == (ContactView {
                    identifier: identifier@,
                    public_key: self@[identifier@],
                }),
                Err(error) => !self@.dom().contains(identifier@) && error
                    == OckamError::UnknownContact,
            },
    {
        proof {
            use_type_invariant(self);
        }
        match self.find(identifier) {
            Some(i) => {
                proof {
                    lemma_entry_is_registered(self.entries@, i as int);
                }
                Ok(&self.entries[i])
            },
            None => Err(OckamError::UnknownContact),
        }
    }

    /// Whether a contact is registered under `identifier`.
    pub fn contains(&self, identifier: &ProfileIdentifier) -> (registered: bool)
        ensures
            registered == self@.dom().contains(identifier@),
    {
        self.get(identifier).is_ok()
    }

    /// Registers `contact` after checking with the vault that its identifier
    /// is the digest of its key.
    ///
    /// Fails, and leaves the registry as it was, when the vault fails, when
    /// the identifier is not that digest (`VerifyFailed`), or when the
    /// identifier is registered with another key (`DuplicateContact`).
    pub fn add_contact<V: ProfileVault>(&mut self, contact: Contact, vault: &V) -> (outcome:
        Result<(), OckamError>)
        ensures
            exists|digest: Result<[u8; 32], VaultError>| #[trigger]
                V::sha256_yields(contact@.public_key, digest) && match admission(
                    old(self)@,
                    contact@,
                    digest,
                ) {
                    Ok(registry) => outcome is Ok && final(self)@ == registry,
                    Err(error) => outcome == Err::<(), OckamError>(error) && final(self)@ == old(
                        self,
                    )@,
                },
    {
        let digest = vault.sha256(contact.public_key().as_slice());
        self.add_contact_with_digest(contact, digest)
    }

    /// Registers `contact`, given the digest of its key.
    pub fn add_contact_with_digest(
        &mut self,
        contact: Contact,
        digest: Result<[u8; 32], VaultError>,
    ) -> (outcome: Result<(), OckamError>)
        ensures
            match admission(old(self)@, contact@, digest) {
                Ok(registry) => outcome is Ok && final(self)@ == registry,
                Err(error) => outcome == Err::<(), OckamError>(error) && final(self)@ == old(
                    self,
                )@,
            },
    {
        proof {
            use_type_invariant(&*self);
        }
        contact.verify_with_digest(digest)?;
        match self.find(contact.identifier()) {
            Some(i) => {
                proof {
                    lemma_entry_is_registered(self.entries@, i as int);
                }
                if crate::bytes::equal(
                    self.entries[i].public_key().as_slice(),
                    contact.public_key().as_slice(),
                ) {
                    Ok(())
                } else {
                    Err(OckamError::DuplicateContact)
                }
            },
            None => {
                proof {
                    lemma_push_registers(self.entries@, contact);
                }
                let mut entries: Vec<Contact> = Vec::new();
                core::mem::swap(&mut self.entries, &mut entries);
                entries.push(contact);
                core::mem::swap(&mut self.entries, &mut entries);
                Ok(())
            },
        }
    }

    /// Draws a nonce from the vault and returns the request that carries it.
    pub fn generate_attestation_request<V: ProfileVault>(&self, vault: &mut V) -> (request: Result<
        Vec<u8>,
        OckamError,
    >)
        ensures
            exists|drawn: Result<[u8; 16], VaultError>| #[trigger]
                old(vault).random_bytes_yields(16, drawn_bytes(drawn), final(vault)) && wire(
                    request,
                ) == request_from(drawn_bytes(drawn)),
    {
        Attestation::generate_attestation_request(vault)
    }

    /// Verifies the response in `response_data` to the request in
    /// `request_data`, as the verifier `requester_profile_id` checking the
    /// claimant registered under `responder_profile_id`.
    ///
    /// A claimant that is not registered is refused before anything else is
    /// looked at. The key that the signature is held against is the one
    /// registered for the claimant.
    pub fn verify_attestation_response<V: ProfileVault>(
        &self,
        requester_profile_id: &ProfileIdentifier,
        request_data: &[u8],
        responder_profile_id: &ProfileIdentifier,
        response_data: &[u8],
        vault: &mut V,
    ) -> (outcome: Result<(), OckamError>)
        ensures
            *final(vault) == *old(vault),
            !self@.dom().contains(responder_profile_id@) ==> outcome == Err::<(), OckamError>(
                OckamError::UnknownContact,
            ),
            self@.dom().contains(responder_profile_id@) ==> verification::<V>(
                requester_profile_id@,
                request_data@,
                self@[responder_profile_id@],
                response_data@,
                outcome,
            ),
    {
        let contact = self.get(responder_profile_id)?;
        Attestation::verify_attestation_response(
            requester_profile_id,
            request_data,
            contact.public_key(),
            response_data,
            vault,
        )
    }
}

} // verus!
