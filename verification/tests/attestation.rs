use ockam::attestation::{Attestation, AttestationRequest, AttestationResponse};
use ockam::contacts::Contacts;
use ockam::error::{OckamError, VaultError};
use ockam::identifier::ProfileIdentifier;
use ockam::profile::{Contact, Profile};
use ockam::vault::{ProfileVault, PublicKey, Secret};
use std::cell::Cell;

/// A vault for tests. Its "signature" is a keyed checksum that anyone holding
/// the public key can compute: good enough to tell a right signature from a
/// wrong one, and nothing more.
struct TestVault {
    keys: Vec<[u8; 32]>,
    state: u64,
    random_fails: bool,
    sign_fails: bool,
    verify_fails: bool,
    nonces_drawn: usize,
    signatures_made: usize,
    verifications_run: Cell<usize>,
}

fn next(state: &mut u64) -> u64 {
    *state = state.wrapping_add(0x9e37_79b9_7f4a_7c15);
    let mut z = *state;
    z = (z ^ (z >> 30)).wrapping_mul(0xbf58_476d_1ce4_e5b9);
    z = (z ^ (z >> 27)).wrapping_mul(0x94d0_49bb_1331_11eb);
    z ^ (z >> 31)
}

fn checksum(label: u8, parts: &[&[u8]]) -> [u8; 32] {
    let mut out = [0u8; 32];
    for lane in 0..4u8 {
        let mut h: u64 = 0xcbf2_9ce4_8422_2325 ^ (u64::from(label) << 8) ^ u64::from(lane);
        for part in parts {
            for byte in part.iter() {
                h = (h ^ u64::from(*byte)).wrapping_mul(0x0000_0100_0000_01b3);
            }
            h = (h ^ 0xff).wrapping_mul(0x0000_0100_0000_01b3);
        }
        h ^= h >> 29;
        h = h.wrapping_mul(0xbf58_476d_1ce4_e5b9);
        h ^= h >> 32;
        let start = usize::from(lane) * 8;
        out[start..start + 8].copy_from_slice(&h.to_le_bytes());
    }
    out
}

fn public_half(key: &[u8; 32]) -> Vec<u8> {
    checksum(1, &[key]).to_vec()
}

fn signature_under(public_key: &[u8], message: &[u8]) -> [u8; 64] {
    let mut out = [0u8; 64];
    out[..32].copy_from_slice(&checksum(2, &[public_key, message]));
    out[32..].copy_from_slice(&checksum(3, &[public_key, message]));
    out
}

impl TestVault {
    fn new(seed: u64) -> TestVault {
        TestVault {
            keys: Vec::new(),
            state: seed,
            random_fails: false,
            sign_fails: false,
            verify_fails: false,
            nonces_drawn: 0,
            signatures_made: 0,
            verifications_run: Cell::new(0),
        }
    }
}

impl ProfileVault for TestVault {
    fn secret_generate(&mut self) -> Result<Secret, VaultError> {
        let mut key = [0u8; 32];
        for chunk in key.chunks_mut(8) {
            chunk.copy_from_slice(&next(&mut self.state).to_le_bytes());
        }
        self.keys.push(key);
        Ok(Secret::new(self.keys.len() - 1))
    }

    fn secret_public_key_get(&self, secret: &Secret) -> Result<PublicKey, VaultError> {
        match self.keys.get(secret.index()) {
            Some(key) => Ok(PublicKey::new(public_half(key))),
            None => Err(VaultError { code: 2 }),
        }
    }

    fn sha256(&self, data: &[u8]) -> Result<[u8; 32], VaultError> {
        Ok(checksum(4, &[data]))
    }

    fn random_bytes<const N: usize>(&mut self) -> Result<[u8; N], VaultError> {
        if self.random_fails {
            return Err(VaultError { code: 7 });
        }
        self.nonces_drawn += 1;
        let mut out = [0u8; N];
        for byte in out.iter_mut() {
            *byte = next(&mut self.state).to_le_bytes()[0];
        }
        Ok(out)
    }

    fn sign(&mut self, secret: &Secret, message: &[u8]) -> Result<[u8; 64], VaultError> {
        if self.sign_fails {
            return Err(VaultError { code: 3 });
        }
        self.signatures_made += 1;
        match self.keys.get(secret.index()) {
            Some(key) => Ok(signature_under(&public_half(key), message)),
            None => Err(VaultError { code: 2 }),
        }
    }

    fn verify(
        &self,
        signature: &[u8; 64],
        public_key: &[u8],
        message: &[u8],
    ) -> Result<bool, VaultError> {
        if self.verify_fails {
            return Err(VaultError { code: 5 });
        }
        self.verifications_run.set(self.verifications_run.get() + 1);
        Ok(signature_under(public_key, message) == *signature)
    }
}

/// Two profiles that know each other, and the vault they share.
struct Pair {
    vault: TestVault,
    profile_a: Profile,
    profile_b: Profile,
    contacts_a: Contacts,
    contacts_b: Contacts,
}

fn pair() -> Pair {
    let mut vault = TestVault::new(42);
    let mut contacts_a = Contacts::new();
    let mut contacts_b = Contacts::new();
    let profile_a = Profile::create(&mut vault).unwrap();
    let profile_b = Profile::create(&mut vault).unwrap();
    contacts_a.add_contact(profile_b.to_contact(), &mut vault).unwrap();
    contacts_b.add_contact(profile_a.to_contact(), &mut vault).unwrap();
    Pair { vault, profile_a, profile_b, contacts_a, contacts_b }
}

#[test]
fn request_carries_the_nonce_that_the_vault_drew() {
    let mut vault = TestVault::new(9);
    let mut twin = TestVault::new(9);
    let expected: [u8; 16] = twin.random_bytes::<16>().unwrap();

    let request = Attestation::generate_attestation_request(&mut vault).unwrap();

    assert_eq!(request, expected.to_vec());
    assert_eq!(vault.nonces_drawn, 1);
    assert_ne!(request, vec![0u8; 16]);
}

#[test]
fn two_requests_carry_different_nonces() {
    let mut vault = TestVault::new(9);
    let first = Attestation::generate_attestation_request(&mut vault).unwrap();
    let second = Attestation::generate_attestation_request(&mut vault).unwrap();
    assert_ne!(first, second);
}

#[test]
fn request_fails_when_the_vault_cannot_draw() {
    let mut vault = TestVault::new(9);
    vault.random_fails = true;
    let request = Attestation::generate_attestation_request(&mut vault);
    assert_eq!(request, Err(OckamError::VaultError(VaultError { code: 7 })));
}

#[test]
fn request_with_nonce_takes_either_outcome() {
    let nonce: [u8; 16] = [3, 1, 4, 1, 5, 9, 2, 6, 5, 3, 5, 8, 9, 7, 9, 3];
    assert_eq!(Attestation::request_with_nonce(Ok(nonce)), Ok(nonce.to_vec()));
    assert_eq!(
        Attestation::request_with_nonce(Err(VaultError { code: 11 })),
        Err(OckamError::VaultError(VaultError { code: 11 }))
    );
}

#[test]
fn response_echoes_the_nonce_and_names_the_requester() {
    let mut p = pair();
    let request = p.contacts_a.generate_attestation_request(&mut p.vault).unwrap();
    let id_a = *p.profile_a.identifier();

    let bytes = p
        .profile_b
        .generate_attestation_response(&request, id_a, &mut p.vault)
        .unwrap();
    let response = AttestationResponse::deserialize(&bytes).unwrap();

    assert_eq!(bytes.len(), 112);
    assert_eq!(response.data().nonce().to_vec(), request);
    assert_eq!(response.data().requester_profile_id(), &id_a);
    let signed = response.data().serialize();
    let key = p.profile_b.public_key().as_slice().to_vec();
    assert_eq!(*response.signature(), signature_under(&key, &signed));
}

#[test]
fn response_to_a_malformed_request_is_refused_before_signing() {
    let mut p = pair();
    let id_a = *p.profile_a.identifier();
    let made_before = p.vault.signatures_made;

    let outcome = p.profile_b.generate_attestation_response(&[1u8; 15], id_a, &mut p.vault);

    assert_eq!(outcome, Err(OckamError::MalformedRequest));
    assert!(outcome.unwrap_err().is_encoding_error());
    assert_eq!(p.vault.signatures_made, made_before);
}

#[test]
fn response_fails_when_the_vault_cannot_sign() {
    let mut p = pair();
    let request = p.contacts_a.generate_attestation_request(&mut p.vault).unwrap();
    let id_a = *p.profile_a.identifier();
    p.vault.sign_fails = true;

    let outcome = p.profile_b.generate_attestation_response(&request, id_a, &mut p.vault);

    assert_eq!(outcome, Err(OckamError::VaultError(VaultError { code: 3 })));
}

#[test]
fn response_with_an_unknown_secret_reports_the_vault() {
    let mut vault = TestVault::new(5);
    let id = ProfileIdentifier::from_hash([8u8; 32]);
    let outcome =
        Attestation::generate_attestation_response(&[0u8; 16], id, &Secret::new(99), &mut vault);
    assert_eq!(outcome, Err(OckamError::VaultError(VaultError { code: 2 })));
}

#[test]
fn answer_to_builds_the_signed_part() {
    let nonce: [u8; 16] = [9, 8, 7, 6, 5, 4, 3, 2, 1, 0, 1, 2, 3, 4, 5, 6];
    let id = ProfileIdentifier::from_hash([0x5a; 32]);

    let data = Attestation::answer_to(&nonce, id).unwrap();

    assert_eq!(data.nonce(), &nonce);
    assert_eq!(data.requester_profile_id(), &id);
    assert_eq!(
        Attestation::answer_to(&nonce[..15], id).unwrap_err(),
        OckamError::MalformedRequest
    );
}

#[test]
fn response_with_signature_takes_either_outcome() {
    let nonce: [u8; 16] = [1; 16];
    let id = ProfileIdentifier::from_hash([2; 32]);
    let signature = [3u8; 64];

    let data = Attestation::answer_to(&nonce, id).unwrap();
    let bytes = Attestation::response_with_signature(data, Ok(signature)).unwrap();
    let mut expected = vec![1u8; 16];
    expected.extend_from_slice(&[2u8; 32]);
    expected.extend_from_slice(&[3u8; 64]);
    assert_eq!(bytes, expected);

    let data = Attestation::answer_to(&nonce, id).unwrap();
    assert_eq!(
        Attestation::response_with_signature(data, Err(VaultError { code: 4 })),
        Err(OckamError::VaultError(VaultError { code: 4 }))
    );
}

#[test]
fn response_for_one_requester_fails_for_every_other() {
    let mut p = pair();
    let request = p.contacts_a.generate_attestation_request(&mut p.vault).unwrap();
    let id_a = *p.profile_a.identifier();
    let id_b = *p.profile_b.identifier();
    let key_b = p.profile_b.public_key().clone();
    let response = p
        .profile_b
        .generate_attestation_response(&request, id_a, &mut p.vault)
        .unwrap();
    let run_before = p.vault.verifications_run.get();

    for other in [id_b, ProfileIdentifier::from_hash([0u8; 32]), ProfileIdentifier::from_hash([0xff; 32])] {
        assert_ne!(other, id_a);
        let outcome = Attestation::verify_attestation_response(
            &other,
            &request,
            &key_b,
            &response,
            &mut p.vault,
        );
        assert_eq!(outcome, Err(OckamError::AttestationRequesterDoesntMatch));
    }
    assert_eq!(p.vault.verifications_run.get(), run_before);

    let mut nearly = *id_a.as_bytes();
    nearly[31] ^= 1;
    let outcome = Attestation::verify_attestation_response(
        &ProfileIdentifier::from_hash(nearly),
        &request,
        &key_b,
        &response,
        &mut p.vault,
    );
    assert_eq!(outcome, Err(OckamError::AttestationRequesterDoesntMatch));
}

#[test]
fn response_replayed_against_a_new_request_fails() {
    let mut p = pair();
    let id_a = *p.profile_a.identifier();
    let id_b = *p.profile_b.identifier();
    let request = p.contacts_a.generate_attestation_request(&mut p.vault).unwrap();
    let response = p
        .profile_b
        .generate_attestation_response(&request, id_a, &mut p.vault)
        .unwrap();
    p.contacts_a
        .verify_attestation_response(&id_a, &request, &id_b, &response, &mut p.vault)
        .unwrap();

    let later = p.contacts_a.generate_attestation_request(&mut p.vault).unwrap();
    assert_ne!(later, request);
    let run_before = p.vault.verifications_run.get();
    let outcome =
        p.contacts_a.verify_attestation_response(&id_a, &later, &id_b, &response, &mut p.vault);

    assert_eq!(outcome, Err(OckamError::AttestationNonceDoesntMatch));
    assert!(outcome.unwrap_err().is_verification_failure());
    assert_eq!(p.vault.verifications_run.get(), run_before);
}

#[test]
fn flipping_any_bit_of_the_signature_fails_verification() {
    let mut p = pair();
    let id_a = *p.profile_a.identifier();
    let id_b = *p.profile_b.identifier();
    let request = p.contacts_a.generate_attestation_request(&mut p.vault).unwrap();
    let response = p
        .profile_b
        .generate_attestation_response(&request, id_a, &mut p.vault)
        .unwrap();

    for bit in 0..512usize {
        let mut tampered = response.clone();
        tampered[48 + bit / 8] ^= 1 << (bit % 8);
        let outcome = p.contacts_a.verify_attestation_response(
            &id_a,
            &request,
            &id_b,
            &tampered,
            &mut p.vault,
        );
        assert_eq!(outcome, Err(OckamError::SignatureInvalid), "bit {}", bit);
    }
    p.contacts_a
        .verify_attestation_response(&id_a, &request, &id_b, &response, &mut p.vault)
        .unwrap();
}

#[test]
fn response_signed_with_another_secret_fails_verification() {
    let mut p = pair();
    let id_a = *p.profile_a.identifier();
    let id_b = *p.profile_b.identifier();
    let request = p.contacts_a.generate_attestation_request(&mut p.vault).unwrap();
    let stranger = p.vault.secret_generate().unwrap();

    let forged =
        Attestation::generate_attestation_response(&request, id_a, &stranger, &mut p.vault)
            .unwrap();
    let outcome =
        p.contacts_a.verify_attestation_response(&id_a, &request, &id_b, &forged, &mut p.vault);

    assert_eq!(outcome, Err(OckamError::SignatureInvalid));
}

#[test]
fn response_with_a_garbage_requester_is_refused() {
    let mut p = pair();
    let id_a = *p.profile_a.identifier();
    let id_b = *p.profile_b.identifier();
    let request = p.contacts_a.generate_attestation_request(&mut p.vault).unwrap();
    let response = p
        .profile_b
        .generate_attestation_response(&request, id_a, &mut p.vault)
        .unwrap();
    p.contacts_a
        .verify_attestation_response(&id_a, &request, &id_b, &response, &mut p.vault)
        .unwrap();

    let mut garbled = response.clone();
    garbled[16..48].copy_from_slice(&[0xabu8; 32]);
    let outcome =
        p.contacts_a.verify_attestation_response(&id_a, &request, &id_b, &garbled, &mut p.vault);
    assert_eq!(outcome, Err(OckamError::AttestationRequesterDoesntMatch));

    let mut shortened = response[..16].to_vec();
    shortened.extend_from_slice(&[0xabu8; 31]);
    shortened.extend_from_slice(&response[48..]);
    let outcome = p.contacts_a.verify_attestation_response(
        &id_a,
        &request,
        &id_b,
        &shortened,
        &mut p.vault,
    );
    assert_eq!(outcome, Err(OckamError::EncodingError));
}

#[test]
fn verification_checks_in_order() {
    let mut p = pair();
    let id_a = *p.profile_a.identifier();
    let id_b = *p.profile_b.identifier();
    let key_b = p.profile_b.public_key().clone();
    let request = p.contacts_a.generate_attestation_request(&mut p.vault).unwrap();
    let response = p
        .profile_b
        .generate_attestation_response(&request, id_a, &mut p.vault)
        .unwrap();
    let other_request = vec![0x11u8; 16];

    let verify = |vault: &mut TestVault, id: &ProfileIdentifier, request: &[u8], response: &[u8]| {
        Attestation::verify_attestation_response(id, request, &key_b, response, vault)
    };

    // a response that does not parse comes before a request that does not
    assert_eq!(
        verify(&mut p.vault, &id_a, &request[..3], &response[..111]),
        Err(OckamError::EncodingError)
    );
    assert_eq!(
        verify(&mut p.vault, &id_a, &request[..3], &response),
        Err(OckamError::MalformedRequest)
    );
    // the requester comes before the nonce
    assert_eq!(
        verify(&mut p.vault, &id_b, &other_request, &response),
        Err(OckamError::AttestationRequesterDoesntMatch)
    );
    // the nonce comes before the signature
    let mut tampered = response.clone();
    tampered[111] ^= 0x80;
    assert_eq!(
        verify(&mut p.vault, &id_a, &other_request, &tampered),
        Err(OckamError::AttestationNonceDoesntMatch)
    );
    assert_eq!(verify(&mut p.vault, &id_a, &request, &tampered), Err(OckamError::SignatureInvalid));
    assert_eq!(verify(&mut p.vault, &id_a, &request, &response), Ok(()));
}

#[test]
fn verification_reports_a_failing_vault() {
    let mut p = pair();
    let id_a = *p.profile_a.identifier();
    let id_b = *p.profile_b.identifier();
    let request = p.contacts_a.generate_attestation_request(&mut p.vault).unwrap();
    let response = p
        .profile_b
        .generate_attestation_response(&request, id_a, &mut p.vault)
        .unwrap();
    p.vault.verify_fails = true;

    let outcome =
        p.contacts_a.verify_attestation_response(&id_a, &request, &id_b, &response, &mut p.vault);

    assert_eq!(outcome, Err(OckamError::VaultError(VaultError { code: 5 })));
}

#[test]
fn verification_of_an_unknown_claimant_is_refused() {
    let mut p = pair();
    let id_a = *p.profile_a.identifier();
    let request = p.contacts_a.generate_attestation_request(&mut p.vault).unwrap();
    let response = p
        .profile_b
        .generate_attestation_response(&request, id_a, &mut p.vault)
        .unwrap();
    let stranger = ProfileIdentifier::from_hash([0x77; 32]);

    let outcome = p.contacts_a.verify_attestation_response(
        &id_a,
        &request,
        &stranger,
        &response,
        &mut p.vault,
    );

    assert_eq!(outcome, Err(OckamError::UnknownContact));
}

#[test]
fn verification_ignores_bytes_after_the_messages() {
    let mut p = pair();
    let id_a = *p.profile_a.identifier();
    let id_b = *p.profile_b.identifier();
    let mut request = p.contacts_a.generate_attestation_request(&mut p.vault).unwrap();
    let mut response = p
        .profile_b
        .generate_attestation_response(&request, id_a, &mut p.vault)
        .unwrap();
    request.extend_from_slice(&[1, 2, 3]);
    response.extend_from_slice(&[4, 5]);

    p.contacts_a
        .verify_attestation_response(&id_a, &request, &id_b, &response, &mut p.vault)
        .unwrap();
}

#[test]
fn examine_hands_back_the_response_to_verify() {
    let nonce: [u8; 16] = [6; 16];
    let id = ProfileIdentifier::from_hash([7; 32]);
    let mut response = vec![6u8; 16];
    response.extend_from_slice(&[7u8; 32]);
    response.extend_from_slice(&[8u8; 64]);

    let examined = Attestation::examine(&id, &nonce, &response).unwrap();

    assert_eq!(examined.data().nonce(), &nonce);
    assert_eq!(examined.data().requester_profile_id(), &id);
    assert_eq!(examined.signature(), &[8u8; 64]);
    assert_eq!(examined.data().serialize(), response[..48].to_vec());
}

#[test]
fn conclude_maps_every_answer() {
    assert_eq!(Attestation::conclude(Ok(true)), Ok(()));
    assert_eq!(Attestation::conclude(Ok(false)), Err(OckamError::SignatureInvalid));
    assert_eq!(
        Attestation::conclude(Err(VaultError { code: 21 })),
        Err(OckamError::VaultError(VaultError { code: 21 }))
    );
}

#[test]
fn profile_is_named_by_the_digest_of_its_key() {
    let mut vault = TestVault::new(3);
    let profile = Profile::create(&mut vault).unwrap();

    let digest = vault.sha256(profile.public_key().as_slice()).unwrap();
    assert_eq!(profile.identifier().as_bytes(), &digest);

    let contact = profile.to_contact();
    assert_eq!(contact.identifier(), profile.identifier());
    assert_eq!(contact.public_key(), profile.public_key());
    assert_eq!(contact.verify(&mut vault), Ok(()));
}

#[test]
fn profiles_of_one_vault_differ() {
    let mut vault = TestVault::new(3);
    let first = Profile::create(&mut vault).unwrap();
    let second = Profile::create(&mut vault).unwrap();
    assert_ne!(first.identifier(), second.identifier());
    assert_ne!(first.public_key(), second.public_key());
}

#[test]
fn contact_with_a_foreign_key_does_not_verify() {
    let mut vault = TestVault::new(3);
    let profile = Profile::create(&mut vault).unwrap();
    let contact = Contact::new(*profile.identifier(), PublicKey::new(vec![1, 2, 3]));

    assert_eq!(contact.verify(&mut vault), Err(OckamError::VerifyFailed));
    assert_eq!(contact.verify_with_digest(Ok(*profile.identifier().as_bytes())), Ok(()));
    assert_eq!(
        contact.verify_with_digest(Err(VaultError { code: 1 })),
        Err(OckamError::VaultError(VaultError { code: 1 }))
    );
}

#[test]
fn registry_keeps_the_first_key_seen() {
    let mut vault = TestVault::new(8);
    let mut contacts = Contacts::new();
    assert!(contacts.is_empty());
    let profile = Profile::create(&mut vault).unwrap();
    let id = *profile.identifier();

    assert_eq!(contacts.get(&id).unwrap_err(), OckamError::UnknownContact);
    assert!(!contacts.contains(&id));

    contacts.add_contact(profile.to_contact(), &mut vault).unwrap();
    assert_eq!(contacts.len(), 1);
    assert!(contacts.contains(&id));
    assert_eq!(contacts.get(&id).unwrap().public_key(), profile.public_key());

    // the same contact again changes nothing
    contacts.add_contact(profile.to_contact(), &mut vault).unwrap();
    assert_eq!(contacts.len(), 1);

    // another key under the same identifier is refused; the digest is given
    // by hand, since no honest vault would vouch for it
    let impostor = Contact::new(id, PublicKey::new(vec![9u8; 32]));
    assert_eq!(
        contacts.add_contact_with_digest(impostor, Ok(*id.as_bytes())),
        Err(OckamError::DuplicateContact)
    );
    assert_eq!(contacts.len(), 1);
    assert_eq!(contacts.get(&id).unwrap().public_key(), profile.public_key());
}

#[test]
fn registry_refuses_a_contact_that_does_not_verify() {
    let mut vault = TestVault::new(8);
    let mut contacts = Contacts::new();
    let profile = Profile::create(&mut vault).unwrap();
    let impostor = Contact::new(*profile.identifier(), PublicKey::new(vec![9u8; 32]));

    assert_eq!(contacts.add_contact(impostor, &mut vault), Err(OckamError::VerifyFailed));
    assert!(contacts.is_empty());
    assert_eq!(
        contacts.add_contact_with_digest(profile.to_contact(), Err(VaultError { code: 6 })),
        Err(OckamError::VaultError(VaultError { code: 6 }))
    );
    assert!(contacts.is_empty());
}

#[test]
fn registry_holds_many_contacts() {
    let mut vault = TestVault::new(8);
    let mut contacts = Contacts::new();
    let mut profiles = Vec::new();
    for _ in 0..5 {
        let profile = Profile::create(&mut vault).unwrap();
        contacts.add_contact(profile.to_contact(), &mut vault).unwrap();
        profiles.push(profile);
    }
    assert_eq!(contacts.len(), 5);
    for profile in profiles.iter().rev() {
        let found = contacts.get(profile.identifier()).unwrap();
        assert_eq!(found.identifier(), profile.identifier());
        assert_eq!(found.public_key(), profile.public_key());
    }
}

#[test]
fn request_round_trip() {
    let nonces: [[u8; 16]; 4] = [
        [0u8; 16],
        [0xff; 16],
        [0, 1, 2, 3, 4, 5, 6, 7, 8, 9, 10, 11, 12, 13, 14, 15],
        [0x80, 0, 0x7f, 1, 0xfe, 2, 0x55, 3, 0xaa, 4, 0x10, 5, 0x01, 6, 0xc3, 7],
    ];
    for nonce in nonces {
        let bytes = AttestationRequest::new(nonce).serialize();
        assert_eq!(bytes, nonce.to_vec());
        let back = AttestationRequest::deserialize(&bytes).unwrap();
        assert_eq!(back.nonce(), &nonce);
    }
}
