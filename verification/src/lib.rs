//! Decentralized identity for two parties that trust no central authority:
//! profiles and contacts, the nonce-based attestation exchange that proves
//! possession of a signing key, and the roles of an X3DH-style key exchange.
//!
//! Every cryptographic primitive is reached through a vault capability; the
//! rules of the protocols, and the bytes they put on the wire, live here.

pub mod attestation;
pub mod bytes;
pub mod contacts;
pub mod error;
pub mod identifier;
pub mod new_key_exchanger;
pub mod profile;
pub mod vault;
pub mod worker;

pub use attestation::{
    Attestation, AttestationRequest, AttestationResponse, AttestationResponseData,
};
pub use contacts::{ContactRegistry, Contacts};
pub use error::{OckamError, VaultError};
pub use identifier::ProfileIdentifier;
pub use new_key_exchanger::{Initiator, Responder, X3dhNewKeyExchanger};
pub use profile::{Contact, Profile};
pub use vault::{ProfileVault, PublicKey, Secret, X3dhVault};
pub use worker::Worker;
