//! The two roles of an X3DH-style key exchange, and the factory that makes
//! them.
//!
//! A role is bound to a vault through a handle that several owners share: the
//! vault sits behind a lock, and every owner holds a counted reference to it.

use std::sync::Arc;
use std::sync::Mutex;
use vstd::prelude::*;
use crate::vault::{Secret, X3dhVault};

verus! {

/// `std::sync::Mutex`, the lock that guards a shared vault. Nothing is said
/// of what it holds: the library carries the lock and never looks inside.
#[verifier::external_type_specification]
#[verifier::external_body]
#[verifier::reject_recursive_types(T)]
pub struct ExMutex<T: ?Sized>(Mutex<T>);

/// `Arc::clone` on a shared vault: one more reference to the same lock and
/// the same vault. No vault is copied.
#[verifier::external_body]
fn share<V>(vault: &Arc<Mutex<V>>) -> (shared: Arc<Mutex<V>>)
    ensures
        shared == *vault,
{
    Arc::clone(vault)
}

/// The role that opens a key exchange.
///
/// A role that has just been made has exchanged nothing: it holds its vault
/// and, where one was given, the handle of a long-term identity key. It holds
/// no shared secret, so it can be dropped at any time.
#[verifier::reject_recursive_types(V)]
pub struct Initiator<V: X3dhVault> {
    vault: Arc<Mutex<V>>,
    identity_key: Option<Secret>,
}

/// The role that answers a key exchange.
///
/// A role that has just been made has exchanged nothing: it holds its vault
/// and, where one was given, the handle of a long-term identity key. It holds
/// no shared secret, so it can be dropped at any time.
#[verifier::reject_recursive_types(V)]
pub struct Responder<V: X3dhVault> {
    vault: Arc<Mutex<V>>,
    identity_key: Option<Secret>,
}

impl<V: X3dhVault> Initiator<V> {
    /// The vault that the role works with.
    pub closed spec fn spec_vault(&self) -> Arc<Mutex<V>> {
        self.vault
    }

    /// The handle of the identity key, where the role was given one.
    pub closed spec fn spec_identity_key(&self) -> Option<Secret> {
        self.identity_key
    }

    /// An initiator bound to `vault`, with the identity key it should use if
    /// it has one already.
    pub fn new(vault: Arc<Mutex<V>>, identity_key: Option<Secret>) -> (role: Initiator<V>)
        ensures
            role.spec_vault() == vault,
            role.spec_identity_key() == identity_key,
    {
        Initiator { vault, identity_key }
    }

    /// The vault that the role works with.
    pub fn vault(&self) -> (vault: &Arc<Mutex<V>>)
        ensures
            *vault == self.spec_vault(),
    {
        &self.vault
    }

    /// The handle of the identity key, where the role was given one.
    pub fn identity_key(&self) -> (identity_key: &Option<Secret>)
        ensures
            *identity_key == self.spec_identity_key(),
    {
        &self.identity_key
    }
}

impl<V: X3dhVault> Responder<V> {
    /// The vault that the role works with.
    pub closed spec fn spec_vault(&self) -> Arc<Mutex<V>> {
        self.vault
    }

    /// The handle of the identity key, where the role was given one.
    pub closed spec fn spec_identity_key(&self) -> Option<Secret> {
        self.identity_key
    }

    /// A responder bound to `vault`, with the identity key it should use if
    /// it has one already.
    pub fn new(vault: Arc<Mutex<V>>, identity_key: Option<Secret>) -> (role: Responder<V>)
        ensures
            role.spec_vault() == vault,
            role.spec_identity_key() == identity_key,
    {
        Responder { vault, identity_key }
    }

    /// The vault that the role works with.
    pub fn vault(&self) -> (vault: &Arc<Mutex<V>>)
        ensures
            *vault == self.spec_vault(),
    {
        &self.vault
    }

    /// The handle of the identity key, where the role was given one.
    pub fn identity_key(&self) -> (identity_key: &Option<Secret>)
        ensures
            *identity_key == self.spec_identity_key(),
    {
        &self.identity_key
    }
}

/// Makes the roles of a key exchange, each bound to its own vault.
///
/// The two vaults are independent: the initiator never sees the responder's
/// vault, nor the responder the initiator's.
#[verifier::reject_recursive_types(V)]
pub struct X3dhNewKeyExchanger<V: X3dhVault> {
    vault_initiator: Arc<Mutex<V>>,
    vault_responder: Arc<Mutex<V>>,
}

impl<V: X3dhVault> X3dhNewKeyExchanger<V> {
    /// The vault that initiators are bound to.
    pub closed spec fn spec_vault_initiator(&self) -> Arc<Mutex<V>> {
        self.vault_initiator
    }

    /// The vault that responders are bound to.
    pub closed spec fn spec_vault_responder(&self) -> Arc<Mutex<V>> {
        self.vault_responder
    }

    /// A factory whose initiators work with `vault_initiator` and whose
    /// responders work with `vault_responder`.
    pub fn new(vault_initiator: Arc<Mutex<V>>, vault_responder: Arc<Mutex<V>>) -> (exchanger:
        X3dhNewKeyExchanger<V>)
        ensures
            exchanger.spec_vault_initiator() == vault_initiator,
            exchanger.spec_vault_responder() == vault_responder,
    {
        X3dhNewKeyExchanger { vault_initiator, vault_responder }
    }

    /// A fresh initiator: bound to the initiators' vault, without an identity
    /// key of its own yet.
    pub fn initiator(&self) -> (role: Initiator<V>)
        ensures
            role.spec_vault() == self.spec_vault_initiator(),
            role.spec_identity_key() is None,
    {
        Initiator::new(share(&self.vault_initiator), None)
    }

    /// A fresh responder: bound to the responders' vault, without an identity
    /// key of its own yet.
    pub fn responder(&self) -> (role: Responder<V>)
        ensures
            role.spec_vault() == self.spec_vault_responder(),
            role.spec_identity_key() is None,
    {
        Responder::new(share(&self.vault_responder), None)
    }

    /// How the factory shows itself when printed: its name and the names of
    /// its two vaults, and nothing of what the vaults hold.
    pub fn debug_text(&self) -> (text: &'static str)
        ensures
            text@ == "X3dhNewKeyExchanger { vault_initiator, vault_responder }"@,
    {
        "X3dhNewKeyExchanger { vault_initiator, vault_responder }"
    }
}

} // verus!
