//! The capability interfaces the protocol consumes: the identity/trust
//! oracle and the three key-material stores. The core depends only on
//! these contracts, never on a concrete storage technology.
//!
//! Queries are modeled as total: their contracts fix the read results
//! exactly, so a storage layer whose reads can fail must surface that
//! before handing the protocol its values. The two mutating operations may
//! fail, with the callback-failure kind; the partial effects of a failed
//! write are that store's own consistency responsibility, so nothing is
//! promised of the written state on failure.

use vstd::prelude::*;
use crate::address::{AddressView, ProtocolAddress};
use crate::curve::{IdentityKey, IdentityKeyPair, KeyPair};
use crate::errors::SignalProtocolError;
use crate::state::{RecordView, SessionRecord};

verus! {

/// Whether a trust question is asked for keys we are about to send to, or
/// for keys we received from.
#[derive(Clone, Copy, PartialEq, Eq, Structural, Debug)]
pub enum Direction {
    Sending,
    Receiving,
}

/// The identity and trust oracle: answers whether an identity key is
/// trusted for an address, and persists identity keys. The trust policy
/// itself is the oracle's; the protocol only consults it.
pub trait IdentityKeyStore {
    /// Our long-term identity key pair.
    spec fn local_identity_spec(&self) -> IdentityKeyPair;

    /// Our registration id.
    spec fn local_registration_id_spec(&self) -> u32;

    /// The oracle's trust verdict for `key` at `addr` in `direction`.
    spec fn trusted_spec(&self, addr: AddressView, key: IdentityKey, direction: Direction) -> bool;

    /// The identity keys saved so far, by address.
    spec fn identities_spec(&self) -> Map<AddressView, IdentityKey>;

    fn get_identity_key_pair(&self) -> (r: IdentityKeyPair)
        ensures
            r == self.local_identity_spec(),
    ;

    fn get_local_registration_id(&self) -> (r: u32)
        ensures
            r == self.local_registration_id_spec(),
    ;

    fn is_trusted_identity(
        &self,
        addr: &ProtocolAddress,
        key: &IdentityKey,
        direction: Direction,
    ) -> (r: bool)
        ensures
            r == self.trusted_spec(addr@, *key, direction),
    ;

    /// Record `key` as the identity for `addr`. On success, returns
    /// whether this replaced a different key already on file.
    fn save_identity(&mut self, addr: &ProtocolAddress, key: &IdentityKey) -> (r: Result<
        bool,
        SignalProtocolError,
    >)
        ensures
            final(self).local_identity_spec() == old(self).local_identity_spec(),
            final(self).local_registration_id_spec() == old(self).local_registration_id_spec(),
            r matches Ok(replaced) ==> final(self).identities_spec() == old(
                self,
            ).identities_spec().insert(addr@, *key) && replaced == (old(
                self,
            ).identities_spec().contains_key(addr@) && old(self).identities_spec()[addr@] != *key),
            r matches Err(e) ==> e == SignalProtocolError::ApplicationCallbackError,
    ;
}

/// The one-time pre-key store. Absence of an id is an error only when a
/// message references that id.
pub trait PreKeyStore {
    /// The one-time pre-keys on file, by id.
    spec fn pre_keys_spec(&self) -> Map<u32, KeyPair>;

    fn get_pre_key(&self, id: u32) -> (r: Result<KeyPair, SignalProtocolError>)
        ensures
            match r {
                Ok(kp) => self.pre_keys_spec().contains_key(id) && kp == self.pre_keys_spec()[id],
                Err(e) => !self.pre_keys_spec().contains_key(id) && e
                    == SignalProtocolError::InvalidPreKeyId,
            },
    ;
}

/// The signed pre-key store. Absence of a referenced id is fatal.
pub trait SignedPreKeyStore {
    /// The signed pre-keys on file, by id.
    spec fn signed_pre_keys_spec(&self) -> Map<u32, KeyPair>;

    fn get_signed_pre_key(&self, id: u32) -> (r: Result<KeyPair, SignalProtocolError>)
        ensures
            match r {
                Ok(kp) => self.signed_pre_keys_spec().contains_key(id) && kp
                    == self.signed_pre_keys_spec()[id],
                Err(e) => !self.signed_pre_keys_spec().contains_key(id) && e
                    == SignalProtocolError::InvalidSignedPreKeyId,
            },
    ;
}

/// The session store. A missing record means a fresh, never-established
/// session.
pub trait SessionStore {
    /// The records on file, by address.
    spec fn sessions_spec(&self) -> Map<AddressView, RecordView>;

    fn load_session(&self, addr: &ProtocolAddress) -> (r: Option<SessionRecord>)
        ensures
            match r {
                Some(rec) => self.sessions_spec().contains_key(addr@) && rec@
                    == self.sessions_spec()[addr@],
                None => !self.sessions_spec().contains_key(addr@),
            },
    ;

    fn store_session(&mut self, addr: &ProtocolAddress, record: &SessionRecord) -> (r: Result<
        (),
        SignalProtocolError,
    >)
        ensures
            r is Ok ==> final(self).sessions_spec() == old(self).sessions_spec().insert(
                addr@,
                record@,
            ),
            r matches Err(e) ==> e == SignalProtocolError::ApplicationCallbackError,
    ;
}

} // verus!
