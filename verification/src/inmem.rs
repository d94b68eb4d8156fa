//! In-memory store implementations: the reference implementations of the
//! store and oracle interfaces, with trust-on-first-use as the trust
//! policy. They make the protocol runnable and testable without any
//! persistence technology.

use vstd::prelude::*;
use crate::address::{AddressView, ProtocolAddress};
use crate::curve::{IdentityKey, IdentityKeyPair, KeyPair};
use crate::errors::SignalProtocolError;
use crate::state::{RecordView, SessionRecord};
use crate::stores::{Direction, IdentityKeyStore, PreKeyStore, SessionStore, SignedPreKeyStore};
use crate::table::{AddrTable, U32Table};

verus! {

/// An in-memory identity oracle: trust-on-first-use. A key is trusted for
/// an address, in either direction, when no different key is on file.
pub struct InMemIdentityKeyStore {
    key_pair: IdentityKeyPair,
    registration_id: u32,
    known_keys: AddrTable<IdentityKey>,
}

impl InMemIdentityKeyStore {
    pub fn new(key_pair: IdentityKeyPair, registration_id: u32) -> (r: InMemIdentityKeyStore)
        ensures
            r.local_identity_spec() == key_pair,
            r.local_registration_id_spec() == registration_id,
            r.identities_spec() == Map::<AddressView, IdentityKey>::empty(),
    {
        InMemIdentityKeyStore { key_pair, registration_id, known_keys: AddrTable::new() }
    }

    /// The identity key on file for `addr`, if any.
    pub fn get_identity(&self, addr: &ProtocolAddress) -> (r: Option<IdentityKey>)
        ensures
            match r {
                Some(k) => self.identities_spec().contains_key(addr@) && k
                    == self.identities_spec()[addr@],
                None => !self.identities_spec().contains_key(addr@),
            },
    {
        match self.known_keys.get(addr) {
            Some(k) => Some(*k),
            None => None,
        }
    }
}

impl IdentityKeyStore for InMemIdentityKeyStore {
    closed spec fn local_identity_spec(&self) -> IdentityKeyPair {
        self.key_pair
    }

    closed spec fn local_registration_id_spec(&self) -> u32 {
        self.registration_id
    }

    open spec fn trusted_spec(
        &self,
        addr: AddressView,
        key: IdentityKey,
        direction: Direction,
    ) -> bool {
        !self.identities_spec().contains_key(addr) || self.identities_spec()[addr] == key
    }

    closed spec fn identities_spec(&self) -> Map<AddressView, IdentityKey> {
        self.known_keys.map_spec()
    }

    fn get_identity_key_pair(&self) -> (r: IdentityKeyPair) {
        self.key_pair
    }

    fn get_local_registration_id(&self) -> (r: u32) {
        self.registration_id
    }

    fn is_trusted_identity(
        &self,
        addr: &ProtocolAddress,
        key: &IdentityKey,
        direction: Direction,
    ) -> (r: bool) {
        match self.known_keys.get(addr) {
            None => true,
            Some(k) => *k == *key,
        }
    }

    fn save_identity(&mut self, addr: &ProtocolAddress, key: &IdentityKey) -> (r: Result<
        bool,
        SignalProtocolError,
    >) {
        let replaced = match self.known_keys.get(addr) {
            Some(k) => *k != *key,
            None => false,
        };
        self.known_keys.put(addr.clone_address(), *key);
        Ok(replaced)
    }
}

/// An in-memory one-time pre-key store.
pub struct InMemPreKeyStore {
    keys: U32Table<KeyPair>,
}

impl InMemPreKeyStore {
    pub fn new() -> (r: InMemPreKeyStore)
        ensures
            r.pre_keys_spec() == Map::<u32, KeyPair>::empty(),
    {
        InMemPreKeyStore { keys: U32Table::new() }
    }

    pub fn save_pre_key(&mut self, id: u32, key_pair: KeyPair)
        ensures
            final(self).pre_keys_spec() == old(self).pre_keys_spec().insert(id, key_pair),
    {
        self.keys.put(id, key_pair);
    }
}

impl PreKeyStore for InMemPreKeyStore {
    closed spec fn pre_keys_spec(&self) -> Map<u32, KeyPair> {
        self.keys.map_spec()
    }

    fn get_pre_key(&self, id: u32) -> (r: Result<KeyPair, SignalProtocolError>) {
        match self.keys.get(id) {
            Some(kp) => Ok(*kp),
            None => Err(SignalProtocolError::InvalidPreKeyId),
        }
    }
}

/// An in-memory signed pre-key store.
pub struct InMemSignedPreKeyStore {
    keys: U32Table<KeyPair>,
}

impl InMemSignedPreKeyStore {
    pub fn new() -> (r: InMemSignedPreKeyStore)
        ensures
            r.signed_pre_keys_spec() == Map::<u32, KeyPair>::empty(),
    {
        InMemSignedPreKeyStore { keys: U32Table::new() }
    }

    pub fn save_signed_pre_key(&mut self, id: u32, key_pair: KeyPair)
        ensures
            final(self).signed_pre_keys_spec() == old(self).signed_pre_keys_spec().insert(
                id,
                key_pair,
            ),
    {
        self.keys.put(id, key_pair);
    }
}

impl SignedPreKeyStore for InMemSignedPreKeyStore {
    closed spec fn signed_pre_keys_spec(&self) -> Map<u32, KeyPair> {
        self.keys.map_spec()
    }

    fn get_signed_pre_key(&self, id: u32) -> (r: Result<KeyPair, SignalProtocolError>) {
        match self.keys.get(id) {
            Some(kp) => Ok(*kp),
            None => Err(SignalProtocolError::InvalidSignedPreKeyId),
        }
    }
}

/// An in-memory session store.
pub struct InMemSessionStore {
    sessions: AddrTable<SessionRecord>,
}

impl InMemSessionStore {
    pub fn new() -> (r: InMemSessionStore)
        ensures
            r.sessions_spec() == Map::<AddressView, RecordView>::empty(),
    {
        let r = InMemSessionStore { sessions: AddrTable::new() };
        proof {
            assert(r.sessions_spec() =~= Map::<AddressView, RecordView>::empty());
        }
        r
    }
}

/// A session store that accepts no writes: every store attempt fails with
/// the callback-failure kind and nothing is retained. It exercises the
/// persistence-failure propagation of the initiator path.
pub struct RefusingSessionStore {
    _private: bool,
}

impl RefusingSessionStore {
    pub fn new() -> (r: RefusingSessionStore)
        ensures
            r.sessions_spec() == Map::<AddressView, RecordView>::empty(),
    {
        RefusingSessionStore { _private: false }
    }
}

impl SessionStore for RefusingSessionStore {
    closed spec fn sessions_spec(&self) -> Map<AddressView, RecordView> {
        Map::empty()
    }

    fn load_session(&self, addr: &ProtocolAddress) -> (r: Option<SessionRecord>) {
        None
    }

    fn store_session(&mut self, addr: &ProtocolAddress, record: &SessionRecord) -> (r: Result<
        (),
        SignalProtocolError,
    >) {
        Err(SignalProtocolError::ApplicationCallbackError)
    }
}

impl SessionStore for InMemSessionStore {
    closed spec fn sessions_spec(&self) -> Map<AddressView, RecordView> {
        self.sessions.map_spec().map_values(|rec: SessionRecord| rec@)
    }

    fn load_session(&self, addr: &ProtocolAddress) -> (r: Option<SessionRecord>) {
        match self.sessions.get(addr) {
            Some(rec) => Some(rec.clone_record()),
            None => None,
        }
    }

    fn store_session(&mut self, addr: &ProtocolAddress, record: &SessionRecord) -> (r: Result<
        (),
        SignalProtocolError,
    >) {
        self.sessions.put(addr.clone_address(), record.clone_record());
        proof {
            assert(self.sessions_spec() =~= old(self).sessions_spec().insert(addr@, record@));
        }
        Ok(())
    }
}

} // verus!
