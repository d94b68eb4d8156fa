use signal_session::{
    process_prekey, process_prekey_bundle, process_prekey_bundle_with_base_key, IdentityKeyPair,
    IdentityKeyStore, InMemIdentityKeyStore, InMemPreKeyStore, InMemSessionStore,
    InMemSignedPreKeyStore, KeyPair, PreKeyBundle, PreKeySignalMessage, ProtocolAddress,
    RandomSource, SeededRng, SessionStore, SignalProtocolError, ARCHIVED_STATES_MAX_LENGTH,
    CIPHERTEXT_MESSAGE_CURRENT_VERSION,
};

fn alice_address() -> ProtocolAddress {
    ProtocolAddress::new(vec![b'a', b'l', b'i', b'c', b'e'], 1)
}

fn bob_address() -> ProtocolAddress {
    ProtocolAddress::new(vec![b'b', b'o', b'b'], 1)
}

struct BobSide {
    identity: IdentityKeyPair,
    identity_store: InMemIdentityKeyStore,
    pre_key_store: InMemPreKeyStore,
    signed_pre_key_store: InMemSignedPreKeyStore,
    signed_pre_key_pair: KeyPair,
    one_time_pre_key_pair: KeyPair,
}

fn bob_side() -> BobSide {
    let identity = IdentityKeyPair::from_private(0x0B0B);
    let identity_store = InMemIdentityKeyStore::new(identity, 71);
    let signed_pre_key_pair = KeyPair::from_private(0x51);
    let one_time_pre_key_pair = KeyPair::from_private(0x07);
    let mut signed_pre_key_store = InMemSignedPreKeyStore::new();
    signed_pre_key_store.save_signed_pre_key(22, signed_pre_key_pair);
    let mut pre_key_store = InMemPreKeyStore::new();
    pre_key_store.save_pre_key(31, one_time_pre_key_pair);
    BobSide {
        identity,
        identity_store,
        pre_key_store,
        signed_pre_key_store,
        signed_pre_key_pair,
        one_time_pre_key_pair,
    }
}

fn bob_bundle(bob: &BobSide) -> PreKeyBundle {
    let signature = bob.identity.sign(bob.signed_pre_key_pair.public_key.key);
    PreKeyBundle::new(
        71,
        1,
        Some((31, bob.one_time_pre_key_pair.public_key)),
        22,
        bob.signed_pre_key_pair.public_key,
        signature,
        bob.identity.identity_key,
    )
}

/// Full round trip: the initiator path against Bob's published bundle,
/// then the responder path on the resulting handshake message, derive
/// matching chain material on both sides.
#[test]
fn round_trip_agreement() {
    let bob = bob_side();
    let bundle = bob_bundle(&bob);
    let mut bob_identity_store = bob.identity_store;

    let alice_identity = IdentityKeyPair::from_private(0xA11CE);
    let mut alice_identity_store = InMemIdentityKeyStore::new(alice_identity, 17);
    let mut alice_session_store = InMemSessionStore::new();
    let mut rng = SeededRng::new(42);
    let r = process_prekey_bundle(
        &bob_address(),
        &mut alice_session_store,
        &mut alice_identity_store,
        &bundle,
        &mut rng,
    );
    assert!(r.is_ok());

    let alice_record = alice_session_store.load_session(&bob_address()).unwrap();
    let alice_state = alice_record.session_state().unwrap();
    let pending = alice_state.pending_pre_key.unwrap();
    assert_eq!(pending.signed_pre_key_id, 22);
    assert_eq!(pending.pre_key_id, Some(31));

    let message = PreKeySignalMessage::new(
        CIPHERTEXT_MESSAGE_CURRENT_VERSION,
        17,
        pending.pre_key_id,
        pending.signed_pre_key_id,
        pending.base_key,
        alice_identity.identity_key,
    );

    let mut bob_record = signal_session::SessionRecord::new_fresh();
    let r2 = process_prekey(
        &message,
        &alice_address(),
        &mut bob_record,
        &mut bob_identity_store,
        &bob.pre_key_store,
        &bob.signed_pre_key_store,
    );
    assert_eq!(r2, Ok(Some(31)));

    let bob_state = bob_record.session_state().unwrap();
    assert_eq!(alice_state.root_key, bob_state.root_key);
    assert_eq!(alice_state.sender_chain_key, bob_state.receiver_chain_key);
    assert_eq!(alice_state.local_identity_key, bob_state.remote_identity_key);
    assert_eq!(alice_state.remote_identity_key, bob_state.local_identity_key);
    assert_eq!(alice_state.session_version, bob_state.session_version);
    assert_eq!(alice_state.remote_registration_id, 71);
    assert_eq!(bob_state.remote_registration_id, 17);
}

/// Processing the same pre-key message twice is idempotent: the second
/// call consumes nothing and leaves the record exactly as it was.
#[test]
fn duplicate_message_is_idempotent() {
    let bob = bob_side();
    let mut identity_store = bob.identity_store;
    let alice_identity = IdentityKeyPair::from_private(0xA11CE);
    let base = KeyPair::from_private(0xBA5E);
    let message = PreKeySignalMessage::new(
        CIPHERTEXT_MESSAGE_CURRENT_VERSION,
        17,
        Some(31),
        22,
        base.public_key,
        alice_identity.identity_key,
    );

    let mut record = signal_session::SessionRecord::new_fresh();
    let first = process_prekey(
        &message,
        &alice_address(),
        &mut record,
        &mut identity_store,
        &bob.pre_key_store,
        &bob.signed_pre_key_store,
    );
    assert_eq!(first, Ok(Some(31)));
    let after_first = record.clone();

    let second = process_prekey(
        &message,
        &alice_address(),
        &mut record,
        &mut identity_store,
        &bob.pre_key_store,
        &bob.signed_pre_key_store,
    );
    assert_eq!(second, Ok(None));
    assert_eq!(record, after_first);
}

/// A tampered signed-pre-key signature is rejected with a signature
/// failure, and neither the session store nor the identity record changes.
#[test]
fn tampered_signature_rejected() {
    let bob = bob_side();
    let alice_identity = IdentityKeyPair::from_private(0xA11CE);
    let mut alice_identity_store = InMemIdentityKeyStore::new(alice_identity, 17);
    let mut alice_session_store = InMemSessionStore::new();
    let mut rng = SeededRng::new(7);

    let good = bob_bundle(&bob);
    let tampered = PreKeyBundle::new(
        71,
        1,
        Some((31, bob.one_time_pre_key_pair.public_key)),
        22,
        bob.signed_pre_key_pair.public_key,
        good.signed_pre_key_signature ^ 1,
        bob.identity.identity_key,
    );

    let r = process_prekey_bundle(
        &bob_address(),
        &mut alice_session_store,
        &mut alice_identity_store,
        &tampered,
        &mut rng,
    );
    assert_eq!(r, Err(SignalProtocolError::SignatureValidationFailed));
    assert!(alice_session_store.load_session(&bob_address()).is_none());
    assert!(alice_identity_store.get_identity(&bob_address()).is_none());
}

/// An identity the oracle reports untrusted is rejected up front, on both
/// paths, with no state change.
#[test]
fn untrusted_identity_rejected_both_paths() {
    // Initiator path: a different key is already on file for Bob.
    let bob = bob_side();
    let alice_identity = IdentityKeyPair::from_private(0xA11CE);
    let mut alice_identity_store = InMemIdentityKeyStore::new(alice_identity, 17);
    let other = IdentityKeyPair::from_private(0xD00D);
    alice_identity_store.save_identity(&bob_address(), &other.identity_key).unwrap();
    let mut alice_session_store = InMemSessionStore::new();
    let mut rng = SeededRng::new(7);

    let bundle = bob_bundle(&bob);
    let r = process_prekey_bundle(
        &bob_address(),
        &mut alice_session_store,
        &mut alice_identity_store,
        &bundle,
        &mut rng,
    );
    assert_eq!(r, Err(SignalProtocolError::UntrustedIdentity));
    assert!(alice_session_store.load_session(&bob_address()).is_none());

    // Responder path: a different key is already on file for Alice.
    let mut bob_identity_store = bob.identity_store;
    bob_identity_store.save_identity(&alice_address(), &other.identity_key).unwrap();
    let base = KeyPair::from_private(0xBA5E);
    let message = PreKeySignalMessage::new(
        CIPHERTEXT_MESSAGE_CURRENT_VERSION,
        17,
        Some(31),
        22,
        base.public_key,
        alice_identity.identity_key,
    );
    let mut record = signal_session::SessionRecord::new_fresh();
    let r2 = process_prekey(
        &message,
        &alice_address(),
        &mut record,
        &mut bob_identity_store,
        &bob.pre_key_store,
        &bob.signed_pre_key_store,
    );
    assert_eq!(r2, Err(SignalProtocolError::UntrustedIdentity));
    assert!(record.session_state().is_none());
    assert_eq!(record.archived_count(), 0);
}

/// Re-initializing over an existing session archives the old current state
/// at the front; past the capacity bound the oldest archived state is
/// evicted, never the current one.
#[test]
fn archiving_moves_current_and_evicts_oldest() {
    let bob = bob_side();
    let alice_identity = IdentityKeyPair::from_private(0xA11CE);
    let mut alice_identity_store = InMemIdentityKeyStore::new(alice_identity, 17);
    let mut alice_session_store = InMemSessionStore::new();
    let bundle = bob_bundle(&bob);

    let first_base = KeyPair::from_private(1000);
    let r = process_prekey_bundle_with_base_key(
        &bob_address(),
        &mut alice_session_store,
        &mut alice_identity_store,
        &bundle,
        &first_base,
    );
    assert!(r.is_ok());
    let first_current = alice_session_store
        .load_session(&bob_address())
        .unwrap()
        .session_state()
        .unwrap();

    let second_base = KeyPair::from_private(1001);
    let r2 = process_prekey_bundle_with_base_key(
        &bob_address(),
        &mut alice_session_store,
        &mut alice_identity_store,
        &bundle,
        &second_base,
    );
    assert!(r2.is_ok());
    let record = alice_session_store.load_session(&bob_address()).unwrap();
    assert_eq!(record.archived_state(0), first_current);
    assert_ne!(record.session_state().unwrap(), first_current);

    // Keep superseding until the archive is past capacity.
    for i in 0..(ARCHIVED_STATES_MAX_LENGTH as u64 + 3) {
        let base = KeyPair::from_private(2000 + i);
        let r = process_prekey_bundle_with_base_key(
            &bob_address(),
            &mut alice_session_store,
            &mut alice_identity_store,
            &bundle,
            &base,
        );
        assert!(r.is_ok());
    }
    let record = alice_session_store.load_session(&bob_address()).unwrap();
    assert_eq!(record.archived_count(), ARCHIVED_STATES_MAX_LENGTH);
    // The newest state is current, and the newest archived state is the
    // one superseded last.
    let last_base = KeyPair::from_private(2000 + ARCHIVED_STATES_MAX_LENGTH as u64 + 2);
    assert_eq!(
        record.session_state().unwrap().alice_base_key,
        last_base.public_key.key
    );
}

/// A message referencing an unknown signed pre-key id fails with a
/// key-identifier error and leaves the record untouched.
#[test]
fn unknown_signed_pre_key_id_rejected() {
    let bob = bob_side();
    let mut identity_store = bob.identity_store;
    let alice_identity = IdentityKeyPair::from_private(0xA11CE);
    let base = KeyPair::from_private(0xBA5E);
    let message = PreKeySignalMessage::new(
        CIPHERTEXT_MESSAGE_CURRENT_VERSION,
        17,
        None,
        99,
        base.public_key,
        alice_identity.identity_key,
    );
    let mut record = signal_session::SessionRecord::new_fresh();
    let r = process_prekey(
        &message,
        &alice_address(),
        &mut record,
        &mut identity_store,
        &bob.pre_key_store,
        &bob.signed_pre_key_store,
    );
    assert_eq!(r, Err(SignalProtocolError::InvalidSignedPreKeyId));
    assert!(record.session_state().is_none());
    assert_eq!(record.archived_count(), 0);
    assert!(identity_store.get_identity(&alice_address()).is_none());
}

/// A message referencing an unknown one-time pre-key id fails with a
/// key-identifier error.
#[test]
fn unknown_one_time_pre_key_id_rejected() {
    let bob = bob_side();
    let mut identity_store = bob.identity_store;
    let alice_identity = IdentityKeyPair::from_private(0xA11CE);
    let base = KeyPair::from_private(0xBA5E);
    let message = PreKeySignalMessage::new(
        CIPHERTEXT_MESSAGE_CURRENT_VERSION,
        17,
        Some(77),
        22,
        base.public_key,
        alice_identity.identity_key,
    );
    let mut record = signal_session::SessionRecord::new_fresh();
    let r = process_prekey(
        &message,
        &alice_address(),
        &mut record,
        &mut identity_store,
        &bob.pre_key_store,
        &bob.signed_pre_key_store,
    );
    assert_eq!(r, Err(SignalProtocolError::InvalidPreKeyId));
    assert!(record.session_state().is_none());
}

/// A bundle without a one-time pre-key still establishes a session, and
/// the responder consumes no pre-key id.
#[test]
fn handshake_without_one_time_pre_key() {
    let bob = bob_side();
    let mut bob_identity_store = bob.identity_store;
    let signature = bob.identity.sign(bob.signed_pre_key_pair.public_key.key);
    let bundle = PreKeyBundle::new(
        71,
        1,
        None,
        22,
        bob.signed_pre_key_pair.public_key,
        signature,
        bob.identity.identity_key,
    );

    let alice_identity = IdentityKeyPair::from_private(0xA11CE);
    let mut alice_identity_store = InMemIdentityKeyStore::new(alice_identity, 17);
    let mut alice_session_store = InMemSessionStore::new();
    let mut rng = SeededRng::new(5);
    let r = process_prekey_bundle(
        &bob_address(),
        &mut alice_session_store,
        &mut alice_identity_store,
        &bundle,
        &mut rng,
    );
    assert!(r.is_ok());

    let alice_state = alice_session_store
        .load_session(&bob_address())
        .unwrap()
        .session_state()
        .unwrap();
    let pending = alice_state.pending_pre_key.unwrap();
    assert_eq!(pending.pre_key_id, None);

    let message = PreKeySignalMessage::new(
        CIPHERTEXT_MESSAGE_CURRENT_VERSION,
        17,
        None,
        22,
        pending.base_key,
        alice_identity.identity_key,
    );
    let mut record = signal_session::SessionRecord::new_fresh();
    let r2 = process_prekey(
        &message,
        &alice_address(),
        &mut record,
        &mut bob_identity_store,
        &bob.pre_key_store,
        &bob.signed_pre_key_store,
    );
    assert_eq!(r2, Ok(None));
    let bob_state = record.session_state().unwrap();
    assert_eq!(alice_state.root_key, bob_state.root_key);
    assert_eq!(alice_state.sender_chain_key, bob_state.receiver_chain_key);
}

/// A successful responder handshake saves the sender's identity key.
#[test]
fn successful_handshake_saves_identity() {
    let bob = bob_side();
    let mut identity_store = bob.identity_store;
    let alice_identity = IdentityKeyPair::from_private(0xA11CE);
    let base = KeyPair::from_private(0xBA5E);
    let message = PreKeySignalMessage::new(
        CIPHERTEXT_MESSAGE_CURRENT_VERSION,
        17,
        Some(31),
        22,
        base.public_key,
        alice_identity.identity_key,
    );
    let mut record = signal_session::SessionRecord::new_fresh();
    let r = process_prekey(
        &message,
        &alice_address(),
        &mut record,
        &mut identity_store,
        &bob.pre_key_store,
        &bob.signed_pre_key_store,
    );
    assert!(r.is_ok());
    assert_eq!(
        identity_store.get_identity(&alice_address()),
        Some(alice_identity.identity_key)
    );
}

/// The same seed replays the same handshake: injected randomness keeps the
/// initiator path deterministic.
#[test]
fn seeded_generator_is_deterministic() {
    let mut a = SeededRng::new(99);
    let mut b = SeededRng::new(99);
    assert_eq!(a.next_u64(), b.next_u64());
    assert_eq!(a.next_u64(), b.next_u64());
    let mut c = SeededRng::new(100);
    assert_ne!(SeededRng::new(99).next_u64(), c.next_u64());
}

/// A message of an unrecognized protocol version is rejected outright,
/// before the trust check, with nothing consumed and nothing changed.
#[test]
fn unrecognized_version_rejected() {
    let bob = bob_side();
    let mut identity_store = bob.identity_store;
    let alice_identity = IdentityKeyPair::from_private(0xA11CE);
    let base = KeyPair::from_private(0xBA5E);
    let message = PreKeySignalMessage::new(
        CIPHERTEXT_MESSAGE_CURRENT_VERSION + 1,
        17,
        Some(31),
        22,
        base.public_key,
        alice_identity.identity_key,
    );
    let mut record = signal_session::SessionRecord::new_fresh();
    let r = process_prekey(
        &message,
        &alice_address(),
        &mut record,
        &mut identity_store,
        &bob.pre_key_store,
        &bob.signed_pre_key_store,
    );
    assert_eq!(r, Err(SignalProtocolError::UnrecognizedMessageVersion));
    assert!(record.session_state().is_none());
    assert_eq!(record.archived_count(), 0);
    assert!(identity_store.get_identity(&alice_address()).is_none());
}

/// A persistence failure from the session store propagates as-is; the
/// identity was already saved by then, as the step order prescribes.
#[test]
fn persistence_failure_propagates() {
    let bob = bob_side();
    let bundle = bob_bundle(&bob);
    let alice_identity = IdentityKeyPair::from_private(0xA11CE);
    let mut alice_identity_store = InMemIdentityKeyStore::new(alice_identity, 17);
    let mut failing_store = signal_session::RefusingSessionStore::new();
    let mut rng = SeededRng::new(3);

    let r = process_prekey_bundle(
        &bob_address(),
        &mut failing_store,
        &mut alice_identity_store,
        &bundle,
        &mut rng,
    );
    assert_eq!(r, Err(SignalProtocolError::ApplicationCallbackError));
    assert_eq!(
        alice_identity_store.get_identity(&bob_address()),
        Some(bob.identity.identity_key)
    );
}
