use signal_session::{
    IdentityKey, IdentityKeyPair, KeyPair, ProtocolAddress, PublicKey, SessionRecord,
    SignalErrorCode, SignalProtocolError, ARCHIVED_STATES_MAX_LENGTH,
};

#[test]
fn address_equality_is_structural() {
    let a = ProtocolAddress::new(vec![1, 2, 3], 5);
    let b = ProtocolAddress::new(vec![1, 2, 3], 5);
    let c = ProtocolAddress::new(vec![1, 2, 4], 5);
    let d = ProtocolAddress::new(vec![1, 2, 3], 6);
    assert!(a.addr_eq(&b));
    assert!(!a.addr_eq(&c));
    assert!(!a.addr_eq(&d));
    assert_eq!(a.name(), &vec![1, 2, 3]);
    assert_eq!(a.device_id(), 5);
    assert!(a.clone_address().addr_eq(&a));
}

#[test]
fn signature_verifies_only_untampered() {
    let identity = IdentityKeyPair::from_private(0xF00D);
    let message = 0x1234;
    let signature = identity.sign(message);
    assert!(identity.identity_key.verify_signature(message, signature));
    assert!(!identity.identity_key.verify_signature(message, signature ^ 1));
    assert!(!identity.identity_key.verify_signature(message ^ 1, signature));
    let other = IdentityKey::new(PublicKey::new(0x5555));
    assert!(!other.verify_signature(message, signature));
}

#[test]
fn agreement_is_symmetric() {
    let a = KeyPair::from_private(11);
    let b = KeyPair::from_private(22);
    assert_eq!(
        a.calculate_agreement(&b.public_key),
        b.calculate_agreement(&a.public_key)
    );
}

#[test]
fn record_scan_finds_current_and_archived() {
    let mut record = SessionRecord::new_fresh();
    assert!(!record.has_session_state(3, 100));

    let base_state = |v: u32, key: u64| {
        let mut s = fresh_state();
        s.session_version = v;
        s.alice_base_key = key;
        s
    };
    record.promote_state(base_state(3, 100));
    assert!(record.has_session_state(3, 100));
    assert!(!record.has_session_state(2, 100));
    assert!(!record.has_session_state(3, 101));

    record.archive_current_state();
    assert!(record.has_session_state(3, 100));
    record.promote_state(base_state(3, 200));
    assert!(record.has_session_state(3, 100));
    assert!(record.has_session_state(3, 200));
}

#[test]
fn archive_on_fresh_record_is_noop() {
    let mut record = SessionRecord::new_fresh();
    record.archive_current_state();
    assert!(record.session_state().is_none());
    assert_eq!(record.archived_count(), 0);
}

#[test]
fn archive_evicts_only_oldest() {
    let mut record = SessionRecord::new_fresh();
    let total = ARCHIVED_STATES_MAX_LENGTH as u64 + 5;
    for i in 0..total {
        let mut s = fresh_state();
        s.alice_base_key = i;
        record.promote_state(s);
        record.archive_current_state();
    }
    assert_eq!(record.archived_count(), ARCHIVED_STATES_MAX_LENGTH);
    // Most recent first; the oldest five were evicted.
    assert_eq!(record.archived_state(0).alice_base_key, total - 1);
    assert_eq!(
        record
            .archived_state(ARCHIVED_STATES_MAX_LENGTH - 1)
            .alice_base_key,
        total - ARCHIVED_STATES_MAX_LENGTH as u64
    );
}

fn fresh_state() -> signal_session::SessionState {
    signal_session::SessionState {
        session_version: 3,
        local_identity_key: PublicKey::new(0),
        remote_identity_key: PublicKey::new(0),
        root_key: 0,
        sender_chain_key: None,
        receiver_chain_key: None,
        local_registration_id: 0,
        remote_registration_id: 0,
        alice_base_key: 0,
        pending_pre_key: None,
    }
}

#[test]
fn error_codes_are_stable() {
    let cases = [
        (SignalProtocolError::InvalidState, SignalErrorCode::InvalidState, 2),
        (
            SignalProtocolError::UnrecognizedMessageVersion,
            SignalErrorCode::UnrecognizedMessageVersion,
            23,
        ),
        (SignalProtocolError::InvalidMessage, SignalErrorCode::InvalidMessage, 30),
        (SignalProtocolError::InvalidKey, SignalErrorCode::InvalidKey, 40),
        (
            SignalProtocolError::SignatureValidationFailed,
            SignalErrorCode::InvalidSignature,
            41,
        ),
        (SignalProtocolError::UntrustedIdentity, SignalErrorCode::UntrustedIdentity, 60),
        (SignalProtocolError::InvalidPreKeyId, SignalErrorCode::InvalidKeyIdentifier, 70),
        (
            SignalProtocolError::InvalidSignedPreKeyId,
            SignalErrorCode::InvalidKeyIdentifier,
            70,
        ),
        (SignalProtocolError::SessionNotFound, SignalErrorCode::SessionNotFound, 80),
        (
            SignalProtocolError::InvalidRegistrationId,
            SignalErrorCode::InvalidRegistrationId,
            81,
        ),
        (SignalProtocolError::InvalidSessionStructure, SignalErrorCode::InvalidSession, 82),
        (SignalProtocolError::DuplicatedMessage, SignalErrorCode::DuplicatedMessage, 90),
        (
            SignalProtocolError::ApplicationCallbackError,
            SignalErrorCode::CallbackError,
            100,
        ),
    ];
    for (err, code, value) in cases {
        assert_eq!(SignalErrorCode::from_error(&err), code);
        assert_eq!(code.value(), value);
        // Stable: a second mapping gives the same code.
        assert_eq!(SignalErrorCode::from_error(&err), code);
    }
    assert_eq!(SignalErrorCode::UnknownError.value(), 1);
}
