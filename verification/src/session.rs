//! Session establishment: the responder path, which processes a received
//! pre-key message, and the initiator path, which processes a fetched
//! pre-key bundle. Both verify trust first, then authenticity, and mutate
//! the session record only after every fallible step has succeeded.

use vstd::prelude::*;
use crate::address::ProtocolAddress;
use crate::bundle::{PreKeyBundle, PreKeySignalMessage};
use crate::curve::{spec_signature, IdentityKeyPair, KeyPair};
use crate::errors::SignalProtocolError;
use crate::ratchet::{
    initialize_alice_session, initialize_bob_session, spec_initialize_alice, spec_initialize_bob,
    AliceSignalProtocolParameters, BobSignalProtocolParameters,
};
use crate::rng::RandomSource;
use crate::state::{PendingPreKey, RecordView, SessionRecord, SessionState};
use crate::stores::{Direction, IdentityKeyStore, PreKeyStore, SessionStore, SignedPreKeyStore};
use crate::CIPHERTEXT_MESSAGE_CURRENT_VERSION;

verus! {

/// The responder's ratchet parameters for a message: the local signed
/// pre-key pair serves both as the signed pre-key and, for this protocol
/// version, as the ratchet key.
pub open spec fn spec_bob_parameters(
    message: PreKeySignalMessage,
    local_identity: IdentityKeyPair,
    signed_pre_key_pair: KeyPair,
    one_time_pre_key_pair: Option<KeyPair>,
) -> BobSignalProtocolParameters {
    BobSignalProtocolParameters {
        our_identity_key_pair: local_identity,
        our_signed_pre_key_pair: signed_pre_key_pair,
        our_one_time_pre_key_pair: one_time_pre_key_pair,
        our_ratchet_key_pair: signed_pre_key_pair,
        their_identity_key: message.identity_key,
        their_base_key: message.base_key,
    }
}

/// The state the responder path promotes: the responder-role ratchet
/// output with registration ids and the sender's base-key fingerprint
/// filled in.
pub open spec fn spec_responder_session(
    message: PreKeySignalMessage,
    local_identity: IdentityKeyPair,
    local_registration_id: u32,
    signed_pre_key_pair: KeyPair,
    one_time_pre_key_pair: Option<KeyPair>,
) -> SessionState {
    let s = spec_initialize_bob(
        spec_bob_parameters(message, local_identity, signed_pre_key_pair, one_time_pre_key_pair),
    );
    SessionState {
        session_version: s.session_version,
        local_identity_key: s.local_identity_key,
        remote_identity_key: s.remote_identity_key,
        root_key: s.root_key,
        sender_chain_key: s.sender_chain_key,
        receiver_chain_key: s.receiver_chain_key,
        local_registration_id,
        remote_registration_id: message.registration_id,
        alice_base_key: message.base_key.key,
        pending_pre_key: s.pending_pre_key,
    }
}

/// The initiator's ratchet parameters for a bundle: the bundle's signed
/// pre-key serves both as the signed pre-key and, for this protocol
/// version, as the ratchet key.
pub open spec fn spec_alice_parameters(
    bundle: PreKeyBundle,
    local_identity: IdentityKeyPair,
    base_key_pair: KeyPair,
) -> AliceSignalProtocolParameters {
    AliceSignalProtocolParameters {
        our_identity_key_pair: local_identity,
        our_base_key_pair: base_key_pair,
        their_identity_key: bundle.identity_key,
        their_signed_pre_key: bundle.signed_pre_key_public,
        their_one_time_pre_key: bundle.pre_key_public,
        their_ratchet_key: bundle.signed_pre_key_public,
    }
}

/// The state the initiator path promotes: the initiator-role ratchet
/// output with registration ids, the base-key fingerprint and the
/// unacknowledged-pre-key bookkeeping filled in.
pub open spec fn spec_initiator_session(
    bundle: PreKeyBundle,
    local_identity: IdentityKeyPair,
    local_registration_id: u32,
    base_key_pair: KeyPair,
) -> SessionState {
    let s = spec_initialize_alice(spec_alice_parameters(bundle, local_identity, base_key_pair));
    SessionState {
        session_version: s.session_version,
        local_identity_key: s.local_identity_key,
        remote_identity_key: s.remote_identity_key,
        root_key: s.root_key,
        sender_chain_key: s.sender_chain_key,
        receiver_chain_key: s.receiver_chain_key,
        local_registration_id,
        remote_registration_id: bundle.registration_id,
        alice_base_key: base_key_pair.public_key.key,
        pending_pre_key: Some(
            PendingPreKey {
                pre_key_id: bundle.pre_key_id,
                signed_pre_key_id: bundle.signed_pre_key_id,
                base_key: base_key_pair.public_key,
            },
        ),
    }
}

/// The signature check the initiator path performs on a bundle.
pub open spec fn spec_bundle_signature_ok(bundle: PreKeyBundle) -> bool {
    bundle.signed_pre_key_signature == spec_signature(
        bundle.identity_key.public_key.key,
        bundle.signed_pre_key_public.key,
    )
}

/// The record the initiator path stores: the prior record (fresh when the
/// store had none) with its current state archived and the new state
/// promoted.
pub open spec fn spec_record_after_bundle(
    prior: Option<RecordView>,
    session: SessionState,
) -> RecordView {
    let rec0 = match prior {
        None => RecordView { current: None::<SessionState>, archived: Seq::empty() },
        Some(r) => r,
    };
    rec0.spec_archive().spec_promote(session)
}

/// Responder path, inner step: duplicate suppression, key lookup, ratchet
/// initialization, and the archive-and-promote mutation of the record.
/// The identity save is the caller's final step.
fn process_prekey_v3<I: IdentityKeyStore, P: PreKeyStore, S: SignedPreKeyStore>(
    message: &PreKeySignalMessage,
    session_record: &mut SessionRecord,
    signed_pre_key_store: &S,
    pre_key_store: &P,
    identity_store: &I,
) -> (result: Result<Option<u32>, SignalProtocolError>)
    ensures
        result is Err ==> final(session_record)@ == old(session_record)@,
        old(session_record)@.spec_has_session_state(message.message_version, message.base_key.key)
            ==> result == Ok::<Option<u32>, SignalProtocolError>(None::<u32>) && final(session_record)@ == old(session_record)@,
        !old(session_record)@.spec_has_session_state(
            message.message_version,
            message.base_key.key,
        ) ==> {
            let spks = signed_pre_key_store.signed_pre_keys_spec();
            let pks = pre_key_store.pre_keys_spec();
            &&& (!spks.contains_key(message.signed_pre_key_id) ==> result == Err::<Option<u32>, SignalProtocolError>(SignalProtocolError::InvalidSignedPreKeyId))
            &&& (spks.contains_key(message.signed_pre_key_id) && (message.pre_key_id matches Some(
                id,
            ) && !pks.contains_key(id)) ==> result == Err::<Option<u32>, SignalProtocolError>(SignalProtocolError::InvalidPreKeyId))
            &&& (spks.contains_key(message.signed_pre_key_id) && (match message.pre_key_id {
                Some(id) => pks.contains_key(id),
                None => true,
            }) ==> result == Ok::<Option<u32>, SignalProtocolError>(message.pre_key_id) && final(session_record)@ == old(session_record)@.spec_archive().spec_promote(
                spec_responder_session(
                    *message,
                    identity_store.local_identity_spec(),
                    identity_store.local_registration_id_spec(),
                    spks[message.signed_pre_key_id],
                    match message.pre_key_id {
                        Some(id) => Some(pks[id]),
                        None => None,
                    },
                ),
            ))
        },
{
    if session_record.has_session_state(message.message_version, message.base_key.key) {
        // An already-processed handshake resent: succeed without consuming
        // anything and without touching the record.
        return Ok(None);
    }

    let our_signed_pre_key_pair = match signed_pre_key_store.get_signed_pre_key(
        message.signed_pre_key_id,
    ) {
        Ok(kp) => kp,
        Err(e) => return Err(e),
    };

    let our_one_time_pre_key_pair = match message.pre_key_id {
        Some(pre_key_id) => match pre_key_store.get_pre_key(pre_key_id) {
            Ok(kp) => Some(kp),
            Err(e) => return Err(e),
        },
        None => None,
    };

    let parameters = BobSignalProtocolParameters {
        our_identity_key_pair: identity_store.get_identity_key_pair(),
        our_signed_pre_key_pair,
        our_one_time_pre_key_pair,
        our_ratchet_key_pair: our_signed_pre_key_pair,
        their_identity_key: message.identity_key,
        their_base_key: message.base_key,
    };

    session_record.archive_current_state();

    let mut new_session = initialize_bob_session(&parameters);

    new_session.local_registration_id = identity_store.get_local_registration_id();
    new_session.remote_registration_id = message.registration_id;
    new_session.alice_base_key = message.base_key.key;

    session_record.promote_state(new_session);

    Ok(message.pre_key_id)
}

/// Responder path: process a received pre-key message against the session
/// record for the sender's address.
///
/// A message of an unrecognized protocol version is rejected outright, as
/// the wire-decoding layer would reject it, so every accepted message
/// carries the current version. The trust check strictly precedes all
/// other work; an untrusted identity is rejected before any key lookup. A
/// message matching a retained state is a retransmission: it succeeds with
/// no consumed pre-key id and leaves the record untouched. Otherwise the
/// referenced keys are fetched, the responder-role ratchet state is
/// derived, the record archives its current state and promotes the new
/// one, and the sender's identity is saved; a failure of that save is
/// propagated with the record already updated. Returns the one-time
/// pre-key id consumed, if any; removal is the caller's responsibility.
pub fn process_prekey<I: IdentityKeyStore, P: PreKeyStore, S: SignedPreKeyStore>(
    message: &PreKeySignalMessage,
    remote_address: &ProtocolAddress,
    session_record: &mut SessionRecord,
    identity_store: &mut I,
    pre_key_store: &P,
    signed_pre_key_store: &S,
) -> (result: Result<Option<u32>, SignalProtocolError>)
    ensures
        final(identity_store).local_identity_spec() == old(identity_store).local_identity_spec(),
        final(identity_store).local_registration_id_spec() == old(identity_store).local_registration_id_spec(),
        result == Err::<Option<u32>, SignalProtocolError>(SignalProtocolError::UnrecognizedMessageVersion) <==> message.message_version != CIPHERTEXT_MESSAGE_CURRENT_VERSION,
        result == Err::<Option<u32>, SignalProtocolError>(SignalProtocolError::UntrustedIdentity) <==> message.message_version == CIPHERTEXT_MESSAGE_CURRENT_VERSION && !old(identity_store).trusted_spec(remote_address@, message.identity_key, Direction::Receiving),
        result matches Err(e) ==> e == SignalProtocolError::UnrecognizedMessageVersion || e == SignalProtocolError::UntrustedIdentity || e == SignalProtocolError::InvalidSignedPreKeyId || e == SignalProtocolError::InvalidPreKeyId || e == SignalProtocolError::ApplicationCallbackError,
        result matches Err(e) && e != SignalProtocolError::ApplicationCallbackError ==> final(session_record)@ == old(session_record)@ && final(identity_store).identities_spec() == old(identity_store).identities_spec(),
        result is Ok ==> final(identity_store).identities_spec() == old(identity_store).identities_spec().insert(remote_address@, message.identity_key),
        message.message_version == CIPHERTEXT_MESSAGE_CURRENT_VERSION && old(
            identity_store,
        ).trusted_spec(remote_address@, message.identity_key, Direction::Receiving) && old(
            session_record,
        )@.spec_has_session_state(message.message_version, message.base_key.key) ==> (result
            == Ok::<Option<u32>, SignalProtocolError>(None::<u32>) || result == Err::<
            Option<u32>,
            SignalProtocolError,
        >(SignalProtocolError::ApplicationCallbackError)) && final(session_record)@ == old(
            session_record,
        )@,
        message.message_version == CIPHERTEXT_MESSAGE_CURRENT_VERSION && old(
            identity_store,
        ).trusted_spec(remote_address@, message.identity_key, Direction::Receiving) && !old(
            session_record,
        )@.spec_has_session_state(message.message_version, message.base_key.key) ==> {
            let spks = signed_pre_key_store.signed_pre_keys_spec();
            let pks = pre_key_store.pre_keys_spec();
            &&& (!spks.contains_key(message.signed_pre_key_id) ==> result == Err::<Option<u32>, SignalProtocolError>(SignalProtocolError::InvalidSignedPreKeyId))
            &&& (spks.contains_key(message.signed_pre_key_id) && (message.pre_key_id matches Some(
                id,
            ) && !pks.contains_key(id)) ==> result == Err::<Option<u32>, SignalProtocolError>(SignalProtocolError::InvalidPreKeyId))
            &&& (spks.contains_key(message.signed_pre_key_id) && (match message.pre_key_id {
                Some(id) => pks.contains_key(id),
                None => true,
            }) ==> (result == Ok::<Option<u32>, SignalProtocolError>(message.pre_key_id) || result
                == Err::<Option<u32>, SignalProtocolError>(
                SignalProtocolError::ApplicationCallbackError,
            )) && final(session_record)@ == old(session_record)@.spec_archive().spec_promote(
                spec_responder_session(
                    *message,
                    old(identity_store).local_identity_spec(),
                    old(identity_store).local_registration_id_spec(),
                    spks[message.signed_pre_key_id],
                    match message.pre_key_id {
                        Some(id) => Some(pks[id]),
                        None => None,
                    },
                ),
            ))
        },
{
    if message.message_version != CIPHERTEXT_MESSAGE_CURRENT_VERSION {
        return Err(SignalProtocolError::UnrecognizedMessageVersion);
    }

    let their_identity_key = message.identity_key;

    if !identity_store.is_trusted_identity(
        remote_address,
        &their_identity_key,
        Direction::Receiving,
    ) {
        return Err(SignalProtocolError::UntrustedIdentity);
    }

    let unsigned_pre_key_id = match process_prekey_v3(
        message,
        session_record,
        signed_pre_key_store,
        pre_key_store,
        identity_store,
    ) {
        Ok(id) => id,
        Err(e) => return Err(e),
    };

    match identity_store.save_identity(remote_address, &their_identity_key) {
        Ok(_) => Ok(unsigned_pre_key_id),
        Err(e) => Err(e),
    }
}

/// Initiator path, deterministic core: process a fetched bundle with a
/// caller-supplied fresh base key pair.
///
/// The trust check precedes the signature check, which precedes any store
/// mutation. On success the remote identity is saved, and the record for
/// the address (fresh when none was stored) archives its current state,
/// promotes the initiator-role ratchet state, and is persisted. A failure
/// of the identity save or of the persistence propagates as-is, with the
/// failed write's partial effects the store's own responsibility.
pub fn process_prekey_bundle_with_base_key<S: SessionStore, I: IdentityKeyStore>(
    remote_address: &ProtocolAddress,
    session_store: &mut S,
    identity_store: &mut I,
    bundle: &PreKeyBundle,
    base_key_pair: &KeyPair,
) -> (result: Result<(), SignalProtocolError>)
    requires
        base_key_pair.wf(),
    ensures
        final(identity_store).local_identity_spec() == old(identity_store).local_identity_spec(),
        final(identity_store).local_registration_id_spec() == old(identity_store).local_registration_id_spec(),
        result == Err::<(), SignalProtocolError>(SignalProtocolError::UntrustedIdentity) <==> !old(identity_store).trusted_spec(remote_address@, bundle.identity_key, Direction::Sending),
        old(identity_store).trusted_spec(remote_address@, bundle.identity_key, Direction::Sending)
            ==> (result == Err::<(), SignalProtocolError>(SignalProtocolError::SignatureValidationFailed) <==> !spec_bundle_signature_ok(*bundle)),
        result matches Err(e) ==> e == SignalProtocolError::UntrustedIdentity || e
            == SignalProtocolError::SignatureValidationFailed || e
            == SignalProtocolError::ApplicationCallbackError,
        result == Err::<(), SignalProtocolError>(SignalProtocolError::UntrustedIdentity) || result
            == Err::<(), SignalProtocolError>(SignalProtocolError::SignatureValidationFailed)
            ==> final(session_store).sessions_spec() == old(session_store).sessions_spec() && final(identity_store).identities_spec() == old(identity_store).identities_spec(),
        old(identity_store).trusted_spec(remote_address@, bundle.identity_key, Direction::Sending)
            && spec_bundle_signature_ok(*bundle) ==> result is Ok || result == Err::<
            (),
            SignalProtocolError,
        >(SignalProtocolError::ApplicationCallbackError),
        result is Ok ==> {
            &&& final(identity_store).identities_spec() == old(identity_store).identities_spec().insert(remote_address@, bundle.identity_key)
            &&& final(session_store).sessions_spec() == old(session_store).sessions_spec().insert(
                remote_address@,
                spec_record_after_bundle(
                    if old(session_store).sessions_spec().contains_key(remote_address@) {
                        Some(old(session_store).sessions_spec()[remote_address@])
                    } else {
                        None
                    },
                    spec_initiator_session(
                        *bundle,
                        old(identity_store).local_identity_spec(),
                        old(identity_store).local_registration_id_spec(),
                        *base_key_pair,
                    ),
                ),
            )
        },
{
    let their_identity_key = bundle.identity_key;

    if !identity_store.is_trusted_identity(
        remote_address,
        &their_identity_key,
        Direction::Sending,
    ) {
        return Err(SignalProtocolError::UntrustedIdentity);
    }

    if !their_identity_key.verify_signature(
        bundle.signed_pre_key_public.key,
        bundle.signed_pre_key_signature,
    ) {
        return Err(SignalProtocolError::SignatureValidationFailed);
    }

    let mut session_record = match session_store.load_session(remote_address) {
        Some(rec) => rec,
        None => SessionRecord::new_fresh(),
    };

    let their_signed_prekey = bundle.signed_pre_key_public;

    let parameters = AliceSignalProtocolParameters {
        our_identity_key_pair: identity_store.get_identity_key_pair(),
        our_base_key_pair: *base_key_pair,
        their_identity_key,
        their_signed_pre_key: their_signed_prekey,
        their_one_time_pre_key: bundle.pre_key_public,
        their_ratchet_key: their_signed_prekey,
    };

    let mut session = initialize_alice_session(&parameters);

    session.pending_pre_key = Some(
        PendingPreKey {
            pre_key_id: bundle.pre_key_id,
            signed_pre_key_id: bundle.signed_pre_key_id,
            base_key: base_key_pair.public_key,
        },
    );
    session.local_registration_id = identity_store.get_local_registration_id();
    session.remote_registration_id = bundle.registration_id;
    session.alice_base_key = base_key_pair.public_key.key;

    match identity_store.save_identity(remote_address, &their_identity_key) {
        Ok(_) => (),
        Err(e) => return Err(e),
    }

    session_record.archive_current_state();
    session_record.promote_state(session);

    match session_store.store_session(remote_address, &session_record) {
        Ok(()) => Ok(()),
        Err(e) => Err(e),
    }
}

/// Initiator path: process a fetched pre-key bundle, generating the fresh
/// base key pair from the supplied randomness source.
///
/// The trust check and the signature check run first, in that order, and
/// on failure return before the generator is ever drawn from and before
/// any mutation. Whatever the generator then returns, the failure
/// conditions are exact, and on success the stored record is the one the
/// deterministic core derives from some well-formed base key pair.
pub fn process_prekey_bundle<R: RandomSource, S: SessionStore, I: IdentityKeyStore>(
    remote_address: &ProtocolAddress,
    session_store: &mut S,
    identity_store: &mut I,
    bundle: &PreKeyBundle,
    csprng: &mut R,
) -> (result: Result<(), SignalProtocolError>)
    ensures
        final(identity_store).local_identity_spec() == old(identity_store).local_identity_spec(),
        final(identity_store).local_registration_id_spec() == old(identity_store).local_registration_id_spec(),
        result == Err::<(), SignalProtocolError>(SignalProtocolError::UntrustedIdentity) <==> !old(identity_store).trusted_spec(remote_address@, bundle.identity_key, Direction::Sending),
        old(identity_store).trusted_spec(remote_address@, bundle.identity_key, Direction::Sending)
            ==> (result == Err::<(), SignalProtocolError>(SignalProtocolError::SignatureValidationFailed) <==> !spec_bundle_signature_ok(*bundle)),
        result matches Err(e) ==> e == SignalProtocolError::UntrustedIdentity || e
            == SignalProtocolError::SignatureValidationFailed || e
            == SignalProtocolError::ApplicationCallbackError,
        result == Err::<(), SignalProtocolError>(SignalProtocolError::UntrustedIdentity) || result
            == Err::<(), SignalProtocolError>(SignalProtocolError::SignatureValidationFailed)
            ==> final(session_store).sessions_spec() == old(session_store).sessions_spec() && final(identity_store).identities_spec() == old(identity_store).identities_spec(),
        old(identity_store).trusted_spec(remote_address@, bundle.identity_key, Direction::Sending)
            && spec_bundle_signature_ok(*bundle) ==> result is Ok || result == Err::<
            (),
            SignalProtocolError,
        >(SignalProtocolError::ApplicationCallbackError),
        result is Ok ==> {
            &&& final(identity_store).identities_spec() == old(identity_store).identities_spec().insert(remote_address@, bundle.identity_key)
            &&& exists|base_key_pair: KeyPair|
                #[trigger] base_key_pair.wf() && final(session_store).sessions_spec() == old(session_store).sessions_spec().insert(
                    remote_address@,
                    spec_record_after_bundle(
                        if old(session_store).sessions_spec().contains_key(remote_address@) {
                            Some(old(session_store).sessions_spec()[remote_address@])
                        } else {
                            None
                        },
                        spec_initiator_session(
                            *bundle,
                            old(identity_store).local_identity_spec(),
                            old(identity_store).local_registration_id_spec(),
                            base_key_pair,
                        ),
                    ),
                )
        },
{
    if !identity_store.is_trusted_identity(
        remote_address,
        &bundle.identity_key,
        Direction::Sending,
    ) {
        return Err(SignalProtocolError::UntrustedIdentity);
    }

    if !bundle.identity_key.verify_signature(
        bundle.signed_pre_key_public.key,
        bundle.signed_pre_key_signature,
    ) {
        return Err(SignalProtocolError::SignatureValidationFailed);
    }

    let our_base_key_pair = KeyPair::generate(csprng);
    let result = process_prekey_bundle_with_base_key(
        remote_address,
        session_store,
        identity_store,
        bundle,
        &our_base_key_pair,
    );
    proof {
        if result is Ok {
            assert(our_base_key_pair.wf());
        }
    }
    result
}

/// Round-trip agreement of the two paths. When a bundle truly publishes
/// the responder's key material, and the initiator's handshake message
/// carries the initiator's identity key and freshly generated base key,
/// then the state the initiator path promotes and the state the responder
/// path promotes carry the same root key, the initiator's sending chain is
/// the responder's receiving chain, and each side records the other's
/// identity key.
pub proof fn lemma_handshake_agreement(
    bundle: PreKeyBundle,
    message: PreKeySignalMessage,
    alice_identity: IdentityKeyPair,
    bob_identity: IdentityKeyPair,
    alice_registration_id: u32,
    bob_registration_id: u32,
    base_key_pair: KeyPair,
    signed_pre_key_pair: KeyPair,
    one_time_pre_key_pair: Option<KeyPair>,
)
    requires
        alice_identity.wf(),
        bob_identity.wf(),
        base_key_pair.wf(),
        signed_pre_key_pair.wf(),
        bundle.identity_key == bob_identity.identity_key,
        bundle.signed_pre_key_public == signed_pre_key_pair.public_key,
        (bundle.pre_key_public is Some) == (one_time_pre_key_pair is Some),
        bundle.pre_key_public matches Some(k) ==> (one_time_pre_key_pair matches Some(kp)
            && kp.wf() && kp.public_key == k),
        message.identity_key == alice_identity.identity_key,
        message.base_key == base_key_pair.public_key,
    ensures
        ({
            let a = spec_initiator_session(
                bundle,
                alice_identity,
                alice_registration_id,
                base_key_pair,
            );
            let b = spec_responder_session(
                message,
                bob_identity,
                bob_registration_id,
                signed_pre_key_pair,
                one_time_pre_key_pair,
            );
            &&& a.root_key == b.root_key
            &&& a.sender_chain_key == b.receiver_chain_key
            &&& a.local_identity_key == b.remote_identity_key
            &&& a.remote_identity_key == b.local_identity_key
            &&& a.session_version == b.session_version
        }),
{
    crate::ratchet::lemma_initialize_session_agreement(
        spec_alice_parameters(bundle, alice_identity, base_key_pair),
        spec_bob_parameters(message, bob_identity, signed_pre_key_pair, one_time_pre_key_pair),
    );
}

/// Idempotence of the responder path under retransmission. After the
/// responder path succeeds on a message — which it does only for messages
/// of the current version, as its contract's version gate states — the
/// record it leaves behind recognizes that message's version and base
/// key, so running the path again on the same message takes the duplicate
/// branch: by [`process_prekey`]'s contract it returns no consumed
/// pre-key id and leaves the record unchanged.
pub proof fn lemma_process_prekey_idempotent(
    rec: RecordView,
    message: PreKeySignalMessage,
    local_identity: IdentityKeyPair,
    local_registration_id: u32,
    signed_pre_key_pair: KeyPair,
    one_time_pre_key_pair: Option<KeyPair>,
)
    requires
        message.message_version == CIPHERTEXT_MESSAGE_CURRENT_VERSION,
    ensures
        rec.spec_archive().spec_promote(
            spec_responder_session(
                message,
                local_identity,
                local_registration_id,
                signed_pre_key_pair,
                one_time_pre_key_pair,
            ),
        ).spec_has_session_state(message.message_version, message.base_key.key),
{
}

} // verus!
