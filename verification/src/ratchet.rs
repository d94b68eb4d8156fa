//! Ratchet initialization: the two role-specific entry points that turn
//! handshake key material into a fresh session state, and the proof that
//! the two roles derive matching chain material.

use vstd::prelude::*;
use crate::curve::{
    lemma_agreement_symmetric, spec_agreement, IdentityKey, IdentityKeyPair, KeyPair, PublicKey,
};
use crate::state::SessionState;
use crate::CIPHERTEXT_MESSAGE_CURRENT_VERSION;

verus! {

/// Domain separator for the root key derived from the shared secret.
pub const ROOT_KDF_DOMAIN: u64 = 0x243F6A8885A308D3;

/// Domain separator for the chain key derived from the shared secret.
pub const CHAIN_KDF_DOMAIN: u64 = 0x13198A2E03707344;

/// What the initiator ("Alice") hands the ratchet initializer. The signed
/// pre-key and the ratchet key are distinct parameters that alias for the
/// current protocol version; a later version may supply a distinct ratchet
/// key.
#[derive(Clone, Copy, PartialEq, Eq, Debug)]
pub struct AliceSignalProtocolParameters {
    pub our_identity_key_pair: IdentityKeyPair,
    pub our_base_key_pair: KeyPair,
    pub their_identity_key: IdentityKey,
    pub their_signed_pre_key: PublicKey,
    pub their_one_time_pre_key: Option<PublicKey>,
    pub their_ratchet_key: PublicKey,
}

/// What the responder ("Bob") hands the ratchet initializer.
#[derive(Clone, Copy, PartialEq, Eq, Debug)]
pub struct BobSignalProtocolParameters {
    pub our_identity_key_pair: IdentityKeyPair,
    pub our_signed_pre_key_pair: KeyPair,
    pub our_one_time_pre_key_pair: Option<KeyPair>,
    pub our_ratchet_key_pair: KeyPair,
    pub their_identity_key: IdentityKey,
    pub their_base_key: PublicKey,
}

/// The shared secret the initiator derives: the agreement of identity and
/// base keys against the peer's published pre-keys, folded together.
pub open spec fn spec_alice_shared_secret(p: AliceSignalProtocolParameters) -> u64 {
    let dh1 = spec_agreement(p.our_identity_key_pair.private_key, p.their_signed_pre_key.key);
    let dh2 = spec_agreement(
        p.our_base_key_pair.private_key,
        p.their_identity_key.public_key.key,
    );
    let dh3 = spec_agreement(p.our_base_key_pair.private_key, p.their_signed_pre_key.key);
    match p.their_one_time_pre_key {
        None => dh1 ^ dh2 ^ dh3,
        Some(otpk) => dh1 ^ dh2 ^ dh3 ^ spec_agreement(p.our_base_key_pair.private_key, otpk.key),
    }
}

/// The agreement of the initiator's base key with the peer's ratchet key,
/// seeding the first chain.
pub open spec fn spec_alice_ratchet_secret(p: AliceSignalProtocolParameters) -> u64 {
    spec_agreement(p.our_base_key_pair.private_key, p.their_ratchet_key.key)
}

/// The session state the initiator derives. Registration ids, the base-key
/// fingerprint and the pending-pre-key bookkeeping are set by the caller.
pub open spec fn spec_initialize_alice(p: AliceSignalProtocolParameters) -> SessionState {
    let master = spec_alice_shared_secret(p);
    SessionState {
        session_version: CIPHERTEXT_MESSAGE_CURRENT_VERSION,
        local_identity_key: p.our_identity_key_pair.identity_key.public_key,
        remote_identity_key: p.their_identity_key.public_key,
        root_key: master ^ ROOT_KDF_DOMAIN,
        sender_chain_key: Some(master ^ spec_alice_ratchet_secret(p) ^ CHAIN_KDF_DOMAIN),
        receiver_chain_key: None,
        local_registration_id: 0,
        remote_registration_id: 0,
        alice_base_key: 0,
        pending_pre_key: None,
    }
}

/// The shared secret the responder derives from its own private pre-keys
/// and the initiator's public keys.
pub open spec fn spec_bob_shared_secret(p: BobSignalProtocolParameters) -> u64 {
    let dh1 = spec_agreement(
        p.our_signed_pre_key_pair.private_key,
        p.their_identity_key.public_key.key,
    );
    let dh2 = spec_agreement(p.our_identity_key_pair.private_key, p.their_base_key.key);
    let dh3 = spec_agreement(p.our_signed_pre_key_pair.private_key, p.their_base_key.key);
    match p.our_one_time_pre_key_pair {
        None => dh1 ^ dh2 ^ dh3,
        Some(opk) => dh1 ^ dh2 ^ dh3 ^ spec_agreement(opk.private_key, p.their_base_key.key),
    }
}

/// The agreement of the responder's ratchet key with the initiator's base
/// key.
pub open spec fn spec_bob_ratchet_secret(p: BobSignalProtocolParameters) -> u64 {
    spec_agreement(p.our_ratchet_key_pair.private_key, p.their_base_key.key)
}

/// The session state the responder derives.
pub open spec fn spec_initialize_bob(p: BobSignalProtocolParameters) -> SessionState {
    let master = spec_bob_shared_secret(p);
    SessionState {
        session_version: CIPHERTEXT_MESSAGE_CURRENT_VERSION,
        local_identity_key: p.our_identity_key_pair.identity_key.public_key,
        remote_identity_key: p.their_identity_key.public_key,
        root_key: master ^ ROOT_KDF_DOMAIN,
        sender_chain_key: None,
        receiver_chain_key: Some(master ^ spec_bob_ratchet_secret(p) ^ CHAIN_KDF_DOMAIN),
        local_registration_id: 0,
        remote_registration_id: 0,
        alice_base_key: 0,
        pending_pre_key: None,
    }
}

/// Initiator-role ratchet initialization: deterministically derives a fresh
/// session state from the parameters alone.
pub fn initialize_alice_session(parameters: &AliceSignalProtocolParameters) -> (r: SessionState)
    ensures
        r == spec_initialize_alice(*parameters),
{
    let dh1 = parameters.our_identity_key_pair.calculate_agreement(&parameters.their_signed_pre_key);
    let dh2 = parameters.our_base_key_pair.calculate_agreement(
        &parameters.their_identity_key.public_key,
    );
    let dh3 = parameters.our_base_key_pair.calculate_agreement(&parameters.their_signed_pre_key);
    let master = match parameters.their_one_time_pre_key {
        None => dh1 ^ dh2 ^ dh3,
        Some(otpk) => dh1 ^ dh2 ^ dh3 ^ parameters.our_base_key_pair.calculate_agreement(&otpk),
    };
    let ratchet_seed = parameters.our_base_key_pair.calculate_agreement(
        &parameters.their_ratchet_key,
    );
    SessionState {
        session_version: CIPHERTEXT_MESSAGE_CURRENT_VERSION,
        local_identity_key: parameters.our_identity_key_pair.identity_key.public_key,
        remote_identity_key: parameters.their_identity_key.public_key,
        root_key: master ^ ROOT_KDF_DOMAIN,
        sender_chain_key: Some(master ^ ratchet_seed ^ CHAIN_KDF_DOMAIN),
        receiver_chain_key: None,
        local_registration_id: 0,
        remote_registration_id: 0,
        alice_base_key: 0,
        pending_pre_key: None,
    }
}

/// Responder-role ratchet initialization.
pub fn initialize_bob_session(parameters: &BobSignalProtocolParameters) -> (r: SessionState)
    ensures
        r == spec_initialize_bob(*parameters),
{
    let dh1 = parameters.our_signed_pre_key_pair.calculate_agreement(
        &parameters.their_identity_key.public_key,
    );
    let dh2 = parameters.our_identity_key_pair.calculate_agreement(&parameters.their_base_key);
    let dh3 = parameters.our_signed_pre_key_pair.calculate_agreement(&parameters.their_base_key);
    let master = match parameters.our_one_time_pre_key_pair {
        None => dh1 ^ dh2 ^ dh3,
        Some(opk) => dh1 ^ dh2 ^ dh3 ^ opk.calculate_agreement(&parameters.their_base_key),
    };
    let ratchet_seed = parameters.our_ratchet_key_pair.calculate_agreement(
        &parameters.their_base_key,
    );
    SessionState {
        session_version: CIPHERTEXT_MESSAGE_CURRENT_VERSION,
        local_identity_key: parameters.our_identity_key_pair.identity_key.public_key,
        remote_identity_key: parameters.their_identity_key.public_key,
        root_key: master ^ ROOT_KDF_DOMAIN,
        sender_chain_key: None,
        receiver_chain_key: Some(master ^ ratchet_seed ^ CHAIN_KDF_DOMAIN),
        local_registration_id: 0,
        remote_registration_id: 0,
        alice_base_key: 0,
        pending_pre_key: None,
    }
}

/// The two parameter sets describe the same handshake: each side's view of
/// the peer's public keys matches the peer's pairs.
pub open spec fn spec_parameters_match(
    alice: AliceSignalProtocolParameters,
    bob: BobSignalProtocolParameters,
) -> bool {
    &&& alice.our_identity_key_pair.wf()
    &&& alice.our_base_key_pair.wf()
    &&& bob.our_identity_key_pair.wf()
    &&& bob.our_signed_pre_key_pair.wf()
    &&& bob.our_ratchet_key_pair.wf()
    &&& alice.their_identity_key == bob.our_identity_key_pair.identity_key
    &&& alice.their_signed_pre_key == bob.our_signed_pre_key_pair.public_key
    &&& alice.their_ratchet_key == bob.our_ratchet_key_pair.public_key
    &&& bob.their_identity_key == alice.our_identity_key_pair.identity_key
    &&& bob.their_base_key == alice.our_base_key_pair.public_key
    &&& (alice.their_one_time_pre_key is Some) == (bob.our_one_time_pre_key_pair is Some)
    &&& (alice.their_one_time_pre_key matches Some(k) ==> (
        bob.our_one_time_pre_key_pair matches Some(kp) && kp.wf() && kp.public_key == k
    ))
}

/// Round-trip agreement of the handshake: when the two sides describe the
/// same key material, the initiator and the responder derive the same root
/// key, and the initiator's sending chain is the responder's receiving
/// chain.
pub proof fn lemma_initialize_session_agreement(
    alice: AliceSignalProtocolParameters,
    bob: BobSignalProtocolParameters,
)
    requires
        spec_parameters_match(alice, bob),
    ensures
        spec_initialize_alice(alice).root_key == spec_initialize_bob(bob).root_key,
        spec_initialize_alice(alice).sender_chain_key == spec_initialize_bob(
            bob,
        ).receiver_chain_key,
        spec_initialize_alice(alice).session_version == spec_initialize_bob(bob).session_version,
        spec_initialize_alice(alice).local_identity_key == spec_initialize_bob(
            bob,
        ).remote_identity_key,
        spec_initialize_alice(alice).remote_identity_key == spec_initialize_bob(
            bob,
        ).local_identity_key,
{
    lemma_agreement_symmetric(
        alice.our_identity_key_pair.private_key,
        bob.our_signed_pre_key_pair.private_key,
    );
    lemma_agreement_symmetric(
        alice.our_base_key_pair.private_key,
        bob.our_identity_key_pair.private_key,
    );
    lemma_agreement_symmetric(
        alice.our_base_key_pair.private_key,
        bob.our_signed_pre_key_pair.private_key,
    );
    lemma_agreement_symmetric(
        alice.our_base_key_pair.private_key,
        bob.our_ratchet_key_pair.private_key,
    );
    if let Some(kp) = bob.our_one_time_pre_key_pair {
        lemma_agreement_symmetric(alice.our_base_key_pair.private_key, kp.private_key);
    }
}

} // verus!
