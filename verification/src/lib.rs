//! Session establishment for an X3DH-style handshake: processing a received
//! pre-key message (responder path) and a fetched pre-key bundle (initiator
//! path), with identity-trust checks, signature verification, duplicate
//! suppression, and bounded archiving of superseded session states.

use vstd::prelude::*;

pub mod address;
pub mod bundle;
pub mod curve;
pub mod errors;
pub mod inmem;
pub mod ratchet;
pub mod rng;
pub mod session;
pub mod state;
pub mod stores;
mod table;

pub use address::{AddressView, ProtocolAddress};
pub use bundle::{PreKeyBundle, PreKeySignalMessage};
pub use curve::{IdentityKey, IdentityKeyPair, KeyPair, PublicKey};
pub use errors::{SignalErrorCode, SignalProtocolError};
pub use inmem::{
    InMemIdentityKeyStore, InMemPreKeyStore, InMemSessionStore, InMemSignedPreKeyStore,
    RefusingSessionStore,
};
pub use ratchet::{
    initialize_alice_session, initialize_bob_session, AliceSignalProtocolParameters,
    BobSignalProtocolParameters,
};
pub use rng::{RandomSource, SeededRng, SystemRandom};
pub use session::{process_prekey, process_prekey_bundle, process_prekey_bundle_with_base_key};
pub use state::{
    PendingPreKey, RecordView, SessionRecord, SessionState, ARCHIVED_STATES_MAX_LENGTH,
};
pub use stores::{Direction, IdentityKeyStore, PreKeyStore, SessionStore, SignedPreKeyStore};

verus! {

/// The protocol version this library negotiates.
pub const CIPHERTEXT_MESSAGE_CURRENT_VERSION: u32 = 3;

} // verus!
