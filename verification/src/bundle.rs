//! The two handshake artifacts the protocol reads: a peer's published
//! pre-key bundle, and a received pre-key message.

use vstd::prelude::*;
use crate::curve::{IdentityKey, PublicKey};

verus! {

/// A remote party's published key material, immutable once fetched: the
/// identity key, a signed pre-key with its signature, and optionally a
/// one-time pre-key.
#[derive(Clone, Copy, PartialEq, Eq, Debug)]
pub struct PreKeyBundle {
    pub registration_id: u32,
    pub device_id: u32,
    pub pre_key_id: Option<u32>,
    pub pre_key_public: Option<PublicKey>,
    pub signed_pre_key_id: u32,
    pub signed_pre_key_public: PublicKey,
    pub signed_pre_key_signature: u64,
    pub identity_key: IdentityKey,
}

impl PreKeyBundle {
    /// A bundle carries a one-time pre-key id exactly when it carries the
    /// matching public key.
    pub open spec fn wf(self) -> bool {
        (self.pre_key_id is Some) == (self.pre_key_public is Some)
    }

    pub fn new(
        registration_id: u32,
        device_id: u32,
        pre_key: Option<(u32, PublicKey)>,
        signed_pre_key_id: u32,
        signed_pre_key_public: PublicKey,
        signed_pre_key_signature: u64,
        identity_key: IdentityKey,
    ) -> (r: PreKeyBundle)
        ensures
            r.wf(),
            r.registration_id == registration_id,
            r.device_id == device_id,
            pre_key matches Some((id, pk)) ==> r.pre_key_id == Some(id) && r.pre_key_public
                == Some(pk),
            pre_key is None ==> r.pre_key_id is None && r.pre_key_public is None,
            r.signed_pre_key_id == signed_pre_key_id,
            r.signed_pre_key_public == signed_pre_key_public,
            r.signed_pre_key_signature == signed_pre_key_signature,
            r.identity_key == identity_key,
    {
        let (pre_key_id, pre_key_public) = match pre_key {
            Some((id, pk)) => (Some(id), Some(pk)),
            None => (None, None),
        };
        PreKeyBundle {
            registration_id,
            device_id,
            pre_key_id,
            pre_key_public,
            signed_pre_key_id,
            signed_pre_key_public,
            signed_pre_key_signature,
            identity_key,
        }
    }
}

/// A received handshake message: the fields the protocol logic reads. The
/// embedded ciphertext is handled downstream and not represented here.
#[derive(Clone, Copy, PartialEq, Eq, Debug)]
pub struct PreKeySignalMessage {
    pub message_version: u32,
    pub registration_id: u32,
    pub pre_key_id: Option<u32>,
    pub signed_pre_key_id: u32,
    pub base_key: PublicKey,
    pub identity_key: IdentityKey,
}

impl PreKeySignalMessage {
    pub fn new(
        message_version: u32,
        registration_id: u32,
        pre_key_id: Option<u32>,
        signed_pre_key_id: u32,
        base_key: PublicKey,
        identity_key: IdentityKey,
    ) -> (r: PreKeySignalMessage)
        ensures
            r == (PreKeySignalMessage {
                message_version,
                registration_id,
                pre_key_id,
                signed_pre_key_id,
                base_key,
                identity_key,
            }),
    {
        PreKeySignalMessage {
            message_version,
            registration_id,
            pre_key_id,
            signed_pre_key_id,
            base_key,
            identity_key,
        }
    }
}

} // verus!
