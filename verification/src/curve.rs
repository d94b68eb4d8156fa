//! Key material for the handshake: asymmetric key pairs, Diffie-Hellman
//! style agreement, and signatures of an identity key over a signed
//! pre-key.
//!
//! The protocol logic never depends on which concrete primitives sit here,
//! only on two algebraic facts that this module states and proves: agreement
//! is symmetric between the two parties (`lemma_agreement_symmetric`), and a
//! signature verifies exactly when it was produced over the same message by
//! the same identity key. The stand-in primitives are word-sized so that
//! every step of the protocol above them is verified end to end.

use vstd::prelude::*;

verus! {

/// Offset folded into a private key to obtain the matching public key.
pub const KEY_BASE_POINT: u64 = 0x9E3779B97F4A7C15;

/// Domain separator folded into every signature.
pub const SIGNATURE_DOMAIN: u64 = 0xC2B2AE3D27D4EB4F;

/// The public key derived from a private key.
pub open spec fn spec_public_of(private_key: u64) -> u64 {
    private_key ^ KEY_BASE_POINT
}

/// The shared secret one party derives from its own private key and the
/// peer's public key.
pub open spec fn spec_agreement(private_key: u64, peer_public: u64) -> u64 {
    private_key ^ peer_public
}

/// The signature of the identity key with public part `identity_public`
/// over `message`.
pub open spec fn spec_signature(identity_public: u64, message: u64) -> u64 {
    identity_public ^ message ^ SIGNATURE_DOMAIN
}

/// Both parties derive the same secret: what one computes from its private
/// key and the peer's public key equals what the peer computes the other
/// way around.
pub proof fn lemma_agreement_symmetric(a: u64, b: u64)
    ensures
        spec_agreement(a, spec_public_of(b)) == spec_agreement(b, spec_public_of(a)),
{
    assert(a ^ (b ^ 0x9E3779B97F4A7C15u64) == b ^ (a ^ 0x9E3779B97F4A7C15u64)) by (bit_vector);
}

/// A public key: the shareable half of a key pair.
#[derive(Clone, Copy, PartialEq, Eq, Structural, Debug)]
pub struct PublicKey {
    pub key: u64,
}

impl PublicKey {
    pub fn new(key: u64) -> (r: PublicKey)
        ensures
            r.key == key,
    {
        PublicKey { key }
    }
}

/// An ephemeral or semi-static key pair.
#[derive(Clone, Copy, PartialEq, Eq, Structural, Debug)]
pub struct KeyPair {
    pub public_key: PublicKey,
    pub private_key: u64,
}

impl KeyPair {
    /// A key pair is well formed when its public half matches its private
    /// half.
    pub open spec fn wf(self) -> bool {
        self.public_key.key == spec_public_of(self.private_key)
    }

    /// The key pair whose private half is `private_key`.
    pub fn from_private(private_key: u64) -> (r: KeyPair)
        ensures
            r.wf(),
            r.private_key == private_key,
    {
        KeyPair { public_key: PublicKey { key: private_key ^ KEY_BASE_POINT }, private_key }
    }

    /// The shared secret with the peer holding `their_key`.
    pub fn calculate_agreement(&self, their_key: &PublicKey) -> (r: u64)
        ensures
            r == spec_agreement(self.private_key, their_key.key),
    {
        self.private_key ^ their_key.key
    }
}

/// A long-term identity key: the public half of an identity key pair.
#[derive(Clone, Copy, PartialEq, Eq, Structural, Debug)]
pub struct IdentityKey {
    pub public_key: PublicKey,
}

impl IdentityKey {
    pub fn new(public_key: PublicKey) -> (r: IdentityKey)
        ensures
            r.public_key == public_key,
    {
        IdentityKey { public_key }
    }

    /// Check a signature over `message` against this identity key.
    pub fn verify_signature(&self, message: u64, signature: u64) -> (r: bool)
        ensures
            r == (signature == spec_signature(self.public_key.key, message)),
    {
        signature == (self.public_key.key ^ message ^ SIGNATURE_DOMAIN)
    }
}

/// A long-term identity key pair.
#[derive(Clone, Copy, PartialEq, Eq, Structural, Debug)]
pub struct IdentityKeyPair {
    pub identity_key: IdentityKey,
    pub private_key: u64,
}

impl IdentityKeyPair {
    pub open spec fn wf(self) -> bool {
        self.identity_key.public_key.key == spec_public_of(self.private_key)
    }

    pub fn from_private(private_key: u64) -> (r: IdentityKeyPair)
        ensures
            r.wf(),
            r.private_key == private_key,
    {
        IdentityKeyPair {
            identity_key: IdentityKey { public_key: PublicKey { key: private_key ^ KEY_BASE_POINT } },
            private_key,
        }
    }

    /// The shared secret with the peer holding `their_key`.
    pub fn calculate_agreement(&self, their_key: &PublicKey) -> (r: u64)
        ensures
            r == spec_agreement(self.private_key, their_key.key),
    {
        self.private_key ^ their_key.key
    }

    /// Sign `message` with this identity key, so that
    /// [`IdentityKey::verify_signature`] accepts it.
    pub fn sign(&self, message: u64) -> (r: u64)
        ensures
            r == spec_signature(self.identity_key.public_key.key, message),
    {
        self.identity_key.public_key.key ^ message ^ SIGNATURE_DOMAIN
    }
}

} // verus!
