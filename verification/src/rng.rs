//! Injected randomness. Key generation never draws from ambient global
//! state: the caller hands the initiator path a generator, so a test can
//! supply a fixed seed and replay a handshake deterministically.

use vstd::prelude::*;
use crate::curve::KeyPair;

verus! {

/// A source of key material. Nothing is promised of the values drawn: the
/// protocol's contracts hold whatever comes back.
pub trait RandomSource {
    fn next_u64(&mut self) -> u64;
}

/// One step of the seeded generator: a linear congruential step on the
/// state word.
pub open spec fn spec_seeded_step(state: u64) -> u64 {
    state.wrapping_mul(0x5851F42D4C957F2D).wrapping_add(0x14057B7EF767814F)
}

/// A deterministic generator for tests and replay: a fixed seed gives a
/// fixed draw sequence.
pub struct SeededRng {
    state: u64,
}

impl SeededRng {
    /// The state the next draw will step from.
    pub closed spec fn state_spec(&self) -> u64 {
        self.state
    }

    pub fn new(seed: u64) -> (r: SeededRng)
        ensures
            r.state_spec() == seed,
    {
        SeededRng { state: seed }
    }
}

impl RandomSource for SeededRng {
    /// Each draw is a fixed function of the state, so a fixed seed replays
    /// a fixed sequence.
    fn next_u64(&mut self) -> (r: u64)
        ensures
            r == spec_seeded_step(old(self).state_spec()),
            final(self).state_spec() == spec_seeded_step(old(self).state_spec()),
    {
        self.state = self.state.wrapping_mul(0x5851F42D4C957F2D).wrapping_add(0x14057B7EF767814F);
        self.state
    }
}

/// A generator backed by the operating system's entropy.
pub struct SystemRandom {
    _private: bool,
}

impl SystemRandom {
    pub fn new() -> (r: SystemRandom) {
        SystemRandom { _private: false }
    }
}

/// Relies on rand::random: draws one value from the thread-local generator.
/// The value depends on the machine's entropy, so nothing is assumed of it.
#[verifier::external_body]
fn os_random_u64() -> u64 {
    rand::random::<u64>()
}

impl RandomSource for SystemRandom {
    fn next_u64(&mut self) -> u64 {
        os_random_u64()
    }
}

impl KeyPair {
    /// Generate a fresh key pair from the supplied randomness source.
    pub fn generate<R: RandomSource>(csprng: &mut R) -> (r: KeyPair)
        ensures
            r.wf(),
    {
        let private_key = csprng.next_u64();
        KeyPair::from_private(private_key)
    }
}

} // verus!
