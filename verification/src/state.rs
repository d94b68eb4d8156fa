//! Session state and the per-address session record: one current state plus
//! a bounded, most-recent-first list of archived states, kept so that
//! messages encrypted under a superseded chain can still be decrypted.

use vstd::prelude::*;
use crate::curve::PublicKey;

verus! {

/// How many archived states a record retains; archiving beyond this evicts
/// the oldest archived state.
pub const ARCHIVED_STATES_MAX_LENGTH: usize = 40;

/// Bookkeeping for an initial message not yet acknowledged by the peer:
/// which pre-keys and base key the handshake used, so a resend of the same
/// initial message can be recognized.
#[derive(Clone, Copy, PartialEq, Eq, Debug)]
pub struct PendingPreKey {
    pub pre_key_id: Option<u32>,
    pub signed_pre_key_id: u32,
    pub base_key: PublicKey,
}

/// The live ratchet state of one session instance.
#[derive(Clone, Copy, PartialEq, Eq, Debug)]
pub struct SessionState {
    /// Negotiated protocol version.
    pub session_version: u32,
    /// Our identity public key.
    pub local_identity_key: PublicKey,
    /// The peer's identity public key.
    pub remote_identity_key: PublicKey,
    /// Root of the derived chain material.
    pub root_key: u64,
    /// Chain key for the sending direction, where this side sends first.
    pub sender_chain_key: Option<u64>,
    /// Chain key for the receiving direction, where the peer sends first.
    pub receiver_chain_key: Option<u64>,
    /// Our registration id.
    pub local_registration_id: u32,
    /// The peer's registration id.
    pub remote_registration_id: u32,
    /// Fingerprint of the initiator's base key, the retransmission mark.
    pub alice_base_key: u64,
    /// Set on the initiator side until the handshake is acknowledged.
    pub pending_pre_key: Option<PendingPreKey>,
}

/// Whether a state answers to a given version and base-key fingerprint:
/// the duplicate-suppression test.
pub open spec fn spec_state_matches(s: SessionState, version: u32, alice_base_key: u64) -> bool {
    s.session_version == version && s.alice_base_key == alice_base_key
}

/// Mathematical view of a session record.
pub struct RecordView {
    pub current: Option<SessionState>,
    pub archived: Seq<SessionState>,
}

impl RecordView {
    /// A record never retains more archived states than the capacity bound.
    pub open spec fn wf(self) -> bool {
        self.archived.len() <= ARCHIVED_STATES_MAX_LENGTH
    }

    /// Some retained state, current or archived, matches the version and
    /// base-key fingerprint.
    pub open spec fn spec_has_session_state(self, version: u32, alice_base_key: u64) -> bool {
        ||| (self.current matches Some(s) && spec_state_matches(s, version, alice_base_key))
        ||| exists|i: int|
            0 <= i < self.archived.len() && #[trigger] spec_state_matches(
                self.archived[i],
                version,
                alice_base_key,
            )
    }

    /// The record after archiving: the current state, if any, moves to the
    /// front of the archive, and the oldest archived state is evicted once
    /// the archive would exceed its capacity.
    pub open spec fn spec_archive(self) -> RecordView {
        match self.current {
            None => self,
            Some(c) => RecordView {
                current: None,
                archived: if self.archived.len() < ARCHIVED_STATES_MAX_LENGTH {
                    seq![c] + self.archived
                } else {
                    (seq![c] + self.archived).subrange(0, ARCHIVED_STATES_MAX_LENGTH as int)
                },
            },
        }
    }

    /// The record after promoting `s`: `s` becomes current; promotion does
    /// not itself archive.
    pub open spec fn spec_promote(self, s: SessionState) -> RecordView {
        RecordView { current: Some(s), archived: self.archived }
    }
}

/// Archiving puts the superseded current state at the front of the archive,
/// keeps the record within its capacity bound, and evicts only the oldest
/// archived state, never the state being archived.
pub proof fn lemma_archive_properties(rec: RecordView)
    requires
        rec.current is Some,
        rec.wf(),
    ensures
        rec.spec_archive().current is None,
        rec.current matches Some(c) ==> rec.spec_archive().archived[0] == c,
        rec.archived.len() < ARCHIVED_STATES_MAX_LENGTH ==> rec.spec_archive().archived.len()
            == rec.archived.len() + 1,
        rec.archived.len() == ARCHIVED_STATES_MAX_LENGTH ==> rec.spec_archive().archived.len()
            == ARCHIVED_STATES_MAX_LENGTH,
        forall|i: int|
            0 <= i < rec.spec_archive().archived.len() - 1 ==> rec.spec_archive().archived[i + 1]
                == rec.archived[i],
        rec.spec_archive().wf(),
{
}

/// Per-address session record: at most one current state plus the bounded
/// archive of superseded states, most recent first.
#[derive(Clone, PartialEq, Debug)]
pub struct SessionRecord {
    current: Option<SessionState>,
    archived: Vec<SessionState>,
}

impl View for SessionRecord {
    type V = RecordView;

    closed spec fn view(&self) -> RecordView {
        RecordView { current: self.current, archived: self.archived@ }
    }
}

impl SessionRecord {
    /// The never-established representation: no states at all.
    pub fn new_fresh() -> (r: SessionRecord)
        ensures
            r@.current is None,
            r@.archived == Seq::<SessionState>::empty(),
            r@.wf(),
    {
        SessionRecord { current: None, archived: Vec::new() }
    }

    /// The current state, if one has been promoted.
    pub fn session_state(&self) -> (r: Option<SessionState>)
        ensures
            r == self@.current,
    {
        self.current
    }

    /// How many archived states the record retains.
    pub fn archived_count(&self) -> (r: usize)
        ensures
            r == self@.archived.len(),
    {
        self.archived.len()
    }

    /// The archived state at position `i`, most recent first.
    pub fn archived_state(&self, i: usize) -> (r: SessionState)
        requires
            i < self@.archived.len(),
        ensures
            r == self@.archived[i as int],
    {
        self.archived[i]
    }

    /// Linear scan of current and archived states for one matching the
    /// version and base-key fingerprint.
    pub fn has_session_state(&self, version: u32, alice_base_key: u64) -> (r: bool)
        ensures
            r == self@.spec_has_session_state(version, alice_base_key),
    {
        if let Some(s) = self.current {
            if s.session_version == version && s.alice_base_key == alice_base_key {
                return true;
            }
        }
        let n = self.archived.len();
        let mut i: usize = 0;
        while i < n
            invariant
                n == self@.archived.len(),
                0 <= i <= n,
                forall|j: int|
                    0 <= j < i ==> !#[trigger] spec_state_matches(
                        self@.archived[j],
                        version,
                        alice_base_key,
                    ),
            decreases n - i,
        {
            let s = self.archived[i];
            if s.session_version == version && s.alice_base_key == alice_base_key {
                assert(spec_state_matches(self@.archived[i as int], version, alice_base_key));
                return true;
            }
            i += 1;
        }
        false
    }

    /// Move the current state, if any, to the front of the archive,
    /// evicting the oldest archived state if the archive is full. A no-op
    /// on a record with no current state.
    pub fn archive_current_state(&mut self)
        ensures
            final(self)@ == old(self)@.spec_archive(),
    {
        if let Some(c) = self.current {
            self.current = None;
            self.archived.insert(0, c);
            self.archived.truncate(ARCHIVED_STATES_MAX_LENGTH);
            proof {
                assert(seq![c] + old(self)@.archived == old(self)@.archived.insert(0, c));
                if old(self)@.archived.len() < ARCHIVED_STATES_MAX_LENGTH {
                    assert(self@.archived =~= seq![c] + old(self)@.archived);
                } else {
                    assert(self@.archived =~= (seq![c] + old(self)@.archived).subrange(
                        0,
                        ARCHIVED_STATES_MAX_LENGTH as int,
                    ));
                }
                assert(self@ =~= old(self)@.spec_archive());
            }
        }
    }

    /// Install `new_state` as the current state. Does not itself archive:
    /// callers archive first when superseding an established session.
    pub fn promote_state(&mut self, new_state: SessionState)
        ensures
            final(self)@ == old(self)@.spec_promote(new_state),
    {
        self.current = Some(new_state);
        proof {
            assert(self@ =~= old(self)@.spec_promote(new_state));
        }
    }

    /// A structural copy of the record.
    pub fn clone_record(&self) -> (r: SessionRecord)
        ensures
            r@ == self@,
    {
        let mut archived: Vec<SessionState> = Vec::new();
        let mut i: usize = 0;
        while i < self.archived.len()
            invariant
                0 <= i <= self.archived.len(),
                archived@ == self.archived@.subrange(0, i as int),
            decreases self.archived.len() - i,
        {
            archived.push(self.archived[i]);
            i += 1;
        }
        proof {
            assert(archived@ =~= self.archived@);
        }
        let r = SessionRecord { current: self.current, archived };
        proof {
            assert(r@ =~= self@);
        }
        r
    }
}

} // verus!
