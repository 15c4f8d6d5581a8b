//! The state of one consensus instance at one node.

use crate::text::{contains_text, distinct_len, insert_text, texts};
use vstd::prelude::*;

verus! {

/// `tokio::time::Instant`, a moment of the monotonic clock.
#[verifier::external_type_specification]
#[verifier::external_body]
pub struct ExInstant(tokio::time::Instant);

/// The moment a context was created. For diagnostics only: no decision of the
/// engine reads it.
#[derive(Debug, Clone, Copy)]
pub struct ConsensusTimestamp(pub tokio::time::Instant);

/// Reads the monotonic clock with `tokio::time::Instant::now`. Nothing is
/// claimed of the moment that comes back.
#[verifier::external_body]
fn instant_now() -> tokio::time::Instant {
    tokio::time::Instant::now()
}

impl Default for ConsensusTimestamp {
    fn default() -> Self {
        ConsensusTimestamp(instant_now())
    }
}

/// What the protocol reads of a context: everything but the time of creation.
/// The votes are sets.
pub struct ContextView {
    pub id: Seq<char>,
    pub original_sender: bool,
    pub local_address: Seq<char>,
    pub peers: Seq<Seq<char>>,
    pub prepare: Set<Seq<char>>,
    pub commit: Set<Seq<char>>,
    pub prepared: bool,
    pub committed: bool,
}

/// The context of a message that no vote was cast for yet.
pub open spec fn fresh_context(
    id: Seq<char>,
    original_sender: bool,
    local_address: Seq<char>,
    peers: Seq<Seq<char>>,
) -> ContextView {
    ContextView {
        id,
        original_sender,
        local_address,
        peers,
        prepare: Set::empty(),
        commit: Set::empty(),
        prepared: false,
        committed: false,
    }
}

/// Per-message consensus state. `peers` is the membership the instance was
/// started with; `prepare` and `commit` hold the voters of each phase, each
/// at most once.
#[derive(Debug, Clone)]
pub struct ConsensusContext {
    pub id: String,
    pub timestamp: ConsensusTimestamp,
    pub original_sender: bool,
    pub local_address: String,
    pub peers: Vec<String>,
    pub prepare: Vec<String>,
    pub commit: Vec<String>,
    pub prepared: bool,
    pub committed: bool,
}

impl View for ConsensusContext {
    type V = ContextView;

    open spec fn view(&self) -> ContextView {
        ContextView {
            id: self.id@,
            original_sender: self.original_sender,
            local_address: self.local_address@,
            peers: texts(self.peers@),
            prepare: texts(self.prepare@).to_set(),
            commit: texts(self.commit@).to_set(),
            prepared: self.prepared,
            committed: self.committed,
        }
    }
}

impl ConsensusContext {
    /// No voter is listed twice.
    pub open spec fn wf(&self) -> bool {
        &&& texts(self.prepare@).no_duplicates()
        &&& texts(self.commit@).no_duplicates()
    }

    pub fn new(id: String, original_sender: bool, local_address: String, peers: Vec<String>) -> (ctx:
        ConsensusContext)
        ensures
            ctx.wf(),
            ctx@ == fresh_context(id@, original_sender, local_address@, texts(peers@)),
    {
        let ctx = ConsensusContext {
            id,
            timestamp: ConsensusTimestamp::default(),
            original_sender,
            local_address,
            peers,
            prepare: Vec::new(),
            commit: Vec::new(),
            prepared: false,
            committed: false,
        };
        assert(texts(ctx.prepare@).to_set() =~= Set::empty());
        assert(texts(ctx.commit@).to_set() =~= Set::empty());
        ctx
    }

    /// Records a PREPARE vote of `peer`. A second vote of the same peer
    /// changes nothing.
    pub fn add_prepare(&mut self, peer: String)
        requires
            old(self).wf(),
        ensures
            final(self).wf(),
            final(self)@ == (ContextView { prepare: old(self)@.prepare.insert(peer@), ..old(self)@ }),
    {
        insert_text(&mut self.prepare, peer);
    }

    /// Records a COMMIT vote of `peer`. A second vote of the same peer
    /// changes nothing.
    pub fn add_commit(&mut self, peer: String)
        requires
            old(self).wf(),
        ensures
            final(self).wf(),
            final(self)@ == (ContextView { commit: old(self)@.commit.insert(peer@), ..old(self)@ }),
    {
        insert_text(&mut self.commit, peer);
    }

    /// Is `peer` among the members the instance was started with?
    pub fn is_member(&self, peer: &String) -> (member: bool)
        ensures
            member == self@.peers.contains(peer@),
    {
        contains_text(&self.peers, peer)
    }

    /// Has `peer` voted PREPARE?
    pub fn has_prepare(&self, peer: &String) -> (voted: bool)
        ensures
            voted == self@.prepare.contains(peer@),
    {
        contains_text(&self.prepare, peer)
    }

    /// Has `peer` voted COMMIT?
    pub fn has_commit(&self, peer: &String) -> (voted: bool)
        ensures
            voted == self@.commit.contains(peer@),
    {
        contains_text(&self.commit, peer)
    }

    /// The number of PREPARE votes.
    pub fn prepare_count(&self) -> (n: usize)
        requires
            self.wf(),
        ensures
            n == self@.prepare.len(),
    {
        proof {
            distinct_len(texts(self.prepare@));
        }
        self.prepare.len()
    }

    /// The number of COMMIT votes.
    pub fn commit_count(&self) -> (n: usize)
        requires
            self.wf(),
        ensures
            n == self@.commit.len(),
    {
        proof {
            distinct_len(texts(self.commit@));
        }
        self.commit.len()
    }
}

} // verus!
