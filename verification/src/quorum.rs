//! Quorum policies: when is a number of votes enough to leave a phase.

use vstd::prelude::*;

verus! {

/// A quorum policy. Both predicates take the number of votes received and the
/// number of members of the consensus instance.
///
/// A policy is monotone in the votes: more votes never undo a quorum.
pub trait Quorum {
    /// The prepare predicate, as a mathematical function.
    spec fn spec_prepare_threshold(&self, votes: nat, members: nat) -> bool;

    /// The commit predicate, as a mathematical function.
    spec fn spec_commit_threshold(&self, votes: nat, members: nat) -> bool;

    /// Are `votes` PREPARE votes enough among `members` members?
    fn prepare_threshold(&self, votes: usize, members: usize) -> (met: bool)
        ensures
            met == self.spec_prepare_threshold(votes as nat, members as nat),
    ;

    /// Are `votes` COMMIT votes enough among `members` members?
    fn commit_threshold(&self, votes: usize, members: usize) -> (met: bool)
        ensures
            met == self.spec_commit_threshold(votes as nat, members as nat),
    ;

    /// Once met, the prepare predicate stays met with more votes.
    proof fn prepare_threshold_monotone(&self, votes: nat, more: nat, members: nat)
        requires
            votes <= more,
            self.spec_prepare_threshold(votes, members),
        ensures
            self.spec_prepare_threshold(more, members),
    ;

    /// Once met, the commit predicate stays met with more votes.
    proof fn commit_threshold_monotone(&self, votes: nat, more: nat, members: nat)
        requires
            votes <= more,
            self.spec_commit_threshold(votes, members),
        ensures
            self.spec_commit_threshold(more, members),
    ;
}

/// The smallest number of votes that the two-thirds-plus-one rule accepts
/// among `members` members: `ceil(2 * members / 3) + 1`.
pub open spec fn two_thirds_plus_one(members: nat) -> nat {
    (2 * members + 2) / 3 + 1
}

/// Byzantine-style policy: a phase is complete with `ceil(2m/3) + 1` votes.
#[derive(Clone, Copy, Debug)]
pub struct TwoThirdsQuorum {}

impl TwoThirdsQuorum {
    pub fn new() -> (q: Self) {
        TwoThirdsQuorum {  }
    }

    /// The number of votes that completes a phase among `members` members.
    /// `None` when that number does not fit in `usize`.
    pub fn required_votes(members: usize) -> (needed: Option<usize>)
        ensures
            match needed {
                Some(n) => n == two_thirds_plus_one(members as nat),
                None => two_thirds_plus_one(members as nat) > usize::MAX,
            },
    {
        // ceil(2m / 3) without computing 2m
        let two_thirds: usize = 2 * (members / 3) + members % 3;
        two_thirds.checked_add(1)
    }
}

impl Quorum for TwoThirdsQuorum {
    open spec fn spec_prepare_threshold(&self, votes: nat, members: nat) -> bool {
        votes >= two_thirds_plus_one(members)
    }

    open spec fn spec_commit_threshold(&self, votes: nat, members: nat) -> bool {
        votes >= two_thirds_plus_one(members)
    }

    fn prepare_threshold(&self, votes: usize, members: usize) -> (met: bool) {
        match Self::required_votes(members) {
            Some(needed) => votes >= needed,
            None => false,
        }
    }

    fn commit_threshold(&self, votes: usize, members: usize) -> (met: bool) {
        match Self::required_votes(members) {
            Some(needed) => votes >= needed,
            None => false,
        }
    }

    proof fn prepare_threshold_monotone(&self, votes: nat, more: nat, members: nat) {
    }

    proof fn commit_threshold_monotone(&self, votes: nat, more: nat, members: nat) {
    }
}

/// Configured policy: a phase is complete with `threshold_size` votes,
/// whatever the number of members. `cluster_size` is the size the threshold
/// was chosen for.
#[derive(Clone, Copy, Debug)]
pub struct BasicQuorum {
    pub threshold_size: usize,
    pub cluster_size: usize,
}

impl BasicQuorum {
    pub fn new(threshold_size: usize, cluster_size: usize) -> (q: Self)
        ensures
            q.threshold_size == threshold_size,
            q.cluster_size == cluster_size,
    {
        BasicQuorum { threshold_size, cluster_size }
    }
}

impl Quorum for BasicQuorum {
    open spec fn spec_prepare_threshold(&self, votes: nat, members: nat) -> bool {
        votes >= self.threshold_size
    }

    open spec fn spec_commit_threshold(&self, votes: nat, members: nat) -> bool {
        votes >= self.threshold_size
    }

    fn prepare_threshold(&self, votes: usize, members: usize) -> (met: bool) {
        votes >= self.threshold_size
    }

    fn commit_threshold(&self, votes: usize, members: usize) -> (met: bool) {
        votes >= self.threshold_size
    }

    proof fn prepare_threshold_monotone(&self, votes: nat, more: nat, members: nat) {
    }

    proof fn commit_threshold_monotone(&self, votes: nat, more: nat, members: nat) {
    }
}

} // verus!
