//! Who may take part in the broadcast.
//!
//! A `Membership` is one snapshot of the peer set: all the peers that were
//! announced, and those among them that are active. `Memberships` numbers
//! the snapshots, keeps the last of them in a bounded history, and holds the
//! snapshot that waits to become the current one.

use crate::peer::{clone_peers, contains_peer, insert_peer, peer_texts, to_texts, PeerId};
use crate::recency::{
    after_put, after_put_all, after_put_distinct, after_use, after_use_distinct, keys_distinct,
    position_of, position_of_found, value_of,
};
use crate::text::texts;
use lru::LruCache;
use std::num::NonZeroUsize;
use vstd::prelude::*;

verus! {

/// A peer as it was announced: its identifier and the address it listens on.
#[derive(Debug, Clone)]
pub struct Peer {
    pub peer_id: PeerId,
    pub address: String,
}

/// The identifier and the address of each announced peer, in order.
pub open spec fn peer_pairs(v: Seq<Peer>) -> Seq<(Seq<char>, Seq<char>)> {
    Seq::new(v.len(), |i: int| (v[i].peer_id@, v[i].address@))
}

/// The entries without those whose key an earlier entry has.
pub open spec fn first_of_each<V>(entries: Seq<(Seq<char>, V)>) -> Seq<(Seq<char>, V)>
    decreases entries.len(),
{
    if entries.len() == 0 {
        entries
    } else {
        let kept = first_of_each(entries.drop_last());
        if position_of(kept, entries.last().0).is_some() {
            kept
        } else {
            kept.push(entries.last())
        }
    }
}

/// `first_of_each` leaves distinct keys.
pub proof fn first_of_each_distinct<V>(entries: Seq<(Seq<char>, V)>)
    ensures
        keys_distinct(first_of_each(entries)),
        first_of_each(entries).len() <= entries.len(),
    decreases entries.len(),
{
    if entries.len() > 0 {
        first_of_each_distinct(entries.drop_last());
        let kept = first_of_each(entries.drop_last());
        position_of_found(kept, entries.last().0);
    }
}

/// One snapshot of the peer set.
#[derive(Debug, Clone)]
pub struct Membership {
    local_peer_id: PeerId,
    all_members: Vec<Peer>,
    active_members: Vec<PeerId>,
}

impl Membership {
    /// The identifier of this node.
    pub closed spec fn local(&self) -> Seq<char> {
        self.local_peer_id@
    }

    /// The announced peers, each once, with their addresses.
    pub closed spec fn members(&self) -> Seq<(Seq<char>, Seq<char>)> {
        peer_pairs(self.all_members@)
    }

    /// The active peers, in the order in which they became active.
    pub closed spec fn active(&self) -> Seq<Seq<char>> {
        peer_texts(self.active_members@)
    }

    /// The active peers and this node: who votes in an instance that starts
    /// under this snapshot.
    pub open spec fn active_with_local(&self) -> Seq<Seq<char>> {
        if self.active().contains(self.local()) {
            self.active()
        } else {
            self.active().push(self.local())
        }
    }

    /// No peer is announced twice, and none is listed as active twice.
    pub closed spec fn wf(&self) -> bool {
        &&& keys_distinct(peer_pairs(self.all_members@))
        &&& peer_texts(self.active_members@).no_duplicates()
    }

    /// In a well-formed snapshot the voters are listed once each.
    pub proof fn voters_distinct(&self)
        requires
            self.wf(),
        ensures
            self.active().no_duplicates(),
            self.active_with_local().no_duplicates(),
            keys_distinct(self.members()),
    {
        if !self.active().contains(self.local()) {
            crate::text::distinct_push(self.active(), self.local());
        }
    }

    /// The snapshot of this node `local_peer_id` with the given peers
    /// announced and none of them active. Of two peers with the same
    /// identifier the first is kept.
    pub fn new_with_local(all_members: Vec<Peer>, local_peer_id: PeerId) -> (m: Membership)
        ensures
            m.wf(),
            m.local() == local_peer_id@,
            m.members() == first_of_each(peer_pairs(all_members@)),
            m.active() == Seq::<Seq<char>>::empty(),
    {
        let mut kept: Vec<Peer> = Vec::new();
        let mut i: usize = 0;
        assert(peer_pairs(all_members@.take(0)) =~= Seq::empty());
        assert(peer_pairs(kept@) =~= Seq::empty());
        while i < all_members.len()
            invariant
                i <= all_members.len(),
                peer_pairs(kept@) == first_of_each(peer_pairs(all_members@.take(i as int))),
            decreases all_members.len() - i,
        {
            let candidate = &all_members[i];
            let known = find_peer(&kept, &candidate.peer_id).is_some();
            proof {
                let upto = peer_pairs(all_members@.take(i + 1));
                assert(upto.drop_last() =~= peer_pairs(all_members@.take(i as int)));
                assert(upto.last() == (candidate.peer_id@, candidate.address@));
            }
            if !known {
                let copy = Peer {
                    peer_id: PeerId(candidate.peer_id.0.clone()),
                    address: candidate.address.clone(),
                };
                assert(peer_pairs(kept@.push(copy)) =~= peer_pairs(kept@).push(
                    (candidate.peer_id@, candidate.address@),
                ));
                kept.push(copy);
            }
            i += 1;
        }
        proof {
            assert(all_members@.take(all_members.len() as int) =~= all_members@);
            first_of_each_distinct(peer_pairs(all_members@));
        }
        let m = Membership { local_peer_id, all_members: kept, active_members: Vec::new() };
        assert(m.active() =~= Seq::<Seq<char>>::empty());
        m
    }

    /// The snapshot with the given peers announced, none of them active, and
    /// a random identifier for this node.
    pub fn new(all_members: Vec<Peer>) -> (m: Membership)
        ensures
            m.wf(),
            m.members() == first_of_each(peer_pairs(all_members@)),
            m.active() == Seq::<Seq<char>>::empty(),
    {
        Membership::new_with_local(all_members, PeerId::random())
    }

    /// Marks a peer as active. Marking it twice changes nothing.
    pub fn add_active_peer(&mut self, peer_id: PeerId)
        requires
            old(self).wf(),
        ensures
            final(self).wf(),
            final(self).local() == old(self).local(),
            final(self).members() == old(self).members(),
            final(self).active() == if old(self).active().contains(peer_id@) {
                old(self).active()
            } else {
                old(self).active().push(peer_id@)
            },
    {
        insert_peer(&mut self.active_members, peer_id);
    }

    /// The identifiers of the announced peers.
    pub fn all_peer_ids_ref(&self) -> (ids: Vec<&PeerId>)
        ensures
            ids.len() == self.members().len(),
            forall|i: int| 0 <= i < ids.len() ==> ids[i]@ == self.members()[i].0,
    {
        let mut ids: Vec<&PeerId> = Vec::new();
        let mut i: usize = 0;
        while i < self.all_members.len()
            invariant
                i <= self.all_members.len(),
                ids.len() == i,
                forall|j: int| 0 <= j < i ==> ids[j]@ == self.all_members@[j].peer_id@,
            decreases self.all_members.len() - i,
        {
            ids.push(&self.all_members[i].peer_id);
            i += 1;
        }
        ids
    }

    /// The identifiers of the active peers, as the snapshot holds them.
    pub fn active_peer_ids_ref(&self) -> (ids: Vec<&PeerId>)
        ensures
            ids.len() == self.active().len(),
            forall|i: int| 0 <= i < ids.len() ==> ids[i]@ == self.active()[i],
    {
        let mut ids: Vec<&PeerId> = Vec::new();
        let mut i: usize = 0;
        while i < self.active_members.len()
            invariant
                i <= self.active_members.len(),
                ids.len() == i,
                forall|j: int| 0 <= j < i ==> ids[j]@ == self.active_members@[j]@,
            decreases self.active_members.len() - i,
        {
            ids.push(&self.active_members[i]);
            i += 1;
        }
        ids
    }

    /// The identifiers of the active peers.
    pub fn active_peer_ids(&self) -> (ids: Vec<PeerId>)
        ensures
            peer_texts(ids@) == self.active(),
    {
        clone_peers(&self.active_members)
    }

    /// The identifiers of the active peers and of this node, each once.
    pub fn active_peer_ids_with_local(&self) -> (ids: Vec<PeerId>)
        ensures
            peer_texts(ids@) == self.active_with_local(),
    {
        let mut ids = clone_peers(&self.active_members);
        if !contains_peer(&self.active_members, &self.local_peer_id) {
            let local = PeerId(self.local_peer_id.0.clone());
            assert(peer_texts(ids@.push(local)) =~= peer_texts(ids@).push(local@));
            ids.push(local);
        }
        ids
    }

    /// The texts of the identifiers of the active peers and of this node.
    pub fn voters(&self) -> (ids: Vec<String>)
        ensures
            texts(ids@) == self.active_with_local(),
    {
        let mut ids = to_texts(&self.active_members);
        if !contains_peer(&self.active_members, &self.local_peer_id) {
            let local = self.local_peer_id.0.clone();
            proof {
                crate::text::texts_push(ids@, local);
            }
            ids.push(local);
        }
        ids
    }

    /// Is the peer active or this node itself?
    pub fn is_member(&self, peer_id: &PeerId) -> (member: bool)
        ensures
            member == self.active_with_local().contains(peer_id@),
    {
        let listed = contains_peer(&self.active_members, peer_id);
        let local = self.local_peer_id.same(peer_id);
        proof {
            let all = self.active_with_local();
            if listed {
                let i = choose|i: int| 0 <= i < self.active().len() && self.active()[i] == peer_id@;
                assert(all[i] == peer_id@);
            } else if local {
                if self.active().contains(self.local()) {
                } else {
                    assert(all[self.active().len() as int] == peer_id@);
                }
            } else {
                if all.contains(peer_id@) {
                    let i = choose|i: int| 0 <= i < all.len() && all[i] == peer_id@;
                    if i < self.active().len() {
                        assert(self.active()[i] == peer_id@);
                    }
                }
            }
        }
        listed || local
    }

    /// The address a peer was announced with, if it was announced.
    pub fn peer_address(&self, peer_id: &PeerId) -> (address: Option<&String>)
        ensures
            match address {
                Some(a) => value_of(self.members(), peer_id@) == Some(a@),
                None => value_of(self.members(), peer_id@).is_none(),
            },
    {
        match find_peer(&self.all_members, peer_id) {
            Some(i) => Some(&self.all_members[i].address),
            None => None,
        }
    }
}

/// The place of the first peer with the given identifier.
fn find_peer(peers: &Vec<Peer>, peer_id: &PeerId) -> (place: Option<usize>)
    ensures
        match place {
            Some(i) => position_of(peer_pairs(peers@), peer_id@) == Some(i as int) && i
                < peers.len(),
            None => position_of(peer_pairs(peers@), peer_id@).is_none(),
        },
{
    let mut i: usize = 0;
    while i < peers.len()
        invariant
            i <= peers.len(),
            forall|j: int| 0 <= j < i ==> peer_pairs(peers@)[j].0 != peer_id@,
        decreases peers.len() - i,
    {
        if peers[i].peer_id.same(peer_id) {
            proof {
                assert(peer_pairs(peers@)[i as int].0 == peer_id@);
                position_of_found(peer_pairs(peers@), peer_id@);
            }
            return Some(i);
        }
        i += 1;
    }
    proof {
        position_of_found(peer_pairs(peers@), peer_id@);
    }
    None
}

/// The number of snapshots the history keeps.
pub const HISTORY_CAPACITY: usize = 1000;

/// The entries of a cache of snapshots, from the most recently used to the
/// least recently used, each with its number.
pub uninterp spec fn cached_snapshots(cache: LruCache<u64, Membership>) -> Seq<(u64, Membership)>;

/// The number of entries a cache of snapshots was made to hold.
pub uninterp spec fn cached_snapshots_limit(cache: LruCache<u64, Membership>) -> nat;

/// `LruCache::new`: an empty cache that holds at most `limit` entries.
#[verifier::external_body]
fn history_new(limit: usize) -> (cache: LruCache<u64, Membership>)
    requires
        0 < limit <= crate::store::MAX_CAPACITY,
    ensures
        cached_snapshots(cache) == Seq::<(u64, Membership)>::empty(),
        cached_snapshots_limit(cache) == limit,
{
    LruCache::new(NonZeroUsize::new(limit).unwrap())
}

/// `LruCache::put`: the entry of `key` becomes the most recently used one and
/// holds `value`. Where the key was not in a full cache, the least recently
/// used entry is dropped.
#[verifier::external_body]
fn history_put(cache: &mut LruCache<u64, Membership>, key: u64, value: Membership)
    ensures
        cached_snapshots_limit(*final(cache)) == cached_snapshots_limit(*old(cache)),
        cached_snapshots(*final(cache)) == after_put(
            cached_snapshots(*old(cache)),
            cached_snapshots_limit(*old(cache)),
            key,
            value,
        ),
{
    cache.put(key, value);
}

/// `LruCache::get`: the value of the entry of `key`, if there is one; that
/// entry becomes the most recently used one.
#[verifier::external_body]
fn history_get<'a>(cache: &'a mut LruCache<u64, Membership>, key: u64) -> (value: Option<&'a Membership>)
    ensures
        cached_snapshots_limit(*final(cache)) == cached_snapshots_limit(*old(cache)),
        cached_snapshots(*final(cache)) == after_use(cached_snapshots(*old(cache)), key),
        match value {
            Some(m) => value_of(cached_snapshots(*old(cache)), key) == Some(*m),
            None => value_of(cached_snapshots(*old(cache)), key).is_none(),
        },
{
    cache.get(&key)
}

/// The current snapshot is the most recently used one, or the second after
/// the snapshot before it.
pub open spec fn current_in_front(history: Seq<(u64, Membership)>, current: u64) -> bool {
    match position_of(history, current) {
        Some(p) => p == 0 || (p == 1 && history[0].0 == current - 1),
        None => false,
    }
}

/// The numbered snapshots of the peer set: the current one, the history of
/// those before it, and the one that waits to be activated.
pub struct Memberships {
    snapshots: LruCache<u64, Membership>,
    current: u64,
    pending_membership: Option<Membership>,
}

impl Memberships {
    /// The snapshots in the history, most recently used first, each with its
    /// number.
    pub closed spec fn history(&self) -> Seq<(u64, Membership)> {
        cached_snapshots(self.snapshots)
    }

    /// The number of the current snapshot.
    pub closed spec fn current_number(&self) -> u64 {
        self.current
    }

    /// The snapshot that waits to be activated.
    pub closed spec fn pending_snapshot(&self) -> Option<Membership> {
        self.pending_membership
    }

    /// The history holds at most `HISTORY_CAPACITY` well-formed snapshots,
    /// each number once, the current one among them.
    pub closed spec fn wf(&self) -> bool {
        &&& cached_snapshots_limit(self.snapshots) == HISTORY_CAPACITY
        &&& self.history().len() <= HISTORY_CAPACITY
        &&& keys_distinct(self.history())
        &&& current_in_front(self.history(), self.current)
        &&& forall|i: int| 0 <= i < self.history().len() ==> (#[trigger] self.history()[i]).1.wf()
        &&& match self.pending_membership {
            Some(m) => m.wf(),
            None => true,
        }
    }

    /// The history of well-formed memberships holds at most
    /// `HISTORY_CAPACITY` snapshots, the current one among them, and every
    /// snapshot in it is well formed.
    pub proof fn history_is_bounded(&self)
        requires
            self.wf(),
        ensures
            self.history().len() <= HISTORY_CAPACITY,
            value_of(self.history(), self.current_number()).is_some(),
            self.current_snapshot().wf(),
    {
        position_of_found(self.history(), self.current);
        let p = position_of(self.history(), self.current).unwrap();
        assert(self.history()[p].1.wf());
    }

    /// The current snapshot.
    pub open spec fn current_snapshot(&self) -> Membership {
        value_of(self.history(), self.current_number()).unwrap()
    }

    /// The snapshot before the current one, where the history still has it.
    pub open spec fn previous_snapshot(&self) -> Option<Membership> {
        if self.current_number() == 0 {
            None
        } else {
            value_of(self.history(), (self.current_number() - 1) as u64)
        }
    }

    /// Snapshot 0 with no peer announced and a random identifier for this
    /// node; nothing is pending.
    pub fn new() -> (all: Memberships)
        ensures
            all.wf(),
            all.current_number() == 0,
            all.pending_snapshot().is_none(),
            all.history().len() == 1,
            all.current_snapshot().members() == Seq::<(Seq<char>, Seq<char>)>::empty(),
            all.current_snapshot().active() == Seq::<Seq<char>>::empty(),
    {
        let mut snapshots = history_new(HISTORY_CAPACITY);
        let first = Membership::new(Vec::new());
        proof {
            assert(peer_pairs(Seq::<Peer>::empty()) =~= Seq::empty());
            position_of_found(cached_snapshots(snapshots), 0u64);
            after_put_distinct(cached_snapshots(snapshots), HISTORY_CAPACITY as nat, 0u64, first);
        }
        history_put(&mut snapshots, 0, first);
        let all = Memberships { snapshots, current: 0, pending_membership: None };
        assert(all.history() =~= seq![(0u64, first)]);
        all
    }

    /// The current snapshot. Reading it counts as a use in the history.
    pub fn current(&mut self) -> (m: &Membership)
        requires
            old(self).wf(),
        ensures
            final(self).wf(),
            *m == old(self).current_snapshot(),
            m.wf(),
            final(self).current_number() == old(self).current_number(),
            final(self).pending_snapshot() == old(self).pending_snapshot(),
            final(self).history() == after_use(old(self).history(), old(self).current_number()),
            final(self).current_snapshot() == old(self).current_snapshot(),
    {
        proof {
            let before = self.history();
            let after = after_use(before, self.current);
            after_use_distinct(before, self.current);
            position_of_found(before, self.current);
            use_keeps_snapshots_wf(before, self.current);
            assert(after[0] == before[position_of(before, self.current).unwrap()]);
            crate::recency::position_of_at(after, 0);
        }
        let found = history_get(&mut self.snapshots, self.current);
        found.unwrap()
    }

    /// The snapshot before the current one, where the history still has it.
    /// Reading it counts as a use in the history.
    pub fn previous(&mut self) -> (m: Option<&Membership>)
        requires
            old(self).wf(),
        ensures
            final(self).wf(),
            match m {
                Some(before) => old(self).previous_snapshot() == Some(*before) && before.wf(),
                None => old(self).previous_snapshot().is_none(),
            },
            final(self).current_number() == old(self).current_number(),
            final(self).pending_snapshot() == old(self).pending_snapshot(),
            final(self).history() == if old(self).current_number() == 0 {
                old(self).history()
            } else {
                after_use(old(self).history(), (old(self).current_number() - 1) as u64)
            },
            final(self).current_snapshot() == old(self).current_snapshot(),
    {
        if self.current == 0 {
            return None;
        }
        let number: u64 = self.current - 1;
        proof {
            let before = self.history();
            let after = after_use(before, number);
            after_use_distinct(before, number);
            position_of_found(before, number);
            position_of_found(before, self.current);
            use_keeps_snapshots_wf(before, number);
            let p = position_of(before, self.current).unwrap();
            match position_of(before, number) {
                Some(i) => {
                    assert(after[0] == before[i]);
                    if p == 0 {
                        assert(after[1] == before[0]);
                        crate::recency::position_of_at(after, 1);
                    } else {
                        crate::recency::position_of_at(before, 0);
                        assert(i == 0);
                        assert(after =~= before);
                    }
                },
                None => {},
            }
            assert(value_of(after, self.current) == value_of(before, self.current));
        }
        history_get(&mut self.snapshots, number)
    }

    /// Makes `membership` the current snapshot under the next number. The
    /// snapshot that was current stays in the history; a full history drops
    /// the snapshot that was used least recently.
    pub fn update(&mut self, membership: Membership)
        requires
            old(self).wf(),
            membership.wf(),
            old(self).current_number() < u64::MAX,
        ensures
            final(self).wf(),
            final(self).current_number() == old(self).current_number() + 1,
            final(self).current_snapshot() == membership,
            final(self).previous_snapshot() == Some(old(self).current_snapshot()),
            final(self).pending_snapshot() == old(self).pending_snapshot(),
            final(self).history() == after_put(
                old(self).history(),
                HISTORY_CAPACITY as nat,
                (old(self).current_number() + 1) as u64,
                membership,
            ),
            final(self).history().len() <= HISTORY_CAPACITY,
    {
        proof {
            let next = (self.current + 1) as u64;
            crate::recency::after_put_keeps(
                self.history(),
                HISTORY_CAPACITY as nat,
                next,
                membership,
                self.current,
            );
            position_of_found(self.history(), self.current);
            position_of_found(self.history(), next);
        }
        self.current += 1;
        proof {
            after_put_distinct(self.history(), HISTORY_CAPACITY as nat, self.current, membership);
            after_put_all(
                self.history(),
                HISTORY_CAPACITY as nat,
                self.current,
                membership,
                |entry: (u64, Membership)| entry.1.wf(),
            );
        }
        history_put(&mut self.snapshots, self.current, membership);
    }

    /// Sets the snapshot that waits to be activated, in place of one that
    /// waited before.
    pub fn set_pending(&mut self, membership: Membership)
        requires
            old(self).wf(),
            membership.wf(),
        ensures
            final(self).wf(),
            final(self).pending_snapshot() == Some(membership),
            final(self).current_number() == old(self).current_number(),
            final(self).history() == old(self).history(),
    {
        self.pending_membership = Some(membership);
    }

    /// Takes the waiting snapshot away and hands it out.
    pub fn remove_pending(&mut self) -> (m: Option<Membership>)
        requires
            old(self).wf(),
        ensures
            final(self).wf(),
            m == old(self).pending_snapshot(),
            final(self).pending_snapshot().is_none(),
            final(self).current_number() == old(self).current_number(),
            final(self).history() == old(self).history(),
            match m {
                Some(waiting) => waiting.wf(),
                None => true,
            },
    {
        self.pending_membership.take()
    }

    /// The snapshot that waits to be activated.
    pub fn pending(&self) -> (m: Option<&Membership>)
        ensures
            match m {
                Some(waiting) => self.pending_snapshot() == Some(*waiting),
                None => self.pending_snapshot().is_none(),
            },
            self.wf() ==> match m {
                Some(waiting) => waiting.wf(),
                None => true,
            },
    {
        self.pending_membership.as_ref()
    }

    /// Marks a peer as active in the waiting snapshot. Says whether a
    /// snapshot was waiting.
    pub fn add_active_to_pending(&mut self, peer_id: PeerId) -> (waiting: bool)
        requires
            old(self).wf(),
        ensures
            final(self).wf(),
            waiting == old(self).pending_snapshot().is_some(),
            final(self).current_number() == old(self).current_number(),
            final(self).history() == old(self).history(),
            match old(self).pending_snapshot() {
                Some(before) => match final(self).pending_snapshot() {
                    Some(after) => after.local() == before.local() && after.members()
                        == before.members() && after.active() == if before.active().contains(
                        peer_id@,
                    ) {
                        before.active()
                    } else {
                        before.active().push(peer_id@)
                    },
                    None => false,
                },
                None => final(self).pending_snapshot().is_none(),
            },
    {
        match self.pending_membership.take() {
            Some(mut m) => {
                m.add_active_peer(peer_id);
                self.pending_membership = Some(m);
                true
            },
            None => false,
        }
    }

    /// Promotes the waiting snapshot to the current one, under the next
    /// number. Without a waiting snapshot nothing changes. Says whether a
    /// snapshot was promoted.
    pub fn activate_pending(&mut self) -> (activated: bool)
        requires
            old(self).wf(),
            old(self).current_number() < u64::MAX,
        ensures
            final(self).wf(),
            activated == old(self).pending_snapshot().is_some(),
            final(self).pending_snapshot().is_none(),
            match old(self).pending_snapshot() {
                Some(m) => {
                    &&& final(self).current_number() == old(self).current_number() + 1
                    &&& final(self).current_snapshot() == m
                    &&& final(self).previous_snapshot() == Some(old(self).current_snapshot())
                    &&& final(self).history() == after_put(
                        old(self).history(),
                        HISTORY_CAPACITY as nat,
                        (old(self).current_number() + 1) as u64,
                        m,
                    )
                },
                None => {
                    &&& final(self).current_number() == old(self).current_number()
                    &&& final(self).history() == old(self).history()
                },
            },
    {
        match self.pending_membership.take() {
            Some(m) => {
                self.update(m);
                true
            },
            None => false,
        }
    }
}

/// Using a key keeps every snapshot of the history well formed.
proof fn use_keeps_snapshots_wf(entries: Seq<(u64, Membership)>, key: u64)
    requires
        forall|i: int| 0 <= i < entries.len() ==> (#[trigger] entries[i]).1.wf(),
    ensures
        forall|i: int|
            0 <= i < after_use(entries, key).len() ==> (#[trigger] after_use(entries, key)[i]).1.wf(),
{
    position_of_found(entries, key);
    let next = after_use(entries, key);
    match position_of(entries, key) {
        Some(p) => {
            assert forall|i: int| 0 <= i < next.len() implies (#[trigger] next[i]).1.wf() by {
                let j = if i == 0 {
                    p
                } else if i - 1 < p {
                    i - 1
                } else {
                    i
                };
                assert(next[i] == entries[j]);
            }
        },
        None => {},
    }
}

} // verus!
