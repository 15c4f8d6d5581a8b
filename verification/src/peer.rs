//! Identifiers of peers.

use vstd::prelude::*;

verus! {

/// The identifier of a peer: the base-58 text of its libp2p peer id. Two
/// identifiers name the same peer when their texts are equal.
#[derive(Debug, Clone, PartialEq, Eq, Hash)]
pub struct PeerId(pub String);

impl View for PeerId {
    type V = Seq<char>;

    open spec fn view(&self) -> Seq<char> {
        self.0@
    }
}

/// Draws a peer id with `libp2p_identity::PeerId::random` and renders it with
/// `to_base58`. The id is random: nothing is claimed of its text.
#[verifier::external_body]
fn random_peer_text() -> String {
    libp2p_identity::PeerId::random().to_base58()
}

impl PeerId {
    /// A random identifier.
    pub fn random() -> PeerId {
        PeerId(random_peer_text())
    }

    /// The identifier with the given text.
    pub fn from_text(text: String) -> (id: PeerId)
        ensures
            id@ == text@,
    {
        PeerId(text)
    }

    /// The text of the identifier.
    pub fn to_text(&self) -> (text: String)
        ensures
            text@ == self@,
    {
        self.0.clone()
    }

    /// Do the two identifiers name the same peer?
    pub fn same(&self, other: &PeerId) -> (equal: bool)
        ensures
            equal == (self@ == other@),
    {
        self.0 == other.0
    }
}

/// What has a peer identifier of its own.
pub trait ToPeerId {
    fn peer_id(&self) -> PeerId;
}

/// The views of a list of identifiers, in order.
pub open spec fn peer_texts(v: Seq<PeerId>) -> Seq<Seq<char>> {
    Seq::new(v.len(), |i: int| v[i]@)
}

/// The texts of the given identifiers, in order.
pub fn to_texts(peers: &Vec<PeerId>) -> (ids: Vec<String>)
    ensures
        crate::text::texts(ids@) == peer_texts(peers@),
{
    let mut ids: Vec<String> = Vec::new();
    let mut i: usize = 0;
    while i < peers.len()
        invariant
            i <= peers.len(),
            ids.len() == i,
            forall|j: int| 0 <= j < i ==> ids@[j]@ == peers@[j]@,
        decreases peers.len() - i,
    {
        ids.push(peers[i].0.clone());
        i += 1;
    }
    assert(crate::text::texts(ids@) =~= peer_texts(peers@));
    ids
}

/// Pushing an identifier pushes its view.
pub proof fn peer_texts_push(v: Seq<PeerId>, id: PeerId)
    ensures
        peer_texts(v.push(id)) == peer_texts(v).push(id@),
{
    assert(peer_texts(v.push(id)) =~= peer_texts(v).push(id@));
}

/// Does the list hold the identifier of the same peer?
pub fn contains_peer(v: &Vec<PeerId>, id: &PeerId) -> (found: bool)
    ensures
        found == peer_texts(v@).contains(id@),
{
    let mut i: usize = 0;
    while i < v.len()
        invariant
            i <= v.len(),
            forall|j: int| 0 <= j < i ==> peer_texts(v@)[j] != id@,
        decreases v.len() - i,
    {
        if v[i].same(id) {
            assert(peer_texts(v@)[i as int] == id@);
            return true;
        }
        i += 1;
    }
    false
}

/// Adds the identifier at the end of the list unless the list holds the
/// identifier of the same peer. Says whether it was added.
pub fn insert_peer(v: &mut Vec<PeerId>, id: PeerId) -> (added: bool)
    ensures
        added == !peer_texts(old(v)@).contains(id@),
        peer_texts(final(v)@) == if added {
            peer_texts(old(v)@).push(id@)
        } else {
            peer_texts(old(v)@)
        },
        peer_texts(old(v)@).no_duplicates() ==> peer_texts(final(v)@).no_duplicates(),
{
    if contains_peer(v, &id) {
        false
    } else {
        proof {
            peer_texts_push(v@, id);
            if peer_texts(v@).no_duplicates() {
                crate::text::distinct_push(peer_texts(v@), id@);
            }
        }
        v.push(id);
        true
    }
}

/// A copy of the list: the identifiers of the same peers in the same order.
pub fn clone_peers(v: &Vec<PeerId>) -> (copy: Vec<PeerId>)
    ensures
        peer_texts(copy@) == peer_texts(v@),
{
    let mut copy: Vec<PeerId> = Vec::new();
    let mut i: usize = 0;
    while i < v.len()
        invariant
            i <= v.len(),
            copy.len() == i,
            forall|j: int| 0 <= j < i ==> copy@[j]@ == v@[j]@,
        decreases v.len() - i,
    {
        copy.push(PeerId(v[i].0.clone()));
        i += 1;
    }
    assert(peer_texts(copy@) =~= peer_texts(v@));
    copy
}

} // verus!
