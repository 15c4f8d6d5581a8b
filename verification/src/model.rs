//! The protocol as a function: what one frame does to the state of a node
//! and what the node answers, given what the application says at each hook.
//!
//! The functions of the engine that take the answers of the application
//! compute exactly this function, part by part; the functions that ask the
//! application compute it for the answers they get. The laws of the
//! protocol are stated and proved over it.

use crate::context::{fresh_context, ContextView};
use crate::message::{Kind, ReliableBroadcastView, ResponseView};
use crate::recency::{after_put, value_of};
use vstd::prelude::*;

verus! {

/// What the application answers at each of the five hook points, should the
/// engine ask. An error carries the cause the application gives.
pub struct Answers {
    pub pre_prepare: Result<Option<Seq<u8>>, Seq<char>>,
    pub prepare: Result<Option<Seq<u8>>, Seq<char>>,
    pub prepared: Result<(), Seq<char>>,
    pub commit: Result<(), Seq<char>>,
    pub committed: Result<(), Seq<char>>,
}

/// The two predicates of a quorum policy.
pub struct Policy {
    pub prepare: spec_fn(nat, nat) -> bool,
    pub commit: spec_fn(nat, nat) -> bool,
}

/// Why a frame got no answer.
pub enum Refusal {
    /// The frame is malformed, or it is a COMMIT for a message this node
    /// holds no context of.
    UnknownBroadcast(Seq<char>),
    /// A hook of the application failed, with its cause.
    CallbackError(Seq<char>),
}

/// What a frame brings about: an answer, or a refusal.
pub type Outcome = Result<ResponseView, Refusal>;

/// The state of a node: its id, the contexts it holds from the most recently
/// used to the least recently used, how many it holds at most, and who votes
/// in an instance that starts now.
pub struct NodeView {
    pub node_id: Seq<char>,
    pub contexts: Seq<(Seq<char>, ContextView)>,
    pub capacity: nat,
    pub members: Seq<Seq<char>>,
}

/// The acknowledgement of a frame of message `id`, for the peer it came from.
pub open spec fn ack_of(id: Seq<char>, node_id: Seq<char>) -> ResponseView {
    ResponseView {
        kind: Kind::REPLY,
        peers: Seq::empty(),
        id,
        node_id,
        inner: ReliableBroadcastView::Ack,
    }
}

/// This node's PREPARE for message `id`, for all `peers`.
pub open spec fn prepare_of(id: Seq<char>, node_id: Seq<char>, payload: Seq<u8>, peers: Seq<Seq<char>>) -> ResponseView {
    ResponseView {
        kind: Kind::BROADCAST,
        peers,
        id,
        node_id,
        inner: ReliableBroadcastView::Prepare { payload },
    }
}

/// This node's COMMIT for message `id`, for all `peers`.
pub open spec fn commit_of(id: Seq<char>, node_id: Seq<char>, peers: Seq<Seq<char>>) -> ResponseView {
    ResponseView { kind: Kind::BROADCAST, peers, id, node_id, inner: ReliableBroadcastView::Commit }
}

/// The payload that goes on: the one the application put in its place, or
/// else the one that came in.
pub open spec fn forwarded(payload: Seq<u8>, replacement: Option<Seq<u8>>) -> Seq<u8> {
    match replacement {
        Some(other) => other,
        None => payload,
    }
}

/// The votes with that of `voter`, if `voter` is a member.
pub open spec fn with_vote(votes: Set<Seq<char>>, voter: Seq<char>, members: Seq<Seq<char>>) -> Set<
    Seq<char>,
> {
    if members.contains(voter) {
        votes.insert(voter)
    } else {
        votes
    }
}

/// The context a proposal of this node starts with: the node has voted
/// PREPARE.
pub open spec fn proposed_context(id: Seq<char>, node_id: Seq<char>, members: Seq<Seq<char>>) -> ContextView {
    ContextView { prepare: set![node_id], ..fresh_context(id, true, node_id, members) }
}

/// The context the `prepare` hook is shown: the sender's vote is counted,
/// this node's own is not yet added.
pub open spec fn prepare_shown(ctx: ContextView, sender: Seq<char>) -> ContextView {
    ContextView { prepare: with_vote(ctx.prepare, sender, ctx.peers), ..ctx }
}

/// The answers of an application that agrees to everything and replaces no
/// payload.
pub open spec fn idle() -> Answers {
    Answers { pre_prepare: Ok(None), prepare: Ok(None), prepared: Ok(()), commit: Ok(()), committed: Ok(()) }
}

/// What the answer of the `prepared` hook does to a context that was just
/// marked prepared: on a refusal the commit phase is not entered; else the
/// node that proposed the message votes COMMIT and sends its COMMIT.
pub open spec fn prepared_outcome(done: ContextView, told: Result<(), Seq<char>>) -> (ContextView, Outcome) {
    let local = done.local_address;
    match told {
        Err(cause) => (done, Err(Refusal::CallbackError(cause))),
        Ok(_) => if done.original_sender {
            (
                ContextView { commit: done.commit.insert(local), ..done },
                Ok(commit_of(done.id, local, done.peers)),
            )
        } else {
            (done, Ok(ack_of(done.id, local)))
        },
    }
}

/// Does the PREPARE complete the phase: the application agrees, the node
/// has voted, and the votes shown meet the threshold?
pub open spec fn prepare_completes(
    shown: ContextView,
    policy: Policy,
    answer: Result<Option<Seq<u8>>, Seq<char>>,
) -> bool {
    &&& answer.is_ok()
    &&& shown.prepare.contains(shown.local_address)
    &&& (policy.prepare)(shown.prepare.len(), shown.peers.len())
}

/// What the answers of the application do after a PREPARE for a message
/// that is not prepared. `before` is the context as the frame found it,
/// `shown` the one the `prepare` hook was shown. On a refusal the context
/// stays as it was found.
pub open spec fn prepare_answered_outcome(
    before: ContextView,
    shown: ContextView,
    payload: Seq<u8>,
    policy: Policy,
    answers: Answers,
) -> (ContextView, Outcome) {
    let local = shown.local_address;
    match answers.prepare {
        Err(cause) => (before, Err(Refusal::CallbackError(cause))),
        Ok(replacement) => {
            if !shown.prepare.contains(local) {
                (
                    ContextView { prepare: shown.prepare.insert(local), ..shown },
                    Ok(prepare_of(shown.id, local, forwarded(payload, replacement), shown.peers)),
                )
            } else if (policy.prepare)(shown.prepare.len(), shown.peers.len()) {
                prepared_outcome(ContextView { prepared: true, ..shown }, answers.prepared)
            } else {
                (shown, Ok(ack_of(shown.id, local)))
            }
        },
    }
}

/// What a PREPARE of `sender` does to the context of its message, and the
/// answer. A prepared message is acknowledged and nothing is asked.
pub open spec fn prepare_outcome(
    ctx: ContextView,
    sender: Seq<char>,
    payload: Seq<u8>,
    policy: Policy,
    answers: Answers,
) -> (ContextView, Outcome) {
    if ctx.prepared {
        (ctx, Ok(ack_of(ctx.id, ctx.local_address)))
    } else {
        prepare_answered_outcome(ctx, prepare_shown(ctx, sender), payload, policy, answers)
    }
}

/// The context the `commit` hook is shown: the vote of `origin` is counted.
pub open spec fn commit_shown(ctx: ContextView, origin: Seq<char>) -> ContextView {
    ContextView { commit: with_vote(ctx.commit, origin, ctx.peers), ..ctx }
}

/// Does a COMMIT of `origin` reach the application: the message is not
/// committed, and the node has voted COMMIT before?
pub open spec fn commit_asks(ctx: ContextView, origin: Seq<char>) -> bool {
    !ctx.committed && commit_shown(ctx, origin).commit.contains(ctx.local_address)
}

/// What a COMMIT does where the application is not asked: a committed
/// message is acknowledged; else the vote is counted and the node sends its
/// own COMMIT.
pub open spec fn commit_unasked_outcome(ctx: ContextView, origin: Seq<char>) -> (ContextView, Outcome) {
    let local = ctx.local_address;
    if ctx.committed {
        (ctx, Ok(ack_of(ctx.id, local)))
    } else {
        let shown = commit_shown(ctx, origin);
        (
            ContextView { commit: shown.commit.insert(local), ..shown },
            Ok(commit_of(ctx.id, local, ctx.peers)),
        )
    }
}

/// What the answer of the `committed` hook does to a context that was just
/// marked committed: the context stays committed either way.
pub open spec fn committed_outcome(done: ContextView, told: Result<(), Seq<char>>) -> (ContextView, Outcome) {
    match told {
        Err(cause) => (done, Err(Refusal::CallbackError(cause))),
        Ok(_) => (done, Ok(ack_of(done.id, done.local_address))),
    }
}

/// Does the COMMIT complete the phase: the application agrees, the message
/// is prepared, and the votes shown meet the threshold?
pub open spec fn commit_completes(shown: ContextView, policy: Policy, answer: Result<(), Seq<char>>) -> bool {
    &&& answer.is_ok()
    &&& shown.prepared
    &&& (policy.commit)(shown.commit.len(), shown.peers.len())
}

/// What the answers of the application do after a COMMIT, on the context
/// the `commit` hook was shown. On a refusal the vote stays counted.
pub open spec fn commit_answered_outcome(shown: ContextView, policy: Policy, answers: Answers) -> (
    ContextView,
    Outcome,
) {
    match answers.commit {
        Err(cause) => (shown, Err(Refusal::CallbackError(cause))),
        Ok(_) => if shown.prepared && (policy.commit)(shown.commit.len(), shown.peers.len()) {
            committed_outcome(ContextView { committed: true, ..shown }, answers.committed)
        } else {
            (shown, Ok(ack_of(shown.id, shown.local_address)))
        },
    }
}

/// What a COMMIT of `origin` does to the context of its message, and the
/// answer.
pub open spec fn commit_outcome(ctx: ContextView, origin: Seq<char>, policy: Policy, answers: Answers) -> (
    ContextView,
    Outcome,
) {
    if commit_asks(ctx, origin) {
        commit_answered_outcome(commit_shown(ctx, origin), policy, answers)
    } else {
        commit_unasked_outcome(ctx, origin)
    }
}

/// The context a frame of message `id` finds: the one the node holds, or for
/// a PREPARE of a message it holds none of, a fresh one.
pub open spec fn found_context(node: NodeView, id: Seq<char>) -> ContextView {
    match value_of(node.contexts, id) {
        Some(ctx) => ctx,
        None => fresh_context(id, false, node.node_id, node.members),
    }
}

/// Does the frame reach a hook of the application?
pub open spec fn asks_application(
    node: NodeView,
    id: Seq<char>,
    sender: Seq<char>,
    inner: Option<ReliableBroadcastView>,
) -> bool {
    match inner {
        Some(ReliableBroadcastView::PrePrepare { payload }) => true,
        Some(ReliableBroadcastView::Prepare { payload }) => !found_context(node, id).prepared,
        Some(ReliableBroadcastView::Commit) => match value_of(node.contexts, id) {
            Some(ctx) => commit_asks(ctx, sender),
            None => false,
        },
        _ => false,
    }
}

/// Does the frame make the node read who the present voters are: is it a
/// proposal, or a PREPARE of a message the node holds no context of?
pub open spec fn reads_members(node: NodeView, id: Seq<char>, inner: Option<ReliableBroadcastView>) -> bool {
    match inner {
        Some(ReliableBroadcastView::PrePrepare { payload }) => true,
        Some(ReliableBroadcastView::Prepare { payload }) => value_of(node.contexts, id).is_none(),
        _ => false,
    }
}

/// The text of the refusal of a frame that asks for nothing.
pub open spec fn malformed() -> Seq<char> {
    "Unknown broadcast"@
}

/// What one frame does to a node, and the node's answer. The frame is of
/// message `id`, was sent by `sender` and asks for `inner`.
pub open spec fn step(
    node: NodeView,
    id: Seq<char>,
    sender: Seq<char>,
    inner: Option<ReliableBroadcastView>,
    policy: Policy,
    answers: Answers,
) -> (NodeView, Outcome) {
    match inner {
        None => (node, Err(Refusal::UnknownBroadcast(malformed()))),
        Some(ReliableBroadcastView::Ack) => (
            node,
            Ok(
                ResponseView {
                    kind: Kind::DROP,
                    peers: Seq::empty(),
                    id: id,
                    node_id: node.node_id,
                    inner: ReliableBroadcastView::Ack,
                },
            ),
        ),
        Some(ReliableBroadcastView::PrePrepare { payload }) => match answers.pre_prepare {
            Err(cause) => (node, Err(Refusal::CallbackError(cause))),
            Ok(replacement) => (
                NodeView {
                    contexts: after_put(
                        node.contexts,
                        node.capacity,
                        id,
                        proposed_context(id, node.node_id, node.members),
                    ),
                    ..node
                },
                Ok(
                    prepare_of(
                        id,
                        node.node_id,
                        forwarded(payload, replacement),
                        node.members,
                    ),
                ),
            ),
        },
        Some(ReliableBroadcastView::Prepare { payload }) => {
            let (next, outcome) = prepare_outcome(
                found_context(node, id),
                sender,
                payload,
                policy,
                answers,
            );
            (
                NodeView {
                    contexts: after_put(node.contexts, node.capacity, id, next),
                    ..node
                },
                outcome,
            )
        },
        Some(ReliableBroadcastView::Commit) => match value_of(node.contexts, id) {
            None => (node, Err(Refusal::UnknownBroadcast(id))),
            Some(ctx) => {
                let (next, outcome) = commit_outcome(ctx, sender, policy, answers);
                (
                    NodeView {
                        contexts: after_put(node.contexts, node.capacity, id, next),
                        ..node
                    },
                    outcome,
                )
            },
        },
    }
}

/// What holds of every context a node keeps: it is the node's own; a
/// committed message is prepared; a prepared message has a quorum of PREPARE
/// votes; and every vote is that of a member or of the node itself.
pub open spec fn sound(ctx: ContextView, node_id: Seq<char>, policy: Policy) -> bool {
    &&& ctx.local_address == node_id
    &&& ctx.prepare.finite()
    &&& ctx.commit.finite()
    &&& ctx.committed ==> ctx.prepared
    &&& ctx.prepared ==> (policy.prepare)(ctx.prepare.len(), ctx.peers.len())
    &&& forall|voter: Seq<char>| #[trigger]
        ctx.prepare.contains(voter) ==> ctx.peers.contains(voter) || voter == node_id
    &&& forall|voter: Seq<char>| #[trigger]
        ctx.commit.contains(voter) ==> ctx.peers.contains(voter) || voter == node_id
}

/// A context that no vote was cast in is sound.
pub proof fn fresh_sound(
    id: Seq<char>,
    original_sender: bool,
    node_id: Seq<char>,
    members: Seq<Seq<char>>,
    policy: Policy,
)
    ensures
        sound(fresh_context(id, original_sender, node_id, members), node_id, policy),
        sound(proposed_context(id, node_id, members), node_id, policy),
{
}

/// A PREPARE leaves a sound context sound.
pub proof fn prepare_keeps_sound(
    ctx: ContextView,
    sender: Seq<char>,
    payload: Seq<u8>,
    policy: Policy,
    answers: Answers,
)
    requires
        sound(ctx, ctx.local_address, policy),
    ensures
        sound(prepare_outcome(ctx, sender, payload, policy, answers).0, ctx.local_address, policy),
        prepare_outcome(ctx, sender, payload, policy, answers).0.id == ctx.id,
{
}

/// A COMMIT leaves a sound context sound.
pub proof fn commit_keeps_sound(ctx: ContextView, origin: Seq<char>, policy: Policy, answers: Answers)
    requires
        sound(ctx, ctx.local_address, policy),
    ensures
        sound(commit_outcome(ctx, origin, policy, answers).0, ctx.local_address, policy),
        commit_outcome(ctx, origin, policy, answers).0.id == ctx.id,
{
}

} // verus!
