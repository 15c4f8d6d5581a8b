//! The laws of the protocol, proved of the function `step`.

use crate::context::{fresh_context, ContextView};
use crate::message::{Kind, ReliableBroadcastView, ResponseView};
use crate::model::{
    commit_keeps_sound, commit_outcome, commit_shown, forwarded, found_context, fresh_sound,
    prepare_keeps_sound, prepare_outcome, prepare_shown, proposed_context, sound, step, Answers,
    NodeView, Outcome, Policy, Refusal,
};
use crate::recency::{
    after_put, after_put_all, after_put_distinct, after_put_keeps, after_put_twice, keys_distinct,
    position_of, position_of_found, value_of,
};
use vstd::prelude::*;

verus! {

/// What holds of the state of a node at all times: its table holds at most
/// `capacity` contexts, one per message and under the id of the message, and
/// each of them is sound.
pub open spec fn node_sound(node: NodeView, policy: Policy) -> bool {
    &&& node.capacity > 0
    &&& node.contexts.len() <= node.capacity
    &&& keys_distinct(node.contexts)
    &&& forall|i: int|
        0 <= i < node.contexts.len() ==> entry_sound(
            #[trigger] node.contexts[i],
            node.node_id,
            policy,
        )
}

/// The context stands under the id of its message and is sound.
pub open spec fn entry_sound(entry: (Seq<char>, ContextView), node_id: Seq<char>, policy: Policy) -> bool {
    entry.0 == entry.1.id && sound(entry.1, node_id, policy)
}

/// A context a sound node holds is sound.
pub proof fn held_is_sound(node: NodeView, policy: Policy, id: Seq<char>)
    requires
        node_sound(node, policy),
    ensures
        match value_of(node.contexts, id) {
            Some(ctx) => ctx.id == id && sound(ctx, node.node_id, policy),
            None => true,
        },
{
    position_of_found(node.contexts, id);
    if let Some(i) = position_of(node.contexts, id) {
        assert(entry_sound(node.contexts[i], node.node_id, policy));
    }
}

/// Whatever frame comes in and whatever the application answers, a sound
/// node stays sound. In particular every context it holds stays such that a
/// committed message is prepared and a prepared message has a quorum of
/// PREPARE votes.
pub proof fn step_keeps_sound(
    node: NodeView,
    id: Seq<char>,
    sender: Seq<char>,
    inner: Option<ReliableBroadcastView>,
    policy: Policy,
    answers: Answers,
)
    requires
        node_sound(node, policy),
    ensures
        node_sound(step(node, id, sender, inner, policy, answers).0, policy),
        step(node, id, sender, inner, policy, answers).0.node_id == node.node_id,
        step(node, id, sender, inner, policy, answers).0.capacity == node.capacity,
        step(node, id, sender, inner, policy, answers).0.members == node.members,
{
    let next = step(node, id, sender, inner, policy, answers).0;
    let holds = |entry: (Seq<char>, ContextView)| entry_sound(entry, node.node_id, policy);
    held_is_sound(node, policy, id);
    match inner {
        Some(ReliableBroadcastView::PrePrepare { payload }) => {
            if answers.pre_prepare.is_ok() {
                let ctx = proposed_context(id, node.node_id, node.members);
                fresh_sound(id, true, node.node_id, node.members, policy);
                after_put_distinct(node.contexts, node.capacity, id, ctx);
                after_put_all(node.contexts, node.capacity, id, ctx, holds);
            }
        },
        Some(ReliableBroadcastView::Prepare { payload }) => {
            let ctx = match value_of(node.contexts, id) {
                Some(ctx) => ctx,
                None => fresh_context(id, false, node.node_id, node.members),
            };
            fresh_sound(id, false, node.node_id, node.members, policy);
            prepare_keeps_sound(ctx, sender, payload, policy, answers);
            let after = prepare_outcome(ctx, sender, payload, policy, answers).0;
            after_put_distinct(node.contexts, node.capacity, id, after);
            after_put_all(node.contexts, node.capacity, id, after, holds);
        },
        Some(ReliableBroadcastView::Commit) => {
            if let Some(ctx) = value_of(node.contexts, id) {
                commit_keeps_sound(ctx, sender, policy, answers);
                let after = commit_outcome(ctx, sender, policy, answers).0;
                after_put_distinct(node.contexts, node.capacity, id, after);
                after_put_all(node.contexts, node.capacity, id, after, holds);
            }
        },
        _ => {},
    }
}

/// In every context a sound node holds, a committed message is prepared.
pub proof fn committed_is_prepared(node: NodeView, policy: Policy, id: Seq<char>)
    requires
        node_sound(node, policy),
    ensures
        match value_of(node.contexts, id) {
            Some(ctx) => ctx.committed ==> ctx.prepared,
            None => true,
        },
{
    held_is_sound(node, policy, id);
}

/// In every context a sound node holds, a prepared message has a quorum of
/// PREPARE votes among the members it started with.
pub proof fn prepared_has_quorum(node: NodeView, policy: Policy, id: Seq<char>)
    requires
        node_sound(node, policy),
    ensures
        match value_of(node.contexts, id) {
            Some(ctx) => ctx.prepared ==> (policy.prepare)(ctx.prepare.len(), ctx.peers.len()),
            None => true,
        },
{
    held_is_sound(node, policy, id);
}

/// In every context a sound node holds, each vote is that of a member or of
/// the node itself.
pub proof fn votes_are_of_members(node: NodeView, policy: Policy, id: Seq<char>, voter: Seq<char>)
    requires
        node_sound(node, policy),
    ensures
        match value_of(node.contexts, id) {
            Some(ctx) => (ctx.prepare.contains(voter) || ctx.commit.contains(voter))
                ==> ctx.peers.contains(voter) || voter == node.node_id,
            None => true,
        },
{
    held_is_sound(node, policy, id);
}

/// An acknowledgement changes nothing, whoever sends it and whatever the
/// application would answer.
pub proof fn ack_changes_nothing(
    node: NodeView,
    id: Seq<char>,
    sender: Seq<char>,
    policy: Policy,
    answers: Answers,
)
    ensures
        step(node, id, sender, Some(ReliableBroadcastView::Ack), policy, answers).0 == node,
        step(node, id, sender, Some(ReliableBroadcastView::Ack), policy, answers).1.is_ok(),
{
}

/// A COMMIT for a message the node holds no context of is refused, and
/// no context is made for it.
pub proof fn commit_of_unknown_is_refused(
    node: NodeView,
    id: Seq<char>,
    sender: Seq<char>,
    policy: Policy,
    answers: Answers,
)
    requires
        value_of(node.contexts, id).is_none(),
    ensures
        step(node, id, sender, Some(ReliableBroadcastView::Commit), policy, answers) == (
            node,
            Err::<ResponseView, Refusal>(Refusal::UnknownBroadcast(id)),
        ),
{
}

/// The first time the frame makes the node cast its own vote, and the same
/// frame once more would complete the phase with that vote. Such a frame is
/// the one kind that does more when it is played again.
pub open spec fn replay_completes(
    node: NodeView,
    id: Seq<char>,
    sender: Seq<char>,
    inner: Option<ReliableBroadcastView>,
    policy: Policy,
    answers: Answers,
) -> bool {
    match inner {
        Some(ReliableBroadcastView::Prepare { payload }) => {
            let ctx = found_context(node, id);
            let shown = prepare_shown(ctx, sender);
            &&& !ctx.prepared
            &&& answers.prepare.is_ok()
            &&& !shown.prepare.contains(ctx.local_address)
            &&& (policy.prepare)(shown.prepare.insert(ctx.local_address).len(), ctx.peers.len())
        },
        Some(ReliableBroadcastView::Commit) => match value_of(node.contexts, id) {
            Some(ctx) => {
                let shown = commit_shown(ctx, sender);
                &&& !ctx.committed
                &&& !shown.commit.contains(ctx.local_address)
                &&& answers.commit.is_ok()
                &&& ctx.prepared
                &&& (policy.commit)(shown.commit.insert(ctx.local_address).len(), ctx.peers.len())
            },
            None => false,
        },
        _ => false,
    }
}

/// A frame that is played a second time, with the application answering as
/// it did the first time, leaves the node as the first time left it. The one
/// exception is a frame that made the node vote and would now complete the
/// phase.
pub proof fn replay_changes_nothing(
    node: NodeView,
    id: Seq<char>,
    sender: Seq<char>,
    inner: Option<ReliableBroadcastView>,
    policy: Policy,
    answers: Answers,
)
    requires
        node_sound(node, policy),
        !replay_completes(node, id, sender, inner, policy, answers),
    ensures
        step(step(node, id, sender, inner, policy, answers).0, id, sender, inner, policy, answers).0
            == step(node, id, sender, inner, policy, answers).0,
{
    let once = step(node, id, sender, inner, policy, answers).0;
    let twice = step(once, id, sender, inner, policy, answers).0;
    held_is_sound(node, policy, id);
    match inner {
        Some(ReliableBroadcastView::PrePrepare { payload }) => {
            if answers.pre_prepare.is_ok() {
                let ctx = proposed_context(id, node.node_id, node.members);
                after_put_twice(node.contexts, node.capacity, id, ctx, ctx);
            }
        },
        Some(ReliableBroadcastView::Prepare { payload }) => {
            let ctx = found_context(node, id);
            let first = prepare_outcome(ctx, sender, payload, policy, answers).0;
            after_put_distinct(node.contexts, node.capacity, id, first);
            assert(value_of(once.contexts, id) == Some(first));
            let second = prepare_outcome(first, sender, payload, policy, answers).0;
            assert(second.prepare =~= first.prepare);
            assert(second.commit =~= first.commit);
            assert(second == first);
            after_put_twice(node.contexts, node.capacity, id, first, second);
        },
        Some(ReliableBroadcastView::Commit) => {
            if let Some(ctx) = value_of(node.contexts, id) {
                let first = commit_outcome(ctx, sender, policy, answers).0;
                after_put_distinct(node.contexts, node.capacity, id, first);
                assert(value_of(once.contexts, id) == Some(first));
                let second = commit_outcome(first, sender, policy, answers).0;
                assert(second.prepare =~= first.prepare);
                assert(second.commit =~= first.commit);
                assert(second == first);
                after_put_twice(node.contexts, node.capacity, id, first, second);
            }
        },
        _ => {},
    }
}

/// A PREPARE the application refuses changes no vote and sends nothing:
/// the context stays as the frame found it, and the refusal carries the
/// cause the application gave. A later PREPARE finds the message as if the
/// refused one had not come.
pub proof fn refused_prepare_changes_nothing(
    ctx: ContextView,
    sender: Seq<char>,
    payload: Seq<u8>,
    policy: Policy,
    answers: Answers,
    cause: Seq<char>,
)
    requires
        !ctx.prepared,
        answers.prepare == Err::<Option<Seq<u8>>, Seq<char>>(cause),
    ensures
        prepare_outcome(ctx, sender, payload, policy, answers) == (
            ctx,
            Err::<ResponseView, Refusal>(Refusal::CallbackError(cause)),
        ),
{
}

/// A proposal the application agrees to starts with the present voters and
/// is sent to them, whatever members the contexts in flight started with.
pub proof fn proposal_takes_present_voters(
    node: NodeView,
    id: Seq<char>,
    sender: Seq<char>,
    payload: Seq<u8>,
    policy: Policy,
    answers: Answers,
)
    requires
        node_sound(node, policy),
        answers.pre_prepare.is_ok(),
    ensures
        ({
            let (next, outcome) = step(
                node,
                id,
                sender,
                Some(ReliableBroadcastView::PrePrepare { payload }),
                policy,
                answers,
            );
            &&& value_of(next.contexts, id) == Some(proposed_context(id, node.node_id, node.members))
            &&& outcome matches Ok(response) && response.peers == node.members && response.kind
                == Kind::BROADCAST
        }),
{
    after_put_distinct(
        node.contexts,
        node.capacity,
        id,
        proposed_context(id, node.node_id, node.members),
    );
}

/// The vote of a peer that is no member of the instance is not counted,
/// neither in the PREPARE phase nor in the COMMIT phase.
pub proof fn vote_of_non_member_is_not_counted(
    ctx: ContextView,
    sender: Seq<char>,
    payload: Seq<u8>,
    policy: Policy,
    answers: Answers,
)
    requires
        !ctx.peers.contains(sender),
        sender != ctx.local_address,
    ensures
        prepare_shown(ctx, sender) == ctx,
        commit_shown(ctx, sender) == ctx,
        prepare_outcome(ctx, sender, payload, policy, answers).0.prepare.contains(sender)
            == ctx.prepare.contains(sender),
        commit_outcome(ctx, sender, policy, answers).0.commit.contains(sender)
            == ctx.commit.contains(sender),
{
}

/// A message is prepared by the PREPARE that brings the votes to the
/// quorum, and by none before: where the node has voted and the application
/// agrees, the frame leaves the message prepared exactly if the votes
/// counted with it meet the threshold.
pub proof fn prepared_exactly_at_quorum(
    ctx: ContextView,
    sender: Seq<char>,
    payload: Seq<u8>,
    policy: Policy,
    answers: Answers,
)
    requires
        !ctx.prepared,
        answers.prepare.is_ok(),
        prepare_shown(ctx, sender).prepare.contains(ctx.local_address),
    ensures
        prepare_outcome(ctx, sender, payload, policy, answers).0.prepared == (policy.prepare)(
            prepare_shown(ctx, sender).prepare.len(),
            ctx.peers.len(),
        ),
{
}

/// A prepared message is committed by the COMMIT that brings the votes to
/// the quorum, and by none before.
pub proof fn committed_exactly_at_quorum(
    ctx: ContextView,
    origin: Seq<char>,
    policy: Policy,
    answers: Answers,
)
    requires
        !ctx.committed,
        answers.commit.is_ok(),
        commit_shown(ctx, origin).commit.contains(ctx.local_address),
    ensures
        commit_outcome(ctx, origin, policy, answers).0.committed == (ctx.prepared
            && (policy.commit)(commit_shown(ctx, origin).commit.len(), ctx.peers.len())),
{
}

/// Does the frame make the node keep a context of a message it held none of?
pub open spec fn starts_context(
    node: NodeView,
    id: Seq<char>,
    inner: Option<ReliableBroadcastView>,
    answers: Answers,
) -> bool {
    value_of(node.contexts, id).is_none() && match inner {
        Some(ReliableBroadcastView::PrePrepare { payload }) => answers.pre_prepare.is_ok(),
        Some(ReliableBroadcastView::Prepare { payload }) => true,
        _ => false,
    }
}

/// A full table that takes in the context of a new message drops the
/// context that was used least recently and keeps all others. A COMMIT for
/// the message that was dropped is refused from then on.
pub proof fn full_table_drops_oldest(
    node: NodeView,
    id: Seq<char>,
    sender: Seq<char>,
    inner: Option<ReliableBroadcastView>,
    policy: Policy,
    answers: Answers,
    other: Seq<char>,
    later: Answers,
)
    requires
        node_sound(node, policy),
        node.contexts.len() == node.capacity,
        starts_context(node, id, inner, answers),
        other != id,
    ensures
        ({
            let next = step(node, id, sender, inner, policy, answers).0;
            let oldest = node.contexts.last().0;
            &&& next.contexts.len() == node.capacity
            &&& value_of(next.contexts, id).is_some()
            &&& value_of(next.contexts, oldest).is_none()
            &&& other != oldest ==> value_of(next.contexts, other) == value_of(
                node.contexts,
                other,
            )
            &&& step(next, oldest, sender, Some(ReliableBroadcastView::Commit), policy, later).1
                == Err::<ResponseView, Refusal>(Refusal::UnknownBroadcast(oldest))
        }),
{
    let next = step(node, id, sender, inner, policy, answers).0;
    let oldest = node.contexts.last().0;
    position_of_found(node.contexts, id);
    let put = match inner {
        Some(ReliableBroadcastView::PrePrepare { payload }) => proposed_context(
            id,
            node.node_id,
            node.members,
        ),
        Some(ReliableBroadcastView::Prepare { payload }) => prepare_outcome(
            found_context(node, id),
            sender,
            payload,
            policy,
            answers,
        ).0,
        _ => arbitrary(),
    };
    assert(next.contexts == after_put(node.contexts, node.capacity, id, put));
    after_put_distinct(node.contexts, node.capacity, id, put);
    assert(oldest != id);
    after_put_keeps(node.contexts, node.capacity, id, put, oldest);
    after_put_keeps(node.contexts, node.capacity, id, put, other);
}

/// A table that is not full, or that holds the message of the frame, drops
/// nothing.
pub proof fn table_keeps_others(
    node: NodeView,
    id: Seq<char>,
    sender: Seq<char>,
    inner: Option<ReliableBroadcastView>,
    policy: Policy,
    answers: Answers,
    other: Seq<char>,
)
    requires
        node_sound(node, policy),
        other != id,
        node.contexts.len() < node.capacity || value_of(node.contexts, id).is_some(),
    ensures
        value_of(step(node, id, sender, inner, policy, answers).0.contexts, other) == value_of(
            node.contexts,
            other,
        ),
{
    position_of_found(node.contexts, id);
    match inner {
        Some(ReliableBroadcastView::PrePrepare { payload }) => {
            after_put_keeps(
                node.contexts,
                node.capacity,
                id,
                proposed_context(id, node.node_id, node.members),
                other,
            );
        },
        Some(ReliableBroadcastView::Prepare { payload }) => {
            after_put_keeps(
                node.contexts,
                node.capacity,
                id,
                prepare_outcome(found_context(node, id), sender, payload, policy, answers).0,
                other,
            );
        },
        Some(ReliableBroadcastView::Commit) => {
            if let Some(ctx) = value_of(node.contexts, id) {
                after_put_keeps(
                    node.contexts,
                    node.capacity,
                    id,
                    commit_outcome(ctx, sender, policy, answers).0,
                    other,
                );
            }
        },
        _ => {},
    }
}

/// The PREPARE a node sends carries the payload the application put in the
/// place of the one that came in, or else the one that came in: the engine
/// itself never changes a payload.
pub proof fn prepare_carries_forwarded_payload(
    node: NodeView,
    id: Seq<char>,
    sender: Seq<char>,
    inner: Option<ReliableBroadcastView>,
    policy: Policy,
    answers: Answers,
)
    ensures
        match step(node, id, sender, inner, policy, answers).1 {
            Ok(response) => match response.inner {
                ReliableBroadcastView::Prepare { payload: sent } => match inner {
                    Some(ReliableBroadcastView::PrePrepare { payload }) => match answers.pre_prepare {
                        Ok(replacement) => sent == forwarded(payload, replacement),
                        Err(_) => false,
                    },
                    Some(ReliableBroadcastView::Prepare { payload }) => match answers.prepare {
                        Ok(replacement) => sent == forwarded(payload, replacement),
                        Err(_) => false,
                    },
                    _ => false,
                },
                _ => true,
            },
            Err(_) => true,
        },
{
}

/// One frame as it comes in, with what the application answers to it.
pub struct Event {
    pub id: Seq<char>,
    pub sender: Seq<char>,
    pub inner: Option<ReliableBroadcastView>,
    pub answers: Answers,
}

/// What the event does to the node, and the node's answer.
pub open spec fn apply(node: NodeView, event: Event, policy: Policy) -> (NodeView, Outcome) {
    step(node, event.id, event.sender, event.inner, policy, event.answers)
}

/// The state of the node after the first `k` of the events.
pub open spec fn state_after(node: NodeView, events: Seq<Event>, policy: Policy, k: nat) -> NodeView
    decreases k,
{
    if k == 0 {
        node
    } else {
        apply(state_after(node, events, policy, (k - 1) as nat), events[k - 1], policy).0
    }
}

/// Is the answer this node's PREPARE for message `id`?
pub open spec fn sends_prepare(outcome: Outcome, id: Seq<char>) -> bool {
    match outcome {
        Ok(response) => response.kind == Kind::BROADCAST && response.id == id
            && response.inner is Prepare,
        Err(_) => false,
    }
}

/// Is the answer this node's COMMIT for message `id`?
pub open spec fn sends_commit(outcome: Outcome, id: Seq<char>) -> bool {
    match outcome {
        Ok(response) => response.kind == Kind::BROADCAST && response.id == id
            && response.inner is Commit,
        Err(_) => false,
    }
}

/// The node holds a context of message `id` in which it has voted PREPARE.
pub open spec fn has_voted_prepare(node: NodeView, id: Seq<char>) -> bool {
    match value_of(node.contexts, id) {
        Some(ctx) => ctx.prepare.contains(node.node_id),
        None => false,
    }
}

/// The node holds a context of message `id` in which it has voted COMMIT.
pub open spec fn has_voted_commit(node: NodeView, id: Seq<char>) -> bool {
    match value_of(node.contexts, id) {
        Some(ctx) => ctx.commit.contains(node.node_id),
        None => false,
    }
}

/// The event makes the node forget what it did for message `id`: the node
/// proposes the message anew, or its full table drops the context of the
/// message for that of another.
pub open spec fn forgets(node: NodeView, event: Event, id: Seq<char>) -> bool {
    ||| event.id == id && event.inner is Some && event.inner.unwrap() is PrePrepare
        && event.answers.pre_prepare.is_ok()
    ||| starts_context(node, event.id, event.inner, event.answers) && node.contexts.len()
        == node.capacity && node.contexts.last().0 == id
}

/// The event completes the PREPARE phase of message `id` at the node that
/// proposed it, after that node has voted COMMIT on the COMMIT of a peer.
pub open spec fn proposer_prepared_late(node: NodeView, event: Event, policy: Policy, id: Seq<char>) -> bool {
    match (event.inner, value_of(node.contexts, id)) {
        (Some(ReliableBroadcastView::Prepare { payload }), Some(ctx)) => {
            let shown = prepare_shown(ctx, event.sender);
            &&& event.id == id
            &&& ctx.original_sender
            &&& ctx.commit.contains(ctx.local_address)
            &&& !ctx.prepared
            &&& event.answers.prepare.is_ok()
            &&& event.answers.prepared.is_ok()
            &&& shown.prepare.contains(ctx.local_address)
            &&& (policy.prepare)(shown.prepare.len(), ctx.peers.len())
        },
        _ => false,
    }
}

/// A node that answers with its PREPARE for a message holds, from then on,
/// a context of the message in which it has voted PREPARE.
pub proof fn sent_prepare_is_recorded(node: NodeView, event: Event, policy: Policy, id: Seq<char>)
    requires
        node_sound(node, policy),
        sends_prepare(apply(node, event, policy).1, id),
    ensures
        has_voted_prepare(apply(node, event, policy).0, id),
{
    held_is_sound(node, policy, event.id);
    fresh_sound(event.id, false, node.node_id, node.members, policy);
    match event.inner {
        Some(ReliableBroadcastView::PrePrepare { payload }) => {
            after_put_distinct(
                node.contexts,
                node.capacity,
                event.id,
                proposed_context(event.id, node.node_id, node.members),
            );
        },
        Some(ReliableBroadcastView::Prepare { payload }) => {
            let ctx = found_context(node, event.id);
            let next = prepare_outcome(ctx, event.sender, payload, policy, event.answers).0;
            after_put_distinct(node.contexts, node.capacity, event.id, next);
        },
        Some(ReliableBroadcastView::Commit) => {
            if let Some(ctx) = value_of(node.contexts, event.id) {
                let next = commit_outcome(ctx, event.sender, policy, event.answers).0;
                after_put_distinct(node.contexts, node.capacity, event.id, next);
            }
        },
        _ => {},
    }
}

/// A node that answers with its COMMIT for a message holds, from then on, a
/// context of the message in which it has voted COMMIT.
pub proof fn sent_commit_is_recorded(node: NodeView, event: Event, policy: Policy, id: Seq<char>)
    requires
        node_sound(node, policy),
        sends_commit(apply(node, event, policy).1, id),
    ensures
        has_voted_commit(apply(node, event, policy).0, id),
{
    held_is_sound(node, policy, event.id);
    fresh_sound(event.id, false, node.node_id, node.members, policy);
    match event.inner {
        Some(ReliableBroadcastView::Prepare { payload }) => {
            let ctx = found_context(node, event.id);
            let next = prepare_outcome(ctx, event.sender, payload, policy, event.answers).0;
            after_put_distinct(node.contexts, node.capacity, event.id, next);
        },
        Some(ReliableBroadcastView::Commit) => {
            if let Some(ctx) = value_of(node.contexts, event.id) {
                let next = commit_outcome(ctx, event.sender, policy, event.answers).0;
                after_put_distinct(node.contexts, node.capacity, event.id, next);
            }
        },
        _ => {},
    }
}

/// A node that has voted PREPARE for a message answers no event with a
/// second PREPARE for it, and its vote stays, unless the event makes it
/// forget the message.
pub proof fn prepare_vote_stays(node: NodeView, event: Event, policy: Policy, id: Seq<char>)
    requires
        node_sound(node, policy),
        has_voted_prepare(node, id),
        !forgets(node, event, id),
    ensures
        !sends_prepare(apply(node, event, policy).1, id),
        has_voted_prepare(apply(node, event, policy).0, id),
{
    held_is_sound(node, policy, event.id);
    held_is_sound(node, policy, id);
    fresh_sound(event.id, false, node.node_id, node.members, policy);
    position_of_found(node.contexts, event.id);
    position_of_found(node.contexts, id);
    match event.inner {
        Some(ReliableBroadcastView::PrePrepare { payload }) => {
            if event.answers.pre_prepare.is_ok() {
                let put = proposed_context(event.id, node.node_id, node.members);
                after_put_keeps(node.contexts, node.capacity, event.id, put, id);
            }
        },
        Some(ReliableBroadcastView::Prepare { payload }) => {
            let ctx = found_context(node, event.id);
            let next = prepare_outcome(ctx, event.sender, payload, policy, event.answers).0;
            after_put_distinct(node.contexts, node.capacity, event.id, next);
            if event.id != id {
                after_put_keeps(node.contexts, node.capacity, event.id, next, id);
            }
        },
        Some(ReliableBroadcastView::Commit) => {
            if let Some(ctx) = value_of(node.contexts, event.id) {
                let next = commit_outcome(ctx, event.sender, policy, event.answers).0;
                after_put_distinct(node.contexts, node.capacity, event.id, next);
                if event.id != id {
                    after_put_keeps(node.contexts, node.capacity, event.id, next, id);
                }
            }
        },
        _ => {},
    }
}

/// A node that has voted COMMIT for a message answers no event with a second
/// COMMIT for it, and its vote stays, unless the event makes it forget the
/// message or completes the PREPARE phase at the proposer.
pub proof fn commit_vote_stays(node: NodeView, event: Event, policy: Policy, id: Seq<char>)
    requires
        node_sound(node, policy),
        has_voted_commit(node, id),
        !forgets(node, event, id),
        !proposer_prepared_late(node, event, policy, id),
    ensures
        !sends_commit(apply(node, event, policy).1, id),
        has_voted_commit(apply(node, event, policy).0, id),
{
    held_is_sound(node, policy, event.id);
    held_is_sound(node, policy, id);
    fresh_sound(event.id, false, node.node_id, node.members, policy);
    position_of_found(node.contexts, event.id);
    position_of_found(node.contexts, id);
    match event.inner {
        Some(ReliableBroadcastView::PrePrepare { payload }) => {
            if event.answers.pre_prepare.is_ok() {
                let put = proposed_context(event.id, node.node_id, node.members);
                after_put_keeps(node.contexts, node.capacity, event.id, put, id);
            }
        },
        Some(ReliableBroadcastView::Prepare { payload }) => {
            let ctx = found_context(node, event.id);
            let next = prepare_outcome(ctx, event.sender, payload, policy, event.answers).0;
            after_put_distinct(node.contexts, node.capacity, event.id, next);
            if event.id != id {
                after_put_keeps(node.contexts, node.capacity, event.id, next, id);
            }
        },
        Some(ReliableBroadcastView::Commit) => {
            if let Some(ctx) = value_of(node.contexts, event.id) {
                let next = commit_outcome(ctx, event.sender, policy, event.answers).0;
                after_put_distinct(node.contexts, node.capacity, event.id, next);
                if event.id != id {
                    after_put_keeps(node.contexts, node.capacity, event.id, next, id);
                }
            }
        },
        _ => {},
    }
}

/// The second context is a later state of the first: the same message, the
/// same members, and nothing taken back. Votes are only added, and a phase
/// that is complete stays complete.
pub open spec fn grown_from(after: ContextView, before: ContextView) -> bool {
    &&& after.id == before.id
    &&& after.original_sender == before.original_sender
    &&& after.local_address == before.local_address
    &&& after.peers == before.peers
    &&& before.prepare.subset_of(after.prepare)
    &&& before.commit.subset_of(after.commit)
    &&& before.prepared ==> after.prepared
    &&& before.committed ==> after.committed
}

/// The context of a message never goes backward, and its members never
/// change, whatever frame comes in: unless the frame makes the node forget
/// the message, the context the node holds afterwards is a later state of
/// the one it held.
pub proof fn context_only_grows(node: NodeView, event: Event, policy: Policy, id: Seq<char>)
    requires
        node_sound(node, policy),
        value_of(node.contexts, id).is_some(),
        !forgets(node, event, id),
    ensures
        match value_of(apply(node, event, policy).0.contexts, id) {
            Some(after) => grown_from(after, value_of(node.contexts, id).unwrap()),
            None => false,
        },
{
    held_is_sound(node, policy, id);
    position_of_found(node.contexts, event.id);
    position_of_found(node.contexts, id);
    match event.inner {
        Some(ReliableBroadcastView::PrePrepare { payload }) => {
            if event.answers.pre_prepare.is_ok() {
                let put = proposed_context(event.id, node.node_id, node.members);
                after_put_keeps(node.contexts, node.capacity, event.id, put, id);
            }
        },
        Some(ReliableBroadcastView::Prepare { payload }) => {
            let ctx = found_context(node, event.id);
            let next = prepare_outcome(ctx, event.sender, payload, policy, event.answers).0;
            after_put_distinct(node.contexts, node.capacity, event.id, next);
            if event.id != id {
                after_put_keeps(node.contexts, node.capacity, event.id, next, id);
            }
        },
        Some(ReliableBroadcastView::Commit) => {
            if let Some(ctx) = value_of(node.contexts, event.id) {
                let next = commit_outcome(ctx, event.sender, policy, event.answers).0;
                after_put_distinct(node.contexts, node.capacity, event.id, next);
                if event.id != id {
                    after_put_keeps(node.contexts, node.capacity, event.id, next, id);
                }
            }
        },
        _ => {},
    }
}

/// Once a message is committed its context changes no more, unless a frame
/// makes the node forget the message.
pub proof fn committed_is_final(node: NodeView, event: Event, policy: Policy, id: Seq<char>)
    requires
        node_sound(node, policy),
        value_of(node.contexts, id).is_some(),
        value_of(node.contexts, id).unwrap().committed,
        !forgets(node, event, id),
    ensures
        value_of(apply(node, event, policy).0.contexts, id) == value_of(node.contexts, id),
{
    held_is_sound(node, policy, id);
    position_of_found(node.contexts, event.id);
    position_of_found(node.contexts, id);
    match event.inner {
        Some(ReliableBroadcastView::PrePrepare { payload }) => {
            if event.answers.pre_prepare.is_ok() {
                let put = proposed_context(event.id, node.node_id, node.members);
                after_put_keeps(node.contexts, node.capacity, event.id, put, id);
            }
        },
        Some(ReliableBroadcastView::Prepare { payload }) => {
            let ctx = found_context(node, event.id);
            let next = prepare_outcome(ctx, event.sender, payload, policy, event.answers).0;
            after_put_distinct(node.contexts, node.capacity, event.id, next);
            if event.id != id {
                after_put_keeps(node.contexts, node.capacity, event.id, next, id);
            }
        },
        Some(ReliableBroadcastView::Commit) => {
            if let Some(ctx) = value_of(node.contexts, event.id) {
                let next = commit_outcome(ctx, event.sender, policy, event.answers).0;
                after_put_distinct(node.contexts, node.capacity, event.id, next);
                if event.id != id {
                    after_put_keeps(node.contexts, node.capacity, event.id, next, id);
                }
            }
        },
        _ => {},
    }
}

/// Every state a sound node goes through is sound.
pub proof fn run_keeps_sound(node: NodeView, events: Seq<Event>, policy: Policy, k: nat)
    requires
        node_sound(node, policy),
        k <= events.len(),
    ensures
        node_sound(state_after(node, events, policy, k), policy),
        state_after(node, events, policy, k).node_id == node.node_id,
    decreases k,
{
    if k > 0 {
        run_keeps_sound(node, events, policy, (k - 1) as nat);
        let before = state_after(node, events, policy, (k - 1) as nat);
        let event = events[k - 1];
        step_keeps_sound(before, event.id, event.sender, event.inner, policy, event.answers);
    }
}

/// A node sends its PREPARE for a message at most once: after it has voted
/// PREPARE, no later frame is answered with another PREPARE for the message,
/// as long as no frame makes the node forget the message.
pub proof fn prepare_is_sent_once(
    node: NodeView,
    events: Seq<Event>,
    policy: Policy,
    id: Seq<char>,
    k: nat,
)
    requires
        node_sound(node, policy),
        has_voted_prepare(node, id),
        k < events.len(),
        forall|j: nat|
            j <= k ==> !forgets(#[trigger] state_after(node, events, policy, j), events[j as int], id),
    ensures
        has_voted_prepare(state_after(node, events, policy, k), id),
        !sends_prepare(apply(state_after(node, events, policy, k), events[k as int], policy).1, id),
    decreases k,
{
    run_keeps_sound(node, events, policy, k);
    if k > 0 {
        let j = (k - 1) as nat;
        prepare_is_sent_once(node, events, policy, id, j);
        run_keeps_sound(node, events, policy, j);
        assert(!forgets(state_after(node, events, policy, j), events[j as int], id));
        prepare_vote_stays(state_after(node, events, policy, j), events[j as int], policy, id);
    }
    assert(!forgets(state_after(node, events, policy, k), events[k as int], id));
    prepare_vote_stays(state_after(node, events, policy, k), events[k as int], policy, id);
}

/// A node sends its COMMIT for a message at most once: after it has voted
/// COMMIT, no later frame is answered with another COMMIT for the message,
/// as long as no frame makes the node forget the message and the proposer
/// does not complete the PREPARE phase after it has voted COMMIT.
pub proof fn commit_is_sent_once(
    node: NodeView,
    events: Seq<Event>,
    policy: Policy,
    id: Seq<char>,
    k: nat,
)
    requires
        node_sound(node, policy),
        has_voted_commit(node, id),
        k < events.len(),
        forall|j: nat|
            j <= k ==> !forgets(#[trigger] state_after(node, events, policy, j), events[j as int], id)
                && !proposer_prepared_late(
                state_after(node, events, policy, j),
                events[j as int],
                policy,
                id,
            ),
    ensures
        has_voted_commit(state_after(node, events, policy, k), id),
        !sends_commit(apply(state_after(node, events, policy, k), events[k as int], policy).1, id),
    decreases k,
{
    run_keeps_sound(node, events, policy, k);
    if k > 0 {
        let j = (k - 1) as nat;
        commit_is_sent_once(node, events, policy, id, j);
        run_keeps_sound(node, events, policy, j);
        assert(!forgets(state_after(node, events, policy, j), events[j as int], id));
        commit_vote_stays(state_after(node, events, policy, j), events[j as int], policy, id);
    }
    assert(!forgets(state_after(node, events, policy, k), events[k as int], id));
    commit_vote_stays(state_after(node, events, policy, k), events[k as int], policy, id);
}

/// A cluster as far as payloads go: the state of each node, and the
/// PREPARE frames that were sent so far, each by the id of its message and
/// its payload.
pub struct ClusterView {
    pub nodes: Seq<NodeView>,
    pub sent: Set<(Seq<char>, Seq<u8>)>,
}

/// One frame that reaches one node, with what the application of that node
/// answers.
pub struct Delivery {
    pub to: int,
    pub event: Event,
}

/// The cluster after the delivery: the node has handled the frame, and a
/// PREPARE it answered with is sent.
pub open spec fn deliver(cluster: ClusterView, delivery: Delivery, policy: Policy) -> ClusterView {
    let (node, outcome) = apply(cluster.nodes[delivery.to], delivery.event, policy);
    ClusterView {
        nodes: cluster.nodes.update(delivery.to, node),
        sent: match outcome {
            Ok(response) => match response.inner {
                ReliableBroadcastView::Prepare { payload } => cluster.sent.insert(
                    (delivery.event.id, payload),
                ),
                _ => cluster.sent,
            },
            Err(_) => cluster.sent,
        },
    }
}

/// The cluster after the first `k` of the deliveries.
pub open spec fn cluster_after(cluster: ClusterView, run: Seq<Delivery>, policy: Policy, k: nat) -> ClusterView
    decreases k,
{
    if k == 0 {
        cluster
    } else {
        deliver(cluster_after(cluster, run, policy, (k - 1) as nat), run[k - 1], policy)
    }
}

/// Can the delivery happen in a cluster in which message `id` is proposed
/// with `payload` and no application changes a payload on its way? A
/// PREPARE that is delivered was sent before; a proposal of the message
/// goes out with `payload`; and the `prepare` hooks keep what comes in.
pub open spec fn faithful(cluster: ClusterView, delivery: Delivery, id: Seq<char>, payload: Seq<u8>) -> bool {
    &&& 0 <= delivery.to < cluster.nodes.len()
    &&& match delivery.event.inner {
        Some(ReliableBroadcastView::Prepare { payload: carried }) => {
            &&& cluster.sent.contains((delivery.event.id, carried))
            &&& delivery.event.id == id ==> match delivery.event.answers.prepare {
                Ok(replacement) => replacement.is_none(),
                Err(_) => true,
            }
        },
        Some(ReliableBroadcastView::PrePrepare { payload: proposed }) => delivery.event.id == id
            ==> match delivery.event.answers.pre_prepare {
            Ok(replacement) => forwarded(proposed, replacement) == payload,
            Err(_) => true,
        },
        _ => true,
    }
}

/// Every PREPARE of message `id` that was sent carries `payload`.
pub open spec fn carries_only(cluster: ClusterView, id: Seq<char>, payload: Seq<u8>) -> bool {
    forall|sent: Seq<u8>| #[trigger] cluster.sent.contains((id, sent)) ==> sent == payload
}

/// Where the applications keep the payload they are shown, every node is
/// shown the payload the proposer's `pre_prepare` hook produced: each
/// PREPARE of the message that is ever sent, and so each that is ever
/// delivered, carries that payload.
pub proof fn proposed_payload_reaches_all(
    cluster: ClusterView,
    run: Seq<Delivery>,
    policy: Policy,
    id: Seq<char>,
    payload: Seq<u8>,
    k: nat,
)
    requires
        carries_only(cluster, id, payload),
        k <= run.len(),
        forall|j: nat|
            j < k ==> faithful(
                #[trigger] cluster_after(cluster, run, policy, j),
                run[j as int],
                id,
                payload,
            ),
    ensures
        carries_only(cluster_after(cluster, run, policy, k), id, payload),
        cluster_after(cluster, run, policy, k).nodes.len() == cluster.nodes.len(),
        k < run.len() && faithful(cluster_after(cluster, run, policy, k), run[k as int], id, payload)
            && run[k as int].event.id == id ==> match run[k as int].event.inner {
            Some(ReliableBroadcastView::Prepare { payload: carried }) => carried == payload,
            _ => true,
        },
    decreases k,
{
    if k > 0 {
        let j = (k - 1) as nat;
        proposed_payload_reaches_all(cluster, run, policy, id, payload, j);
        let before = cluster_after(cluster, run, policy, j);
        assert(faithful(before, run[j as int], id, payload));
        let delivery = run[j as int];
        let after = deliver(before, delivery, policy);
        assert forall|sent: Seq<u8>| #[trigger] after.sent.contains((id, sent)) implies sent
            == payload by {
            if !before.sent.contains((id, sent)) {
                match delivery.event.inner {
                    Some(ReliableBroadcastView::Prepare { payload: carried }) => {
                        assert(before.sent.contains((id, carried)));
                    },
                    _ => {},
                }
            }
        }
    }
}

} // verus!
