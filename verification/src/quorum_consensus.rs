//! The consensus engine: three rounds of voting per message.
//!
//! PRE-PREPARE: the node that proposes a message votes PREPARE for it and
//! sends its PREPARE to all members.
//!
//! PREPARE: a node that receives a PREPARE counts the sender's vote. If it has
//! not voted itself, it does so and sends its own PREPARE to all members. Once
//! a quorum of PREPARE votes is counted the message is prepared, and the node
//! that proposed it sends COMMIT.
//!
//! COMMIT: a node that receives a COMMIT counts the vote and, if it has not
//! done so, sends its own COMMIT. A prepared message with a quorum of COMMIT
//! votes is committed.
//!
//! The application is asked at five points and may refuse at each of them.
//! Progress is driven by frames alone: there is no timer.

use crate::context::{ConsensusContext, ContextView};
use crate::membership::{Membership, Memberships};
use crate::message::{
    Kind, ProtocolRequest, ProtocolResponse, ReliableBroadcast, ReliableBroadcastMessage,
    ReliableBroadcastView, ResponseView,
};
use crate::model::{
    ack_of, asks_application, commit_answered_outcome, commit_asks, commit_completes, commit_of,
    commit_outcome, commit_shown, commit_unasked_outcome, committed_outcome, idle,
    prepare_answered_outcome, prepare_completes, prepare_of, prepare_outcome, prepare_shown,
    prepared_outcome, proposed_context, reads_members, step, Answers, NodeView, Outcome, Policy,
    Refusal,
};
use crate::quorum::Quorum;
use crate::recency::{
    after_put, after_put_all, after_put_distinct, position_of, position_of_found, value_of,
    without_distinct,
};
use crate::store::{ContextStore, DEFAULT_CAPACITY, MAX_CAPACITY};
use crate::text::{clone_texts, insert_text, texts, texts_drop_last, texts_push};
use vstd::prelude::*;

verus! {

/// Why the engine gave no answer to a frame.
#[derive(Debug, Clone, PartialEq, Eq)]
pub enum QuorumProtocolError {
    /// The frame asks for nothing the engine knows, or it is a COMMIT for a
    /// message the node holds no context of. Carries the message id.
    UnknownBroadcast(String),
    /// A hook of the application failed. Carries the application's cause.
    CallbackError(String),
}

impl View for QuorumProtocolError {
    type V = Refusal;

    open spec fn view(&self) -> Refusal {
        match self {
            QuorumProtocolError::UnknownBroadcast(id) => Refusal::UnknownBroadcast(id@),
            QuorumProtocolError::CallbackError(cause) => Refusal::CallbackError(cause@),
        }
    }
}

impl QuorumProtocolError {
    /// The error in words: a fixed text for an unknown broadcast, the
    /// application's own cause for a failed hook.
    pub fn message(&self) -> (text: String)
        ensures
            text@ == match self@ {
                Refusal::UnknownBroadcast(_) => "Unknown broadcast"@,
                Refusal::CallbackError(cause) => cause,
            },
    {
        match self {
            QuorumProtocolError::UnknownBroadcast(_) => "Unknown broadcast".to_string(),
            QuorumProtocolError::CallbackError(cause) => cause.clone(),
        }
    }
}

/// The hooks of the application. Each is called at one point of the protocol
/// and may fail with a cause; the first two may put another payload in the
/// place of the one that came in. The context shown is the one of the message
/// at that point.
pub trait QuorumConsensusCallBack {
    /// This node proposes a message. The context is the one the proposal
    /// starts with: only this node has voted PREPARE.
    fn pre_prepare(
        &mut self,
        msg_id: String,
        sender: String,
        payload: Vec<u8>,
        ctx: &ConsensusContext,
    ) -> Result<Option<Vec<u8>>, String>
        requires
            ctx.wf(),
            ctx@ == proposed_context(msg_id@, ctx@.local_address, ctx@.peers),
    ;

    /// A PREPARE was received. The message is not prepared; the vote of the
    /// sender is counted if the sender is a member.
    fn prepare(
        &mut self,
        msg_id: String,
        sender: String,
        payload: Vec<u8>,
        ctx: &ConsensusContext,
    ) -> Result<Option<Vec<u8>>, String>
        requires
            ctx.wf(),
            ctx@.id == msg_id@,
            !ctx@.prepared,
            ctx@.peers.contains(sender@) ==> ctx@.prepare.contains(sender@),
    ;

    /// A quorum of PREPARE votes was counted: the message is prepared, and
    /// this node is among the voters.
    fn prepared(&mut self, ctx: &ConsensusContext) -> Result<(), String>
        requires
            ctx.wf(),
            ctx@.prepared,
            ctx@.prepare.contains(ctx@.local_address),
    ;

    /// A COMMIT was received. The message is not committed; the vote of the
    /// sender is counted if the sender is a member, and this node has voted
    /// COMMIT.
    fn commit(&mut self, msg_id: String, origin: String, ctx: &ConsensusContext) -> Result<
        (),
        String,
    >
        requires
            ctx.wf(),
            ctx@.id == msg_id@,
            !ctx@.committed,
            ctx@.peers.contains(origin@) ==> ctx@.commit.contains(origin@),
            ctx@.commit.contains(ctx@.local_address),
    ;

    /// A quorum of COMMIT votes was counted for a prepared message: the
    /// message is committed and delivered.
    fn committed(&mut self, ctx: &ConsensusContext) -> Result<(), String>
        requires
            ctx.wf(),
            ctx@.prepared,
            ctx@.committed,
            ctx@.commit.contains(ctx@.local_address),
    ;
}

/// What the engine is set up with: the id of this node.
#[derive(Debug, Clone)]
pub struct Settings {
    pub address: String,
}

pub type ProtocolResult = Result<ProtocolResponse, QuorumProtocolError>;

/// Does the result carry what `outcome` says? The time stamp of an answer
/// is left open.
pub open spec fn result_matches(result: ProtocolResult, outcome: Outcome) -> bool {
    match (result, outcome) {
        (Ok(response), Ok(v)) => response.matches_view(v),
        (Err(error), Err(refusal)) => error@ == refusal,
        _ => false,
    }
}

/// The answer with the given frame content and time stamp.
pub fn reply_at(
    kind: Kind,
    id: String,
    node_id: String,
    peers: Vec<String>,
    msg: ReliableBroadcast,
    timestamp: u64,
) -> (r: ProtocolResult)
    ensures
        result_matches(
            r,
            Ok(ResponseView { kind, peers: texts(peers@), id: id@, node_id: node_id@, inner: msg@ }),
        ),
        r matches Ok(response) && response.reply.timestamp == timestamp,
{
    Ok(
        ProtocolResponse {
            kind,
            peers,
            reply: ReliableBroadcastMessage { id, node_id, timestamp, inner: Some(msg) },
        },
    )
}

/// The answer with the given frame content, stamped with the present time
/// of the wall clock in milliseconds.
pub fn reply(kind: Kind, id: String, node_id: String, peers: Vec<String>, msg: ReliableBroadcast) -> (r:
    ProtocolResult)
    ensures
        result_matches(
            r,
            Ok(ResponseView { kind, peers: texts(peers@), id: id@, node_id: node_id@, inner: msg@ }),
        ),
{
    reply_at(kind, id, node_id, peers, msg, crate::clock::now_millis())
}

/// An answer for all `peers`.
pub fn broadcast_reply(id: String, node_id: String, peers: Vec<String>, msg: ReliableBroadcast) -> (r:
    ProtocolResult)
    ensures
        result_matches(
            r,
            Ok(
                ResponseView {
                    kind: Kind::BROADCAST,
                    peers: texts(peers@),
                    id: id@,
                    node_id: node_id@,
                    inner: msg@,
                },
            ),
        ),
{
    reply(Kind::BROADCAST, id, node_id, peers, msg)
}

/// This node's PREPARE with `payload`, for all `peers`.
pub fn prepare_reply(id: String, node_id: String, payload: Vec<u8>, peers: Vec<String>) -> (r:
    ProtocolResult)
    ensures
        result_matches(r, Ok(prepare_of(id@, node_id@, payload@, texts(peers@)))),
{
    broadcast_reply(id, node_id, peers, ReliableBroadcast::Prepare { payload })
}

/// This node's COMMIT, for all `peers`.
pub fn commit_reply(id: String, node_id: String, peers: Vec<String>) -> (r: ProtocolResult)
    ensures
        result_matches(r, Ok(commit_of(id@, node_id@, texts(peers@)))),
{
    broadcast_reply(id, node_id, peers, ReliableBroadcast::Commit)
}

/// The acknowledgement of a frame, for the peer it came from.
pub fn ack(id: String, node_id: String) -> (r: ProtocolResult)
    ensures
        result_matches(r, Ok(ack_of(id@, node_id@))),
{
    let peers: Vec<String> = Vec::new();
    assert(texts(peers@) =~= Seq::<Seq<char>>::empty());
    reply(Kind::REPLY, id, node_id, peers, ReliableBroadcast::Ack)
}

/// The predicates of a quorum policy, as the protocol reads them.
pub open spec fn policy_of<Q: Quorum>(quorum: Q) -> Policy {
    Policy {
        prepare: |votes: nat, members: nat| quorum.spec_prepare_threshold(votes, members),
        commit: |votes: nat, members: nat| quorum.spec_commit_threshold(votes, members),
    }
}

/// The contexts of a table as the protocol reads them, in the same order.
pub open spec fn context_views(entries: Seq<(Seq<char>, ConsensusContext)>) -> Seq<
    (Seq<char>, ContextView),
> {
    Seq::new(entries.len(), |i: int| (entries[i].0, entries[i].1@))
}

/// The views of a table have the keys of the table, at the same places.
pub proof fn context_views_position(entries: Seq<(Seq<char>, ConsensusContext)>, key: Seq<char>)
    ensures
        position_of(context_views(entries), key) == position_of(entries, key),
        value_of(context_views(entries), key) == match value_of(entries, key) {
            Some(ctx) => Some(ctx@),
            None => None,
        },
    decreases entries.len(),
{
    if entries.len() > 0 {
        assert(context_views(entries).drop_first() =~= context_views(entries.drop_first()));
        context_views_position(entries.drop_first(), key);
    }
    position_of_found(entries, key);
}

/// A put into a table is a put into its views.
pub proof fn context_views_put(
    entries: Seq<(Seq<char>, ConsensusContext)>,
    limit: nat,
    key: Seq<char>,
    ctx: ConsensusContext,
)
    requires
        limit > 0,
    ensures
        context_views(after_put(entries, limit, key, ctx)) == after_put(
            context_views(entries),
            limit,
            key,
            ctx@,
        ),
{
    context_views_position(entries, key);
    position_of_found(entries, key);
    assert(context_views(after_put(entries, limit, key, ctx)) =~= after_put(
        context_views(entries),
        limit,
        key,
        ctx@,
    ));
}

/// Did the frame do to the node what the protocol says, for some answers of
/// the application?
pub open spec fn handled(
    before: NodeView,
    id: Seq<char>,
    sender: Seq<char>,
    inner: Option<ReliableBroadcastView>,
    policy: Policy,
    after: NodeView,
    r: ProtocolResult,
) -> bool {
    exists|answers: Answers|
        {
            let (node, outcome) = #[trigger] step(before, id, sender, inner, policy, answers);
            after == node && result_matches(r, outcome)
        }
}

/// A frame that did what the protocol says under given answers was handled.
pub proof fn handled_by(
    before: NodeView,
    id: Seq<char>,
    sender: Seq<char>,
    inner: Option<ReliableBroadcastView>,
    policy: Policy,
    answers: Answers,
    after: NodeView,
    r: ProtocolResult,
)
    requires
        after == step(before, id, sender, inner, policy, answers).0,
        result_matches(r, step(before, id, sender, inner, policy, answers).1),
    ensures
        handled(before, id, sender, inner, policy, after, r),
{
    let (node, outcome) = step(before, id, sender, inner, policy, answers);
    assert(after == node && result_matches(r, outcome));
}

/// The context as it was before the vote that was counted last, if `added`
/// says that the frame added one.
pub open spec fn before_vote(ctx: ConsensusContext, added: bool) -> ContextView {
    if added {
        ContextView { prepare: texts(ctx.prepare@.drop_last()).to_set(), ..ctx@ }
    } else {
        ctx@
    }
}

/// The context is one the `prepare` hook is shown: the message is not
/// prepared, and a vote that `added` speaks of is there.
pub open spec fn vote_shown(ctx: ConsensusContext, added: bool) -> bool {
    &&& ctx.wf()
    &&& !ctx@.prepared
    &&& added ==> ctx.prepare@.len() > 0
}

/// How a PREPARE starts.
pub enum PrepareStart {
    /// The message is prepared already: the context as it was, and the
    /// acknowledgement.
    Done(ConsensusContext, ProtocolResult),
    /// The `prepare` hook is to be asked on this context. The flag says
    /// whether the vote of the sender was added to it.
    Ask(ConsensusContext, bool),
}

/// How a PREPARE goes on after the `prepare` hook.
pub enum PrepareStep {
    /// The frame is dealt with: the context to keep, and the result.
    Done(ConsensusContext, ProtocolResult),
    /// The phase is complete: the `prepared` hook is to be asked on this
    /// context.
    AskPrepared(ConsensusContext),
}

/// How a COMMIT starts.
pub enum CommitStart {
    /// The application is not asked: the context to keep, and the result.
    Done(ConsensusContext, ProtocolResult),
    /// The `commit` hook is to be asked on this context.
    Ask(ConsensusContext),
}

/// How a COMMIT goes on after the `commit` hook.
pub enum CommitStep {
    /// The frame is dealt with: the context to keep, and the result.
    Done(ConsensusContext, ProtocolResult),
    /// The phase is complete: the `committed` hook is to be asked on this
    /// context.
    AskCommitted(ConsensusContext),
}

/// A list without duplicates has none after its last item is dropped.
proof fn drop_last_distinct(s: Seq<Seq<char>>)
    requires
        s.no_duplicates(),
        s.len() > 0,
    ensures
        s.drop_last().no_duplicates(),
{
    let t = s.drop_last();
    assert forall|i: int, j: int| 0 <= i < t.len() && 0 <= j < t.len() && i != j implies t[i]
        != t[j] by {
        assert(t[i] == s[i] && t[j] == s[j]);
    }
}

/// A PREPARE of `sender` reaches the context of its message. A prepared
/// message is acknowledged. Else the vote of the sender is counted if the
/// sender is a member, and the application is to be asked.
pub fn prepare_received(ctx: ConsensusContext, sender: &String) -> (start: PrepareStart)
    requires
        ctx.wf(),
    ensures
        match start {
            PrepareStart::Done(same, r) => ctx@.prepared && same == ctx && result_matches(
                r,
                Ok(ack_of(ctx@.id, ctx@.local_address)),
            ),
            PrepareStart::Ask(shown, added) => {
                &&& !ctx@.prepared
                &&& vote_shown(shown, added)
                &&& shown@ == prepare_shown(ctx@, sender@)
                &&& before_vote(shown, added) == ctx@
                &&& added == (ctx@.peers.contains(sender@) && !ctx@.prepare.contains(sender@))
            },
        },
{
    let mut ctx = ctx;
    let ghost before = ctx;
    if ctx.prepared {
        let r = ack(ctx.id.clone(), ctx.local_address.clone());
        return PrepareStart::Done(ctx, r);
    }
    let added = if ctx.is_member(sender) {
        proof {
            texts_push(ctx.prepare@, *sender);
        }
        insert_text(&mut ctx.prepare, sender.clone())
    } else {
        false
    };
    proof {
        if added {
            assert(ctx.prepare@.drop_last() =~= before.prepare@);
        }
        assert(ctx@.prepare =~= prepare_shown(before@, sender@).prepare);
    }
    PrepareStart::Ask(ctx, added)
}

/// The `prepare` hook has answered on the context it was shown. On a refusal
/// a vote the frame added is taken back. Else the node votes and sends its
/// PREPARE if it has not voted; or, with a quorum of votes, marks the
/// message prepared, and the `prepared` hook is to be asked; or waits.
pub fn prepare_answered<Q: Quorum>(
    quorum: &Q,
    ctx: ConsensusContext,
    added: bool,
    payload: Vec<u8>,
    answer: Result<Option<Vec<u8>>, String>,
) -> (step: PrepareStep)
    requires
        vote_shown(ctx, added),
    ensures
        match step {
            PrepareStep::AskPrepared(done) => {
                &&& prepare_completes(ctx@, policy_of(*quorum), answer_view(answer))
                &&& done.wf()
                &&& done@ == (ContextView { prepared: true, ..ctx@ })
            },
            PrepareStep::Done(next, r) => {
                let (after, outcome) = prepare_answered_outcome(
                    before_vote(ctx, added),
                    ctx@,
                    payload@,
                    policy_of(*quorum),
                    Answers { prepare: answer_view(answer), ..idle() },
                );
                &&& !prepare_completes(ctx@, policy_of(*quorum), answer_view(answer))
                &&& next.wf()
                &&& next@ == after
                &&& result_matches(r, outcome)
            },
        },
{
    let mut ctx = ctx;
    let ghost shown = ctx;
    let local = ctx.local_address.clone();
    let id = ctx.id.clone();
    let outgoing = match answer {
        Err(cause) => {
            if added {
                proof {
                    texts_drop_last(ctx.prepare@);
                    drop_last_distinct(texts(ctx.prepare@));
                }
                ctx.prepare.pop();
            }
            return PrepareStep::Done(ctx, Err(QuorumProtocolError::CallbackError(cause)));
        },
        Ok(Some(other)) => other,
        Ok(None) => payload,
    };
    if !ctx.has_prepare(&local) {
        ctx.add_prepare(local.clone());
        let peers = clone_texts(&ctx.peers);
        let r = prepare_reply(id, local, outgoing, peers);
        return PrepareStep::Done(ctx, r);
    }
    if quorum.prepare_threshold(ctx.prepare_count(), ctx.peers.len()) {
        ctx.prepared = true;
        return PrepareStep::AskPrepared(ctx);
    }
    let r = ack(id, local);
    PrepareStep::Done(ctx, r)
}

/// The `prepared` hook has answered on a context that was just marked
/// prepared. On a refusal the commit phase is not entered. Else the node
/// that proposed the message votes COMMIT and sends its COMMIT; any other
/// node acknowledges.
pub fn prepared_answered(ctx: ConsensusContext, answer: Result<(), String>) -> (out: (
    ConsensusContext,
    ProtocolResult,
))
    requires
        ctx.wf(),
        ctx@.prepared,
    ensures
        out.0.wf(),
        out.0@ == prepared_outcome(ctx@, notice_view(answer)).0,
        result_matches(out.1, prepared_outcome(ctx@, notice_view(answer)).1),
{
    let mut ctx = ctx;
    let local = ctx.local_address.clone();
    let id = ctx.id.clone();
    if let Err(cause) = answer {
        return (ctx, Err(QuorumProtocolError::CallbackError(cause)));
    }
    if ctx.original_sender {
        ctx.add_commit(local.clone());
        let peers = clone_texts(&ctx.peers);
        let r = commit_reply(id, local, peers);
        return (ctx, r);
    }
    let r = ack(id, local);
    (ctx, r)
}

/// A COMMIT of `origin` reaches the context of its message. A committed
/// message is acknowledged. Else the vote is counted if `origin` is a
/// member; a node that has not voted COMMIT votes and sends its COMMIT;
/// one that has voted asks the application.
pub fn commit_received(ctx: ConsensusContext, origin: &String) -> (start: CommitStart)
    requires
        ctx.wf(),
    ensures
        match start {
            CommitStart::Done(next, r) => {
                &&& !commit_asks(ctx@, origin@)
                &&& next.wf()
                &&& next@ == commit_unasked_outcome(ctx@, origin@).0
                &&& result_matches(r, commit_unasked_outcome(ctx@, origin@).1)
            },
            CommitStart::Ask(shown) => {
                &&& commit_asks(ctx@, origin@)
                &&& shown.wf()
                &&& shown@ == commit_shown(ctx@, origin@)
            },
        },
{
    let mut ctx = ctx;
    let local = ctx.local_address.clone();
    let id = ctx.id.clone();
    if ctx.committed {
        let r = ack(id, local);
        return CommitStart::Done(ctx, r);
    }
    if ctx.is_member(origin) {
        ctx.add_commit(origin.clone());
    }
    if !ctx.has_commit(&local) {
        ctx.add_commit(local.clone());
        let peers = clone_texts(&ctx.peers);
        let r = commit_reply(id, local, peers);
        return CommitStart::Done(ctx, r);
    }
    CommitStart::Ask(ctx)
}

/// The `commit` hook has answered on the context it was shown. On a refusal
/// the vote stays counted and nothing more is done. Else a prepared message
/// with a quorum of votes is marked committed, and the `committed` hook is
/// to be asked; any other is acknowledged.
pub fn commit_answered<Q: Quorum>(quorum: &Q, ctx: ConsensusContext, answer: Result<(), String>) -> (step:
    CommitStep)
    requires
        ctx.wf(),
        !ctx@.committed,
    ensures
        match step {
            CommitStep::AskCommitted(done) => {
                &&& commit_completes(ctx@, policy_of(*quorum), notice_view(answer))
                &&& done.wf()
                &&& done@ == (ContextView { committed: true, ..ctx@ })
            },
            CommitStep::Done(next, r) => {
                let (after, outcome) = commit_answered_outcome(
                    ctx@,
                    policy_of(*quorum),
                    Answers { commit: notice_view(answer), ..idle() },
                );
                &&& !commit_completes(ctx@, policy_of(*quorum), notice_view(answer))
                &&& next.wf()
                &&& next@ == after
                &&& result_matches(r, outcome)
            },
        },
{
    let mut ctx = ctx;
    if let Err(cause) = answer {
        return CommitStep::Done(ctx, Err(QuorumProtocolError::CallbackError(cause)));
    }
    if ctx.prepared && quorum.commit_threshold(ctx.commit_count(), ctx.peers.len()) {
        ctx.committed = true;
        return CommitStep::AskCommitted(ctx);
    }
    let r = ack(ctx.id.clone(), ctx.local_address.clone());
    CommitStep::Done(ctx, r)
}

/// The `committed` hook has answered on a context that was just marked
/// committed. The context stays committed whatever the answer; a refusal is
/// handed on.
pub fn committed_answered(ctx: ConsensusContext, answer: Result<(), String>) -> (out: (
    ConsensusContext,
    ProtocolResult,
))
    requires
        ctx.wf(),
        ctx@.committed,
    ensures
        out.0 == ctx,
        result_matches(out.1, committed_outcome(ctx@, notice_view(answer)).1),
        committed_outcome(ctx@, notice_view(answer)).0 == ctx@,
{
    if let Err(cause) = answer {
        return (ctx, Err(QuorumProtocolError::CallbackError(cause)));
    }
    let r = ack(ctx.id.clone(), ctx.local_address.clone());
    (ctx, r)
}

/// The consensus engine of one node.
pub struct QuorumConsensusBroadcastProtocol<Q: Quorum, C: QuorumConsensusCallBack> {
    contexts: ContextStore,
    memberships: Memberships,
    quorum: Q,
    callback: C,
    node_id: String,
}

impl<Q: Quorum, C: QuorumConsensusCallBack> View for QuorumConsensusBroadcastProtocol<Q, C> {
    type V = NodeView;

    closed spec fn view(&self) -> NodeView {
        NodeView {
            node_id: self.node_id@,
            contexts: context_views(self.contexts.entries()),
            capacity: self.contexts.capacity(),
            members: self.memberships.current_snapshot().active_with_local(),
        }
    }
}

impl<Q: Quorum, C: QuorumConsensusCallBack> QuorumConsensusBroadcastProtocol<Q, C> {
    /// The quorum policy of the engine.
    pub closed spec fn policy(&self) -> Policy {
        policy_of(self.quorum)
    }

    /// The memberships the engine reads the voters from.
    pub closed spec fn membership_view(&self) -> Memberships {
        self.memberships
    }

    /// The application the engine calls, in the state the hooks have left it
    /// in.
    pub closed spec fn application(&self) -> C {
        self.callback
    }

    /// The table and the memberships are well formed, and every context is
    /// sound.
    pub closed spec fn wf(&self) -> bool {
        &&& self.contexts.wf()
        &&& self.memberships.wf()
        &&& forall|i: int|
            0 <= i < self.contexts.entries().len() ==> sound_entry(
                #[trigger] self.contexts.entries()[i],
                self.node_id@,
                self.policy(),
            )
    }

    /// An engine with an empty table of `DEFAULT_CAPACITY` contexts.
    pub fn new(memberships: Memberships, quorum: Q, callback: C, settings: Settings) -> (engine: Self)
        requires
            memberships.wf(),
        ensures
            engine.wf(),
            engine@.node_id == settings.address@,
            engine@.contexts.len() == 0,
            engine@.capacity == DEFAULT_CAPACITY,
            engine@.members == memberships.current_snapshot().active_with_local(),
            engine.policy() == policy_of(quorum),
            engine.membership_view() == memberships,
            engine.application() == callback,
    {
        Self::with_capacity(memberships, quorum, callback, settings, DEFAULT_CAPACITY)
    }

    /// An engine with an empty table of `capacity` contexts.
    pub fn with_capacity(
        memberships: Memberships,
        quorum: Q,
        callback: C,
        settings: Settings,
        capacity: usize,
    ) -> (engine: Self)
        requires
            memberships.wf(),
            0 < capacity <= MAX_CAPACITY,
        ensures
            engine.wf(),
            engine@.node_id == settings.address@,
            engine@.contexts.len() == 0,
            engine@.capacity == capacity,
            engine@.members == memberships.current_snapshot().active_with_local(),
            engine.policy() == policy_of(quorum),
            engine.membership_view() == memberships,
            engine.application() == callback,
    {
        QuorumConsensusBroadcastProtocol {
            contexts: ContextStore::new(capacity),
            memberships,
            quorum,
            callback,
            node_id: settings.address,
        }
    }

    /// A well-formed engine is in a sound state: all that the laws of the
    /// protocol say of a sound node holds of it.
    pub proof fn sound_when_wf(&self)
        requires
            self.wf(),
        ensures
            crate::laws::node_sound(self@, self.policy()),
    {
        let entries = self.contexts.entries();
        let views = context_views(entries);
        assert forall|i: int| 0 <= i < views.len() implies crate::laws::entry_sound(
            #[trigger] views[i],
            self@.node_id,
            self.policy(),
        ) by {
            assert(sound_entry(entries[i], self.node_id@, self.policy()));
        }
        assert forall|i: int, j: int| 0 <= i < views.len() && 0 <= j < views.len() && i
            != j implies views[i].0 != views[j].0 by {
            assert(entries[i].0 != entries[j].0);
        }
    }

    /// The voters of an instance that starts now. Reading them counts as a
    /// use of the current snapshot.
    pub fn members(&mut self) -> (ids: Vec<String>)
        requires
            old(self).wf(),
        ensures
            final(self).wf(),
            final(self)@ == old(self)@,
            final(self).policy() == old(self).policy(),
            final(self).application() == old(self).application(),
            same_snapshots(final(self).membership_view(), old(self).membership_view()),
            texts(ids@) == old(self)@.members,
    {
        let snapshot = self.memberships.current();
        snapshot.voters()
    }

    /// Puts a context into the table under its id.
    fn keep(&mut self, ctx: ConsensusContext)
        requires
            old(self).wf(),
            ctx.wf(),
            crate::model::sound(ctx@, old(self)@.node_id, old(self).policy()),
        ensures
            final(self).wf(),
            final(self).policy() == old(self).policy(),
            final(self)@ == (NodeView {
                contexts: after_put(old(self)@.contexts, old(self)@.capacity, ctx@.id, ctx@),
                ..old(self)@
            }),
            final(self).contexts.entries() == after_put(
                old(self).contexts.entries(),
                old(self).contexts.capacity(),
                ctx.id@,
                ctx,
            ),
            final(self).membership_view() == old(self).membership_view(),
            final(self).application() == old(self).application(),
    {
        proof {
            let entries = self.contexts.entries();
            let limit = self.contexts.capacity();
            context_views_put(entries, limit, ctx.id@, ctx);
            let node_id = self.node_id@;
            let policy = self.policy();
            after_put_all(
                entries,
                limit,
                ctx.id@,
                ctx,
                |entry: (Seq<char>, ConsensusContext)| sound_entry(entry, node_id, policy),
            );
        }
        self.contexts.put(ctx);
    }

    /// Takes the context of message `msg_id` out of the table, to be put
    /// back as the most recently used one.
    fn lift(&mut self, msg_id: &String) -> (found: Option<ConsensusContext>)
        requires
            old(self).wf(),
        ensures
            final(self).wf(),
            final(self).policy() == old(self).policy(),
            final(self).membership_view() == old(self).membership_view(),
            final(self).application() == old(self).application(),
            final(self)@.node_id == old(self)@.node_id,
            final(self)@.capacity == old(self)@.capacity,
            final(self)@.members == old(self)@.members,
            forall|ctx: ConsensusContext|
                ctx.id@ == msg_id@ ==> context_views(
                    #[trigger] after_put(
                        final(self).contexts.entries(),
                        final(self).contexts.capacity(),
                        msg_id@,
                        ctx,
                    ),
                ) == after_put(old(self)@.contexts, old(self)@.capacity, msg_id@, ctx@),
            match found {
                Some(ctx) => ctx.wf() && ctx@.id == msg_id@ && crate::model::sound(
                    ctx@,
                    old(self)@.node_id,
                    old(self).policy(),
                ) && value_of(old(self)@.contexts, msg_id@) == Some(ctx@),
                None => value_of(old(self)@.contexts, msg_id@).is_none() && final(self)@ == old(
                    self,
                )@,
            },
    {
        let ghost entries = self.contexts.entries();
        let ghost limit = self.contexts.capacity();
        let ghost policy = self.policy();
        proof {
            context_views_position(entries, msg_id@);
            position_of_found(entries, msg_id@);
            without_distinct(entries, msg_id@);
            if let Some(p) = position_of(entries, msg_id@) {
                assert(sound_entry(entries[p], self.node_id@, policy));
            }
        }
        let found = self.contexts.take(msg_id);
        proof {
            let rest = self.contexts.entries();
            assert forall|i: int| 0 <= i < rest.len() implies sound_entry(
                #[trigger] rest[i],
                self.node_id@,
                policy,
            ) by {
                match position_of(entries, msg_id@) {
                    Some(p) => {
                        let j = if i < p {
                            i
                        } else {
                            i + 1
                        };
                        assert(rest[i] == entries[j]);
                    },
                    None => {},
                }
            }
            assert forall|ctx: ConsensusContext| ctx.id@ == msg_id@ implies context_views(
                #[trigger] after_put(rest, limit, msg_id@, ctx),
            ) == after_put(context_views(entries), limit, msg_id@, ctx@) by {
                after_put_distinct(entries, limit, msg_id@, ctx);
                context_views_put(entries, limit, msg_id@, ctx);
            }
        }
        found
    }

    /// What every frame leaves as it is: the policy, which snapshot of the
    /// peer set is current and which one waits; and, where the frame does
    /// not make the node read the voters or ask the application, the
    /// memberships and the application as a whole.
    pub open spec fn untouched(
        &self,
        before: Self,
        id: Seq<char>,
        sender: Seq<char>,
        inner: Option<ReliableBroadcastView>,
    ) -> bool {
        &&& self.policy() == before.policy()
        &&& same_snapshots(self.membership_view(), before.membership_view())
        &&& !reads_members(before@, id, inner) ==> self.membership_view()
            == before.membership_view()
        &&& !asks_application(before@, id, sender, inner) ==> self.application()
            == before.application()
    }

    /// The `pre_prepare` hook has answered on the context of a proposal of
    /// this node. On a refusal nothing is kept and nothing is sent. Else the
    /// context is kept, in the place of one the node held of the message, and
    /// the node sends its PREPARE with the payload the application put in
    /// the place of the proposed one, or else with the proposed one.
    pub fn pre_prepare_answered(
        &mut self,
        ctx: ConsensusContext,
        sender: String,
        payload: Vec<u8>,
        answer: Result<Option<Vec<u8>>, String>,
    ) -> (r: ProtocolResult)
        requires
            old(self).wf(),
            ctx.wf(),
            ctx@ == proposed_context(ctx@.id, old(self)@.node_id, old(self)@.members),
        ensures
            final(self).wf(),
            final(self).policy() == old(self).policy(),
            final(self).membership_view() == old(self).membership_view(),
            final(self).application() == old(self).application(),
            ({
                let (node, outcome) = step(
                    old(self)@,
                    ctx@.id,
                    sender@,
                    Some(ReliableBroadcastView::PrePrepare { payload: payload@ }),
                    old(self).policy(),
                    Answers { pre_prepare: answer_view(answer), ..idle() },
                );
                final(self)@ == node && result_matches(r, outcome)
            }),
    {
        match answer {
            Err(cause) => Err(QuorumProtocolError::CallbackError(cause)),
            Ok(replacement) => {
                let outgoing = match replacement {
                    Some(other) => other,
                    None => payload,
                };
                let msg_id = ctx.id.clone();
                let peers = clone_texts(&ctx.peers);
                proof {
                    crate::model::fresh_sound(
                        ctx@.id,
                        true,
                        self.node_id@,
                        self@.members,
                        self.policy(),
                    );
                }
                self.keep(ctx);
                prepare_reply(msg_id, self.node_id.clone(), outgoing, peers)
            },
        }
    }

    /// This node proposes message `msg_id`: it starts a context of its own in
    /// which it has voted PREPARE, asks the application, and sends PREPARE to
    /// all members. A context the node held of that message is replaced. If
    /// the application refuses, nothing is kept and nothing is sent.
    pub fn process_pre_prepare(&mut self, msg_id: String, sender: String, payload: Vec<u8>) -> (r:
        ProtocolResult)
        requires
            old(self).wf(),
        ensures
            final(self).wf(),
            handled(
                old(self)@,
                msg_id@,
                sender@,
                Some(ReliableBroadcastView::PrePrepare { payload: payload@ }),
                old(self).policy(),
                final(self)@,
                r,
            ),
            final(self).untouched(
                *old(self),
                msg_id@,
                sender@,
                Some(ReliableBroadcastView::PrePrepare { payload: payload@ }),
            ),
    {
        let members = self.members();
        let mut ctx = ConsensusContext::new(msg_id.clone(), true, self.node_id.clone(), members);
        ctx.add_prepare(self.node_id.clone());
        assert(ctx@ == proposed_context(msg_id@, self.node_id@, self@.members)) by {
            assert(ctx@.prepare =~= set![self.node_id@]);
        }
        let answer = self.callback.pre_prepare(msg_id.clone(), sender.clone(), payload.clone(), &ctx);
        let ghost answers = Answers { pre_prepare: answer_view(answer), ..idle() };
        let r = self.pre_prepare_answered(ctx, sender, payload, answer);
        proof {
            handled_by(
                old(self)@,
                msg_id@,
                sender@,
                Some(ReliableBroadcastView::PrePrepare { payload: payload@ }),
                old(self).policy(),
                answers,
                self@,
                r,
            );
        }
        r
    }

    /// A PREPARE of `sender` for message `msg_id` came in. The node takes up
    /// the context of the message, or starts one with the present voters;
    /// counts the vote of a member; asks the application; and then votes
    /// itself, completes the phase, or waits, as the protocol says. If the
    /// `prepare` hook refuses, the vote is not counted.
    pub fn process_prepare(&mut self, msg_id: String, sender: String, payload: Vec<u8>) -> (r:
        ProtocolResult)
        requires
            old(self).wf(),
        ensures
            final(self).wf(),
            handled(
                old(self)@,
                msg_id@,
                sender@,
                Some(ReliableBroadcastView::Prepare { payload: payload@ }),
                old(self).policy(),
                final(self)@,
                r,
            ),
            final(self).untouched(
                *old(self),
                msg_id@,
                sender@,
                Some(ReliableBroadcastView::Prepare { payload: payload@ }),
            ),
    {
        let ghost policy = self.policy();
        let ghost inner = Some(ReliableBroadcastView::Prepare { payload: payload@ });
        let ctx = match self.lift(&msg_id) {
            Some(ctx) => ctx,
            None => {
                let members = self.memberships.current().voters();
                proof {
                    crate::model::fresh_sound(msg_id@, false, self.node_id@, texts(members@), policy);
                }
                ConsensusContext::new(msg_id.clone(), false, self.node_id.clone(), members)
            },
        };
        let ghost start = ctx@;
        let ghost lifted = (self.contexts.entries(), self.contexts.capacity());
        let ghost asked: Answers;
        let (ctx, r) = match prepare_received(ctx, &sender) {
            PrepareStart::Done(ctx, r) => {
                proof {
                    asked = idle();
                }
                (ctx, r)
            },
            PrepareStart::Ask(shown, added) => {
                let answer = self.callback.prepare(
                    msg_id.clone(),
                    sender.clone(),
                    payload.clone(),
                    &shown,
                );
                match prepare_answered(&self.quorum, shown, added, payload, answer) {
                    PrepareStep::Done(ctx, r) => {
                        proof {
                            asked = Answers { prepare: answer_view(answer), ..idle() };
                        }
                        (ctx, r)
                    },
                    PrepareStep::AskPrepared(done) => {
                        let told = self.callback.prepared(&done);
                        proof {
                            asked = Answers {
                                prepare: answer_view(answer),
                                prepared: notice_view(told),
                                ..idle()
                            };
                        }
                        prepared_answered(done, told)
                    },
                }
            },
        };
        proof {
            assert(ctx@ == prepare_outcome(start, sender@, payload@, policy, asked).0);
            assert(result_matches(r, prepare_outcome(start, sender@, payload@, policy, asked).1));
            crate::model::prepare_keeps_sound(start, sender@, payload@, policy, asked);
            assert(context_views(after_put(lifted.0, lifted.1, msg_id@, ctx)) == after_put(
                old(self)@.contexts,
                old(self)@.capacity,
                msg_id@,
                ctx@,
            ));
        }
        self.keep(ctx);
        proof {
            handled_by(old(self)@, msg_id@, sender@, inner, policy, asked, self@, r);
        }
        r
    }

    /// A COMMIT of `origin` for message `msg_id` came in. Without a context
    /// of that message the frame is refused and nothing changes. Else the
    /// node counts the vote of a member; votes itself if it has not; or asks
    /// the application and, for a prepared message with a quorum of COMMIT
    /// votes, marks the message committed.
    pub fn process_commit(&mut self, msg_id: String, origin: String) -> (r: ProtocolResult)
        requires
            old(self).wf(),
        ensures
            final(self).wf(),
            handled(
                old(self)@,
                msg_id@,
                origin@,
                Some(ReliableBroadcastView::Commit),
                old(self).policy(),
                final(self)@,
                r,
            ),
            final(self).untouched(
                *old(self),
                msg_id@,
                origin@,
                Some(ReliableBroadcastView::Commit),
            ),
    {
        let ghost policy = self.policy();
        let ghost inner = Some(ReliableBroadcastView::Commit);
        let ctx = match self.lift(&msg_id) {
            Some(ctx) => ctx,
            None => {
                let r = Err(QuorumProtocolError::UnknownBroadcast(msg_id));
                proof {
                    handled_by(old(self)@, msg_id@, origin@, inner, policy, idle(), self@, r);
                }
                return r;
            },
        };
        let ghost start = ctx@;
        let ghost lifted = (self.contexts.entries(), self.contexts.capacity());
        let ghost asked: Answers;
        let (ctx, r) = match commit_received(ctx, &origin) {
            CommitStart::Done(ctx, r) => {
                proof {
                    asked = idle();
                }
                (ctx, r)
            },
            CommitStart::Ask(shown) => {
                let answer = self.callback.commit(msg_id.clone(), origin.clone(), &shown);
                match commit_answered(&self.quorum, shown, answer) {
                    CommitStep::Done(ctx, r) => {
                        proof {
                            asked = Answers { commit: notice_view(answer), ..idle() };
                        }
                        (ctx, r)
                    },
                    CommitStep::AskCommitted(done) => {
                        let told = self.callback.committed(&done);
                        proof {
                            asked = Answers {
                                commit: notice_view(answer),
                                committed: notice_view(told),
                                ..idle()
                            };
                        }
                        committed_answered(done, told)
                    },
                }
            },
        };
        proof {
            assert(ctx@ == commit_outcome(start, origin@, policy, asked).0);
            assert(result_matches(r, commit_outcome(start, origin@, policy, asked).1));
            crate::model::commit_keeps_sound(start, origin@, policy, asked);
            assert(context_views(after_put(lifted.0, lifted.1, msg_id@, ctx)) == after_put(
                old(self)@.contexts,
                old(self)@.capacity,
                msg_id@,
                ctx@,
            ));
        }
        self.keep(ctx);
        proof {
            handled_by(old(self)@, msg_id@, origin@, inner, policy, asked, self@, r);
        }
        r
    }

    /// Handles one frame: a proposal of this node, a vote of a peer, or an
    /// acknowledgement. An acknowledgement changes nothing and is dropped; a
    /// frame that asks for nothing is refused.
    pub fn handle_message(&mut self, request: ProtocolRequest) -> (r: ProtocolResult)
        requires
            old(self).wf(),
        ensures
            final(self).wf(),
            final(self).policy() == old(self).policy(),
            handled(
                old(self)@,
                request.message@.id,
                request.message@.node_id,
                request.message@.inner,
                old(self).policy(),
                final(self)@,
                r,
            ),
            final(self).untouched(
                *old(self),
                request.message@.id,
                request.message@.node_id,
                request.message@.inner,
            ),
    {
        let ghost frame = request.message@;
        let message = request.message;
        let rb_id = message.id;
        let node_id = message.node_id;
        match message.inner {
            None => {
                let r = Err(QuorumProtocolError::UnknownBroadcast("Unknown broadcast".to_string()));
                proof {
                    handled_by(
                        self@,
                        frame.id,
                        frame.node_id,
                        frame.inner,
                        self.policy(),
                        idle(),
                        self@,
                        r,
                    );
                }
                r
            },
            Some(ReliableBroadcast::PrePrepare { payload }) => {
                assert(frame.inner == Some(
                    ReliableBroadcastView::PrePrepare { payload: payload@ },
                ));
                self.process_pre_prepare(rb_id, node_id, payload)
            },
            Some(ReliableBroadcast::Prepare { payload }) => {
                assert(frame.inner == Some(ReliableBroadcastView::Prepare { payload: payload@ }));
                self.process_prepare(rb_id, node_id, payload)
            },
            Some(ReliableBroadcast::Commit) => {
                assert(frame.inner == Some(ReliableBroadcastView::Commit));
                self.process_commit(rb_id, node_id)
            },
            Some(ReliableBroadcast::Ack) => {
                let peers: Vec<String> = Vec::new();
                assert(texts(peers@) =~= Seq::<Seq<char>>::empty());
                let r = reply(Kind::DROP, rb_id, self.node_id.clone(), peers, ReliableBroadcast::Ack);
                proof {
                    handled_by(
                        self@,
                        frame.id,
                        frame.node_id,
                        frame.inner,
                        self.policy(),
                        idle(),
                        self@,
                        r,
                    );
                }
                r
            },
        }
    }

    /// The single entry point of the engine: handles one frame and says what
    /// to send.
    pub fn handle(&mut self, request: ProtocolRequest) -> (r: ProtocolResult)
        requires
            old(self).wf(),
        ensures
            final(self).wf(),
            final(self).policy() == old(self).policy(),
            handled(
                old(self)@,
                request.message@.id,
                request.message@.node_id,
                request.message@.inner,
                old(self).policy(),
                final(self)@,
                r,
            ),
            final(self).untouched(
                *old(self),
                request.message@.id,
                request.message@.node_id,
                request.message@.inner,
            ),
    {
        self.handle_message(request)
    }

    /// The context the node holds of message `id`, if it holds one. Looking
    /// does not count as a use.
    pub fn context(&self, id: &String) -> (found: Option<&ConsensusContext>)
        ensures
            match found {
                Some(ctx) => value_of(self@.contexts, id@) == Some(ctx@),
                None => value_of(self@.contexts, id@).is_none(),
            },
    {
        proof {
            context_views_position(self.contexts.entries(), id@);
        }
        self.contexts.peek(id)
    }

    /// The number of contexts the node holds.
    pub fn context_count(&self) -> (n: usize)
        ensures
            n == self@.contexts.len(),
    {
        self.contexts.len()
    }

    /// The id of this node.
    pub fn node_id(&self) -> (id: &String)
        ensures
            id@ == self@.node_id,
    {
        &self.node_id
    }

    /// The application the engine calls, in the state the hooks have left it
    /// in: what it recorded of the messages it was asked about can be read
    /// here.
    pub fn callback(&self) -> (app: &C)
        ensures
            *app == self.application(),
    {
        &self.callback
    }

    /// Sets the snapshot of the peer set that waits to be activated. The
    /// contexts in flight and the present voters stay as they are.
    pub fn set_pending_membership(&mut self, membership: Membership)
        requires
            old(self).wf(),
            membership.wf(),
        ensures
            final(self).wf(),
            final(self).policy() == old(self).policy(),
            final(self)@ == old(self)@,
            final(self).membership_view().pending_snapshot() == Some(membership),
            final(self).membership_view().current_number() == old(
                self,
            ).membership_view().current_number(),
            final(self).application() == old(self).application(),
    {
        self.memberships.set_pending(membership);
    }

    /// Makes the waiting snapshot the current one. Instances that start from
    /// now on vote with its voters; the contexts in flight keep the members
    /// they started with. Without a waiting snapshot nothing changes.
    pub fn activate_pending_membership(&mut self) -> (activated: bool)
        requires
            old(self).wf(),
            old(self).membership_view().current_number() < u64::MAX,
        ensures
            final(self).wf(),
            final(self).policy() == old(self).policy(),
            activated == old(self).membership_view().pending_snapshot().is_some(),
            final(self).application() == old(self).application(),
            final(self)@ == (NodeView {
                members: match old(self).membership_view().pending_snapshot() {
                    Some(m) => m.active_with_local(),
                    None => old(self)@.members,
                },
                ..old(self)@
            }),
    {
        self.memberships.activate_pending()
    }
}

/// The two have the same current snapshot under the same number, and the
/// same snapshot waits in both.
pub open spec fn same_snapshots(after: Memberships, before: Memberships) -> bool {
    &&& after.current_number() == before.current_number()
    &&& after.current_snapshot() == before.current_snapshot()
    &&& after.pending_snapshot() == before.pending_snapshot()
}

/// The context of a table entry is sound.
pub open spec fn sound_entry(entry: (Seq<char>, ConsensusContext), node_id: Seq<char>, policy: Policy) -> bool {
    crate::model::sound(entry.1@, node_id, policy)
}

/// What the application answered at one of its first two hooks.
pub open spec fn answer_view(answer: Result<Option<Vec<u8>>, String>) -> Result<Option<Seq<u8>>, Seq<char>> {
    match answer {
        Ok(Some(payload)) => Ok(Some(payload@)),
        Ok(None) => Ok(None),
        Err(cause) => Err(cause@),
    }
}

/// What the application answered at one of its last three hooks.
pub open spec fn notice_view(answer: Result<(), String>) -> Result<(), Seq<char>> {
    match answer {
        Ok(_) => Ok(()),
        Err(cause) => Err(cause@),
    }
}

} // verus!
