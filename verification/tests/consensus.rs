use std::collections::VecDeque;

use ephemera::context::ConsensusContext;
use ephemera::membership::{Membership, Memberships, Peer};
use ephemera::message::{Kind, ProtocolRequest, ProtocolResponse, ReliableBroadcast, ReliableBroadcastMessage};
use ephemera::peer::PeerId;
use ephemera::quorum::BasicQuorum;
use ephemera::quorum_consensus::{
    ack, broadcast_reply, commit_answered, commit_received, commit_reply, committed_answered,
    prepare_answered, prepare_received, prepare_reply, prepared_answered, reply_at, CommitStart,
    CommitStep, PrepareStart, PrepareStep, QuorumConsensusBroadcastProtocol,
    QuorumConsensusCallBack, QuorumProtocolError, Settings,
};

/// An application that records what it is told and refuses on demand.
#[derive(Default)]
struct Recorder {
    pre_prepared: Vec<String>,
    prepares: Vec<(String, String, Vec<String>)>,
    prepared: Vec<String>,
    commits: Vec<(String, String)>,
    committed: Vec<String>,
    refuse_pre_prepare: bool,
    refuse_prepare: bool,
    refuse_prepared: bool,
    refuse_commit: bool,
    refuse_committed: bool,
    replace_with: Option<Vec<u8>>,
}

impl QuorumConsensusCallBack for Recorder {
    fn pre_prepare(
        &mut self,
        msg_id: String,
        _sender: String,
        _payload: Vec<u8>,
        _ctx: &ConsensusContext,
    ) -> Result<Option<Vec<u8>>, String> {
        if self.refuse_pre_prepare {
            return Err("pre_prepare refused".to_string());
        }
        self.pre_prepared.push(msg_id);
        Ok(self.replace_with.clone())
    }

    fn prepare(
        &mut self,
        msg_id: String,
        sender: String,
        _payload: Vec<u8>,
        ctx: &ConsensusContext,
    ) -> Result<Option<Vec<u8>>, String> {
        if self.refuse_prepare {
            return Err("prepare refused".to_string());
        }
        self.prepares.push((msg_id, sender, ctx.prepare.clone()));
        Ok(self.replace_with.clone())
    }

    fn prepared(&mut self, ctx: &ConsensusContext) -> Result<(), String> {
        if self.refuse_prepared {
            return Err("prepared refused".to_string());
        }
        self.prepared.push(ctx.id.clone());
        Ok(())
    }

    fn commit(&mut self, msg_id: String, origin: String, _ctx: &ConsensusContext) -> Result<(), String> {
        if self.refuse_commit {
            return Err("commit refused".to_string());
        }
        self.commits.push((msg_id, origin));
        Ok(())
    }

    fn committed(&mut self, ctx: &ConsensusContext) -> Result<(), String> {
        if self.refuse_committed {
            return Err("committed refused".to_string());
        }
        self.committed.push(ctx.id.clone());
        Ok(())
    }
}

type Engine = QuorumConsensusBroadcastProtocol<BasicQuorum, Recorder>;

fn membership(local: &str, active: &[&str]) -> Membership {
    let peers: Vec<Peer> = active
        .iter()
        .map(|name| Peer { peer_id: PeerId::from_text(name.to_string()), address: format!("/ip4/127.0.0.1/tcp/{}", name) })
        .collect();
    let mut m = Membership::new_with_local(peers, PeerId::from_text(local.to_string()));
    for name in active {
        m.add_active_peer(PeerId::from_text(name.to_string()));
    }
    m
}

fn memberships(local: &str, active: &[&str]) -> Memberships {
    let mut all = Memberships::new();
    all.set_pending(membership(local, active));
    assert!(all.activate_pending());
    all
}

fn engine_with(local: &str, active: &[&str], threshold: usize, recorder: Recorder) -> Engine {
    QuorumConsensusBroadcastProtocol::new(
        memberships(local, active),
        BasicQuorum::new(threshold, active.len()),
        recorder,
        Settings { address: local.to_string() },
    )
}

fn engine(local: &str, active: &[&str], threshold: usize) -> Engine {
    engine_with(local, active, threshold, Recorder::default())
}

fn frame(id: &str, from: &str, inner: ReliableBroadcast) -> ProtocolRequest {
    ProtocolRequest {
        message: ReliableBroadcastMessage {
            id: id.to_string(),
            node_id: from.to_string(),
            timestamp: 0,
            inner: Some(inner),
        },
        source_peer: from.to_string(),
    }
}

fn pre_prepare(id: &str, from: &str, payload: &[u8]) -> ProtocolRequest {
    frame(id, from, ReliableBroadcast::PrePrepare { payload: payload.to_vec() })
}

fn prepare(id: &str, from: &str, payload: &[u8]) -> ProtocolRequest {
    frame(id, from, ReliableBroadcast::Prepare { payload: payload.to_vec() })
}

fn commit(id: &str, from: &str) -> ProtocolRequest {
    frame(id, from, ReliableBroadcast::Commit)
}

fn sorted(mut names: Vec<String>) -> Vec<String> {
    names.sort();
    names
}

fn names(list: &[&str]) -> Vec<String> {
    list.iter().map(|s| s.to_string()).collect()
}

fn is_ack(response: &ProtocolResponse) -> bool {
    response.kind == Kind::REPLY
        && response.peers.is_empty()
        && matches!(response.reply.inner, Some(ReliableBroadcast::Ack))
}

fn is_prepare(response: &ProtocolResponse, payload: &[u8]) -> bool {
    response.kind == Kind::BROADCAST
        && matches!(&response.reply.inner, Some(ReliableBroadcast::Prepare { payload: p }) if p.as_slice() == payload)
}

fn is_commit(response: &ProtocolResponse) -> bool {
    response.kind == Kind::BROADCAST && matches!(response.reply.inner, Some(ReliableBroadcast::Commit))
}

/// What a context says, in a form that can be compared.
fn snapshot(ctx: &ConsensusContext) -> (String, bool, String, Vec<String>, Vec<String>, Vec<String>, bool, bool) {
    (
        ctx.id.clone(),
        ctx.original_sender,
        ctx.local_address.clone(),
        ctx.peers.clone(),
        sorted(ctx.prepare.clone()),
        sorted(ctx.commit.clone()),
        ctx.prepared,
        ctx.committed,
    )
}

/// A cluster whose frames travel in the order in which they were sent. The
/// frames for the nodes in `held` wait until they are released.
struct Cluster {
    names: Vec<String>,
    nodes: Vec<Engine>,
    queue: VecDeque<(String, String, ReliableBroadcastMessage)>,
    held: Vec<String>,
    waiting: VecDeque<(String, String, ReliableBroadcastMessage)>,
    sent: Vec<(String, ReliableBroadcast)>,
    order_of_commit: Vec<String>,
}

impl Cluster {
    fn new(all: &[&str], threshold: usize) -> Cluster {
        Cluster {
            names: names(all),
            nodes: all.iter().map(|n| engine(n, all, threshold)).collect(),
            queue: VecDeque::new(),
            held: Vec::new(),
            waiting: VecDeque::new(),
            sent: Vec::new(),
            order_of_commit: Vec::new(),
        }
    }

    fn index(&self, name: &str) -> usize {
        self.names.iter().position(|n| n == name).unwrap()
    }

    fn node(&self, name: &str) -> &Engine {
        &self.nodes[self.index(name)]
    }

    fn deliver(&mut self, from: &str, to: &str, message: ReliableBroadcastMessage) {
        let i = self.index(to);
        let id = message.id.clone();
        let request = ProtocolRequest { message, source_peer: from.to_string() };
        let was = self.nodes[i].context(&id).map(|c| c.committed).unwrap_or(false);
        let result = self.nodes[i].handle(request);
        let now = self.nodes[i].context(&id).map(|c| c.committed).unwrap_or(false);
        if now && !was {
            self.order_of_commit.push(to.to_string());
        }
        if let Ok(response) = result {
            self.route(to, from, response);
        }
    }

    fn route(&mut self, node: &str, source: &str, response: ProtocolResponse) {
        match response.kind {
            Kind::BROADCAST => {
                self.sent.push((node.to_string(), response.reply.inner.clone().unwrap()));
                for peer in response.peers.iter() {
                    if peer != node {
                        self.queue.push_back((node.to_string(), peer.clone(), response.reply.clone()));
                    }
                }
            }
            Kind::REPLY => {
                self.queue.push_back((node.to_string(), source.to_string(), response.reply.clone()));
            }
            Kind::DROP => {}
        }
    }

    fn propose(&mut self, node: &str, id: &str, payload: &[u8]) {
        let i = self.index(node);
        let response = self.nodes[i].handle(pre_prepare(id, node, payload)).unwrap();
        self.route(node, node, response);
    }

    fn run(&mut self) {
        while let Some((from, to, message)) = self.queue.pop_front() {
            if self.held.contains(&to) {
                self.waiting.push_back((from, to, message));
            } else {
                self.deliver(&from, &to, message);
            }
        }
    }

    fn release(&mut self) {
        self.held.clear();
        while let Some(item) = self.waiting.pop_front() {
            self.queue.push_back(item);
        }
        self.run();
    }

    fn count_sent(&self, node: &str, prepare: bool) -> usize {
        self.sent
            .iter()
            .filter(|(n, inner)| {
                n == node
                    && match inner {
                        ReliableBroadcast::Prepare { .. } => prepare,
                        ReliableBroadcast::Commit => !prepare,
                        _ => false,
                    }
            })
            .count()
    }
}

const ALL: [&str; 4] = ["A", "B", "C", "D"];

#[test]
fn happy_path_all_nodes_commit_once() {
    let mut cluster = Cluster::new(&ALL, 3);
    cluster.propose("A", "m1", b"x");
    cluster.run();
    for name in ALL {
        let node = cluster.node(name);
        let ctx = node.context(&"m1".to_string()).unwrap();
        assert!(ctx.prepared, "{} prepared", name);
        assert!(ctx.committed, "{} committed", name);
        assert_eq!(node.callback().committed, names(&["m1"]), "{} delivered once", name);
        assert_eq!(node.callback().prepared, names(&["m1"]));
        assert!(ctx.prepare.len() >= 3 && ctx.commit.len() >= 3);
        assert!(ctx.prepare.iter().all(|v| ALL.contains(&v.as_str())));
        assert!(ctx.commit.iter().all(|v| ALL.contains(&v.as_str())));
        assert!(ctx.prepare.contains(&name.to_string()));
        assert!(ctx.commit.contains(&name.to_string()));
        assert_eq!(ctx.peers, names(&ALL));
        assert_eq!(ctx.original_sender, name == "A");
    }
}

#[test]
fn happy_path_sends_one_prepare_and_one_commit_per_node() {
    let mut cluster = Cluster::new(&ALL, 3);
    cluster.propose("A", "m1", b"x");
    cluster.run();
    for name in ALL {
        assert_eq!(cluster.count_sent(name, true), 1, "{} PREPARE", name);
        assert_eq!(cluster.count_sent(name, false), 1, "{} COMMIT", name);
    }
}

#[test]
fn happy_path_forwards_the_payload_of_the_proposer() {
    let mut cluster = Cluster::new(&ALL, 3);
    cluster.propose("A", "m1", b"x");
    cluster.run();
    for (_, inner) in cluster.sent.iter() {
        if let ReliableBroadcast::Prepare { payload } = inner {
            assert_eq!(payload.as_slice(), b"x");
        }
    }
}

#[test]
fn straggler_catches_up_after_the_others() {
    let mut cluster = Cluster::new(&ALL, 3);
    cluster.held.push("D".to_string());
    cluster.propose("A", "m2", b"y");
    cluster.run();
    for name in ["A", "B", "C"] {
        let ctx = cluster.node(name).context(&"m2".to_string()).unwrap();
        assert!(ctx.committed, "{} committed without D", name);
        assert_eq!(sorted(ctx.prepare.clone()), names(&["A", "B", "C"]));
        assert_eq!(sorted(ctx.commit.clone()), names(&["A", "B", "C"]));
    }
    assert!(cluster.node("D").context(&"m2".to_string()).is_none());
    cluster.release();
    let ctx = cluster.node("D").context(&"m2".to_string()).unwrap();
    assert!(ctx.prepared && ctx.committed);
    assert_eq!(cluster.node("D").callback().committed, names(&["m2"]));
    assert_eq!(cluster.order_of_commit.last().unwrap(), "D");
    assert_eq!(cluster.order_of_commit.len(), 4);
    for name in ALL {
        assert_eq!(cluster.node(name).callback().committed.len(), 1);
    }
}

#[test]
fn commit_before_prepare_is_unknown_broadcast() {
    let mut e = engine("E", &["A", "B", "E"], 2);
    let result = e.handle(commit("m3", "A"));
    assert_eq!(result.unwrap_err(), QuorumProtocolError::UnknownBroadcast("m3".to_string()));
    assert!(e.context(&"m3".to_string()).is_none());
    assert_eq!(e.context_count(), 0);
    assert!(e.callback().commits.is_empty());
}

#[test]
fn duplicate_prepare_is_counted_once() {
    let mut c = engine("C", &ALL, 3);
    let first = c.handle(prepare("m4", "B", b"p")).unwrap();
    assert!(is_prepare(&first, b"p"));
    assert_eq!(first.peers, names(&ALL));
    let second = c.handle(prepare("m4", "B", b"p")).unwrap();
    assert!(is_ack(&second));
    let ctx = c.context(&"m4".to_string()).unwrap();
    assert_eq!(ctx.prepare.iter().filter(|v| v.as_str() == "B").count(), 1);
    assert_eq!(sorted(ctx.prepare.clone()), names(&["B", "C"]));
    assert!(!ctx.prepared);
}

#[test]
fn application_rejects_prepare() {
    let mut c = engine("C", &ALL, 3);
    c.handle(prepare("m5", "A", b"p")).unwrap();
    let before = snapshot(c.context(&"m5".to_string()).unwrap());
    assert_eq!(before.4, names(&["A", "C"]));

    let mut refusing = engine_with("C", &ALL, 3, Recorder { refuse_prepare: true, ..Recorder::default() });
    let result = refusing.handle(prepare("m5", "B", b"p"));
    assert_eq!(result.unwrap_err(), QuorumProtocolError::CallbackError("prepare refused".to_string()));
    let ctx = refusing.context(&"m5".to_string()).unwrap();
    assert!(ctx.prepare.is_empty());
    assert!(!ctx.prepared);
}

#[test]
fn application_rejects_then_later_prepares_are_processed() {
    struct Once {
        refused: bool,
    }
    impl QuorumConsensusCallBack for Once {
        fn pre_prepare(&mut self, _: String, _: String, _: Vec<u8>, _: &ConsensusContext) -> Result<Option<Vec<u8>>, String> {
            Ok(None)
        }
        fn prepare(&mut self, _: String, sender: String, _: Vec<u8>, _: &ConsensusContext) -> Result<Option<Vec<u8>>, String> {
            if sender == "B" && !self.refused {
                self.refused = true;
                Err("not now".to_string())
            } else {
                Ok(None)
            }
        }
        fn prepared(&mut self, _: &ConsensusContext) -> Result<(), String> {
            Ok(())
        }
        fn commit(&mut self, _: String, _: String, _: &ConsensusContext) -> Result<(), String> {
            Ok(())
        }
        fn committed(&mut self, _: &ConsensusContext) -> Result<(), String> {
            Ok(())
        }
    }
    let mut c = QuorumConsensusBroadcastProtocol::new(
        memberships("C", &ALL),
        BasicQuorum::new(3, 4),
        Once { refused: false },
        Settings { address: "C".to_string() },
    );
    assert!(is_prepare(&c.handle(prepare("m5", "A", b"p")).unwrap(), b"p"));
    let votes = sorted(c.context(&"m5".to_string()).unwrap().prepare.clone());
    assert_eq!(votes, names(&["A", "C"]));

    let refused = c.handle(prepare("m5", "B", b"p"));
    assert_eq!(refused.unwrap_err(), QuorumProtocolError::CallbackError("not now".to_string()));
    let after = sorted(c.context(&"m5".to_string()).unwrap().prepare.clone());
    assert_eq!(after, votes);
    assert!(!c.context(&"m5".to_string()).unwrap().prepared);

    assert!(is_ack(&c.handle(prepare("m5", "D", b"p")).unwrap()));
    let ctx = c.context(&"m5".to_string()).unwrap();
    assert_eq!(sorted(ctx.prepare.clone()), names(&["A", "C", "D"]));
    assert!(ctx.prepared);
}

#[test]
fn membership_change_does_not_touch_contexts_in_flight() {
    let mut a = engine("A", &ALL, 3);
    a.handle(pre_prepare("m6", "A", b"z")).unwrap();
    a.handle(prepare("m6", "B", b"z")).unwrap();
    let reached = a.handle(prepare("m6", "C", b"z")).unwrap();
    assert!(is_commit(&reached));
    assert!(a.context(&"m6".to_string()).unwrap().prepared);
    let before = snapshot(a.context(&"m6".to_string()).unwrap());

    a.set_pending_membership(membership("A", &["A", "B", "C"]));
    assert_eq!(snapshot(a.context(&"m6".to_string()).unwrap()), before);
    assert_eq!(a.members(), names(&ALL));
    assert!(a.activate_pending_membership());
    assert_eq!(snapshot(a.context(&"m6".to_string()).unwrap()), before);
    assert_eq!(a.members(), names(&["A", "B", "C"]));

    assert!(is_ack(&a.handle(commit("m6", "D")).unwrap()));
    let ctx = a.context(&"m6".to_string()).unwrap();
    assert_eq!(ctx.peers, names(&ALL));
    assert_eq!(sorted(ctx.commit.clone()), names(&["A", "D"]));
    assert!(!ctx.committed);
    assert!(is_ack(&a.handle(commit("m6", "B")).unwrap()));
    let ctx = a.context(&"m6".to_string()).unwrap();
    assert_eq!(sorted(ctx.commit.clone()), names(&["A", "B", "D"]));
    assert!(ctx.committed);

    let started = a.handle(pre_prepare("m7", "A", b"z")).unwrap();
    assert_eq!(started.peers, names(&["A", "B", "C"]));
    assert_eq!(a.context(&"m7".to_string()).unwrap().peers, names(&["A", "B", "C"]));
    assert!(is_ack(&a.handle(prepare("m7", "D", b"z")).unwrap()));
    assert_eq!(a.context(&"m7".to_string()).unwrap().prepare, names(&["A"]));
}

#[test]
fn activate_without_pending_membership_changes_nothing() {
    let mut a = engine("A", &ALL, 3);
    assert!(!a.activate_pending_membership());
    assert_eq!(a.members(), names(&ALL));
}

#[test]
fn pre_prepare_starts_context_and_broadcasts_prepare() {
    let mut a = engine("A", &ALL, 3);
    let response = a.handle(pre_prepare("m1", "client", b"x")).unwrap();
    assert_eq!(response.kind, Kind::BROADCAST);
    assert_eq!(response.peers, names(&ALL));
    assert_eq!(response.reply.id, "m1");
    assert_eq!(response.reply.node_id, "A");
    assert!(is_prepare(&response, b"x"));
    let ctx = a.context(&"m1".to_string()).unwrap();
    assert!(ctx.original_sender);
    assert_eq!(ctx.local_address, "A");
    assert_eq!(ctx.prepare, names(&["A"]));
    assert!(ctx.commit.is_empty());
    assert!(!ctx.prepared && !ctx.committed);
    assert_eq!(a.callback().pre_prepared, names(&["m1"]));
}

#[test]
fn pre_prepare_payload_can_be_replaced_by_application() {
    let mut a = engine_with("A", &ALL, 3, Recorder { replace_with: Some(b"other".to_vec()), ..Recorder::default() });
    let response = a.handle(pre_prepare("m1", "A", b"x")).unwrap();
    assert!(is_prepare(&response, b"other"));
    let mut b = engine_with("B", &ALL, 3, Recorder { replace_with: Some(b"third".to_vec()), ..Recorder::default() });
    let response = b.handle(prepare("m1", "A", b"other")).unwrap();
    assert!(is_prepare(&response, b"third"));
}

#[test]
fn pre_prepare_refused_keeps_nothing() {
    let mut a = engine_with("A", &ALL, 3, Recorder { refuse_pre_prepare: true, ..Recorder::default() });
    let result = a.handle(pre_prepare("m1", "A", b"x"));
    assert_eq!(result.unwrap_err(), QuorumProtocolError::CallbackError("pre_prepare refused".to_string()));
    assert_eq!(a.context_count(), 0);
}

#[test]
fn prepare_hook_sees_the_sender_but_not_the_local_vote() {
    let mut c = engine("C", &ALL, 3);
    c.handle(prepare("m1", "B", b"p")).unwrap();
    let seen = &c.callback().prepares[0];
    assert_eq!(seen.0, "m1");
    assert_eq!(seen.1, "B");
    assert_eq!(seen.2, names(&["B"]));
}

#[test]
fn quorum_exactly_met_prepares_and_one_less_does_not() {
    let mut c = engine("C", &ALL, 3);
    c.handle(prepare("m", "A", b"p")).unwrap();
    let ctx = c.context(&"m".to_string()).unwrap();
    assert_eq!(ctx.prepare.len(), 2);
    assert!(!ctx.prepared);
    assert!(c.callback().prepared.is_empty());
    assert!(is_ack(&c.handle(prepare("m", "B", b"p")).unwrap()));
    let ctx = c.context(&"m".to_string()).unwrap();
    assert_eq!(ctx.prepare.len(), 3);
    assert!(ctx.prepared);
    assert_eq!(c.callback().prepared, names(&["m"]));
}

#[test]
fn commit_quorum_exactly_met_commits_and_one_less_does_not() {
    let mut c = engine("C", &ALL, 3);
    c.handle(prepare("m", "A", b"p")).unwrap();
    c.handle(prepare("m", "B", b"p")).unwrap();
    assert!(is_commit(&c.handle(commit("m", "A")).unwrap()));
    let ctx = c.context(&"m".to_string()).unwrap();
    assert_eq!(sorted(ctx.commit.clone()), names(&["A", "C"]));
    assert!(!ctx.committed);
    assert!(is_ack(&c.handle(commit("m", "A")).unwrap()));
    assert!(!c.context(&"m".to_string()).unwrap().committed);
    assert!(is_ack(&c.handle(commit("m", "B")).unwrap()));
    let ctx = c.context(&"m".to_string()).unwrap();
    assert_eq!(ctx.commit.len(), 3);
    assert!(ctx.committed);
    assert_eq!(c.callback().committed, names(&["m"]));
}

#[test]
fn commit_is_not_reached_before_prepared() {
    let mut c = engine("C", &ALL, 3);
    c.handle(prepare("m", "A", b"p")).unwrap();
    assert!(is_commit(&c.handle(commit("m", "A")).unwrap()));
    assert!(is_ack(&c.handle(commit("m", "B")).unwrap()));
    assert!(is_ack(&c.handle(commit("m", "D")).unwrap()));
    let ctx = c.context(&"m".to_string()).unwrap();
    assert_eq!(ctx.commit.len(), 4);
    assert!(!ctx.prepared);
    assert!(!ctx.committed);
    assert!(c.callback().committed.is_empty());
}

#[test]
fn prepare_from_non_member_is_not_counted() {
    let mut c = engine("C", &ALL, 3);
    let response = c.handle(prepare("m", "X", b"p")).unwrap();
    assert!(is_prepare(&response, b"p"));
    assert_eq!(c.context(&"m".to_string()).unwrap().prepare, names(&["C"]));
    assert!(is_ack(&c.handle(prepare("m", "Y", b"p")).unwrap()));
    assert!(is_ack(&c.handle(prepare("m", "Z", b"p")).unwrap()));
    let ctx = c.context(&"m".to_string()).unwrap();
    assert_eq!(ctx.prepare, names(&["C"]));
    assert!(!ctx.prepared);
}

#[test]
fn commit_from_non_member_is_not_counted() {
    let mut c = engine("C", &ALL, 3);
    c.handle(prepare("m", "A", b"p")).unwrap();
    assert!(is_commit(&c.handle(commit("m", "X")).unwrap()));
    assert_eq!(c.context(&"m".to_string()).unwrap().commit, names(&["C"]));
}

#[test]
fn ack_never_alters_state() {
    let mut c = engine("C", &ALL, 3);
    c.handle(prepare("m", "A", b"p")).unwrap();
    let before = snapshot(c.context(&"m".to_string()).unwrap());
    let response = c.handle(frame("m", "A", ReliableBroadcast::Ack)).unwrap();
    assert_eq!(response.kind, Kind::DROP);
    assert!(response.peers.is_empty());
    assert_eq!(response.reply.id, "m");
    assert_eq!(response.reply.node_id, "C");
    assert_eq!(snapshot(c.context(&"m".to_string()).unwrap()), before);
    assert_eq!(c.context_count(), 1);
    c.handle(frame("unseen", "A", ReliableBroadcast::Ack)).unwrap();
    assert_eq!(c.context_count(), 1);
    assert!(c.context(&"unseen".to_string()).is_none());
}

#[test]
fn frame_without_inner_is_unknown_broadcast() {
    let mut c = engine("C", &ALL, 3);
    let request = ProtocolRequest {
        message: ReliableBroadcastMessage { id: "m".to_string(), node_id: "A".to_string(), timestamp: 0, inner: None },
        source_peer: "A".to_string(),
    };
    let error = c.handle_message(request).unwrap_err();
    assert_eq!(error, QuorumProtocolError::UnknownBroadcast("Unknown broadcast".to_string()));
    assert_eq!(error.message(), "Unknown broadcast");
    assert_eq!(c.context_count(), 0);
}

#[test]
fn error_messages() {
    assert_eq!(QuorumProtocolError::UnknownBroadcast("m9".to_string()).message(), "Unknown broadcast");
    assert_eq!(QuorumProtocolError::CallbackError("cause".to_string()).message(), "cause");
}

#[test]
fn replay_of_a_frame_leaves_the_state_as_the_first_time() {
    let mut c = engine("C", &ALL, 3);
    c.handle(prepare("m", "A", b"p")).unwrap();
    c.handle(prepare("m", "B", b"p")).unwrap();
    let once = snapshot(c.context(&"m".to_string()).unwrap());
    c.handle(prepare("m", "B", b"p")).unwrap();
    assert_eq!(snapshot(c.context(&"m".to_string()).unwrap()), once);

    let mut a = engine("A", &ALL, 3);
    a.handle(pre_prepare("m", "A", b"p")).unwrap();
    let once = snapshot(a.context(&"m".to_string()).unwrap());
    a.handle(pre_prepare("m", "A", b"p")).unwrap();
    assert_eq!(snapshot(a.context(&"m".to_string()).unwrap()), once);
    assert_eq!(a.context_count(), 1);
}

#[test]
fn replay_of_the_frame_that_made_the_node_vote_can_complete_the_phase() {
    let mut c = engine("C", &["B", "C"], 2);
    assert!(is_prepare(&c.handle(prepare("m", "B", b"p")).unwrap(), b"p"));
    assert!(!c.context(&"m".to_string()).unwrap().prepared);
    assert!(is_ack(&c.handle(prepare("m", "B", b"p")).unwrap()));
    assert!(c.context(&"m".to_string()).unwrap().prepared);
}

#[test]
fn proposer_that_committed_early_sends_commit_again_when_prepared() {
    let mut a = engine("A", &ALL, 3);
    a.handle(pre_prepare("m", "A", b"p")).unwrap();
    assert!(is_commit(&a.handle(commit("m", "B")).unwrap()));
    a.handle(prepare("m", "B", b"p")).unwrap();
    assert!(is_commit(&a.handle(prepare("m", "C", b"p")).unwrap()));
    assert_eq!(sorted(a.context(&"m".to_string()).unwrap().commit.clone()), names(&["A", "B"]));
}

#[test]
fn prepared_hook_failure_aborts_the_commit_phase() {
    let mut a = engine_with("A", &ALL, 3, Recorder { refuse_prepared: true, ..Recorder::default() });
    a.handle(pre_prepare("m", "A", b"p")).unwrap();
    a.handle(prepare("m", "B", b"p")).unwrap();
    let result = a.handle(prepare("m", "C", b"p"));
    assert_eq!(result.unwrap_err(), QuorumProtocolError::CallbackError("prepared refused".to_string()));
    let ctx = a.context(&"m".to_string()).unwrap();
    assert!(ctx.prepared);
    assert!(ctx.commit.is_empty());
}

#[test]
fn commit_hook_failure_keeps_the_vote_and_does_not_commit() {
    let mut c = engine_with("C", &ALL, 3, Recorder { refuse_commit: true, ..Recorder::default() });
    c.handle(prepare("m", "A", b"p")).unwrap();
    c.handle(prepare("m", "B", b"p")).unwrap();
    assert!(is_commit(&c.handle(commit("m", "A")).unwrap()));
    let result = c.handle(commit("m", "B"));
    assert_eq!(result.unwrap_err(), QuorumProtocolError::CallbackError("commit refused".to_string()));
    let ctx = c.context(&"m".to_string()).unwrap();
    assert_eq!(sorted(ctx.commit.clone()), names(&["A", "B", "C"]));
    assert!(!ctx.committed);
}

#[test]
fn committed_hook_failure_leaves_the_context_committed() {
    let mut c = engine_with("C", &ALL, 3, Recorder { refuse_committed: true, ..Recorder::default() });
    c.handle(prepare("m", "A", b"p")).unwrap();
    c.handle(prepare("m", "B", b"p")).unwrap();
    c.handle(commit("m", "A")).unwrap();
    let result = c.handle(commit("m", "B"));
    assert_eq!(result.unwrap_err(), QuorumProtocolError::CallbackError("committed refused".to_string()));
    assert!(c.context(&"m".to_string()).unwrap().committed);
    assert!(is_ack(&c.handle(commit("m", "D")).unwrap()));
}

#[test]
fn frames_after_commit_are_acknowledged_and_change_nothing() {
    let mut c = engine("C", &ALL, 3);
    c.handle(prepare("m", "A", b"p")).unwrap();
    c.handle(prepare("m", "B", b"p")).unwrap();
    c.handle(commit("m", "A")).unwrap();
    c.handle(commit("m", "B")).unwrap();
    let done = snapshot(c.context(&"m".to_string()).unwrap());
    assert!(done.7);
    assert!(is_ack(&c.handle(commit("m", "D")).unwrap()));
    assert!(is_ack(&c.handle(prepare("m", "D", b"p")).unwrap()));
    assert_eq!(snapshot(c.context(&"m".to_string()).unwrap()), done);
    assert_eq!(c.callback().committed, names(&["m"]));
}

#[test]
fn eviction_at_capacity_drops_the_least_recently_used_context() {
    let mut c = engine("C", &ALL, 3);
    for i in 0..1000 {
        c.handle(prepare(&format!("m{}", i), "A", b"p")).unwrap();
    }
    assert_eq!(c.context_count(), 1000);
    assert!(c.context(&"m0".to_string()).is_some());
    c.handle(prepare("m1000", "A", b"p")).unwrap();
    assert_eq!(c.context_count(), 1000);
    assert!(c.context(&"m0".to_string()).is_none());
    assert!(c.context(&"m1".to_string()).is_some());
    assert!(c.context(&"m1000".to_string()).is_some());
    let result = c.handle(commit("m0", "A"));
    assert_eq!(result.unwrap_err(), QuorumProtocolError::UnknownBroadcast("m0".to_string()));
    assert!(c.handle(commit("m1", "A")).is_ok());
}

#[test]
fn every_lookup_counts_as_a_use() {
    let mut c = QuorumConsensusBroadcastProtocol::with_capacity(
        memberships("C", &ALL),
        BasicQuorum::new(3, 4),
        Recorder::default(),
        Settings { address: "C".to_string() },
        2,
    );
    c.handle(prepare("m0", "A", b"p")).unwrap();
    c.handle(prepare("m1", "A", b"p")).unwrap();
    c.handle(commit("m0", "A")).unwrap();
    c.handle(prepare("m2", "A", b"p")).unwrap();
    assert!(c.context(&"m0".to_string()).is_some());
    assert!(c.context(&"m1".to_string()).is_none());
    assert!(c.context(&"m2".to_string()).is_some());
    assert_eq!(c.context_count(), 2);
}

#[test]
fn peeking_at_a_context_does_not_count_as_a_use() {
    let mut c = QuorumConsensusBroadcastProtocol::with_capacity(
        memberships("C", &ALL),
        BasicQuorum::new(3, 4),
        Recorder::default(),
        Settings { address: "C".to_string() },
        2,
    );
    c.handle(prepare("m0", "A", b"p")).unwrap();
    c.handle(prepare("m1", "A", b"p")).unwrap();
    assert!(c.context(&"m0".to_string()).is_some());
    c.handle(prepare("m2", "A", b"p")).unwrap();
    assert!(c.context(&"m0".to_string()).is_none());
}

#[test]
fn evicted_message_can_be_prepared_anew_and_sends_prepare_again() {
    let mut c = QuorumConsensusBroadcastProtocol::with_capacity(
        memberships("C", &ALL),
        BasicQuorum::new(3, 4),
        Recorder::default(),
        Settings { address: "C".to_string() },
        1,
    );
    assert!(is_prepare(&c.handle(prepare("m0", "A", b"p")).unwrap(), b"p"));
    assert!(is_prepare(&c.handle(prepare("m1", "A", b"p")).unwrap(), b"p"));
    assert!(is_prepare(&c.handle(prepare("m0", "A", b"p")).unwrap(), b"p"));
}

#[test]
fn reply_builders() {
    let r = ack("m".to_string(), "n".to_string()).unwrap();
    assert!(is_ack(&r));
    assert_eq!(r.reply.id, "m");
    assert_eq!(r.reply.node_id, "n");
    let r = prepare_reply("m".to_string(), "n".to_string(), vec![1, 2], names(&["a", "b"])).unwrap();
    assert!(is_prepare(&r, &[1, 2]));
    assert_eq!(r.peers, names(&["a", "b"]));
    let r = commit_reply("m".to_string(), "n".to_string(), names(&["a"])).unwrap();
    assert!(is_commit(&r));
    assert_eq!(r.peers, names(&["a"]));
    let r = broadcast_reply("m".to_string(), "n".to_string(), names(&["a"]), ReliableBroadcast::Ack).unwrap();
    assert_eq!(r.kind, Kind::BROADCAST);
    assert!(r.reply.timestamp > 1_600_000_000_000);
}

#[test]
fn context_votes_are_sets() {
    let mut ctx = ConsensusContext::new("m".to_string(), false, "n".to_string(), names(&["a", "b"]));
    ctx.add_prepare("a".to_string());
    ctx.add_prepare("a".to_string());
    ctx.add_commit("b".to_string());
    ctx.add_commit("b".to_string());
    assert_eq!(ctx.prepare, names(&["a"]));
    assert_eq!(ctx.commit, names(&["b"]));
    assert_eq!(ctx.prepare_count(), 1);
    assert_eq!(ctx.commit_count(), 1);
    assert!(ctx.is_member(&"a".to_string()));
    assert!(!ctx.is_member(&"n".to_string()));
    assert!(ctx.has_prepare(&"a".to_string()) && !ctx.has_prepare(&"b".to_string()));
    assert!(ctx.has_commit(&"b".to_string()) && !ctx.has_commit(&"a".to_string()));
}

fn fresh(original_sender: bool) -> ConsensusContext {
    ConsensusContext::new("m".to_string(), original_sender, "C".to_string(), names(&ALL))
}

fn shown_to_prepare(ctx: ConsensusContext, sender: &str) -> (ConsensusContext, bool) {
    match prepare_received(ctx, &sender.to_string()) {
        PrepareStart::Ask(shown, added) => (shown, added),
        PrepareStart::Done(..) => panic!("the message is not prepared"),
    }
}

#[test]
fn reply_carries_the_given_time_stamp() {
    let r = reply_at(Kind::REPLY, "m".to_string(), "n".to_string(), names(&["a"]), ReliableBroadcast::Commit, 1234).unwrap();
    assert_eq!(r.reply.timestamp, 1234);
    assert_eq!(r.kind, Kind::REPLY);
    assert_eq!(r.peers, names(&["a"]));
    assert_eq!(r.reply.id, "m");
    assert_eq!(r.reply.node_id, "n");
    assert!(matches!(r.reply.inner, Some(ReliableBroadcast::Commit)));
}

#[test]
fn prepare_received_counts_the_vote_of_a_member() {
    let (shown, added) = shown_to_prepare(fresh(false), "B");
    assert!(added);
    assert_eq!(shown.prepare, names(&["B"]));
    let (again, added) = shown_to_prepare(shown, "B");
    assert!(!added);
    assert_eq!(again.prepare, names(&["B"]));
    let (other, added) = shown_to_prepare(again, "X");
    assert!(!added);
    assert_eq!(other.prepare, names(&["B"]));
}

#[test]
fn prepare_received_acknowledges_a_prepared_message() {
    let mut ctx = fresh(false);
    ctx.prepared = true;
    match prepare_received(ctx, &"B".to_string()) {
        PrepareStart::Done(same, r) => {
            assert!(same.prepare.is_empty());
            assert!(is_ack(&r.unwrap()));
        }
        PrepareStart::Ask(..) => panic!("a prepared message asks nothing"),
    }
}

#[test]
fn prepare_answered_takes_the_vote_back_on_a_refusal() {
    let q = BasicQuorum::new(3, 4);
    let (shown, added) = shown_to_prepare(fresh(false), "B");
    match prepare_answered(&q, shown, added, vec![1], Err("no".to_string())) {
        PrepareStep::Done(ctx, r) => {
            assert!(ctx.prepare.is_empty());
            assert_eq!(r.unwrap_err(), QuorumProtocolError::CallbackError("no".to_string()));
        }
        PrepareStep::AskPrepared(_) => panic!("a refusal completes nothing"),
    }
    let (first, _) = shown_to_prepare(fresh(false), "B");
    let (shown, added) = shown_to_prepare(first, "B");
    match prepare_answered(&q, shown, added, vec![1], Err("no".to_string())) {
        PrepareStep::Done(ctx, _) => assert_eq!(ctx.prepare, names(&["B"])),
        PrepareStep::AskPrepared(_) => panic!("a refusal completes nothing"),
    }
}

#[test]
fn prepare_answered_votes_then_waits_then_completes() {
    let q = BasicQuorum::new(3, 4);
    let (shown, added) = shown_to_prepare(fresh(true), "A");
    let voted = match prepare_answered(&q, shown, added, vec![1], Ok(Some(vec![2]))) {
        PrepareStep::Done(ctx, r) => {
            assert!(is_prepare(&r.unwrap(), &[2]));
            assert_eq!(ctx.prepare, names(&["A", "C"]));
            ctx
        }
        PrepareStep::AskPrepared(_) => panic!("the node votes first"),
    };
    let (shown, added) = shown_to_prepare(voted, "A");
    let waiting = match prepare_answered(&q, shown, added, vec![1], Ok(None)) {
        PrepareStep::Done(ctx, r) => {
            assert!(is_ack(&r.unwrap()));
            assert!(!ctx.prepared);
            ctx
        }
        PrepareStep::AskPrepared(_) => panic!("two votes are no quorum"),
    };
    let (shown, added) = shown_to_prepare(waiting, "B");
    let done = match prepare_answered(&q, shown, added, vec![1], Ok(None)) {
        PrepareStep::AskPrepared(ctx) => ctx,
        PrepareStep::Done(..) => panic!("three votes are a quorum"),
    };
    assert!(done.prepared);
    assert_eq!(done.prepare, names(&["A", "C", "B"]));
    let (ctx, r) = prepared_answered(done, Ok(()));
    assert!(is_commit(&r.unwrap()));
    assert_eq!(ctx.commit, names(&["C"]));
}

#[test]
fn prepared_answered_depends_on_who_proposed() {
    let mut follower = fresh(false);
    follower.prepared = true;
    let (ctx, r) = prepared_answered(follower, Ok(()));
    assert!(is_ack(&r.unwrap()));
    assert!(ctx.commit.is_empty());
    let mut proposer = fresh(true);
    proposer.prepared = true;
    let (ctx, r) = prepared_answered(proposer, Err("stop".to_string()));
    assert_eq!(r.unwrap_err(), QuorumProtocolError::CallbackError("stop".to_string()));
    assert!(ctx.prepared && ctx.commit.is_empty());
}

#[test]
fn commit_received_votes_before_it_asks() {
    let first = match commit_received(fresh(false), &"A".to_string()) {
        CommitStart::Done(ctx, r) => {
            assert!(is_commit(&r.unwrap()));
            assert_eq!(ctx.commit, names(&["A", "C"]));
            ctx
        }
        CommitStart::Ask(_) => panic!("the node votes first"),
    };
    let shown = match commit_received(first, &"B".to_string()) {
        CommitStart::Ask(ctx) => ctx,
        CommitStart::Done(..) => panic!("the node has voted"),
    };
    assert_eq!(shown.commit, names(&["A", "C", "B"]));
    let mut committed = shown;
    committed.prepared = true;
    committed.committed = true;
    match commit_received(committed, &"D".to_string()) {
        CommitStart::Done(ctx, r) => {
            assert!(is_ack(&r.unwrap()));
            assert_eq!(ctx.commit.len(), 3);
        }
        CommitStart::Ask(_) => panic!("a committed message asks nothing"),
    }
}

#[test]
fn commit_answered_commits_a_prepared_message_at_quorum() {
    let q = BasicQuorum::new(3, 4);
    let mut ctx = fresh(false);
    for voter in ["A", "B", "C"] {
        ctx.add_commit(voter.to_string());
    }
    match commit_answered(&q, ctx.clone(), Ok(())) {
        CommitStep::Done(same, r) => {
            assert!(is_ack(&r.unwrap()));
            assert!(!same.committed);
        }
        CommitStep::AskCommitted(_) => panic!("the message is not prepared"),
    }
    ctx.prepared = true;
    match commit_answered(&q, ctx.clone(), Err("no".to_string())) {
        CommitStep::Done(same, r) => {
            assert_eq!(r.unwrap_err(), QuorumProtocolError::CallbackError("no".to_string()));
            assert!(!same.committed);
            assert_eq!(same.commit.len(), 3);
        }
        CommitStep::AskCommitted(_) => panic!("a refusal completes nothing"),
    }
    let done = match commit_answered(&q, ctx.clone(), Ok(())) {
        CommitStep::AskCommitted(done) => done,
        CommitStep::Done(..) => panic!("three votes are a quorum"),
    };
    assert!(done.committed);
    let (kept, r) = committed_answered(done, Err("late".to_string()));
    assert_eq!(r.unwrap_err(), QuorumProtocolError::CallbackError("late".to_string()));
    assert!(kept.committed);
    ctx.commit.pop();
    match commit_answered(&BasicQuorum::new(3, 4), ctx, Ok(())) {
        CommitStep::Done(same, _) => assert!(!same.committed),
        CommitStep::AskCommitted(_) => panic!("two votes are no quorum"),
    }
}

#[test]
fn pre_prepare_answered_keeps_the_context_unless_refused() {
    let mut a = engine("A", &ALL, 3);
    let members = a.members();
    let mut ctx = ConsensusContext::new("m".to_string(), true, "A".to_string(), members.clone());
    ctx.add_prepare("A".to_string());
    let r = a.pre_prepare_answered(ctx.clone(), "A".to_string(), vec![1], Err("no".to_string()));
    assert_eq!(r.unwrap_err(), QuorumProtocolError::CallbackError("no".to_string()));
    assert_eq!(a.context_count(), 0);
    let r = a.pre_prepare_answered(ctx.clone(), "A".to_string(), vec![1], Ok(Some(vec![9]))).unwrap();
    assert!(is_prepare(&r, &[9]));
    assert_eq!(r.peers, members);
    assert_eq!(a.context(&"m".to_string()).unwrap().prepare, names(&["A"]));
    let r = a.pre_prepare_answered(ctx, "A".to_string(), vec![1], Ok(None)).unwrap();
    assert!(is_prepare(&r, &[1]));
    assert_eq!(a.context_count(), 1);
    assert!(a.callback().pre_prepared.is_empty());
}
