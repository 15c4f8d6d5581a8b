//! The frames of the reliable-broadcast protocol, and what the engine takes
//! and hands back.

use crate::text::texts;
use vstd::prelude::*;

verus! {

/// What a frame asks for. Only the first two carry a payload; the engine
/// never looks into it.
#[derive(Debug, Clone)]
pub enum ReliableBroadcast {
    PrePrepare { payload: Vec<u8> },
    Prepare { payload: Vec<u8> },
    Commit,
    Ack,
}

pub enum ReliableBroadcastView {
    PrePrepare { payload: Seq<u8> },
    Prepare { payload: Seq<u8> },
    Commit,
    Ack,
}

impl View for ReliableBroadcast {
    type V = ReliableBroadcastView;

    open spec fn view(&self) -> ReliableBroadcastView {
        match self {
            ReliableBroadcast::PrePrepare { payload } => ReliableBroadcastView::PrePrepare {
                payload: payload@,
            },
            ReliableBroadcast::Prepare { payload } => ReliableBroadcastView::Prepare {
                payload: payload@,
            },
            ReliableBroadcast::Commit => ReliableBroadcastView::Commit,
            ReliableBroadcast::Ack => ReliableBroadcastView::Ack,
        }
    }
}

/// One protocol frame. `id` names the consensus instance, `node_id` the node
/// that sent the frame. `timestamp` is the sender's wall clock in
/// milliseconds and is advisory. A frame without `inner` is malformed.
#[derive(Debug, Clone)]
pub struct ReliableBroadcastMessage {
    pub id: String,
    pub node_id: String,
    pub timestamp: u64,
    pub inner: Option<ReliableBroadcast>,
}

pub struct MessageView {
    pub id: Seq<char>,
    pub node_id: Seq<char>,
    pub timestamp: u64,
    pub inner: Option<ReliableBroadcastView>,
}

impl View for ReliableBroadcastMessage {
    type V = MessageView;

    open spec fn view(&self) -> MessageView {
        MessageView {
            id: self.id@,
            node_id: self.node_id@,
            timestamp: self.timestamp,
            inner: match self.inner {
                Some(inner) => Some(inner@),
                None => None,
            },
        }
    }
}

/// What the dispatcher does with a reply: send it to every listed peer, send
/// it back to the peer the request came from, or send nothing.
#[derive(Debug, Clone, Copy, PartialEq, Eq, Structural)]
pub enum Kind {
    BROADCAST,
    REPLY,
    DROP,
}

/// A frame as it comes in, with the peer that delivered it.
#[derive(Debug, Clone)]
pub struct ProtocolRequest {
    pub message: ReliableBroadcastMessage,
    pub source_peer: String,
}

/// The engine's answer to a frame.
#[derive(Debug, Clone)]
pub struct ProtocolResponse {
    pub kind: Kind,
    pub peers: Vec<String>,
    pub reply: ReliableBroadcastMessage,
}

/// An answer but for the time stamp of its frame, which the clock decides.
pub struct ResponseView {
    pub kind: Kind,
    pub peers: Seq<Seq<char>>,
    pub id: Seq<char>,
    pub node_id: Seq<char>,
    pub inner: ReliableBroadcastView,
}

impl ProtocolResponse {
    /// Does the answer carry what `v` says?
    pub open spec fn matches_view(&self, v: ResponseView) -> bool {
        &&& self.kind == v.kind
        &&& texts(self.peers@) == v.peers
        &&& self.reply@.id == v.id
        &&& self.reply@.node_id == v.node_id
        &&& self.reply@.inner == Some(v.inner)
    }
}

} // verus!
