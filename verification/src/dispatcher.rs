//! The decisions of the dispatcher: where what the transport delivers goes,
//! and to whom the answers of the engine are sent. The transport itself is
//! not part of the library.

use crate::codec::{
    field_bytes, fits, message_bytes, parse_request, read_request, write_request, CodecError,
    RbMsgResponse, MAX_FRAME_SIZE,
};
use crate::message::{
    Kind, MessageView, ProtocolRequest, ProtocolResponse, ReliableBroadcastMessage, ResponseView,
};
use crate::model::{malformed, step, Answers, Outcome, Refusal};
use crate::quorum::Quorum;
use crate::quorum_consensus::{
    result_matches, QuorumConsensusBroadcastProtocol, QuorumConsensusCallBack, QuorumProtocolError,
};
use crate::text::texts;
use vstd::prelude::*;

verus! {

/// What the transport delivers, as far as the dispatcher reads it.
#[derive(Debug, Clone)]
pub enum SwarmEvent {
    /// A message that was published under a topic.
    Gossip { topic: String, data: Vec<u8> },
    /// A protocol frame that a peer sent as a request.
    Request { request: ReliableBroadcastMessage },
    /// The answer of a peer to a request of this node.
    Response { response: RbMsgResponse },
    /// A request of this node could not be delivered.
    OutboundFailure,
    /// A request of a peer could not be answered.
    InboundFailure,
    /// An answer of this node was sent.
    ResponseSent,
    /// Anything else.
    Other,
}

/// What the dispatcher does with an event.
#[derive(Debug, Clone)]
pub enum SwarmAction {
    /// Hand the bytes to the engine as a protocol frame.
    ProtocolRaw(Vec<u8>),
    /// Hand the bytes on as an application message.
    EphemeraRaw(Vec<u8>),
    /// Hand the frame to the engine and answer the peer.
    Protocol { request: ReliableBroadcastMessage, response: RbMsgResponse },
    /// Do nothing.
    Ignore,
}

/// Where an event goes. A published message goes by its topic, the protocol
/// topic first; a request goes to the engine and is answered with the id of
/// its message; everything else is ignored.
pub fn handle_incoming_messages(
    event: SwarmEvent,
    protocol_msg_topic: &String,
    ephemera_msg_topic: &String,
) -> (action: SwarmAction)
    ensures
        match event {
            SwarmEvent::Gossip { topic, data } => if topic@ == protocol_msg_topic@ {
                action matches SwarmAction::ProtocolRaw(raw) && raw == data
            } else if topic@ == ephemera_msg_topic@ {
                action matches SwarmAction::EphemeraRaw(raw) && raw == data
            } else {
                action is Ignore
            },
            SwarmEvent::Request { request } => action matches SwarmAction::Protocol {
                request: handed,
                response,
            } && handed == request && response@ == request@.id,
            _ => action is Ignore,
        },
{
    match event {
        SwarmEvent::Gossip { topic, data } => {
            if topic == *protocol_msg_topic {
                SwarmAction::ProtocolRaw(data)
            } else if topic == *ephemera_msg_topic {
                SwarmAction::EphemeraRaw(data)
            } else {
                SwarmAction::Ignore
            }
        },
        SwarmEvent::Request { request } => {
            let rb_id = request.id.clone();
            SwarmAction::Protocol { request, response: RbMsgResponse::new(rb_id) }
        },
        _ => SwarmAction::Ignore,
    }
}

/// What one of the three sources of the transport loop brings: an event of
/// the swarm, an application message to publish, or a protocol frame to
/// send. `None` means that the source is closed.
#[derive(Debug, Clone)]
pub enum LoopInput {
    Swarm(Option<SwarmEvent>),
    EphemeraMessage(Option<Vec<u8>>),
    ProtocolMessage(Option<ReliableBroadcastMessage>),
}

/// What the transport loop does next.
#[derive(Debug, Clone)]
pub enum LoopStep {
    /// Dispatch the event.
    Handle(SwarmEvent),
    /// Publish the application message.
    Publish(Vec<u8>),
    /// Send the frame to every known peer.
    Send(ReliableBroadcastMessage),
    /// Stop: a source is closed.
    Stop,
}

/// One turn of the transport loop: work on what came, or stop when a source
/// is closed.
pub fn start(input: LoopInput) -> (step: LoopStep)
    ensures
        match input {
            LoopInput::Swarm(Some(event)) => step matches LoopStep::Handle(e) && e == event,
            LoopInput::EphemeraMessage(Some(msg)) => step matches LoopStep::Publish(m) && m == msg,
            LoopInput::ProtocolMessage(Some(msg)) => step matches LoopStep::Send(m) && m == msg,
            _ => step is Stop,
        },
{
    match input {
        LoopInput::Swarm(Some(event)) => LoopStep::Handle(event),
        LoopInput::EphemeraMessage(Some(msg)) => LoopStep::Publish(msg),
        LoopInput::ProtocolMessage(Some(msg)) => LoopStep::Send(msg),
        _ => LoopStep::Stop,
    }
}

/// A frame on its way to a peer.
#[derive(Debug, Clone)]
pub struct Outbound {
    pub peer: String,
    pub frame: Vec<u8>,
}

/// The peers an answer of the engine goes to: all it lists for a broadcast,
/// the peer the request came from for a reply, none for a drop.
pub open spec fn receivers(kind: Kind, peers: Seq<Seq<char>>, source_peer: Seq<char>) -> Seq<
    Seq<char>,
> {
    match kind {
        Kind::BROADCAST => peers,
        Kind::REPLY => seq![source_peer],
        Kind::DROP => Seq::empty(),
    }
}

/// The frames to send for an answer of the engine: one per receiver, in
/// their order, each the frame of the reply. An answer with receivers whose
/// reply is too large for a frame is refused.
pub fn send_protocol_message(response: &ProtocolResponse, source_peer: &String) -> (r: Result<
    Vec<Outbound>,
    CodecError,
>)
    ensures
        match r {
            Ok(queue) => {
                let to = receivers(response.kind, texts(response.peers@), source_peer@);
                &&& queue@.len() == to.len()
                &&& forall|i: int|
                    0 <= i < queue@.len() ==> (#[trigger] queue@[i]).peer@ == to[i] && queue@[i].frame@
                        == field_bytes(message_bytes(response.reply@))
                &&& to.len() > 0 ==> message_bytes(response.reply@).len() <= MAX_FRAME_SIZE && fits(
                    response.reply@,
                )
            },
            Err(e) => e == CodecError::TooLarge && message_bytes(response.reply@).len()
                > MAX_FRAME_SIZE && receivers(
                response.kind,
                texts(response.peers@),
                source_peer@,
            ).len() > 0,
        },
{
    let mut queue: Vec<Outbound> = Vec::new();
    match response.kind {
        Kind::DROP => Ok(queue),
        Kind::REPLY => {
            let frame = match write_request(&response.reply) {
                Ok(frame) => frame,
                Err(e) => {
                    return Err(e);
                },
            };
            queue.push(Outbound { peer: source_peer.clone(), frame });
            Ok(queue)
        },
        Kind::BROADCAST => {
            let mut i: usize = 0;
            while i < response.peers.len()
                invariant
                    response.kind == Kind::BROADCAST,
                    i <= response.peers.len(),
                    queue@.len() == i,
                    forall|j: int|
                        0 <= j < i ==> (#[trigger] queue@[j]).peer@ == response.peers@[j]@
                            && queue@[j].frame@ == field_bytes(message_bytes(response.reply@)),
                    i > 0 ==> message_bytes(response.reply@).len() <= MAX_FRAME_SIZE && fits(
                        response.reply@,
                    ),
                decreases response.peers.len() - i,
            {
                let frame = match write_request(&response.reply) {
                    Ok(frame) => frame,
                    Err(e) => {
                        assert(texts(response.peers@).len() > 0);
                        return Err(e);
                    },
                };
                queue.push(Outbound { peer: response.peers[i].clone(), frame });
                i += 1;
            }
            Ok(queue)
        },
    }
}

/// Why a frame that came in brought nothing to send.
#[derive(Debug, Clone, PartialEq, Eq)]
pub enum DispatchError {
    /// The engine refused the frame.
    Refused(QuorumProtocolError),
    /// The engine answered, and its answer is too large for a frame.
    Oversized,
}

/// The reply an answer of the engine carries, with the given time stamp.
pub open spec fn reply_of(answer: ResponseView, timestamp: u64) -> MessageView {
    MessageView {
        id: answer.id,
        node_id: answer.node_id,
        timestamp,
        inner: Some(answer.inner),
    }
}

/// Does the dispatcher do with the outcome of a frame what it should: hand
/// on a refusal of the engine, and for an answer queue the frame of the
/// reply once for every receiver, or nothing where the reply is too large
/// for a frame?
pub open spec fn dispatched(
    r: Result<Vec<Outbound>, DispatchError>,
    outcome: Outcome,
    source_peer: Seq<char>,
) -> bool {
    match outcome {
        Err(refusal) => r matches Err(DispatchError::Refused(e)) && e@ == refusal,
        Ok(answer) => exists|timestamp: u64|
            {
                let reply = #[trigger] reply_of(answer, timestamp);
                let to = receivers(answer.kind, answer.peers, source_peer);
                match r {
                    Ok(queue) => {
                        &&& queue@.len() == to.len()
                        &&& forall|i: int|
                            0 <= i < queue@.len() ==> (#[trigger] queue@[i]).peer@ == to[i]
                                && queue@[i].frame@ == field_bytes(message_bytes(reply))
                    },
                    Err(DispatchError::Oversized) => to.len() > 0 && message_bytes(reply).len()
                        > MAX_FRAME_SIZE,
                    Err(_) => false,
                }
            },
    }
}

/// One turn of the dispatcher: decodes the frame at the start of `bytes`,
/// hands it to the engine, and lays out what is to be sent. Bytes that are
/// no frame are refused as an unknown broadcast and leave the engine as it
/// was.
pub fn dispatch<Q: Quorum, C: QuorumConsensusCallBack>(
    engine: &mut QuorumConsensusBroadcastProtocol<Q, C>,
    bytes: &[u8],
    source_peer: String,
) -> (r: Result<Vec<Outbound>, DispatchError>)
    requires
        old(engine).wf(),
    ensures
        final(engine).wf(),
        final(engine).policy() == old(engine).policy(),
        match parse_request(bytes@) {
            Err(_) => {
                &&& final(engine)@ == old(engine)@
                &&& final(engine).membership_view() == old(engine).membership_view()
                &&& final(engine).application() == old(engine).application()
                &&& dispatched(r, Err(Refusal::UnknownBroadcast(malformed())), source_peer@)
            },
            Ok((frame, _)) => {
                &&& final(engine).untouched(*old(engine), frame.id, frame.node_id, frame.inner)
                &&& exists|answers: Answers|
                    {
                        let (node, outcome) = #[trigger] step(
                            old(engine)@,
                            frame.id,
                            frame.node_id,
                            frame.inner,
                            old(engine).policy(),
                            answers,
                        );
                        final(engine)@ == node && dispatched(r, outcome, source_peer@)
                    }
            },
        },
{
    let message = match read_request(bytes) {
        Ok((message, _)) => message,
        Err(_) => {
            return Err(
                DispatchError::Refused(
                    QuorumProtocolError::UnknownBroadcast("Unknown broadcast".to_string()),
                ),
            );
        },
    };
    let ghost frame = message@;
    let answer = engine.handle(ProtocolRequest { message, source_peer: source_peer.clone() });
    let ghost answers = choose|answers: Answers|
        {
            let (node, outcome) = #[trigger] step(
                old(engine)@,
                frame.id,
                frame.node_id,
                frame.inner,
                old(engine).policy(),
                answers,
            );
            engine@ == node && result_matches(answer, outcome)
        };
    let ghost outcome = step(
        old(engine)@,
        frame.id,
        frame.node_id,
        frame.inner,
        old(engine).policy(),
        answers,
    ).1;
    match answer {
        Err(e) => Err(DispatchError::Refused(e)),
        Ok(response) => {
            let ghost view = outcome->Ok_0;
            assert(response.reply@ == reply_of(view, response.reply.timestamp));
            let r = match send_protocol_message(&response, &source_peer) {
                Ok(queue) => Ok(queue),
                Err(_) => Err(DispatchError::Oversized),
            };
            assert(dispatched(r, outcome, source_peer@));
            r
        },
    }
}

} // verus!
