//! Frames on the wire.
//!
//! A frame is the length of its body as an unsigned varint, then the body.
//! The body of a protocol frame is laid out as follows: one byte that says
//! what the frame asks for; the time stamp in eight bytes, low byte first;
//! the message id and the node id in UTF-8, each behind its length as an
//! unsigned varint; and, where the frame carries a payload, the payload
//! behind its length. Nothing follows.

use crate::message::{MessageView, ReliableBroadcast, ReliableBroadcastMessage, ReliableBroadcastView};
use crate::varint::{
    read_varint, varint_bytes, varint_parse, varint_round_trip, varint_scan, varint_scan_within,
    write_varint, VarintError, VarintParse,
};
use vstd::bytes::{
    lemma_auto_spec_u64_to_from_le_bytes, spec_u64_from_le_bytes, spec_u64_to_le_bytes,
    u64_from_le_bytes, u64_to_le_bytes,
};
use vstd::prelude::*;
use vstd::slice::{slice_subrange, slice_to_vec};
use vstd::utf8::{decode_utf8, encode_utf8, encode_utf8_decode_utf8, encode_utf8_valid_utf8, valid_utf8};

verus! {

/// The largest body a frame may have, in bytes: one mebibyte.
pub const MAX_FRAME_SIZE: u32 = 1_048_576;

/// Why bytes are no frame, or a value has none.
#[derive(Debug, Clone, Copy, PartialEq, Eq, Structural)]
pub enum CodecError {
    /// The bytes end before the frame does.
    Incomplete,
    /// The length is no valid varint.
    InvalidVarint,
    /// The body is longer than allowed.
    TooLarge,
    /// The body is not laid out as a protocol frame.
    Malformed,
}

/// Some bytes behind their length.
pub open spec fn field_bytes(data: Seq<u8>) -> Seq<u8> {
    varint_bytes(data.len() as u32) + data
}

/// The bytes behind their length at the start of `bytes`, and how many bytes
/// the two take together.
pub open spec fn parse_field(bytes: Seq<u8>) -> Option<(Seq<u8>, nat)> {
    match varint_parse(bytes) {
        VarintParse::Done(n, used) => if used + n <= bytes.len() {
            Some((bytes.subrange(used as int, used + n), (used + n) as nat))
        } else {
            None
        },
        _ => None,
    }
}

/// A field is read back as it was written, whatever follows it.
pub proof fn field_round_trip(data: Seq<u8>, after: Seq<u8>)
    requires
        data.len() <= u32::MAX,
    ensures
        parse_field(field_bytes(data) + after) == Some((data, field_bytes(data).len())),
        field_bytes(data).len() == varint_bytes(data.len() as u32).len() + data.len(),
{
    let prefix = varint_bytes(data.len() as u32);
    let all = field_bytes(data) + after;
    assert(all =~= prefix + (data + after));
    varint_round_trip(data.len() as u32, data + after);
    assert(all.subrange(prefix.len() as int, (prefix.len() + data.len()) as int) =~= data);
}

/// What a frame is read as, given the largest body allowed: the body and the
/// length of the whole frame, or why there is none.
pub open spec fn parse_frame(bytes: Seq<u8>, max_size: u32) -> Result<(Seq<u8>, nat), CodecError> {
    match varint_parse(bytes) {
        VarintParse::Insufficient => Err(CodecError::Incomplete),
        VarintParse::Overflow => Err(CodecError::InvalidVarint),
        VarintParse::NotMinimal => Err(CodecError::InvalidVarint),
        VarintParse::Done(n, used) => if n > max_size {
            Err(CodecError::TooLarge)
        } else if used + n > bytes.len() {
            Err(CodecError::Incomplete)
        } else {
            Ok((bytes.subrange(used as int, used + n), (used + n) as nat))
        },
    }
}

/// A frame is read back as it was written, whatever follows it.
pub proof fn frame_round_trip(body: Seq<u8>, after: Seq<u8>, max_size: u32)
    requires
        body.len() <= max_size,
    ensures
        parse_frame(field_bytes(body) + after, max_size) == Ok::<(Seq<u8>, nat), CodecError>(
            (body, field_bytes(body).len()),
        ),
{
    field_round_trip(body, after);
}

/// Adds `data` at the end of `out`.
pub(crate) fn append(out: &mut Vec<u8>, data: &[u8])
    ensures
        final(out)@ == old(out)@ + data@,
{
    let mut i: usize = 0;
    while i < data.len()
        invariant
            i <= data.len(),
            out@ == old(out)@ + data@.take(i as int),
        decreases data.len() - i,
    {
        out.push(data[i]);
        assert(data@.take(i + 1) =~= data@.take(i as int).push(data@[i as int]));
        i += 1;
    }
    assert(data@.take(data.len() as int) =~= data@);
}

/// Adds `data` behind its length at the end of `out`.
pub(crate) fn append_field(out: &mut Vec<u8>, data: &[u8])
    requires
        data@.len() <= u32::MAX,
    ensures
        final(out)@ == old(out)@ + field_bytes(data@),
{
    let prefix = write_varint(data.len() as u32);
    append(out, prefix.as_slice());
    append(out, data);
    assert(out@ =~= old(out)@ + field_bytes(data@));
}

/// The frame with the given body: the length of the body, then the body. A
/// body of more than `MAX_FRAME_SIZE` bytes has no frame.
pub fn write_length_prefixed(data: &[u8]) -> (r: Result<Vec<u8>, CodecError>)
    ensures
        match r {
            Ok(frame) => data@.len() <= MAX_FRAME_SIZE && frame@ == field_bytes(data@),
            Err(e) => data@.len() > MAX_FRAME_SIZE && e == CodecError::TooLarge,
        },
{
    if data.len() > MAX_FRAME_SIZE as usize {
        return Err(CodecError::TooLarge);
    }
    let mut frame: Vec<u8> = Vec::new();
    append_field(&mut frame, data);
    Ok(frame)
}

/// Reads one frame from the start of `bytes`: its body and the length of
/// the whole frame. A body of more than `max_size` bytes is refused before
/// any of it is read.
pub fn read_length_prefixed(bytes: &[u8], max_size: u32) -> (r: Result<(Vec<u8>, usize), CodecError>)
    ensures
        match parse_frame(bytes@, max_size) {
            Ok((body, used)) => r.is_ok() && r.unwrap().0@ == body && r.unwrap().1 == used,
            Err(e) => r == Err::<(Vec<u8>, usize), CodecError>(e),
        },
{
    match read_varint(bytes) {
        Err(VarintError::Insufficient) => Err(CodecError::Incomplete),
        Err(_) => Err(CodecError::InvalidVarint),
        Ok((n, used)) => {
            if n > max_size {
                Err(CodecError::TooLarge)
            } else if n as usize > bytes.len() - used {
                Err(CodecError::Incomplete)
            } else {
                let body = slice_to_vec(slice_subrange(bytes, used, used + n as usize));
                Ok((body, used + n as usize))
            }
        },
    }
}

/// Checks the length a frame announces against the largest body allowed.
pub fn check_frame_length(announced: u32, max_size: u32) -> (r: Result<usize, CodecError>)
    ensures
        r == if announced > max_size {
            Err::<usize, CodecError>(CodecError::TooLarge)
        } else {
            Ok::<usize, CodecError>(announced as usize)
        },
{
    if announced > max_size {
        Err(CodecError::TooLarge)
    } else {
        Ok(announced as usize)
    }
}

/// What to do after one more byte of a length was read.
#[derive(Debug, Clone, Copy, PartialEq, Eq, Structural)]
pub enum VarintStep {
    /// The length is not complete: read another byte.
    More,
    /// The length is complete.
    Done(u32),
    /// The bytes read are no length.
    Invalid,
}

/// Reads a length that comes in byte by byte. It holds the bytes that were
/// read so far; each of them announced another.
pub struct VarintReader {
    buffer: Vec<u8>,
}

impl VarintReader {
    /// The bytes read so far.
    pub closed spec fn pending(&self) -> Seq<u8> {
        self.buffer@
    }

    /// At most four bytes were read so far, and they are the start of a
    /// length.
    pub closed spec fn wf(&self) -> bool {
        &&& self.buffer@.len() <= 4
        &&& varint_parse(self.buffer@) is Insufficient
    }

    /// A reader that has read nothing.
    pub fn new() -> (reader: VarintReader)
        ensures
            reader.wf(),
            reader.pending() == Seq::<u8>::empty(),
    {
        VarintReader { buffer: Vec::new() }
    }

    /// Takes the next byte. With it the length is complete, is known to be
    /// invalid, or needs another byte. After a complete or an invalid length
    /// the reader starts anew.
    pub fn push(&mut self, byte: u8) -> (step: VarintStep)
        requires
            old(self).wf(),
        ensures
            final(self).wf(),
            match varint_parse(old(self).pending().push(byte)) {
                VarintParse::Done(n, _) => step == VarintStep::Done(n) && final(self).pending()
                    == Seq::<u8>::empty(),
                VarintParse::Insufficient => step == VarintStep::More && final(self).pending()
                    == old(self).pending().push(byte),
                _ => step == VarintStep::Invalid && final(self).pending() == Seq::<u8>::empty(),
            },
    {
        self.buffer.push(byte);
        proof {
            varint_scan_within(self.buffer@, 0, 0);
            if varint_parse(self.buffer@) is Insufficient {
                start_is_short(self.buffer@);
            }
        }
        match read_varint(self.buffer.as_slice()) {
            Ok((n, _)) => {
                self.buffer.clear();
                VarintStep::Done(n)
            },
            Err(VarintError::Insufficient) => VarintStep::More,
            Err(_) => {
                self.buffer.clear();
                VarintStep::Invalid
            },
        }
    }
}

/// Bytes that all announce another are at most four.
pub proof fn start_is_short(buf: Seq<u8>)
    requires
        varint_parse(buf) is Insufficient,
    ensures
        buf.len() <= 4,
{
    reveal_with_fuel(varint_scan, 6);
}

/// The byte that says what a frame asks for.
pub open spec fn tag_of(inner: Option<ReliableBroadcastView>) -> u8 {
    match inner {
        None => 0,
        Some(ReliableBroadcastView::PrePrepare { payload }) => 1,
        Some(ReliableBroadcastView::Prepare { payload }) => 2,
        Some(ReliableBroadcastView::Commit) => 3,
        Some(ReliableBroadcastView::Ack) => 4,
    }
}

/// The payload a frame carries, as a field; nothing where it carries none.
pub open spec fn payload_bytes(inner: Option<ReliableBroadcastView>) -> Seq<u8> {
    match inner {
        Some(ReliableBroadcastView::PrePrepare { payload }) => field_bytes(payload),
        Some(ReliableBroadcastView::Prepare { payload }) => field_bytes(payload),
        _ => Seq::empty(),
    }
}

/// The body of a protocol frame.
pub open spec fn message_bytes(m: MessageView) -> Seq<u8> {
    seq![tag_of(m.inner)] + spec_u64_to_le_bytes(m.timestamp) + field_bytes(encode_utf8(m.id))
        + field_bytes(encode_utf8(m.node_id)) + payload_bytes(m.inner)
}

/// What a tag and a payload field say a frame asks for. The payload field
/// has to end the body; a frame without payload ends before it.
pub open spec fn parse_inner(tag: u8, rest: Seq<u8>) -> Option<Option<ReliableBroadcastView>> {
    if tag == 1 || tag == 2 {
        match parse_field(rest) {
            Some((payload, used)) => if used == rest.len() {
                if tag == 1 {
                    Some(Some(ReliableBroadcastView::PrePrepare { payload }))
                } else {
                    Some(Some(ReliableBroadcastView::Prepare { payload }))
                }
            } else {
                None
            },
            None => None,
        }
    } else if rest.len() != 0 {
        None
    } else if tag == 0 {
        Some(None)
    } else if tag == 3 {
        Some(Some(ReliableBroadcastView::Commit))
    } else if tag == 4 {
        Some(Some(ReliableBroadcastView::Ack))
    } else {
        None
    }
}

/// The frame a body is the layout of, if it is one.
pub open spec fn parse_message(bytes: Seq<u8>) -> Option<MessageView> {
    if bytes.len() < 9 {
        None
    } else {
        match parse_field(bytes.skip(9)) {
            Some((id, a)) => match parse_field(bytes.skip((9 + a) as int)) {
                Some((node_id, b)) => match parse_inner(bytes[0], bytes.skip((9 + a + b) as int)) {
                    Some(inner) => if valid_utf8(id) && valid_utf8(node_id) {
                        Some(
                            MessageView {
                                id: decode_utf8(id),
                                node_id: decode_utf8(node_id),
                                timestamp: spec_u64_from_le_bytes(bytes.subrange(1, 9)),
                                inner,
                            },
                        )
                    } else {
                        None
                    },
                    None => None,
                },
                None => None,
            },
            None => None,
        }
    }
}

/// Can the frame be laid out: is each of its fields short enough for its
/// length to be written?
pub open spec fn fits(m: MessageView) -> bool {
    &&& encode_utf8(m.id).len() <= u32::MAX
    &&& encode_utf8(m.node_id).len() <= u32::MAX
    &&& match m.inner {
        Some(ReliableBroadcastView::PrePrepare { payload }) => payload.len() <= u32::MAX,
        Some(ReliableBroadcastView::Prepare { payload }) => payload.len() <= u32::MAX,
        _ => true,
    }
}

/// Encoding a frame and decoding the bytes gives the frame back.
pub proof fn message_round_trip(m: MessageView)
    requires
        fits(m),
    ensures
        parse_message(message_bytes(m)) == Some(m),
{
    let bytes = message_bytes(m);
    let id = encode_utf8(m.id);
    let node_id = encode_utf8(m.node_id);
    let tail = payload_bytes(m.inner);
    let head = seq![tag_of(m.inner)] + spec_u64_to_le_bytes(m.timestamp);
    lemma_auto_spec_u64_to_from_le_bytes();
    assert(head.len() == 9);
    assert(bytes.subrange(1, 9) =~= spec_u64_to_le_bytes(m.timestamp));
    assert(bytes[0] == tag_of(m.inner));
    assert(bytes.skip(9) =~= field_bytes(id) + (field_bytes(node_id) + tail));
    field_round_trip(id, field_bytes(node_id) + tail);
    let a = field_bytes(id).len();
    assert(bytes.skip((9 + a) as int) =~= field_bytes(node_id) + tail);
    field_round_trip(node_id, tail);
    let b = field_bytes(node_id).len();
    assert(bytes.skip((9 + a + b) as int) =~= tail);
    encode_utf8_valid_utf8(m.id);
    encode_utf8_valid_utf8(m.node_id);
    encode_utf8_decode_utf8(m.id);
    encode_utf8_decode_utf8(m.node_id);
    match m.inner {
        Some(ReliableBroadcastView::PrePrepare { payload }) => {
            assert(tail =~= field_bytes(payload) + Seq::<u8>::empty());
            field_round_trip(payload, Seq::empty());
        },
        Some(ReliableBroadcastView::Prepare { payload }) => {
            assert(tail =~= field_bytes(payload) + Seq::<u8>::empty());
            field_round_trip(payload, Seq::empty());
        },
        _ => {},
    }
}

/// `String::from_utf8`: the text the bytes are the UTF-8 of, if they are
/// valid UTF-8.
#[verifier::external_body]
pub(crate) fn string_from_utf8(bytes: Vec<u8>) -> (text: Option<String>)
    ensures
        match text {
            Some(s) => valid_utf8(bytes@) && s@ == decode_utf8(bytes@),
            None => !valid_utf8(bytes@),
        },
{
    String::from_utf8(bytes).ok()
}

/// Reads the bytes behind their length at the start of `bytes`.
pub(crate) fn read_field(bytes: &[u8]) -> (r: Option<(Vec<u8>, usize)>)
    ensures
        match parse_field(bytes@) {
            Some((data, used)) => r.is_some() && r.unwrap().0@ == data && r.unwrap().1 == used
                && used <= bytes@.len(),
            None => r.is_none(),
        },
{
    match read_varint(bytes) {
        Err(_) => None,
        Ok((n, used)) => {
            if n as usize > bytes.len() - used {
                None
            } else {
                let data = slice_to_vec(slice_subrange(bytes, used, used + n as usize));
                Some((data, used + n as usize))
            }
        },
    }
}

/// The body of a protocol frame. A frame whose body would be longer than
/// `MAX_FRAME_SIZE` has none.
pub fn encode_message(m: &ReliableBroadcastMessage) -> (r: Result<Vec<u8>, CodecError>)
    ensures
        match r {
            Ok(bytes) => bytes@ == message_bytes(m@) && bytes@.len() <= MAX_FRAME_SIZE && fits(m@),
            Err(e) => e == CodecError::TooLarge && message_bytes(m@).len() > MAX_FRAME_SIZE,
        },
{
    let max = MAX_FRAME_SIZE as usize;
    let id = m.id.as_str().as_bytes();
    let node_id = m.node_id.as_str().as_bytes();
    let ghost view = m@;
    proof {
        lemma_auto_spec_u64_to_from_le_bytes();
        assert(id@ == encode_utf8(view.id));
        assert(node_id@ == encode_utf8(view.node_id));
        assert(message_bytes(view).len() >= 9 + field_bytes(id@).len() + field_bytes(
            node_id@,
        ).len() + payload_bytes(view.inner).len());
    }
    if id.len() > max || node_id.len() > max {
        return Err(CodecError::TooLarge);
    }
    let mut out: Vec<u8> = Vec::new();
    match &m.inner {
        None => {
            out.push(0u8);
        },
        Some(ReliableBroadcast::PrePrepare { payload }) => {
            if payload.len() > max {
                return Err(CodecError::TooLarge);
            }
            out.push(1u8);
        },
        Some(ReliableBroadcast::Prepare { payload }) => {
            if payload.len() > max {
                return Err(CodecError::TooLarge);
            }
            out.push(2u8);
        },
        Some(ReliableBroadcast::Commit) => {
            out.push(3u8);
        },
        Some(ReliableBroadcast::Ack) => {
            out.push(4u8);
        },
    }
    assert(out@ =~= seq![tag_of(view.inner)]);
    let stamp = u64_to_le_bytes(m.timestamp);
    append(&mut out, stamp.as_slice());
    append_field(&mut out, id);
    append_field(&mut out, node_id);
    match &m.inner {
        Some(ReliableBroadcast::PrePrepare { payload }) => {
            append_field(&mut out, payload.as_slice());
        },
        Some(ReliableBroadcast::Prepare { payload }) => {
            append_field(&mut out, payload.as_slice());
        },
        _ => {
            assert(out@ + Seq::<u8>::empty() =~= out@);
        },
    }
    assert(out@ == message_bytes(view));
    if out.len() > max {
        return Err(CodecError::TooLarge);
    }
    Ok(out)
}

/// The frame a body is the layout of. Bytes that are laid out otherwise are
/// refused.
pub fn decode_message(bytes: &[u8]) -> (r: Result<ReliableBroadcastMessage, CodecError>)
    ensures
        match parse_message(bytes@) {
            Some(m) => r.is_ok() && r.unwrap()@ == m,
            None => r.is_err() && r.unwrap_err() == CodecError::Malformed,
        },
{
    if bytes.len() < 9 {
        return Err(CodecError::Malformed);
    }
    let tag = bytes[0];
    let timestamp = u64_from_le_bytes(slice_subrange(bytes, 1, 9));
    let after_head = slice_subrange(bytes, 9, bytes.len());
    assert(after_head@ =~= bytes@.skip(9));
    let (id_bytes, a) = match read_field(after_head) {
        Some(found) => found,
        None => {
            return Err(CodecError::Malformed);
        },
    };
    let after_id = slice_subrange(bytes, 9 + a, bytes.len());
    assert(after_id@ =~= bytes@.skip(9 + a));
    let (node_bytes, b) = match read_field(after_id) {
        Some(found) => found,
        None => {
            return Err(CodecError::Malformed);
        },
    };
    let rest = slice_subrange(bytes, 9 + a + b, bytes.len());
    assert(rest@ =~= bytes@.skip(9 + a + b));
    let inner = if tag == 1 || tag == 2 {
        match read_field(rest) {
            Some((payload, used)) => {
                if used != rest.len() {
                    return Err(CodecError::Malformed);
                }
                if tag == 1 {
                    Some(ReliableBroadcast::PrePrepare { payload })
                } else {
                    Some(ReliableBroadcast::Prepare { payload })
                }
            },
            None => {
                return Err(CodecError::Malformed);
            },
        }
    } else if rest.len() != 0 {
        return Err(CodecError::Malformed);
    } else if tag == 0 {
        None
    } else if tag == 3 {
        Some(ReliableBroadcast::Commit)
    } else if tag == 4 {
        Some(ReliableBroadcast::Ack)
    } else {
        return Err(CodecError::Malformed);
    };
    let id = match string_from_utf8(id_bytes) {
        Some(text) => text,
        None => {
            return Err(CodecError::Malformed);
        },
    };
    let node_id = match string_from_utf8(node_bytes) {
        Some(text) => text,
        None => {
            return Err(CodecError::Malformed);
        },
    };
    Ok(ReliableBroadcastMessage { id, node_id, timestamp, inner })
}

/// The frame of a request: the length of its body, then the body.
pub fn write_request(request: &ReliableBroadcastMessage) -> (r: Result<Vec<u8>, CodecError>)
    ensures
        match r {
            Ok(frame) => frame@ == field_bytes(message_bytes(request@)) && message_bytes(
                request@,
            ).len() <= MAX_FRAME_SIZE && fits(request@),
            Err(e) => e == CodecError::TooLarge && message_bytes(request@).len()
                > MAX_FRAME_SIZE,
        },
{
    match encode_message(request) {
        Ok(body) => write_length_prefixed(body.as_slice()),
        Err(e) => Err(e),
    }
}

/// What bytes are read as when a request is expected: the request and the
/// length of its frame, or why there is none.
pub open spec fn parse_request(bytes: Seq<u8>) -> Result<(MessageView, nat), CodecError> {
    match parse_frame(bytes, MAX_FRAME_SIZE) {
        Ok((body, used)) => match parse_message(body) {
            Some(m) => Ok((m, used)),
            None => Err(CodecError::Malformed),
        },
        Err(e) => Err(e),
    }
}

/// Reads one request from the start of `bytes`: the request and the length
/// of its frame.
pub fn read_request(bytes: &[u8]) -> (r: Result<(ReliableBroadcastMessage, usize), CodecError>)
    ensures
        match parse_request(bytes@) {
            Ok((m, used)) => r.is_ok() && r.unwrap().0@ == m && r.unwrap().1 == used,
            Err(e) => r.is_err() && r.unwrap_err() == e,
        },
{
    match read_length_prefixed(bytes, MAX_FRAME_SIZE) {
        Ok((body, used)) => match decode_message(body.as_slice()) {
            Ok(m) => Ok((m, used)),
            Err(e) => Err(e),
        },
        Err(e) => Err(e),
    }
}

/// A request that was written is read back as it was, whatever follows it
/// on the wire.
pub proof fn request_round_trip(m: MessageView, after: Seq<u8>)
    requires
        fits(m),
        message_bytes(m).len() <= MAX_FRAME_SIZE,
    ensures
        parse_request(field_bytes(message_bytes(m)) + after) == Ok::<(MessageView, nat), CodecError>(
            (m, field_bytes(message_bytes(m)).len()),
        ),
{
    frame_round_trip(message_bytes(m), after, MAX_FRAME_SIZE);
    message_round_trip(m);
}

/// The answer of the transport to a request: the id of the message it was
/// about.
#[derive(Debug, Clone)]
pub struct RbMsgResponse {
    pub id: String,
}

impl View for RbMsgResponse {
    type V = Seq<char>;

    open spec fn view(&self) -> Seq<char> {
        self.id@
    }
}

impl RbMsgResponse {
    pub fn new(id: String) -> (response: RbMsgResponse)
        ensures
            response@ == id@,
    {
        RbMsgResponse { id }
    }
}

/// The frame of a response: the length of the id in UTF-8, then the id.
pub fn write_response(response: &RbMsgResponse) -> (r: Result<Vec<u8>, CodecError>)
    ensures
        match r {
            Ok(frame) => frame@ == field_bytes(encode_utf8(response@)) && encode_utf8(
                response@,
            ).len() <= MAX_FRAME_SIZE,
            Err(e) => e == CodecError::TooLarge && encode_utf8(response@).len() > MAX_FRAME_SIZE,
        },
{
    write_length_prefixed(response.id.as_str().as_bytes())
}

/// What bytes are read as when a response is expected: the id and the length
/// of the frame, or why there is none.
pub open spec fn parse_response(bytes: Seq<u8>) -> Result<(Seq<char>, nat), CodecError> {
    match parse_frame(bytes, MAX_FRAME_SIZE) {
        Ok((body, used)) => if valid_utf8(body) {
            Ok((decode_utf8(body), used))
        } else {
            Err(CodecError::Malformed)
        },
        Err(e) => Err(e),
    }
}

/// Reads one response from the start of `bytes`: the response and the
/// length of its frame.
pub fn read_response(bytes: &[u8]) -> (r: Result<(RbMsgResponse, usize), CodecError>)
    ensures
        match parse_response(bytes@) {
            Ok((id, used)) => r.is_ok() && r.unwrap().0@ == id && r.unwrap().1 == used,
            Err(e) => r.is_err() && r.unwrap_err() == e,
        },
{
    match read_length_prefixed(bytes, MAX_FRAME_SIZE) {
        Ok((body, used)) => match string_from_utf8(body) {
            Some(id) => Ok((RbMsgResponse { id }, used)),
            None => Err(CodecError::Malformed),
        },
        Err(e) => Err(e),
    }
}

/// A response that was written is read back as it was, whatever follows it
/// on the wire.
pub proof fn response_round_trip(id: Seq<char>, after: Seq<u8>)
    requires
        encode_utf8(id).len() <= MAX_FRAME_SIZE,
    ensures
        parse_response(field_bytes(encode_utf8(id)) + after) == Ok::<(Seq<char>, nat), CodecError>(
            (id, field_bytes(encode_utf8(id)).len()),
        ),
{
    frame_round_trip(encode_utf8(id), after, MAX_FRAME_SIZE);
    encode_utf8_valid_utf8(id);
    encode_utf8_decode_utf8(id);
}

} // verus!
