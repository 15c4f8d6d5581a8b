//! Application messages: what a client hands to the node to be broadcast,
//! with and without the certificate of its sender.
//!
//! The raw message is what is signed. It is laid out as the time stamp in
//! eight bytes, low byte first, then the label in UTF-8 and the data, each
//! behind its length as an unsigned varint. The signed message adds the
//! signature and the public key, each behind its length.

use crate::clock::now_millis;
use crate::codec::{
    append_field, field_bytes, field_round_trip, parse_field, read_field, string_from_utf8,
    CodecError,
};
use crate::crypto::{
    public_of, signature_of, signature_valid, Certificate, Keypair, PublicKey, Signature,
};
use vstd::bytes::{
    lemma_auto_spec_u64_to_from_le_bytes, spec_u64_from_le_bytes, spec_u64_to_le_bytes,
    u64_from_le_bytes, u64_to_le_bytes,
};
use vstd::prelude::*;
use vstd::slice::slice_subrange;
use vstd::utf8::{decode_utf8, encode_utf8, encode_utf8_decode_utf8, encode_utf8_valid_utf8, valid_utf8};

verus! {

/// The largest label or data a message may carry, in bytes.
pub const MAX_PART_SIZE: usize = 1_048_576;

/// A raw message as the library reads it.
pub struct RawMessageView {
    pub timestamp: u64,
    pub label: Seq<char>,
    pub data: Seq<u8>,
}

/// All the data of a message that is signed.
#[derive(Debug, Clone, PartialEq)]
pub struct RawEphemeraMessage {
    pub timestamp: u64,
    pub label: String,
    pub data: Vec<u8>,
}

impl View for RawEphemeraMessage {
    type V = RawMessageView;

    open spec fn view(&self) -> RawMessageView {
        RawMessageView { timestamp: self.timestamp, label: self.label@, data: self.data@ }
    }
}

/// The raw message with the given parts.
pub open spec fn raw_view(timestamp: u64, label: Seq<char>, data: Seq<u8>) -> RawMessageView {
    RawMessageView { timestamp, label, data }
}

/// The layout of a raw message.
pub open spec fn raw_bytes(m: RawMessageView) -> Seq<u8> {
    spec_u64_to_le_bytes(m.timestamp) + field_bytes(encode_utf8(m.label)) + field_bytes(m.data)
}

/// Are the label and the data short enough to be laid out?
pub open spec fn raw_fits(m: RawMessageView) -> bool {
    encode_utf8(m.label).len() <= MAX_PART_SIZE && m.data.len() <= MAX_PART_SIZE
}

/// Two raw messages with the same layout are the same message: what is
/// signed determines what was said.
pub proof fn raw_layout_is_injective(a: RawMessageView, b: RawMessageView)
    requires
        raw_fits(a),
        raw_fits(b),
        raw_bytes(a) == raw_bytes(b),
    ensures
        a == b,
{
    lemma_auto_spec_u64_to_from_le_bytes();
    let bytes = raw_bytes(a);
    assert(bytes.subrange(0, 8) =~= spec_u64_to_le_bytes(a.timestamp));
    assert(bytes.subrange(0, 8) =~= spec_u64_to_le_bytes(b.timestamp));
    assert(bytes.skip(8) =~= field_bytes(encode_utf8(a.label)) + field_bytes(a.data));
    assert(bytes.skip(8) =~= field_bytes(encode_utf8(b.label)) + field_bytes(b.data));
    field_round_trip(encode_utf8(a.label), field_bytes(a.data));
    field_round_trip(encode_utf8(b.label), field_bytes(b.data));
    encode_utf8_decode_utf8(a.label);
    encode_utf8_decode_utf8(b.label);
    let n = field_bytes(encode_utf8(a.label)).len();
    assert(bytes.skip(8).skip(n as int) =~= field_bytes(a.data));
    assert(bytes.skip(8).skip(n as int) =~= field_bytes(b.data));
    field_round_trip(a.data, Seq::empty());
    field_round_trip(b.data, Seq::empty());
    assert(field_bytes(a.data) + Seq::<u8>::empty() =~= field_bytes(a.data));
    assert(field_bytes(b.data) + Seq::<u8>::empty() =~= field_bytes(b.data));
}

/// Lays out a time stamp, a label and data in `out`.
pub(crate) fn lay_out_raw(timestamp: u64, label: &String, data: &Vec<u8>) -> (r: Result<Vec<u8>, CodecError>)
    ensures
        match r {
            Ok(bytes) => bytes@ == raw_bytes(RawMessageView { timestamp, label: label@, data: data@ })
                && raw_fits(RawMessageView { timestamp, label: label@, data: data@ }),
            Err(e) => e == CodecError::TooLarge && !raw_fits(
                RawMessageView { timestamp, label: label@, data: data@ },
            ),
        },
{
    let text = label.as_str().as_bytes();
    assert(text@ == encode_utf8(label@));
    if text.len() > MAX_PART_SIZE || data.len() > MAX_PART_SIZE {
        return Err(CodecError::TooLarge);
    }
    let mut out = u64_to_le_bytes(timestamp);
    append_field(&mut out, text);
    append_field(&mut out, data.as_slice());
    Ok(out)
}

impl RawEphemeraMessage {
    /// The raw message with the given time stamp, in milliseconds since the
    /// Unix epoch.
    pub fn at(label: String, data: Vec<u8>, timestamp: u64) -> (m: RawEphemeraMessage)
        ensures
            m@ == raw_view(timestamp, label@, data@),
    {
        RawEphemeraMessage { timestamp, label, data }
    }

    /// A raw message with the present time of the wall clock in
    /// milliseconds as its time stamp.
    pub fn new(label: String, data: Vec<u8>) -> (m: RawEphemeraMessage)
        ensures
            m@.label == label@,
            m@.data == data@,
    {
        RawEphemeraMessage::at(label, data, now_millis())
    }

    /// The layout of the message. A label or data of more than
    /// `MAX_PART_SIZE` bytes has none.
    pub fn encode(&self) -> (r: Result<Vec<u8>, CodecError>)
        ensures
            match r {
                Ok(bytes) => bytes@ == raw_bytes(self@) && raw_fits(self@),
                Err(e) => e == CodecError::TooLarge && !raw_fits(self@),
            },
    {
        lay_out_raw(self.timestamp, &self.label, &self.data)
    }
}

/// A signed message as the library reads it.
pub struct SignedMessageView {
    pub raw: RawMessageView,
    pub signature: Seq<u8>,
    pub public_key: Seq<u8>,
}

/// A message with the certificate of its sender.
#[derive(Debug, Clone, PartialEq)]
pub struct EphemeraMessage {
    pub timestamp: u64,
    /// The logical identifier the application gives the message.
    pub label: String,
    /// The data of the application.
    pub data: Vec<u8>,
    /// The signature of the raw message.
    pub certificate: Certificate,
}

impl View for EphemeraMessage {
    type V = SignedMessageView;

    open spec fn view(&self) -> SignedMessageView {
        SignedMessageView {
            raw: RawMessageView { timestamp: self.timestamp, label: self.label@, data: self.data@ },
            signature: self.certificate.signature@,
            public_key: self.certificate.public_key@,
        }
    }
}

impl From<EphemeraMessage> for RawEphemeraMessage {
    fn from(message: EphemeraMessage) -> (raw: RawEphemeraMessage) {
        RawEphemeraMessage { timestamp: message.timestamp, label: message.label, data: message.data }
    }
}

impl vstd::std_specs::convert::FromSpecImpl<EphemeraMessage> for RawEphemeraMessage {
    open spec fn obeys_from_spec() -> bool {
        true
    }

    open spec fn from_spec(message: EphemeraMessage) -> RawEphemeraMessage {
        RawEphemeraMessage { timestamp: message.timestamp, label: message.label, data: message.data }
    }
}

/// Why a message could not be made or laid out.
#[derive(Debug, Clone, Copy, PartialEq, Eq, Structural)]
pub enum MessageError {
    /// The label or the data is too large.
    TooLarge,
    /// The key pair gave no signature.
    Signing,
}

/// The layout of a signed message.
pub open spec fn signed_bytes(m: SignedMessageView) -> Seq<u8> {
    raw_bytes(m.raw) + field_bytes(m.signature) + field_bytes(m.public_key)
}

/// Can the signed message be laid out?
pub open spec fn signed_fits(m: SignedMessageView) -> bool {
    raw_fits(m.raw) && m.signature.len() <= MAX_PART_SIZE && m.public_key.len() <= MAX_PART_SIZE
}

/// The signed message bytes are the layout of, if they are one.
pub open spec fn parse_signed(bytes: Seq<u8>) -> Option<SignedMessageView> {
    if bytes.len() < 8 {
        None
    } else {
        match parse_field(bytes.skip(8)) {
            Some((label, a)) => match parse_field(bytes.skip((8 + a) as int)) {
                Some((data, b)) => match parse_field(bytes.skip((8 + a + b) as int)) {
                    Some((signature, c)) => match parse_field(bytes.skip((8 + a + b + c) as int)) {
                        Some((public_key, d)) => if 8 + a + b + c + d == bytes.len() && valid_utf8(
                            label,
                        ) {
                            Some(
                                SignedMessageView {
                                    raw: RawMessageView {
                                        timestamp: spec_u64_from_le_bytes(bytes.subrange(0, 8)),
                                        label: decode_utf8(label),
                                        data,
                                    },
                                    signature,
                                    public_key,
                                },
                            )
                        } else {
                            None
                        },
                        None => None,
                    },
                    None => None,
                },
                None => None,
            },
            None => None,
        }
    }
}

/// A signed message that was laid out is read back as it was.
pub proof fn signed_round_trip(m: SignedMessageView)
    requires
        signed_fits(m),
    ensures
        parse_signed(signed_bytes(m)) == Some(m),
{
    lemma_auto_spec_u64_to_from_le_bytes();
    let bytes = signed_bytes(m);
    let label = encode_utf8(m.raw.label);
    let f1 = field_bytes(label);
    let f2 = field_bytes(m.raw.data);
    let f3 = field_bytes(m.signature);
    let f4 = field_bytes(m.public_key);
    assert(bytes.subrange(0, 8) =~= spec_u64_to_le_bytes(m.raw.timestamp));
    assert(bytes.skip(8) =~= f1 + (f2 + f3 + f4));
    field_round_trip(label, f2 + f3 + f4);
    let a = f1.len() as int;
    assert(bytes.skip(8 + a) =~= f2 + (f3 + f4));
    field_round_trip(m.raw.data, f3 + f4);
    let b = f2.len() as int;
    assert(bytes.skip(8 + a + b) =~= f3 + f4);
    field_round_trip(m.signature, f4);
    let c = f3.len() as int;
    assert(bytes.skip(8 + a + b + c) =~= f4 + Seq::<u8>::empty());
    field_round_trip(m.public_key, Seq::empty());
    encode_utf8_valid_utf8(m.raw.label);
    encode_utf8_decode_utf8(m.raw.label);
}

impl EphemeraMessage {
    /// The raw message with the certificate.
    pub fn new(raw_message: RawEphemeraMessage, certificate: Certificate) -> (m: EphemeraMessage)
        ensures
            m@.raw == raw_message@,
            m.certificate == certificate,
    {
        EphemeraMessage {
            timestamp: raw_message.timestamp,
            label: raw_message.label,
            data: raw_message.data,
            certificate,
        }
    }

    /// The message with the given time stamp, signed with the key pair. The
    /// certificate verifies the layout of the raw message. There is none
    /// where a part is too large or the key pair gives no signature.
    pub fn signed_at(label: String, data: Vec<u8>, keypair: &Keypair, timestamp: u64) -> (r: Result<
        EphemeraMessage,
        MessageError,
    >)
        ensures
            ({
                let raw = raw_view(timestamp, label@, data@);
                match r {
                    Ok(m) => {
                        &&& m@.raw == raw
                        &&& raw_fits(raw)
                        &&& signature_of(keypair@, raw_bytes(raw)) == Some(m@.signature)
                        &&& public_of(keypair@) == Some(m@.public_key)
                        &&& signature_valid(m@.public_key, raw_bytes(raw), m@.signature)
                    },
                    Err(MessageError::TooLarge) => !raw_fits(raw),
                    Err(MessageError::Signing) => raw_fits(raw) && signature_of(
                        keypair@,
                        raw_bytes(raw),
                    ).is_none(),
                }
            }),
    {
        let raw_message = RawEphemeraMessage::at(label, data, timestamp);
        let encoded = match raw_message.encode() {
            Ok(bytes) => bytes,
            Err(_) => {
                return Err(MessageError::TooLarge);
            },
        };
        match Certificate::prepare(keypair, encoded.as_slice()) {
            Ok(certificate) => Ok(EphemeraMessage::new(raw_message, certificate)),
            Err(_) => Err(MessageError::Signing),
        }
    }

    /// A message with the present time as its time stamp, signed with the
    /// key pair. The certificate verifies the layout of the raw message.
    /// There is none where a part is too large or the key pair gives no
    /// signature.
    pub fn signed(label: String, data: Vec<u8>, keypair: &Keypair) -> (r: Result<
        EphemeraMessage,
        MessageError,
    >)
        ensures
            exists|timestamp: u64|
                {
                    let raw = #[trigger] raw_view(timestamp, label@, data@);
                    match r {
                        Ok(m) => {
                            &&& m@.raw == raw
                            &&& raw_fits(raw)
                            &&& signature_of(keypair@, raw_bytes(raw)) == Some(m@.signature)
                            &&& public_of(keypair@) == Some(m@.public_key)
                            &&& signature_valid(m@.public_key, raw_bytes(raw), m@.signature)
                        },
                        Err(MessageError::TooLarge) => !raw_fits(raw),
                        Err(MessageError::Signing) => raw_fits(raw) && signature_of(
                            keypair@,
                            raw_bytes(raw),
                        ).is_none(),
                    }
                },
    {
        let timestamp = now_millis();
        let r = EphemeraMessage::signed_at(label, data, keypair, timestamp);
        assert(raw_view(timestamp, label@, data@) == raw_view(timestamp, label@, data@));
        r
    }

    /// Does the certificate verify the layout of the raw message?
    pub fn verify(&self) -> (r: Result<bool, CodecError>)
        ensures
            match r {
                Ok(valid) => raw_fits(self@.raw) && valid == signature_valid(
                    self@.public_key,
                    raw_bytes(self@.raw),
                    self@.signature,
                ),
                Err(e) => e == CodecError::TooLarge && !raw_fits(self@.raw),
            },
    {
        match lay_out_raw(self.timestamp, &self.label, &self.data) {
            Ok(bytes) => Ok(self.certificate.verify(bytes.as_slice())),
            Err(e) => Err(e),
        }
    }

    /// The layout of the message. A message with a part of more than
    /// `MAX_PART_SIZE` bytes has none.
    pub fn encode(&self) -> (r: Result<Vec<u8>, CodecError>)
        ensures
            match r {
                Ok(bytes) => bytes@ == signed_bytes(self@) && signed_fits(self@),
                Err(e) => e == CodecError::TooLarge && !signed_fits(self@),
            },
    {
        let mut out = match lay_out_raw(self.timestamp, &self.label, &self.data) {
            Ok(bytes) => bytes,
            Err(e) => {
                return Err(e);
            },
        };
        if self.certificate.signature.0.len() > MAX_PART_SIZE || self.certificate.public_key.0.len()
            > MAX_PART_SIZE {
            return Err(CodecError::TooLarge);
        }
        append_field(&mut out, self.certificate.signature.0.as_slice());
        append_field(&mut out, self.certificate.public_key.0.as_slice());
        Ok(out)
    }

    /// The message bytes are the layout of. Bytes that are laid out
    /// otherwise are refused.
    pub fn decode(bytes: &[u8]) -> (r: Result<EphemeraMessage, CodecError>)
        ensures
            match parse_signed(bytes@) {
                Some(m) => r.is_ok() && r.unwrap()@ == m,
                None => r.is_err() && r.unwrap_err() == CodecError::Malformed,
            },
    {
        if bytes.len() < 8 {
            return Err(CodecError::Malformed);
        }
        let timestamp = u64_from_le_bytes(slice_subrange(bytes, 0, 8));
        let s1 = slice_subrange(bytes, 8, bytes.len());
        assert(s1@ =~= bytes@.skip(8));
        let (label_bytes, a) = match read_field(s1) {
            Some(found) => found,
            None => {
                return Err(CodecError::Malformed);
            },
        };
        let s2 = slice_subrange(bytes, 8 + a, bytes.len());
        assert(s2@ =~= bytes@.skip(8 + a));
        let (data, b) = match read_field(s2) {
            Some(found) => found,
            None => {
                return Err(CodecError::Malformed);
            },
        };
        let s3 = slice_subrange(bytes, 8 + a + b, bytes.len());
        assert(s3@ =~= bytes@.skip(8 + a + b));
        let (signature, c) = match read_field(s3) {
            Some(found) => found,
            None => {
                return Err(CodecError::Malformed);
            },
        };
        let s4 = slice_subrange(bytes, 8 + a + b + c, bytes.len());
        assert(s4@ =~= bytes@.skip(8 + a + b + c));
        let (public_key, d) = match read_field(s4) {
            Some(found) => found,
            None => {
                return Err(CodecError::Malformed);
            },
        };
        if d != s4.len() {
            return Err(CodecError::Malformed);
        }
        let label = match string_from_utf8(label_bytes) {
            Some(text) => text,
            None => {
                return Err(CodecError::Malformed);
            },
        };
        Ok(
            EphemeraMessage {
                timestamp,
                label,
                data,
                certificate: Certificate {
                    signature: Signature(signature),
                    public_key: PublicKey(public_key),
                },
            },
        )
    }
}

} // verus!
