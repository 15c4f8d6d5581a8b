//! The types of the client interface, and how they map to those of the node.

use crate::block::{Block, Signature, SignedMessage};
use crate::clock::now_millis;
use crate::peer::PeerId;
use vstd::prelude::*;

verus! {

/// A signature and the public key to verify it with, both in hex format.
#[derive(Debug, Clone, PartialEq)]
pub struct ApiSignature {
    /// Signature in hex format
    pub signature: String,
    /// Public key in hex format
    pub public_key: String,
}

impl ApiSignature {
    pub fn new(signature: String, public_key: String) -> (s: Self)
        ensures
            s.signature == signature,
            s.public_key == public_key,
    {
        Self { signature, public_key }
    }
}

impl From<Signature> for ApiSignature {
    fn from(signature: Signature) -> (api: Self) {
        Self { signature: signature.signature, public_key: signature.public_key }
    }
}

impl vstd::std_specs::convert::FromSpecImpl<Signature> for ApiSignature {
    open spec fn obeys_from_spec() -> bool {
        true
    }

    open spec fn from_spec(signature: Signature) -> Self {
        Self { signature: signature.signature, public_key: signature.public_key }
    }
}

impl From<ApiSignature> for Signature {
    fn from(value: ApiSignature) -> (signature: Self) {
        Signature { signature: value.signature, public_key: value.public_key }
    }
}

impl vstd::std_specs::convert::FromSpecImpl<ApiSignature> for Signature {
    open spec fn obeys_from_spec() -> bool {
        true
    }

    open spec fn from_spec(value: ApiSignature) -> Self {
        Signature { signature: value.signature, public_key: value.public_key }
    }
}

/// What of a message is signed: its id and its data.
#[derive(Debug, Clone, PartialEq)]
pub struct ApiRawMessage {
    pub request_id: String,
    pub data: String,
}

impl ApiRawMessage {
    pub fn new(request_id: String, data: String) -> (m: Self)
        ensures
            m.request_id == request_id,
            m.data == data,
    {
        Self { request_id, data }
    }
}

/// A message of a client with its signature.
#[derive(Debug, Clone, PartialEq)]
pub struct ApiSignedMessage {
    pub request_id: String,
    pub timestamp: u128,
    pub data: String,
    pub signature: ApiSignature,
}

impl ApiSignedMessage {
    /// The message with the given time stamp, in milliseconds since the Unix
    /// epoch.
    pub fn at(request_id: String, data: String, signature: ApiSignature, timestamp: u128) -> (m:
        Self)
        ensures
            m.request_id == request_id,
            m.data == data,
            m.signature == signature,
            m.timestamp == timestamp,
    {
        Self { request_id, timestamp, data, signature }
    }

    /// The message with the present time of the wall clock in milliseconds
    /// as its time stamp.
    pub fn new(request_id: String, data: String, signature: ApiSignature) -> (m: Self)
        ensures
            m.request_id == request_id,
            m.data == data,
            m.signature == signature,
    {
        Self::at(request_id, data, signature, now_millis() as u128)
    }

    /// What of the message is signed.
    pub fn into_raw_message(self) -> (raw: ApiRawMessage)
        ensures
            raw.request_id == self.request_id,
            raw.data == self.data,
    {
        ApiRawMessage { request_id: self.request_id, data: self.data }
    }

    /// The message as the node stores it. It gets the present time as its
    /// time stamp.
    pub fn into_signed_message(self) -> (m: SignedMessage)
        ensures
            m.id == self.request_id,
            m.data == self.data,
            m.signature.signature == self.signature.signature,
            m.signature.public_key == self.signature.public_key,
    {
        SignedMessage::new(
            self.request_id,
            self.data,
            Signature { signature: self.signature.signature, public_key: self.signature.public_key },
        )
    }

    /// A copy of the message.
    pub fn duplicate(&self) -> (copy: Self)
        ensures
            same_api_message(copy, *self),
    {
        Self {
            request_id: self.request_id.clone(),
            timestamp: self.timestamp,
            data: self.data.clone(),
            signature: ApiSignature {
                signature: self.signature.signature.clone(),
                public_key: self.signature.public_key.clone(),
            },
        }
    }
}

impl From<ApiSignedMessage> for SignedMessage {
    fn from(signed_message: ApiSignedMessage) -> (m: Self) {
        signed_message.into_signed_message()
    }
}

impl vstd::std_specs::convert::FromSpecImpl<ApiSignedMessage> for SignedMessage {
    /// The time stamp is that of the moment of the conversion: the result
    /// is no function of the argument.
    open spec fn obeys_from_spec() -> bool {
        false
    }

    open spec fn from_spec(signed_message: ApiSignedMessage) -> Self {
        arbitrary()
    }
}

impl From<SignedMessage> for ApiSignedMessage {
    fn from(signed_message: SignedMessage) -> (m: Self) {
        Self {
            request_id: signed_message.id,
            timestamp: signed_message.timestamp,
            data: signed_message.data,
            signature: ApiSignature {
                signature: signed_message.signature.signature,
                public_key: signed_message.signature.public_key,
            },
        }
    }
}

impl vstd::std_specs::convert::FromSpecImpl<SignedMessage> for ApiSignedMessage {
    open spec fn obeys_from_spec() -> bool {
        true
    }

    open spec fn from_spec(signed_message: SignedMessage) -> Self {
        Self {
            request_id: signed_message.id,
            timestamp: signed_message.timestamp,
            data: signed_message.data,
            signature: ApiSignature {
                signature: signed_message.signature.signature,
                public_key: signed_message.signature.public_key,
            },
        }
    }
}

/// Do the two messages say the same?
pub open spec fn same_api_message(a: ApiSignedMessage, b: ApiSignedMessage) -> bool {
    &&& a.request_id@ == b.request_id@
    &&& a.timestamp == b.timestamp
    &&& a.data@ == b.data@
    &&& a.signature.signature@ == b.signature.signature@
    &&& a.signature.public_key@ == b.signature.public_key@
}

/// Does the message of the client interface say what the stored one says?
pub open spec fn api_of_message(api: ApiSignedMessage, m: SignedMessage) -> bool {
    &&& api.request_id@ == m.id@
    &&& api.timestamp == m.timestamp
    &&& api.data@ == m.data@
    &&& api.signature.signature@ == m.signature.signature@
    &&& api.signature.public_key@ == m.signature.public_key@
}

/// What identifies a block.
#[derive(Debug, Clone, PartialEq)]
pub struct ApiBlockHeader {
    pub id: String,
    pub timestamp: u128,
    pub creator: PeerId,
    pub height: u64,
}

impl ApiBlockHeader {
    /// A copy of the header.
    pub fn duplicate(&self) -> (copy: Self)
        ensures
            same_header(copy, *self),
    {
        Self {
            id: self.id.clone(),
            timestamp: self.timestamp,
            creator: PeerId(self.creator.0.clone()),
            height: self.height,
        }
    }
}

/// Do the two headers say the same?
pub open spec fn same_header(a: ApiBlockHeader, b: ApiBlockHeader) -> bool {
    &&& a.id@ == b.id@
    &&& a.timestamp == b.timestamp
    &&& a.creator@ == b.creator@
    &&& a.height == b.height
}

/// Raw block represents all the data what will be signed
#[derive(Debug, Clone, PartialEq)]
pub struct ApiRawBlock {
    pub header: ApiBlockHeader,
    pub signed_messages: Vec<ApiSignedMessage>,
}

impl ApiRawBlock {
    pub fn new(header: ApiBlockHeader, signed_messages: Vec<ApiSignedMessage>) -> (b: Self)
        ensures
            b.header == header,
            b.signed_messages == signed_messages,
    {
        Self { header, signed_messages }
    }
}

/// A block with the signature of its creator.
#[derive(Debug, Clone, PartialEq)]
pub struct ApiBlock {
    pub header: ApiBlockHeader,
    pub signed_messages: Vec<ApiSignedMessage>,
    pub signature: ApiSignature,
}

impl ApiBlock {
    /// What of the block is signed: the header and the messages.
    pub fn as_raw_block(&self) -> (raw: ApiRawBlock)
        ensures
            same_header(raw.header, self.header),
            raw.signed_messages@.len() == self.signed_messages@.len(),
            forall|i: int|
                0 <= i < raw.signed_messages@.len() ==> same_api_message(
                    #[trigger] raw.signed_messages@[i],
                    self.signed_messages@[i],
                ),
    {
        let mut messages: Vec<ApiSignedMessage> = Vec::new();
        let mut i: usize = 0;
        while i < self.signed_messages.len()
            invariant
                i <= self.signed_messages.len(),
                messages@.len() == i,
                forall|j: int|
                    0 <= j < i ==> same_api_message(
                        #[trigger] messages@[j],
                        self.signed_messages@[j],
                    ),
            decreases self.signed_messages.len() - i,
        {
            messages.push(self.signed_messages[i].duplicate());
            i += 1;
        }
        ApiRawBlock { header: self.header.duplicate(), signed_messages: messages }
    }

    /// The block of the node in the types of the client interface: the same
    /// header, the same messages in the same order, the same signature.
    pub fn from_block(block: Block) -> (api: ApiBlock)
        ensures
            api.header.id == block.header.id,
            api.header.timestamp == block.header.timestamp,
            api.header.creator == block.header.creator,
            api.header.height == block.header.height,
            api.signature.signature == block.signature.signature,
            api.signature.public_key == block.signature.public_key,
            api.signed_messages@.len() == block.signed_messages@.len(),
            forall|i: int|
                0 <= i < api.signed_messages@.len() ==> api_of_message(
                    #[trigger] api.signed_messages@[i],
                    block.signed_messages@[i],
                ),
    {
        let mut messages: Vec<ApiSignedMessage> = Vec::new();
        let mut i: usize = 0;
        while i < block.signed_messages.len()
            invariant
                i <= block.signed_messages.len(),
                messages@.len() == i,
                forall|j: int|
                    0 <= j < i ==> api_of_message(
                        #[trigger] messages@[j],
                        block.signed_messages@[j],
                    ),
            decreases block.signed_messages.len() - i,
        {
            let m = &block.signed_messages[i];
            messages.push(
                ApiSignedMessage {
                    request_id: m.id.clone(),
                    timestamp: m.timestamp,
                    data: m.data.clone(),
                    signature: ApiSignature {
                        signature: m.signature.signature.clone(),
                        public_key: m.signature.public_key.clone(),
                    },
                },
            );
            i += 1;
        }
        ApiBlock {
            header: ApiBlockHeader {
                id: block.header.id,
                timestamp: block.header.timestamp,
                creator: block.header.creator,
                height: block.header.height,
            },
            signed_messages: messages,
            signature: ApiSignature {
                signature: block.signature.signature,
                public_key: block.signature.public_key,
            },
        }
    }
}

impl From<Block> for ApiBlock {
    fn from(block: Block) -> (api: Self) {
        ApiBlock::from_block(block)
    }
}

impl vstd::std_specs::convert::FromSpecImpl<Block> for ApiBlock {
    /// The conversion is stated by `from_block`, over the contents of the
    /// two lists of messages.
    open spec fn obeys_from_spec() -> bool {
        false
    }

    open spec fn from_spec(block: Block) -> Self {
        arbitrary()
    }
}

/// A key pair in hex format.
#[derive(Debug, Clone, PartialEq)]
pub struct ApiKeypair {
    pub public_key: String,
    pub private_key: String,
}

impl ApiKeypair {
    pub fn new(public_key: String, private_key: String) -> (k: Self)
        ensures
            k.public_key == public_key,
            k.private_key == private_key,
    {
        Self { public_key, private_key }
    }
}

} // verus!
