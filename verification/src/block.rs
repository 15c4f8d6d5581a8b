//! Blocks of signed messages, as the node stores them.

use crate::clock::now_millis;
use crate::peer::PeerId;
use vstd::prelude::*;

verus! {

/// A signature and the public key to verify it with, both in hex.
#[derive(Debug, Clone, PartialEq)]
pub struct Signature {
    pub signature: String,
    pub public_key: String,
}

/// A message of a client with its signature.
#[derive(Debug, Clone, PartialEq)]
pub struct SignedMessage {
    pub id: String,
    pub timestamp: u128,
    pub data: String,
    pub signature: Signature,
}

impl SignedMessage {
    /// The message with the given time stamp, in milliseconds since the Unix
    /// epoch.
    pub fn at(id: String, data: String, signature: Signature, timestamp: u128) -> (m:
        SignedMessage)
        ensures
            m.id == id,
            m.data == data,
            m.signature == signature,
            m.timestamp == timestamp,
    {
        SignedMessage { id, timestamp, data, signature }
    }

    /// The message with the present time of the wall clock in milliseconds
    /// as its time stamp.
    pub fn new(id: String, data: String, signature: Signature) -> (m: SignedMessage)
        ensures
            m.id == id,
            m.data == data,
            m.signature == signature,
    {
        SignedMessage::at(id, data, signature, now_millis() as u128)
    }
}

/// What identifies a block.
#[derive(Debug, Clone, PartialEq)]
pub struct BlockHeader {
    pub id: String,
    pub timestamp: u128,
    pub creator: PeerId,
    pub height: u64,
}

/// A block: its header, the messages it holds, and the signature of its
/// creator.
#[derive(Debug, Clone, PartialEq)]
pub struct Block {
    pub header: BlockHeader,
    pub signed_messages: Vec<SignedMessage>,
    pub signature: Signature,
}

} // verus!
