//! Keys and signatures.
//!
//! The keys are those of libp2p. The library holds a key as the bytes of its
//! protobuf encoding and asks libp2p for everything that reads them.

use crate::peer::{PeerId, ToPeerId};
use vstd::prelude::*;

verus! {

/// The encoded public key of the key pair with the given encoding, as
/// libp2p derives it; `None` where the bytes encode no key pair.
pub uninterp spec fn public_of(keypair: Seq<u8>) -> Option<Seq<u8>>;

/// The signature of `msg` under the key pair with the given encoding, as
/// libp2p computes it; `None` where it computes none.
pub uninterp spec fn signature_of(keypair: Seq<u8>, msg: Seq<u8>) -> Option<Seq<u8>>;

/// Does libp2p accept `signature` as a signature of `msg` under the public
/// key with the given encoding?
pub uninterp spec fn signature_valid(public_key: Seq<u8>, msg: Seq<u8>, signature: Seq<u8>) -> bool;

/// The base-58 text of the peer id of the public key with the given
/// encoding; `None` where the bytes encode no public key.
pub uninterp spec fn peer_id_of(public_key: Seq<u8>) -> Option<Seq<char>>;

/// The encoded public key of the key pair with the given encoding; no bytes
/// where the bytes encode no key pair.
pub open spec fn public_bytes(keypair: Seq<u8>) -> Seq<u8> {
    match public_of(keypair) {
        Some(bytes) => bytes,
        None => Seq::empty(),
    }
}

/// The view of bytes that may be missing.
pub open spec fn bytes_view(bytes: Option<Vec<u8>>) -> Option<Seq<u8>> {
    match bytes {
        Some(b) => Some(b@),
        None => None,
    }
}

/// Draws an Ed25519 key pair with `libp2p_identity::Keypair::generate_ed25519`
/// and encodes it with `to_protobuf_encoding`. The key is random: nothing is
/// claimed of its bytes.
#[verifier::external_body]
fn generate_ed25519() -> Vec<u8> {
    libp2p_identity::Keypair::generate_ed25519().to_protobuf_encoding().unwrap_or_default()
}

/// `libp2p_identity::Keypair::public`, on a key pair decoded with
/// `from_protobuf_encoding`, the result encoded with `encode_protobuf`.
#[verifier::external_body]
fn public_key_of(keypair: &[u8]) -> (public_key: Option<Vec<u8>>)
    ensures
        bytes_view(public_key) == public_of(keypair@),
{
    match libp2p_identity::Keypair::from_protobuf_encoding(keypair) {
        Ok(pair) => Some(pair.public().encode_protobuf()),
        Err(_) => None,
    }
}

/// `libp2p_identity::Keypair::sign`, on a key pair decoded with
/// `from_protobuf_encoding`. As its documentation says, the signature it
/// produces can be verified with the public key of the pair.
#[verifier::external_body]
fn sign_with(keypair: &[u8], msg: &[u8]) -> (signature: Option<Vec<u8>>)
    ensures
        bytes_view(signature) == signature_of(keypair@, msg@),
        match signature {
            Some(s) => match public_of(keypair@) {
                Some(public_key) => signature_valid(public_key, msg@, s@),
                None => false,
            },
            None => true,
        },
{
    match libp2p_identity::Keypair::from_protobuf_encoding(keypair) {
        Ok(pair) => pair.sign(msg).ok(),
        Err(_) => None,
    }
}

/// `libp2p_identity::PublicKey::verify`, on a key decoded with
/// `try_decode_protobuf`. Bytes that encode no key verify nothing.
#[verifier::external_body]
fn verify_with(public_key: &[u8], msg: &[u8], signature: &[u8]) -> (valid: bool)
    ensures
        valid == signature_valid(public_key@, msg@, signature@),
{
    match libp2p_identity::PublicKey::try_decode_protobuf(public_key) {
        Ok(key) => key.verify(msg, signature),
        Err(_) => false,
    }
}

/// `libp2p_identity::PublicKey::to_peer_id`, on a key decoded with
/// `try_decode_protobuf`, the id rendered with `to_base58`.
#[verifier::external_body]
fn peer_id_text(public_key: &[u8]) -> (text: Option<String>)
    ensures
        match text {
            Some(t) => peer_id_of(public_key@) == Some(t@),
            None => peer_id_of(public_key@).is_none(),
        },
{
    match libp2p_identity::PublicKey::try_decode_protobuf(public_key) {
        Ok(key) => Some(key.to_peer_id().to_base58()),
        Err(_) => None,
    }
}

/// A signature: the bytes libp2p produced.
#[derive(Debug, Clone, PartialEq, Eq)]
pub struct Signature(pub Vec<u8>);

impl View for Signature {
    type V = Seq<u8>;

    open spec fn view(&self) -> Seq<u8> {
        self.0@
    }
}

/// A public key, by the bytes of its protobuf encoding.
#[derive(Debug, Clone, PartialEq, Eq)]
pub struct PublicKey(pub Vec<u8>);

impl View for PublicKey {
    type V = Seq<u8>;

    open spec fn view(&self) -> Seq<u8> {
        self.0@
    }
}

impl PublicKey {
    /// Is `signature` a signature of `msg` under this key?
    pub fn verify(&self, msg: &[u8], signature: &Signature) -> (valid: bool)
        ensures
            valid == signature_valid(self@, msg@, signature@),
    {
        verify_with(self.0.as_slice(), msg, signature.0.as_slice())
    }
}

impl ToPeerId for PublicKey {
    /// The peer id of the key. Bytes that encode no key have the id with
    /// the empty text.
    fn peer_id(&self) -> (id: PeerId)
        ensures
            id@ == match peer_id_of(self@) {
                Some(text) => text,
                None => Seq::<char>::empty(),
            },
    {
        match peer_id_text(self.0.as_slice()) {
            Some(text) => PeerId(text),
            None => PeerId(String::new()),
        }
    }
}

/// Why a key pair gave no signature.
#[derive(Debug, Clone, Copy, PartialEq, Eq, Structural)]
pub enum KeyError {
    /// libp2p produced no signature with these key bytes.
    Signing,
}

/// A key pair, by the bytes of the protobuf encoding of its private key.
#[derive(Debug, Clone)]
pub struct Keypair {
    encoded: Vec<u8>,
}

impl View for Keypair {
    type V = Seq<u8>;

    closed spec fn view(&self) -> Seq<u8> {
        self.encoded@
    }
}

impl Keypair {
    /// A fresh Ed25519 key pair. The key is drawn at random; a seed is taken
    /// for callers that have one and is not used.
    pub fn generate(seed: Option<Vec<u8>>) -> Keypair {
        Keypair { encoded: generate_ed25519() }
    }

    /// The key pair with the given encoding.
    pub fn from_protobuf_encoding(encoded: Vec<u8>) -> (pair: Keypair)
        ensures
            pair@ == encoded@,
    {
        Keypair { encoded }
    }

    /// The public key of the pair. Bytes that encode no key pair have the
    /// public key with no bytes.
    pub fn public_key(&self) -> (key: PublicKey)
        ensures
            key@ == public_bytes(self@),
    {
        match public_key_of(self.encoded.as_slice()) {
            Some(bytes) => PublicKey(bytes),
            None => PublicKey(Vec::new()),
        }
    }

    /// Signs `msg`. Succeeds exactly where libp2p produces a signature; a
    /// signature it produced verifies under the public key of the pair.
    pub fn sign(&self, msg: &[u8]) -> (r: Result<Signature, KeyError>)
        ensures
            match r {
                Ok(signature) => signature_of(self@, msg@) == Some(signature@) && public_of(
                    self@,
                ).is_some() && signature_valid(public_of(self@).unwrap(), msg@, signature@),
                Err(_) => signature_of(self@, msg@).is_none(),
            },
    {
        match sign_with(self.encoded.as_slice(), msg) {
            Some(bytes) => Ok(Signature(bytes)),
            None => Err(KeyError::Signing),
        }
    }

    /// Is `signature` a signature of `msg` under the public key of the pair?
    pub fn verify(&self, msg: &[u8], signature: &Signature) -> (valid: bool)
        ensures
            valid == signature_valid(public_bytes(self@), msg@, signature@),
    {
        self.public_key().verify(msg, signature)
    }
}

impl ToPeerId for Keypair {
    /// The peer id of the public key of the pair.
    fn peer_id(&self) -> (id: PeerId)
        ensures
            id@ == match peer_id_of(public_bytes(self@)) {
                Some(text) => text,
                None => Seq::<char>::empty(),
            },
    {
        self.public_key().peer_id()
    }
}

/// A signature with the public key to verify it with.
#[derive(Debug, Clone, PartialEq, Eq)]
pub struct Certificate {
    pub signature: Signature,
    pub public_key: PublicKey,
}

impl Certificate {
    /// The certificate of `msg` under the key pair: its signature and the
    /// public key of the pair.
    pub fn prepare(keypair: &Keypair, msg: &[u8]) -> (r: Result<Certificate, KeyError>)
        ensures
            match r {
                Ok(certificate) => signature_of(keypair@, msg@) == Some(certificate.signature@)
                    && public_of(keypair@) == Some(certificate.public_key@) && signature_valid(
                    certificate.public_key@,
                    msg@,
                    certificate.signature@,
                ),
                Err(_) => signature_of(keypair@, msg@).is_none(),
            },
    {
        match keypair.sign(msg) {
            Ok(signature) => Ok(Certificate { signature, public_key: keypair.public_key() }),
            Err(e) => Err(e),
        }
    }

    /// Does the certificate verify `msg`?
    pub fn verify(&self, msg: &[u8]) -> (valid: bool)
        ensures
            valid == signature_valid(self.public_key@, msg@, self.signature@),
    {
        self.public_key.verify(msg, &self.signature)
    }
}

} // verus!
