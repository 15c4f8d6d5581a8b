use std::sync::Arc;

use ephemera::application::{Application, ApplicationError, CheckBlockResult, Dummy, SignatureVerificationApplication};
use ephemera::api::{ApiBlock, ApiBlockHeader, ApiSignature};
use ephemera::codec::CodecError;
use ephemera::crypto::{Certificate, Keypair, PublicKey, Signature};
use ephemera::ephemera_message::{EphemeraMessage, MessageError, RawEphemeraMessage};
use ephemera::peer::{PeerId, ToPeerId};

#[test]
fn test_sign_ok() {
    let message_signing_keypair = Keypair::generate(None);

    let message =
        EphemeraMessage::signed("test".to_string(), vec![1, 2, 3], &message_signing_keypair)
            .unwrap();
    let certificate = message.certificate.clone();
    let raw_message: RawEphemeraMessage = message.into();
    let data = raw_message.encode().unwrap();

    assert!(certificate.public_key.verify(&data, &certificate.signature));
}

#[test]
fn test_sign_fail() {
    let message_signing_keypair = Keypair::generate(None);

    let message =
        EphemeraMessage::signed("test".to_string(), vec![1, 2, 3], &message_signing_keypair)
            .unwrap();
    let certificate = message.certificate.clone();

    let modified_message = EphemeraMessage::signed(
        "test_test".to_string(),
        vec![1, 2, 3],
        &message_signing_keypair,
    )
    .unwrap();
    let raw_message: RawEphemeraMessage = modified_message.into();
    let data = raw_message.encode().unwrap();

    assert!(!certificate.public_key.verify(&data, &certificate.signature));
}

#[test]
fn raw_message_layout_is_exact() {
    let raw = RawEphemeraMessage { timestamp: 0x0102030405060708, label: "ab".to_string(), data: vec![9, 8, 7] };
    let bytes = raw.encode().unwrap();
    assert_eq!(bytes, vec![8, 7, 6, 5, 4, 3, 2, 1, 2, b'a', b'b', 3, 9, 8, 7]);
}

#[test]
fn raw_message_with_empty_parts() {
    let raw = RawEphemeraMessage { timestamp: 0, label: String::new(), data: vec![] };
    assert_eq!(raw.encode().unwrap(), vec![0, 0, 0, 0, 0, 0, 0, 0, 0, 0]);
}

#[test]
fn raw_message_too_large_has_no_layout() {
    let raw = RawEphemeraMessage { timestamp: 0, label: "l".to_string(), data: vec![0; 1_048_577] };
    assert_eq!(raw.encode().unwrap_err(), CodecError::TooLarge);
    let edge = RawEphemeraMessage { timestamp: 0, label: "l".to_string(), data: vec![0; 1_048_576] };
    assert_eq!(edge.encode().unwrap().len(), 8 + 2 + 3 + 1_048_576);
    let keypair = Keypair::generate(None);
    let r = EphemeraMessage::signed("l".to_string(), vec![0; 1_048_577], &keypair);
    assert_eq!(r.unwrap_err(), MessageError::TooLarge);
}

#[test]
fn new_raw_message_is_stamped_with_the_present_time() {
    let raw = RawEphemeraMessage::new("label".to_string(), vec![1]);
    assert_eq!(raw.label, "label");
    assert_eq!(raw.data, vec![1]);
    assert!(raw.timestamp > 1_600_000_000_000);
}

#[test]
fn signed_message_round_trip() {
    let keypair = Keypair::generate(None);
    let message = EphemeraMessage::signed("tx".to_string(), vec![1, 2, 3, 4], &keypair).unwrap();
    let bytes = message.encode().unwrap();
    let back = EphemeraMessage::decode(&bytes).unwrap();
    assert_eq!(back, message);
    assert_eq!(back.verify(), Ok(true));
}

#[test]
fn signed_message_layout_is_exact() {
    let message = EphemeraMessage {
        timestamp: 1,
        label: "a".to_string(),
        data: vec![5],
        certificate: Certificate { signature: Signature(vec![6, 7]), public_key: PublicKey(vec![8]) },
    };
    let bytes = message.encode().unwrap();
    assert_eq!(bytes, vec![1, 0, 0, 0, 0, 0, 0, 0, 1, b'a', 1, 5, 2, 6, 7, 1, 8]);
    assert_eq!(EphemeraMessage::decode(&bytes).unwrap(), message);
}

#[test]
fn malformed_signed_messages_are_refused() {
    assert_eq!(EphemeraMessage::decode(&[]).unwrap_err(), CodecError::Malformed);
    assert_eq!(EphemeraMessage::decode(&[0; 7]).unwrap_err(), CodecError::Malformed);
    let good = vec![1, 0, 0, 0, 0, 0, 0, 0, 1, b'a', 1, 5, 2, 6, 7, 1, 8];
    let mut trailing = good.clone();
    trailing.push(0);
    assert_eq!(EphemeraMessage::decode(&trailing).unwrap_err(), CodecError::Malformed);
    assert_eq!(EphemeraMessage::decode(&good[..good.len() - 1]).unwrap_err(), CodecError::Malformed);
    let mut bad_text = good.clone();
    bad_text[9] = 0xff;
    assert_eq!(EphemeraMessage::decode(&bad_text).unwrap_err(), CodecError::Malformed);
}

#[test]
fn new_message_takes_the_parts_of_the_raw_message() {
    let raw = RawEphemeraMessage { timestamp: 7, label: "l".to_string(), data: vec![1] };
    let certificate = Certificate { signature: Signature(vec![1]), public_key: PublicKey(vec![2]) };
    let message = EphemeraMessage::new(raw.clone(), certificate.clone());
    assert_eq!(message.timestamp, 7);
    assert_eq!(message.label, "l");
    assert_eq!(message.data, vec![1]);
    assert_eq!(message.certificate, certificate);
    let back: RawEphemeraMessage = message.into();
    assert_eq!(back, raw);
}

#[test]
fn keypair_signs_and_verifies() {
    let keypair = Keypair::generate(None);
    let signature = keypair.sign(b"hello").unwrap();
    assert_eq!(signature.0.len(), 64);
    assert!(keypair.verify(b"hello", &signature));
    assert!(!keypair.verify(b"hellO", &signature));
    assert!(keypair.public_key().verify(b"hello", &signature));
    let other = Keypair::generate(None);
    assert!(!other.verify(b"hello", &signature));
    assert_ne!(other.public_key(), keypair.public_key());
    assert_eq!(keypair.sign(b"hello").unwrap(), signature);
}

#[test]
fn public_key_is_not_the_private_key() {
    let keypair = Keypair::generate(None);
    let public_key = keypair.public_key();
    assert!(!public_key.0.is_empty());
    assert_eq!(keypair.public_key(), public_key);
    let certificate = Certificate::prepare(&keypair, b"m").unwrap();
    assert_eq!(certificate.public_key, public_key);
    assert!(certificate.verify(b"m"));
    assert!(!certificate.verify(b"n"));
}

#[test]
fn bytes_that_are_no_key() {
    let keypair = Keypair::from_protobuf_encoding(vec![1, 2, 3]);
    assert_eq!(keypair.public_key(), PublicKey(vec![]));
    assert!(keypair.sign(b"m").is_err());
    let real = Keypair::generate(None);
    let signature = real.sign(b"m").unwrap();
    assert!(!PublicKey(vec![1, 2, 3]).verify(b"m", &signature));
    assert!(!real.public_key().verify(b"m", &Signature(vec![1, 2, 3])));
    assert_eq!(PublicKey(vec![1, 2, 3]).peer_id(), PeerId::from_text(String::new()));
}

#[test]
fn peer_id_of_a_key() {
    let keypair = Keypair::generate(None);
    let id = keypair.peer_id();
    assert_eq!(id, keypair.public_key().peer_id());
    assert!(id.to_text().starts_with("12D3KooW"));
    assert_ne!(id.to_text().into_bytes(), keypair.public_key().0);
    assert_ne!(Keypair::generate(None).peer_id(), id);
}

#[test]
fn random_peer_ids_differ() {
    let a = PeerId::random();
    let b = PeerId::random();
    assert!(!a.same(&b));
    assert!(a.same(&a.clone()));
    assert!(!a.to_text().is_empty());
    assert_eq!(PeerId::from_text("x".to_string()).to_text(), "x");
}

#[test]
fn signature_verification_application() {
    let keypair = Keypair::generate(None);
    let message = EphemeraMessage::signed("tx".to_string(), vec![1], &keypair).unwrap();
    let app = SignatureVerificationApplication::new(Arc::new(keypair));
    assert_eq!(app.verify_message(message.clone()), Ok(()));
    assert_eq!(app.check_tx(message.clone()), Ok(true));

    let mut tampered = message.clone();
    tampered.data = vec![2];
    assert_eq!(app.verify_message(tampered.clone()), Err(ApplicationError::InvalidSignature));
    assert_eq!(app.check_tx(tampered), Err(ApplicationError::InvalidSignature));

    let stranger = SignatureVerificationApplication::new(Arc::new(Keypair::generate(None)));
    assert_eq!(stranger.verify_message(message.clone()), Err(ApplicationError::InvalidSignature));

    let mut huge = message;
    huge.data = vec![0; 1_048_577];
    assert_eq!(app.verify_message(huge), Err(ApplicationError::Encoding));
    assert_eq!(ApplicationError::InvalidSignature.message(), "Invalid signature");
}

fn block() -> ApiBlock {
    ApiBlock {
        header: ApiBlockHeader { id: "b".to_string(), timestamp: 1, creator: PeerId::from_text("p".to_string()), height: 2 },
        signed_messages: vec![],
        signature: ApiSignature::new("s".to_string(), "k".to_string()),
    }
}

#[test]
fn applications_accept_blocks() {
    let app = SignatureVerificationApplication::new(Arc::new(Keypair::generate(None)));
    assert_eq!(app.check_block(&block()), Ok(CheckBlockResult::Accept));
    assert_eq!(app.deliver_block(block()), Ok(()));
    let message = EphemeraMessage {
        timestamp: 1,
        label: "a".to_string(),
        data: vec![],
        certificate: Certificate { signature: Signature(vec![]), public_key: PublicKey(vec![]) },
    };
    assert_eq!(Dummy.check_tx(message), Ok(true));
    assert_eq!(Dummy.check_block(&block()), Ok(CheckBlockResult::Accept));
    assert_eq!(Dummy.deliver_block(block()), Ok(()));
}

#[test]
fn raw_and_signed_messages_with_a_given_time_stamp() {
    let raw = RawEphemeraMessage::at("l".to_string(), vec![1], 5);
    assert_eq!(raw, RawEphemeraMessage { timestamp: 5, label: "l".to_string(), data: vec![1] });
    let keypair = Keypair::generate(None);
    let message = EphemeraMessage::signed_at("l".to_string(), vec![1], &keypair, 5).unwrap();
    assert_eq!(message.timestamp, 5);
    assert!(message.certificate.verify(&raw.encode().unwrap()));
    let later = RawEphemeraMessage::at("l".to_string(), vec![1], 6);
    assert!(!message.certificate.verify(&later.encode().unwrap()));
    let too_large = EphemeraMessage::signed_at("l".to_string(), vec![0; 1_048_577], &keypair, 5);
    assert_eq!(too_large.unwrap_err(), MessageError::TooLarge);
    let no_key = Keypair::from_protobuf_encoding(vec![1, 2, 3]);
    let unsigned = EphemeraMessage::signed_at("l".to_string(), vec![1], &no_key, 5);
    assert_eq!(unsigned.unwrap_err(), MessageError::Signing);
}
