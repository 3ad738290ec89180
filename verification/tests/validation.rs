use graphcast::errors::{MessageError, QueryError};
use graphcast::graphql::{get_indexer_stake, Network};
use graphcast::identity::{GraphcastIdentity, RadioPayloadMessage};
use graphcast::ledger::{DedupLedger, NoncesMap, StringMap};
use graphcast::message::GraphcastMessage;
use graphcast::pipeline::{check_message_validity_at, handle_event_at};

fn test_identity() -> GraphcastIdentity {
    GraphcastIdentity::new(vec![1u8; 32]).unwrap()
}

fn good_network() -> Network {
    Network {
        indexer_stake: 1_000_000,
        stake_satisfy_requirement: true,
    }
}

#[test]
fn test_standard_message() {
    let hash: String = "Qmtest".to_string();
    let content: String = "0x0000".to_string();
    let payload: RadioPayloadMessage = RadioPayloadMessage::new(hash.clone(), content.clone());
    let block_number: i64 = 0;
    let block_hash: String = "0xblahh".to_string();

    let identity = test_identity();
    let msg = GraphcastMessage::build(&identity, hash, Some(payload), block_number, block_hash)
        .unwrap();

    assert_eq!(msg.block_number, 0);
    let registry_down = Err(QueryError::RequestError("registry unreachable".to_string()));
    let network_down = Err(QueryError::RequestError("network unreachable".to_string()));
    assert!(msg.valid_sender(registry_down, network_down).is_err());
    assert!(msg.valid_time().is_ok());
    assert!(msg.valid_hash("weeelp".to_string()).is_err());
    assert_eq!(msg.payload.as_ref().unwrap().content_string(), content);
    assert_eq!(msg.recover_sender_address().unwrap(), identity.address());
}

#[test]
fn signature_round_trip_and_tamper() {
    let identity = test_identity();
    let payload = RadioPayloadMessage::new("sg-1".to_string(), "content".to_string());
    let msg = GraphcastMessage::build(
        &identity,
        "sg-1".to_string(),
        Some(payload),
        7,
        "0xhash".to_string(),
    )
    .unwrap();
    let recovered = msg.recover_sender_address().unwrap();
    assert_eq!(recovered, identity.address());

    // altering the payload changes or breaks the recovered address
    let tampered_payload = RadioPayloadMessage::new("sg-1".to_string(), "Content".to_string());
    let tampered = GraphcastMessage::new(
        msg.identifier.clone(),
        Some(tampered_payload),
        msg.nonce,
        7,
        msg.block_hash.clone(),
        msg.signature.clone(),
    );
    match tampered.recover_sender_address() {
        Ok(addr) => assert_ne!(addr, identity.address()),
        Err(e) => assert!(matches!(e, MessageError::MalformedSignature)),
    }

    // altering a byte of the signature breaks parsing or recovers someone
    // else; the first characters belong to the r component
    let sig = msg.signature.clone();
    let first = sig.chars().next().unwrap();
    let flipped = if first == '0' { '1' } else { '0' };
    let replaced = format!("{}{}", flipped, &sig[1..]);
    let resigned = GraphcastMessage::new(
        msg.identifier.clone(),
        msg.payload.clone(),
        msg.nonce,
        7,
        msg.block_hash.clone(),
        replaced,
    );
    match resigned.recover_sender_address() {
        Ok(addr) => assert_ne!(addr, identity.address()),
        Err(e) => assert!(matches!(e, MessageError::MalformedSignature)),
    }
}

#[test]
fn identity_rejects_bad_keys() {
    assert!(matches!(
        GraphcastIdentity::new(vec![1u8; 31]),
        Err(MessageError::SigningError)
    ));
    // the zero scalar is not a valid key
    assert!(matches!(
        GraphcastIdentity::new(vec![0u8; 32]),
        Err(MessageError::SigningError)
    ));
}

#[test]
fn no_payload_cannot_be_attributed() {
    let msg = GraphcastMessage::new(
        "sg-1".to_string(),
        None,
        10,
        0,
        "h".to_string(),
        "sig".to_string(),
    );
    assert!(matches!(
        msg.recover_sender_address(),
        Err(MessageError::NoPayload)
    ));
}

#[test]
fn junk_signature_is_malformed() {
    let payload = RadioPayloadMessage::new("sg-1".to_string(), "c".to_string());
    let msg = GraphcastMessage::new(
        "sg-1".to_string(),
        Some(payload),
        10,
        0,
        "h".to_string(),
        "not-a-signature".to_string(),
    );
    assert!(matches!(
        msg.recover_sender_address(),
        Err(MessageError::MalformedSignature)
    ));
}

#[test]
fn freshness_boundaries() {
    let payload = RadioPayloadMessage::new("sg-1".to_string(), "c".to_string());
    let now: i64 = 1_700_000_000;
    let msg = |nonce: i64| {
        GraphcastMessage::new(
            "sg-1".to_string(),
            Some(RadioPayloadMessage::new(
                payload.identifier.clone(),
                payload.content.clone(),
            )),
            nonce,
            0,
            "h".to_string(),
            "sig".to_string(),
        )
    };
    // age zero is accepted
    assert!(msg(now).valid_time_at(now).is_ok());
    // just inside the window
    assert!(msg(now - 3599).valid_time_at(now).is_ok());
    // exactly the replay window old: rejected
    assert!(matches!(
        msg(now - 3600).valid_time_at(now),
        Err(MessageError::StaleOrFutureMessage)
    ));
    // future-dated: rejected
    assert!(matches!(
        msg(now + 1).valid_time_at(now),
        Err(MessageError::StaleOrFutureMessage)
    ));
}

#[test]
fn hash_agreement() {
    let payload = RadioPayloadMessage::new("sg-1".to_string(), "c".to_string());
    let msg = GraphcastMessage::new(
        "sg-1".to_string(),
        Some(payload),
        10,
        5,
        "0xdeadbeef".to_string(),
        "sig".to_string(),
    );
    assert!(msg.valid_hash("0xdeadbeef".to_string()).is_ok());
    assert!(matches!(
        msg.valid_hash("0xfeedface".to_string()),
        Err(MessageError::HashMismatch)
    ));
}

#[test]
fn unauthorized_when_stake_does_not_satisfy() {
    let identity = test_identity();
    let payload = RadioPayloadMessage::new("sg-1".to_string(), "c".to_string());
    let msg = GraphcastMessage::build(
        &identity,
        "sg-1".to_string(),
        Some(payload),
        0,
        "h".to_string(),
    )
    .unwrap();
    let poor = Network {
        indexer_stake: 5,
        stake_satisfy_requirement: false,
    };
    assert!(matches!(
        msg.valid_sender(Ok("indexer-1".to_string()), Ok(poor)),
        Err(MessageError::UnauthorizedSender)
    ));
    assert!(msg
        .valid_sender(Ok("indexer-1".to_string()), Ok(good_network()))
        .is_ok());
}

#[test]
fn upstream_failure_is_not_authorization() {
    let identity = test_identity();
    let payload = RadioPayloadMessage::new("sg-1".to_string(), "c".to_string());
    let msg = GraphcastMessage::build(
        &identity,
        "sg-1".to_string(),
        Some(payload),
        0,
        "h".to_string(),
    )
    .unwrap();
    let down = Err(QueryError::RequestError("timeout".to_string()));
    assert!(matches!(
        msg.valid_sender(down, Ok(good_network())),
        Err(MessageError::UpstreamQueryError(QueryError::RequestError(_)))
    ));
}

#[test]
fn network_stake_is_readable() {
    let network = good_network();
    assert_eq!(get_indexer_stake(&network), 1_000_000);
}

#[test]
fn pipeline_accepts_then_rejects_replay() {
    let identity = test_identity();
    let mut nonces: NoncesMap = StringMap::new();
    let payload = RadioPayloadMessage::new("sg-1".to_string(), "c".to_string());
    let msg = GraphcastMessage::build(
        &identity,
        "sg-1".to_string(),
        Some(payload),
        9,
        "0xabc".to_string(),
    )
    .unwrap();
    let now = msg.nonce;

    // first observation: registered but rejected
    let first = check_message_validity_at(
        &msg,
        &mut nonces,
        now,
        Ok("indexer-1".to_string()),
        Ok(good_network()),
        Ok("0xabc".to_string()),
    );
    assert!(matches!(
        first,
        Err(MessageError::FirstObservationFromSender)
    ));

    // same nonce again: accepted (equal is not stale)
    let second = check_message_validity_at(
        &msg,
        &mut nonces,
        now,
        Ok("indexer-1".to_string()),
        Ok(good_network()),
        Ok("0xabc".to_string()),
    );
    assert!(second.is_ok());

    // an older nonce under the same signature: stale
    let replayed = GraphcastMessage::new(
        msg.identifier.clone(),
        msg.payload.clone(),
        msg.nonce - 10,
        9,
        msg.block_hash.clone(),
        msg.signature.clone(),
    );
    let stale = check_message_validity_at(
        &replayed,
        &mut nonces,
        now,
        Ok("indexer-1".to_string()),
        Ok(good_network()),
        Ok("0xabc".to_string()),
    );
    assert!(matches!(stale, Err(MessageError::StaleNonce)));

    // a mismatching trusted hash is rejected before the ledger is touched
    let mismatch = check_message_validity_at(
        &msg,
        &mut nonces,
        now,
        Ok("indexer-1".to_string()),
        Ok(good_network()),
        Ok("0xother".to_string()),
    );
    assert!(matches!(mismatch, Err(MessageError::HashMismatch)));
}

#[test]
fn duplicate_message_id_is_rejected_once_seen() {
    let identity = test_identity();
    let mut ids = DedupLedger::new();
    let mut nonces: NoncesMap = StringMap::new();
    let payload = RadioPayloadMessage::new("sg-1".to_string(), "c".to_string());
    let msg = GraphcastMessage::build(
        &identity,
        "sg-1".to_string(),
        Some(payload),
        0,
        "0xabc".to_string(),
    )
    .unwrap();
    let now = msg.nonce;

    let first = handle_event_at(
        &mut ids,
        &mut nonces,
        "m1".to_string(),
        Some(GraphcastMessage::new(
            msg.identifier.clone(),
            msg.payload.clone(),
            msg.nonce,
            0,
            msg.block_hash.clone(),
            msg.signature.clone(),
        )),
        now,
        Ok("indexer-1".to_string()),
        Ok(good_network()),
        Ok("0xabc".to_string()),
    );
    // first ever observation of the pair: registered but rejected
    assert!(matches!(
        first,
        Err(MessageError::FirstObservationFromSender)
    ));

    // same transport id again, whatever the payload: duplicate
    let second = handle_event_at(
        &mut ids,
        &mut nonces,
        "m1".to_string(),
        Some(GraphcastMessage::new(
            msg.identifier.clone(),
            msg.payload.clone(),
            msg.nonce + 5,
            0,
            msg.block_hash.clone(),
            msg.signature.clone(),
        )),
        now,
        Ok("indexer-1".to_string()),
        Ok(good_network()),
        Ok("0xabc".to_string()),
    );
    assert!(matches!(second, Err(MessageError::DuplicateMessage)));

    // a fresh id with an advanced nonce is accepted, at a clock that has
    // moved on just as far
    let third = handle_event_at(
        &mut ids,
        &mut nonces,
        "m2".to_string(),
        Some(GraphcastMessage::new(
            msg.identifier.clone(),
            msg.payload.clone(),
            msg.nonce + 5,
            0,
            msg.block_hash.clone(),
            msg.signature.clone(),
        )),
        now + 5,
        Ok("indexer-1".to_string()),
        Ok(good_network()),
        Ok("0xabc".to_string()),
    );
    assert!(third.is_ok());
    assert_eq!(third.unwrap().nonce, msg.nonce + 5);
}

#[test]
fn undecodable_event_is_a_decode_error() {
    let mut ids = DedupLedger::new();
    let mut nonces: NoncesMap = StringMap::new();
    let r = handle_event_at(
        &mut ids,
        &mut nonces,
        "m1".to_string(),
        None,
        0,
        Ok("indexer-1".to_string()),
        Ok(good_network()),
        Ok("h".to_string()),
    );
    assert!(matches!(r, Err(MessageError::DecodeError)));
    // a decode failure does not mark the id as seen
    assert!(!ids.seen(&"m1".to_string()));
}

#[test]
fn error_reasons_are_distinct_words() {
    assert_eq!(MessageError::DecodeError.reason(), "decode error");
    assert_eq!(MessageError::StaleNonce.reason(), "stale nonce");
    assert_ne!(
        MessageError::DuplicateMessage.reason(),
        MessageError::HashMismatch.reason()
    );
}
