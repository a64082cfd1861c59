use base64::Engine;
use claw_pen::frame::{classify, extract_nonce, Inbound};
use claw_pen::handshake::{
    build, canonical_message, chat_request_id, connect_request_id, idempotency_key,
    new_idempotency_key,
};
use claw_pen::identity::{DeviceIdentity, IdentityError};
use claw_pen::queue::{Dispatch, OutboundQueue, QueueFull};
use claw_pen::session::{Action, Notice, Session, SessionState, RECONNECT_DELAY_MS};
use ed25519_dalek::Verifier;
use sha2::Digest;

const CHALLENGE: &str =
    r#"{"type":"event","event":"connect.challenge","payload":{"nonce":"abc123","ts":1}}"#;
const CHALLENGE_NO_NONCE: &str = r#"{"type":"event","event":"connect.challenge","payload":{}}"#;

fn identity() -> DeviceIdentity {
    DeviceIdentity::from_seed(vec![7u8; 32])
}

#[test]
fn challenge_with_nonce_is_classified() {
    assert_eq!(classify(CHALLENGE, None), Inbound::Challenge(b"abc123".to_vec()));
}

#[test]
fn challenge_without_nonce_is_dropped() {
    assert_eq!(classify(CHALLENGE_NO_NONCE, None), Inbound::Malformed);
}

#[test]
fn ack_must_name_the_outstanding_request() {
    let ack = r#"{"type":"res","id":"cp-4","ok":true,"payload":{}}"#;
    assert_eq!(classify(ack, Some("cp-4")), Inbound::Ack);
    assert_eq!(classify(ack, Some("cp-5")), Inbound::Event(ack.to_string()));
}

#[test]
fn error_and_event_frames() {
    let err = r#"{"type":"res","id":"cp-1","ok":false,"error":{"message":"denied"}}"#;
    assert_eq!(classify(err, Some("cp-1")), Inbound::Error(err.to_string()));
    let ev = r#"{"type":"event","event":"chat","payload":{}}"#;
    assert_eq!(classify(ev, Some("cp-1")), Inbound::Event(ev.to_string()));
}

#[test]
fn nonce_extraction() {
    assert_eq!(extract_nonce(r#"{"nonce":"n-1"}"#), Some(b"n-1".to_vec()));
    assert_eq!(extract_nonce(r#"{"nonce":""}"#), Some(Vec::new()));
    assert_eq!(extract_nonce(r#"{"nonce":"open"#), None);
    assert_eq!(extract_nonce(r#"{"other":"x"}"#), None);
}

#[test]
fn request_ids() {
    assert_eq!(connect_request_id(1), "cp-1");
    assert_eq!(connect_request_id(1234567890), "cp-1234567890");
    assert_eq!(chat_request_id(0), "msg-0");
}

#[test]
fn canonical_message_layout() {
    let msg = canonical_message("dev", 1700000000123, b"n1");
    assert_eq!(
        String::from_utf8(msg).unwrap(),
        "v2|dev|openclaw-control-ui|webchat|operator|operator.admin,operator.approvals,operator.pairing|1700000000123||n1"
    );
}

#[test]
fn device_id_is_hex_sha256_of_public_key() {
    let id = identity();
    let key = ed25519_dalek::SigningKey::from_bytes(&[7u8; 32]);
    let public = key.verifying_key().to_bytes();
    assert_eq!(id.public_key(), &public[..]);
    assert_eq!(id.device_id(), hex::encode(sha2::Sha256::digest(public)));
    assert_eq!(id.device_id().len(), 64);
    assert!(id.device_id().chars().all(|c| c.is_ascii_digit() || ('a'..='f').contains(&c)));
    let fresh = DeviceIdentity::generate();
    assert_eq!(fresh.device_id(), hex::encode(sha2::Sha256::digest(fresh.public_key())));
}

#[test]
fn record_round_trip_keeps_identity() {
    let id = identity();
    let record = id.to_record();
    let again = DeviceIdentity::from_record(&record).unwrap();
    assert_eq!(again.device_id(), id.device_id());
    assert_eq!(again.public_key(), id.public_key());
    assert_eq!(again.sign(b"m"), id.sign(b"m"));
    let parsed: serde_json::Value = serde_json::from_str(&record).unwrap();
    let b64 = base64::engine::general_purpose::STANDARD;
    assert_eq!(parsed["privateKey"].as_str().unwrap(), b64.encode([7u8; 32]));
}

#[test]
fn corrupt_records_are_refused() {
    assert_eq!(DeviceIdentity::from_record("{}").err(), Some(IdentityError::MissingPrivateKey));
    assert_eq!(
        DeviceIdentity::from_record(r#"{"privateKey":"!!","deviceId":"d"}"#).err(),
        Some(IdentityError::InvalidEncoding)
    );
    assert_eq!(
        DeviceIdentity::from_record(r#"{"privateKey":"AAAA","deviceId":"d"}"#).err(),
        Some(IdentityError::InvalidKeyLength)
    );
    let key = base64::engine::general_purpose::STANDARD.encode([1u8; 32]);
    let no_id = format!(r#"{{"privateKey":"{}"}}"#, key);
    assert_eq!(DeviceIdentity::from_record(&no_id).err(), Some(IdentityError::MissingDeviceId));
    let stored = format!(r#"{{"privateKey":"{}","deviceId":"kept"}}"#, key);
    assert_eq!(DeviceIdentity::from_record(&stored).unwrap().device_id(), "kept");
}

#[test]
fn build_is_deterministic_and_verifies() {
    let id = identity();
    let a = build("cp-1", b"nonce-9", &id, 42);
    let b = build("cp-1", b"nonce-9", &id, 42);
    assert_eq!(a.canonical_message, b.canonical_message);
    assert_eq!(a.signature, b.signature);
    assert_eq!(a.signature.len(), 64);
    let expected = canonical_message(id.device_id(), 42, b"nonce-9");
    assert_eq!(a.canonical_message, expected);
    let public: [u8; 32] = id.public_key().try_into().unwrap();
    let verifying = ed25519_dalek::VerifyingKey::from_bytes(&public).unwrap();
    let sig: [u8; 64] = a.signature.clone().try_into().unwrap();
    let sig = ed25519_dalek::Signature::from_bytes(&sig);
    assert!(verifying.verify(&a.canonical_message, &sig).is_ok());
    let b64 = base64::engine::general_purpose::STANDARD;
    assert_eq!(a.signature_base64, b64.encode(&a.signature));
    assert_eq!(a.public_key_base64, b64.encode(public));
    assert_eq!(a.request_id, "cp-1");
    assert_eq!(a.nonce, b"nonce-9".to_vec());
}

#[test]
fn end_to_end_handshake() {
    let mut s = Session::new(identity());
    assert_eq!(s.state(), SessionState::Disconnected);
    s.start();
    assert_eq!(s.state(), SessionState::Connecting);
    assert!(matches!(s.transport_connected(), Action::Notify(Notice::Connected)));
    assert_eq!(s.state(), SessionState::AwaitingChallenge);

    let challenge = r#"{"type":"event","event":"connect.challenge","payload":{"nonce":"n1"}}"#;
    let request = match s.on_frame(challenge, 1000) {
        Action::SendConnect(r) => r,
        _ => panic!("expected a connect request"),
    };
    assert_eq!(request.request_id, "cp-1");
    assert_eq!(request.nonce, b"n1".to_vec());
    assert_eq!(s.state(), SessionState::Authenticating);

    let ack = r#"{"type":"res","id":"cp-1","ok":true,"payload":{}}"#;
    assert!(matches!(s.on_frame(ack, 1001), Action::Notify(Notice::Authenticated)));
    assert_eq!(s.state(), SessionState::Authenticated);
    assert!(s.is_authenticated());

    assert!(matches!(s.on_frame(challenge, 1002), Action::Ignore));
    assert_eq!(s.state(), SessionState::Authenticated);

    let ev = r#"{"type":"event","event":"chat","payload":{"text":"hi"}}"#;
    match s.on_frame(ev, 1003) {
        Action::Notify(Notice::Message(t)) => assert_eq!(t, ev),
        _ => panic!("expected an event"),
    }
}

#[test]
fn error_while_authenticating_disconnects() {
    let mut s = Session::new(identity());
    s.start();
    s.transport_connected();
    s.on_frame(CHALLENGE, 5);
    let err = r#"{"type":"res","id":"cp-1","ok":false,"error":{"message":"bad"}}"#;
    assert!(matches!(s.on_frame(err, 6), Action::Rejected(_)));
    assert_eq!(s.state(), SessionState::Disconnected);
}

#[test]
fn frames_before_authentication_are_dropped() {
    let mut s = Session::new(identity());
    s.start();
    s.transport_connected();
    let ev = r#"{"type":"event","event":"tick"}"#;
    assert!(matches!(s.on_frame(ev, 1), Action::Ignore));
    assert!(matches!(s.on_frame(CHALLENGE_NO_NONCE, 1), Action::Ignore));
    assert_eq!(s.state(), SessionState::AwaitingChallenge);
}

#[test]
fn read_failure_while_authenticated_reconnects_without_replay() {
    let mut s = Session::new(identity());
    s.start();
    s.transport_connected();
    s.on_frame(CHALLENGE, 1);
    s.on_frame(r#"{"id":"cp-1","ok":true}"#, 2);
    assert_eq!(s.state(), SessionState::Authenticated);
    let mut q = OutboundQueue::new();
    assert_eq!(q.submit("queued".to_string()), Ok(()));
    assert!(matches!(s.transport_failed(), Action::Reconnect(d) if d == RECONNECT_DELAY_MS));
    assert_eq!(RECONNECT_DELAY_MS, 3000);
    assert_eq!(s.state(), SessionState::Disconnected);
    s.start();
    assert_eq!(q.pump(s.state()), Dispatch::Dropped);
    assert_eq!(q.len(), 0);
    s.transport_connected();
    let again = r#"{"event":"connect.challenge","nonce":"n2"}"#;
    match s.on_frame(again, 3) {
        Action::SendConnect(r) => assert_eq!(r.request_id, "cp-2"),
        _ => panic!("expected a second connect request"),
    }
}

#[test]
fn submit_while_connecting_is_accepted_then_dropped() {
    let mut q = OutboundQueue::new();
    assert_eq!(q.submit("hello".to_string()), Ok(()));
    assert_eq!(q.pump(SessionState::Connecting), Dispatch::Dropped);
    assert_eq!(q.pump(SessionState::Connecting), Dispatch::Idle);
}

#[test]
fn authenticated_pump_sends_in_order() {
    let mut q = OutboundQueue::new();
    q.submit("a".to_string()).unwrap();
    q.submit("b".to_string()).unwrap();
    assert_eq!(q.pump(SessionState::Authenticated), Dispatch::Send("a".to_string()));
    assert_eq!(q.pump(SessionState::Authenticated), Dispatch::Send("b".to_string()));
    assert_eq!(q.pump(SessionState::Authenticated), Dispatch::Idle);
}

#[test]
fn full_queue_fails_fast() {
    let mut q = OutboundQueue::new();
    for i in 0..100 {
        assert_eq!(q.submit(format!("m{}", i)), Ok(()));
    }
    assert_eq!(q.submit("over".to_string()), Err(QueueFull));
    assert_eq!(q.len(), 100);
}

#[test]
fn idempotency_keys_have_uuid_shape() {
    assert_eq!(
        idempotency_key(0xdeadbeef, 0x1, 0xabcd, 0xffff, 0x1234_5678_9abc_def0),
        "deadbeef-0001-abcd-ffff-56789abcdef0"
    );
    assert_eq!(idempotency_key(0, 0, 0, 0, 0), "00000000-0000-0000-0000-000000000000");
    let k = new_idempotency_key();
    let parts: Vec<usize> = k.split('-').map(|p| p.len()).collect();
    assert_eq!(parts, vec![8, 4, 4, 4, 12]);
    assert!(k.chars().all(|c| c == '-' || c.is_ascii_hexdigit()));
}

#[test]
fn load_or_create_keeps_a_stored_identity() {
    let (fresh, record) = DeviceIdentity::load_or_create(None).unwrap();
    let record = record.unwrap();
    let (loaded, write) = DeviceIdentity::load_or_create(Some(&record)).unwrap();
    assert!(write.is_none());
    assert_eq!(loaded.device_id(), fresh.device_id());
    assert_eq!(loaded.sign(b"x"), fresh.sign(b"x"));
    assert_eq!(
        DeviceIdentity::load_or_create(Some("not json")).err(),
        Some(IdentityError::MissingPrivateKey)
    );
}

#[test]
fn closing_does_not_reconnect() {
    let mut s = Session::new(identity());
    s.start();
    s.transport_connected();
    s.close();
    assert_eq!(s.state(), SessionState::Closing);
    s.start();
    assert_eq!(s.state(), SessionState::Closing);
    assert!(matches!(s.transport_failed(), Action::Ignore));
    assert_eq!(s.state(), SessionState::Disconnected);
}

#[test]
fn stalled_handshake_is_abandoned() {
    let mut s = Session::new(identity());
    s.start();
    s.transport_connected();
    s.on_frame(CHALLENGE, 1);
    assert_eq!(s.state(), SessionState::Authenticating);
    assert!(matches!(s.handshake_timed_out(), Action::Reconnect(d) if d == RECONNECT_DELAY_MS));
    assert_eq!(s.state(), SessionState::Disconnected);
    let ack = r#"{"id":"cp-1","ok":true}"#;
    s.start();
    s.transport_connected();
    assert!(matches!(s.on_frame(ack, 2), Action::Ignore));
    let mut done = Session::new(identity());
    done.start();
    done.transport_connected();
    done.on_frame(CHALLENGE, 1);
    done.on_frame(ack, 2);
    assert!(matches!(done.handshake_timed_out(), Action::Ignore));
    assert_eq!(done.state(), SessionState::Authenticated);
}

#[test]
fn nothing_is_an_ack_without_an_outstanding_request() {
    let empty_id = r#"{"ok":true,"id":""}"#;
    assert_eq!(classify(empty_id, None), Inbound::Event(empty_id.to_string()));
    let mut s = Session::new(identity());
    s.start();
    s.transport_connected();
    s.on_frame(CHALLENGE, 1);
    s.on_frame(r#"{"id":"cp-1","ok":true}"#, 2);
    assert_eq!(s.state(), SessionState::Authenticated);
    match s.on_frame(empty_id, 3) {
        Action::Notify(Notice::Message(t)) => assert_eq!(t, empty_id),
        _ => panic!("expected the frame to be delivered"),
    }
    let with_error = r#"{"ok":true,"id":"","error":"x"}"#;
    match s.on_frame(with_error, 4) {
        Action::Notify(Notice::Error(t)) => assert_eq!(t, with_error),
        _ => panic!("expected an error notice"),
    }
    assert_eq!(s.state(), SessionState::Authenticated);
}
