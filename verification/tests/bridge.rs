use atsisbroken::bridge::{
    frame, payload_length, respond, BridgeError, BridgeMessage, BridgeStep, MAX_MESSAGE_BYTES,
    PROTOCOL_VERSION,
};
use atsisbroken::{Feedback, FeedbackQueue, FieldDescriptor, Observation};

fn sample_field() -> FieldDescriptor {
    FieldDescriptor {
        label: "Email".into(),
        placeholder: "".into(),
        aria_label: "".into(),
        name: "email".into(),
        id: "".into(),
        kind: "email".into(),
    }
}

fn sample_obs() -> Observation {
    Observation {
        field: sample_field(),
        predicted: "email".into(),
        observed: "email".into(),
        confidence_bits: 0.92f32.to_bits(),
    }
}

fn sample_feedback() -> Feedback {
    Feedback {
        field: sample_field(),
        predicted: "email".into(),
        actual: "email".into(),
        accepted: true,
    }
}

#[test]
fn protocol_version_pinned() {
    assert_eq!(PROTOCOL_VERSION, 1);
}

#[test]
fn max_message_bytes_matches_chrome_spec() {
    assert_eq!(MAX_MESSAGE_BYTES, 1024 * 1024);
}

#[test]
fn frame_prefixes_little_endian_length() {
    let payload = vec![b'x'; 0x0102];
    let f = frame(&payload).unwrap();
    assert_eq!(f.len(), payload.len() + 4);
    assert_eq!(&f[..4], &[0x02, 0x01, 0x00, 0x00]);
    assert_eq!(&f[4..], &payload[..]);
}

#[test]
fn frame_refuses_oversized_payload() {
    let payload = vec![b' '; MAX_MESSAGE_BYTES + 1];
    match frame(&payload) {
        Err(BridgeError::TooLarge(n)) => assert_eq!(n, MAX_MESSAGE_BYTES + 1),
        other => panic!("expected TooLarge, got {other:?}"),
    }
}

#[test]
fn frame_then_header_gives_length_back() {
    let payload = br#"{"kind":"ack","accepted":7}"#;
    let f = frame(payload).unwrap();
    let n = payload_length([f[0], f[1], f[2], f[3]]).unwrap();
    assert_eq!(n, payload.len());
}

#[test]
fn zero_length_header_is_protocol_violation() {
    assert!(matches!(payload_length([0, 0, 0, 0]), Err(BridgeError::ZeroLength)));
}

#[test]
fn oversized_header_is_rejected() {
    let big = (MAX_MESSAGE_BYTES + 1) as u32;
    match payload_length(big.to_le_bytes()) {
        Err(BridgeError::TooLarge(n)) => assert_eq!(n, MAX_MESSAGE_BYTES + 1),
        other => panic!("expected TooLarge, got {other:?}"),
    }
}

#[test]
fn header_at_the_limit_is_accepted() {
    let n = payload_length((MAX_MESSAGE_BYTES as u32).to_le_bytes()).unwrap();
    assert_eq!(n, MAX_MESSAGE_BYTES);
}

#[test]
fn error_messages_read_as_displayed() {
    assert_eq!(BridgeError::ZeroLength.message(), "bridge frame had zero length");
    assert_eq!(BridgeError::TooLarge(5).message(), "bridge frame too large: 5 bytes");
}

#[test]
fn hello_is_answered_with_hello_ack() {
    let mut q = FeedbackQueue::default();
    let step = respond(BridgeMessage::Hello { extension_version: "0.0.0".into() }, &mut q);
    match step {
        BridgeStep::Reply(BridgeMessage::HelloAck { host_version, protocol_version }) => {
            assert_eq!(host_version, atsisbroken::version());
            assert_eq!(protocol_version, 1);
        }
        other => panic!("expected HelloAck, got {other:?}"),
    }
    assert_eq!(q.len(), 0);
}

#[test]
fn pushed_feedback_is_queued_and_acknowledged() {
    let mut q = FeedbackQueue::default();
    let step = respond(BridgeMessage::PushFeedback { events: vec![sample_feedback()] }, &mut q);
    assert!(matches!(step, BridgeStep::Reply(BridgeMessage::Ack { accepted: 1 })));
    assert_eq!(q.len(), 1);
    assert_eq!(q.events[0], sample_feedback());
}

#[test]
fn pushed_observations_are_acknowledged_but_not_queued() {
    let mut q = FeedbackQueue::default();
    let step = respond(
        BridgeMessage::PushObservations { events: vec![sample_obs(), sample_obs(), sample_obs()] },
        &mut q,
    );
    assert!(matches!(step, BridgeStep::Reply(BridgeMessage::Ack { accepted: 3 })));
    assert_eq!(q.len(), 0);
}

#[test]
fn hello_ack_from_extension_is_ignored() {
    let mut q = FeedbackQueue::default();
    let step = respond(
        BridgeMessage::HelloAck { host_version: "weird".into(), protocol_version: 1 },
        &mut q,
    );
    assert!(matches!(step, BridgeStep::Ignore));
    let step = respond(BridgeMessage::Ack { accepted: 2 }, &mut q);
    assert!(matches!(step, BridgeStep::Ignore));
}

#[test]
fn extension_error_is_reported() {
    let mut q = FeedbackQueue::default();
    match respond(BridgeMessage::Error { message: "boom".into() }, &mut q) {
        BridgeStep::ExtensionError(m) => assert_eq!(m, "boom"),
        other => panic!("expected ExtensionError, got {other:?}"),
    }
}
