//! The Chrome native-messaging bridge: frames (a 4-byte little-endian
//! length, then a JSON payload of at most 1 MiB) and the host's answer to
//! each message from the extension. Reading, writing and JSON are the
//! caller's.
use vstd::prelude::*;
use crate::chars::{push_all, push_str, string_of};
use crate::decimal::{dec_chars, dec_string};
use crate::feedback::{Feedback, FeedbackQueue, Observation};
use crate::foreign::{io_error_text, json_error_text};

verus! {

/// One message across the bridge; both directions share the envelope.
#[derive(Debug, Clone, PartialEq, Eq)]
pub enum BridgeMessage {
    /// The extension says hello when it connects.
    Hello { extension_version: String },
    /// The host's reply to `Hello`.
    HelloAck { host_version: String, protocol_version: u32 },
    /// A batch of observations from the extension.
    PushObservations { events: Vec<Observation> },
    /// A batch of feedback events from the extension.
    PushFeedback { events: Vec<Feedback> },
    /// The host took this many events.
    Ack { accepted: usize },
    /// Either side reports a fatal protocol error.
    Error { message: String },
}

/// Largest payload Chrome allows: 1 MiB.
pub const MAX_MESSAGE_BYTES: usize = 1048576;

/// Version of the host protocol; bumped on breaking schema changes.
pub const PROTOCOL_VERSION: u32 = 1;

#[derive(Debug)]
pub enum BridgeError {
    Io(std::io::Error),
    Serde(serde_json::Error),
    /// The length exceeds [`MAX_MESSAGE_BYTES`].
    TooLarge(usize),
    /// The length is zero, which Chrome never sends.
    ZeroLength,
}

impl BridgeError {
    /// The text the error displays as.
    pub fn message(&self) -> (r: String)
        ensures
            match self {
                BridgeError::TooLarge(n) => r@ == "bridge frame too large: "@ + dec_string(*n as nat)
                    + " bytes"@,
                BridgeError::ZeroLength => r@ == "bridge frame had zero length"@,
                BridgeError::Io(_) => crate::chars::is_prefix("bridge io: "@, r@),
                BridgeError::Serde(_) => crate::chars::is_prefix("bridge serde: "@, r@),
            },
    {
        let mut out: Vec<char> = Vec::new();
        match self {
            BridgeError::Io(e) => {
                push_str(&mut out, "bridge io: ");
                let ghost head = out@;
                assert(head =~= "bridge io: "@);
                let t = io_error_text(e);
                push_str(&mut out, t.as_str());
                assert(out@.take(head.len() as int) =~= head);
            },
            BridgeError::Serde(e) => {
                push_str(&mut out, "bridge serde: ");
                let ghost head = out@;
                assert(head =~= "bridge serde: "@);
                let t = json_error_text(e);
                push_str(&mut out, t.as_str());
                assert(out@.take(head.len() as int) =~= head);
            },
            BridgeError::TooLarge(n) => {
                push_str(&mut out, "bridge frame too large: ");
                let d = dec_chars(*n as u64);
                push_all(&mut out, d.as_slice());
                push_str(&mut out, " bytes");
            },
            BridgeError::ZeroLength => {
                push_str(&mut out, "bridge frame had zero length");
            },
        }
        string_of(out.as_slice())
    }
}

// ─── Frames ─────────────────────────────────────────────────────────────

/// The four little-endian bytes of a length.
pub open spec fn le_bytes(n: nat) -> Seq<u8> {
    seq![(n % 256) as u8, ((n / 256) % 256) as u8, ((n / 65536) % 256) as u8, ((n / 16777216) % 256) as u8]
}

/// The number four little-endian bytes stand for.
pub open spec fn le_value(b0: u8, b1: u8, b2: u8, b3: u8) -> nat {
    (b0 as nat) + 256 * (b1 as nat) + 65536 * (b2 as nat) + 16777216 * (b3 as nat)
}

/// A frame: the payload's length in four little-endian bytes, then the
/// payload.
pub open spec fn frame_of(payload: Seq<u8>) -> Seq<u8> {
    le_bytes(payload.len()) + payload
}

/// Frame a JSON payload for sending. A payload over [`MAX_MESSAGE_BYTES`]
/// is refused.
pub fn frame(payload: &[u8]) -> (r: Result<Vec<u8>, BridgeError>)
    ensures
        payload@.len() <= MAX_MESSAGE_BYTES ==> (r matches Ok(f) && f@ == frame_of(payload@)),
        payload@.len() > MAX_MESSAGE_BYTES ==> (r matches Err(BridgeError::TooLarge(n)) && n
            == payload@.len()),
{
    let n = payload.len();
    if n > MAX_MESSAGE_BYTES {
        return Err(BridgeError::TooLarge(n));
    }
    let mut out: Vec<u8> = Vec::new();
    out.push((n % 256) as u8);
    out.push(((n / 256) % 256) as u8);
    out.push(((n / 65536) % 256) as u8);
    out.push(((n / 16777216) % 256) as u8);
    let mut i: usize = 0;
    while i < n
        invariant
            n == payload@.len(),
            i <= n,
            out@ == le_bytes(n as nat) + payload@.take(i as int),
        decreases n - i,
    {
        out.push(payload[i]);
        i += 1;
        assert(out@ =~= le_bytes(n as nat) + payload@.take(i as int));
    }
    assert(payload@.take(n as int) =~= payload@);
    Ok(out)
}

/// What a frame's four length bytes announce: the payload length, or an
/// error when it is zero or over the limit.
pub fn payload_length(header: [u8; 4]) -> (r: Result<usize, BridgeError>)
    ensures
        ({
            let n = le_value(header@[0], header@[1], header@[2], header@[3]);
            match r {
                Ok(m) => 0 < n <= MAX_MESSAGE_BYTES && m == n,
                Err(BridgeError::ZeroLength) => n == 0,
                Err(BridgeError::TooLarge(m)) => n > MAX_MESSAGE_BYTES && m == n,
                Err(_) => false,
            }
        }),
{
    let n: u64 = (header[0] as u64) + 256 * (header[1] as u64) + 65536 * (header[2] as u64)
        + 16777216 * (header[3] as u64);
    assert(n <= 0xffff_ffff);
    if n == 0 {
        return Err(BridgeError::ZeroLength);
    }
    if n > MAX_MESSAGE_BYTES as u64 {
        return Err(BridgeError::TooLarge(n as usize));
    }
    Ok(n as usize)
}

/// A frame's header announces the length of its payload: framing then
/// reading the header gives the payload's length back.
pub proof fn frame_header_round_trip(payload: Seq<u8>)
    requires
        0 < payload.len() <= MAX_MESSAGE_BYTES,
    ensures
        ({
            let f = frame_of(payload);
            &&& le_value(f[0], f[1], f[2], f[3]) == payload.len()
            &&& f.skip(4) == payload
        }),
{
    let f = frame_of(payload);
    let n = payload.len();
    assert(f.skip(4) =~= payload);
    assert(le_value(f[0], f[1], f[2], f[3]) == n) by (nonlinear_arith)
        requires
            f[0] == (n % 256) as u8,
            f[1] == ((n / 256) % 256) as u8,
            f[2] == ((n / 65536) % 256) as u8,
            f[3] == ((n / 16777216) % 256) as u8,
            0 < n <= 1048576,
    ;
}

// ─── The host's side of the conversation ────────────────────────────────

/// What the host does with one message from the extension.
#[derive(Debug)]
pub enum BridgeStep {
    /// Send this reply.
    Reply(BridgeMessage),
    /// Nothing to answer.
    Ignore,
    /// The extension reported an error; the host logs it and goes on.
    ExtensionError(String),
}

/// Answer one message: `Hello` gets `HelloAck` with the host's version
/// and protocol; pushed feedback goes into the queue and is acknowledged
/// by count; pushed observations are acknowledged by count; a `HelloAck`
/// or `Ack` from the extension is ignored; an `Error` is reported.
pub fn respond(msg: BridgeMessage, queue: &mut FeedbackQueue) -> (r: BridgeStep)
    ensures
        final(queue).events@ == match msg {
            BridgeMessage::PushFeedback { events } => old(queue).events@ + events@,
            _ => old(queue).events@,
        },
        match msg {
            BridgeMessage::Hello { .. } => r matches BridgeStep::Reply(
                BridgeMessage::HelloAck { host_version, protocol_version },
            ) && host_version@ == "0.1.0"@ && protocol_version == PROTOCOL_VERSION,
            BridgeMessage::PushFeedback { events } => r matches BridgeStep::Reply(
                BridgeMessage::Ack { accepted },
            ) && accepted == events@.len(),
            BridgeMessage::PushObservations { events } => r matches BridgeStep::Reply(
                BridgeMessage::Ack { accepted },
            ) && accepted == events@.len(),
            BridgeMessage::HelloAck { .. } => r is Ignore,
            BridgeMessage::Ack { .. } => r is Ignore,
            BridgeMessage::Error { message } => r matches BridgeStep::ExtensionError(m) && m@ == message@,
        },
{
    match msg {
        BridgeMessage::Hello { .. } => BridgeStep::Reply(
            BridgeMessage::HelloAck {
                host_version: crate::version().to_owned(),
                protocol_version: PROTOCOL_VERSION,
            },
        ),
        BridgeMessage::PushFeedback { events } => {
            let n = events.len();
            let mut events = events;
            queue.events.append(&mut events);
            BridgeStep::Reply(BridgeMessage::Ack { accepted: n })
        },
        BridgeMessage::PushObservations { events } => BridgeStep::Reply(
            BridgeMessage::Ack { accepted: events.len() },
        ),
        BridgeMessage::HelloAck { .. } => BridgeStep::Ignore,
        BridgeMessage::Ack { .. } => BridgeStep::Ignore,
        BridgeMessage::Error { message } => BridgeStep::ExtensionError(message),
    }
}

} // verus!
