//! The input data channels: the handshake, which channel a packet takes, and what is accepted.
use vstd::prelude::*;
use crate::text::{append_decimal, append_str, decimal, str_eq};

verus! {

/// The reliable, ordered input channel's label.
pub const RELIABLE_INPUT_CHANNEL_LABEL: &'static str = "input_channel_v1";

/// The unordered, partially reliable input channel's label.
pub const PARTIALLY_RELIABLE_INPUT_CHANNEL_LABEL: &'static str = "input_channel_partially_reliable";

/// The packet lifetime of the partially reliable channel when none was negotiated.
pub const DEFAULT_PARTIAL_RELIABLE_THRESHOLD_MS: u32 = 300;

/// The largest input packet forwarded from the controlling process.
pub const MAX_INPUT_PACKET_BYTES: usize = 4096;

/// The handshake word announcing a protocol version that follows it.
pub const HANDSHAKE_VERSIONED_MAGIC: u16 = 526;

/// The input protocol version a handshake message announces, if it is one.
///
/// A message starting with the little-endian word 526 announces the version in its next
/// little-endian word (version 2 when there is none); any other message whose first byte is
/// `0x0e` announces its first little-endian word as the version.
pub open spec fn handshake_version(bytes: Seq<u8>) -> Option<u16> {
    if bytes.len() < 2 {
        None
    } else {
        let first_word = (bytes[0] as int + 256 * bytes[1] as int) as u16;
        if first_word == HANDSHAKE_VERSIONED_MAGIC {
            if bytes.len() >= 4 {
                Some((bytes[2] as int + 256 * bytes[3] as int) as u16)
            } else {
                Some(2)
            }
        } else if bytes[0] == 0x0e {
            Some(first_word)
        } else {
            None
        }
    }
}

fn le_word(lo: u8, hi: u8) -> (r: u16)
    ensures
        r == (lo as int + 256 * hi as int) as u16,
        r as int == lo as int + 256 * hi as int,
{
    lo as u16 + 256 * (hi as u16)
}

/// Reads the protocol version from an input handshake message.
pub fn parse_input_handshake_version(bytes: &[u8]) -> (r: Option<u16>)
    ensures
        r == handshake_version(bytes@),
{
    if bytes.len() < 2 {
        return None;
    }
    let first_word = le_word(bytes[0], bytes[1]);
    if first_word == HANDSHAKE_VERSIONED_MAGIC {
        return Some(
            if bytes.len() >= 4 {
                le_word(bytes[2], bytes[3])
            } else {
                2
            },
        );
    }
    if bytes[0] == 0x0e {
        return Some(first_word);
    }
    None
}

/// The version the input encoder is set to: the announced version, capped at 255.
pub fn handshake_encoder_version(protocol_version: u16) -> (r: u8)
    ensures
        r as int == if protocol_version > 255 {
            255
        } else {
            protocol_version as int
        },
{
    if protocol_version > 255 {
        255
    } else {
        protocol_version as u8
    }
}

/// The packet lifetime of the partially reliable channel: the negotiated threshold clamped to
/// 1 ..= 5000 ms, or 300 ms when none (0) was negotiated.
pub fn partial_reliable_lifetime_ms(threshold_ms: u32) -> (r: u32)
    ensures
        r == if threshold_ms == 0 {
            DEFAULT_PARTIAL_RELIABLE_THRESHOLD_MS
        } else if threshold_ms > 5000 {
            5000
        } else {
            threshold_ms
        },
        1 <= r <= 5000,
{
    if threshold_ms == 0 {
        DEFAULT_PARTIAL_RELIABLE_THRESHOLD_MS
    } else if threshold_ms > 5000 {
        5000
    } else {
        threshold_ms
    }
}

/// The two input data channels.
#[derive(Debug, Clone, Copy, PartialEq, Eq, Structural)]
pub enum InputChannelKind {
    Reliable,
    PartiallyReliable,
}

/// The channel a packet is sent on, or `None` when it is not sent: empty packets never are,
/// and a packet goes only over its own channel (partially reliable when asked for, else
/// reliable) and only while that channel is open.
pub open spec fn spec_input_channel(
    payload_len: nat,
    partially_reliable: bool,
    partially_reliable_open: bool,
    reliable_open: bool,
) -> Option<InputChannelKind> {
    if payload_len == 0 {
        None
    } else if partially_reliable {
        if partially_reliable_open {
            Some(InputChannelKind::PartiallyReliable)
        } else {
            None
        }
    } else if reliable_open {
        Some(InputChannelKind::Reliable)
    } else {
        None
    }
}

pub fn select_input_channel(
    payload_len: usize,
    partially_reliable: bool,
    partially_reliable_open: bool,
    reliable_open: bool,
) -> (r: Option<InputChannelKind>)
    ensures
        r == spec_input_channel(
            payload_len as nat,
            partially_reliable,
            partially_reliable_open,
            reliable_open,
        ),
{
    if payload_len == 0 {
        return None;
    }
    let channel = if partially_reliable {
        if !partially_reliable_open {
            return None;
        }
        InputChannelKind::PartiallyReliable
    } else {
        InputChannelKind::Reliable
    };
    let open = match channel {
        InputChannelKind::PartiallyReliable => partially_reliable_open,
        InputChannelKind::Reliable => reliable_open,
    };
    if !open {
        return None;
    }
    Some(channel)
}

/// Whether an input packet from the controlling process is forwarded at all.
pub fn accept_input_payload(payload_len: usize) -> (r: bool)
    ensures
        r == (payload_len != 0 && payload_len <= MAX_INPUT_PACKET_BYTES),
{
    payload_len != 0 && payload_len <= MAX_INPUT_PACKET_BYTES
}

/// The encoder protocol version before any handshake.
pub const DEFAULT_INPUT_PROTOCOL_VERSION: u8 = 2;

/// The readiness of the input path of one stream.
pub struct InputSession {
    ready: bool,
    heartbeat_stopped: bool,
    encoder_version: u8,
}

/// What a handshake message changes: the protocol it announced, the encoder version set from
/// it, and whether it made the input path ready (so readiness is announced and the heartbeat
/// starts).
#[derive(Debug, Clone, Copy, PartialEq, Eq, Structural)]
pub struct HandshakeOutcome {
    pub protocol_version: u16,
    pub encoder_version: u8,
    pub became_ready: bool,
}

impl InputSession {
    pub closed spec fn spec_ready(&self) -> bool {
        self.ready
    }

    pub closed spec fn spec_heartbeat_stopped(&self) -> bool {
        self.heartbeat_stopped
    }

    pub closed spec fn spec_encoder_version(&self) -> u8 {
        self.encoder_version
    }

    pub fn new() -> (r: Self)
        ensures
            !r.spec_ready(),
            !r.spec_heartbeat_stopped(),
            r.spec_encoder_version() == DEFAULT_INPUT_PROTOCOL_VERSION,
    {
        InputSession { ready: false, heartbeat_stopped: false, encoder_version: DEFAULT_INPUT_PROTOCOL_VERSION }
    }

    /// New data channels are created: not ready, encoder back at the default version.
    pub fn reset(&mut self)
        ensures
            !final(self).spec_ready(),
            final(self).spec_encoder_version() == DEFAULT_INPUT_PROTOCOL_VERSION,
            final(self).spec_heartbeat_stopped() == old(self).spec_heartbeat_stopped(),
    {
        self.ready = false;
        self.encoder_version = DEFAULT_INPUT_PROTOCOL_VERSION;
    }

    /// A message arrived on the reliable channel. A handshake sets the encoder version every
    /// time, and makes the path ready the first time (the heartbeat then runs); anything else
    /// changes nothing.
    pub fn on_handshake_message(&mut self, bytes: &[u8]) -> (r: Option<HandshakeOutcome>)
        ensures
            match handshake_version(bytes@) {
                None => r is None && *final(self) == *old(self),
                Some(v) => {
                    &&& r == Some(
                        HandshakeOutcome {
                            protocol_version: v,
                            encoder_version: if v > 255 {
                                255u8
                            } else {
                                v as u8
                            },
                            became_ready: !old(self).spec_ready(),
                        },
                    )
                    &&& final(self).spec_ready()
                    &&& final(self).spec_encoder_version() == r.unwrap().encoder_version
                    &&& final(self).spec_heartbeat_stopped() == (old(self).spec_heartbeat_stopped()
                        && old(self).spec_ready())
                },
            },
    {
        let version = match parse_input_handshake_version(bytes) {
            Some(v) => v,
            None => return None,
        };
        let encoder_version = handshake_encoder_version(version);
        self.encoder_version = encoder_version;
        let was_ready = self.ready;
        self.ready = true;
        if !was_ready {
            self.heartbeat_stopped = false;
        }
        Some(HandshakeOutcome { protocol_version: version, encoder_version, became_ready: !was_ready })
    }

    /// A data channel closed: closing the reliable one unreadies the path and stops the
    /// heartbeat.
    pub fn on_channel_closed(&mut self, channel: InputChannelKind)
        ensures
            channel == InputChannelKind::Reliable ==> !final(self).spec_ready()
                && final(self).spec_heartbeat_stopped(),
            channel == InputChannelKind::PartiallyReliable ==> *final(self) == *old(self),
            final(self).spec_encoder_version() == old(self).spec_encoder_version(),
    {
        if channel == InputChannelKind::Reliable {
            self.ready = false;
            self.heartbeat_stopped = true;
        }
    }

    /// The heartbeat is stopped with the session.
    pub fn stop_heartbeat(&mut self)
        ensures
            final(self).spec_heartbeat_stopped(),
            final(self).spec_ready() == old(self).spec_ready(),
            final(self).spec_encoder_version() == old(self).spec_encoder_version(),
    {
        self.heartbeat_stopped = true;
    }

    /// Whether the heartbeat has been told to stop.
    pub fn heartbeat_stopped(&self) -> (r: bool)
        ensures
            r == self.spec_heartbeat_stopped(),
    {
        self.heartbeat_stopped
    }

    /// Whether input is sent at all.
    pub fn is_ready(&self) -> (r: bool)
        ensures
            r == self.spec_ready(),
    {
        self.ready
    }
}

/// The interval between two heartbeats, in milliseconds.
pub const HEARTBEAT_INTERVAL_MS: u64 = 2_000;

/// The longest single sleep while waiting for the next heartbeat, so a stop is seen quickly.
pub const HEARTBEAT_STOP_POLL_MS: u64 = 50;

/// How long to sleep next while waiting for a heartbeat, after `slept_ms` of waiting: what is
/// left of the interval, at most one poll step; none once the interval has passed.
pub fn heartbeat_sleep_ms(slept_ms: u64) -> (r: Option<u64>)
    ensures
        slept_ms >= HEARTBEAT_INTERVAL_MS ==> r is None,
        slept_ms < HEARTBEAT_INTERVAL_MS ==> r == Some(
            if HEARTBEAT_INTERVAL_MS - slept_ms < HEARTBEAT_STOP_POLL_MS {
                (HEARTBEAT_INTERVAL_MS - slept_ms) as u64
            } else {
                HEARTBEAT_STOP_POLL_MS
            },
        ),
{
    if slept_ms >= HEARTBEAT_INTERVAL_MS {
        None
    } else {
        let remaining = HEARTBEAT_INTERVAL_MS - slept_ms;
        Some(if remaining < HEARTBEAT_STOP_POLL_MS { remaining } else { HEARTBEAT_STOP_POLL_MS })
    }
}

/// The label a channel reports, or `<unlabeled>`.
pub open spec fn spec_channel_label(label: Option<Seq<char>>) -> Seq<char> {
    match label {
        Some(l) => l,
        None => "<unlabeled>"@,
    }
}

pub fn channel_label_or_default(label: Option<&str>) -> (r: String)
    ensures
        r@ == spec_channel_label(
            match label {
                Some(l) => Some(l@),
                None => None,
            },
        ),
{
    match label {
        Some(l) => String::from_str(l),
        None => String::from_str("<unlabeled>"),
    }
}

/// The error when the agent created a channel with another label than asked for.
pub open spec fn spec_label_mismatch(expected: Seq<char>, actual: Seq<char>) -> Option<Seq<char>> {
    if expected == actual {
        None
    } else {
        Some(
            "GStreamer created data channel with unexpected label: expected "@ + expected
                + ", got "@ + actual + "."@,
        )
    }
}

pub fn check_channel_label(expected: &str, actual: &str) -> (r: Result<(), String>)
    ensures
        r is Ok <==> spec_label_mismatch(expected@, actual@) is None,
        r matches Err(e) ==> spec_label_mismatch(expected@, actual@) == Some(e@),
{
    if str_eq(expected, actual) {
        Ok(())
    } else {
        let mut s = String::from_str("GStreamer created data channel with unexpected label: expected ");
        append_str(&mut s, expected);
        append_str(&mut s, ", got ");
        append_str(&mut s, actual);
        append_str(&mut s, ".");
        Err(s)
    }
}

/// The log line after both input channels were created.
pub open spec fn spec_channels_created(lifetime_ms: u32) -> Seq<char> {
    "Created WebRTC input data channels (input_channel_v1, input_channel_partially_reliable maxPacketLifeTime="@
        + decimal(lifetime_ms as nat) + "ms)."@
}

pub fn channels_created_message(lifetime_ms: u32) -> (r: String)
    ensures
        r@ == spec_channels_created(lifetime_ms),
{
    let mut s = String::from_str(
        "Created WebRTC input data channels (input_channel_v1, input_channel_partially_reliable maxPacketLifeTime=",
    );
    append_decimal(&mut s, lifetime_ms as u64);
    append_str(&mut s, "ms).");
    s
}

/// The log line after the handshake made input ready.
pub open spec fn spec_handshake_complete(label: Seq<char>, protocol_version: u16) -> Seq<char> {
    "Input handshake complete on "@ + label + " (protocol v"@ + decimal(protocol_version as nat)
        + ")."@
}

pub fn handshake_complete_message(label: &str, protocol_version: u16) -> (r: String)
    ensures
        r@ == spec_handshake_complete(label@, protocol_version),
{
    let mut s = String::from_str("Input handshake complete on ");
    append_str(&mut s, label);
    append_str(&mut s, " (protocol v");
    append_decimal(&mut s, protocol_version as u64);
    append_str(&mut s, ").");
    s
}

} // verus!
