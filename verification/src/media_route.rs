//! Routing incoming media: which pads carry RTP video, which decoded pads are audio or video,
//! the sink chains they are linked through, and what the pipeline bus messages report.
use vstd::prelude::*;
use crate::log_line::{LogLevel, LogLine};
use crate::text::{
    append_debug_option, append_str, ascii_upper, ascii_upper_exec, chars_of, debug_option,
    matches_at, str_eq, starts_with_lit,
};

verus! {

pub open spec fn opt_str_view(o: Option<&str>) -> Option<Seq<char>> {
    match o {
        Some(v) => Some(v@),
        None => None,
    }
}

/// Whether caps with this structure name carry RTP.
pub open spec fn spec_is_rtp(caps_name: Option<Seq<char>>) -> bool {
    caps_name == Some("application/x-rtp"@)
}

/// Whether a pad whose caps structure is named `caps_name` carries RTP.
pub fn is_rtp_caps(caps_name: Option<&str>) -> (r: bool)
    ensures
        r == spec_is_rtp(opt_str_view(caps_name)),
{
    match caps_name {
        Some(name) => str_eq(name, "application/x-rtp"),
        None => false,
    }
}

/// What a decoded pad carries.
#[derive(Debug, Clone, Copy, PartialEq, Eq, Structural)]
pub enum DecodedMediaKind {
    Audio,
    Video,
    Unknown,
}

pub open spec fn spec_media_label(kind: DecodedMediaKind) -> Seq<char> {
    match kind {
        DecodedMediaKind::Audio => "audio"@,
        DecodedMediaKind::Video => "video"@,
        DecodedMediaKind::Unknown => "unknown"@,
    }
}

impl DecodedMediaKind {
    pub fn label(self) -> (r: &'static str)
        ensures
            r@ == spec_media_label(self),
    {
        match self {
            DecodedMediaKind::Audio => "audio",
            DecodedMediaKind::Video => "video",
            DecodedMediaKind::Unknown => "unknown",
        }
    }
}

/// The kind of a decoded pad by its caps name: `video/...`, `audio/...`, or anything else.
pub open spec fn spec_decoded_kind(caps_name: Option<Seq<char>>) -> DecodedMediaKind {
    match caps_name {
        Some(name) => if matches_at(name, "video/"@, 0) {
            DecodedMediaKind::Video
        } else if matches_at(name, "audio/"@, 0) {
            DecodedMediaKind::Audio
        } else {
            DecodedMediaKind::Unknown
        },
        None => DecodedMediaKind::Unknown,
    }
}

pub fn decoded_media_kind(caps_name: Option<&str>) -> (r: DecodedMediaKind)
    ensures
        r == spec_decoded_kind(opt_str_view(caps_name)),
{
    match caps_name {
        Some(name) => {
            let v = chars_of(name);
            if starts_with_lit(&v, "video/") {
                DecodedMediaKind::Video
            } else if starts_with_lit(&v, "audio/") {
                DecodedMediaKind::Audio
            } else {
                DecodedMediaKind::Unknown
            }
        },
        None => DecodedMediaKind::Unknown,
    }
}

/// The video encoding an RTP pad announces: only for RTP caps whose media is `video`, the
/// encoding name in ASCII upper case.
pub open spec fn spec_rtp_video_encoding(
    caps_name: Option<Seq<char>>,
    media: Option<Seq<char>>,
    encoding_name: Option<Seq<char>>,
) -> Option<Seq<char>> {
    if caps_name == Some("application/x-rtp"@) && media == Some("video"@) {
        match encoding_name {
            Some(e) => Some(ascii_upper(e)),
            None => None,
        }
    } else {
        None
    }
}

/// The video encoding of a pad, from its caps structure name and its `media` and
/// `encoding-name` fields.
pub fn rtp_video_encoding(
    caps_name: Option<&str>,
    media: Option<&str>,
    encoding_name: Option<&str>,
) -> (r: Option<String>)
    ensures
        match (r, spec_rtp_video_encoding(
            opt_str_view(caps_name),
            opt_str_view(media),
            opt_str_view(encoding_name),
        )) {
            (Some(a), Some(b)) => a@ == b,
            (None, None) => true,
            _ => false,
        },
{
    let rtp = match caps_name {
        Some(name) => str_eq(name, "application/x-rtp"),
        None => false,
    };
    if !rtp {
        return None;
    }
    let video = match media {
        Some(m) => str_eq(m, "video"),
        None => false,
    };
    if !video {
        return None;
    }
    match encoding_name {
        Some(e) => {
            let upper = ascii_upper_exec(&chars_of(e));
            Some(crate::text::string_of(&upper))
        },
        None => None,
    }
}

/// One element of a sink chain: its factory, and the `sync` setting it gets, if any.
pub type SinkChainElement = (&'static str, Option<bool>);

pub open spec fn sink_chain_view(v: Seq<SinkChainElement>) -> Seq<(Seq<char>, Option<bool>)> {
    v.map_values(|e: SinkChainElement| (e.0@, e.1))
}

/// The chain a decoded video pad is linked through: on Windows with the D3D11 sink, a queue,
/// the text overlay where installed, and the D3D11 sink; elsewhere a queue, a converter, the
/// overlay where installed, and the automatic sink. The sink is never clock-synchronised.
pub open spec fn spec_video_sink_chain(windows: bool, has_d3d11_sink: bool, has_text_overlay: bool) -> Seq<
    (Seq<char>, Option<bool>),
> {
    let overlay = if has_text_overlay {
        seq![("dwritetextoverlay"@, None::<bool>)]
    } else {
        Seq::empty()
    };
    if windows && has_d3d11_sink {
        seq![("queue"@, None::<bool>)] + overlay + seq![("d3d11videosink"@, Some(false))]
    } else {
        seq![("queue"@, None::<bool>), ("videoconvert"@, None::<bool>)] + overlay + seq![
            ("autovideosink"@, Some(false)),
        ]
    }
}

/// The factories for decoded video; `has_d3d11_sink` and `has_text_overlay` say whether
/// those elements are installed.
pub fn video_sink_factories(windows: bool, has_d3d11_sink: bool, has_text_overlay: bool) -> (r: Vec<
    SinkChainElement,
>)
    ensures
        sink_chain_view(r@) == spec_video_sink_chain(windows, has_d3d11_sink, has_text_overlay),
{
    let mut r: Vec<SinkChainElement> = Vec::new();
    if windows && has_d3d11_sink {
        r.push(("queue", None));
        if has_text_overlay {
            r.push(("dwritetextoverlay", None));
        }
        r.push(("d3d11videosink", Some(false)));
    } else {
        r.push(("queue", None));
        r.push(("videoconvert", None));
        if has_text_overlay {
            r.push(("dwritetextoverlay", None));
        }
        r.push(("autovideosink", Some(false)));
    }
    assert(sink_chain_view(r@) =~= spec_video_sink_chain(windows, has_d3d11_sink, has_text_overlay));
    r
}

pub open spec fn spec_audio_sink_chain() -> Seq<(Seq<char>, Option<bool>)> {
    seq![
        ("queue"@, None::<bool>),
        ("audioconvert"@, None::<bool>),
        ("audioresample"@, None::<bool>),
        ("autoaudiosink"@, Some(false)),
    ]
}

/// The factories for decoded audio.
pub fn audio_sink_factories() -> (r: Vec<SinkChainElement>)
    ensures
        sink_chain_view(r@) == spec_audio_sink_chain(),
{
    let mut r: Vec<SinkChainElement> = Vec::new();
    r.push(("queue", None));
    r.push(("audioconvert", None));
    r.push(("audioresample", None));
    r.push(("autoaudiosink", Some(false)));
    assert(sink_chain_view(r@) =~= spec_audio_sink_chain());
    r
}

/// How one element of a sink chain is set up.
#[derive(Debug, Clone, Copy, PartialEq, Eq, Structural)]
pub struct ElementSetup {
    /// A queue: configured for low latency.
    pub low_latency_queue: bool,
    /// The text overlay: configured as the statistics overlay.
    pub stats_overlay: bool,
    /// The overlay of a video chain: registered as the one the statistics are drawn on.
    pub register_overlay: bool,
    /// A sink, or an element given a `sync` setting: configured for low latency.
    pub low_latency_sink: bool,
}

pub open spec fn spec_element_setup(factory: Seq<char>, sync_property: Option<bool>, media_label: Seq<
    char,
>) -> ElementSetup {
    let overlay = factory == "dwritetextoverlay"@;
    ElementSetup {
        low_latency_queue: factory == "queue"@,
        stats_overlay: overlay,
        register_overlay: overlay && media_label == "video"@,
        low_latency_sink: sync_property is Some || matches_at(
            factory,
            "sink"@,
            factory.len() - 4,
        ),
    }
}

pub fn element_setup(factory: &str, sync_property: Option<bool>, media_label: &str) -> (r:
    ElementSetup)
    ensures
        r == spec_element_setup(factory@, sync_property, media_label@),
{
    let overlay = str_eq(factory, "dwritetextoverlay");
    let v = chars_of(factory);
    let ends_with_sink = if v.len() >= 4 {
        let tail = crate::text::sub_chars(&v, v.len() - 4, v.len());
        proof {
            reveal_strlit("sink");
        }
        crate::text::eq_lit(&tail, "sink")
    } else {
        false
    };
    proof {
        reveal_strlit("sink");
    }
    ElementSetup {
        low_latency_queue: str_eq(factory, "queue"),
        stats_overlay: overlay,
        register_overlay: overlay && str_eq(media_label, "video"),
        low_latency_sink: sync_property.is_some() || ends_with_sink,
    }
}

/// The log line for a WebRTC pad that carries no RTP.
pub open spec fn spec_non_rtp_message(caps_name: Option<Seq<char>>) -> Seq<char> {
    "Ignoring non-RTP WebRTC pad with caps "@ + debug_option(caps_name) + "."@
}

pub fn non_rtp_pad_message(caps_name: Option<&str>) -> (r: String)
    ensures
        r@ == spec_non_rtp_message(opt_str_view(caps_name)),
{
    let mut s = String::from_str("Ignoring non-RTP WebRTC pad with caps ");
    append_debug_option(&mut s, caps_name);
    append_str(&mut s, ".");
    s
}

/// The error for a decoded pad that is neither audio nor video.
pub open spec fn spec_unsupported_media_message(caps_name: Option<Seq<char>>) -> Seq<char> {
    "Unsupported decoded media caps "@ + debug_option(caps_name) + "; routing to fallback sink."@
}

pub fn unsupported_media_message(caps_name: Option<&str>) -> (r: String)
    ensures
        r@ == spec_unsupported_media_message(opt_str_view(caps_name)),
{
    let mut s = String::from_str("Unsupported decoded media caps ");
    append_debug_option(&mut s, caps_name);
    append_str(&mut s, "; routing to fallback sink.");
    s
}

/// The log line after a decoded stream is linked.
pub open spec fn spec_decoded_linked_message(kind: DecodedMediaKind) -> Seq<char> {
    "Linked decoded "@ + spec_media_label(kind) + " stream to native sink chain."@
}

pub fn decoded_linked_message(kind: DecodedMediaKind) -> (r: String)
    ensures
        r@ == spec_decoded_linked_message(kind),
{
    let mut s = String::from_str("Linked decoded ");
    append_str(&mut s, kind.label());
    append_str(&mut s, " stream to native sink chain.");
    s
}

/// The log line when the explicit chain failed and decodebin takes over.
pub open spec fn spec_decodebin_fallback_message(error: Seq<char>) -> Seq<char> {
    error + "; falling back to decodebin."@
}

pub fn decodebin_fallback_message(error: &str) -> (r: String)
    ensures
        r@ == spec_decodebin_fallback_message(error@),
{
    let mut s = String::from_str(error);
    append_str(&mut s, "; falling back to decodebin.");
    s
}

/// A pipeline bus message, with the texts the logs show of it.
pub enum BusMessage {
    Error { source: Option<String>, error: String, debug: Option<String> },
    Warning { source: Option<String>, error: String, debug: Option<String> },
    Qos { source: Option<String>, structure: Option<String> },
    Latency { source: Option<String> },
    /// A state change, with the `Debug` texts of the three states.
    StateChanged { from_pipeline: bool, old: String, current: String, pending: String },
    Eos { source: Option<String> },
    Other,
}

pub open spec fn opt_string_view(o: Option<String>) -> Option<Seq<char>> {
    match o {
        Some(s) => Some(s@),
        None => None,
    }
}

/// The name of a message's source: its path, or `unknown`.
pub open spec fn source_name(source: Option<String>) -> Seq<char> {
    match source {
        Some(s) => s@,
        None => "unknown"@,
    }
}

/// What a bus message is reported as: the log line, if any, and for a state change of the
/// pipeline itself the old and new state to record as a transition.
pub open spec fn spec_bus_report(m: BusMessage) -> (Option<(LogLevel, Seq<char>)>, Option<
    (Seq<char>, Seq<char>),
>) {
    match m {
        BusMessage::Error { source, error, debug } => (
            Some(
                (
                    LogLevel::Error,
                    "GStreamer bus error from "@ + source_name(source) + ": "@ + error@
                        + "; debug="@ + debug_option(opt_string_view(debug)) + "."@,
                ),
            ),
            None,
        ),
        BusMessage::Warning { source, error, debug } => (
            Some(
                (
                    LogLevel::Warn,
                    "GStreamer bus warning from "@ + source_name(source) + ": "@ + error@
                        + "; debug="@ + debug_option(opt_string_view(debug)) + "."@,
                ),
            ),
            None,
        ),
        BusMessage::Qos { source, structure } => (
            Some(
                (
                    LogLevel::Debug,
                    "GStreamer bus QoS from "@ + source_name(source) + ": "@ + match structure {
                        Some(s) => s@,
                        None => "no structure"@,
                    } + "."@,
                ),
            ),
            None,
        ),
        BusMessage::Latency { source } => (
            Some(
                (
                    LogLevel::Debug,
                    "GStreamer bus latency update from "@ + source_name(source) + "."@,
                ),
            ),
            None,
        ),
        BusMessage::StateChanged { from_pipeline, old, current, pending } => if from_pipeline {
            (
                Some(
                    (
                        LogLevel::Debug,
                        "GStreamer pipeline state changed: "@ + old@ + " -> "@ + current@
                            + " pending "@ + pending@ + "."@,
                    ),
                ),
                Some((old@, current@)),
            )
        } else {
            (None, None)
        },
        BusMessage::Eos { source } => (
            Some((LogLevel::Warn, "GStreamer bus EOS from "@ + source_name(source) + "."@)),
            None,
        ),
        BusMessage::Other => (None, None),
    }
}

fn append_source(s: &mut String, source: &Option<String>)
    ensures
        final(s)@ == old(s)@ + source_name(*source),
{
    match source {
        Some(v) => append_str(s, v.as_str()),
        None => append_str(s, "unknown"),
    }
}

fn append_debug_string(s: &mut String, o: &Option<String>)
    ensures
        final(s)@ == old(s)@ + debug_option(opt_string_view(*o)),
{
    match o {
        Some(v) => append_debug_option(s, Some(v.as_str())),
        None => append_debug_option(s, None),
    }
}

/// Describes one bus message, as `spec_bus_report` says.
pub fn describe_bus_message(message: &BusMessage) -> (r: (Option<LogLine>, Option<(String, String)>))
    ensures
        ({
            let (log, transition) = spec_bus_report(*message);
            &&& match (r.0, log) {
                (Some(a), Some(b)) => a@ == b,
                (None, None) => true,
                _ => false,
            }
            &&& match (r.1, transition) {
                (Some((a, b)), Some((c, d))) => a@ == c && b@ == d,
                (None, None) => true,
                _ => false,
            }
        }),
{
    match message {
        BusMessage::Error { source, error, debug } => {
            let mut s = String::from_str("GStreamer bus error from ");
            append_source(&mut s, source);
            append_str(&mut s, ": ");
            append_str(&mut s, error.as_str());
            append_str(&mut s, "; debug=");
            append_debug_string(&mut s, debug);
            append_str(&mut s, ".");
            (Some(LogLine { level: LogLevel::Error, message: s }), None)
        },
        BusMessage::Warning { source, error, debug } => {
            let mut s = String::from_str("GStreamer bus warning from ");
            append_source(&mut s, source);
            append_str(&mut s, ": ");
            append_str(&mut s, error.as_str());
            append_str(&mut s, "; debug=");
            append_debug_string(&mut s, debug);
            append_str(&mut s, ".");
            (Some(LogLine { level: LogLevel::Warn, message: s }), None)
        },
        BusMessage::Qos { source, structure } => {
            let mut s = String::from_str("GStreamer bus QoS from ");
            append_source(&mut s, source);
            append_str(&mut s, ": ");
            match structure {
                Some(v) => append_str(&mut s, v.as_str()),
                None => append_str(&mut s, "no structure"),
            }
            append_str(&mut s, ".");
            (Some(LogLine { level: LogLevel::Debug, message: s }), None)
        },
        BusMessage::Latency { source } => {
            let mut s = String::from_str("GStreamer bus latency update from ");
            append_source(&mut s, source);
            append_str(&mut s, ".");
            (Some(LogLine { level: LogLevel::Debug, message: s }), None)
        },
        BusMessage::StateChanged { from_pipeline, old, current, pending } => {
            if *from_pipeline {
                let mut s = String::from_str("GStreamer pipeline state changed: ");
                append_str(&mut s, old.as_str());
                append_str(&mut s, " -> ");
                append_str(&mut s, current.as_str());
                append_str(&mut s, " pending ");
                append_str(&mut s, pending.as_str());
                append_str(&mut s, ".");
                (
                    Some(LogLine { level: LogLevel::Debug, message: s }),
                    Some((old.clone(), current.clone())),
                )
            } else {
                (None, None)
            }
        },
        BusMessage::Eos { source } => {
            let mut s = String::from_str("GStreamer bus EOS from ");
            append_source(&mut s, source);
            append_str(&mut s, ".");
            (Some(LogLine { level: LogLevel::Warn, message: s }), None)
        },
        BusMessage::Other => (None, None),
    }
}

} // verus!
