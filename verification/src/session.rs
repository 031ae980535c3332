//! What the streaming session reports while it starts, negotiates and changes its limits.
use vstd::prelude::*;
use crate::log_line::{LogLevel, LogLine};
use crate::present::PRESENT_LIMITER_AUTO_SENTINEL;
use crate::telemetry::VideoCodec;
use crate::text::{append_decimal, append_str, decimal};

verus! {

pub open spec fn spec_codec_name(codec: VideoCodec) -> Seq<char> {
    match codec {
        VideoCodec::H264 => "H264"@,
        VideoCodec::H265 => "H265"@,
        VideoCodec::Av1 => "AV1"@,
    }
}

/// The status line once a pipeline is ready for a session.
pub open spec fn spec_pipeline_ready(session_id: Seq<char>, webrtc_name: Seq<char>) -> Seq<char> {
    "GStreamer backend selected for session "@ + session_id + "; "@ + webrtc_name
        + " pipeline is ready."@
}

pub fn pipeline_ready_message(session_id: &str, webrtc_name: &str) -> (r: String)
    ensures
        r@ == spec_pipeline_ready(session_id@, webrtc_name@),
{
    let mut s = String::from_str("GStreamer backend selected for session ");
    append_str(&mut s, session_id);
    append_str(&mut s, "; ");
    append_str(&mut s, webrtc_name);
    append_str(&mut s, " pipeline is ready.");
    s
}

/// The log line of an offer when a fixed present limit is configured (neither off nor
/// automatic).
pub open spec fn spec_offer_limiter_log(present_max_fps: u32, stream_fps: u32) -> Option<Seq<char>> {
    if present_max_fps > 0 && present_max_fps != PRESENT_LIMITER_AUTO_SENTINEL {
        Some(
            "Native present limiter enabled at "@ + decimal(present_max_fps as nat) + " fps for "@
                + decimal(stream_fps as nat)
                + " fps stream; set OPENNOW_NATIVE_PRESENT_MAX_FPS=0 to disable."@,
        )
    } else {
        None
    }
}

pub fn offer_present_limiter_log(present_max_fps: u32, stream_fps: u32) -> (r: Option<String>)
    ensures
        match (r, spec_offer_limiter_log(present_max_fps, stream_fps)) {
            (Some(a), Some(b)) => a@ == b,
            (None, None) => true,
            _ => false,
        },
{
    if present_max_fps > 0 && present_max_fps != PRESENT_LIMITER_AUTO_SENTINEL {
        let mut s = String::from_str("Native present limiter enabled at ");
        append_decimal(&mut s, present_max_fps as u64);
        append_str(&mut s, " fps for ");
        append_decimal(&mut s, stream_fps as u64);
        append_str(&mut s, " fps stream; set OPENNOW_NATIVE_PRESENT_MAX_FPS=0 to disable.");
        Some(s)
    } else {
        None
    }
}

/// The log line of an offer when the D3D sink presents fullscreen.
pub fn offer_fullscreen_log(d3d_fullscreen_sink: bool) -> (r: Option<&'static str>)
    ensures
        d3d_fullscreen_sink ==> (r matches Some(m) && m@
            == "Native D3D fullscreen presentation is enabled for Cloud G-Sync/VRR; set OPENNOW_NATIVE_D3D_FULLSCREEN=0 to disable."@),
        !d3d_fullscreen_sink ==> r is None,
{
    if d3d_fullscreen_sink {
        Some(
            "Native D3D fullscreen presentation is enabled for Cloud G-Sync/VRR; set OPENNOW_NATIVE_D3D_FULLSCREEN=0 to disable.",
        )
    } else {
        None
    }
}

/// What the answer's video codec is logged as: a warning when it differs from the requested
/// one (the NVST description follows the negotiated codec), a confirmation otherwise, nothing
/// when the answer names none.
pub open spec fn spec_codec_log(negotiated: Option<VideoCodec>, requested: VideoCodec) -> Option<
    (LogLevel, Seq<char>),
> {
    match negotiated {
        None => None,
        Some(codec) => if codec != requested {
            Some(
                (
                    LogLevel::Warn,
                    "Negotiated video codec is "@ + spec_codec_name(codec)
                        + " while requested codec was "@ + spec_codec_name(requested)
                        + "; building NVST SDP for the negotiated codec to avoid server/client codec mismatch."@,
                ),
            )
        } else {
            Some(
                (
                    LogLevel::Debug,
                    "Negotiated video codec confirmed as "@ + spec_codec_name(codec) + "."@,
                ),
            )
        },
    }
}

pub fn negotiated_codec_log(negotiated: Option<VideoCodec>, requested: VideoCodec) -> (r: Option<
    LogLine,
>)
    ensures
        match (r, spec_codec_log(negotiated, requested)) {
            (Some(a), Some(b)) => a@ == b,
            (None, None) => true,
            _ => false,
        },
{
    match negotiated {
        None => None,
        Some(codec) => {
            if codec != requested {
                let mut s = String::from_str("Negotiated video codec is ");
                append_str(&mut s, codec.as_str());
                append_str(&mut s, " while requested codec was ");
                append_str(&mut s, requested.as_str());
                append_str(
                    &mut s,
                    "; building NVST SDP for the negotiated codec to avoid server/client codec mismatch.",
                );
                Some(LogLine { level: LogLevel::Warn, message: s })
            } else {
                let mut s = String::from_str("Negotiated video codec confirmed as ");
                append_str(&mut s, codec.as_str());
                append_str(&mut s, ".");
                Some(LogLine { level: LogLevel::Debug, message: s })
            }
        },
    }
}

/// The log line after the bitrate limit changed.
pub open spec fn spec_bitrate_limit_message(max_bitrate_kbps: u32) -> Seq<char> {
    "Updated native bitrate limit to "@ + decimal(max_bitrate_kbps as nat)
        + " Kbps. The active GFN server bitrate cap is negotiated in NVST SDP and will apply on the next native offer/reconnect."@
}

pub fn bitrate_limit_message(max_bitrate_kbps: u32) -> (r: String)
    ensures
        r@ == spec_bitrate_limit_message(max_bitrate_kbps),
{
    let mut s = String::from_str("Updated native bitrate limit to ");
    append_decimal(&mut s, max_bitrate_kbps as u64);
    append_str(
        &mut s,
        " Kbps. The active GFN server bitrate cap is negotiated in NVST SDP and will apply on the next native offer/reconnect.",
    );
    s
}

/// The media line a remote candidate is added on: the one it names, else the first.
pub fn candidate_m_line(sdp_m_line_index: Option<u32>) -> (r: u32)
    ensures
        r == match sdp_m_line_index {
            Some(i) => i,
            None => 0u32,
        },
{
    match sdp_m_line_index {
        Some(i) => i,
        None => 0,
    }
}


/// The error codes the backend answers a failed command with.
#[derive(Debug, Clone, Copy, PartialEq, Eq, Structural)]
pub enum BackendErrorCode {
    StartFailed,
    InvalidRemoteSdp,
    NotStarted,
    NegotiationFailed,
    RemoteIceFailed,
    StopFailed,
}

pub open spec fn spec_error_code(code: BackendErrorCode) -> Seq<char> {
    match code {
        BackendErrorCode::StartFailed => "gstreamer-start-failed"@,
        BackendErrorCode::InvalidRemoteSdp => "invalid-remote-sdp"@,
        BackendErrorCode::NotStarted => "gstreamer-not-started"@,
        BackendErrorCode::NegotiationFailed => "gstreamer-negotiation-failed"@,
        BackendErrorCode::RemoteIceFailed => "remote-ice-failed"@,
        BackendErrorCode::StopFailed => "gstreamer-stop-failed"@,
    }
}

impl BackendErrorCode {
    /// The code as it is sent.
    pub fn as_str(&self) -> (r: &'static str)
        ensures
            r@ == spec_error_code(*self),
    {
        match self {
            BackendErrorCode::StartFailed => "gstreamer-start-failed",
            BackendErrorCode::InvalidRemoteSdp => "invalid-remote-sdp",
            BackendErrorCode::NotStarted => "gstreamer-not-started",
            BackendErrorCode::NegotiationFailed => "gstreamer-negotiation-failed",
            BackendErrorCode::RemoteIceFailed => "remote-ice-failed",
            BackendErrorCode::StopFailed => "gstreamer-stop-failed",
        }
    }
}

/// The message of an offer that arrives before the pipeline was started.
pub fn not_started_message() -> (r: &'static str)
    ensures
        r@ == "GStreamer pipeline is not started."@,
{
    "GStreamer pipeline is not started."
}

/// The steps of answering an offer, in the order they run.
#[derive(Debug, Clone, Copy, PartialEq, Eq, Structural)]
pub enum OfferStep {
    /// Parse the remote offer.
    ParseRemoteSdp,
    /// Find the started pipeline.
    FindPipeline,
    /// Let the pipeline negotiate the local answer.
    Negotiate,
    /// Add the remote candidates that arrived before the offer; a candidate that fails is
    /// reported with `RemoteIceFailed` and the answer still goes out.
    ReplayCandidates,
}

/// Where an offer stands after a step.
#[derive(Debug, Clone, Copy, PartialEq, Eq, Structural)]
pub enum OfferProgress {
    Next(OfferStep),
    Failed(BackendErrorCode),
    Answered,
}

/// A step that succeeds leads to the next one; the first step that fails ends the offer with
/// its error code. Replaying candidates never fails the offer.
pub open spec fn spec_offer_progress(step: OfferStep, succeeded: bool) -> OfferProgress {
    match step {
        OfferStep::ParseRemoteSdp => if succeeded {
            OfferProgress::Next(OfferStep::FindPipeline)
        } else {
            OfferProgress::Failed(BackendErrorCode::InvalidRemoteSdp)
        },
        OfferStep::FindPipeline => if succeeded {
            OfferProgress::Next(OfferStep::Negotiate)
        } else {
            OfferProgress::Failed(BackendErrorCode::NotStarted)
        },
        OfferStep::Negotiate => if succeeded {
            OfferProgress::Next(OfferStep::ReplayCandidates)
        } else {
            OfferProgress::Failed(BackendErrorCode::NegotiationFailed)
        },
        OfferStep::ReplayCandidates => OfferProgress::Answered,
    }
}

/// Decides how an offer goes on after `step` succeeded or failed.
pub fn offer_progress(step: OfferStep, succeeded: bool) -> (r: OfferProgress)
    ensures
        r == spec_offer_progress(step, succeeded),
{
    match step {
        OfferStep::ParseRemoteSdp => if succeeded {
            OfferProgress::Next(OfferStep::FindPipeline)
        } else {
            OfferProgress::Failed(BackendErrorCode::InvalidRemoteSdp)
        },
        OfferStep::FindPipeline => if succeeded {
            OfferProgress::Next(OfferStep::Negotiate)
        } else {
            OfferProgress::Failed(BackendErrorCode::NotStarted)
        },
        OfferStep::Negotiate => if succeeded {
            OfferProgress::Next(OfferStep::ReplayCandidates)
        } else {
            OfferProgress::Failed(BackendErrorCode::NegotiationFailed)
        },
        OfferStep::ReplayCandidates => OfferProgress::Answered,
    }
}

} // verus!
