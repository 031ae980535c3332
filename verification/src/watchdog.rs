//! The decisions of the video liveness watchdog: which stage a stall is in, what each poll
//! does about it, and how startup without a first frame is recovered.
use vstd::prelude::*;
use crate::stall::{
    attempt_of, is_recovery_attempt, law_attempts_escalate, sat_sub, VideoStallAction,
    VideoStallTracker, VIDEO_STALL_WARNING_MS,
};
use crate::telemetry::VIDEO_QUEUE_MAX_BUFFERS;
use crate::text::{append_decimal, append_str, decimal};

verus! {

/// Video seen within this many milliseconds counts as still flowing.
pub const ACTIVE_RECENT_MS: u64 = 1_000;

/// Audio this long without a first video frame asks for a keyframe.
pub const VIDEO_STARTUP_KEYFRAME_MS: u64 = 2_500;

/// Audio this long without a first video frame also resyncs the pipeline latency.
pub const VIDEO_STARTUP_RESYNC_MS: u64 = 5_000;

/// Audio this long without a first video frame fails the startup.
pub const VIDEO_STARTUP_FATAL_MS: u64 = 8_000;

/// The age of a timestamp at `now_ms`; none when it was never set (zero).
pub open spec fn spec_age_since(now_ms: u64, last_ms: u64) -> Option<u64> {
    if last_ms != 0 {
        Some(sat_sub(now_ms, last_ms))
    } else {
        None
    }
}

pub fn age_since_ms(now_ms: u64, last_ms: u64) -> (r: Option<u64>)
    ensures
        r == spec_age_since(now_ms, last_ms),
{
    if last_ms != 0 {
        Some(now_ms.saturating_sub(last_ms))
    } else {
        None
    }
}

/// An age as it appears in the logs: `{n}ms`, or `n/a`.
pub open spec fn spec_age_text(age_ms: Option<u64>) -> Seq<char> {
    match age_ms {
        Some(n) => decimal(n as nat) + "ms"@,
        None => "n/a"@,
    }
}

pub fn format_age_ms(age_ms: Option<u64>) -> (r: String)
    ensures
        r@ == spec_age_text(age_ms),
{
    match age_ms {
        Some(n) => {
            let mut s = String::new();
            append_decimal(&mut s, n);
            append_str(&mut s, "ms");
            s
        },
        None => String::from_str("n/a"),
    }
}

/// Where in the video path a stall most likely sits.
#[derive(Debug, Clone, Copy, PartialEq, Eq, Structural)]
pub enum VideoStallStage {
    RtpIdle,
    DecodeChainStalled,
    PresentChainStalled,
    RtpNotObserved,
    OutputStalled,
}

pub open spec fn spec_stage_label(stage: VideoStallStage) -> Seq<char> {
    match stage {
        VideoStallStage::RtpIdle => "video-rtp-idle"@,
        VideoStallStage::DecodeChainStalled => "decode-chain-stalled"@,
        VideoStallStage::PresentChainStalled => "present-chain-stalled"@,
        VideoStallStage::RtpNotObserved => "video-rtp-not-observed"@,
        VideoStallStage::OutputStalled => "video-output-stalled"@,
    }
}

impl VideoStallStage {
    pub fn label(self) -> (r: &'static str)
        ensures
            r@ == spec_stage_label(self),
    {
        match self {
            VideoStallStage::RtpIdle => "video-rtp-idle",
            VideoStallStage::DecodeChainStalled => "decode-chain-stalled",
            VideoStallStage::PresentChainStalled => "present-chain-stalled",
            VideoStallStage::RtpNotObserved => "video-rtp-not-observed",
            VideoStallStage::OutputStalled => "video-output-stalled",
        }
    }
}

/// The stage of a stall, from the ages of the last encoded, decoded and rendered frame:
/// encoded video gone quiet first; then encoded video flowing with decoding stuck; then
/// decoding flowing with presenting stuck; no encoded video ever; any other stall.
pub open spec fn spec_stall_stage(
    encoded_age_ms: Option<u64>,
    decoded_age_ms: Option<u64>,
    sink_age_ms: Option<u64>,
) -> VideoStallStage {
    if encoded_age_ms matches Some(e) && e > VIDEO_STALL_WARNING_MS {
        VideoStallStage::RtpIdle
    } else if encoded_age_ms matches Some(e) && decoded_age_ms matches Some(d) && e
        <= ACTIVE_RECENT_MS && d > VIDEO_STALL_WARNING_MS {
        VideoStallStage::DecodeChainStalled
    } else if decoded_age_ms matches Some(d) && sink_age_ms matches Some(k) && d
        <= ACTIVE_RECENT_MS && k > VIDEO_STALL_WARNING_MS {
        VideoStallStage::PresentChainStalled
    } else if encoded_age_ms is None {
        VideoStallStage::RtpNotObserved
    } else {
        VideoStallStage::OutputStalled
    }
}

pub fn video_stall_stage(
    encoded_age_ms: Option<u64>,
    decoded_age_ms: Option<u64>,
    sink_age_ms: Option<u64>,
) -> (r: VideoStallStage)
    ensures
        r == spec_stall_stage(encoded_age_ms, decoded_age_ms, sink_age_ms),
{
    match (encoded_age_ms, decoded_age_ms, sink_age_ms) {
        (Some(encoded), _, _) if encoded > VIDEO_STALL_WARNING_MS => VideoStallStage::RtpIdle,
        (Some(encoded), Some(decoded), _) if encoded <= ACTIVE_RECENT_MS && decoded
            > VIDEO_STALL_WARNING_MS => VideoStallStage::DecodeChainStalled,
        (_, Some(decoded), Some(sink)) if decoded <= ACTIVE_RECENT_MS && sink
            > VIDEO_STALL_WARNING_MS => VideoStallStage::PresentChainStalled,
        (None, _, _) => VideoStallStage::RtpNotObserved,
        _ => VideoStallStage::OutputStalled,
    }
}

/// The label of the stage of a stall, as logs and events report it.
pub fn classify_video_stall(
    encoded_age_ms: Option<u64>,
    decoded_age_ms: Option<u64>,
    sink_age_ms: Option<u64>,
) -> (r: &'static str)
    ensures
        r@ == spec_stage_label(spec_stall_stage(encoded_age_ms, decoded_age_ms, sink_age_ms)),
{
    video_stall_stage(encoded_age_ms, decoded_age_ms, sink_age_ms).label()
}

/// How much of the decode path a transition flush resets.
#[derive(Debug, Clone, Copy, PartialEq, Eq, Structural)]
pub enum TransitionFlushKind {
    Partial,
    Complete,
}

/// What one watchdog poll observed.
#[derive(Debug, Clone, Copy)]
pub struct WatchdogSample {
    pub now_ms: u64,
    pub last_sink_ms: u64,
    pub last_encoded_ms: u64,
    pub last_decoded_ms: u64,
    pub flush_escalation_enabled: bool,
    pub queue_depth: u32,
}

/// The stall report a poll emits: its attempt number, the stall length, and whether the
/// pipeline latency is resynced as well.
#[derive(Debug, Clone, Copy, PartialEq, Eq, Structural)]
pub struct StallReport {
    pub attempt: u8,
    pub stall_ms: u64,
    pub will_resync: bool,
}

/// What one watchdog poll does, in this order: run the startup check (and nothing else),
/// request a keyframe, flush the transition path, report the stall, resync the latency,
/// fail the stream, report recovery (restoring the queue depth first when asked).
#[derive(Debug, Clone, Copy, PartialEq, Eq, Structural)]
pub struct WatchdogPlan {
    pub check_startup: bool,
    pub stage: VideoStallStage,
    pub request_keyframe: bool,
    pub flush: Option<TransitionFlushKind>,
    pub stall_report: Option<StallReport>,
    pub resync_latency: bool,
    pub fatal_stall_ms: Option<u64>,
    pub recovered_stall_ms: Option<u64>,
    pub reset_queue_depth: bool,
}

/// The stage of the stall a sample shows.
pub open spec fn sample_stage(s: WatchdogSample) -> VideoStallStage {
    spec_stall_stage(
        spec_age_since(s.now_ms, s.last_encoded_ms),
        spec_age_since(s.now_ms, s.last_decoded_ms),
        spec_age_since(s.now_ms, s.last_sink_ms),
    )
}

/// Whether a stall looks like a mid-stream transition the decoder failed to absorb: decoding
/// is stuck while encoded video still arrives.
pub open spec fn is_transition_stall(s: WatchdogSample) -> bool {
    &&& sample_stage(s) == VideoStallStage::DecodeChainStalled
    &&& spec_age_since(s.now_ms, s.last_encoded_ms) matches Some(age) && age <= ACTIVE_RECENT_MS
}

pub open spec fn quiet_plan(stage: VideoStallStage, check_startup: bool) -> WatchdogPlan {
    WatchdogPlan {
        check_startup,
        stage,
        request_keyframe: false,
        flush: None,
        stall_report: None,
        resync_latency: false,
        fatal_stall_ms: None,
        recovered_stall_ms: None,
        reset_queue_depth: false,
    }
}

/// What a poll does about the tracker's action: keyframe requests and the resync report the
/// stall after asking for a keyframe; the two flush attempts flush (after a keyframe request)
/// only for a transition stall with flush escalation on; the last attempt fails the stream;
/// recovery restores the queue depth when it grew past its maximum.
pub open spec fn spec_plan(action: VideoStallAction, s: WatchdogSample) -> WatchdogPlan {
    let stage = sample_stage(s);
    let quiet = quiet_plan(stage, false);
    let flush_ok = is_transition_stall(s) && s.flush_escalation_enabled;
    match action {
        VideoStallAction::Nothing => quiet,
        VideoStallAction::RequestKeyframe { attempt, stall_ms } => WatchdogPlan {
            request_keyframe: true,
            stall_report: Some(StallReport { attempt, stall_ms, will_resync: false }),
            ..quiet
        },
        VideoStallAction::Resync { attempt, stall_ms } => WatchdogPlan {
            request_keyframe: true,
            stall_report: Some(StallReport { attempt, stall_ms, will_resync: true }),
            resync_latency: true,
            ..quiet
        },
        VideoStallAction::PartialFlush { attempt, stall_ms } => WatchdogPlan {
            request_keyframe: flush_ok,
            flush: if flush_ok {
                Some(TransitionFlushKind::Partial)
            } else {
                None
            },
            stall_report: Some(StallReport { attempt, stall_ms, will_resync: false }),
            ..quiet
        },
        VideoStallAction::CompleteFlush { attempt, stall_ms } => WatchdogPlan {
            request_keyframe: flush_ok,
            flush: if flush_ok {
                Some(TransitionFlushKind::Complete)
            } else {
                None
            },
            stall_report: Some(StallReport { attempt, stall_ms, will_resync: false }),
            ..quiet
        },
        VideoStallAction::Fatal { attempt, stall_ms } => WatchdogPlan {
            stall_report: Some(StallReport { attempt, stall_ms, will_resync: false }),
            fatal_stall_ms: Some(stall_ms),
            ..quiet
        },
        VideoStallAction::Recovered { stall_ms } => WatchdogPlan {
            recovered_stall_ms: Some(stall_ms),
            reset_queue_depth: s.queue_depth > VIDEO_QUEUE_MAX_BUFFERS,
            ..quiet
        },
    }
}

/// What a poll after the first rendered frame does, in terms of the recovery attempt it makes:
/// - it reports a stall exactly when the tracker makes an attempt, with that attempt's number
///   (1 to 6) and the current stall length;
/// - attempts 1 to 3 always ask for a keyframe; attempt 3, and only it, also resyncs the
///   latency, and its report says so;
/// - a flush happens only on attempt 4 (partial) or 5 (complete), always after a keyframe
///   request, and exactly when the stall is a transition stall with flush escalation on;
/// - only attempt 6 fails the stream, with the stall length;
/// - a recovery reports its length and never asks for recovery steps.
pub proof fn law_poll_plan_follows_attempt(t: VideoStallTracker, s: WatchdogSample)
    requires
        t.wf(),
        s.last_sink_ms != 0,
    ensures
        ({
            let a = t.spec_action(s.now_ms, s.last_sink_ms);
            let p = spec_plan(a, s);
            let stall_ms = sat_sub(s.now_ms, s.last_sink_ms);
            let flush_ok = is_transition_stall(s) && s.flush_escalation_enabled;
            &&& (p.stall_report is Some) == is_recovery_attempt(a)
            &&& p.stall_report matches Some(r) ==> {
                &&& r.attempt == attempt_of(a)
                &&& 1 <= r.attempt <= 6
                &&& r.stall_ms == stall_ms
                &&& r.will_resync == p.resync_latency
                &&& (r.attempt <= 3 ==> p.request_keyframe)
                &&& (r.attempt == 3) == p.resync_latency
                &&& (p.flush == Some(TransitionFlushKind::Partial)) == (r.attempt == 4 && flush_ok)
                &&& (p.flush == Some(TransitionFlushKind::Complete)) == (r.attempt == 5 && flush_ok)
                &&& (r.attempt == 6) == (p.fatal_stall_ms == Some(stall_ms))
            }
            &&& p.resync_latency ==> p.request_keyframe
            &&& p.flush is Some ==> p.request_keyframe && p.stall_report is Some
            &&& p.fatal_stall_ms is Some ==> !p.request_keyframe && p.flush is None
            &&& p.recovered_stall_ms is Some ==> p.stall_report is None && !p.request_keyframe
                && p.flush is None
            &&& !p.check_startup
        }),
{
    let a = t.spec_action(s.now_ms, s.last_sink_ms);
    if is_recovery_attempt(a) {
        law_attempts_escalate(t, s.now_ms, s.last_sink_ms);
    }
}

/// Decides one watchdog poll. Before the first rendered frame the poll only runs the startup
/// check and leaves the tracker alone; after it the tracker evaluates the stall and the plan
/// carries out its action.
pub fn plan_watchdog_poll(tracker: &mut VideoStallTracker, sample: WatchdogSample) -> (plan:
    WatchdogPlan)
    requires
        old(tracker).wf(),
    ensures
        final(tracker).wf(),
        sample.last_sink_ms == 0 ==> {
            &&& plan == quiet_plan(sample_stage(sample), true)
            &&& *final(tracker) == *old(tracker)
        },
        sample.last_sink_ms != 0 ==> {
            &&& plan == spec_plan(old(tracker).spec_action(sample.now_ms, sample.last_sink_ms), sample)
            &&& *final(tracker) == old(tracker).spec_step(sample.now_ms, sample.last_sink_ms)
        },
{
    let encoded_age = age_since_ms(sample.now_ms, sample.last_encoded_ms);
    let decoded_age = age_since_ms(sample.now_ms, sample.last_decoded_ms);
    let sink_age = age_since_ms(sample.now_ms, sample.last_sink_ms);
    let stage = video_stall_stage(encoded_age, decoded_age, sink_age);
    let quiet = WatchdogPlan {
        check_startup: false,
        stage,
        request_keyframe: false,
        flush: None,
        stall_report: None,
        resync_latency: false,
        fatal_stall_ms: None,
        recovered_stall_ms: None,
        reset_queue_depth: false,
    };
    if sample.last_sink_ms == 0 {
        return WatchdogPlan { check_startup: true, ..quiet };
    }
    let transition_stall = stage == VideoStallStage::DecodeChainStalled && match encoded_age {
        Some(age) => age <= ACTIVE_RECENT_MS,
        None => false,
    };
    let flush_ok = transition_stall && sample.flush_escalation_enabled;
    match tracker.evaluate(sample.now_ms, sample.last_sink_ms) {
        VideoStallAction::Nothing => quiet,
        VideoStallAction::RequestKeyframe { attempt, stall_ms } => WatchdogPlan {
            request_keyframe: true,
            stall_report: Some(StallReport { attempt, stall_ms, will_resync: false }),
            ..quiet
        },
        VideoStallAction::Resync { attempt, stall_ms } => WatchdogPlan {
            request_keyframe: true,
            stall_report: Some(StallReport { attempt, stall_ms, will_resync: true }),
            resync_latency: true,
            ..quiet
        },
        VideoStallAction::PartialFlush { attempt, stall_ms } => WatchdogPlan {
            request_keyframe: flush_ok,
            flush: if flush_ok {
                Some(TransitionFlushKind::Partial)
            } else {
                None
            },
            stall_report: Some(StallReport { attempt, stall_ms, will_resync: false }),
            ..quiet
        },
        VideoStallAction::CompleteFlush { attempt, stall_ms } => WatchdogPlan {
            request_keyframe: flush_ok,
            flush: if flush_ok {
                Some(TransitionFlushKind::Complete)
            } else {
                None
            },
            stall_report: Some(StallReport { attempt, stall_ms, will_resync: false }),
            ..quiet
        },
        VideoStallAction::Fatal { attempt, stall_ms } => WatchdogPlan {
            stall_report: Some(StallReport { attempt, stall_ms, will_resync: false }),
            fatal_stall_ms: Some(stall_ms),
            ..quiet
        },
        VideoStallAction::Recovered { stall_ms } => WatchdogPlan {
            recovered_stall_ms: Some(stall_ms),
            reset_queue_depth: sample.queue_depth > VIDEO_QUEUE_MAX_BUFFERS,
            ..quiet
        },
    }
}

/// The recovery steps taken while audio plays and no video frame has been rendered yet;
/// each is taken at most once per stream.
#[derive(Debug, Clone, Copy)]
pub struct StartupRecovery {
    pub keyframe_requested: bool,
    pub resync_requested: bool,
    pub fatal_reported: bool,
}

/// What one startup check does: how long audio has been active, and which steps fire now.
#[derive(Debug, Clone, Copy, PartialEq, Eq, Structural)]
pub struct StartupPlan {
    pub audio_active_ms: u64,
    pub request_keyframe: bool,
    pub resync: bool,
    pub fatal: bool,
}

/// Whether audio is active enough for the startup check to act: it started, and its last
/// buffer is recent.
pub open spec fn startup_audio_active(now_ms: u64, first_audio_ms: u64, last_audio_ms: u64) -> bool {
    first_audio_ms != 0 && last_audio_ms != 0 && sat_sub(now_ms, last_audio_ms)
        <= VIDEO_STARTUP_KEYFRAME_MS
}

impl StartupRecovery {
    pub fn new() -> (r: Self)
        ensures
            !r.keyframe_requested && !r.resync_requested && !r.fatal_reported,
    {
        StartupRecovery { keyframe_requested: false, resync_requested: false, fatal_reported: false }
    }

    /// The plan of one startup check, none when audio is not active.
    pub open spec fn spec_plan(self, now_ms: u64, first_audio_ms: u64, last_audio_ms: u64) -> Option<
        StartupPlan,
    > {
        if !startup_audio_active(now_ms, first_audio_ms, last_audio_ms) {
            None
        } else {
            let active = sat_sub(now_ms, first_audio_ms);
            Some(
                StartupPlan {
                    audio_active_ms: active,
                    request_keyframe: active >= VIDEO_STARTUP_KEYFRAME_MS && !self.keyframe_requested,
                    resync: active >= VIDEO_STARTUP_RESYNC_MS && !self.resync_requested,
                    fatal: active >= VIDEO_STARTUP_FATAL_MS && !self.fatal_reported,
                },
            )
        }
    }

    /// The steps taken after one startup check.
    pub open spec fn spec_after(self, now_ms: u64, first_audio_ms: u64, last_audio_ms: u64) -> Self {
        match self.spec_plan(now_ms, first_audio_ms, last_audio_ms) {
            None => self,
            Some(p) => StartupRecovery {
                keyframe_requested: self.keyframe_requested || p.request_keyframe,
                resync_requested: self.resync_requested || p.resync,
                fatal_reported: self.fatal_reported || p.fatal,
            },
        }
    }

    /// Checks startup at `now_ms`, with audio first seen at `first_audio_ms` and last seen at
    /// `last_audio_ms` (zero: never), and marks the steps it takes.
    pub fn check(&mut self, now_ms: u64, first_audio_ms: u64, last_audio_ms: u64) -> (r: Option<
        StartupPlan,
    >)
        ensures
            r == old(self).spec_plan(now_ms, first_audio_ms, last_audio_ms),
            *final(self) == old(self).spec_after(now_ms, first_audio_ms, last_audio_ms),
    {
        if first_audio_ms == 0 || last_audio_ms == 0 || now_ms.saturating_sub(last_audio_ms)
            > VIDEO_STARTUP_KEYFRAME_MS {
            return None;
        }
        let active = now_ms.saturating_sub(first_audio_ms);
        let request_keyframe = active >= VIDEO_STARTUP_KEYFRAME_MS && !self.keyframe_requested;
        let resync = active >= VIDEO_STARTUP_RESYNC_MS && !self.resync_requested;
        let fatal = active >= VIDEO_STARTUP_FATAL_MS && !self.fatal_reported;
        self.keyframe_requested = self.keyframe_requested || request_keyframe;
        self.resync_requested = self.resync_requested || resync;
        self.fatal_reported = self.fatal_reported || fatal;
        Some(StartupPlan { audio_active_ms: active, request_keyframe, resync, fatal })
    }
}

/// Each startup recovery step fires at most once: a step that fired in one check does not
/// fire in any later check.
pub proof fn law_startup_steps_fire_once(
    r: StartupRecovery,
    now1: u64,
    first1: u64,
    last1: u64,
    now2: u64,
    first2: u64,
    last2: u64,
)
    ensures
        ({
            let after = r.spec_after(now1, first1, last1);
            let p1 = r.spec_plan(now1, first1, last1);
            let p2 = after.spec_plan(now2, first2, last2);
            &&& (p1 matches Some(a) && a.request_keyframe) ==> !(p2 matches Some(b)
                && b.request_keyframe)
            &&& (p1 matches Some(a) && a.resync) ==> !(p2 matches Some(b) && b.resync)
            &&& (p1 matches Some(a) && a.fatal) ==> !(p2 matches Some(b) && b.fatal)
        }),
{
}

/// The age of the last encoded video in the startup logs: `{n}ms`, or `never`.
pub open spec fn spec_encoded_age_text(now_ms: u64, last_encoded_ms: u64) -> Seq<char> {
    if last_encoded_ms == 0 {
        "never"@
    } else {
        decimal(sat_sub(now_ms, last_encoded_ms) as nat) + "ms"@
    }
}

pub fn startup_encoded_age(now_ms: u64, last_encoded_ms: u64) -> (r: String)
    ensures
        r@ == spec_encoded_age_text(now_ms, last_encoded_ms),
{
    if last_encoded_ms == 0 {
        String::from_str("never")
    } else {
        let mut s = String::new();
        append_decimal(&mut s, now_ms.saturating_sub(last_encoded_ms));
        append_str(&mut s, "ms");
        s
    }
}

/// An element of the video branch a transition flush resets.
#[derive(Debug, Clone, Copy, PartialEq, Eq, Structural)]
pub enum FlushTarget {
    PreDecodeQueue,
    Decoder,
    PostDecodeQueue,
}

pub open spec fn spec_flush_target_label(t: FlushTarget) -> Seq<char> {
    match t {
        FlushTarget::PreDecodeQueue => "pre-decode queue"@,
        FlushTarget::Decoder => "decoder"@,
        FlushTarget::PostDecodeQueue => "post-decode queue"@,
    }
}

impl FlushTarget {
    pub fn label(self) -> (r: &'static str)
        ensures
            r@ == spec_flush_target_label(self),
    {
        match self {
            FlushTarget::PreDecodeQueue => "pre-decode queue",
            FlushTarget::Decoder => "decoder",
            FlushTarget::PostDecodeQueue => "post-decode queue",
        }
    }
}

pub open spec fn spec_flush_kind_label(kind: TransitionFlushKind) -> Seq<char> {
    match kind {
        TransitionFlushKind::Partial => "partial"@,
        TransitionFlushKind::Complete => "complete"@,
    }
}

impl TransitionFlushKind {
    pub fn label(self) -> (r: &'static str)
        ensures
            r@ == spec_flush_kind_label(self),
    {
        match self {
            TransitionFlushKind::Partial => "partial",
            TransitionFlushKind::Complete => "complete",
        }
    }
}

pub open spec fn opt_target(present: bool, t: FlushTarget) -> Seq<FlushTarget> {
    if present {
        seq![t]
    } else {
        Seq::empty()
    }
}

/// The elements a flush resets, in order: the pre-decode queue, the decoder (complete flush
/// only) and the post-decode queue, each where it is registered.
pub open spec fn spec_flush_targets(
    kind: TransitionFlushKind,
    has_pre_decode_queue: bool,
    has_decoder: bool,
    has_post_decode_queue: bool,
) -> Seq<FlushTarget> {
    opt_target(has_pre_decode_queue, FlushTarget::PreDecodeQueue) + opt_target(
        kind == TransitionFlushKind::Complete && has_decoder,
        FlushTarget::Decoder,
    ) + opt_target(has_post_decode_queue, FlushTarget::PostDecodeQueue)
}

pub fn transition_flush_targets(
    kind: TransitionFlushKind,
    has_pre_decode_queue: bool,
    has_decoder: bool,
    has_post_decode_queue: bool,
) -> (r: Vec<FlushTarget>)
    ensures
        r@ == spec_flush_targets(kind, has_pre_decode_queue, has_decoder, has_post_decode_queue),
{
    let mut targets: Vec<FlushTarget> = Vec::new();
    if has_pre_decode_queue {
        targets.push(FlushTarget::PreDecodeQueue);
    }
    if kind == TransitionFlushKind::Complete && has_decoder {
        targets.push(FlushTarget::Decoder);
    }
    if has_post_decode_queue {
        targets.push(FlushTarget::PostDecodeQueue);
    }
    assert(targets@ =~= spec_flush_targets(
        kind,
        has_pre_decode_queue,
        has_decoder,
        has_post_decode_queue,
    ));
    targets
}

/// Plans a transition flush of `kind` over the registered elements: the elements to flush,
/// or none when no element it would flush is registered (then nothing is flushed, counted or
/// resized, and only a warning is logged).
pub fn plan_transition_flush(
    kind: TransitionFlushKind,
    has_pre_decode_queue: bool,
    has_decoder: bool,
    has_post_decode_queue: bool,
) -> (r: Option<Vec<FlushTarget>>)
    ensures
        match r {
            Some(targets) => {
                &&& targets@ == spec_flush_targets(kind, has_pre_decode_queue, has_decoder, has_post_decode_queue)
                &&& targets@.len() > 0
            },
            None => spec_flush_targets(kind, has_pre_decode_queue, has_decoder, has_post_decode_queue).len() == 0,
        },
{
    let targets = transition_flush_targets(kind, has_pre_decode_queue, has_decoder, has_post_decode_queue);
    if targets.len() == 0 {
        None
    } else {
        Some(targets)
    }
}

/// The warning of a flush that finds nothing to flush.
pub fn nothing_to_flush_message() -> (r: &'static str)
    ensures
        r@ == "Cannot flush native transition path because no video branch elements are registered."@,
{
    "Cannot flush native transition path because no video branch elements are registered."
}

pub open spec fn spec_flush_queue_reason(kind: TransitionFlushKind) -> Seq<char> {
    match kind {
        TransitionFlushKind::Partial => "transition partial flush"@,
        TransitionFlushKind::Complete => "transition complete flush"@,
    }
}

/// Why the post-decode queue is resized after a flush of `kind`, for the queue depth log.
pub fn flush_queue_reason(kind: TransitionFlushKind) -> (r: &'static str)
    ensures
        r@ == spec_flush_queue_reason(kind),
{
    match kind {
        TransitionFlushKind::Partial => "transition partial flush",
        TransitionFlushKind::Complete => "transition complete flush",
    }
}

/// The labels of the targets, separated by `, `.
pub open spec fn joined_target_labels(ts: Seq<FlushTarget>) -> Seq<char>
    decreases ts.len(),
{
    if ts.len() == 0 {
        Seq::empty()
    } else if ts.len() == 1 {
        spec_flush_target_label(ts[0])
    } else {
        joined_target_labels(ts.drop_last()) + ", "@ + spec_flush_target_label(ts.last())
    }
}

/// The log line of a performed flush.
pub open spec fn spec_flush_message(kind: TransitionFlushKind, ts: Seq<FlushTarget>) -> Seq<char> {
    "Performed "@ + spec_flush_kind_label(kind) + " native transition flush on "@
        + joined_target_labels(ts) + "."@
}

pub fn transition_flush_message(kind: TransitionFlushKind, targets: &Vec<FlushTarget>) -> (r:
    String)
    ensures
        r@ == spec_flush_message(kind, targets@),
{
    let mut joined = String::new();
    let mut i: usize = 0;
    while i < targets.len()
        invariant
            i <= targets.len(),
            joined@ == joined_target_labels(targets@.subrange(0, i as int)),
        decreases targets.len() - i,
    {
        let ghost before = targets@.subrange(0, i as int);
        assert(targets@.subrange(0, i + 1).drop_last() =~= before);
        if i > 0 {
            append_str(&mut joined, ", ");
        }
        append_str(&mut joined, targets[i].label());
        i += 1;
    }
    assert(targets@.subrange(0, targets.len() as int) =~= targets@);
    let mut s = String::from_str("Performed ");
    append_str(&mut s, kind.label());
    append_str(&mut s, " native transition flush on ");
    append_str(&mut s, joined.as_str());
    append_str(&mut s, ".");
    s
}

} // verus!
