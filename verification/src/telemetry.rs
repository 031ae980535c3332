//! Stream settings as the video path reads them, the queue mode chosen from them, and the
//! transition telemetry: queue-depth changes, flush counters and the last caps transition.
use vstd::prelude::*;
use crate::text::{append_decimal, append_str, decimal};
use crate::watchdog::TransitionFlushKind;

verus! {

/// The post-decode queue depth the video path starts with.
pub const VIDEO_QUEUE_MAX_BUFFERS: u32 = 1;

/// The queue depth used after a transition flush.
pub const TRANSITION_FLUSH_QUEUE_DEPTH: u32 = 2;

/// How the post-decode queue is sized.
#[derive(Debug, Clone, Copy, PartialEq, Eq, Structural)]
pub enum NativeQueueMode {
    Auto,
    Fixed,
    Adaptive,
    Vrr,
}

pub open spec fn spec_queue_mode_str(mode: NativeQueueMode) -> Seq<char> {
    match mode {
        NativeQueueMode::Auto => "auto"@,
        NativeQueueMode::Fixed => "fixed"@,
        NativeQueueMode::Adaptive => "adaptive"@,
        NativeQueueMode::Vrr => "vrr"@,
    }
}

impl NativeQueueMode {
    /// The name the telemetry reports.
    pub fn as_str(self) -> (r: &'static str)
        ensures
            r@ == spec_queue_mode_str(self),
    {
        match self {
            NativeQueueMode::Auto => "auto",
            NativeQueueMode::Fixed => "fixed",
            NativeQueueMode::Adaptive => "adaptive",
            NativeQueueMode::Vrr => "vrr",
        }
    }
}

/// The requested video codec.
#[derive(Debug, Clone, Copy, PartialEq, Eq, Structural)]
pub enum VideoCodec {
    H264,
    H265,
    Av1,
}

impl VideoCodec {
    pub fn as_str(self) -> (r: &'static str)
        ensures
            r@ == match self {
                VideoCodec::H264 => "H264"@,
                VideoCodec::H265 => "H265"@,
                VideoCodec::Av1 => "AV1"@,
            },
    {
        match self {
            VideoCodec::H264 => "H264",
            VideoCodec::H265 => "H265",
            VideoCodec::Av1 => "AV1",
        }
    }
}

/// The requested colour depth and chroma subsampling.
#[derive(Debug, Clone, Copy, PartialEq, Eq, Structural)]
pub enum ColorQuality {
    EightBit420,
    EightBit444,
    TenBit420,
    TenBit444,
}

/// Diagnostic overrides for the native transition handling.
#[derive(Debug, Clone, Copy, PartialEq, Eq, Structural)]
pub struct NativeTransitionDiagnostics {
    pub force_queue_mode: Option<NativeQueueMode>,
    pub disable_transition_flush_escalation: bool,
}

/// The stream settings the native video path reads.
#[derive(Debug, Clone)]
pub struct StreamSettings {
    pub resolution: String,
    pub fps: u32,
    pub max_bitrate_mbps: u32,
    pub codec: VideoCodec,
    pub color_quality: ColorQuality,
    pub enable_cloud_gsync: bool,
    pub native_transition_diagnostics: Option<NativeTransitionDiagnostics>,
}

/// The queue mode for a stream: a forced mode wins, then Cloud G-Sync asks for VRR, a
/// 240 fps (or faster) stream for the adaptive mode, and anything else for the fixed one.
pub open spec fn spec_queue_mode(settings: StreamSettings) -> NativeQueueMode {
    match settings.native_transition_diagnostics {
        Some(NativeTransitionDiagnostics { force_queue_mode: Some(mode), .. }) => mode,
        _ => if settings.enable_cloud_gsync {
            NativeQueueMode::Vrr
        } else if settings.fps >= 240 {
            NativeQueueMode::Adaptive
        } else {
            NativeQueueMode::Fixed
        },
    }
}

pub fn resolve_queue_mode(settings: &StreamSettings) -> (r: NativeQueueMode)
    ensures
        r == spec_queue_mode(*settings),
{
    if let Some(diagnostics) = settings.native_transition_diagnostics {
        if let Some(force_queue_mode) = diagnostics.force_queue_mode {
            return force_queue_mode;
        }
    }
    if settings.enable_cloud_gsync {
        return NativeQueueMode::Vrr;
    }
    if settings.fps >= 240 {
        return NativeQueueMode::Adaptive;
    }
    NativeQueueMode::Fixed
}

/// Whether transition flushes may escalate for a stream: yes unless the diagnostics disable it.
pub fn transition_flush_escalation_enabled(settings: &StreamSettings) -> (r: bool)
    ensures
        r == match settings.native_transition_diagnostics {
            Some(d) => !d.disable_transition_flush_escalation,
            None => true,
        },
{
    match settings.native_transition_diagnostics {
        Some(d) => !d.disable_transition_flush_escalation,
        None => true,
    }
}

/// The requested framerate, when one (non-zero) was requested.
pub fn requested_fps_of(fps: u32) -> (r: Option<u32>)
    ensures
        r == if fps > 0 {
            Some(fps)
        } else {
            None::<u32>
        },
{
    if fps > 0 {
        Some(fps)
    } else {
        None
    }
}

/// One recorded video transition (a caps, framerate, memory or pipeline-state change).
#[derive(Debug, Clone)]
pub struct TransitionSnapshot {
    pub transition_type: String,
    pub source: String,
    pub at_ms: u64,
    pub old_caps: Option<String>,
    pub new_caps: Option<String>,
    pub old_framerate: Option<String>,
    pub new_framerate: Option<String>,
    pub old_memory_mode: Option<String>,
    pub new_memory_mode: Option<String>,
    pub render_gap_ms: Option<u64>,
    pub requested_fps: Option<u32>,
    pub caps_framerate: Option<String>,
    pub high_fps_risk: bool,
    pub queue_mode: NativeQueueMode,
    pub summary: String,
}

/// What a video transition reports to the controlling process.
#[derive(Debug, Clone)]
pub struct VideoTransitionEvent {
    pub transition_type: String,
    pub source: String,
    pub at_ms: u64,
    pub old_caps: Option<String>,
    pub new_caps: Option<String>,
    pub old_framerate: Option<String>,
    pub new_framerate: Option<String>,
    pub old_memory_mode: Option<String>,
    pub new_memory_mode: Option<String>,
    pub render_gap_ms: Option<u64>,
    pub requested_fps: Option<u32>,
    pub caps_framerate: Option<String>,
    pub high_fps_risk: bool,
    pub queue_mode: String,
    pub summary: String,
}

pub open spec fn opt_view(o: Option<String>) -> Option<Seq<char>> {
    match o {
        Some(s) => Some(s@),
        None => None,
    }
}

fn clone_opt(o: &Option<String>) -> (r: Option<String>)
    ensures
        opt_view(r) == opt_view(*o),
{
    match o {
        Some(s) => Some(s.clone()),
        None => None,
    }
}

impl TransitionSnapshot {
    /// The event reporting this transition: the same fields, with the queue mode by name.
    pub fn to_event(&self) -> (r: VideoTransitionEvent)
        ensures
            r.transition_type@ == self.transition_type@,
            r.source@ == self.source@,
            r.at_ms == self.at_ms,
            opt_view(r.old_caps) == opt_view(self.old_caps),
            opt_view(r.new_caps) == opt_view(self.new_caps),
            opt_view(r.old_framerate) == opt_view(self.old_framerate),
            opt_view(r.new_framerate) == opt_view(self.new_framerate),
            opt_view(r.old_memory_mode) == opt_view(self.old_memory_mode),
            opt_view(r.new_memory_mode) == opt_view(self.new_memory_mode),
            r.render_gap_ms == self.render_gap_ms,
            r.requested_fps == self.requested_fps,
            opt_view(r.caps_framerate) == opt_view(self.caps_framerate),
            r.high_fps_risk == self.high_fps_risk,
            r.queue_mode@ == spec_queue_mode_str(self.queue_mode),
            r.summary@ == self.summary@,
    {
        VideoTransitionEvent {
            transition_type: self.transition_type.clone(),
            source: self.source.clone(),
            at_ms: self.at_ms,
            old_caps: clone_opt(&self.old_caps),
            new_caps: clone_opt(&self.new_caps),
            old_framerate: clone_opt(&self.old_framerate),
            new_framerate: clone_opt(&self.new_framerate),
            old_memory_mode: clone_opt(&self.old_memory_mode),
            new_memory_mode: clone_opt(&self.new_memory_mode),
            render_gap_ms: self.render_gap_ms,
            requested_fps: self.requested_fps,
            caps_framerate: clone_opt(&self.caps_framerate),
            high_fps_risk: self.high_fps_risk,
            queue_mode: String::from_str(self.queue_mode.as_str()),
            summary: self.summary.clone(),
        }
    }
}

/// Whether two snapshots hold the same transition.
pub open spec fn same_snapshot(a: TransitionSnapshot, b: TransitionSnapshot) -> bool {
    &&& a.transition_type@ == b.transition_type@
    &&& a.source@ == b.source@
    &&& a.at_ms == b.at_ms
    &&& opt_view(a.old_caps) == opt_view(b.old_caps)
    &&& opt_view(a.new_caps) == opt_view(b.new_caps)
    &&& opt_view(a.old_framerate) == opt_view(b.old_framerate)
    &&& opt_view(a.new_framerate) == opt_view(b.new_framerate)
    &&& opt_view(a.old_memory_mode) == opt_view(b.old_memory_mode)
    &&& opt_view(a.new_memory_mode) == opt_view(b.new_memory_mode)
    &&& a.render_gap_ms == b.render_gap_ms
    &&& a.requested_fps == b.requested_fps
    &&& opt_view(a.caps_framerate) == opt_view(b.caps_framerate)
    &&& a.high_fps_risk == b.high_fps_risk
    &&& a.queue_mode == b.queue_mode
    &&& a.summary@ == b.summary@
}

impl TransitionSnapshot {
    /// A copy of this snapshot.
    pub fn duplicate(&self) -> (r: Self)
        ensures
            same_snapshot(r, *self),
    {
        TransitionSnapshot {
            transition_type: self.transition_type.clone(),
            source: self.source.clone(),
            at_ms: self.at_ms,
            old_caps: clone_opt(&self.old_caps),
            new_caps: clone_opt(&self.new_caps),
            old_framerate: clone_opt(&self.old_framerate),
            new_framerate: clone_opt(&self.new_framerate),
            old_memory_mode: clone_opt(&self.old_memory_mode),
            new_memory_mode: clone_opt(&self.new_memory_mode),
            render_gap_ms: self.render_gap_ms,
            requested_fps: self.requested_fps,
            caps_framerate: clone_opt(&self.caps_framerate),
            high_fps_risk: self.high_fps_risk,
            queue_mode: self.queue_mode,
            summary: self.summary.clone(),
        }
    }
}

/// The framerate text `{fps}/1` that a stream at `fps` should announce.
pub open spec fn expected_framerate(fps: u32) -> Seq<char> {
    decimal(fps as nat) + "/1"@
}

/// Whether a transition risks destabilising a high-framerate stream: at least 240 fps were
/// requested and the new framerate is known and differs from `{fps}/1`.
pub open spec fn spec_high_fps_risk(requested_fps: Option<u32>, new_framerate: Option<Seq<char>>) -> bool {
    match (requested_fps, new_framerate) {
        (Some(fps), Some(rate)) => fps >= 240 && rate != expected_framerate(fps),
        _ => false,
    }
}

/// Builds the text `{fps}/1`.
pub fn expected_framerate_text(fps: u32) -> (r: String)
    ensures
        r@ == expected_framerate(fps),
{
    let mut s = String::new();
    append_decimal(&mut s, fps as u64);
    append_str(&mut s, "/1");
    s
}

pub fn high_fps_transition_risk(requested_fps: Option<u32>, new_framerate: Option<&str>) -> (r: bool)
    ensures
        r == spec_high_fps_risk(
            requested_fps,
            match new_framerate {
                Some(s) => Some(s@),
                None => None,
            },
        ),
{
    match (requested_fps, new_framerate) {
        (Some(fps), Some(rate)) => {
            if fps < 240 {
                return false;
            }
            let expected = expected_framerate_text(fps);
            !crate::text::str_eq(rate, expected.as_str())
        },
        _ => false,
    }
}

/// The one-line summary of a transition.
pub open spec fn transition_summary(
    transition_type: Seq<char>,
    source: Seq<char>,
    requested_fps: Option<u32>,
    old_framerate: Option<Seq<char>>,
    new_framerate: Option<Seq<char>>,
    high_fps_risk: bool,
) -> Seq<char> {
    let fps_summary = match (old_framerate, new_framerate) {
        (Some(old), Some(new)) => if old != new {
            "framerate "@ + old + " -> "@ + new
        } else {
            "framerate "@ + new
        },
        (None, Some(new)) => "framerate "@ + new,
        _ => "framerate unchanged/unknown"@,
    };
    if high_fps_risk {
        transition_type + " on "@ + source + ": "@ + fps_summary + " while requestedFps="@ + match requested_fps {
            Some(fps) => decimal(fps as nat),
            None => "unknown"@,
        } + " (high-fps transition risk)."@
    } else {
        transition_type + " on "@ + source + ": "@ + fps_summary + "."@
    }
}

pub fn format_transition_summary(
    transition_type: &str,
    source: &str,
    requested_fps: Option<u32>,
    old_framerate: Option<&str>,
    new_framerate: Option<&str>,
    high_fps_risk: bool,
) -> (r: String)
    ensures
        r@ == transition_summary(
            transition_type@,
            source@,
            requested_fps,
            match old_framerate {
                Some(s) => Some(s@),
                None => None,
            },
            match new_framerate {
                Some(s) => Some(s@),
                None => None,
            },
            high_fps_risk,
        ),
{
    let mut s = String::new();
    append_str(&mut s, transition_type);
    append_str(&mut s, " on ");
    append_str(&mut s, source);
    append_str(&mut s, ": ");
    match (old_framerate, new_framerate) {
        (Some(old), Some(new)) => {
            if !crate::text::str_eq(old, new) {
                append_str(&mut s, "framerate ");
                append_str(&mut s, old);
                append_str(&mut s, " -> ");
                append_str(&mut s, new);
            } else {
                append_str(&mut s, "framerate ");
                append_str(&mut s, new);
            }
        },
        (None, Some(new)) => {
            append_str(&mut s, "framerate ");
            append_str(&mut s, new);
        },
        _ => {
            append_str(&mut s, "framerate unchanged/unknown");
        },
    }
    if high_fps_risk {
        append_str(&mut s, " while requestedFps=");
        match requested_fps {
            Some(fps) => append_decimal(&mut s, fps as u64),
            None => append_str(&mut s, "unknown"),
        }
        append_str(&mut s, " (high-fps transition risk).");
    } else {
        append_str(&mut s, ".");
    }
    proof {
        let fps_summary = match (
            match old_framerate {
                Some(x) => Some(x@),
                None => None::<Seq<char>>,
            },
            match new_framerate {
                Some(x) => Some(x@),
                None => None::<Seq<char>>,
            },
        ) {
            (Some(old), Some(new)) => if old != new {
                "framerate "@ + old + " -> "@ + new
            } else {
                "framerate "@ + new
            },
            (None, Some(new)) => "framerate "@ + new,
            _ => "framerate unchanged/unknown"@,
        };
        if high_fps_risk {
            let fps_text = match requested_fps {
                Some(fps) => decimal(fps as nat),
                None => "unknown"@,
            };
            assert(s@ =~= transition_type@ + " on "@ + source@ + ": "@ + fps_summary
                + " while requestedFps="@ + fps_text + " (high-fps transition risk)."@);
        } else {
            assert(s@ =~= transition_type@ + " on "@ + source@ + ": "@ + fps_summary + "."@);
        }
    }
    s
}

/// The transition counters and the last transition of a video path.
#[derive(Debug, Clone)]
pub struct TransitionTelemetry {
    pub queue_mode: NativeQueueMode,
    pub queue_depth: u32,
    pub queue_depth_changes: u32,
    pub present_pacing_changes: u32,
    pub partial_flush_count: u32,
    pub complete_flush_count: u32,
    pub last_transition: Option<TransitionSnapshot>,
}

pub open spec fn sat_inc(v: u32) -> u32 {
    if v < u32::MAX {
        (v + 1) as u32
    } else {
        v
    }
}

fn saturating_inc(v: u32) -> (r: u32)
    ensures
        r == sat_inc(v),
{
    if v < u32::MAX {
        v + 1
    } else {
        v
    }
}

impl TransitionTelemetry {
    /// The telemetry of a fresh video path in a given queue mode.
    pub open spec fn is_reset(self, queue_mode: NativeQueueMode) -> bool {
        &&& self.queue_mode == queue_mode
        &&& self.queue_depth == VIDEO_QUEUE_MAX_BUFFERS
        &&& self.queue_depth_changes == 0
        &&& self.present_pacing_changes == 0
        &&& self.partial_flush_count == 0
        &&& self.complete_flush_count == 0
        &&& self.last_transition is None
    }

    pub fn new() -> (r: Self)
        ensures
            r.is_reset(NativeQueueMode::Auto),
    {
        TransitionTelemetry {
            queue_mode: NativeQueueMode::Auto,
            queue_depth: VIDEO_QUEUE_MAX_BUFFERS,
            queue_depth_changes: 0,
            present_pacing_changes: 0,
            partial_flush_count: 0,
            complete_flush_count: 0,
            last_transition: None,
        }
    }

    /// Resets the telemetry for a new stream with these settings.
    pub fn configure(&mut self, settings: &StreamSettings)
        ensures
            final(self).is_reset(spec_queue_mode(*settings)),
    {
        self.queue_mode = resolve_queue_mode(settings);
        self.queue_depth = VIDEO_QUEUE_MAX_BUFFERS;
        self.queue_depth_changes = 0;
        self.present_pacing_changes = 0;
        self.partial_flush_count = 0;
        self.complete_flush_count = 0;
        self.last_transition = None;
    }

    /// Records a new post-decode queue depth; returns whether it changed (and so is logged).
    pub fn set_queue_depth(&mut self, max_buffers: u32) -> (changed: bool)
        ensures
            changed == (old(self).queue_depth != max_buffers),
            final(self).queue_depth == max_buffers,
            final(self).queue_depth_changes == if changed {
                sat_inc(old(self).queue_depth_changes)
            } else {
                old(self).queue_depth_changes
            },
            final(self).queue_mode == old(self).queue_mode,
            final(self).present_pacing_changes == old(self).present_pacing_changes,
            final(self).partial_flush_count == old(self).partial_flush_count,
            final(self).complete_flush_count == old(self).complete_flush_count,
    {
        if self.queue_depth != max_buffers {
            self.queue_depth = max_buffers;
            self.queue_depth_changes = saturating_inc(self.queue_depth_changes);
            true
        } else {
            false
        }
    }

    /// Counts a change of the present pacing target.
    pub fn record_present_pacing_change(&mut self)
        ensures
            final(self).present_pacing_changes == sat_inc(old(self).present_pacing_changes),
            final(self).queue_depth == old(self).queue_depth,
            final(self).queue_depth_changes == old(self).queue_depth_changes,
            final(self).partial_flush_count == old(self).partial_flush_count,
            final(self).complete_flush_count == old(self).complete_flush_count,
    {
        self.present_pacing_changes = saturating_inc(self.present_pacing_changes);
    }

    /// Records a transition seen at `at_ms`, with the render gap and requested framerate of
    /// that moment: it becomes the last transition, and comes back as a snapshot whose summary
    /// flags a high-framerate risk when the new framerate differs from the requested one.
    pub fn record_transition(
        &mut self,
        transition_type: &str,
        source: &str,
        at_ms: u64,
        old_caps: Option<String>,
        new_caps: Option<String>,
        old_framerate: Option<String>,
        new_framerate: Option<String>,
        old_memory_mode: Option<String>,
        new_memory_mode: Option<String>,
        render_gap_ms: Option<u64>,
        requested_fps: Option<u32>,
    ) -> (r: TransitionSnapshot)
        ensures
            r.transition_type@ == transition_type@,
            r.source@ == source@,
            r.at_ms == at_ms,
            opt_view(r.old_caps) == opt_view(old_caps),
            opt_view(r.new_caps) == opt_view(new_caps),
            opt_view(r.old_framerate) == opt_view(old_framerate),
            opt_view(r.new_framerate) == opt_view(new_framerate),
            opt_view(r.old_memory_mode) == opt_view(old_memory_mode),
            opt_view(r.new_memory_mode) == opt_view(new_memory_mode),
            r.render_gap_ms == render_gap_ms,
            r.requested_fps == requested_fps,
            opt_view(r.caps_framerate) == opt_view(new_framerate),
            r.high_fps_risk == spec_high_fps_risk(requested_fps, opt_view(new_framerate)),
            r.queue_mode == old(self).queue_mode,
            r.summary@ == transition_summary(
                transition_type@,
                source@,
                requested_fps,
                opt_view(old_framerate),
                opt_view(new_framerate),
                spec_high_fps_risk(requested_fps, opt_view(new_framerate)),
            ),
            final(self).last_transition matches Some(last) && same_snapshot(last, r),
            final(self).queue_mode == old(self).queue_mode,
            final(self).queue_depth == old(self).queue_depth,
            final(self).queue_depth_changes == old(self).queue_depth_changes,
            final(self).present_pacing_changes == old(self).present_pacing_changes,
            final(self).partial_flush_count == old(self).partial_flush_count,
            final(self).complete_flush_count == old(self).complete_flush_count,
    {
        let high_fps_risk = high_fps_transition_risk(
            requested_fps,
            match &new_framerate {
                Some(f) => Some(f.as_str()),
                None => None,
            },
        );
        let summary = format_transition_summary(
            transition_type,
            source,
            requested_fps,
            match &old_framerate {
                Some(f) => Some(f.as_str()),
                None => None,
            },
            match &new_framerate {
                Some(f) => Some(f.as_str()),
                None => None,
            },
            high_fps_risk,
        );
        let caps_framerate = clone_opt(&new_framerate);
        let snapshot = TransitionSnapshot {
            transition_type: String::from_str(transition_type),
            source: String::from_str(source),
            at_ms,
            old_caps,
            new_caps,
            old_framerate,
            new_framerate,
            old_memory_mode,
            new_memory_mode,
            render_gap_ms,
            requested_fps,
            caps_framerate,
            high_fps_risk,
            queue_mode: self.queue_mode,
            summary,
        };
        self.last_transition = Some(snapshot.duplicate());
        snapshot
    }

    /// Counts a partial transition flush.
    pub fn increment_partial_flush_count(&mut self)
        ensures
            final(self).partial_flush_count == sat_inc(old(self).partial_flush_count),
            final(self).complete_flush_count == old(self).complete_flush_count,
            final(self).queue_depth == old(self).queue_depth,
    {
        self.partial_flush_count = saturating_inc(self.partial_flush_count);
    }

    /// Records a performed transition flush of `kind`: its counter rises by one (saturating),
    /// the other stays, and the post-decode queue depth becomes the transition flush depth,
    /// which counts as a depth change when it differs. Returns whether the depth changed (and
    /// so is logged).
    pub fn record_transition_flush(&mut self, kind: TransitionFlushKind) -> (depth_changed: bool)
        ensures
            depth_changed == (old(self).queue_depth != TRANSITION_FLUSH_QUEUE_DEPTH),
            final(self).partial_flush_count == if kind == TransitionFlushKind::Partial {
                sat_inc(old(self).partial_flush_count)
            } else {
                old(self).partial_flush_count
            },
            final(self).complete_flush_count == if kind == TransitionFlushKind::Complete {
                sat_inc(old(self).complete_flush_count)
            } else {
                old(self).complete_flush_count
            },
            final(self).queue_depth == TRANSITION_FLUSH_QUEUE_DEPTH,
            final(self).queue_depth_changes == if depth_changed {
                sat_inc(old(self).queue_depth_changes)
            } else {
                old(self).queue_depth_changes
            },
            final(self).queue_mode == old(self).queue_mode,
            final(self).present_pacing_changes == old(self).present_pacing_changes,
            final(self).last_transition == old(self).last_transition,
    {
        match kind {
            TransitionFlushKind::Partial => {
                self.partial_flush_count = saturating_inc(self.partial_flush_count);
            },
            TransitionFlushKind::Complete => {
                self.complete_flush_count = saturating_inc(self.complete_flush_count);
            },
        }
        let depth_changed = self.queue_depth != TRANSITION_FLUSH_QUEUE_DEPTH;
        if depth_changed {
            self.queue_depth = TRANSITION_FLUSH_QUEUE_DEPTH;
            self.queue_depth_changes = saturating_inc(self.queue_depth_changes);
        }
        depth_changed
    }

    /// Counts a complete transition flush.
    pub fn increment_complete_flush_count(&mut self)
        ensures
            final(self).complete_flush_count == sat_inc(old(self).complete_flush_count),
            final(self).partial_flush_count == old(self).partial_flush_count,
            final(self).queue_depth == old(self).queue_depth,
    {
        self.complete_flush_count = saturating_inc(self.complete_flush_count);
    }
}

impl Default for TransitionTelemetry {
    fn default() -> (r: Self)
        ensures
            r.is_reset(NativeQueueMode::Auto),
    {
        Self::new()
    }
}

} // verus!
