//! The running record of a video path: when encoded, decoded, rendered video and audio were
//! last seen, how much of each has passed, and the stream settings the watchdog reads.
use vstd::prelude::*;
use crate::caps_watch::MismatchWarning;
use crate::telemetry::{spec_queue_mode, StreamSettings, TransitionTelemetry, VideoCodec};
use crate::text::{append_decimal, append_str, decimal};
use crate::watchdog::{StartupRecovery, WatchdogSample};

verus! {

/// `a + b` modulo 2^64, as an atomic counter adds.
pub open spec fn wrap_add(a: u64, b: u64) -> u64 {
    ((a + b) % 0x1_0000_0000_0000_0000) as u64
}

fn wrapping_add_u64(a: u64, b: u64) -> (r: u64)
    ensures
        r == wrap_add(a, b),
{
    if a > u64::MAX - b {
        b - (u64::MAX - a) - 1
    } else {
        a + b
    }
}

/// The liveness record of a video path. Timestamps are milliseconds since the path started;
/// zero means never.
pub struct LivenessRecord {
    pub encoded_bytes_total: u64,
    pub last_encoded_ms: u64,
    pub last_decoded_ms: u64,
    pub last_sink_ms: u64,
    pub last_audio_ms: u64,
    pub first_startup_audio_ms: u64,
    pub decoded_total: u64,
    pub sink_total: u64,
    pub requested_fps: u32,
    pub target_bitrate_kbps: u32,
    pub flush_escalation_enabled: bool,
    pub first_encoded_logged: bool,
}

impl LivenessRecord {
    /// Nothing seen yet, no framerate or bitrate requested, flush escalation on.
    pub open spec fn is_fresh(&self) -> bool {
        &&& self.encoded_bytes_total == 0
        &&& self.last_encoded_ms == 0
        &&& self.last_decoded_ms == 0
        &&& self.last_sink_ms == 0
        &&& self.last_audio_ms == 0
        &&& self.first_startup_audio_ms == 0
        &&& self.decoded_total == 0
        &&& self.sink_total == 0
        &&& self.requested_fps == 0
        &&& self.target_bitrate_kbps == 0
        &&& self.flush_escalation_enabled
        &&& !self.first_encoded_logged
    }

    pub fn new() -> (r: Self)
        ensures
            r.is_fresh(),
    {
        LivenessRecord {
            encoded_bytes_total: 0,
            last_encoded_ms: 0,
            last_decoded_ms: 0,
            last_sink_ms: 0,
            last_audio_ms: 0,
            first_startup_audio_ms: 0,
            decoded_total: 0,
            sink_total: 0,
            requested_fps: 0,
            target_bitrate_kbps: 0,
            flush_escalation_enabled: true,
            first_encoded_logged: false,
        }
    }

    /// The record after taking over a new stream's settings.
    pub open spec fn configured(self, settings: StreamSettings, target_bitrate_kbps: u32) -> Self {
        LivenessRecord {
            requested_fps: settings.fps,
            target_bitrate_kbps,
            flush_escalation_enabled: match settings.native_transition_diagnostics {
                Some(d) => !d.disable_transition_flush_escalation,
                None => true,
            },
            first_startup_audio_ms: 0,
            first_encoded_logged: false,
            ..self
        }
    }

    /// Takes over a new stream's settings: its framerate and bitrate target, whether flushes
    /// may escalate, and a fresh startup (no first encoded log, no startup audio).
    pub fn configure(&mut self, settings: &StreamSettings, target_bitrate_kbps: u32)
        ensures
            *final(self) == old(self).configured(*settings, target_bitrate_kbps),
            final(self).requested_fps == settings.fps,
            final(self).target_bitrate_kbps == target_bitrate_kbps,
            final(self).flush_escalation_enabled == match settings.native_transition_diagnostics {
                Some(d) => !d.disable_transition_flush_escalation,
                None => true,
            },
            final(self).first_startup_audio_ms == 0,
            !final(self).first_encoded_logged,
            final(self).last_sink_ms == old(self).last_sink_ms,
            final(self).last_encoded_ms == old(self).last_encoded_ms,
            final(self).last_decoded_ms == old(self).last_decoded_ms,
            final(self).last_audio_ms == old(self).last_audio_ms,
            final(self).encoded_bytes_total == old(self).encoded_bytes_total,
            final(self).decoded_total == old(self).decoded_total,
            final(self).sink_total == old(self).sink_total,
    {
        self.target_bitrate_kbps = target_bitrate_kbps;
        self.requested_fps = settings.fps;
        self.first_encoded_logged = false;
        self.first_startup_audio_ms = 0;
        self.flush_escalation_enabled = crate::telemetry::transition_flush_escalation_enabled(settings);
    }

    /// An encoded buffer of `size` bytes arrived at `now_ms`.
    pub fn record_encoded_buffer(&mut self, now_ms: u64, size: u64)
        ensures
            final(self).last_encoded_ms == now_ms,
            final(self).encoded_bytes_total == wrap_add(old(self).encoded_bytes_total, size),
            final(self).last_sink_ms == old(self).last_sink_ms,
            final(self).decoded_total == old(self).decoded_total,
            final(self).sink_total == old(self).sink_total,
    {
        self.last_encoded_ms = now_ms;
        self.encoded_bytes_total = wrapping_add_u64(self.encoded_bytes_total, size);
    }

    /// A decoded frame passed at `now_ms`.
    pub fn record_decoded_buffer(&mut self, now_ms: u64)
        ensures
            final(self).last_decoded_ms == now_ms,
            final(self).decoded_total == wrap_add(old(self).decoded_total, 1),
            final(self).last_sink_ms == old(self).last_sink_ms,
            final(self).sink_total == old(self).sink_total,
            final(self).encoded_bytes_total == old(self).encoded_bytes_total,
    {
        self.last_decoded_ms = now_ms;
        self.decoded_total = wrapping_add_u64(self.decoded_total, 1);
    }

    /// A frame reached the sink at `now_ms`.
    pub fn record_sink_buffer(&mut self, now_ms: u64)
        ensures
            final(self).last_sink_ms == now_ms,
            final(self).sink_total == wrap_add(old(self).sink_total, 1),
            final(self).decoded_total == old(self).decoded_total,
            final(self).encoded_bytes_total == old(self).encoded_bytes_total,
    {
        self.last_sink_ms = now_ms;
        self.sink_total = wrapping_add_u64(self.sink_total, 1);
    }

    /// An audio buffer played at `now_ms`; before the first rendered video frame the first
    /// such moment is kept as the start of startup audio.
    pub fn record_audio_buffer(&mut self, now_ms: u64)
        ensures
            final(self).last_audio_ms == now_ms,
            final(self).first_startup_audio_ms == if old(self).last_sink_ms == 0
                && old(self).first_startup_audio_ms == 0 {
                now_ms
            } else {
                old(self).first_startup_audio_ms
            },
            final(self).last_sink_ms == old(self).last_sink_ms,
    {
        self.last_audio_ms = now_ms;
        if self.last_sink_ms == 0 && self.first_startup_audio_ms == 0 {
            self.first_startup_audio_ms = now_ms;
        }
    }

    /// Whether the first encoded buffer is still to be logged; afterwards it is not.
    pub fn log_first_encoded_once(&mut self) -> (r: bool)
        ensures
            r == !old(self).first_encoded_logged,
            final(self).first_encoded_logged,
    {
        let first = !self.first_encoded_logged;
        self.first_encoded_logged = true;
        first
    }

    /// The requested framerate, when one was requested.
    pub fn requested_fps(&self) -> (r: Option<u32>)
        ensures
            r == if self.requested_fps > 0 {
                Some(self.requested_fps)
            } else {
                None::<u32>
            },
    {
        crate::telemetry::requested_fps_of(self.requested_fps)
    }

    /// What the watchdog sees at `now_ms` with the given post-decode queue depth.
    pub fn watchdog_sample(&self, now_ms: u64, queue_depth: u32) -> (r: WatchdogSample)
        ensures
            r == (WatchdogSample {
                now_ms,
                last_sink_ms: self.last_sink_ms,
                last_encoded_ms: self.last_encoded_ms,
                last_decoded_ms: self.last_decoded_ms,
                flush_escalation_enabled: self.flush_escalation_enabled,
                queue_depth,
            }),
    {
        WatchdogSample {
            now_ms,
            last_sink_ms: self.last_sink_ms,
            last_encoded_ms: self.last_encoded_ms,
            last_decoded_ms: self.last_decoded_ms,
            flush_escalation_enabled: self.flush_escalation_enabled,
            queue_depth,
        }
    }
}

/// Whether the statistics overlay shows a text: only when visible, and only a non-empty text.
pub fn overlay_shows_text(visible: bool, text: &str) -> (r: bool)
    ensures
        r == (visible && text@.len() > 0),
{
    visible && text.unicode_len() > 0
}

/// The log line after the post-decode queue depth changed.
pub open spec fn spec_queue_depth_message(max_buffers: u32, reason: Seq<char>) -> Seq<char> {
    "Adjusted native post-decode queue depth to "@ + decimal(max_buffers as nat) + " ("@ + reason
        + ")."@
}

pub fn queue_depth_message(max_buffers: u32, reason: &str) -> (r: String)
    ensures
        r@ == spec_queue_depth_message(max_buffers, reason@),
{
    let mut s = String::from_str("Adjusted native post-decode queue depth to ");
    append_decimal(&mut s, max_buffers as u64);
    append_str(&mut s, " (");
    append_str(&mut s, reason);
    append_str(&mut s, ").");
    s
}

/// The memory path the statistics overlay names: the memory mode, marked zero-copy when it is
/// one, after the hardware acceleration when there is one.
pub open spec fn spec_memory_path(memory_mode: Seq<char>, zero_copy: bool, hardware_acceleration: Seq<char>) -> Seq<
    char,
> {
    let path = if zero_copy {
        memory_mode + " zero-copy"@
    } else {
        memory_mode
    };
    if hardware_acceleration.len() == 0 {
        path
    } else {
        hardware_acceleration + " "@ + path
    }
}

pub fn stats_memory_path(memory_mode: &str, zero_copy: bool, hardware_acceleration: &str) -> (r:
    String)
    ensures
        r@ == spec_memory_path(memory_mode@, zero_copy, hardware_acceleration@),
{
    let mut s = String::new();
    if hardware_acceleration.unicode_len() > 0 {
        append_str(&mut s, hardware_acceleration);
        append_str(&mut s, " ");
    }
    append_str(&mut s, memory_mode);
    if zero_copy {
        append_str(&mut s, " zero-copy");
    }
    s
}

/// Decoded frames not yet presented.
pub fn frames_pending_to_present(frames_decoded: u64, frames_rendered: u64) -> (r: u64)
    ensures
        r == if frames_decoded >= frames_rendered {
            (frames_decoded - frames_rendered) as u64
        } else {
            0u64
        },
{
    frames_decoded.saturating_sub(frames_rendered)
}


/// What the statistics report about the stream besides the counters.
#[derive(Debug, Clone)]
pub struct StreamInfo {
    pub codec: String,
    pub resolution: String,
    pub hardware_acceleration: String,
    pub memory_mode: String,
    pub caps_framerate: Option<String>,
    pub zero_copy_d3d11: bool,
    pub zero_copy_d3d12: bool,
}

pub open spec fn spec_codec_label(codec: VideoCodec) -> Seq<char> {
    match codec {
        VideoCodec::H264 => "H264"@,
        VideoCodec::H265 => "H265"@,
        VideoCodec::Av1 => "AV1"@,
    }
}

impl StreamInfo {
    /// Nothing known yet: empty texts, system memory, no caps framerate, no zero-copy path.
    pub fn new() -> (r: Self)
        ensures
            r.codec@ == Seq::<char>::empty(),
            r.resolution@ == Seq::<char>::empty(),
            r.hardware_acceleration@ == Seq::<char>::empty(),
            r.memory_mode@ == "system-memory"@,
            r.caps_framerate is None,
            !r.zero_copy_d3d11,
            !r.zero_copy_d3d12,
    {
        StreamInfo {
            codec: String::new(),
            resolution: String::new(),
            hardware_acceleration: String::new(),
            memory_mode: String::from_str("system-memory"),
            caps_framerate: None,
            zero_copy_d3d11: false,
            zero_copy_d3d12: false,
        }
    }
}

impl Default for StreamInfo {
    fn default() -> (r: Self)
        ensures
            r.codec@ == Seq::<char>::empty(),
            r.resolution@ == Seq::<char>::empty(),
            r.hardware_acceleration@ == Seq::<char>::empty(),
            r.memory_mode@ == "system-memory"@,
            r.caps_framerate is None,
            !r.zero_copy_d3d11,
            !r.zero_copy_d3d12,
    {
        StreamInfo::new()
    }
}

/// Prepares a path's liveness state for a new stream: the reported codec and resolution are
/// the requested ones and the caps framerate is forgotten; the record takes over the
/// settings; the transition telemetry is reset for the stream's queue mode; the startup
/// recovery steps and the framerate mismatch warning start over. Everything else the
/// statistics report (memory mode, acceleration, zero-copy) stays as it was.
pub fn configure_stream(
    info: &mut StreamInfo,
    record: &mut LivenessRecord,
    telemetry: &mut TransitionTelemetry,
    startup: &mut StartupRecovery,
    mismatch: &mut MismatchWarning,
    settings: &StreamSettings,
    target_bitrate_kbps: u32,
)
    ensures
        final(info).codec@ == spec_codec_label(settings.codec),
        final(info).resolution@ == settings.resolution@,
        final(info).caps_framerate is None,
        final(info).hardware_acceleration == old(info).hardware_acceleration,
        final(info).memory_mode == old(info).memory_mode,
        final(info).zero_copy_d3d11 == old(info).zero_copy_d3d11,
        final(info).zero_copy_d3d12 == old(info).zero_copy_d3d12,
        *final(record) == old(record).configured(*settings, target_bitrate_kbps),
        final(telemetry).is_reset(spec_queue_mode(*settings)),
        !final(startup).keyframe_requested,
        !final(startup).resync_requested,
        !final(startup).fatal_reported,
        !final(mismatch).spec_warned(),
{
    info.codec = String::from_str(settings.codec.as_str());
    info.resolution = settings.resolution.clone();
    info.caps_framerate = None;
    telemetry.configure(settings);
    record.configure(settings, target_bitrate_kbps);
    *startup = StartupRecovery::new();
    *mismatch = MismatchWarning::new();
}
} // verus!
