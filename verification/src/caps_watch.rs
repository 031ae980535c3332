//! Watching the caps of buffers flowing through a pad: which changes are transitions, when the
//! negotiated framerate disagrees with the requested one, and what the rate log says.
use vstd::prelude::*;
use crate::caps::{
    caps_framerate, caps_framerate_summary, is_zero_copy_memory_mode, is_zero_copy_mode,
    memory_mode_from_caps, memory_mode_of,
};
use crate::telemetry::{expected_framerate, expected_framerate_text};
use crate::text::{append_decimal, append_str, contains_exec, contains_sub, decimal, str_eq};

verus! {

pub open spec fn opt_view(o: Option<String>) -> Option<Seq<char>> {
    match o {
        Some(s) => Some(s@),
        None => None,
    }
}

/// What the watcher remembers of a caps string: the caps, their framerate and memory mode.
pub type CapsModel = (Seq<char>, Option<Seq<char>>, Seq<char>);

/// The model of a caps string.
pub open spec fn caps_model(caps: Seq<char>) -> CapsModel {
    (caps, caps_framerate(caps), memory_mode_of(caps))
}

/// A change of caps between two buffers: the old and new caps, framerate and memory mode.
#[derive(Debug, Clone)]
pub struct CapsChange {
    pub old_caps: String,
    pub new_caps: String,
    pub old_framerate: Option<String>,
    pub new_framerate: Option<String>,
    pub old_memory_mode: String,
    pub new_memory_mode: String,
}

/// Remembers the caps of the last buffer a pad carried.
pub struct CapsTransitionTracker {
    last: Option<(String, Option<String>, String)>,
}

impl CapsTransitionTracker {
    pub closed spec fn spec_last(&self) -> Option<CapsModel> {
        match self.last {
            Some((c, f, m)) => Some((c@, opt_view(f), m@)),
            None => None,
        }
    }

    /// What the tracker remembers was read from one caps string.
    pub open spec fn wf(&self) -> bool {
        self.spec_last() matches Some(m) ==> m == caps_model(m.0)
    }

    pub fn new() -> (r: Self)
        ensures
            r.spec_last() is None,
            r.wf(),
    {
        CapsTransitionTracker { last: None }
    }

    /// Looks at the caps of one more buffer. The first buffer is only remembered; after it, a
    /// buffer whose caps differ from the last ones reports the change. Either way the tracker
    /// then remembers these caps.
    pub fn observe(&mut self, caps: &str) -> (r: Option<CapsChange>)
        requires
            old(self).wf(),
        ensures
            final(self).wf(),
            final(self).spec_last() == Some(caps_model(caps@)),
            old(self).spec_last() is None ==> r is None,
            old(self).spec_last() matches Some(prev) ==> {
                &&& (r is Some <==> prev.0 != caps@)
                &&& r matches Some(c) ==> {
                    &&& c.old_caps@ == prev.0
                    &&& c.new_caps@ == caps@
                    &&& opt_view(c.old_framerate) == prev.1
                    &&& opt_view(c.new_framerate) == caps_framerate(caps@)
                    &&& c.old_memory_mode@ == prev.2
                    &&& c.new_memory_mode@ == memory_mode_of(caps@)
                }
            },
    {
        let framerate = caps_framerate_summary(caps);
        let memory = String::from_str(memory_mode_from_caps(caps));
        let new_caps = String::from_str(caps);
        let previous = self.last.take();
        match previous {
            None => {
                self.last = Some((new_caps, framerate, memory));
                None
            },
            Some((old_caps, old_framerate, old_memory)) => {
                let caps_changed = !str_eq(old_caps.as_str(), caps);
                let framerate_changed = match (&old_framerate, &framerate) {
                    (Some(a), Some(b)) => !str_eq(a.as_str(), b.as_str()),
                    (None, None) => false,
                    _ => true,
                };
                let memory_changed = !str_eq(old_memory.as_str(), memory.as_str());
                if caps_changed || framerate_changed || memory_changed {
                    let change = CapsChange {
                        old_caps,
                        new_caps: new_caps.clone(),
                        old_framerate,
                        new_framerate: match &framerate {
                            Some(f) => Some(f.clone()),
                            None => None,
                        },
                        old_memory_mode: old_memory,
                        new_memory_mode: memory.clone(),
                    };
                    self.last = Some((new_caps, framerate, memory));
                    Some(change)
                } else {
                    self.last = Some((old_caps, old_framerate, old_memory));
                    None
                }
            },
        }
    }
}

/// The framerate the caps announce, when a framerate was requested and the announced one is
/// not `{fps}/1`.
pub open spec fn spec_framerate_mismatch(requested_fps: Option<u32>, caps: Seq<char>) -> Option<Seq<char>> {
    match (requested_fps, caps_framerate(caps)) {
        (Some(fps), Some(rate)) => if rate != expected_framerate(fps) {
            Some(rate)
        } else {
            None
        },
        _ => None,
    }
}

pub fn framerate_mismatch(requested_fps: Option<u32>, caps: &str) -> (r: Option<String>)
    ensures
        opt_view(r) == spec_framerate_mismatch(requested_fps, caps@),
{
    let fps = match requested_fps {
        Some(fps) => fps,
        None => return None,
    };
    match caps_framerate_summary(caps) {
        Some(rate) => {
            let expected = expected_framerate_text(fps);
            if str_eq(rate.as_str(), expected.as_str()) {
                None
            } else {
                Some(rate)
            }
        },
        None => None,
    }
}

/// The warning for a framerate mismatch.
pub open spec fn spec_mismatch_message(rate: Seq<char>, fps: u32) -> Seq<char> {
    "Native video caps framerate "@ + rate + " does not match requestedFps="@ + decimal(fps as nat)
        + "; this can destabilize high-FPS native playback scheduling and buffer pools."@
}

pub fn framerate_mismatch_message(rate: &str, requested_fps: u32) -> (r: String)
    ensures
        r@ == spec_mismatch_message(rate@, requested_fps),
{
    let mut s = String::from_str("Native video caps framerate ");
    append_str(&mut s, rate);
    append_str(&mut s, " does not match requestedFps=");
    append_decimal(&mut s, requested_fps as u64);
    append_str(&mut s, "; this can destabilize high-FPS native playback scheduling and buffer pools.");
    s
}

/// Warns about a framerate mismatch once per stream.
pub struct MismatchWarning {
    warned: bool,
}

impl MismatchWarning {
    pub closed spec fn spec_warned(&self) -> bool {
        self.warned
    }

    pub fn new() -> (r: Self)
        ensures
            !r.spec_warned(),
    {
        MismatchWarning { warned: false }
    }

    /// Whether this is the first warning; afterwards it is not.
    pub fn first_time(&mut self) -> (r: bool)
        ensures
            r == !old(self).spec_warned(),
            final(self).spec_warned(),
    {
        let first = !self.warned;
        self.warned = true;
        first
    }
}

pub open spec fn bool_text(b: bool) -> Seq<char> {
    if b {
        "true"@
    } else {
        "false"@
    }
}

fn append_bool(s: &mut String, b: bool)
    ensures
        final(s)@ == old(s)@ + bool_text(b),
{
    append_str(s, if b { "true" } else { "false" });
}

/// The part of a pad-rate log line after the rate: framerate, requested framerate, memory
/// mode and zero-copy flags of the caps.
pub open spec fn spec_rate_details(caps: Seq<char>, requested_fps: Option<u32>) -> Seq<char> {
    let mode = memory_mode_of(caps);
    "; capsFramerate="@ + match caps_framerate(caps) {
        Some(r) => r,
        None => "unknown"@,
    } + match requested_fps {
        Some(fps) => "; requestedFps="@ + decimal(fps as nat),
        None => Seq::empty(),
    } + "; memoryMode="@ + mode + "; zeroCopy="@ + bool_text(is_zero_copy_mode(mode))
        + "; zeroCopyD3D11="@ + bool_text(contains_sub(caps, "memory:D3D11Memory"@))
        + "; zeroCopyD3D12="@ + bool_text(contains_sub(caps, "memory:D3D12Memory"@))
}

pub fn pad_rate_details(caps: &str, requested_fps: Option<u32>) -> (r: String)
    ensures
        r@ == spec_rate_details(caps@, requested_fps),
{
    let v = crate::text::chars_of(caps);
    let mode = memory_mode_from_caps(caps);
    let mut s = String::from_str("; capsFramerate=");
    match caps_framerate_summary(caps) {
        Some(r) => append_str(&mut s, r.as_str()),
        None => append_str(&mut s, "unknown"),
    }
    match requested_fps {
        Some(fps) => {
            append_str(&mut s, "; requestedFps=");
            append_decimal(&mut s, fps as u64);
        },
        None => {
            assert(s@ + Seq::<char>::empty() =~= s@);
        },
    }
    append_str(&mut s, "; memoryMode=");
    append_str(&mut s, mode);
    append_str(&mut s, "; zeroCopy=");
    append_bool(&mut s, is_zero_copy_memory_mode(mode));
    append_str(&mut s, "; zeroCopyD3D11=");
    append_bool(&mut s, contains_exec(&v, "memory:D3D11Memory"));
    append_str(&mut s, "; zeroCopyD3D12=");
    append_bool(&mut s, contains_exec(&v, "memory:D3D12Memory"));
    s
}

/// Counts buffers between two rate logs.
pub open spec fn sat_inc(v: u32) -> u32 {
    if v < u32::MAX {
        (v + 1) as u32
    } else {
        v
    }
}

pub fn count_buffer(frames: u32) -> (r: u32)
    ensures
        r == sat_inc(frames),
{
    if frames < u32::MAX {
        frames + 1
    } else {
        frames
    }
}

/// The log line when the first decoded buffer of a stream reaches its sink.
pub open spec fn spec_first_buffer_message(label: Seq<char>, caps: Seq<char>) -> Seq<char> {
    let mode = memory_mode_of(caps);
    "First decoded "@ + label + " buffer reached native sink; caps="@ + caps + "; memoryMode="@ + mode
        + "; zeroCopy="@ + bool_text(is_zero_copy_mode(mode)) + "; zeroCopyD3D11="@ + bool_text(
        contains_sub(caps, "memory:D3D11Memory"@),
    ) + "; zeroCopyD3D12="@ + bool_text(contains_sub(caps, "memory:D3D12Memory"@)) + "."@
}

pub fn first_buffer_message(label: &str, caps: &str) -> (r: String)
    ensures
        r@ == spec_first_buffer_message(label@, caps@),
{
    let v = crate::text::chars_of(caps);
    let mode = memory_mode_from_caps(caps);
    let mut s = String::from_str("First decoded ");
    append_str(&mut s, label);
    append_str(&mut s, " buffer reached native sink; caps=");
    append_str(&mut s, caps);
    append_str(&mut s, "; memoryMode=");
    append_str(&mut s, mode);
    append_str(&mut s, "; zeroCopy=");
    append_bool(&mut s, is_zero_copy_memory_mode(mode));
    append_str(&mut s, "; zeroCopyD3D11=");
    append_bool(&mut s, contains_exec(&v, "memory:D3D11Memory"));
    append_str(&mut s, "; zeroCopyD3D12=");
    append_bool(&mut s, contains_exec(&v, "memory:D3D12Memory"));
    append_str(&mut s, ".");
    s
}

/// The status message once video frames reach the renderer.
pub fn streaming_status_message(external_renderer: bool) -> (r: &'static str)
    ensures
        r@ == if external_renderer {
            "Native video frames reached the external low-latency GStreamer renderer window."@
        } else {
            "Native video frames reached the embedded low-latency GStreamer sink."@
        },
{
    if external_renderer {
        "Native video frames reached the external low-latency GStreamer renderer window."
    } else {
        "Native video frames reached the embedded low-latency GStreamer sink."
    }
}

/// The log line for the first encoded video buffer.
pub open spec fn spec_first_encoded_message(size: u64) -> Seq<char> {
    "First encoded RTP video buffer arrived; size="@ + decimal(size as nat) + " bytes."@
}

pub fn first_encoded_message(size: u64) -> (r: String)
    ensures
        r@ == spec_first_encoded_message(size),
{
    let mut s = String::from_str("First encoded RTP video buffer arrived; size=");
    append_decimal(&mut s, size);
    append_str(&mut s, " bytes.");
    s
}

} // verus!
