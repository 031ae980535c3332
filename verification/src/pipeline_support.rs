//! Small decisions around the WebRTC pipeline: reading signal numbers, judging the outcome of
//! an asynchronous request, describing a reply, local candidates, and where rendering goes.
use vstd::prelude::*;
use crate::text::{append_decimal, append_str, chars_of, decimal, trim, trim_bounds};

verus! {

/// A number a signal handed over, by its type.
#[derive(Debug, Clone, Copy, PartialEq, Eq, Structural)]
pub enum SignalNumber {
    U32(u32),
    I32(i32),
    U64(u64),
    I64(i64),
    /// Any other type, or a value that could not be read.
    Other,
}

/// The number as a `u32`, when it is one of the integer types and fits.
pub open spec fn spec_signal_u32(n: SignalNumber) -> Option<u32> {
    match n {
        SignalNumber::U32(v) => Some(v),
        SignalNumber::I32(v) => if v >= 0 {
            Some(v as u32)
        } else {
            None
        },
        SignalNumber::U64(v) => if v <= u32::MAX {
            Some(v as u32)
        } else {
            None
        },
        SignalNumber::I64(v) => if 0 <= v <= u32::MAX {
            Some(v as u32)
        } else {
            None
        },
        SignalNumber::Other => None,
    }
}

pub fn signal_number_to_u32(n: SignalNumber) -> (r: Option<u32>)
    ensures
        r == spec_signal_u32(n),
{
    match n {
        SignalNumber::U32(v) => Some(v),
        SignalNumber::I32(v) => if v >= 0 {
            Some(v as u32)
        } else {
            None
        },
        SignalNumber::U64(v) => if v <= u32::MAX as u64 {
            Some(v as u32)
        } else {
            None
        },
        SignalNumber::I64(v) => if 0 <= v && v <= u32::MAX as i64 {
            Some(v as u32)
        } else {
            None
        },
        SignalNumber::Other => None,
    }
}

/// How an asynchronous request to the WebRTC element ended.
pub enum PromiseOutcome {
    /// It replied; with the description of the reply when the reply carries an error.
    Replied { error_reply: Option<String> },
    Interrupted,
    Expired,
    Pending,
    /// Any other result, by its `Debug` text.
    Other { debug: String },
}

/// The result of a request named `operation`: success on a reply without an error, else the
/// error text for how it ended.
pub open spec fn spec_promise_result(outcome: PromiseOutcome, operation: Seq<char>) -> Result<
    (),
    Seq<char>,
> {
    match outcome {
        PromiseOutcome::Replied { error_reply } => match error_reply {
            None => Ok(()),
            Some(reply) => Err(
                "GStreamer promise returned an error during "@ + operation + ": "@ + reply@,
            ),
        },
        PromiseOutcome::Interrupted => Err(
            "GStreamer promise interrupted during "@ + operation + "."@,
        ),
        PromiseOutcome::Expired => Err("GStreamer promise expired during "@ + operation + "."@),
        PromiseOutcome::Pending => Err(
            "GStreamer promise still pending during "@ + operation + "."@,
        ),
        PromiseOutcome::Other { debug } => Err(
            "GStreamer promise failed during "@ + operation + ": "@ + debug@,
        ),
    }
}

pub fn promise_result(outcome: &PromiseOutcome, operation: &str) -> (r: Result<(), String>)
    ensures
        match (r, spec_promise_result(*outcome, operation@)) {
            (Ok(()), Ok(())) => true,
            (Err(a), Err(b)) => a@ == b,
            _ => false,
        },
{
    match outcome {
        PromiseOutcome::Replied { error_reply } => match error_reply {
            None => Ok(()),
            Some(reply) => {
                let mut s = String::from_str("GStreamer promise returned an error during ");
                append_str(&mut s, operation);
                append_str(&mut s, ": ");
                append_str(&mut s, reply.as_str());
                Err(s)
            },
        },
        PromiseOutcome::Interrupted => {
            let mut s = String::from_str("GStreamer promise interrupted during ");
            append_str(&mut s, operation);
            append_str(&mut s, ".");
            Err(s)
        },
        PromiseOutcome::Expired => {
            let mut s = String::from_str("GStreamer promise expired during ");
            append_str(&mut s, operation);
            append_str(&mut s, ".");
            Err(s)
        },
        PromiseOutcome::Pending => {
            let mut s = String::from_str("GStreamer promise still pending during ");
            append_str(&mut s, operation);
            append_str(&mut s, ".");
            Err(s)
        },
        PromiseOutcome::Other { debug } => {
            let mut s = String::from_str("GStreamer promise failed during ");
            append_str(&mut s, operation);
            append_str(&mut s, ": ");
            append_str(&mut s, debug.as_str());
            Err(s)
        },
    }
}

/// The fields of a reply as `name=value`, separated by `, `.
pub open spec fn joined_fields(fields: Seq<(Seq<char>, Seq<char>)>) -> Seq<char>
    decreases fields.len(),
{
    if fields.len() == 0 {
        Seq::empty()
    } else if fields.len() == 1 {
        fields[0].0 + "="@ + fields[0].1
    } else {
        joined_fields(fields.drop_last()) + ", "@ + fields.last().0 + "="@ + fields.last().1
    }
}

pub open spec fn fields_view(fields: Seq<(String, String)>) -> Seq<(Seq<char>, Seq<char>)> {
    fields.map_values(|f: (String, String)| (f.0@, f.1@))
}

/// A reply structure as the error texts show it: its name, then its fields in braces.
pub open spec fn spec_structure_text(name: Seq<char>, fields: Seq<(Seq<char>, Seq<char>)>) -> Seq<char> {
    name + " {"@ + joined_fields(fields) + "}"@
}

/// Describes a structure named `name` with the given fields, each value by its rendering.
pub fn describe_structure(name: &str, fields: &Vec<(String, String)>) -> (r: String)
    ensures
        r@ == spec_structure_text(name@, fields_view(fields@)),
{
    let mut s = String::from_str(name);
    append_str(&mut s, " {");
    let ghost start = s@;
    let mut i: usize = 0;
    while i < fields.len()
        invariant
            i <= fields.len(),
            s@ == start + joined_fields(fields_view(fields@).subrange(0, i as int)),
        decreases fields.len() - i,
    {
        assert(fields_view(fields@).subrange(0, i + 1).drop_last() =~= fields_view(fields@).subrange(
            0,
            i as int,
        ));
        assert(fields_view(fields@).subrange(0, i + 1).last() == (fields@[i as int].0@, fields@[i as int].1@));
        if i > 0 {
            append_str(&mut s, ", ");
        }
        append_str(&mut s, fields[i].0.as_str());
        append_str(&mut s, "=");
        append_str(&mut s, fields[i].1.as_str());
        i += 1;
    }
    assert(fields_view(fields@).subrange(0, i as int) =~= fields_view(fields@));
    append_str(&mut s, "}");
    s
}

/// A local ICE candidate to announce: its text, its media line as the mid, and the line.
#[derive(Debug, Clone)]
pub struct LocalCandidate {
    pub candidate: String,
    pub sdp_mid: String,
    pub sdp_m_line_index: u32,
}

/// The candidate announced for a gathered one: none when its text is blank; the media line
/// defaults to 0 when unreadable, and names the mid in decimal.
pub fn local_candidate(candidate: &str, sdp_m_line_index: Option<u32>) -> (r: Option<LocalCandidate>)
    ensures
        trim(candidate@).len() == 0 <==> r is None,
        r matches Some(c) ==> {
            let line = match sdp_m_line_index {
                Some(i) => i,
                None => 0u32,
            };
            &&& c.candidate@ == candidate@
            &&& c.sdp_m_line_index == line
            &&& c.sdp_mid@ == decimal(line as nat)
        },
{
    let v = chars_of(candidate);
    let (start, end) = trim_bounds(&v, 0, v.len());
    assert(v@.subrange(0, v@.len() as int) =~= v@);
    if start == end {
        return None;
    }
    let line = match sdp_m_line_index {
        Some(i) => i,
        None => 0,
    };
    let mut mid = String::new();
    append_decimal(&mut mid, line as u64);
    Some(LocalCandidate { candidate: String::from_str(candidate), sdp_mid: mid, sdp_m_line_index: line })
}

/// Where the video is rendered, remembered across sink and surface updates.
pub struct RenderRouting {
    guard_started: bool,
    external_logged: bool,
}

/// What one render update does: start the guard of the external renderer window, log that
/// the external window is used, or apply the surface to the sink.
#[derive(Debug, Clone, Copy, PartialEq, Eq, Structural)]
pub struct RenderApplyPlan {
    pub start_guard: bool,
    pub log_external: bool,
    pub apply_surface: bool,
}

impl RenderRouting {
    pub closed spec fn spec_guard_started(&self) -> bool {
        self.guard_started
    }

    pub closed spec fn spec_external_logged(&self) -> bool {
        self.external_logged
    }

    pub fn new() -> (r: Self)
        ensures
            !r.spec_guard_started(),
            !r.spec_external_logged(),
    {
        RenderRouting { guard_started: false, external_logged: false }
    }

    /// Decides a render update: nothing without a sink; with the external renderer window,
    /// its guard starts once and its use is logged once; else the surface, when there is
    /// one, is applied to the sink.
    pub fn plan_apply(&mut self, has_sink: bool, external_renderer: bool, has_surface: bool) -> (r:
        RenderApplyPlan)
        ensures
            r.start_guard == (has_sink && external_renderer && !old(self).spec_guard_started()),
            r.log_external == (has_sink && external_renderer && !old(self).spec_external_logged()),
            r.apply_surface == (has_sink && !external_renderer && has_surface),
            final(self).spec_guard_started() == (old(self).spec_guard_started() || r.start_guard),
            final(self).spec_external_logged() == (old(self).spec_external_logged()
                || r.log_external),
    {
        if !has_sink {
            return RenderApplyPlan { start_guard: false, log_external: false, apply_surface: false };
        }
        if external_renderer {
            let start_guard = !self.guard_started;
            let log_external = !self.external_logged;
            self.guard_started = true;
            self.external_logged = true;
            return RenderApplyPlan { start_guard, log_external, apply_surface: false };
        }
        RenderApplyPlan { start_guard: false, log_external: false, apply_surface: has_surface }
    }

    /// The guard was stopped: a later update starts it again.
    pub fn guard_stopped(&mut self)
        ensures
            !final(self).spec_guard_started(),
            final(self).spec_external_logged() == old(self).spec_external_logged(),
    {
        self.guard_started = false;
    }
}

} // verus!
