//! Which window holds the input capture, and the hold-Escape-to-minimise timer.
use vstd::prelude::*;

verus! {

/// How long Escape must be held to minimise the captured window, in milliseconds.
pub const ESCAPE_HOLD_TO_MINIMIZE_MS: u64 = 5_000;

/// `v + 1` modulo 2^64.
pub open spec fn wrap_inc(v: u64) -> u64 {
    if v == u64::MAX {
        0
    } else {
        (v + 1) as u64
    }
}

fn wrapping_inc(v: u64) -> (r: u64)
    ensures
        r == wrap_inc(v),
{
    if v == u64::MAX {
        0
    } else {
        v + 1
    }
}

/// The capture state: the captured window, the window an Escape hold runs for, and the token
/// of the latest hold (each start or cancel moves it on, so older timers find it changed).
pub struct CaptureState {
    captured: Option<isize>,
    escape_hold: Option<isize>,
    hold_token: u64,
}

impl CaptureState {
    pub closed spec fn spec_captured(&self) -> Option<isize> {
        self.captured
    }

    pub closed spec fn spec_escape_hold(&self) -> Option<isize> {
        self.escape_hold
    }

    pub closed spec fn spec_hold_token(&self) -> u64 {
        self.hold_token
    }

    pub fn new() -> (r: Self)
        ensures
            r.spec_captured() is None,
            r.spec_escape_hold() is None,
            r.spec_hold_token() == 0,
    {
        CaptureState { captured: None, escape_hold: None, hold_token: 0 }
    }

    /// Whether `window` holds the capture.
    pub fn is_captured(&self, window: isize) -> (r: bool)
        ensures
            r == (self.spec_captured() == Some(window)),
    {
        match self.captured {
            Some(w) => w == window,
            None => false,
        }
    }

    /// The captured window, if any.
    pub fn captured_window(&self) -> (r: Option<isize>)
        ensures
            r == self.spec_captured(),
    {
        self.captured
    }

    /// `window` takes the capture.
    pub fn begin(&mut self, window: isize)
        ensures
            final(self).spec_captured() == Some(window),
            final(self).spec_escape_hold() == old(self).spec_escape_hold(),
            final(self).spec_hold_token() == old(self).spec_hold_token(),
    {
        self.captured = Some(window);
    }

    /// Cancels a running Escape hold.
    pub fn cancel_escape_hold(&mut self)
        ensures
            final(self).spec_escape_hold() is None,
            final(self).spec_hold_token() == wrap_inc(old(self).spec_hold_token()),
            final(self).spec_captured() == old(self).spec_captured(),
    {
        self.hold_token = wrapping_inc(self.hold_token);
        self.escape_hold = None;
    }

    /// Releases the capture of `window`: any Escape hold is cancelled; returns whether
    /// `window` held the capture (and so must release the cursor, keys and raw input).
    pub fn release(&mut self, window: isize) -> (r: bool)
        ensures
            r == (old(self).spec_captured() == Some(window)),
            final(self).spec_captured() == if r {
                None
            } else {
                old(self).spec_captured()
            },
            final(self).spec_escape_hold() is None,
            final(self).spec_hold_token() == wrap_inc(old(self).spec_hold_token()),
    {
        self.cancel_escape_hold();
        let held = match self.captured {
            Some(w) => w == window,
            None => false,
        };
        if held {
            self.captured = None;
        }
        held
    }

    /// Starts an Escape hold for the captured window; returns the window and the token its
    /// timer checks when it expires, or none without a capture.
    pub fn start_escape_hold(&mut self) -> (r: Option<(isize, u64)>)
        ensures
            old(self).spec_captured() is None ==> r is None && *final(self) == *old(self),
            old(self).spec_captured() matches Some(w) ==> {
                &&& r == Some((w, wrap_inc(old(self).spec_hold_token())))
                &&& final(self).spec_escape_hold() == Some(w)
                &&& final(self).spec_hold_token() == wrap_inc(old(self).spec_hold_token())
                &&& final(self).spec_captured() == old(self).spec_captured()
            },
    {
        let window = match self.captured {
            Some(w) => w,
            None => return None,
        };
        self.hold_token = wrapping_inc(self.hold_token);
        self.escape_hold = Some(window);
        Some((window, self.hold_token))
    }

    /// A hold timer for `window` with `token` expired: whether Escape is still held for that
    /// window by that same hold, so the window is released and minimised.
    pub fn hold_expired(&self, window: isize, token: u64) -> (r: bool)
        ensures
            r == (self.spec_hold_token() == token && self.spec_escape_hold() == Some(window)),
    {
        self.hold_token == token && match self.escape_hold {
            Some(w) => w == window,
            None => false,
        }
    }
}

/// Whether a hold timer for `window` with `token` minimises the window in state `s`.
pub open spec fn fires(s: CaptureState, window: isize, token: u64) -> bool {
    s.spec_hold_token() == token && s.spec_escape_hold() == Some(window)
}

/// Only the latest hold can minimise: once a hold with token `token` was followed by a cancel,
/// a release or a newer hold (each moves the token on), its timer does not fire.
pub proof fn law_only_latest_hold_fires(
    started: CaptureState,
    later: CaptureState,
    window: isize,
    token: u64,
)
    requires
        started.spec_hold_token() == token,
        later.spec_hold_token() == wrap_inc(token) || (later.spec_hold_token() == wrap_inc(
            wrap_inc(token),
        )),
    ensures
        !fires(later, window, token),
{
}

} // verus!
