//! Presentation settings: the present-rate limiter and its pacing, fullscreen presentation,
//! the external renderer window and zero-copy, each resolved from the user's override.
use vstd::prelude::*;
use crate::numbers::{parse_unsigned, parse_unsigned_range};
use crate::text::{ascii_lower, ascii_lower_exec, chars_of, eq_lit, trim, trimmed_lower};
use crate::video_api::RtpVideoApi;

verus! {

/// The configured present limit that means "decide automatically".
pub const PRESENT_LIMITER_AUTO_SENTINEL: u32 = 0xffff_ffff;

/// How often the present limiter reports its counters, in nanoseconds.
pub const PRESENT_LIMITER_LOG_INTERVAL_NS: u64 = 1_000_000_000;

/// The present limit the user's override asks for (0 means no limit).
///
/// The override is trimmed and compared in ASCII lower case: `0`, `off`, `false` and
/// `unlimited` turn the limiter off, `auto` and anything unreadable leave it automatic, and a
/// decimal number sets that limit.
pub open spec fn spec_present_setting(env: Option<Seq<char>>) -> u32 {
    match env {
        None => PRESENT_LIMITER_AUTO_SENTINEL,
        Some(raw) => {
            let v = ascii_lower(trim(raw));
            if v == "0"@ || v == "off"@ || v == "false"@ || v == "unlimited"@ {
                0
            } else if v == "auto"@ {
                PRESENT_LIMITER_AUTO_SENTINEL
            } else {
                match parse_unsigned(v, 10, u32::MAX as nat) {
                    Ok(n) => n as u32,
                    Err(_) => PRESENT_LIMITER_AUTO_SENTINEL,
                }
            }
        },
    }
}

pub open spec fn opt_view(o: Option<&str>) -> Option<Seq<char>> {
    match o {
        Some(s) => Some(s@),
        None => None,
    }
}

/// Resolves the present limit from the user's override (the requested framerate does not
/// change it).
pub fn resolve_present_max_fps(env: Option<&str>, requested_fps: u32) -> (r: u32)
    ensures
        r == spec_present_setting(opt_view(env)),
{
    let _ = requested_fps;
    match env {
        None => PRESENT_LIMITER_AUTO_SENTINEL,
        Some(raw) => {
            let v = trimmed_lower(raw);
            if eq_lit(&v, "0") || eq_lit(&v, "off") || eq_lit(&v, "false") || eq_lit(&v, "unlimited") {
                0
            } else if eq_lit(&v, "auto") {
                PRESENT_LIMITER_AUTO_SENTINEL
            } else {
                let parsed = parse_unsigned_range(&v, 0, v.len(), 10, 0xffff_ffff);
                assert(v@.subrange(0, v@.len() as int) =~= v@);
                match parsed {
                    Ok(n) => n as u32,
                    Err(_) => PRESENT_LIMITER_AUTO_SENTINEL,
                }
            }
        },
    }
}

/// The automatic present limit: the display refresh rate when it is known, at least 30 Hz
/// and below the requested framerate; otherwise no limit.
pub open spec fn spec_automatic_present_max_fps(requested_fps: u32, display_hz: Option<u32>) -> u32 {
    match display_hz {
        Some(hz) => if hz >= 30 && hz < requested_fps {
            hz
        } else {
            0
        },
        None => 0,
    }
}

pub fn automatic_present_max_fps(requested_fps: u32, display_hz: Option<u32>) -> (r: u32)
    ensures
        r == spec_automatic_present_max_fps(requested_fps, display_hz),
{
    match display_hz {
        Some(hz) => if hz >= 30 && hz < requested_fps {
            hz
        } else {
            0
        },
        None => 0,
    }
}

/// The present limit in force: a configured limit as it is; the automatic limit only on the
/// D3D11 path and for a positive requested framerate; otherwise none.
pub open spec fn spec_effective_present_max_fps(
    configured: u32,
    requested_fps: Option<u32>,
    video_api: RtpVideoApi,
    display_hz: Option<u32>,
) -> u32 {
    if configured != PRESENT_LIMITER_AUTO_SENTINEL {
        configured
    } else if video_api != RtpVideoApi::D3D11 {
        0
    } else {
        match requested_fps {
            Some(fps) => if fps > 0 {
                spec_automatic_present_max_fps(fps, display_hz)
            } else {
                0
            },
            None => 0,
        }
    }
}

pub fn effective_present_max_fps(
    configured_present_max_fps: u32,
    requested_fps: Option<u32>,
    video_api: RtpVideoApi,
    display_hz: Option<u32>,
) -> (r: u32)
    ensures
        r == spec_effective_present_max_fps(
            configured_present_max_fps,
            requested_fps,
            video_api,
            display_hz,
        ),
{
    if configured_present_max_fps != PRESENT_LIMITER_AUTO_SENTINEL {
        return configured_present_max_fps;
    }
    if video_api != RtpVideoApi::D3D11 {
        return 0;
    }
    match requested_fps {
        Some(fps) => if fps > 0 {
            automatic_present_max_fps(fps, display_hz)
        } else {
            0
        },
        None => 0,
    }
}

/// The refresh rate a device-caps query reports, when it is a real rate (above 1 Hz).
pub fn display_refresh_from_device_caps(refresh: i32) -> (r: Option<u32>)
    ensures
        r == if refresh > 1 {
            Some(refresh as u32)
        } else {
            None::<u32>
        },
{
    if refresh > 1 {
        Some(refresh as u32)
    } else {
        None
    }
}

/// Whether the D3D sink presents fullscreen: `1`, `on`, `true`, `yes` force it on, `0`, `off`,
/// `false`, `no` force it off (trimmed, ASCII lower case), otherwise it follows Cloud G-Sync.
pub open spec fn spec_d3d_fullscreen(env: Option<Seq<char>>, cloud_gsync_enabled: bool) -> bool {
    match env {
        Some(raw) => {
            let v = ascii_lower(trim(raw));
            if v == "1"@ || v == "on"@ || v == "true"@ || v == "yes"@ {
                true
            } else if v == "0"@ || v == "off"@ || v == "false"@ || v == "no"@ {
                false
            } else {
                cloud_gsync_enabled
            }
        },
        None => cloud_gsync_enabled,
    }
}

pub fn resolve_d3d_fullscreen_sink(env: Option<&str>, cloud_gsync_enabled: bool) -> (r: bool)
    ensures
        r == spec_d3d_fullscreen(opt_view(env), cloud_gsync_enabled),
{
    if let Some(raw) = env {
        let v = trimmed_lower(raw);
        if eq_lit(&v, "1") || eq_lit(&v, "on") || eq_lit(&v, "true") || eq_lit(&v, "yes") {
            return true;
        }
        if eq_lit(&v, "0") || eq_lit(&v, "off") || eq_lit(&v, "false") || eq_lit(&v, "no") {
            return false;
        }
    }
    cloud_gsync_enabled
}

/// Whether the external renderer window is used: yes unless the override (trimmed, ASCII
/// lower case) is `0`, `false`, `no` or `off`.
pub open spec fn spec_external_renderer(env: Option<Seq<char>>) -> bool {
    match env {
        Some(raw) => {
            let v = ascii_lower(trim(raw));
            !(v == "0"@ || v == "false"@ || v == "no"@ || v == "off"@)
        },
        None => true,
    }
}

pub fn use_external_renderer_window(env: Option<&str>) -> (r: bool)
    ensures
        r == spec_external_renderer(opt_view(env)),
{
    match env {
        Some(raw) => {
            let v = trimmed_lower(raw);
            !(eq_lit(&v, "0") || eq_lit(&v, "false") || eq_lit(&v, "no") || eq_lit(&v, "off"))
        },
        None => true,
    }
}

/// Whether zero-copy GPU memory caps are forced: the override (ASCII lower case, not trimmed)
/// is `1`, `true`, `yes` or `forced`.
pub open spec fn spec_zero_copy_requested(env: Option<Seq<char>>) -> bool {
    let v = match env {
        Some(raw) => ascii_lower(raw),
        None => "auto"@,
    };
    v == "1"@ || v == "true"@ || v == "yes"@ || v == "forced"@
}

pub fn zero_copy_requested(env: Option<&str>) -> (r: bool)
    ensures
        r == spec_zero_copy_requested(opt_view(env)),
{
    let v = match env {
        Some(raw) => {
            let c = chars_of(raw);
            ascii_lower_exec(&c)
        },
        None => chars_of("auto"),
    };
    eq_lit(&v, "1") || eq_lit(&v, "true") || eq_lit(&v, "yes") || eq_lit(&v, "forced")
}

/// The present limiter's counters over one reporting period.
#[derive(Debug, Clone, Copy, PartialEq, Eq, Structural)]
pub struct PresentReport {
    pub passed: u32,
    pub dropped: u32,
    pub elapsed_ns: u64,
}

/// What the present limiter does with one buffer.
#[derive(Debug, Clone, Copy, PartialEq, Eq, Structural)]
pub struct PresentDecision {
    /// The buffer is presented (else it is dropped).
    pub pass: bool,
    /// The target rate changed with this buffer.
    pub pacing_changed: bool,
    /// A report is due: buffers passed and dropped since the last one, and the time it covers.
    pub report: Option<PresentReport>,
}

/// The pacing state of the present limiter, with times in nanoseconds.
#[derive(Debug, Clone, Copy, PartialEq, Eq, Structural)]
pub struct PresentLimiter {
    pub next_present_at_ns: u64,
    pub last_log_at_ns: u64,
    pub passed: u32,
    pub dropped: u32,
    pub active_fps: u32,
}

pub open spec fn sat_inc(v: u32) -> u32 {
    if v < u32::MAX {
        (v + 1) as u32
    } else {
        v
    }
}

/// The first instant after `now` on the grid `next + k * interval`.
pub open spec fn next_slot(next: int, now: int, interval: int) -> int
    decreases now + 1 - next,
{
    if interval <= 0 || next > now {
        next
    } else if next + interval > now {
        next + interval
    } else {
        next_slot(next + interval, now, interval)
    }
}

impl PresentLimiter {
    /// The slot a buffer at `now_ns` is paced against: `now_ns` when the target changes with
    /// it, else the current next slot.
    pub open spec fn pacing_slot(self, target_fps: u32, now_ns: u64) -> u64 {
        if target_fps != self.active_fps {
            now_ns
        } else {
            self.next_present_at_ns
        }
    }

    /// The next present slot after a buffer at `now_ns`: unchanged when the buffer is dropped,
    /// else the first grid point after `now_ns`.
    pub open spec fn slot_after(self, target_fps: u32, now_ns: u64, frame_interval_ns: u64) -> int {
        let slot = self.pacing_slot(target_fps, now_ns);
        if now_ns < slot {
            slot as int
        } else {
            next_slot(slot as int, now_ns as int, frame_interval_ns as int)
        }
    }

    pub fn new(now_ns: u64) -> (r: Self)
        ensures
            r.next_present_at_ns == now_ns,
            r.last_log_at_ns == now_ns,
            r.passed == 0,
            r.dropped == 0,
            r.active_fps == 0,
    {
        PresentLimiter { next_present_at_ns: now_ns, last_log_at_ns: now_ns, passed: 0, dropped: 0, active_fps: 0 }
    }

    /// Paces one buffer arriving at `now_ns` against `target_fps`, whose frame interval is
    /// `frame_interval_ns`.
    ///
    /// A zero target passes everything and changes nothing. A new target restarts pacing at
    /// `now_ns`. A buffer before the next present slot is dropped; one at or after it passes
    /// and moves the slot past `now_ns` by whole intervals. Once a second has passed since the
    /// last report, the counters are reported and restarted.
    pub fn on_buffer(&mut self, target_fps: u32, now_ns: u64, frame_interval_ns: u64) -> (r:
        PresentDecision)
        requires
            frame_interval_ns > 0,
            now_ns as int + frame_interval_ns as int <= u64::MAX,
        ensures
            target_fps == 0 ==> r == (PresentDecision { pass: true, pacing_changed: false, report: None }),
            target_fps == 0 ==> *final(self) == *old(self),
            target_fps != 0 ==> r.pass == (now_ns >= old(self).pacing_slot(target_fps, now_ns)),
            target_fps != 0 ==> final(self).next_present_at_ns == old(self).slot_after(
                target_fps,
                now_ns,
                frame_interval_ns,
            ),
            target_fps != 0 ==> {
                let changed = target_fps != old(self).active_fps;
                let next = if changed {
                    now_ns
                } else {
                    old(self).next_present_at_ns
                };
                let last_log = if changed {
                    now_ns
                } else {
                    old(self).last_log_at_ns
                };
                let passed = if changed {
                    0
                } else {
                    old(self).passed
                };
                let dropped = if changed {
                    0
                } else {
                    old(self).dropped
                };
                &&& r.pacing_changed == changed
                &&& final(self).active_fps == target_fps
                &&& if now_ns < next {
                    &&& !r.pass
                    &&& r.report is None
                    &&& final(self).dropped == sat_inc(dropped)
                    &&& final(self).passed == passed
                    &&& final(self).next_present_at_ns == next
                    &&& final(self).last_log_at_ns == last_log
                } else {
                    let elapsed = (now_ns - last_log) as u64;
                    &&& r.pass
                    &&& final(self).next_present_at_ns == next_slot(next as int, now_ns as int, frame_interval_ns as int)
                    &&& final(self).next_present_at_ns > now_ns
                    &&& if now_ns >= last_log && elapsed >= PRESENT_LIMITER_LOG_INTERVAL_NS {
                        &&& r.report == Some(PresentReport { passed: sat_inc(passed), dropped, elapsed_ns: elapsed })
                        &&& final(self).passed == 0
                        &&& final(self).dropped == 0
                        &&& final(self).last_log_at_ns == now_ns
                    } else {
                        &&& r.report is None
                        &&& final(self).passed == sat_inc(passed)
                        &&& final(self).dropped == dropped
                        &&& final(self).last_log_at_ns == last_log
                    }
                }
            },
    {
        if target_fps == 0 {
            return PresentDecision { pass: true, pacing_changed: false, report: None };
        }
        let mut pacing_changed = false;
        if self.active_fps != target_fps {
            self.active_fps = target_fps;
            self.next_present_at_ns = now_ns;
            self.last_log_at_ns = now_ns;
            self.passed = 0;
            self.dropped = 0;
            pacing_changed = true;
        }
        if now_ns < self.next_present_at_ns {
            if self.dropped < u32::MAX {
                self.dropped = self.dropped + 1;
            }
            return PresentDecision { pass: false, pacing_changed, report: None };
        }
        if self.passed < u32::MAX {
            self.passed = self.passed + 1;
        }
        let start = self.next_present_at_ns;
        let mut next = start;
        while next <= now_ns
            invariant
                frame_interval_ns > 0,
                now_ns as int + frame_interval_ns as int <= u64::MAX,
                next as int <= now_ns as int + frame_interval_ns as int,
                next_slot(start as int, now_ns as int, frame_interval_ns as int) == next_slot(
                    next as int,
                    now_ns as int,
                    frame_interval_ns as int,
                ),
            decreases now_ns as int + frame_interval_ns as int - next as int,
        {
            next = next + frame_interval_ns;
        }
        self.next_present_at_ns = next;
        let mut report = None;
        if now_ns >= self.last_log_at_ns {
            let elapsed = now_ns - self.last_log_at_ns;
            if elapsed >= PRESENT_LIMITER_LOG_INTERVAL_NS {
                report = Some(PresentReport { passed: self.passed, dropped: self.dropped, elapsed_ns: elapsed });
                self.last_log_at_ns = now_ns;
                self.passed = 0;
                self.dropped = 0;
            }
        }
        PresentDecision { pass: true, pacing_changed, report }
    }
}

/// Why the present limiter is on, for the log: automatic on D3D11, or configured.
pub fn present_limiter_reason(configured_present_max_fps: u32) -> (r: &'static str)
    ensures
        r@ == if configured_present_max_fps == PRESENT_LIMITER_AUTO_SENTINEL {
            "auto-enabled for the D3D11 path to prevent display-rate present backpressure"@
        } else {
            "configured by OPENNOW_NATIVE_PRESENT_MAX_FPS"@
        },
{
    if configured_present_max_fps == PRESENT_LIMITER_AUTO_SENTINEL {
        "auto-enabled for the D3D11 path to prevent display-rate present backpressure"
    } else {
        "configured by OPENNOW_NATIVE_PRESENT_MAX_FPS"
    }
}

/// One second divided by `fps`, rounded to the nearest nanosecond with a tie going to the
/// even neighbour, as converting the rate's period to a duration rounds.
pub open spec fn rounded_period_ns(fps: int) -> int {
    let q = 1_000_000_000int / fps;
    let r = 1_000_000_000int % fps;
    if 2 * r > fps || (2 * r == fps && q % 2 == 1) {
        q + 1
    } else {
        q
    }
}

/// The frame interval of a target rate: its period rounded to the nearest nanosecond (a zero
/// rate counts as 1), and at least one nanosecond so that pacing always moves forward.
pub open spec fn spec_frame_interval_ns(target_fps: u32) -> u64 {
    let fps: int = if target_fps == 0 {
        1
    } else {
        target_fps as int
    };
    let q = rounded_period_ns(fps);
    if q == 0 {
        1
    } else {
        q as u64
    }
}

pub fn frame_interval_ns(target_fps: u32) -> (r: u64)
    ensures
        r == spec_frame_interval_ns(target_fps),
        1 <= r <= 1_000_000_000,
{
    let fps: u64 = if target_fps == 0 {
        1
    } else {
        target_fps as u64
    };
    let q = 1_000_000_000u64 / fps;
    let rem = 1_000_000_000u64 % fps;
    assert(q * fps + rem == 1_000_000_000 && rem < fps) by {
        vstd::arithmetic::div_mod::lemma_fundamental_div_mod(1_000_000_000, fps as int);
    }
    assert(fps == 1 ==> q == 1_000_000_000);
    assert(fps >= 2 ==> q <= 500_000_000) by (nonlinear_arith)
        requires
            q * fps + rem == 1_000_000_000,
            rem >= 0,
    ;
    let rounded = if 2 * rem > fps || (2 * rem == fps && q % 2 == 1) {
        q + 1
    } else {
        q
    };
    if rounded == 0 {
        1
    } else {
        rounded
    }
}

/// The pacing grid of the present limiter: after a buffer passes at `now`, the next present
/// slot lies after `now`, at most one frame interval later, and on the grid of the slot it was
/// paced from. So at most one buffer passes per interval, and pacing never falls behind.
pub proof fn law_next_slot_within_one_interval(next: int, now: int, interval: int)
    requires
        interval > 0,
        next <= now,
    ensures
        now < next_slot(next, now, interval) <= now + interval,
        (next_slot(next, now, interval) - next) % interval == 0,
    decreases now + 1 - next,
{
    if next + interval > now {
        vstd::arithmetic::div_mod::lemma_mod_self_0(interval);
    } else {
        law_next_slot_within_one_interval(next + interval, now, interval);
        let r = next_slot(next, now, interval);
        vstd::arithmetic::div_mod::lemma_mod_add_multiples_vanish(r - next - interval, interval);
        assert(r - next == (r - next - interval) + interval);
    }
}


/// At a constant target rate F the limiter lets at most one buffer through per frame interval
/// of F: pacing restarts at the time `t0` the rate was set, the next present slot stays on the
/// grid `t0 + k * interval`, and after a buffer passes at `now`, a buffer arriving later in the
/// same grid interval is before the next slot, so it is dropped.
pub proof fn law_one_pass_per_frame_interval(t0: int, next: int, now: int, later: int, target_fps: u32)
    requires
        target_fps > 0,
        t0 <= next <= now <= later,
        (next - t0) % (spec_frame_interval_ns(target_fps) as int) == 0,
        (later - t0) / (spec_frame_interval_ns(target_fps) as int) == (now - t0) / (
        spec_frame_interval_ns(target_fps) as int),
    ensures
        ({
            let interval = spec_frame_interval_ns(target_fps) as int;
            let slot = next_slot(next, now, interval);
            &&& later < slot
            &&& (slot - t0) % interval == 0
        }),
{
    let d = spec_frame_interval_ns(target_fps) as int;
    let slot = next_slot(next, now, d);
    law_next_slot_within_one_interval(next, now, d);
    vstd::arithmetic::div_mod::lemma_fundamental_div_mod(slot - next, d);
    vstd::arithmetic::div_mod::lemma_fundamental_div_mod(next - t0, d);
    vstd::arithmetic::div_mod::lemma_fundamental_div_mod(now - t0, d);
    vstd::arithmetic::div_mod::lemma_fundamental_div_mod(later - t0, d);
    let a = (slot - next) / d;
    let b = (next - t0) / d;
    let c = (now - t0) / d;
    assert(slot - t0 == d * (a + b)) by (nonlinear_arith)
        requires
            slot - next == d * a,
            next - t0 == d * b,
    ;
    vstd::arithmetic::div_mod::lemma_mod_multiples_basic(a + b, d);
    assert(d * (a + b) == (a + b) * d) by (nonlinear_arith);
    let m = a + b;
    // The slot is a grid point after `now`, so it is at or past the end of `now`'s interval.
    assert(m >= c + 1) by (nonlinear_arith)
        requires
            d > 0,
            slot - t0 == d * m,
            slot > now,
            now - t0 == d * c + (now - t0) % d,
            0 <= (now - t0) % d < d,
    ;
    assert(later < slot) by (nonlinear_arith)
        requires
            d > 0,
            m >= c + 1,
            slot - t0 == d * m,
            later - t0 == d * c + (later - t0) % d,
            0 <= (later - t0) % d < d,
    ;
}

/// The pacing grid is kept: after a buffer at `now` with a constant target F > 0, the next
/// present slot lies on the grid `t0 + k * interval(F)`, where `t0` is the time pacing
/// restarted for F. A buffer that changes the target restarts the grid at its own time, and
/// every later buffer at the same target keeps the slot on that grid, so the premise of
/// `law_one_pass_per_frame_interval` holds for every buffer at that target.
pub proof fn law_pacing_stays_on_grid(s: PresentLimiter, target_fps: u32, now: u64, t0: int)
    requires
        target_fps > 0,
        t0 <= now,
        if target_fps != s.active_fps {
            t0 == now
        } else {
            &&& t0 <= s.next_present_at_ns
            &&& (s.next_present_at_ns - t0) % (spec_frame_interval_ns(target_fps) as int) == 0
        },
    ensures
        ({
            let d = spec_frame_interval_ns(target_fps) as int;
            let n = s.slot_after(target_fps, now, spec_frame_interval_ns(target_fps));
            &&& t0 <= s.pacing_slot(target_fps, now)
            &&& (s.pacing_slot(target_fps, now) - t0) % d == 0
            &&& t0 <= n
            &&& (n - t0) % d == 0
        }),
{
    let d = spec_frame_interval_ns(target_fps) as int;
    let slot = s.pacing_slot(target_fps, now) as int;
    if target_fps != s.active_fps {
        vstd::arithmetic::div_mod::lemma_mod_self_0(d);
        assert(0int % d == 0) by {
            vstd::arithmetic::div_mod::lemma_small_mod(0, d as nat);
        }
    }
    if now >= slot {
        let n = next_slot(slot, now as int, d);
        law_next_slot_within_one_interval(slot, now as int, d);
        vstd::arithmetic::div_mod::lemma_fundamental_div_mod(n - slot, d);
        vstd::arithmetic::div_mod::lemma_fundamental_div_mod(slot - t0, d);
        let a = (n - slot) / d;
        let b = (slot - t0) / d;
        assert(n - t0 == d * (a + b)) by (nonlinear_arith)
            requires
                n - slot == d * a + (n - slot) % d,
                slot - t0 == d * b + (slot - t0) % d,
                (n - slot) % d == 0,
                (slot - t0) % d == 0,
        ;
        assert(d * (a + b) == (a + b) * d) by (nonlinear_arith);
        vstd::arithmetic::div_mod::lemma_mod_multiples_basic(a + b, d);
    }
}
} // verus!
