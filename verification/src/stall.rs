//! Video stall detection and the escalating recovery schedule.
use vstd::prelude::*;

verus! {

/// A stall shorter than this is not a stall.
pub const VIDEO_STALL_WARNING_MS: u64 = 2_500;

pub const VIDEO_STALL_SECOND_ATTEMPT_MS: u64 = 5_000;

pub const VIDEO_STALL_RESYNC_MS: u64 = 8_000;

pub const VIDEO_STALL_PARTIAL_FLUSH_MS: u64 = 12_000;

pub const VIDEO_STALL_COMPLETE_FLUSH_MS: u64 = 16_000;

pub const VIDEO_STALL_FATAL_MS: u64 = 20_000;

/// Two recovery requests are never issued closer together than this.
pub const VIDEO_STALL_MIN_KEYFRAME_REQUEST_MS: u64 = 2_000;

/// The last recovery attempt; after it the tracker stays quiet until recovery.
pub const VIDEO_STALL_LAST_ATTEMPT: u8 = 6;

/// What the liveness watchdog should do after one evaluation.
#[derive(Debug, Clone, Copy, PartialEq, Eq, Structural)]
pub enum VideoStallAction {
    Nothing,
    RequestKeyframe { attempt: u8, stall_ms: u64 },
    Resync { attempt: u8, stall_ms: u64 },
    PartialFlush { attempt: u8, stall_ms: u64 },
    CompleteFlush { attempt: u8, stall_ms: u64 },
    Fatal { attempt: u8, stall_ms: u64 },
    Recovered { stall_ms: u64 },
}

/// `a - b`, or 0 when `b` is larger.
pub open spec fn sat_sub(a: u64, b: u64) -> u64 {
    if a >= b {
        (a - b) as u64
    } else {
        0
    }
}

/// The stall length at which recovery attempt `attempt` becomes due, if there is such an attempt.
pub open spec fn attempt_due_ms(attempt: u8) -> Option<u64> {
    if attempt == 1 {
        Some(VIDEO_STALL_WARNING_MS)
    } else if attempt == 2 {
        Some(VIDEO_STALL_SECOND_ATTEMPT_MS)
    } else if attempt == 3 {
        Some(VIDEO_STALL_RESYNC_MS)
    } else if attempt == 4 {
        Some(VIDEO_STALL_PARTIAL_FLUSH_MS)
    } else if attempt == 5 {
        Some(VIDEO_STALL_COMPLETE_FLUSH_MS)
    } else if attempt == 6 {
        Some(VIDEO_STALL_FATAL_MS)
    } else {
        None
    }
}

/// The recovery step that attempt number `attempt` performs.
pub open spec fn action_for_attempt(attempt: u8, stall_ms: u64) -> VideoStallAction {
    if attempt == 1 || attempt == 2 {
        VideoStallAction::RequestKeyframe { attempt, stall_ms }
    } else if attempt == 3 {
        VideoStallAction::Resync { attempt, stall_ms }
    } else if attempt == 4 {
        VideoStallAction::PartialFlush { attempt, stall_ms }
    } else if attempt == 5 {
        VideoStallAction::CompleteFlush { attempt, stall_ms }
    } else {
        VideoStallAction::Fatal { attempt, stall_ms }
    }
}

/// Whether an action is one of the escalating recovery attempts.
pub open spec fn is_recovery_attempt(action: VideoStallAction) -> bool {
    match action {
        VideoStallAction::Nothing => false,
        VideoStallAction::Recovered { .. } => false,
        _ => true,
    }
}

/// The attempt number carried by a recovery action (0 for the others).
pub open spec fn attempt_of(action: VideoStallAction) -> u8 {
    match action {
        VideoStallAction::RequestKeyframe { attempt, .. } => attempt,
        VideoStallAction::Resync { attempt, .. } => attempt,
        VideoStallAction::PartialFlush { attempt, .. } => attempt,
        VideoStallAction::CompleteFlush { attempt, .. } => attempt,
        VideoStallAction::Fatal { attempt, .. } => attempt,
        _ => 0,
    }
}

/// Tracks one ongoing video stall and schedules recovery attempts for it.
#[derive(Debug, Clone, Copy)]
pub struct VideoStallTracker {
    in_stall: bool,
    stall_started_ms: u64,
    last_request_ms: Option<u64>,
    next_attempt: u8,
}

impl VideoStallTracker {
    pub closed spec fn spec_in_stall(&self) -> bool {
        self.in_stall
    }

    pub closed spec fn spec_stall_started_ms(&self) -> u64 {
        self.stall_started_ms
    }

    pub closed spec fn spec_last_request_ms(&self) -> Option<u64> {
        self.last_request_ms
    }

    pub closed spec fn spec_next_attempt(&self) -> u8 {
        self.next_attempt
    }

    /// The invariant every tracker keeps: the next attempt is one of 1 ..= 7.
    pub open spec fn wf(&self) -> bool {
        1 <= self.spec_next_attempt() <= VIDEO_STALL_LAST_ATTEMPT + 1
    }

    /// The tracker as it is before any stall was seen.
    pub open spec fn is_idle(&self) -> bool {
        &&& !self.spec_in_stall()
        &&& self.spec_stall_started_ms() == 0
        &&& self.spec_last_request_ms() is None
        &&& self.spec_next_attempt() == 1
    }

    /// One evaluation step: the tracker after it, and the action it reports.
    ///
    /// `now_ms - last_video_ms` (saturating) is the current stall length.
    pub open spec fn step_in_stall(self, now_ms: u64, last_video_ms: u64) -> bool {
        sat_sub(now_ms, last_video_ms) >= VIDEO_STALL_WARNING_MS
    }

    /// The attempt that the step considers (after a new stall resets it to 1).
    pub open spec fn considered_attempt(self) -> u8 {
        if self.spec_in_stall() {
            self.spec_next_attempt()
        } else {
            1
        }
    }

    /// Whether the rate limit between two recovery requests holds at `now_ms`.
    pub open spec fn request_allowed(self, now_ms: u64) -> bool {
        match self.spec_last_request_ms() {
            Some(last) => sat_sub(now_ms, last) >= VIDEO_STALL_MIN_KEYFRAME_REQUEST_MS,
            None => true,
        }
    }

    /// The action one evaluation at `now_ms`, with the last video at `last_video_ms`, reports.
    pub open spec fn spec_action(self, now_ms: u64, last_video_ms: u64) -> VideoStallAction {
        let stall_ms = sat_sub(now_ms, last_video_ms);
        if !self.step_in_stall(now_ms, last_video_ms) {
            if self.spec_in_stall() {
                VideoStallAction::Recovered { stall_ms: sat_sub(now_ms, self.spec_stall_started_ms()) }
            } else {
                VideoStallAction::Nothing
            }
        } else {
            let attempt = self.considered_attempt();
            match attempt_due_ms(attempt) {
                None => VideoStallAction::Nothing,
                Some(due) => if stall_ms < due || !self.request_allowed(now_ms) {
                    VideoStallAction::Nothing
                } else {
                    action_for_attempt(attempt, stall_ms)
                },
            }
        }
    }

    /// Constructs the tracker in its idle state.
    pub fn new() -> (tracker: Self)
        ensures
            tracker.is_idle(),
            tracker.wf(),
    {
        VideoStallTracker { in_stall: false, stall_started_ms: 0, last_request_ms: None, next_attempt: 1 }
    }

    /// The tracker after one evaluation at `now_ms`, with the last video at `last_video_ms`.
    pub closed spec fn spec_step(self, now_ms: u64, last_video_ms: u64) -> Self {
        if !self.step_in_stall(now_ms, last_video_ms) {
            if self.in_stall {
                VideoStallTracker { in_stall: false, stall_started_ms: 0, last_request_ms: None, next_attempt: 1 }
            } else {
                self
            }
        } else {
            let entered = if self.in_stall {
                self
            } else {
                VideoStallTracker { in_stall: true, stall_started_ms: last_video_ms, ..self }.with_attempt(1)
            };
            if is_recovery_attempt(self.spec_action(now_ms, last_video_ms)) {
                VideoStallTracker {
                    next_attempt: (entered.next_attempt + 1) as u8,
                    last_request_ms: Some(now_ms),
                    ..entered
                }
            } else {
                entered
            }
        }
    }

    pub closed spec fn with_attempt(self, attempt: u8) -> Self {
        VideoStallTracker { next_attempt: attempt, ..self }
    }

    /// Evaluates the stall at `now_ms`, given that the last video frame was seen at
    /// `last_video_ms`, and advances the recovery schedule.
    pub fn evaluate(&mut self, now_ms: u64, last_video_ms: u64) -> (action: VideoStallAction)
        requires
            old(self).wf(),
        ensures
            final(self).wf(),
            action == old(self).spec_action(now_ms, last_video_ms),
            *final(self) == old(self).spec_step(now_ms, last_video_ms),
    {
        let stall_ms = now_ms.saturating_sub(last_video_ms);
        if stall_ms < VIDEO_STALL_WARNING_MS {
            if self.in_stall {
                let recovered_ms = now_ms.saturating_sub(self.stall_started_ms);
                *self = Self::new();
                return VideoStallAction::Recovered { stall_ms: recovered_ms };
            }
            return VideoStallAction::Nothing;
        }
        if !self.in_stall {
            self.in_stall = true;
            self.stall_started_ms = last_video_ms;
            self.next_attempt = 1;
        }
        let next_due_ms: u64 = match self.next_attempt {
            1 => VIDEO_STALL_WARNING_MS,
            2 => VIDEO_STALL_SECOND_ATTEMPT_MS,
            3 => VIDEO_STALL_RESYNC_MS,
            4 => VIDEO_STALL_PARTIAL_FLUSH_MS,
            5 => VIDEO_STALL_COMPLETE_FLUSH_MS,
            6 => VIDEO_STALL_FATAL_MS,
            _ => return VideoStallAction::Nothing,
        };
        if stall_ms < next_due_ms {
            return VideoStallAction::Nothing;
        }
        if let Some(last) = self.last_request_ms {
            if now_ms.saturating_sub(last) < VIDEO_STALL_MIN_KEYFRAME_REQUEST_MS {
                return VideoStallAction::Nothing;
            }
        }
        let attempt = self.next_attempt;
        self.next_attempt = self.next_attempt + 1;
        self.last_request_ms = Some(now_ms);
        match attempt {
            1 | 2 => VideoStallAction::RequestKeyframe { attempt, stall_ms },
            3 => VideoStallAction::Resync { attempt, stall_ms },
            4 => VideoStallAction::PartialFlush { attempt, stall_ms },
            5 => VideoStallAction::CompleteFlush { attempt, stall_ms },
            _ => VideoStallAction::Fatal { attempt, stall_ms },
        }
    }
}

/// A stall shorter than the warning threshold never triggers a recovery attempt.
pub proof fn law_no_attempt_below_warning(t: VideoStallTracker, now_ms: u64, last_video_ms: u64)
    requires
        t.wf(),
        sat_sub(now_ms, last_video_ms) < VIDEO_STALL_WARNING_MS,
    ensures
        !is_recovery_attempt(t.spec_action(now_ms, last_video_ms)),
{
}

/// Ending a stall reports how long it lasted and returns the tracker to its idle state;
/// outside a stall, a short gap changes nothing.
pub proof fn law_recovery_resets(t: VideoStallTracker, now_ms: u64, last_video_ms: u64)
    requires
        t.wf(),
        sat_sub(now_ms, last_video_ms) < VIDEO_STALL_WARNING_MS,
    ensures
        t.spec_in_stall() ==> {
            &&& t.spec_action(now_ms, last_video_ms) == (VideoStallAction::Recovered {
                stall_ms: sat_sub(now_ms, t.spec_stall_started_ms()),
            })
            &&& t.spec_step(now_ms, last_video_ms).is_idle()
        },
        !t.spec_in_stall() ==> {
            &&& t.spec_action(now_ms, last_video_ms) == VideoStallAction::Nothing
            &&& t.spec_step(now_ms, last_video_ms) == t
        },
{
}

/// Recovery attempts are numbered consecutively from 1, each attempt performs the step its
/// number calls for, only once the stall has lasted that step's threshold, and no two
/// attempts are closer together than the minimum request interval.
pub proof fn law_attempts_escalate(t: VideoStallTracker, now_ms: u64, last_video_ms: u64)
    requires
        t.wf(),
        is_recovery_attempt(t.spec_action(now_ms, last_video_ms)),
    ensures
        ({
            let action = t.spec_action(now_ms, last_video_ms);
            let next = t.spec_step(now_ms, last_video_ms);
            let attempt = attempt_of(action);
            let stall_ms = sat_sub(now_ms, last_video_ms);
            &&& attempt == t.considered_attempt()
            &&& 1 <= attempt <= VIDEO_STALL_LAST_ATTEMPT
            &&& action == action_for_attempt(attempt, stall_ms)
            &&& stall_ms >= attempt_due_ms(attempt)->0
            &&& next.spec_next_attempt() == attempt + 1
            &&& next.spec_in_stall()
            &&& next.spec_last_request_ms() == Some(now_ms)
            &&& (t.spec_last_request_ms() matches Some(last) ==> sat_sub(now_ms, last)
                >= VIDEO_STALL_MIN_KEYFRAME_REQUEST_MS)
        }),
{
}

/// Once the fatal attempt has been reported the tracker stays quiet, and unchanged, for as
/// long as the stall lasts.
pub proof fn law_quiet_after_fatal(
    t: VideoStallTracker,
    now_ms: u64,
    last_video_ms: u64,
    later_ms: u64,
    later_last_video_ms: u64,
)
    requires
        t.wf(),
        t.spec_action(now_ms, last_video_ms) matches VideoStallAction::Fatal { .. },
        sat_sub(later_ms, later_last_video_ms) >= VIDEO_STALL_WARNING_MS,
    ensures
        ({
            let after = t.spec_step(now_ms, last_video_ms);
            &&& after.spec_action(later_ms, later_last_video_ms) == VideoStallAction::Nothing
            &&& after.spec_step(later_ms, later_last_video_ms) == after
        }),
{
}

/// A stall is tracked from the time of the last video frame before it, and that start time
/// does not move while the stall lasts.
pub proof fn law_stall_start_fixed(t: VideoStallTracker, now_ms: u64, last_video_ms: u64)
    requires
        t.wf(),
        sat_sub(now_ms, last_video_ms) >= VIDEO_STALL_WARNING_MS,
    ensures
        t.spec_step(now_ms, last_video_ms).spec_in_stall(),
        t.spec_step(now_ms, last_video_ms).spec_stall_started_ms() == if t.spec_in_stall() {
            t.spec_stall_started_ms()
        } else {
            last_video_ms
        },
{
}

/// What one evaluation leaves in the tracker. A short gap ends a stall (back to idle) or
/// changes nothing; in a stall, the tracker is in the stall from its start time (kept, or the
/// last video time for a new stall), and an attempt that is made moves the schedule to the
/// next attempt and records the request time, while otherwise the schedule stays as it was.
pub proof fn law_step_state(t: VideoStallTracker, now_ms: u64, last_video_ms: u64)
    requires
        t.wf(),
    ensures
        ({
            let next = t.spec_step(now_ms, last_video_ms);
            let attempted = is_recovery_attempt(t.spec_action(now_ms, last_video_ms));
            &&& next.wf()
            &&& !t.step_in_stall(now_ms, last_video_ms) ==> if t.spec_in_stall() {
                next.is_idle()
            } else {
                next == t
            }
            &&& t.step_in_stall(now_ms, last_video_ms) ==> {
                &&& next.spec_in_stall()
                &&& next.spec_stall_started_ms() == if t.spec_in_stall() {
                    t.spec_stall_started_ms()
                } else {
                    last_video_ms
                }
                &&& next.spec_next_attempt() == if attempted {
                    t.considered_attempt() + 1
                } else {
                    t.considered_attempt() as int
                }
                &&& next.spec_last_request_ms() == if attempted {
                    Some(now_ms)
                } else {
                    t.spec_last_request_ms()
                }
            }
        }),
{
}

/// Inside a stall, an evaluation at which no attempt is due reports nothing and leaves the
/// tracker exactly as it was.
pub proof fn law_quiet_step_in_stall(t: VideoStallTracker, now_ms: u64, last_video_ms: u64)
    requires
        t.wf(),
        t.spec_in_stall(),
        sat_sub(now_ms, last_video_ms) >= VIDEO_STALL_WARNING_MS,
        !is_recovery_attempt(t.spec_action(now_ms, last_video_ms)),
    ensures
        t.spec_action(now_ms, last_video_ms) == VideoStallAction::Nothing,
        t.spec_step(now_ms, last_video_ms) == t,
{
}

impl Default for VideoStallTracker {
    fn default() -> (tracker: Self)
        ensures
            tracker.is_idle(),
            tracker.wf(),
    {
        Self::new()
    }
}

} // verus!
