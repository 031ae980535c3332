use opennow_streamer::stall::{VideoStallAction, VideoStallTracker};
use opennow_streamer::watchdog::{
    age_since_ms, classify_video_stall, format_age_ms, plan_watchdog_poll, startup_encoded_age,
    transition_flush_message, transition_flush_targets, FlushTarget, StallReport,
    StartupRecovery, TransitionFlushKind, VideoStallStage, WatchdogSample,
};

fn sample(now_ms: u64, last_sink_ms: u64, last_encoded_ms: u64, last_decoded_ms: u64) -> WatchdogSample {
    WatchdogSample {
        now_ms,
        last_sink_ms,
        last_encoded_ms,
        last_decoded_ms,
        flush_escalation_enabled: true,
        queue_depth: 1,
    }
}

#[test]
fn stall_below_warning_requests_nothing() {
    let mut tracker = VideoStallTracker::new();
    for now in [0u64, 1_000, 2_000, 2_499] {
        assert_eq!(tracker.evaluate(now, 0), VideoStallAction::Nothing);
    }
}

#[test]
fn stall_attempts_are_rate_limited_to_two_seconds() {
    let mut tracker = VideoStallTracker::new();
    assert_eq!(
        tracker.evaluate(10_000, 0),
        VideoStallAction::RequestKeyframe { attempt: 1, stall_ms: 10_000 }
    );
    assert_eq!(tracker.evaluate(11_999, 0), VideoStallAction::Nothing);
    assert_eq!(
        tracker.evaluate(12_000, 0),
        VideoStallAction::RequestKeyframe { attempt: 2, stall_ms: 12_000 }
    );
}

#[test]
fn stall_goes_quiet_after_fatal() {
    let mut tracker = VideoStallTracker::new();
    let mut now = 2_500u64;
    let mut last = VideoStallAction::Nothing;
    while now <= 20_000 {
        let action = tracker.evaluate(now, 0);
        if action != VideoStallAction::Nothing {
            last = action;
        }
        now += 500;
    }
    assert_eq!(last, VideoStallAction::Fatal { attempt: 6, stall_ms: 20_000 });
    assert_eq!(tracker.evaluate(40_000, 0), VideoStallAction::Nothing);
    assert_eq!(
        tracker.evaluate(40_100, 40_000),
        VideoStallAction::Recovered { stall_ms: 40_100 }
    );
}

#[test]
fn ages_and_their_text() {
    assert_eq!(age_since_ms(5_000, 0), None);
    assert_eq!(age_since_ms(5_000, 1_000), Some(4_000));
    assert_eq!(age_since_ms(1_000, 5_000), Some(0));
    assert_eq!(format_age_ms(Some(1_234)), "1234ms");
    assert_eq!(format_age_ms(None), "n/a");
    assert_eq!(startup_encoded_age(5_000, 0), "never");
    assert_eq!(startup_encoded_age(5_000, 4_200), "800ms");
}

#[test]
fn classifies_each_stall_stage() {
    assert_eq!(classify_video_stall(Some(3_000), Some(3_000), Some(3_000)), "video-rtp-idle");
    assert_eq!(classify_video_stall(Some(500), Some(3_000), Some(3_000)), "decode-chain-stalled");
    assert_eq!(classify_video_stall(Some(2_000), Some(800), Some(3_000)), "present-chain-stalled");
    assert_eq!(classify_video_stall(None, None, Some(3_000)), "video-rtp-not-observed");
    assert_eq!(classify_video_stall(Some(2_000), Some(2_000), Some(3_000)), "video-output-stalled");
}

#[test]
fn watchdog_runs_startup_check_before_first_frame() {
    let mut tracker = VideoStallTracker::new();
    let plan = plan_watchdog_poll(&mut tracker, sample(9_000, 0, 0, 0));
    assert!(plan.check_startup);
    assert!(!plan.request_keyframe);
    assert_eq!(plan.stall_report, None);
    assert_eq!(plan.stage, VideoStallStage::RtpNotObserved);
}

#[test]
fn watchdog_escalates_through_flushes_on_transition_stall() {
    let mut tracker = VideoStallTracker::new();
    // Encoded video keeps arriving while decoded and rendered video stopped at 1000 ms.
    let first = plan_watchdog_poll(&mut tracker, sample(3_500, 1_000, 3_400, 900));
    assert!(first.request_keyframe);
    assert_eq!(first.stage, VideoStallStage::DecodeChainStalled);
    assert_eq!(
        first.stall_report,
        Some(StallReport { attempt: 1, stall_ms: 2_500, will_resync: false })
    );
    let second = plan_watchdog_poll(&mut tracker, sample(6_000, 1_000, 5_900, 1_000));
    assert_eq!(second.stall_report.map(|r| r.attempt), Some(2));
    let resync = plan_watchdog_poll(&mut tracker, sample(9_000, 1_000, 8_900, 1_000));
    assert!(resync.resync_latency);
    assert_eq!(resync.stall_report.map(|r| r.will_resync), Some(true));
    let partial = plan_watchdog_poll(&mut tracker, sample(13_000, 1_000, 12_900, 1_000));
    assert_eq!(partial.flush, Some(TransitionFlushKind::Partial));
    assert!(partial.request_keyframe);
    let complete = plan_watchdog_poll(&mut tracker, sample(17_000, 1_000, 16_900, 1_000));
    assert_eq!(complete.flush, Some(TransitionFlushKind::Complete));
    let fatal = plan_watchdog_poll(&mut tracker, sample(21_000, 1_000, 20_900, 1_000));
    assert_eq!(fatal.fatal_stall_ms, Some(20_000));
    assert_eq!(fatal.flush, None);
}

#[test]
fn watchdog_skips_flush_when_escalation_is_disabled() {
    let mut tracker = VideoStallTracker::new();
    let mut s = sample(0, 1_000, 0, 1_000);
    s.flush_escalation_enabled = false;
    for (now, expect_flush) in [(3_500u64, false), (6_000, false), (9_000, false), (13_000, false)] {
        s.now_ms = now;
        s.last_encoded_ms = now - 100;
        let plan = plan_watchdog_poll(&mut tracker, s);
        assert_eq!(plan.flush.is_some(), expect_flush);
    }
}

#[test]
fn watchdog_restores_queue_depth_on_recovery() {
    let mut tracker = VideoStallTracker::new();
    let _ = plan_watchdog_poll(&mut tracker, sample(3_500, 1_000, 3_400, 3_400));
    let mut s = sample(3_600, 3_550, 3_550, 3_550);
    s.queue_depth = 2;
    let plan = plan_watchdog_poll(&mut tracker, s);
    assert_eq!(plan.recovered_stall_ms, Some(2_600));
    assert!(plan.reset_queue_depth);
}

#[test]
fn startup_recovery_steps_fire_once_each() {
    let mut recovery = StartupRecovery::new();
    assert_eq!(recovery.check(1_000, 0, 0), None);
    let early = recovery.check(3_000, 1_000, 2_900).unwrap();
    assert_eq!(early.audio_active_ms, 2_000);
    assert!(!early.request_keyframe && !early.resync && !early.fatal);
    let keyframe = recovery.check(3_600, 1_000, 3_500).unwrap();
    assert!(keyframe.request_keyframe && !keyframe.resync);
    let again = recovery.check(3_700, 1_000, 3_600).unwrap();
    assert!(!again.request_keyframe);
    let resync = recovery.check(6_100, 1_000, 6_000).unwrap();
    assert!(resync.resync && !resync.request_keyframe && !resync.fatal);
    let fatal = recovery.check(9_100, 1_000, 9_000).unwrap();
    assert!(fatal.fatal && !fatal.resync);
    assert!(!recovery.check(12_000, 1_000, 11_900).unwrap().fatal);
    // Audio that went quiet stops the startup check.
    assert_eq!(recovery.check(20_000, 1_000, 11_900), None);
}

#[test]
fn transition_flush_targets_and_message() {
    let partial = transition_flush_targets(TransitionFlushKind::Partial, true, true, true);
    assert_eq!(partial, vec![FlushTarget::PreDecodeQueue, FlushTarget::PostDecodeQueue]);
    let complete = transition_flush_targets(TransitionFlushKind::Complete, true, true, true);
    assert_eq!(
        complete,
        vec![FlushTarget::PreDecodeQueue, FlushTarget::Decoder, FlushTarget::PostDecodeQueue]
    );
    assert_eq!(
        transition_flush_message(TransitionFlushKind::Complete, &complete),
        "Performed complete native transition flush on pre-decode queue, decoder, post-decode queue."
    );
    let none = transition_flush_targets(TransitionFlushKind::Complete, false, false, false);
    assert!(none.is_empty());
    let only_post = transition_flush_targets(TransitionFlushKind::Partial, false, true, true);
    assert_eq!(
        transition_flush_message(TransitionFlushKind::Partial, &only_post),
        "Performed partial native transition flush on post-decode queue."
    );
}
