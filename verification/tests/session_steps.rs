use opennow_streamer::caps_watch::MismatchWarning;
use opennow_streamer::gamepad::{plan_gamepad_poll, NativeGamepadSnapshot, XInputGamepadSnapshot};
use opennow_streamer::liveness::{configure_stream, LivenessRecord, StreamInfo};
use opennow_streamer::present::{frame_interval_ns, PresentLimiter};
use opennow_streamer::session::{
    not_started_message, offer_progress, BackendErrorCode, OfferProgress, OfferStep,
};
use opennow_streamer::telemetry::{
    ColorQuality, NativeQueueMode, StreamSettings, TransitionTelemetry, VideoCodec,
};
use opennow_streamer::video_api::{rtp_video_chain_definition, RtpVideoApi};
use opennow_streamer::watchdog::{
    flush_queue_reason, nothing_to_flush_message, plan_transition_flush, FlushTarget, StartupRecovery,
    TransitionFlushKind,
};

#[test]
fn offer_steps_run_in_order_and_fail_with_their_codes() {
    assert_eq!(offer_progress(OfferStep::ParseRemoteSdp, true), OfferProgress::Next(OfferStep::FindPipeline));
    assert_eq!(offer_progress(OfferStep::FindPipeline, true), OfferProgress::Next(OfferStep::Negotiate));
    assert_eq!(offer_progress(OfferStep::Negotiate, true), OfferProgress::Next(OfferStep::ReplayCandidates));
    assert_eq!(offer_progress(OfferStep::ReplayCandidates, true), OfferProgress::Answered);
    assert_eq!(offer_progress(OfferStep::ReplayCandidates, false), OfferProgress::Answered);
    assert_eq!(
        offer_progress(OfferStep::ParseRemoteSdp, false),
        OfferProgress::Failed(BackendErrorCode::InvalidRemoteSdp)
    );
    assert_eq!(
        offer_progress(OfferStep::FindPipeline, false),
        OfferProgress::Failed(BackendErrorCode::NotStarted)
    );
    assert_eq!(
        offer_progress(OfferStep::Negotiate, false),
        OfferProgress::Failed(BackendErrorCode::NegotiationFailed)
    );
    assert_eq!(BackendErrorCode::InvalidRemoteSdp.as_str(), "invalid-remote-sdp");
    assert_eq!(BackendErrorCode::NotStarted.as_str(), "gstreamer-not-started");
    assert_eq!(BackendErrorCode::NegotiationFailed.as_str(), "gstreamer-negotiation-failed");
    assert_eq!(BackendErrorCode::RemoteIceFailed.as_str(), "remote-ice-failed");
    assert_eq!(BackendErrorCode::StartFailed.as_str(), "gstreamer-start-failed");
    assert_eq!(BackendErrorCode::StopFailed.as_str(), "gstreamer-stop-failed");
    assert_eq!(not_started_message(), "GStreamer pipeline is not started.");
}

#[test]
fn frame_intervals_follow_the_target_rate() {
    assert_eq!(frame_interval_ns(60), 16_666_667);
    assert_eq!(frame_interval_ns(240), 4_166_667);
    assert_eq!(frame_interval_ns(1), 1_000_000_000);
    assert_eq!(frame_interval_ns(0), 1_000_000_000);
    assert_eq!(frame_interval_ns(u32::MAX), 1);
}

#[test]
fn limiter_passes_one_buffer_per_frame_interval() {
    let interval = frame_interval_ns(100);
    let mut limiter = PresentLimiter::new(0);
    let t0 = 1_000u64;
    let mut passes = Vec::new();
    let mut now = t0;
    while now < t0 + 5 * interval {
        if limiter.on_buffer(100, now, interval).pass {
            passes.push(now);
        }
        now += 1_000_000;
    }
    assert_eq!(passes.len(), 5);
    for (k, pass) in passes.iter().enumerate() {
        assert_eq!((pass - t0) / interval, k as u64);
    }
}

#[test]
fn disconnected_slot_keepalive_is_not_sent() {
    let pad = XInputGamepadSnapshot::from_raw(2, 0, 0, 0, 0, 0, 0);
    let mut previous = vec![NativeGamepadSnapshot::disconnected(), NativeGamepadSnapshot::from_xinput(pad)];
    let polled = vec![None, Some(pad)];
    let (bitmap, sends) = plan_gamepad_poll(&mut previous, &polled, &vec![true, true]);
    assert_eq!(bitmap, 0b10);
    assert_eq!(sends.len(), 1);
    assert_eq!(sends[0].controller_id, 1);
    assert_eq!(sends[0].snapshot, NativeGamepadSnapshot::from_xinput(pad));
}

#[test]
fn configuring_a_stream_resets_its_liveness_state() {
    let settings = StreamSettings {
        resolution: "2560x1440".to_owned(),
        fps: 240,
        max_bitrate_mbps: 75,
        codec: VideoCodec::Av1,
        color_quality: ColorQuality::TenBit420,
        enable_cloud_gsync: false,
        native_transition_diagnostics: None,
    };
    let mut info = StreamInfo::new();
    info.caps_framerate = Some("60/1".to_owned());
    info.memory_mode = "D3D11Memory".to_owned();
    let mut record = LivenessRecord::new();
    record.first_encoded_logged = true;
    record.first_startup_audio_ms = 77;
    let mut telemetry = TransitionTelemetry::new();
    telemetry.record_present_pacing_change();
    let mut startup = StartupRecovery::new();
    startup.fatal_reported = true;
    let mut mismatch = MismatchWarning::new();
    assert!(mismatch.first_time());
    configure_stream(&mut info, &mut record, &mut telemetry, &mut startup, &mut mismatch, &settings, 75_000);
    assert_eq!(info.codec, "AV1");
    assert_eq!(info.resolution, "2560x1440");
    assert_eq!(info.caps_framerate, None);
    assert_eq!(info.memory_mode, "D3D11Memory");
    assert_eq!(record.requested_fps, 240);
    assert_eq!(record.target_bitrate_kbps, 75_000);
    assert!(!record.first_encoded_logged);
    assert_eq!(record.first_startup_audio_ms, 0);
    assert_eq!(telemetry.queue_mode, NativeQueueMode::Adaptive);
    assert_eq!(telemetry.present_pacing_changes, 0);
    assert!(!startup.fatal_reported);
    assert!(mismatch.first_time());
}

#[test]
fn frame_interval_rounds_to_nearest() {
    assert_eq!(frame_interval_ns(1024), 976_562);
    assert_eq!(frame_interval_ns(2048), 488_281);
    assert_eq!(frame_interval_ns(640), 1_562_500);
    assert_eq!(frame_interval_ns(3), 333_333_333);
    assert_eq!(frame_interval_ns(7), 142_857_143);
}

#[test]
fn transition_flush_plans_and_counts() {
    assert_eq!(plan_transition_flush(TransitionFlushKind::Partial, false, true, false), None);
    assert_eq!(
        plan_transition_flush(TransitionFlushKind::Partial, true, true, true),
        Some(vec![FlushTarget::PreDecodeQueue, FlushTarget::PostDecodeQueue])
    );
    assert_eq!(
        plan_transition_flush(TransitionFlushKind::Complete, false, true, false),
        Some(vec![FlushTarget::Decoder])
    );
    assert_eq!(
        nothing_to_flush_message(),
        "Cannot flush native transition path because no video branch elements are registered."
    );
    assert_eq!(flush_queue_reason(TransitionFlushKind::Partial), "transition partial flush");
    assert_eq!(flush_queue_reason(TransitionFlushKind::Complete), "transition complete flush");

    let mut telemetry = TransitionTelemetry::new();
    assert!(telemetry.record_transition_flush(TransitionFlushKind::Partial));
    assert_eq!(telemetry.partial_flush_count, 1);
    assert_eq!(telemetry.complete_flush_count, 0);
    assert_eq!(telemetry.queue_depth, 2);
    assert_eq!(telemetry.queue_depth_changes, 1);
    assert!(!telemetry.record_transition_flush(TransitionFlushKind::Complete));
    assert_eq!(telemetry.partial_flush_count, 1);
    assert_eq!(telemetry.complete_flush_count, 1);
    assert_eq!(telemetry.queue_depth, 2);
    assert_eq!(telemetry.queue_depth_changes, 1);
}

#[test]
fn chain_ignores_encoding_case() {
    let lower = rtp_video_chain_definition("h264", RtpVideoApi::D3D11, false).unwrap();
    let upper = rtp_video_chain_definition("H264", RtpVideoApi::D3D11, false).unwrap();
    assert_eq!(lower.len(), upper.len());
    for (a, b) in lower.iter().zip(upper.iter()) {
        assert_eq!(a.factory, b.factory);
        assert_eq!(a.role, b.role);
    }
    assert!(rtp_video_chain_definition("vp8", RtpVideoApi::D3D11, false).is_none());
}
