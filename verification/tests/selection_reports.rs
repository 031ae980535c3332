use opennow_streamer::capabilities::{
    native_video_backend_capabilities, native_video_backend_capability,
    native_video_codec_capability,
};
use opennow_streamer::chain_select::rtp_video_chain_specs;
use opennow_streamer::diagnostics::{
    chain_linked_message, chain_unavailable_message, chain_wiring,
    format_d3d12_selection_summary, present_limiter_message,
};
use opennow_streamer::liveness::{overlay_shows_text, queue_depth_message, LivenessRecord};
use opennow_streamer::numbers::{int_error_message, parse_unsigned_range, IntErrorKind};
use opennow_streamer::platform::TargetPlatform;
use opennow_streamer::present::{PresentLimiter, PRESENT_LIMITER_AUTO_SENTINEL};
use opennow_streamer::render_surface::{
    invalid_window_handle_message, normalized_render_rect, parse_window_handle, stats_overlay_visible, surface_render_rect,
    NativeRenderRect, NativeRenderSurface,
};
use opennow_streamer::text::{append_debug_option, append_quoted_option};
use opennow_streamer::telemetry::{
    ColorQuality, NativeQueueMode, NativeTransitionDiagnostics, StreamSettings,
    TransitionTelemetry, VideoCodec,
};
use opennow_streamer::video_api::{rtp_video_chain_definition, RtpVideoApi, RtpVideoChainRole};

fn installed(names: &[&str]) -> Vec<String> {
    names.iter().map(|name| name.to_string()).collect()
}

#[test]
fn picks_first_buildable_backend_in_preference_order() {
    let all = installed(&[
        "rtph264depay", "h264parse", "queue", "d3d11h264dec", "d3d12h264dec",
        "dwritetextoverlay", "d3d11videosink", "d3d12videosink", "capssetter",
    ]);
    let (api, specs) =
        rtp_video_chain_specs("H264", Some(120), None, TargetPlatform::Windows, false, &all).unwrap();
    assert_eq!(api, RtpVideoApi::D3D11);
    let factories: Vec<&str> = specs.iter().map(|spec| spec.factory).collect();
    assert_eq!(
        factories,
        vec!["rtph264depay", "h264parse", "queue", "d3d11h264dec", "capssetter",
             "dwritetextoverlay", "queue", "d3d11videosink"]
    );
    assert_eq!(specs[4].role, RtpVideoChainRole::PostDecodeRateSetter);
    assert_eq!(specs[4].caps.as_deref(), Some("video/x-raw,framerate=(fraction)120/1"));

    let (api, _) =
        rtp_video_chain_specs("H264", Some(240), None, TargetPlatform::Windows, false, &all).unwrap();
    assert_eq!(api, RtpVideoApi::D3D12);

    let no_d3d11 = installed(&[
        "rtph264depay", "h264parse", "queue", "d3d12h264dec", "d3d12videosink",
    ]);
    let (api, specs) =
        rtp_video_chain_specs("h264", None, None, TargetPlatform::Windows, false, &no_d3d11).unwrap();
    assert_eq!(api, RtpVideoApi::D3D12);
    assert!(!specs.iter().any(|spec| spec.factory == "dwritetextoverlay"));
    assert!(rtp_video_chain_specs("H264", None, Some("software"), TargetPlatform::Windows, false, &no_d3d11).is_none());
    assert!(rtp_video_chain_specs("VP8", None, None, TargetPlatform::Windows, false, &all).is_none());
}

#[test]
fn chain_wiring_points_at_first_elements_of_each_role() {
    let specs = rtp_video_chain_definition("H265", RtpVideoApi::D3D11, false).unwrap();
    let wiring = chain_wiring(&specs);
    assert_eq!(wiring.parser, Some(1));
    assert_eq!(wiring.pre_decode_queue, Some(2));
    assert_eq!(wiring.decoder, Some(3));
    assert_eq!(wiring.stats_overlay, Some(4));
    assert_eq!(wiring.post_decode_queue, Some(5));
    let software = rtp_video_chain_definition("H264", RtpVideoApi::Software, false).unwrap();
    assert_eq!(chain_wiring(&software).stats_overlay, None);
}

#[test]
fn chain_selection_messages() {
    let specs = rtp_video_chain_definition("H265", RtpVideoApi::D3D11, true).unwrap();
    assert_eq!(
        opennow_streamer::diagnostics::format_video_chain_selection("H265", RtpVideoApi::D3D11, &specs),
        "Selected native hardware video path for RTP H265: backend=D3D11, decoder=d3d11h265dec, converter=none, renderer=d3d11videosink, memory=video/x-raw(memory:D3D11Memory)."
    );
    assert!(chain_unavailable_message("VP8").starts_with(
        "Explicit low-latency decode chain is unavailable for RTP VP8;"
    ));
    assert_eq!(
        chain_linked_message("H264", RtpVideoApi::Software),
        "Linked RTP H264 video through explicit low-latency software decode chain."
    );
    assert_eq!(
        present_limiter_message(165, RtpVideoApi::D3D11, PRESENT_LIMITER_AUTO_SENTINEL),
        "Native present limiter enabled at 165 fps for D3D11 video path; reason: auto-enabled for the D3D11 path to prevent display-rate present backpressure."
    );
    assert_eq!(
        present_limiter_message(60, RtpVideoApi::D3D12, 60),
        "Native present limiter enabled at 60 fps for D3D12 video path; reason: configured by OPENNOW_NATIVE_PRESENT_MAX_FPS."
    );
}

#[test]
fn d3d12_selection_summary_names_its_reason() {
    assert_eq!(
        format_d3d12_selection_summary(Some(240), Some("D3D12"), None),
        "Native D3D12 video path selected; reason: forced by OPENNOW_NATIVE_VIDEO_BACKEND=d3d12. env OPENNOW_NATIVE_VIDEO_BACKEND=Some(\"D3D12\"), OPENNOW_NATIVE_VIDEO_API=None. If D3D12 stalls on a specific driver, force OPENNOW_NATIVE_VIDEO_BACKEND=d3d11."
    );
    assert!(format_d3d12_selection_summary(None, Some("d3d11"), Some("d3d12"))
        .contains("reason: forced by OPENNOW_NATIVE_VIDEO_API=d3d12."));
    assert!(format_d3d12_selection_summary(Some(240), None, None)
        .contains("reason: auto-selected for 240 fps stream to avoid D3D11 display-rate present backpressure."));
    assert!(format_d3d12_selection_summary(Some(60), None, None)
        .contains("reason: D3D11 was unavailable/probe failed."));
}

#[test]
fn capability_report_is_consistent() {
    let available = installed(&["rtph264depay", "h264parse", "queue", "avdec_h264", "videoconvert", "autovideosink"]);
    let software = native_video_backend_capability(RtpVideoApi::Software, TargetPlatform::Linux, false, &available);
    assert!(software.available);
    assert_eq!(software.reason, None);
    assert_eq!(software.sink.as_deref(), Some("autovideosink"));
    assert_eq!(software.codecs.len(), 3);
    assert!(software.codecs[0].available);
    assert_eq!(software.codecs[0].codec, "h264");
    assert!(!software.codecs[1].available);
    assert!(software.codecs[1].reason.is_some());
    let d3d11 = native_video_backend_capability(RtpVideoApi::D3D11, TargetPlatform::Linux, false, &available);
    assert!(!d3d11.available);
    assert_eq!(
        d3d11.reason.as_deref(),
        Some("D3D11 is a windows backend and does not run on linux.")
    );
    for backend in native_video_backend_capabilities(TargetPlatform::Linux, false, &available) {
        assert_eq!(backend.available, backend.reason.is_none());
        for codec in backend.codecs {
            assert_eq!(codec.available, codec.reason.is_none());
        }
    }
    let missing = native_video_codec_capability(RtpVideoApi::Software, "H265", true, Some("autovideosink"), false, &available);
    assert_eq!(missing.reason.as_deref(), Some("software decoder for H265 is not installed."));
}

#[test]
fn present_limiter_paces_on_a_grid() {
    let interval = 10_000_000u64;
    let mut limiter = PresentLimiter::new(0);
    let first = limiter.on_buffer(100, 1_000, interval);
    assert!(first.pass && first.pacing_changed);
    assert_eq!(limiter.next_present_at_ns, 1_000 + interval);
    assert!(!limiter.on_buffer(100, 5_000_000, interval).pass);
    let later = limiter.on_buffer(100, 25_000_000, interval);
    assert!(later.pass && !later.pacing_changed);
    assert!(limiter.next_present_at_ns > 25_000_000);
    assert!(limiter.next_present_at_ns <= 25_000_000 + interval);
    assert!(limiter.on_buffer(0, 25_000_001, interval).pass);
    let report = limiter.on_buffer(100, 1_100_000_000, interval).report.unwrap();
    assert_eq!(report.passed, 3);
    assert_eq!(report.dropped, 1);
}

#[test]
fn window_handles_parse_or_explain() {
    assert_eq!(parse_window_handle(" 0x1A2b "), Ok(0x1a2b));
    assert_eq!(parse_window_handle("4242"), Ok(4242));
    assert_eq!(parse_window_handle("+7"), Ok(7));
    assert_eq!(
        parse_window_handle("0"),
        Err("Native render window handle is zero.".to_owned())
    );
    assert_eq!(
        parse_window_handle("0xZZ"),
        Err("Invalid native render window handle \"0xZZ\": invalid digit found in string".to_owned())
    );
    assert_eq!(
        parse_window_handle("  "),
        Err("Invalid native render window handle \"  \": cannot parse integer from empty string".to_owned())
    );
    assert_eq!(
        parse_window_handle("0x1ffffffffffffffff"),
        Err("Invalid native render window handle \"0x1ffffffffffffffff\": number too large to fit in target type".to_owned())
    );
}

#[test]
fn handle_messages_and_quoted_options() {
    assert_eq!(
        invalid_window_handle_message("'h'", IntErrorKind::Empty),
        "Invalid native render window handle 'h': cannot parse integer from empty string"
    );
    let mut s = String::from("x=");
    append_quoted_option(&mut s, Some("<q>"));
    append_quoted_option(&mut s, None);
    assert_eq!(s, "x=Some(<q>)None");
    let mut d = String::new();
    append_debug_option(&mut d, Some("a\"b"));
    assert_eq!(d, "Some(\"a\\\"b\")");
}

#[test]
fn render_rectangles_and_overlay() {
    assert_eq!(
        normalized_render_rect(None),
        NativeRenderRect { x: 0, y: 0, width: 2, height: 2 }
    );
    assert_eq!(
        normalized_render_rect(Some(NativeRenderRect { x: -5, y: 10, width: 1, height: 720 })),
        NativeRenderRect { x: 0, y: 10, width: 2, height: 720 }
    );
    let surface = NativeRenderSurface {
        window_handle: Some("0x10".to_owned()),
        rect: Some(NativeRenderRect { x: 10, y: 20, width: 1280, height: 720 }),
        visible: false,
        show_stats: true,
    };
    assert_eq!(surface_render_rect(&surface), NativeRenderRect { x: 0, y: 0, width: 2, height: 2 });
    assert!(!stats_overlay_visible(&surface));
    let shown = NativeRenderSurface { visible: true, ..surface };
    assert_eq!(surface_render_rect(&shown), NativeRenderRect { x: 10, y: 20, width: 1280, height: 720 });
    assert!(stats_overlay_visible(&shown));
    assert!(overlay_shows_text(true, "x"));
    assert!(!overlay_shows_text(true, ""));
    assert!(!overlay_shows_text(false, "x"));
}

#[test]
fn integer_parsing_reports_std_errors() {
    let digits: Vec<char> = "+12x".chars().collect();
    assert_eq!(parse_unsigned_range(&digits, 0, 3, 10, 100), Ok(12));
    assert_eq!(parse_unsigned_range(&digits, 0, 4, 10, 100), Err(IntErrorKind::InvalidDigit));
    assert_eq!(parse_unsigned_range(&digits, 0, 0, 10, 100), Err(IntErrorKind::Empty));
    assert_eq!(parse_unsigned_range(&digits, 0, 1, 10, 100), Err(IntErrorKind::InvalidDigit));
    assert_eq!(parse_unsigned_range(&digits, 1, 3, 10, 11), Err(IntErrorKind::PosOverflow));
    assert_eq!(int_error_message(IntErrorKind::PosOverflow), "number too large to fit in target type");
}

fn settings(fps: u32, disable_flush: bool) -> StreamSettings {
    StreamSettings {
        resolution: "1920x1080".to_owned(),
        fps,
        max_bitrate_mbps: 50,
        codec: VideoCodec::H264,
        color_quality: ColorQuality::EightBit420,
        enable_cloud_gsync: false,
        native_transition_diagnostics: Some(NativeTransitionDiagnostics {
            force_queue_mode: None,
            disable_transition_flush_escalation: disable_flush,
        }),
    }
}

#[test]
fn liveness_record_tracks_startup_audio_and_counters() {
    let mut record = LivenessRecord::new();
    record.configure(&settings(240, true), 25_000);
    assert_eq!(record.requested_fps(), Some(240));
    assert!(!record.flush_escalation_enabled);
    record.record_audio_buffer(100);
    record.record_audio_buffer(200);
    assert_eq!(record.first_startup_audio_ms, 100);
    record.record_sink_buffer(300);
    record.record_audio_buffer(400);
    assert_eq!(record.first_startup_audio_ms, 100);
    assert_eq!(record.last_audio_ms, 400);
    record.record_encoded_buffer(310, u64::MAX);
    record.record_encoded_buffer(320, 2);
    assert_eq!(record.encoded_bytes_total, 1);
    record.record_decoded_buffer(330);
    assert_eq!(record.decoded_total, 1);
    assert!(record.log_first_encoded_once());
    assert!(!record.log_first_encoded_once());
    let sample = record.watchdog_sample(500, 2);
    assert_eq!(sample.last_sink_ms, 300);
    assert_eq!(sample.last_encoded_ms, 320);
    assert_eq!(sample.queue_depth, 2);
    assert_eq!(
        queue_depth_message(2, "transition partial flush"),
        "Adjusted native post-decode queue depth to 2 (transition partial flush)."
    );
}

#[test]
fn transition_telemetry_records_and_counts() {
    let mut telemetry = TransitionTelemetry::new();
    telemetry.configure(&settings(240, false));
    assert_eq!(telemetry.queue_mode, NativeQueueMode::Adaptive);
    assert!(telemetry.set_queue_depth(2));
    assert!(!telemetry.set_queue_depth(2));
    assert_eq!(telemetry.queue_depth_changes, 1);
    let snapshot = telemetry.record_transition(
        "decoder-caps-change",
        "decoder",
        1_500,
        Some("old".to_owned()),
        Some("new".to_owned()),
        Some("240/1".to_owned()),
        Some("120/1".to_owned()),
        None,
        None,
        Some(40),
        Some(240),
    );
    assert!(snapshot.high_fps_risk);
    assert_eq!(
        snapshot.summary,
        "decoder-caps-change on decoder: framerate 240/1 -> 120/1 while requestedFps=240 (high-fps transition risk)."
    );
    assert_eq!(telemetry.last_transition.as_ref().map(|t| t.at_ms), Some(1_500));
    let event = snapshot.to_event();
    assert_eq!(event.queue_mode, "adaptive");
    telemetry.increment_partial_flush_count();
    telemetry.increment_complete_flush_count();
    telemetry.record_present_pacing_change();
    assert_eq!(telemetry.partial_flush_count, 1);
    assert_eq!(telemetry.complete_flush_count, 1);
    assert_eq!(telemetry.present_pacing_changes, 1);
}
