use opennow_streamer::caps_watch::{
    first_buffer_message, first_encoded_message, streaming_status_message, count_buffer, framerate_mismatch, framerate_mismatch_message, pad_rate_details,
    CapsTransitionTracker, MismatchWarning,
};
use opennow_streamer::element_config::{
    chain_element_settings, low_latency_queue_settings, low_latency_sink_settings,
    PropertyValue,
};
use opennow_streamer::liveness::{frames_pending_to_present, stats_memory_path};
use opennow_streamer::log_line::LogLevel;
use opennow_streamer::media_route::{
    audio_sink_factories, decodebin_fallback_message, decoded_linked_message,
    decoded_media_kind, describe_bus_message, element_setup, is_rtp_caps, non_rtp_pad_message,
    rtp_video_encoding, unsupported_media_message, video_sink_factories, BusMessage,
    DecodedMediaKind,
};
use opennow_streamer::pipeline_support::{
    describe_structure, local_candidate, promise_result, signal_number_to_u32, PromiseOutcome,
    RenderApplyPlan, RenderRouting, SignalNumber,
};
use opennow_streamer::video_api::RtpVideoChainRole;

#[test]
fn routes_pads_by_caps() {
    assert!(is_rtp_caps(Some("application/x-rtp")));
    assert!(!is_rtp_caps(Some("application/x-rtcp")));
    assert!(!is_rtp_caps(None));
    assert_eq!(decoded_media_kind(Some("video/x-raw")), DecodedMediaKind::Video);
    assert_eq!(decoded_media_kind(Some("audio/x-raw")), DecodedMediaKind::Audio);
    assert_eq!(decoded_media_kind(Some("text/plain")), DecodedMediaKind::Unknown);
    assert_eq!(decoded_media_kind(None), DecodedMediaKind::Unknown);
    assert_eq!(
        rtp_video_encoding(Some("application/x-rtp"), Some("video"), Some("h265")).as_deref(),
        Some("H265")
    );
    assert_eq!(rtp_video_encoding(Some("application/x-rtp"), Some("audio"), Some("OPUS")), None);
    assert_eq!(rtp_video_encoding(Some("video/x-raw"), Some("video"), Some("H264")), None);
    assert_eq!(rtp_video_encoding(Some("application/x-rtp"), Some("video"), None), None);
}

#[test]
fn sink_chains_by_platform() {
    assert_eq!(
        video_sink_factories(true, true, true),
        vec![("queue", None), ("dwritetextoverlay", None), ("d3d11videosink", Some(false))]
    );
    assert_eq!(
        video_sink_factories(true, false, false),
        vec![("queue", None), ("videoconvert", None), ("autovideosink", Some(false))]
    );
    assert_eq!(
        video_sink_factories(false, true, true),
        vec![
            ("queue", None),
            ("videoconvert", None),
            ("dwritetextoverlay", None),
            ("autovideosink", Some(false))
        ]
    );
    assert_eq!(audio_sink_factories().len(), 4);
    assert_eq!(audio_sink_factories()[3], ("autoaudiosink", Some(false)));
}

#[test]
fn element_setup_by_factory() {
    let queue = element_setup("queue", None, "audio");
    assert!(queue.low_latency_queue && !queue.low_latency_sink);
    let overlay = element_setup("dwritetextoverlay", None, "video");
    assert!(overlay.stats_overlay && overlay.register_overlay);
    let audio_overlay = element_setup("dwritetextoverlay", None, "audio");
    assert!(audio_overlay.stats_overlay && !audio_overlay.register_overlay);
    assert!(element_setup("autoaudiosink", None, "audio").low_latency_sink);
    assert!(element_setup("videoconvert", Some(false), "video").low_latency_sink);
    assert!(!element_setup("videoconvert", None, "video").low_latency_sink);
    assert!(!element_setup("snk", None, "video").low_latency_sink);
}

#[test]
fn media_route_messages() {
    assert_eq!(
        non_rtp_pad_message(Some("application/x-rtcp")),
        "Ignoring non-RTP WebRTC pad with caps Some(\"application/x-rtcp\")."
    );
    assert_eq!(non_rtp_pad_message(None), "Ignoring non-RTP WebRTC pad with caps None.");
    assert_eq!(
        unsupported_media_message(Some("text/x-\"raw\"")),
        "Unsupported decoded media caps Some(\"text/x-\\\"raw\\\"\"); routing to fallback sink."
    );
    assert_eq!(
        decoded_linked_message(DecodedMediaKind::Audio),
        "Linked decoded audio stream to native sink chain."
    );
    assert_eq!(
        decodebin_fallback_message("boom"),
        "boom; falling back to decodebin."
    );
}

#[test]
fn bus_messages_are_described() {
    let (log, transition) = describe_bus_message(&BusMessage::Error {
        source: Some("/pipeline/webrtcbin".to_owned()),
        error: "bad".to_owned(),
        debug: Some("details".to_owned()),
    });
    let log = log.unwrap();
    assert_eq!(log.level, LogLevel::Error);
    assert_eq!(
        log.message,
        "GStreamer bus error from /pipeline/webrtcbin: bad; debug=Some(\"details\")."
    );
    assert!(transition.is_none());
    let (log, _) = describe_bus_message(&BusMessage::Warning {
        source: None,
        error: "late".to_owned(),
        debug: None,
    });
    assert_eq!(log.unwrap().message, "GStreamer bus warning from unknown: late; debug=None.");
    let (log, _) = describe_bus_message(&BusMessage::Qos { source: None, structure: None });
    assert_eq!(log.unwrap().message, "GStreamer bus QoS from unknown: no structure.");
    let (log, transition) = describe_bus_message(&BusMessage::StateChanged {
        from_pipeline: true,
        old: "Paused".to_owned(),
        current: "Playing".to_owned(),
        pending: "VoidPending".to_owned(),
    });
    assert_eq!(
        log.unwrap().message,
        "GStreamer pipeline state changed: Paused -> Playing pending VoidPending."
    );
    assert_eq!(transition, Some(("Paused".to_owned(), "Playing".to_owned())));
    let (log, transition) = describe_bus_message(&BusMessage::StateChanged {
        from_pipeline: false,
        old: "Paused".to_owned(),
        current: "Playing".to_owned(),
        pending: "VoidPending".to_owned(),
    });
    assert!(log.is_none() && transition.is_none());
    let (log, _) = describe_bus_message(&BusMessage::Eos { source: Some("sink".to_owned()) });
    let log = log.unwrap();
    assert_eq!(log.level, LogLevel::Warn);
    assert_eq!(log.message, "GStreamer bus EOS from sink.");
    let (log, _) = describe_bus_message(&BusMessage::Latency { source: Some("q".to_owned()) });
    assert_eq!(log.unwrap().message, "GStreamer bus latency update from q.");
    assert!(describe_bus_message(&BusMessage::Other).0.is_none());
}

#[test]
fn caps_changes_are_reported_after_the_first_buffer() {
    let mut tracker = CapsTransitionTracker::new();
    let a = "video/x-raw, framerate=(fraction)120/1";
    let b = "video/x-raw(memory:D3D11Memory), framerate=(fraction)240/1";
    assert!(tracker.observe(a).is_none());
    assert!(tracker.observe(a).is_none());
    let change = tracker.observe(b).unwrap();
    assert_eq!(change.old_caps, a);
    assert_eq!(change.new_caps, b);
    assert_eq!(change.old_framerate.as_deref(), Some("120/1"));
    assert_eq!(change.new_framerate.as_deref(), Some("240/1"));
    assert_eq!(change.old_memory_mode, "system-memory");
    assert_eq!(change.new_memory_mode, "D3D11Memory");
    assert!(tracker.observe(b).is_none());
}

#[test]
fn framerate_mismatch_is_detected_and_warned_once() {
    let caps = "video/x-raw, framerate=(fraction)120/1";
    assert_eq!(framerate_mismatch(Some(240), caps).as_deref(), Some("120/1"));
    assert_eq!(framerate_mismatch(Some(120), caps), None);
    assert_eq!(framerate_mismatch(None, caps), None);
    assert_eq!(framerate_mismatch(Some(240), "video/x-raw"), None);
    assert_eq!(
        framerate_mismatch_message("120/1", 240),
        "Native video caps framerate 120/1 does not match requestedFps=240; this can destabilize high-FPS native playback scheduling and buffer pools."
    );
    let mut warning = MismatchWarning::new();
    assert!(warning.first_time());
    assert!(!warning.first_time());
}

#[test]
fn pad_rate_details_text() {
    assert_eq!(
        pad_rate_details("video/x-raw(memory:D3D12Memory), framerate=(fraction)240/1", Some(240)),
        "; capsFramerate=240/1; requestedFps=240; memoryMode=D3D12Memory; zeroCopy=true; zeroCopyD3D11=false; zeroCopyD3D12=true"
    );
    assert_eq!(
        pad_rate_details("unknown caps", None),
        "; capsFramerate=unknown; memoryMode=system-memory; zeroCopy=false; zeroCopyD3D11=false; zeroCopyD3D12=false"
    );
    assert_eq!(count_buffer(4), 5);
    assert_eq!(count_buffer(u32::MAX), u32::MAX);
}

#[test]
fn chain_element_property_plans() {
    let queue = low_latency_queue_settings("audio");
    assert_eq!(queue[0].name, "max-size-buffers");
    assert!(matches!(queue[0].value, PropertyValue::U32(2)));
    assert!(matches!(queue[3].value, PropertyValue::Nick("downstream")));
    let video_queue = low_latency_queue_settings("video");
    assert!(matches!(video_queue[0].value, PropertyValue::U32(1)));
    assert_eq!(low_latency_sink_settings().len(), 11);
    let pre = chain_element_settings(RtpVideoChainRole::PreDecodeQueue, &None, false);
    assert!(matches!(pre[0].value, PropertyValue::U32(6)));
    assert!(matches!(pre[3].value, PropertyValue::Nick("no")));
    let filter = chain_element_settings(
        RtpVideoChainRole::PostDecodeCapsFilter,
        &Some("video/x-raw(memory:D3D11Memory)".to_owned()),
        false,
    );
    assert_eq!(filter.len(), 1);
    assert!(matches!(&filter[0].value, PropertyValue::Caps(c) if c == "video/x-raw(memory:D3D11Memory)"));
    assert!(chain_element_settings(RtpVideoChainRole::PostDecodeCapsFilter, &None, false).is_empty());
    let sink = chain_element_settings(RtpVideoChainRole::Sink, &None, true);
    assert_eq!(sink.len(), 16);
    assert_eq!(sink[13].name, "fullscreen");
    assert!(matches!(sink[13].value, PropertyValue::Bool(true)));
    assert!(chain_element_settings(RtpVideoChainRole::StatsOverlay, &None, true).is_empty());
    let parser = chain_element_settings(RtpVideoChainRole::Parser, &None, false);
    assert!(matches!(parser[1].value, PropertyValue::I32(-1)));
}

#[test]
fn signal_numbers_convert_when_they_fit() {
    assert_eq!(signal_number_to_u32(SignalNumber::U32(7)), Some(7));
    assert_eq!(signal_number_to_u32(SignalNumber::I32(-1)), None);
    assert_eq!(signal_number_to_u32(SignalNumber::I32(3)), Some(3));
    assert_eq!(signal_number_to_u32(SignalNumber::U64(1 << 32)), None);
    assert_eq!(signal_number_to_u32(SignalNumber::I64(4_294_967_295)), Some(u32::MAX));
    assert_eq!(signal_number_to_u32(SignalNumber::Other), None);
}

#[test]
fn promise_outcomes_become_results() {
    assert_eq!(promise_result(&PromiseOutcome::Replied { error_reply: None }, "create-answer"), Ok(()));
    assert_eq!(
        promise_result(
            &PromiseOutcome::Replied { error_reply: Some("reply {error=oops}".to_owned()) },
            "set-remote-description"
        ),
        Err("GStreamer promise returned an error during set-remote-description: reply {error=oops}".to_owned())
    );
    assert_eq!(
        promise_result(&PromiseOutcome::Interrupted, "x"),
        Err("GStreamer promise interrupted during x.".to_owned())
    );
    assert_eq!(
        promise_result(&PromiseOutcome::Expired, "x"),
        Err("GStreamer promise expired during x.".to_owned())
    );
    assert_eq!(
        promise_result(&PromiseOutcome::Pending, "x"),
        Err("GStreamer promise still pending during x.".to_owned())
    );
    assert_eq!(
        promise_result(&PromiseOutcome::Other { debug: "Other(7)".to_owned() }, "x"),
        Err("GStreamer promise failed during x: Other(7)".to_owned())
    );
}

#[test]
fn structures_and_local_candidates() {
    assert_eq!(describe_structure("reply", &vec![]), "reply {}");
    assert_eq!(
        describe_structure(
            "reply",
            &vec![("a".to_owned(), "1".to_owned()), ("b".to_owned(), "x".to_owned())]
        ),
        "reply {a=1, b=x}"
    );
    assert!(local_candidate("   ", Some(1)).is_none());
    let candidate = local_candidate("candidate:1 1 udp", None).unwrap();
    assert_eq!(candidate.sdp_m_line_index, 0);
    assert_eq!(candidate.sdp_mid, "0");
    let candidate = local_candidate("candidate:2", Some(12)).unwrap();
    assert_eq!(candidate.sdp_mid, "12");
    assert_eq!(candidate.candidate, "candidate:2");
}

#[test]
fn render_routing_starts_guard_and_logs_once() {
    let mut routing = RenderRouting::new();
    assert_eq!(
        routing.plan_apply(false, true, true),
        RenderApplyPlan { start_guard: false, log_external: false, apply_surface: false }
    );
    assert_eq!(
        routing.plan_apply(true, true, true),
        RenderApplyPlan { start_guard: true, log_external: true, apply_surface: false }
    );
    assert_eq!(
        routing.plan_apply(true, true, true),
        RenderApplyPlan { start_guard: false, log_external: false, apply_surface: false }
    );
    routing.guard_stopped();
    assert_eq!(
        routing.plan_apply(true, true, false),
        RenderApplyPlan { start_guard: true, log_external: false, apply_surface: false }
    );
    assert_eq!(
        routing.plan_apply(true, false, true),
        RenderApplyPlan { start_guard: false, log_external: false, apply_surface: true }
    );
}

#[test]
fn first_buffer_and_streaming_messages() {
    assert_eq!(
        first_buffer_message("video", "video/x-raw(memory:D3D11Memory)"),
        "First decoded video buffer reached native sink; caps=video/x-raw(memory:D3D11Memory); memoryMode=D3D11Memory; zeroCopy=true; zeroCopyD3D11=true; zeroCopyD3D12=false."
    );
    assert_eq!(first_encoded_message(1200), "First encoded RTP video buffer arrived; size=1200 bytes.");
    assert!(streaming_status_message(true).contains("external"));
    assert!(streaming_status_message(false).contains("embedded"));
}

#[test]
fn stats_overlay_memory_path() {
    assert_eq!(stats_memory_path("D3D11Memory", true, "GStreamer D3D11"), "GStreamer D3D11 D3D11Memory zero-copy");
    assert_eq!(stats_memory_path("system-memory", false, ""), "system-memory");
    assert_eq!(frames_pending_to_present(10, 7), 3);
    assert_eq!(frames_pending_to_present(7, 10), 0);
}
