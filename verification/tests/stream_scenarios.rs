use opennow_streamer::caps::caps_framerate_summary;
use opennow_streamer::diagnostics::format_video_chain_selection;
use opennow_streamer::input_channel::parse_input_handshake_version;
use opennow_streamer::platform::{default_rtp_video_api_priority, TargetPlatform};
use opennow_streamer::present::{
    automatic_present_max_fps, effective_present_max_fps, PRESENT_LIMITER_AUTO_SENTINEL,
};
use opennow_streamer::stall::{VideoStallAction, VideoStallTracker};
use opennow_streamer::telemetry::{
    resolve_queue_mode, ColorQuality, NativeQueueMode, StreamSettings, VideoCodec,
};
use opennow_streamer::video_api::{rtp_video_chain_definition, RtpVideoApi, RtpVideoChainRole};

#[test]
fn parses_input_handshake_versions() {
    assert_eq!(
        parse_input_handshake_version(&[0x0e, 0x02, 0x03, 0x00]),
        Some(3)
    );
    assert_eq!(parse_input_handshake_version(&[0x0e, 0x02]), Some(2));
    assert_eq!(parse_input_handshake_version(&[0x0e, 0x03]), Some(0x030e));
    assert_eq!(parse_input_handshake_version(&[0x01, 0x02, 0x03]), None);
    assert_eq!(parse_input_handshake_version(&[0x0e]), None);
}

#[test]
fn maps_rtp_video_codecs_to_explicit_gpu_decode_chains() {
    let h265 =
        rtp_video_chain_definition("H265", RtpVideoApi::D3D11, false).expect("H265 D3D11 chain");
    assert_eq!(h265[0].factory, "rtph265depay");
    assert_eq!(h265[3].factory, "d3d11h265dec");
    assert_eq!(h265[4].factory, "dwritetextoverlay");
    assert_eq!(h265[6].factory, "d3d11videosink");
    assert!(!h265
        .iter()
        .any(|spec| spec.role == RtpVideoChainRole::PostDecodeCapsFilter));

    let h264 =
        rtp_video_chain_definition("h264", RtpVideoApi::D3D12, false).expect("H264 D3D12 chain");
    assert_eq!(h264[0].factory, "rtph264depay");
    assert_eq!(h264[3].factory, "d3d12h264dec");
    assert_eq!(h264[4].factory, "dwritetextoverlay");
    assert_eq!(h264[6].factory, "d3d12videosink");
    assert!(!h264
        .iter()
        .any(|spec| spec.role == RtpVideoChainRole::PostDecodeCapsFilter));

    let av1 =
        rtp_video_chain_definition("AV1", RtpVideoApi::D3D11, false).expect("AV1 D3D11 chain");
    assert_eq!(av1[0].factory, "rtpav1depay");
    assert_eq!(av1[3].factory, "d3d11av1dec");
    assert_eq!(av1[4].factory, "dwritetextoverlay");
    assert_eq!(av1[6].factory, "d3d11videosink");
}

#[test]
fn does_not_force_d3d_memory_caps_by_default() {
    let d3d11 =
        rtp_video_chain_definition("H265", RtpVideoApi::D3D11, false).expect("H265 D3D11 chain");
    let d3d12 =
        rtp_video_chain_definition("H264", RtpVideoApi::D3D12, false).expect("H264 D3D12 chain");

    assert!(!d3d11
        .iter()
        .any(|spec| spec.role == RtpVideoChainRole::PostDecodeCapsFilter));
    assert!(!d3d12
        .iter()
        .any(|spec| spec.role == RtpVideoChainRole::PostDecodeCapsFilter));
}

#[test]
fn maps_cross_platform_video_paths_to_expected_decoders() {
    let vt = rtp_video_chain_definition("H264", RtpVideoApi::VideoToolbox, false)
        .expect("VideoToolbox");
    assert_eq!(vt[3].factory, "vtdec_hw");
    assert!(vt.iter().any(|spec| spec.factory == "videoconvert"));
    assert_eq!(vt.last().map(|spec| spec.factory), Some("glimagesink"));
    assert!(!vt.iter().any(|spec| spec.factory == "capsfilter"));

    let vaapi =
        rtp_video_chain_definition("AV1", RtpVideoApi::Vaapi, false).expect("VAAPI AV1");
    assert_eq!(vaapi[3].factory, "vaav1dec");
    assert!(vaapi.iter().any(|spec| spec.factory == "videoconvert"));
    assert_eq!(vaapi.last().map(|spec| spec.factory), Some("glimagesink"));

    let v4l2 = rtp_video_chain_definition("H265", RtpVideoApi::V4L2, false).expect("V4L2 H265");
    assert_eq!(v4l2[3].factory, "v4l2slh265dec");
    assert!(v4l2.iter().any(|spec| spec.factory == "videoconvert"));

    let vulkan =
        rtp_video_chain_definition("H265", RtpVideoApi::Vulkan, false).expect("Vulkan H265");
    assert_eq!(vulkan[3].factory, "vulkanh265dec");
    assert!(vulkan
        .iter()
        .any(|spec| spec.factory == "vulkancolorconvert"));
    assert_eq!(vulkan.last().map(|spec| spec.factory), Some("vulkansink"));
    assert!(rtp_video_chain_definition("AV1", RtpVideoApi::Vulkan, false).is_none());

    let software =
        rtp_video_chain_definition("H264", RtpVideoApi::Software, false).expect("software H264");
    assert_eq!(software[3].factory, "avdec_h264");
    assert!(software.iter().any(|spec| spec.factory == "videoconvert"));
    assert_eq!(
        software.last().map(|spec| spec.factory),
        Some("autovideosink")
    );
}

#[test]
fn windows_default_video_api_prefers_d3d12_for_high_fps() {
    assert_eq!(
        default_rtp_video_api_priority(TargetPlatform::Windows, Some(240)),
        vec![
            RtpVideoApi::D3D12,
            RtpVideoApi::D3D11,
            RtpVideoApi::Software
        ]
    );
    assert_eq!(
        default_rtp_video_api_priority(TargetPlatform::Windows, Some(120)),
        vec![
            RtpVideoApi::D3D11,
            RtpVideoApi::D3D12,
            RtpVideoApi::Software
        ]
    );
}

#[test]
fn automatic_present_limiter_uses_display_refresh_below_requested_fps() {
    assert_eq!(automatic_present_max_fps(240, Some(165)), 165);
    assert_eq!(automatic_present_max_fps(240, Some(240)), 0);
    assert_eq!(automatic_present_max_fps(240, Some(1)), 0);
    assert_eq!(automatic_present_max_fps(240, None), 0);
}

#[test]
fn automatic_present_limiter_only_targets_d3d11() {
    assert_eq!(
        effective_present_max_fps(
            PRESENT_LIMITER_AUTO_SENTINEL,
            Some(240),
            RtpVideoApi::D3D11,
            Some(165)
        ),
        165
    );
    assert_eq!(
        effective_present_max_fps(
            PRESENT_LIMITER_AUTO_SENTINEL,
            Some(240),
            RtpVideoApi::D3D12,
            Some(165)
        ),
        0
    );
    assert_eq!(
        effective_present_max_fps(144, Some(240), RtpVideoApi::D3D12, Some(165)),
        144
    );
    assert_eq!(
        effective_present_max_fps(0, Some(240), RtpVideoApi::D3D11, Some(165)),
        0
    );
}

#[test]
fn formats_selected_video_chain_diagnostics() {
    let specs =
        rtp_video_chain_definition("H264", RtpVideoApi::Software, false).expect("software H264");
    let message = format_video_chain_selection("H264", RtpVideoApi::Software, &specs);

    assert!(message.contains("backend=software"));
    assert!(message.contains("decoder=avdec_h264"));
    assert!(message.contains("converter=videoconvert"));
    assert!(message.contains("memory=system-memory"));
}

#[test]
fn extracts_caps_framerate_summary() {
    let caps = "video/x-raw(memory:D3D11Memory), format=(string)NV12, framerate=(fraction)240/1; zeroCopyD3D11=true";
    assert_eq!(caps_framerate_summary(caps).as_deref(), Some("240/1"));
    assert_eq!(caps_framerate_summary("video/x-raw").as_deref(), None);
}

#[test]
fn video_stall_tracker_waits_until_threshold() {
    let mut tracker = VideoStallTracker::default();

    assert_eq!(tracker.evaluate(2_499, 0), VideoStallAction::Nothing);
}

#[test]
fn video_stall_tracker_progresses_recovery_attempts() {
    let mut tracker = VideoStallTracker::default();

    assert_eq!(
        tracker.evaluate(2_500, 0),
        VideoStallAction::RequestKeyframe {
            attempt: 1,
            stall_ms: 2_500,
        },
    );
    assert_eq!(tracker.evaluate(3_000, 0), VideoStallAction::Nothing);
    assert_eq!(
        tracker.evaluate(5_000, 0),
        VideoStallAction::RequestKeyframe {
            attempt: 2,
            stall_ms: 5_000,
        },
    );
    assert_eq!(
        tracker.evaluate(8_000, 0),
        VideoStallAction::Resync {
            attempt: 3,
            stall_ms: 8_000,
        },
    );
    assert_eq!(
        tracker.evaluate(12_000, 0),
        VideoStallAction::PartialFlush {
            attempt: 4,
            stall_ms: 12_000,
        },
    );
    assert_eq!(
        tracker.evaluate(16_000, 0),
        VideoStallAction::CompleteFlush {
            attempt: 5,
            stall_ms: 16_000,
        },
    );
    assert_eq!(
        tracker.evaluate(20_000, 0),
        VideoStallAction::Fatal {
            attempt: 6,
            stall_ms: 20_000,
        },
    );
}

#[test]
fn video_stall_tracker_resets_after_recovery() {
    let mut tracker = VideoStallTracker::default();

    assert_eq!(
        tracker.evaluate(2_500, 0),
        VideoStallAction::RequestKeyframe {
            attempt: 1,
            stall_ms: 2_500,
        },
    );
    assert_eq!(
        tracker.evaluate(2_600, 2_600),
        VideoStallAction::Recovered { stall_ms: 2_600 },
    );
    assert_eq!(tracker.evaluate(3_000, 2_600), VideoStallAction::Nothing);
    assert_eq!(
        tracker.evaluate(5_100, 2_600),
        VideoStallAction::RequestKeyframe {
            attempt: 1,
            stall_ms: 2_500,
        },
    );
}

#[test]
fn resolve_queue_mode_prefers_adaptive_for_240_fps_and_vrr_for_cloud_gsync() {
    let adaptive = resolve_queue_mode(&StreamSettings {
        resolution: "2560x1440".to_owned(),
        fps: 240,
        max_bitrate_mbps: 75,
        codec: VideoCodec::H265,
        color_quality: ColorQuality::TenBit420,
        enable_cloud_gsync: false,
        native_transition_diagnostics: None,
    });
    assert_eq!(adaptive, NativeQueueMode::Adaptive);

    let vrr = resolve_queue_mode(&StreamSettings {
        resolution: "2560x1440".to_owned(),
        fps: 120,
        max_bitrate_mbps: 75,
        codec: VideoCodec::H265,
        color_quality: ColorQuality::TenBit420,
        enable_cloud_gsync: true,
        native_transition_diagnostics: None,
    });
    assert_eq!(vrr, NativeQueueMode::Vrr);
}
