use opennow_streamer::log_line::LogLevel;
use opennow_streamer::session::{
    bitrate_limit_message, candidate_m_line, negotiated_codec_log, offer_fullscreen_log,
    offer_present_limiter_log, pipeline_ready_message,
};
use opennow_streamer::signaling::{
    check_remote_candidate, dedup_ice_streams, CredentialRestore, IceCredentials, RestoreStart,
    SignalingState,
};
use opennow_streamer::telemetry::VideoCodec;

#[test]
fn early_candidates_are_replayed_in_arrival_order() {
    let mut state: SignalingState<&str> = SignalingState::new();
    state.start();
    assert_eq!(state.add_remote_ice("a"), None);
    assert_eq!(state.add_remote_ice("b"), None);
    assert_eq!(state.add_remote_ice("c"), None);
    assert_eq!(state.remote_description_applied(), vec!["a", "b", "c"]);
    assert!(state.remote_description_applied().is_empty());
    assert_eq!(state.add_remote_ice("d"), Some("d"));
}

#[test]
fn candidates_wait_without_a_pipeline() {
    let mut state: SignalingState<u32> = SignalingState::new();
    assert_eq!(state.add_remote_ice(1), None);
    assert!(state.remote_description_applied().is_empty());
    assert_eq!(state.add_remote_ice(2), None);
    state.stop();
    state.start();
    assert!(state.remote_description_applied().is_empty());
}

#[test]
fn blank_remote_candidate_is_rejected() {
    assert_eq!(
        check_remote_candidate("  \t "),
        Err("Remote ICE candidate is empty.".to_owned())
    );
    assert_eq!(check_remote_candidate(""), Err("Remote ICE candidate is empty.".to_owned()));
    assert_eq!(check_remote_candidate("candidate:1 1 udp 1 1.2.3.4 5 typ host"), Ok(()));
}

#[test]
fn credential_restore_starts_by_state() {
    let mut restore = CredentialRestore::new();
    assert_eq!(restore.start(), Ok(RestoreStart::NoCredentials));
    restore.remember(IceCredentials { ufrag: String::new(), pwd: "pw".to_owned() });
    assert_eq!(
        restore.start(),
        Err("Cannot restore original remote ICE credentials: offer credentials are empty.".to_owned())
    );
    restore.remember(IceCredentials { ufrag: "2efecf37".to_owned(), pwd: "26b335b8".to_owned() });
    assert_eq!(restore.start(), Ok(RestoreStart::Proceed));
    assert_eq!(
        restore.credentials_for_agent(),
        Ok(("2efecf37".to_owned(), "26b335b8".to_owned()))
    );
}

#[test]
fn credentials_with_nul_are_refused() {
    let mut restore = CredentialRestore::new();
    restore.remember(IceCredentials { ufrag: "ab\0c".to_owned(), pwd: "pw".to_owned() });
    assert_eq!(
        restore.credentials_for_agent(),
        Err("Cannot restore original remote ICE credentials: ufrag contains NUL.".to_owned())
    );
    restore.remember(IceCredentials { ufrag: "abc".to_owned(), pwd: "p\0w".to_owned() });
    assert_eq!(
        restore.credentials_for_agent(),
        Err("Cannot restore original remote ICE credentials: pwd contains NUL.".to_owned())
    );
}

#[test]
fn restore_defers_without_streams() {
    let mut restore = CredentialRestore::new();
    restore.remember(IceCredentials { ufrag: "u".to_owned(), pwd: "p".to_owned() });
    let (restored, logs) = restore.finish("after remote description", &vec![], &vec![]);
    assert!(!restored);
    assert_eq!(logs.len(), 1);
    assert_eq!(logs[0].level, LogLevel::Warn);
    assert_eq!(
        logs[0].message,
        "GStreamer has not exposed actual NICE ICE streams after remote description; deferring GFN remote ICE credential restoration."
    );
    assert_eq!(restore.start(), Ok(RestoreStart::Proceed));
}

#[test]
fn restore_reports_rejections_and_success() {
    let mut restore = CredentialRestore::new();
    restore.remember(IceCredentials { ufrag: "u".to_owned(), pwd: "p".to_owned() });
    let (restored, logs) = restore.finish("after local description", &vec![1, 2], &vec![false, false]);
    assert!(!restored);
    assert_eq!(logs.len(), 3);
    assert_eq!(
        logs[0].message,
        "GStreamer ICE agent rejected original remote credentials for actual stream 1."
    );
    assert_eq!(
        logs[2].message,
        "GStreamer rejected original GFN remote ICE credentials on all actual streams after local description; ICE may fail."
    );
    let (restored, logs) = restore.finish("after local description", &vec![3, 4, 7], &vec![true, false, true]);
    assert!(restored);
    assert_eq!(logs.len(), 2);
    assert_eq!(logs[1].level, LogLevel::Info);
    assert_eq!(
        logs[1].message,
        "Restored original GFN remote ICE credentials on 2/3 actual GStreamer NICE ICE stream(s) after local description; streamIds=[3, 4, 7]."
    );
    assert_eq!(restore.start(), Ok(RestoreStart::AlreadyRestored));
}

#[test]
fn ice_streams_are_kept_once_in_first_order() {
    let streams = vec![(0x10usize, 1u32), (0x20, 2), (0x10, 1), (0x30, 3), (0x20, 2)];
    assert_eq!(dedup_ice_streams(&streams), vec![(0x10, 1), (0x20, 2), (0x30, 3)]);
    assert!(dedup_ice_streams(&vec![]).is_empty());
}

#[test]
fn session_messages() {
    assert_eq!(
        pipeline_ready_message("abc-123", "opennow-webrtcbin"),
        "GStreamer backend selected for session abc-123; opennow-webrtcbin pipeline is ready."
    );
    assert_eq!(
        offer_present_limiter_log(120, 240).as_deref(),
        Some("Native present limiter enabled at 120 fps for 240 fps stream; set OPENNOW_NATIVE_PRESENT_MAX_FPS=0 to disable.")
    );
    assert_eq!(offer_present_limiter_log(0, 240), None);
    assert_eq!(offer_present_limiter_log(u32::MAX, 240), None);
    assert!(offer_fullscreen_log(true).is_some());
    assert_eq!(offer_fullscreen_log(false), None);
    assert_eq!(
        bitrate_limit_message(50_000),
        "Updated native bitrate limit to 50000 Kbps. The active GFN server bitrate cap is negotiated in NVST SDP and will apply on the next native offer/reconnect."
    );
    assert_eq!(candidate_m_line(Some(2)), 2);
    assert_eq!(candidate_m_line(None), 0);
}

#[test]
fn negotiated_codec_is_confirmed_or_flagged() {
    let mismatch = negotiated_codec_log(Some(VideoCodec::H264), VideoCodec::Av1).unwrap();
    assert_eq!(mismatch.level, LogLevel::Warn);
    assert_eq!(
        mismatch.message,
        "Negotiated video codec is H264 while requested codec was AV1; building NVST SDP for the negotiated codec to avoid server/client codec mismatch."
    );
    let same = negotiated_codec_log(Some(VideoCodec::H265), VideoCodec::H265).unwrap();
    assert_eq!(same.level, LogLevel::Debug);
    assert_eq!(same.message, "Negotiated video codec confirmed as H265.");
    assert!(negotiated_codec_log(None, VideoCodec::H265).is_none());
}

#[test]
fn defers_gfn_uuid_ice_password_until_actual_ice_stream_exists() {
    let mut restore = CredentialRestore::new();
    restore.remember(IceCredentials {
        ufrag: "2efecf37".to_owned(),
        pwd: "26b335b8-6cb2-4c18-96d0-963e5e586c9a".to_owned(),
    });
    assert_eq!(restore.start(), Ok(RestoreStart::Proceed));
    assert_eq!(
        restore.credentials_for_agent(),
        Ok(("2efecf37".to_owned(), "26b335b8-6cb2-4c18-96d0-963e5e586c9a".to_owned()))
    );
    let (restored, logs) = restore.finish("without negotiated streams", &vec![], &vec![]);
    assert!(!restored);
    assert_eq!(
        logs[0].message,
        "GStreamer has not exposed actual NICE ICE streams without negotiated streams; deferring GFN remote ICE credential restoration."
    );
}

#[test]
fn remote_ice_credential_restore_after_remote_description_does_not_probe_fake_streams() {
    let mut restore = CredentialRestore::new();
    restore.remember(IceCredentials {
        ufrag: "2efecf37".to_owned(),
        pwd: "26b335b8-99a8-4ffa-b9aa-f38ddad1e2b4".to_owned(),
    });
    assert_eq!(restore.start(), Ok(RestoreStart::Proceed));
    assert!(restore.credentials_for_agent().is_ok());
    let (restored, logs) = restore.finish("after remote description", &vec![], &vec![]);
    assert!(!restored);
    assert_eq!(logs.len(), 1);
    assert_eq!(restore.start(), Ok(RestoreStart::Proceed));
}
