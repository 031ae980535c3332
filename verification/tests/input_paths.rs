use opennow_streamer::capture::CaptureState;
use opennow_streamer::gamepad::{
    apply_stick_deadzone, apply_trigger_deadzone, controller_connection_message,
    plan_gamepad_poll, uses_partially_reliable, NativeGamepadSnapshot, XInputGamepadSnapshot,
};
use opennow_streamer::input_channel::{
    channel_label_or_default, channels_created_message, check_channel_label,
    handshake_complete_message, heartbeat_sleep_ms, InputChannelKind, InputSession,
};
use opennow_streamer::window_policy::{
    pick_renderer_window, renderer_candidate_area, renderer_guard_step, renderer_placement,
    renderer_window_styles, route_window_message, WindowMessageRoute,
};

#[test]
fn handshake_readies_input_once_per_channel() {
    let mut session = InputSession::new();
    assert!(!session.is_ready());
    assert_eq!(session.on_handshake_message(&[0x01, 0x02]), None);
    let first = session.on_handshake_message(&[0x0e, 0x02, 0x03, 0x00]).unwrap();
    assert_eq!(first.protocol_version, 3);
    assert_eq!(first.encoder_version, 3);
    assert!(first.became_ready);
    let second = session.on_handshake_message(&[0x0e, 0x02, 0x03, 0x00]).unwrap();
    assert!(!second.became_ready);
    session.on_channel_closed(InputChannelKind::PartiallyReliable);
    assert!(session.is_ready());
    session.on_channel_closed(InputChannelKind::Reliable);
    assert!(!session.is_ready());
    let third = session.on_handshake_message(&[0x0e, 0x02]).unwrap();
    assert!(third.became_ready);
    assert_eq!(third.protocol_version, 2);
}

#[test]
fn large_handshake_version_saturates_encoder_version() {
    let mut session = InputSession::new();
    let outcome = session.on_handshake_message(&[0x0e, 0x03]).unwrap();
    assert_eq!(outcome.protocol_version, 0x030e);
    assert_eq!(outcome.encoder_version, 255);
}

#[test]
fn heartbeat_waits_in_short_slices() {
    assert_eq!(heartbeat_sleep_ms(0), Some(50));
    assert_eq!(heartbeat_sleep_ms(1_980), Some(20));
    assert_eq!(heartbeat_sleep_ms(2_000), None);
    assert_eq!(heartbeat_sleep_ms(5_000), None);
}

#[test]
fn input_channel_messages() {
    assert_eq!(channel_label_or_default(Some("input_channel_v1")), "input_channel_v1");
    assert_eq!(channel_label_or_default(None), "<unlabeled>");
    assert_eq!(check_channel_label("input_channel_v1", "input_channel_v1"), Ok(()));
    assert_eq!(
        check_channel_label("input_channel_v1", "other"),
        Err("GStreamer created data channel with unexpected label: expected input_channel_v1, got other.".to_owned())
    );
    assert_eq!(
        channels_created_message(300),
        "Created WebRTC input data channels (input_channel_v1, input_channel_partially_reliable maxPacketLifeTime=300ms)."
    );
    assert_eq!(
        handshake_complete_message("input_channel_v1", 3),
        "Input handshake complete on input_channel_v1 (protocol v3)."
    );
}

#[test]
fn gamepad_deadzones() {
    assert_eq!(apply_trigger_deadzone(30), 0);
    assert_eq!(apply_trigger_deadzone(31), 31);
    assert_eq!(apply_stick_deadzone(7849, 7849), 0);
    assert_eq!(apply_stick_deadzone(-7849, 7849), 0);
    assert_eq!(apply_stick_deadzone(7850, 7849), 7850);
    assert_eq!(apply_stick_deadzone(i16::MIN, 8689), i16::MIN);
    let snapshot = XInputGamepadSnapshot::from_raw(0x1000, 10, 200, 100, -9000, 8689, -8690);
    assert_eq!(
        snapshot,
        XInputGamepadSnapshot {
            buttons: 0x1000,
            left_trigger: 0,
            right_trigger: 200,
            left_stick_x: 0,
            left_stick_y: -9000,
            right_stick_x: 0,
            right_stick_y: -8690,
        }
    );
}

#[test]
fn gamepad_poll_sends_changes_and_keepalives() {
    let pad = XInputGamepadSnapshot::from_raw(1, 0, 0, 0, 0, 0, 0);
    let mut previous = vec![NativeGamepadSnapshot::disconnected(); 4];
    let polled = vec![Some(pad), None, None, None];
    let (bitmap, sends) = plan_gamepad_poll(&mut previous, &polled, &vec![false; 4]);
    assert_eq!(bitmap, 0b0001);
    assert_eq!(sends.len(), 1);
    assert_eq!(sends[0].controller_id, 0);
    assert_eq!(sends[0].connection_change, Some(true));
    assert_eq!(previous[0], NativeGamepadSnapshot::from_xinput(pad));

    let (_, quiet) = plan_gamepad_poll(&mut previous, &polled, &vec![false; 4]);
    assert!(quiet.is_empty());
    let (_, keepalive) = plan_gamepad_poll(&mut previous, &polled, &vec![true; 4]);
    assert_eq!(keepalive.len(), 1);
    assert_eq!(keepalive[0].connection_change, None);

    let unplugged = vec![None, None, None, Some(pad)];
    let (bitmap, sends) = plan_gamepad_poll(&mut previous, &unplugged, &vec![false; 4]);
    assert_eq!(bitmap, 0b1000);
    assert_eq!(sends.len(), 2);
    assert_eq!(sends[0].controller_id, 0);
    assert_eq!(sends[0].connection_change, Some(false));
    assert_eq!(sends[0].snapshot, NativeGamepadSnapshot::disconnected());
    assert_eq!(sends[1].controller_id, 3);
}

#[test]
fn gamepad_channel_and_messages() {
    assert!(uses_partially_reliable(0b0101, 0));
    assert!(!uses_partially_reliable(0b0101, 1));
    assert!(uses_partially_reliable(0b0101, 2));
    assert_eq!(controller_connection_message(2, true), "Native XInput controller 2 connected.");
    assert_eq!(controller_connection_message(0, false), "Native XInput controller 0 disconnected.");
}

#[test]
fn capture_hold_fires_only_for_latest_hold() {
    let mut capture = CaptureState::new();
    assert_eq!(capture.start_escape_hold(), None);
    capture.begin(42);
    assert!(capture.is_captured(42));
    let (window, token) = capture.start_escape_hold().unwrap();
    assert_eq!(window, 42);
    assert!(capture.hold_expired(42, token));
    let (_, newer) = capture.start_escape_hold().unwrap();
    assert!(!capture.hold_expired(42, token));
    assert!(capture.hold_expired(42, newer));
    capture.cancel_escape_hold();
    assert!(!capture.hold_expired(42, newer));
    assert!(!capture.release(7));
    assert!(capture.release(42));
    assert_eq!(capture.captured_window(), None);
}

#[test]
fn renderer_window_candidates() {
    let rect = Some((0, 0, 1920, 1080));
    assert_eq!(renderer_candidate_area(true, true, false, false, 0, rect), Some(1920 * 1080));
    assert_eq!(renderer_candidate_area(false, true, false, false, 0, rect), None);
    assert_eq!(renderer_candidate_area(true, true, true, false, 0, rect), None);
    assert_eq!(renderer_candidate_area(true, true, false, true, 0, rect), None);
    assert_eq!(renderer_candidate_area(true, true, false, false, 0x80, rect), None);
    assert_eq!(renderer_candidate_area(true, true, false, false, 0x0800_0000, rect), None);
    assert_eq!(renderer_candidate_area(true, true, false, false, 0, Some((0, 0, 319, 600))), None);
    assert_eq!(renderer_candidate_area(true, true, false, false, 0, None), None);
    assert_eq!(pick_renderer_window(&vec![]), None);
    assert_eq!(pick_renderer_window(&vec![(1, 100), (2, 300), (3, 300), (4, 200)]), Some(2));
}

#[test]
fn renderer_window_styles_and_placement() {
    let (ex, style) = renderer_window_styles(0x0800_0020 | 0x8, 0x00CF_0000 | 0x1);
    assert_eq!(ex, 0x8);
    assert_eq!(style, 0x1);
    assert_eq!(renderer_placement((-1920, 0, 0, 1080)), (-1920, 0, 1920, 1080));
    assert_eq!(renderer_placement((10, 10, 10, 11)), (10, 10, 2, 2));
    assert_eq!(renderer_guard_step(false, false), (false, false, 100));
    assert_eq!(renderer_guard_step(false, true), (true, true, 500));
    assert_eq!(renderer_guard_step(true, true), (false, true, 500));
}

#[test]
fn renderer_window_message_routes() {
    assert_eq!(route_window_message(0x0084, 0, false), WindowMessageRoute::HitTestClient);
    assert_eq!(route_window_message(0x0021, 0, false), WindowMessageRoute::ActivateWithCapture);
    assert_eq!(route_window_message(0x0020, 0, true), WindowMessageRoute::HideCursor);
    assert_eq!(
        route_window_message(0x0020, 0, false),
        WindowMessageRoute::PassOn { release_capture: false, capture_click: None }
    );
    assert_eq!(route_window_message(0x00FF, 0, false), WindowMessageRoute::RawInput);
    assert_eq!(
        route_window_message(0x0100, 0x1B, false),
        WindowMessageRoute::Escape { begin_capture: true }
    );
    assert_eq!(
        route_window_message(0x0008, 0, true),
        WindowMessageRoute::PassOn { release_capture: true, capture_click: None }
    );
    assert_eq!(
        route_window_message(0x0006, 0x10000, true),
        WindowMessageRoute::PassOn { release_capture: true, capture_click: None }
    );
    assert_eq!(
        route_window_message(0x0201, 0, false),
        WindowMessageRoute::PassOn { release_capture: false, capture_click: Some(1) }
    );
    assert_eq!(
        route_window_message(0x0201, 0, true),
        WindowMessageRoute::PassOn { release_capture: false, capture_click: None }
    );
}
