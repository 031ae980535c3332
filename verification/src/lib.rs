//! Decision logic of the OpenNOW native GStreamer streamer: video stall recovery,
//! decode-chain selection, caps inspection, input coalescing and the signalling state.
pub mod stall;
pub mod text;
pub mod caps;
pub mod video_api;
pub mod platform;
pub mod chain_select;
pub mod capabilities;
pub mod window_input;
pub mod keyboard;
pub mod input_channel;
pub mod telemetry;
pub mod numbers;
pub mod present;
pub mod render_surface;
pub mod watchdog;
pub mod diagnostics;
pub mod log_line;
pub mod signaling;
pub mod gamepad;
pub mod media_route;
pub mod caps_watch;
pub mod window_policy;
pub mod liveness;
pub mod element_config;
pub mod pipeline_support;
pub mod session;
pub mod capture;
