[package]
name = "opennow_streamer"
version = "0.1.0"
edition = "2021"
publish = false

[dependencies]
gstreamer = "=0.24.5"
gstreamer-sdp = "=0.24.5"
gstreamer-video = "=0.24.5"
gstreamer-webrtc = "=0.24.5"
