# opennow_streamer

The decision logic of the OpenNOW native GStreamer streamer, verified with Verus.

`src/` is the library. It decides how video stalls are recovered (`stall`, `watchdog`),
which decode chain a stream uses and how its elements are configured (`video_api`,
`platform`, `chain_select`, `element_config`, `diagnostics`, `capabilities`), how caps
changes and framerate mismatches are recognised (`caps`, `caps_watch`, `telemetry`,
`liveness`), how incoming pads are routed and bus messages reported (`media_route`,
`pipeline_support`), how the signalling session holds back remote ICE candidates and
restores ICE credentials (`signaling`, `session`), and how window, keyboard, mouse and
controller input is captured, batched and sent (`window_input`, `keyboard`, `capture`,
`window_policy`, `gamepad`, `input_channel`). Text handling (`text`, `numbers`) and log
lines (`log_line`) support them. Every public function carries a contract; the laws that
span several calls are public proof functions named `law_*`.

`app/` is the GStreamer and Win32 glue: it builds the pipeline, installs the probes and
threads, and performs what the library decides. `tests/` exercises the library on concrete
values.
