//! The properties each element of a decode or sink chain is configured with for low latency.
//! Each setting is applied only where the element has a writable property of that name and
//! type; the caller does that.
use vstd::prelude::*;
use crate::telemetry::VIDEO_QUEUE_MAX_BUFFERS;
use crate::text::str_eq;
use crate::video_api::RtpVideoChainRole;

verus! {

/// The most compressed frames the pre-decode queue holds.
pub const VIDEO_COMPRESSED_QUEUE_MAX_BUFFERS: u32 = 6;

/// The most audio buffers a low-latency queue holds.
pub const AUDIO_QUEUE_MAX_BUFFERS: u32 = 2;

/// A property value.
#[derive(Debug, Clone)]
pub enum PropertyValue {
    Bool(bool),
    I32(i32),
    I64(i64),
    U32(u32),
    U64(u64),
    /// An enumeration value given by its nick, set from text.
    Nick(&'static str),
    /// Caps given as text, set when they parse.
    Caps(String),
}

/// The mathematical content of a property value.
pub enum ValueModel {
    Bool(bool),
    I32(i32),
    I64(i64),
    U32(u32),
    U64(u64),
    Nick(Seq<char>),
    Caps(Seq<char>),
}

impl View for PropertyValue {
    type V = ValueModel;

    open spec fn view(&self) -> ValueModel {
        match self {
            PropertyValue::Bool(b) => ValueModel::Bool(*b),
            PropertyValue::I32(v) => ValueModel::I32(*v),
            PropertyValue::I64(v) => ValueModel::I64(*v),
            PropertyValue::U32(v) => ValueModel::U32(*v),
            PropertyValue::U64(v) => ValueModel::U64(*v),
            PropertyValue::Nick(n) => ValueModel::Nick(n@),
            PropertyValue::Caps(c) => ValueModel::Caps(c@),
        }
    }
}

/// One property to set: its name and value.
#[derive(Debug, Clone)]
pub struct PropertySetting {
    pub name: &'static str,
    pub value: PropertyValue,
}

pub type SettingModel = (Seq<char>, ValueModel);

pub open spec fn settings_view(v: Seq<PropertySetting>) -> Seq<SettingModel> {
    v.map_values(|s: PropertySetting| (s.name@, s.value@))
}

fn push_setting(v: &mut Vec<PropertySetting>, name: &'static str, value: PropertyValue)
    ensures
        settings_view(final(v)@) == settings_view(old(v)@).push((name@, value@)),
{
    v.push(PropertySetting { name, value });
    assert(settings_view(final(v)@) =~= settings_view(old(v)@).push((name@, value@)));
}

/// A queue holding at most `max_buffers` buffers and no byte or time limit, dropping old
/// buffers when full if `leaky_downstream`, else never.
pub open spec fn spec_queue_settings(max_buffers: u32, leaky_downstream: bool) -> Seq<SettingModel> {
    seq![
        ("max-size-buffers"@, ValueModel::U32(max_buffers)),
        ("max-size-bytes"@, ValueModel::U32(0)),
        ("max-size-time"@, ValueModel::U64(0)),
        (
            "leaky"@,
            ValueModel::Nick(
                if leaky_downstream {
                    "downstream"@
                } else {
                    "no"@
                },
            ),
        ),
    ]
}

pub fn queue_settings(max_buffers: u32, leaky_downstream: bool) -> (r: Vec<PropertySetting>)
    ensures
        settings_view(r@) == spec_queue_settings(max_buffers, leaky_downstream),
{
    let mut v: Vec<PropertySetting> = Vec::new();
    push_setting(&mut v, "max-size-buffers", PropertyValue::U32(max_buffers));
    push_setting(&mut v, "max-size-bytes", PropertyValue::U32(0));
    push_setting(&mut v, "max-size-time", PropertyValue::U64(0));
    push_setting(
        &mut v,
        "leaky",
        PropertyValue::Nick(if leaky_downstream { "downstream" } else { "no" }),
    );
    assert(settings_view(v@) =~= spec_queue_settings(max_buffers, leaky_downstream));
    v
}

/// A low-latency queue: one video frame or two audio buffers, leaking downstream.
pub open spec fn spec_low_latency_queue(media_label: Seq<char>) -> Seq<SettingModel> {
    spec_queue_settings(
        if media_label == "video"@ {
            VIDEO_QUEUE_MAX_BUFFERS
        } else {
            AUDIO_QUEUE_MAX_BUFFERS
        },
        true,
    )
}

pub fn low_latency_queue_settings(media_label: &str) -> (r: Vec<PropertySetting>)
    ensures
        settings_view(r@) == spec_low_latency_queue(media_label@),
{
    let max_buffers = if str_eq(media_label, "video") {
        VIDEO_QUEUE_MAX_BUFFERS
    } else {
        AUDIO_QUEUE_MAX_BUFFERS
    };
    queue_settings(max_buffers, true)
}

/// A sink that renders at once: not clock-synchronised, no preroll wait, no QoS, no lateness
/// limit or delays, no kept sample, redrawing on update and keeping the aspect ratio.
pub open spec fn spec_low_latency_sink() -> Seq<SettingModel> {
    seq![
        ("sync"@, ValueModel::Bool(false)),
        ("async"@, ValueModel::Bool(false)),
        ("qos"@, ValueModel::Bool(false)),
        ("max-lateness"@, ValueModel::I64(-1i64)),
        ("processing-deadline"@, ValueModel::U64(0)),
        ("render-delay"@, ValueModel::U64(0)),
        ("throttle-time"@, ValueModel::U64(0)),
        ("enable-last-sample"@, ValueModel::Bool(false)),
        ("show-preroll-frame"@, ValueModel::Bool(false)),
        ("redraw-on-update"@, ValueModel::Bool(true)),
        ("force-aspect-ratio"@, ValueModel::Bool(true)),
    ]
}

pub fn low_latency_sink_settings() -> (r: Vec<PropertySetting>)
    ensures
        settings_view(r@) == spec_low_latency_sink(),
{
    let mut v: Vec<PropertySetting> = Vec::new();
    push_setting(&mut v, "sync", PropertyValue::Bool(false));
    push_setting(&mut v, "async", PropertyValue::Bool(false));
    push_setting(&mut v, "qos", PropertyValue::Bool(false));
    push_setting(&mut v, "max-lateness", PropertyValue::I64(-1));
    push_setting(&mut v, "processing-deadline", PropertyValue::U64(0));
    push_setting(&mut v, "render-delay", PropertyValue::U64(0));
    push_setting(&mut v, "throttle-time", PropertyValue::U64(0));
    push_setting(&mut v, "enable-last-sample", PropertyValue::Bool(false));
    push_setting(&mut v, "show-preroll-frame", PropertyValue::Bool(false));
    push_setting(&mut v, "redraw-on-update", PropertyValue::Bool(true));
    push_setting(&mut v, "force-aspect-ratio", PropertyValue::Bool(true));
    assert(settings_view(v@) =~= spec_low_latency_sink());
    v
}

pub open spec fn caps_setting(caps: Option<Seq<char>>) -> Seq<SettingModel> {
    match caps {
        Some(c) => seq![("caps"@, ValueModel::Caps(c))],
        None => Seq::empty(),
    }
}

/// The settings of a decode-chain element by its role: the depayloader asks for keyframes
/// without waiting for them; the parser passes headers on every keyframe; the pre-decode
/// queue holds compressed frames without leaking; the decoder requests sync points, drops
/// corrupted frames and ignores QoS; the rate setter and caps filter get their caps; the sink
/// renders at once, never through a direct swapchain, fullscreen as asked. The statistics
/// overlay is configured separately.
pub open spec fn spec_chain_element_settings(
    role: RtpVideoChainRole,
    caps: Option<Seq<char>>,
    d3d_fullscreen_sink: bool,
) -> Seq<SettingModel> {
    match role {
        RtpVideoChainRole::Depayloader => seq![
            ("request-keyframe"@, ValueModel::Bool(true)),
            ("wait-for-keyframe"@, ValueModel::Bool(false)),
        ],
        RtpVideoChainRole::Parser => seq![
            ("disable-passthrough"@, ValueModel::Bool(true)),
            ("config-interval"@, ValueModel::I32(-1i32)),
        ],
        RtpVideoChainRole::PreDecodeQueue => spec_queue_settings(
            VIDEO_COMPRESSED_QUEUE_MAX_BUFFERS,
            false,
        ),
        RtpVideoChainRole::Decoder => seq![
            ("automatic-request-sync-points"@, ValueModel::Bool(true)),
            ("discard-corrupted-frames"@, ValueModel::Bool(true)),
            ("min-force-key-unit-interval"@, ValueModel::U64(100_000_000)),
            ("qos"@, ValueModel::Bool(false)),
        ],
        RtpVideoChainRole::PostDecodeRateSetter => caps_setting(caps) + seq![
            ("join"@, ValueModel::Bool(true)),
            ("replace"@, ValueModel::Bool(false)),
            ("qos"@, ValueModel::Bool(false)),
        ],
        RtpVideoChainRole::PostDecodeCapsFilter => caps_setting(caps),
        RtpVideoChainRole::PostDecodeConverter => seq![("qos"@, ValueModel::Bool(false))],
        RtpVideoChainRole::StatsOverlay => Seq::empty(),
        RtpVideoChainRole::PostDecodeQueue => spec_low_latency_queue("video"@),
        RtpVideoChainRole::Sink => spec_low_latency_sink() + seq![
            ("direct-swapchain"@, ValueModel::Bool(false)),
            ("error-on-closed"@, ValueModel::Bool(false)),
            ("fullscreen"@, ValueModel::Bool(d3d_fullscreen_sink)),
            ("fullscreen-on-alt-enter"@, ValueModel::Bool(false)),
            ("fullscreen-toggle-mode"@, ValueModel::Nick("none"@)),
        ],
    }
}

fn push_caps(v: &mut Vec<PropertySetting>, caps: &Option<String>)
    ensures
        settings_view(final(v)@) == settings_view(old(v)@) + caps_setting(
            match caps {
                Some(c) => Some(c@),
                None => None,
            },
        ),
{
    match caps {
        Some(c) => push_setting(v, "caps", PropertyValue::Caps(c.clone())),
        None => {
            assert(settings_view(v@) + Seq::<SettingModel>::empty() =~= settings_view(v@));
        },
    }
}

/// The settings of one decode-chain element, as `spec_chain_element_settings` says.
pub fn chain_element_settings(
    role: RtpVideoChainRole,
    caps: &Option<String>,
    d3d_fullscreen_sink: bool,
) -> (r: Vec<PropertySetting>)
    ensures
        settings_view(r@) == spec_chain_element_settings(
            role,
            match caps {
                Some(c) => Some(c@),
                None => None,
            },
            d3d_fullscreen_sink,
        ),
{
    let ghost caps_v = match caps {
        Some(c) => Some(c@),
        None => None::<Seq<char>>,
    };
    let mut v: Vec<PropertySetting> = Vec::new();
    match role {
        RtpVideoChainRole::Depayloader => {
            push_setting(&mut v, "request-keyframe", PropertyValue::Bool(true));
            push_setting(&mut v, "wait-for-keyframe", PropertyValue::Bool(false));
        },
        RtpVideoChainRole::Parser => {
            push_setting(&mut v, "disable-passthrough", PropertyValue::Bool(true));
            push_setting(&mut v, "config-interval", PropertyValue::I32(-1));
        },
        RtpVideoChainRole::PreDecodeQueue => {
            v = queue_settings(VIDEO_COMPRESSED_QUEUE_MAX_BUFFERS, false);
        },
        RtpVideoChainRole::Decoder => {
            push_setting(&mut v, "automatic-request-sync-points", PropertyValue::Bool(true));
            push_setting(&mut v, "discard-corrupted-frames", PropertyValue::Bool(true));
            push_setting(&mut v, "min-force-key-unit-interval", PropertyValue::U64(100_000_000));
            push_setting(&mut v, "qos", PropertyValue::Bool(false));
        },
        RtpVideoChainRole::PostDecodeRateSetter => {
            push_caps(&mut v, caps);
            push_setting(&mut v, "join", PropertyValue::Bool(true));
            push_setting(&mut v, "replace", PropertyValue::Bool(false));
            push_setting(&mut v, "qos", PropertyValue::Bool(false));
        },
        RtpVideoChainRole::PostDecodeCapsFilter => {
            push_caps(&mut v, caps);
        },
        RtpVideoChainRole::PostDecodeConverter => {
            push_setting(&mut v, "qos", PropertyValue::Bool(false));
        },
        RtpVideoChainRole::StatsOverlay => {},
        RtpVideoChainRole::PostDecodeQueue => {
            v = low_latency_queue_settings("video");
        },
        RtpVideoChainRole::Sink => {
            v = low_latency_sink_settings();
            push_setting(&mut v, "direct-swapchain", PropertyValue::Bool(false));
            push_setting(&mut v, "error-on-closed", PropertyValue::Bool(false));
            push_setting(&mut v, "fullscreen", PropertyValue::Bool(d3d_fullscreen_sink));
            push_setting(&mut v, "fullscreen-on-alt-enter", PropertyValue::Bool(false));
            push_setting(&mut v, "fullscreen-toggle-mode", PropertyValue::Nick("none"));
        },
    }
    assert(settings_view(v@) =~= spec_chain_element_settings(role, caps_v, d3d_fullscreen_sink));
    v
}

} // verus!
