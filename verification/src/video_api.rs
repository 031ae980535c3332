//! The native video decode backends and the element chain each one builds for an RTP codec.
use vstd::prelude::*;
use crate::text::{ascii_upper, ascii_upper_char, ascii_upper_exec, chars_of, eq_lit};

verus! {

/// A native video decode/present backend.
#[derive(Debug, Clone, Copy, PartialEq, Eq, Structural)]
pub enum RtpVideoApi {
    D3D11,
    D3D12,
    VideoToolbox,
    Vaapi,
    V4L2,
    Vulkan,
    Software,
}

/// The video codecs the decode chains know, whatever name the RTP caps use for them.
#[derive(Debug, Clone, Copy, PartialEq, Eq, Structural)]
pub enum VideoCodecKind {
    H264,
    H265,
    Av1,
}

/// What role an element plays in an RTP video decode chain.
#[derive(Debug, Clone, Copy, PartialEq, Eq, Structural)]
pub enum RtpVideoChainRole {
    Depayloader,
    Parser,
    PreDecodeQueue,
    Decoder,
    PostDecodeRateSetter,
    PostDecodeConverter,
    PostDecodeCapsFilter,
    StatsOverlay,
    PostDecodeQueue,
    Sink,
}

/// The codec an (upper-case) RTP encoding name stands for.
pub open spec fn codec_kind(codec: Seq<char>) -> Option<VideoCodecKind> {
    if codec == "H265"@ || codec == "HEVC"@ {
        Some(VideoCodecKind::H265)
    } else if codec == "H264"@ {
        Some(VideoCodecKind::H264)
    } else if codec == "AV1"@ {
        Some(VideoCodecKind::Av1)
    } else {
        None
    }
}

/// Classifies an RTP encoding name, which must already be upper case to match.
pub fn classify_codec(codec: &Vec<char>) -> (r: Option<VideoCodecKind>)
    ensures
        r == codec_kind(codec@),
{
    if eq_lit(codec, "H265") || eq_lit(codec, "HEVC") {
        Some(VideoCodecKind::H265)
    } else if eq_lit(codec, "H264") {
        Some(VideoCodecKind::H264)
    } else if eq_lit(codec, "AV1") {
        Some(VideoCodecKind::Av1)
    } else {
        None
    }
}

pub open spec fn spec_label(api: RtpVideoApi) -> Seq<char> {
    match api {
        RtpVideoApi::D3D11 => "D3D11"@,
        RtpVideoApi::D3D12 => "D3D12"@,
        RtpVideoApi::VideoToolbox => "VideoToolbox"@,
        RtpVideoApi::Vaapi => "VAAPI"@,
        RtpVideoApi::V4L2 => "V4L2"@,
        RtpVideoApi::Vulkan => "Vulkan"@,
        RtpVideoApi::Software => "software"@,
    }
}

pub open spec fn spec_capability_id(api: RtpVideoApi) -> Seq<char> {
    match api {
        RtpVideoApi::D3D11 => "d3d11"@,
        RtpVideoApi::D3D12 => "d3d12"@,
        RtpVideoApi::VideoToolbox => "videotoolbox"@,
        RtpVideoApi::Vaapi => "vaapi"@,
        RtpVideoApi::V4L2 => "v4l2"@,
        RtpVideoApi::Vulkan => "vulkan"@,
        RtpVideoApi::Software => "software"@,
    }
}

pub open spec fn spec_platform(api: RtpVideoApi) -> Seq<char> {
    match api {
        RtpVideoApi::D3D11 | RtpVideoApi::D3D12 => "windows"@,
        RtpVideoApi::VideoToolbox => "macos"@,
        RtpVideoApi::Vaapi | RtpVideoApi::V4L2 | RtpVideoApi::Vulkan => "linux"@,
        RtpVideoApi::Software => "cross-platform"@,
    }
}

/// The GPU memory caps a backend forces after decoding, if any. Only Vulkan always forces
/// them; the other GPU paths do so only when zero-copy was asked for.
pub open spec fn spec_memory_caps(api: RtpVideoApi, zero_copy: bool) -> Option<Seq<char>> {
    match api {
        RtpVideoApi::D3D11 => if zero_copy {
            Some("video/x-raw(memory:D3D11Memory)"@)
        } else {
            None
        },
        RtpVideoApi::D3D12 => if zero_copy {
            Some("video/x-raw(memory:D3D12Memory)"@)
        } else {
            None
        },
        RtpVideoApi::VideoToolbox => if zero_copy {
            Some("video/x-raw(memory:GLMemory)"@)
        } else {
            None
        },
        RtpVideoApi::Vaapi => if zero_copy {
            Some("video/x-raw(memory:VAMemory)"@)
        } else {
            None
        },
        RtpVideoApi::Vulkan => Some("video/x-raw(memory:VulkanImage)"@),
        _ => None,
    }
}

pub open spec fn spec_converter(api: RtpVideoApi, zero_copy: bool) -> Option<Seq<char>> {
    match api {
        RtpVideoApi::D3D11 | RtpVideoApi::D3D12 => None,
        RtpVideoApi::Vulkan => Some("vulkancolorconvert"@),
        RtpVideoApi::VideoToolbox | RtpVideoApi::Vaapi => if zero_copy {
            None
        } else {
            Some("videoconvert"@)
        },
        RtpVideoApi::V4L2 | RtpVideoApi::Software => Some("videoconvert"@),
    }
}

pub open spec fn spec_overlay(api: RtpVideoApi) -> Option<Seq<char>> {
    match api {
        RtpVideoApi::D3D11 | RtpVideoApi::D3D12 => Some("dwritetextoverlay"@),
        _ => None,
    }
}

pub open spec fn spec_sink(api: RtpVideoApi) -> Seq<char> {
    match api {
        RtpVideoApi::D3D11 => "d3d11videosink"@,
        RtpVideoApi::D3D12 => "d3d12videosink"@,
        RtpVideoApi::VideoToolbox => "glimagesink"@,
        RtpVideoApi::Vaapi => "glimagesink"@,
        RtpVideoApi::V4L2 => "glimagesink"@,
        RtpVideoApi::Vulkan => "vulkansink"@,
        RtpVideoApi::Software => "autovideosink"@,
    }
}

pub open spec fn spec_decoder(api: RtpVideoApi, codec: Option<VideoCodecKind>) -> Option<Seq<char>> {
    match (api, codec) {
        (RtpVideoApi::D3D11, Some(VideoCodecKind::H265)) => Some("d3d11h265dec"@),
        (RtpVideoApi::D3D11, Some(VideoCodecKind::H264)) => Some("d3d11h264dec"@),
        (RtpVideoApi::D3D11, Some(VideoCodecKind::Av1)) => Some("d3d11av1dec"@),
        (RtpVideoApi::D3D12, Some(VideoCodecKind::H265)) => Some("d3d12h265dec"@),
        (RtpVideoApi::D3D12, Some(VideoCodecKind::H264)) => Some("d3d12h264dec"@),
        (RtpVideoApi::D3D12, Some(VideoCodecKind::Av1)) => Some("d3d12av1dec"@),
        (RtpVideoApi::VideoToolbox, Some(VideoCodecKind::H265)) => Some("vtdec_hw"@),
        (RtpVideoApi::VideoToolbox, Some(VideoCodecKind::H264)) => Some("vtdec_hw"@),
        (RtpVideoApi::Vaapi, Some(VideoCodecKind::H265)) => Some("vah265dec"@),
        (RtpVideoApi::Vaapi, Some(VideoCodecKind::H264)) => Some("vah264dec"@),
        (RtpVideoApi::Vaapi, Some(VideoCodecKind::Av1)) => Some("vaav1dec"@),
        (RtpVideoApi::V4L2, Some(VideoCodecKind::H265)) => Some("v4l2slh265dec"@),
        (RtpVideoApi::V4L2, Some(VideoCodecKind::H264)) => Some("v4l2slh264dec"@),
        (RtpVideoApi::Vulkan, Some(VideoCodecKind::H265)) => Some("vulkanh265dec"@),
        (RtpVideoApi::Vulkan, Some(VideoCodecKind::H264)) => Some("vulkanh264dec"@),
        (RtpVideoApi::Software, Some(VideoCodecKind::H265)) => Some("avdec_h265"@),
        (RtpVideoApi::Software, Some(VideoCodecKind::H264)) => Some("avdec_h264"@),
        (RtpVideoApi::Software, Some(VideoCodecKind::Av1)) => Some("avdec_av1"@),
        _ => None,
    }
}

pub open spec fn spec_fallback_decoders(api: RtpVideoApi, codec: Option<VideoCodecKind>) -> Seq<
    Seq<char>,
> {
    match (api, codec) {
        (RtpVideoApi::Vaapi, Some(VideoCodecKind::H265)) => seq!["vaapih265dec"@],
        (RtpVideoApi::Vaapi, Some(VideoCodecKind::H264)) => seq!["vaapih264dec"@],
        (RtpVideoApi::Vaapi, Some(VideoCodecKind::Av1)) => seq!["vaapiav1dec"@],
        (RtpVideoApi::V4L2, Some(VideoCodecKind::H265)) => seq!["v4l2h265dec"@],
        (RtpVideoApi::V4L2, Some(VideoCodecKind::H264)) => seq!["v4l2h264dec"@],
        (RtpVideoApi::VideoToolbox, Some(VideoCodecKind::H265)) => seq!["vtdec"@],
        (RtpVideoApi::VideoToolbox, Some(VideoCodecKind::H264)) => seq!["vtdec"@],
        _ => seq![],
    }
}

pub open spec fn spec_sink_fallbacks(api: RtpVideoApi) -> Seq<Seq<char>> {
    match api {
        RtpVideoApi::VideoToolbox => seq!["osxvideosink"@, "autovideosink"@],
        RtpVideoApi::Vaapi | RtpVideoApi::V4L2 => seq![
            "waylandsink"@,
            "ximagesink"@,
            "xvimagesink"@,
            "autovideosink"@,
        ],
        RtpVideoApi::Software => seq!["glimagesink"@, "waylandsink"@, "ximagesink"@, "xvimagesink"@],
        _ => seq![],
    }
}

pub open spec fn spec_zero_copy_modes(api: RtpVideoApi) -> Seq<Seq<char>> {
    match api {
        RtpVideoApi::D3D11 => seq!["D3D11Memory"@],
        RtpVideoApi::D3D12 => seq!["D3D12Memory"@],
        RtpVideoApi::VideoToolbox => seq!["GLMemory"@],
        RtpVideoApi::Vaapi => seq!["VAMemory"@],
        RtpVideoApi::Vulkan => seq!["VulkanImage"@],
        RtpVideoApi::V4L2 | RtpVideoApi::Software => seq![],
    }
}

/// The views of a list of texts.
pub open spec fn views(v: Seq<&'static str>) -> Seq<Seq<char>> {
    v.map_values(|s: &'static str| s@)
}

impl RtpVideoApi {
    /// The name shown in logs and diagnostics.
    pub fn label(self) -> (r: &'static str)
        ensures
            r@ == spec_label(self),
    {
        match self {
            Self::D3D11 => "D3D11",
            Self::D3D12 => "D3D12",
            Self::VideoToolbox => "VideoToolbox",
            Self::Vaapi => "VAAPI",
            Self::V4L2 => "V4L2",
            Self::Vulkan => "Vulkan",
            Self::Software => "software",
        }
    }

    /// The identifier used in the capability report.
    pub fn capability_id(self) -> (r: &'static str)
        ensures
            r@ == spec_capability_id(self),
    {
        match self {
            Self::D3D11 => "d3d11",
            Self::D3D12 => "d3d12",
            Self::VideoToolbox => "videotoolbox",
            Self::Vaapi => "vaapi",
            Self::V4L2 => "v4l2",
            Self::Vulkan => "vulkan",
            Self::Software => "software",
        }
    }

    /// The platform the backend runs on.
    pub fn platform(self) -> (r: &'static str)
        ensures
            r@ == spec_platform(self),
    {
        match self {
            Self::D3D11 | Self::D3D12 => "windows",
            Self::VideoToolbox => "macos",
            Self::Vaapi | Self::V4L2 | Self::Vulkan => "linux",
            Self::Software => "cross-platform",
        }
    }

    /// The caps forcing GPU memory after the decoder, if the backend uses them.
    pub fn memory_caps(self, zero_copy: bool) -> (r: Option<&'static str>)
        ensures
            r matches Some(s) ==> spec_memory_caps(self, zero_copy) == Some(s@),
            r is None ==> spec_memory_caps(self, zero_copy) is None,
    {
        match self {
            Self::D3D11 => if zero_copy {
                Some("video/x-raw(memory:D3D11Memory)")
            } else {
                None
            },
            Self::D3D12 => if zero_copy {
                Some("video/x-raw(memory:D3D12Memory)")
            } else {
                None
            },
            Self::VideoToolbox => if zero_copy {
                Some("video/x-raw(memory:GLMemory)")
            } else {
                None
            },
            Self::Vaapi => if zero_copy {
                Some("video/x-raw(memory:VAMemory)")
            } else {
                None
            },
            Self::Vulkan => Some("video/x-raw(memory:VulkanImage)"),
            _ => None,
        }
    }

    /// The raw-video converter placed after the decoder, if any.
    pub fn post_decode_converter_factory(self, zero_copy: bool) -> (r: Option<&'static str>)
        ensures
            r matches Some(s) ==> spec_converter(self, zero_copy) == Some(s@),
            r is None ==> spec_converter(self, zero_copy) is None,
    {
        match self {
            Self::D3D11 | Self::D3D12 => None,
            Self::Vulkan => Some("vulkancolorconvert"),
            Self::VideoToolbox | Self::Vaapi => if zero_copy {
                None
            } else {
                Some("videoconvert")
            },
            Self::V4L2 | Self::Software => Some("videoconvert"),
        }
    }

    /// The statistics overlay element, on the backends that have one.
    pub fn stats_overlay_factory(self) -> (r: Option<&'static str>)
        ensures
            r matches Some(s) ==> spec_overlay(self) == Some(s@),
            r is None ==> spec_overlay(self) is None,
    {
        match self {
            Self::D3D11 | Self::D3D12 => Some("dwritetextoverlay"),
            _ => None,
        }
    }

    /// The preferred video sink.
    pub fn sink_factory(self) -> (r: &'static str)
        ensures
            r@ == spec_sink(self),
    {
        match self {
            Self::D3D11 => "d3d11videosink",
            Self::D3D12 => "d3d12videosink",
            Self::VideoToolbox => "glimagesink",
            Self::Vaapi => "glimagesink",
            Self::V4L2 => "glimagesink",
            Self::Vulkan => "vulkansink",
            Self::Software => "autovideosink",
        }
    }

    /// The preferred decoder for a codec, if the backend decodes it.
    pub fn decoder_for(self, codec: Option<VideoCodecKind>) -> (r: Option<&'static str>)
        ensures
            r matches Some(s) ==> spec_decoder(self, codec) == Some(s@),
            r is None ==> spec_decoder(self, codec) is None,
    {
        match (self, codec) {
            (Self::D3D11, Some(VideoCodecKind::H265)) => Some("d3d11h265dec"),
            (Self::D3D11, Some(VideoCodecKind::H264)) => Some("d3d11h264dec"),
            (Self::D3D11, Some(VideoCodecKind::Av1)) => Some("d3d11av1dec"),
            (Self::D3D12, Some(VideoCodecKind::H265)) => Some("d3d12h265dec"),
            (Self::D3D12, Some(VideoCodecKind::H264)) => Some("d3d12h264dec"),
            (Self::D3D12, Some(VideoCodecKind::Av1)) => Some("d3d12av1dec"),
            (Self::VideoToolbox, Some(VideoCodecKind::H265)) => Some("vtdec_hw"),
            (Self::VideoToolbox, Some(VideoCodecKind::H264)) => Some("vtdec_hw"),
            (Self::Vaapi, Some(VideoCodecKind::H265)) => Some("vah265dec"),
            (Self::Vaapi, Some(VideoCodecKind::H264)) => Some("vah264dec"),
            (Self::Vaapi, Some(VideoCodecKind::Av1)) => Some("vaav1dec"),
            (Self::V4L2, Some(VideoCodecKind::H265)) => Some("v4l2slh265dec"),
            (Self::V4L2, Some(VideoCodecKind::H264)) => Some("v4l2slh264dec"),
            (Self::Vulkan, Some(VideoCodecKind::H265)) => Some("vulkanh265dec"),
            (Self::Vulkan, Some(VideoCodecKind::H264)) => Some("vulkanh264dec"),
            (Self::Software, Some(VideoCodecKind::H265)) => Some("avdec_h265"),
            (Self::Software, Some(VideoCodecKind::H264)) => Some("avdec_h264"),
            (Self::Software, Some(VideoCodecKind::Av1)) => Some("avdec_av1"),
            _ => None,
        }
    }

    /// The preferred decoder for the RTP encoding name `codec` (matched exactly, upper case).
    pub fn decoder_factory(self, codec: &str) -> (r: Option<&'static str>)
        ensures
            r matches Some(s) ==> spec_decoder(self, codec_kind(codec@)) == Some(s@),
            r is None ==> spec_decoder(self, codec_kind(codec@)) is None,
    {
        let c = chars_of(codec);
        self.decoder_for(classify_codec(&c))
    }

    /// Older decoder elements tried after the preferred one.
    pub fn fallback_decoders_for(self, codec: Option<VideoCodecKind>) -> (r: Vec<&'static str>)
        ensures
            views(r@) == spec_fallback_decoders(self, codec),
    {
        let mut r: Vec<&'static str> = Vec::new();
        match (self, codec) {
            (Self::Vaapi, Some(VideoCodecKind::H265)) => r.push("vaapih265dec"),
            (Self::Vaapi, Some(VideoCodecKind::H264)) => r.push("vaapih264dec"),
            (Self::Vaapi, Some(VideoCodecKind::Av1)) => r.push("vaapiav1dec"),
            (Self::V4L2, Some(VideoCodecKind::H265)) => r.push("v4l2h265dec"),
            (Self::V4L2, Some(VideoCodecKind::H264)) => r.push("v4l2h264dec"),
            (Self::VideoToolbox, Some(VideoCodecKind::H265)) => r.push("vtdec"),
            (Self::VideoToolbox, Some(VideoCodecKind::H264)) => r.push("vtdec"),
            _ => {},
        }
        assert(views(r@) =~= spec_fallback_decoders(self, codec));
        r
    }

    /// Older decoder elements tried after the preferred one, for the RTP encoding name `codec`.
    pub fn fallback_decoder_factories(self, codec: &str) -> (r: Vec<&'static str>)
        ensures
            views(r@) == spec_fallback_decoders(self, codec_kind(codec@)),
    {
        let c = chars_of(codec);
        self.fallback_decoders_for(classify_codec(&c))
    }

    /// Sinks tried after the preferred one.
    pub fn sink_fallback_factories(self) -> (r: Vec<&'static str>)
        ensures
            views(r@) == spec_sink_fallbacks(self),
    {
        let mut r: Vec<&'static str> = Vec::new();
        match self {
            Self::VideoToolbox => {
                r.push("osxvideosink");
                r.push("autovideosink");
            },
            Self::Vaapi | Self::V4L2 => {
                r.push("waylandsink");
                r.push("ximagesink");
                r.push("xvimagesink");
                r.push("autovideosink");
            },
            Self::Software => {
                r.push("glimagesink");
                r.push("waylandsink");
                r.push("ximagesink");
                r.push("xvimagesink");
            },
            _ => {},
        }
        assert(views(r@) =~= spec_sink_fallbacks(self));
        r
    }

    /// Whether the backend decodes on the GPU.
    pub fn is_gpu_path(self) -> (r: bool)
        ensures
            r == (self != RtpVideoApi::Software),
    {
        !matches!(self, Self::Software)
    }
}

/// The GPU memory kinds a backend can hand frames over in.
pub fn zero_copy_modes_for_backend(video_api: RtpVideoApi) -> (r: Vec<String>)
    ensures
        r@.map_values(|s: String| s@) == spec_zero_copy_modes(video_api),
{
    let mut r: Vec<String> = Vec::new();
    match video_api {
        RtpVideoApi::D3D11 => r.push(String::from_str("D3D11Memory")),
        RtpVideoApi::D3D12 => r.push(String::from_str("D3D12Memory")),
        RtpVideoApi::VideoToolbox => r.push(String::from_str("GLMemory")),
        RtpVideoApi::Vaapi => r.push(String::from_str("VAMemory")),
        RtpVideoApi::Vulkan => r.push(String::from_str("VulkanImage")),
        RtpVideoApi::V4L2 | RtpVideoApi::Software => {},
    }
    assert(r@.map_values(|s: String| s@) =~= spec_zero_copy_modes(video_api));
    r
}

pub open spec fn spec_depayloader(codec: Option<VideoCodecKind>) -> Option<Seq<char>> {
    match codec {
        Some(VideoCodecKind::H265) => Some("rtph265depay"@),
        Some(VideoCodecKind::H264) => Some("rtph264depay"@),
        Some(VideoCodecKind::Av1) => Some("rtpav1depay"@),
        None => None,
    }
}

pub open spec fn spec_parser(codec: Option<VideoCodecKind>) -> Option<Seq<char>> {
    match codec {
        Some(VideoCodecKind::H265) => Some("h265parse"@),
        Some(VideoCodecKind::H264) => Some("h264parse"@),
        Some(VideoCodecKind::Av1) => Some("av1parse"@),
        None => None,
    }
}

pub fn depayloader_for(codec: Option<VideoCodecKind>) -> (r: Option<&'static str>)
    ensures
        r matches Some(s) ==> spec_depayloader(codec) == Some(s@),
        r is None ==> spec_depayloader(codec) is None,
{
    match codec {
        Some(VideoCodecKind::H265) => Some("rtph265depay"),
        Some(VideoCodecKind::H264) => Some("rtph264depay"),
        Some(VideoCodecKind::Av1) => Some("rtpav1depay"),
        None => None,
    }
}

pub fn parser_for(codec: Option<VideoCodecKind>) -> (r: Option<&'static str>)
    ensures
        r matches Some(s) ==> spec_parser(codec) == Some(s@),
        r is None ==> spec_parser(codec) is None,
{
    match codec {
        Some(VideoCodecKind::H265) => Some("h265parse"),
        Some(VideoCodecKind::H264) => Some("h264parse"),
        Some(VideoCodecKind::Av1) => Some("av1parse"),
        None => None,
    }
}

/// The RTP depayloader for an (upper-case) encoding name.
pub fn rtp_video_depayloader_factory(codec: &str) -> (r: Option<&'static str>)
    ensures
        r matches Some(s) ==> spec_depayloader(codec_kind(codec@)) == Some(s@),
        r is None ==> spec_depayloader(codec_kind(codec@)) is None,
{
    let c = chars_of(codec);
    depayloader_for(classify_codec(&c))
}

/// The bitstream parser for an (upper-case) encoding name.
pub fn rtp_video_parser_factory(codec: &str) -> (r: Option<&'static str>)
    ensures
        r matches Some(s) ==> spec_parser(codec_kind(codec@)) == Some(s@),
        r is None ==> spec_parser(codec_kind(codec@)) is None,
{
    let c = chars_of(codec);
    parser_for(classify_codec(&c))
}

/// One element of a decode chain: its factory, its role and the caps it is configured with.
#[derive(Debug, Clone, PartialEq, Eq)]
pub struct RtpVideoChainSpec {
    pub factory: &'static str,
    pub role: RtpVideoChainRole,
    pub caps: Option<String>,
}

/// The mathematical content of a chain element.
pub type ChainElement = (Seq<char>, RtpVideoChainRole, Option<Seq<char>>);

pub open spec fn opt_view(o: Option<String>) -> Option<Seq<char>> {
    match o {
        Some(s) => Some(s@),
        None => None,
    }
}

impl View for RtpVideoChainSpec {
    type V = ChainElement;

    open spec fn view(&self) -> ChainElement {
        (self.factory@, self.role, opt_view(self.caps))
    }
}

/// The views of a list of chain elements.
pub open spec fn chain_view(v: Seq<RtpVideoChainSpec>) -> Seq<ChainElement> {
    v.map_values(|e: RtpVideoChainSpec| e@)
}

impl RtpVideoChainSpec {
    /// A copy of this element.
    pub fn duplicate(&self) -> (r: Self)
        ensures
            r@ == self@,
            r.factory == self.factory,
            r.role == self.role,
    {
        let caps = match &self.caps {
            Some(c) => Some(c.clone()),
            None => None,
        };
        RtpVideoChainSpec { factory: self.factory, role: self.role, caps }
    }

    pub fn new(factory: &'static str, role: RtpVideoChainRole) -> (r: Self)
        ensures
            r.factory == factory,
            r.role == role,
            r.caps is None,
    {
        RtpVideoChainSpec { factory, role, caps: None }
    }

    pub fn with_caps(factory: &'static str, role: RtpVideoChainRole, caps: String) -> (r: Self)
        ensures
            r.factory == factory,
            r.role == role,
            r.caps == Some(caps),
    {
        RtpVideoChainSpec { factory, role, caps: Some(caps) }
    }
}

/// An optional chain element as a sequence of zero or one element.
pub open spec fn optional_element(
    factory: Option<Seq<char>>,
    role: RtpVideoChainRole,
    caps: Option<Seq<char>>,
) -> Seq<ChainElement> {
    match factory {
        Some(f) => seq![(f, role, caps)],
        None => seq![],
    }
}

/// The decode chain a backend builds for an RTP encoding: depayloader, parser, queue,
/// decoder, then the optional memory capsfilter, converter and overlay, then queue and sink.
/// `None` when the codec is unknown or the backend has no decoder for it.
pub open spec fn chain_definition(encoding: Seq<char>, api: RtpVideoApi, zero_copy: bool) -> Option<
    Seq<ChainElement>,
> {
    let codec = codec_kind(ascii_upper(encoding));
    match (spec_depayloader(codec), spec_parser(codec), spec_decoder(api, codec)) {
        (Some(depay), Some(parser), Some(decoder)) => Some(
            seq![
                (depay, RtpVideoChainRole::Depayloader, None),
                (parser, RtpVideoChainRole::Parser, None),
                ("queue"@, RtpVideoChainRole::PreDecodeQueue, None),
                (decoder, RtpVideoChainRole::Decoder, None),
            ] + match spec_memory_caps(api, zero_copy) {
                Some(caps) => seq![
                    ("capsfilter"@, RtpVideoChainRole::PostDecodeCapsFilter, Some(caps)),
                ],
                None => seq![],
            } + optional_element(spec_converter(api, zero_copy), RtpVideoChainRole::PostDecodeConverter, None)
                + optional_element(spec_overlay(api), RtpVideoChainRole::StatsOverlay, None) + seq![
                ("queue"@, RtpVideoChainRole::PostDecodeQueue, None),
                (spec_sink(api), RtpVideoChainRole::Sink, None),
            ],
        ),
        _ => None,
    }
}

/// Each backend's decoder decodes the codec asked for: the decoder table, entry by entry; on
/// every backend but VideoToolbox (whose one hardware decoder takes both H.264 and H.265)
/// different codecs get different decoders; and the decoder of the chain built for an H.265
/// (or HEVC), H.264 or AV1 encoding is that backend's decoder for that codec.
pub proof fn law_decoder_matches_codec()
    ensures
        spec_decoder(RtpVideoApi::D3D11, Some(VideoCodecKind::H265)) == Some("d3d11h265dec"@),
        spec_decoder(RtpVideoApi::D3D11, Some(VideoCodecKind::H264)) == Some("d3d11h264dec"@),
        spec_decoder(RtpVideoApi::D3D11, Some(VideoCodecKind::Av1)) == Some("d3d11av1dec"@),
        spec_decoder(RtpVideoApi::D3D12, Some(VideoCodecKind::H265)) == Some("d3d12h265dec"@),
        spec_decoder(RtpVideoApi::D3D12, Some(VideoCodecKind::H264)) == Some("d3d12h264dec"@),
        spec_decoder(RtpVideoApi::D3D12, Some(VideoCodecKind::Av1)) == Some("d3d12av1dec"@),
        spec_decoder(RtpVideoApi::VideoToolbox, Some(VideoCodecKind::H265)) == Some("vtdec_hw"@),
        spec_decoder(RtpVideoApi::VideoToolbox, Some(VideoCodecKind::H264)) == Some("vtdec_hw"@),
        spec_decoder(RtpVideoApi::VideoToolbox, Some(VideoCodecKind::Av1)) is None,
        spec_decoder(RtpVideoApi::Vaapi, Some(VideoCodecKind::H265)) == Some("vah265dec"@),
        spec_decoder(RtpVideoApi::Vaapi, Some(VideoCodecKind::H264)) == Some("vah264dec"@),
        spec_decoder(RtpVideoApi::Vaapi, Some(VideoCodecKind::Av1)) == Some("vaav1dec"@),
        spec_decoder(RtpVideoApi::V4L2, Some(VideoCodecKind::H265)) == Some("v4l2slh265dec"@),
        spec_decoder(RtpVideoApi::V4L2, Some(VideoCodecKind::H264)) == Some("v4l2slh264dec"@),
        spec_decoder(RtpVideoApi::V4L2, Some(VideoCodecKind::Av1)) is None,
        spec_decoder(RtpVideoApi::Vulkan, Some(VideoCodecKind::H265)) == Some("vulkanh265dec"@),
        spec_decoder(RtpVideoApi::Vulkan, Some(VideoCodecKind::H264)) == Some("vulkanh264dec"@),
        spec_decoder(RtpVideoApi::Vulkan, Some(VideoCodecKind::Av1)) is None,
        spec_decoder(RtpVideoApi::Software, Some(VideoCodecKind::H265)) == Some("avdec_h265"@),
        spec_decoder(RtpVideoApi::Software, Some(VideoCodecKind::H264)) == Some("avdec_h264"@),
        spec_decoder(RtpVideoApi::Software, Some(VideoCodecKind::Av1)) == Some("avdec_av1"@),
        forall|api: RtpVideoApi| #[trigger] spec_decoder(api, None) is None,
        forall|api: RtpVideoApi, c1: VideoCodecKind, c2: VideoCodecKind|
            api != RtpVideoApi::VideoToolbox && c1 != c2 && spec_decoder(api, Some(c1)) is Some
                && spec_decoder(api, Some(c2)) is Some ==> #[trigger] spec_decoder(api, Some(c1))
                != #[trigger] spec_decoder(api, Some(c2)),
        forall|api: RtpVideoApi, zero_copy: bool|
            #[trigger] chain_definition("H265"@, api, zero_copy) matches Some(c) ==> Some(c[3].0)
                == spec_decoder(api, Some(VideoCodecKind::H265)),
        forall|api: RtpVideoApi, zero_copy: bool|
            #[trigger] chain_definition("HEVC"@, api, zero_copy) matches Some(c) ==> Some(c[3].0)
                == spec_decoder(api, Some(VideoCodecKind::H265)),
        forall|api: RtpVideoApi, zero_copy: bool|
            #[trigger] chain_definition("H264"@, api, zero_copy) matches Some(c) ==> Some(c[3].0)
                == spec_decoder(api, Some(VideoCodecKind::H264)),
        forall|api: RtpVideoApi, zero_copy: bool|
            #[trigger] chain_definition("AV1"@, api, zero_copy) matches Some(c) ==> Some(c[3].0)
                == spec_decoder(api, Some(VideoCodecKind::Av1)),
{
    reveal_strlit("avdec_av1");
    reveal_strlit("avdec_h264");
    reveal_strlit("avdec_h265");
    reveal_strlit("d3d11av1dec");
    reveal_strlit("d3d11h264dec");
    reveal_strlit("d3d11h265dec");
    reveal_strlit("d3d12av1dec");
    reveal_strlit("d3d12h264dec");
    reveal_strlit("d3d12h265dec");
    reveal_strlit("v4l2slh264dec");
    reveal_strlit("v4l2slh265dec");
    reveal_strlit("vaav1dec");
    reveal_strlit("vah264dec");
    reveal_strlit("vah265dec");
    reveal_strlit("vtdec_hw");
    reveal_strlit("vulkanh264dec");
    reveal_strlit("vulkanh265dec");
    reveal_strlit("H265");
    reveal_strlit("HEVC");
    reveal_strlit("H264");
    reveal_strlit("AV1");
    assert("d3d11h265dec"@[8] != "d3d11h264dec"@[8]);
    assert("d3d11h265dec"@.len() != "d3d11av1dec"@.len());
    assert("d3d11h264dec"@.len() != "d3d11av1dec"@.len());
    assert("d3d12h265dec"@[8] != "d3d12h264dec"@[8]);
    assert("d3d12h265dec"@.len() != "d3d12av1dec"@.len());
    assert("d3d12h264dec"@.len() != "d3d12av1dec"@.len());
    assert("vah265dec"@[5] != "vah264dec"@[5]);
    assert("vah265dec"@.len() != "vaav1dec"@.len());
    assert("vah264dec"@.len() != "vaav1dec"@.len());
    assert("v4l2slh265dec"@[9] != "v4l2slh264dec"@[9]);
    assert("vulkanh265dec"@[9] != "vulkanh264dec"@[9]);
    assert("avdec_h265"@[9] != "avdec_h264"@[9]);
    assert("avdec_h265"@.len() != "avdec_av1"@.len());
    assert("avdec_h264"@.len() != "avdec_av1"@.len());
    assert("H265"@[3] != "H264"@[3]);
    assert("HEVC"@[1] != "H264"@[1]);
    assert("H265"@.len() != "AV1"@.len());
    assert("HEVC"@.len() != "AV1"@.len());
    assert("H264"@.len() != "AV1"@.len());
    assert("HEVC"@[1] != "H265"@[1]);
    assert(ascii_upper("H265"@) =~= "H265"@);
    assert(ascii_upper("HEVC"@) =~= "HEVC"@);
    assert(ascii_upper("H264"@) =~= "H264"@);
    assert(ascii_upper("AV1"@) =~= "AV1"@);
}

/// The chain depends on the encoding's name only up to ASCII case: upper-casing the
/// encoding first gives the same chain (or the same absence of one).
pub proof fn law_chain_definition_upper_idempotent(encoding: Seq<char>, api: RtpVideoApi, zero_copy: bool)
    ensures
        chain_definition(ascii_upper(encoding), api, zero_copy) == chain_definition(encoding, api, zero_copy),
{
    assert forall|i: int| 0 <= i < encoding.len() implies #[trigger] ascii_upper_char(ascii_upper_char(encoding[i]))
        == ascii_upper_char(encoding[i]) by {
        let c = encoding[i];
        if 'a' <= c && c <= 'z' {
            assert((c as u32) - 32 < 'a' as u32);
        }
    }
    assert(ascii_upper(ascii_upper(encoding)) =~= ascii_upper(encoding));
}

/// Builds the element chain that decodes RTP `encoding` on `video_api`; `zero_copy` says
/// whether GPU-memory caps were asked for.
pub fn rtp_video_chain_definition(encoding: &str, video_api: RtpVideoApi, zero_copy: bool) -> (r:
    Option<Vec<RtpVideoChainSpec>>)
    ensures
        r matches Some(v) ==> chain_definition(encoding@, video_api, zero_copy) == Some(chain_view(v@)),
        r is None ==> chain_definition(encoding@, video_api, zero_copy) is None,
{
    let raw = chars_of(encoding);
    let upper = ascii_upper_exec(&raw);
    let codec = classify_codec(&upper);
    let depay = match depayloader_for(codec) {
        Some(f) => f,
        None => return None,
    };
    let parser = match parser_for(codec) {
        Some(f) => f,
        None => return None,
    };
    let decoder = match video_api.decoder_for(codec) {
        Some(f) => f,
        None => return None,
    };
    let mut specs: Vec<RtpVideoChainSpec> = Vec::new();
    specs.push(RtpVideoChainSpec::new(depay, RtpVideoChainRole::Depayloader));
    specs.push(RtpVideoChainSpec::new(parser, RtpVideoChainRole::Parser));
    specs.push(RtpVideoChainSpec::new("queue", RtpVideoChainRole::PreDecodeQueue));
    specs.push(RtpVideoChainSpec::new(decoder, RtpVideoChainRole::Decoder));
    let ghost base = chain_view(specs@);
    if let Some(memory_caps) = video_api.memory_caps(zero_copy) {
        specs.push(
            RtpVideoChainSpec::with_caps(
                "capsfilter",
                RtpVideoChainRole::PostDecodeCapsFilter,
                String::from_str(memory_caps),
            ),
        );
    }
    let ghost with_caps = chain_view(specs@);
    if let Some(converter) = video_api.post_decode_converter_factory(zero_copy) {
        specs.push(RtpVideoChainSpec::new(converter, RtpVideoChainRole::PostDecodeConverter));
    }
    let ghost with_converter = chain_view(specs@);
    if let Some(overlay) = video_api.stats_overlay_factory() {
        specs.push(RtpVideoChainSpec::new(overlay, RtpVideoChainRole::StatsOverlay));
    }
    let ghost with_overlay = chain_view(specs@);
    specs.push(RtpVideoChainSpec::new("queue", RtpVideoChainRole::PostDecodeQueue));
    specs.push(RtpVideoChainSpec::new(video_api.sink_factory(), RtpVideoChainRole::Sink));
    proof {
        let codec_s = codec_kind(ascii_upper(encoding@));
        assert(codec == codec_s);
        let mem = match spec_memory_caps(video_api, zero_copy) {
            Some(caps) => seq![
                ("capsfilter"@, RtpVideoChainRole::PostDecodeCapsFilter, Some(caps)),
            ],
            None => seq![],
        };
        let conv = optional_element(
            spec_converter(video_api, zero_copy),
            RtpVideoChainRole::PostDecodeConverter,
            None,
        );
        let ov = optional_element(spec_overlay(video_api), RtpVideoChainRole::StatsOverlay, None);
        assert(with_caps =~= base + mem);
        assert(with_converter =~= base + mem + conv);
        assert(with_overlay =~= base + mem + conv + ov);
        assert(chain_view(specs@) =~= base + mem + conv + ov + seq![
            ("queue"@, RtpVideoChainRole::PostDecodeQueue, None),
            (spec_sink(video_api), RtpVideoChainRole::Sink, None),
        ]);
    }
    Some(specs)
}

} // verus!
