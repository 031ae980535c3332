//! The platforms the streamer is built for, and which decode backends each one prefers.
use vstd::prelude::*;
use crate::text::{ascii_lower, ascii_lower_exec, chars_of, eq_lit, str_eq};
use crate::video_api::{spec_platform, RtpVideoApi};

verus! {

/// The operating system (and, on Linux, the architecture class) the streamer runs on.
#[derive(Debug, Clone, Copy, PartialEq, Eq, Structural)]
pub enum TargetPlatform {
    Windows,
    MacOs,
    LinuxAarch64,
    Linux,
    Other,
}

pub open spec fn spec_platform_label(platform: TargetPlatform) -> Seq<char> {
    match platform {
        TargetPlatform::Windows => "windows"@,
        TargetPlatform::MacOs => "macos"@,
        TargetPlatform::LinuxAarch64 | TargetPlatform::Linux => "linux"@,
        TargetPlatform::Other => "other"@,
    }
}

/// The label the capability report uses for a platform.
pub fn platform_label(platform: TargetPlatform) -> (r: &'static str)
    ensures
        r@ == spec_platform_label(platform),
{
    match platform {
        TargetPlatform::Windows => "windows",
        TargetPlatform::MacOs => "macos",
        TargetPlatform::LinuxAarch64 | TargetPlatform::Linux => "linux",
        TargetPlatform::Other => "other",
    }
}

/// Whether a backend can run on a platform: its own platform, or any for a cross-platform one.
pub open spec fn runs_on(api: RtpVideoApi, platform: TargetPlatform) -> bool {
    spec_platform(api) == spec_platform_label(platform) || spec_platform(api) == "cross-platform"@
}

pub fn backend_runs_on_current_platform(video_api: RtpVideoApi, platform: TargetPlatform) -> (r:
    bool)
    ensures
        r == runs_on(video_api, platform),
{
    str_eq(video_api.platform(), platform_label(platform)) || str_eq(
        video_api.platform(),
        "cross-platform",
    )
}

/// Whether a requested framerate is high enough to prefer D3D12 over D3D11 on Windows.
pub open spec fn prefers_d3d12(requested_fps: Option<u32>) -> bool {
    requested_fps matches Some(fps) && fps >= 200
}

pub fn should_prefer_d3d12_for_high_fps(requested_fps: Option<u32>) -> (r: bool)
    ensures
        r == prefers_d3d12(requested_fps),
{
    match requested_fps {
        Some(fps) => fps >= 200,
        None => false,
    }
}

/// The backends tried, in order, when none was forced.
pub open spec fn default_priority(platform: TargetPlatform, requested_fps: Option<u32>) -> Seq<
    RtpVideoApi,
> {
    match platform {
        TargetPlatform::Windows => if prefers_d3d12(requested_fps) {
            seq![RtpVideoApi::D3D12, RtpVideoApi::D3D11, RtpVideoApi::Software]
        } else {
            seq![RtpVideoApi::D3D11, RtpVideoApi::D3D12, RtpVideoApi::Software]
        },
        TargetPlatform::MacOs => seq![RtpVideoApi::VideoToolbox, RtpVideoApi::Software],
        TargetPlatform::LinuxAarch64 => seq![
            RtpVideoApi::V4L2,
            RtpVideoApi::Vaapi,
            RtpVideoApi::Vulkan,
            RtpVideoApi::Software,
        ],
        TargetPlatform::Linux => seq![
            RtpVideoApi::Vaapi,
            RtpVideoApi::Vulkan,
            RtpVideoApi::V4L2,
            RtpVideoApi::Software,
        ],
        TargetPlatform::Other => seq![RtpVideoApi::Software],
    }
}

/// The default backend order of each platform: hardware backends first, in the platform's
/// fixed order (on Windows D3D12 leads only for streams of 200 fps or more), and the software
/// decoder last, once. Without an override the preferred backends are exactly this order.
pub proof fn law_default_order_is_hardware_first(platform: TargetPlatform, requested_fps: Option<u32>)
    ensures
        ({
            let l = default_priority(platform, requested_fps);
            &&& l.len() >= 1
            &&& l.last() == RtpVideoApi::Software
            &&& forall|i: int| 0 <= i < l.len() - 1 ==> l[i] != RtpVideoApi::Software
            &&& forall|i: int, j: int| 0 <= i < j < l.len() ==> l[i] != l[j]
            &&& preferred_apis(None, platform, requested_fps) == l
            &&& match platform {
                TargetPlatform::Windows => l == if requested_fps matches Some(fps) && fps >= 200 {
                    seq![RtpVideoApi::D3D12, RtpVideoApi::D3D11, RtpVideoApi::Software]
                } else {
                    seq![RtpVideoApi::D3D11, RtpVideoApi::D3D12, RtpVideoApi::Software]
                },
                TargetPlatform::MacOs => l == seq![RtpVideoApi::VideoToolbox, RtpVideoApi::Software],
                TargetPlatform::LinuxAarch64 => l == seq![
                    RtpVideoApi::V4L2,
                    RtpVideoApi::Vaapi,
                    RtpVideoApi::Vulkan,
                    RtpVideoApi::Software,
                ],
                TargetPlatform::Linux => l == seq![
                    RtpVideoApi::Vaapi,
                    RtpVideoApi::Vulkan,
                    RtpVideoApi::V4L2,
                    RtpVideoApi::Software,
                ],
                TargetPlatform::Other => l == seq![RtpVideoApi::Software],
            }
        }),
{
    reveal_strlit("auto");
    assert(forced_backend("auto"@) is None) by {
        reveal_strlit("d3d11");
        reveal_strlit("d3d12");
        reveal_strlit("videotoolbox");
        reveal_strlit("vt");
        reveal_strlit("vaapi");
        reveal_strlit("va");
        reveal_strlit("v4l2");
        reveal_strlit("v4l2stateless");
        reveal_strlit("vulkan");
        reveal_strlit("vk");
        reveal_strlit("software");
        reveal_strlit("sw");
        assert("auto"@[0] != "d3d11"@[0] || "auto"@.len() != "d3d11"@.len());
        assert("auto"@[0] != "d3d12"@[0] || "auto"@.len() != "d3d12"@.len());
        assert("auto"@[0] != "videotoolbox"@[0] || "auto"@.len() != "videotoolbox"@.len());
        assert("auto"@[0] != "vt"@[0] || "auto"@.len() != "vt"@.len());
        assert("auto"@[0] != "vaapi"@[0] || "auto"@.len() != "vaapi"@.len());
        assert("auto"@[0] != "va"@[0] || "auto"@.len() != "va"@.len());
        assert("auto"@[0] != "v4l2"@[0] || "auto"@.len() != "v4l2"@.len());
        assert("auto"@[0] != "v4l2stateless"@[0] || "auto"@.len() != "v4l2stateless"@.len());
        assert("auto"@[0] != "vulkan"@[0] || "auto"@.len() != "vulkan"@.len());
        assert("auto"@[0] != "vk"@[0] || "auto"@.len() != "vk"@.len());
        assert("auto"@[0] != "software"@[0] || "auto"@.len() != "software"@.len());
        assert("auto"@[0] != "sw"@[0] || "auto"@.len() != "sw"@.len());
    }
}

pub fn default_rtp_video_api_priority(platform: TargetPlatform, requested_fps: Option<u32>) -> (r:
    Vec<RtpVideoApi>)
    ensures
        r@ == default_priority(platform, requested_fps),
{
    let mut r: Vec<RtpVideoApi> = Vec::new();
    match platform {
        TargetPlatform::Windows => {
            if should_prefer_d3d12_for_high_fps(requested_fps) {
                r.push(RtpVideoApi::D3D12);
                r.push(RtpVideoApi::D3D11);
            } else {
                r.push(RtpVideoApi::D3D11);
                r.push(RtpVideoApi::D3D12);
            }
            r.push(RtpVideoApi::Software);
        },
        TargetPlatform::MacOs => {
            r.push(RtpVideoApi::VideoToolbox);
            r.push(RtpVideoApi::Software);
        },
        TargetPlatform::LinuxAarch64 => {
            r.push(RtpVideoApi::V4L2);
            r.push(RtpVideoApi::Vaapi);
            r.push(RtpVideoApi::Vulkan);
            r.push(RtpVideoApi::Software);
        },
        TargetPlatform::Linux => {
            r.push(RtpVideoApi::Vaapi);
            r.push(RtpVideoApi::Vulkan);
            r.push(RtpVideoApi::V4L2);
            r.push(RtpVideoApi::Software);
        },
        TargetPlatform::Other => {
            r.push(RtpVideoApi::Software);
        },
    }
    assert(r@ =~= default_priority(platform, requested_fps));
    r
}

/// The backend a (lower-cased) override names, if it names one.
pub open spec fn forced_backend(name: Seq<char>) -> Option<RtpVideoApi> {
    if name == "d3d11"@ {
        Some(RtpVideoApi::D3D11)
    } else if name == "d3d12"@ {
        Some(RtpVideoApi::D3D12)
    } else if name == "videotoolbox"@ || name == "vt"@ {
        Some(RtpVideoApi::VideoToolbox)
    } else if name == "vaapi"@ || name == "va"@ {
        Some(RtpVideoApi::Vaapi)
    } else if name == "v4l2"@ || name == "v4l2stateless"@ {
        Some(RtpVideoApi::V4L2)
    } else if name == "vulkan"@ || name == "vk"@ {
        Some(RtpVideoApi::Vulkan)
    } else if name == "software"@ || name == "sw"@ {
        Some(RtpVideoApi::Software)
    } else {
        None
    }
}

/// The backends to try: the one the override names (compared in ASCII lower case), else the
/// platform's default order.
pub open spec fn preferred_apis(
    requested: Option<Seq<char>>,
    platform: TargetPlatform,
    requested_fps: Option<u32>,
) -> Seq<RtpVideoApi> {
    let name = match requested {
        Some(r) => ascii_lower(r),
        None => "auto"@,
    };
    match forced_backend(name) {
        Some(api) => seq![api],
        None => default_priority(platform, requested_fps),
    }
}

fn forced_backend_exec(name: &Vec<char>) -> (r: Option<RtpVideoApi>)
    ensures
        r == forced_backend(name@),
{
    if eq_lit(name, "d3d11") {
        Some(RtpVideoApi::D3D11)
    } else if eq_lit(name, "d3d12") {
        Some(RtpVideoApi::D3D12)
    } else if eq_lit(name, "videotoolbox") || eq_lit(name, "vt") {
        Some(RtpVideoApi::VideoToolbox)
    } else if eq_lit(name, "vaapi") || eq_lit(name, "va") {
        Some(RtpVideoApi::Vaapi)
    } else if eq_lit(name, "v4l2") || eq_lit(name, "v4l2stateless") {
        Some(RtpVideoApi::V4L2)
    } else if eq_lit(name, "vulkan") || eq_lit(name, "vk") {
        Some(RtpVideoApi::Vulkan)
    } else if eq_lit(name, "software") || eq_lit(name, "sw") {
        Some(RtpVideoApi::Software)
    } else {
        None
    }
}

/// The backends to try for a stream. `requested` is the backend override the user set, if any
/// (the backend variable, else the API variable).
pub fn preferred_rtp_video_apis(
    requested: Option<&str>,
    platform: TargetPlatform,
    requested_fps: Option<u32>,
) -> (r: Vec<RtpVideoApi>)
    ensures
        r@ == preferred_apis(
            match requested {
                Some(s) => Some(s@),
                None => None,
            },
            platform,
            requested_fps,
        ),
{
    let name = match requested {
        Some(s) => {
            let raw = chars_of(s);
            ascii_lower_exec(&raw)
        },
        None => chars_of("auto"),
    };
    match forced_backend_exec(&name) {
        Some(api) => {
            let mut r: Vec<RtpVideoApi> = Vec::new();
            r.push(api);
            assert(r@ =~= seq![api]);
            r
        },
        None => default_rtp_video_api_priority(platform, requested_fps),
    }
}

/// Every backend, in the order the capability report lists them.
pub open spec fn spec_all_apis() -> Seq<RtpVideoApi> {
    seq![
        RtpVideoApi::D3D12,
        RtpVideoApi::D3D11,
        RtpVideoApi::VideoToolbox,
        RtpVideoApi::Vaapi,
        RtpVideoApi::V4L2,
        RtpVideoApi::Vulkan,
        RtpVideoApi::Software,
    ]
}

pub fn all_rtp_video_apis() -> (r: Vec<RtpVideoApi>)
    ensures
        r@ == spec_all_apis(),
{
    let mut r: Vec<RtpVideoApi> = Vec::new();
    r.push(RtpVideoApi::D3D12);
    r.push(RtpVideoApi::D3D11);
    r.push(RtpVideoApi::VideoToolbox);
    r.push(RtpVideoApi::Vaapi);
    r.push(RtpVideoApi::V4L2);
    r.push(RtpVideoApi::Vulkan);
    r.push(RtpVideoApi::Software);
    assert(r@ =~= spec_all_apis());
    r
}

/// The codecs the capability report covers.
pub open spec fn spec_all_codec_labels() -> Seq<Seq<char>> {
    seq!["H264"@, "H265"@, "AV1"@]
}

pub fn all_video_codec_labels() -> (r: Vec<&'static str>)
    ensures
        r@.map_values(|s: &'static str| s@) == spec_all_codec_labels(),
{
    let mut r: Vec<&'static str> = Vec::new();
    r.push("H264");
    r.push("H265");
    r.push("AV1");
    assert(r@.map_values(|s: &'static str| s@) =~= spec_all_codec_labels());
    r
}

} // verus!
