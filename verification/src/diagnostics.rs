//! What the decode-chain linking reports and which chain elements it wires to the watchers.
use vstd::prelude::*;
use crate::chain_select::{find_role, lemma_role_index, role_index};
use crate::platform::{prefers_d3d12, should_prefer_d3d12_for_high_fps};
use crate::present::PRESENT_LIMITER_AUTO_SENTINEL;
use crate::text::{
    append_debug_option, append_decimal, append_str, debug_option, decimal, eq_ignore_ascii_case,
    eq_ignore_ascii_case_exec,
};
use crate::video_api::{
    chain_view, spec_label, ChainElement, RtpVideoApi, RtpVideoChainRole, RtpVideoChainSpec,
};

verus! {

/// The factory of the first element with role `role`, or `default` when there is none.
pub open spec fn role_factory_or(chain: Seq<ChainElement>, role: RtpVideoChainRole, default: Seq<
    char,
>) -> Seq<char> {
    match role_index(chain, role) {
        Some(i) => chain[i].0,
        None => default,
    }
}

/// The memory the decoded frames live in: the caps of the first post-decode caps filter, else
/// what the backend negotiates by itself.
pub open spec fn chain_memory(chain: Seq<ChainElement>, api: RtpVideoApi) -> Seq<char> {
    let default = if api != RtpVideoApi::Software {
        "auto-negotiated"@
    } else {
        "system-memory"@
    };
    match role_index(chain, RtpVideoChainRole::PostDecodeCapsFilter) {
        Some(i) => match chain[i].2 {
            Some(caps) => caps,
            None => default,
        },
        None => default,
    }
}

pub open spec fn acceleration_label(api: RtpVideoApi) -> Seq<char> {
    if api != RtpVideoApi::Software {
        "hardware"@
    } else {
        "software"@
    }
}

/// The log line announcing the chosen decode chain.
pub open spec fn spec_chain_selection(encoding: Seq<char>, api: RtpVideoApi, chain: Seq<ChainElement>) -> Seq<
    char,
> {
    "Selected native "@ + acceleration_label(api) + " video path for RTP "@ + encoding
        + ": backend="@ + spec_label(api) + ", decoder="@ + role_factory_or(
        chain,
        RtpVideoChainRole::Decoder,
        "unknown"@,
    ) + ", converter="@ + role_factory_or(chain, RtpVideoChainRole::PostDecodeConverter, "none"@)
        + ", renderer="@ + role_factory_or(chain, RtpVideoChainRole::Sink, "unknown"@)
        + ", memory="@ + chain_memory(chain, api) + "."@
}

fn append_role_factory(
    s: &mut String,
    specs: &Vec<RtpVideoChainSpec>,
    role: RtpVideoChainRole,
    default: &str,
)
    ensures
        final(s)@ == old(s)@ + role_factory_or(chain_view(specs@), role, default@),
{
    match find_role(specs, role) {
        Some(i) => {
            proof {
                lemma_role_index(chain_view(specs@), role);
                assert(chain_view(specs@)[i as int] == specs@[i as int]@);
            }
            append_str(s, specs[i].factory);
        },
        None => append_str(s, default),
    }
}

pub fn format_video_chain_selection(
    encoding: &str,
    video_api: RtpVideoApi,
    specs: &Vec<RtpVideoChainSpec>,
) -> (r: String)
    ensures
        r@ == spec_chain_selection(encoding@, video_api, chain_view(specs@)),
{
    let gpu = video_api.is_gpu_path();
    let mut s = String::from_str("Selected native ");
    append_str(&mut s, if gpu { "hardware" } else { "software" });
    append_str(&mut s, " video path for RTP ");
    append_str(&mut s, encoding);
    append_str(&mut s, ": backend=");
    append_str(&mut s, video_api.label());
    append_str(&mut s, ", decoder=");
    append_role_factory(&mut s, specs, RtpVideoChainRole::Decoder, "unknown");
    append_str(&mut s, ", converter=");
    append_role_factory(&mut s, specs, RtpVideoChainRole::PostDecodeConverter, "none");
    append_str(&mut s, ", renderer=");
    append_role_factory(&mut s, specs, RtpVideoChainRole::Sink, "unknown");
    append_str(&mut s, ", memory=");
    let default = if gpu {
        "auto-negotiated"
    } else {
        "system-memory"
    };
    match find_role(specs, RtpVideoChainRole::PostDecodeCapsFilter) {
        Some(i) => {
            proof {
                lemma_role_index(chain_view(specs@), RtpVideoChainRole::PostDecodeCapsFilter);
                assert(chain_view(specs@)[i as int] == specs@[i as int]@);
            }
            match &specs[i].caps {
                Some(caps) => append_str(&mut s, caps.as_str()),
                None => append_str(&mut s, default),
            }
        },
        None => append_str(&mut s, default),
    }
    append_str(&mut s, ".");
    s
}

pub open spec fn opt_str_view(o: Option<&str>) -> Option<Seq<char>> {
    match o {
        Some(v) => Some(v@),
        None => None,
    }
}

/// Whether an override names D3D12, in any ASCII case.
pub open spec fn names_d3d12(o: Option<Seq<char>>) -> bool {
    o matches Some(v) && eq_ignore_ascii_case(v, "d3d12"@)
}

/// Why the D3D12 path was chosen: the backend override, the API override, a high requested
/// framerate, or D3D11 failing.
pub open spec fn d3d12_reason(
    requested_fps: Option<u32>,
    backend_env: Option<Seq<char>>,
    api_env: Option<Seq<char>>,
) -> Seq<char> {
    if names_d3d12(backend_env) {
        "forced by OPENNOW_NATIVE_VIDEO_BACKEND=d3d12"@
    } else if names_d3d12(api_env) {
        "forced by OPENNOW_NATIVE_VIDEO_API=d3d12"@
    } else if prefers_d3d12(requested_fps) {
        "auto-selected for "@ + match requested_fps {
            Some(fps) => decimal(fps as nat),
            None => "high-FPS"@,
        } + " fps stream to avoid D3D11 display-rate present backpressure"@
    } else {
        "D3D11 was unavailable/probe failed"@
    }
}

/// The log line explaining a D3D12 selection, with the two overrides as they were set.
pub open spec fn spec_d3d12_summary(
    requested_fps: Option<u32>,
    backend_env: Option<Seq<char>>,
    api_env: Option<Seq<char>>,
) -> Seq<char> {
    "Native D3D12 video path selected; reason: "@ + d3d12_reason(requested_fps, backend_env, api_env)
        + ". env OPENNOW_NATIVE_VIDEO_BACKEND="@ + debug_option(backend_env)
        + ", OPENNOW_NATIVE_VIDEO_API="@ + debug_option(api_env)
        + ". If D3D12 stalls on a specific driver, force OPENNOW_NATIVE_VIDEO_BACKEND=d3d11."@
}

fn names_d3d12_exec(o: Option<&str>) -> (r: bool)
    ensures
        r == names_d3d12(opt_str_view(o)),
{
    match o {
        Some(v) => eq_ignore_ascii_case_exec(v, "d3d12"),
        None => false,
    }
}

/// Explains a D3D12 selection; `backend_env` and `api_env` are the backend and API overrides
/// as the environment holds them.
pub fn format_d3d12_selection_summary(
    requested_fps: Option<u32>,
    backend_env: Option<&str>,
    api_env: Option<&str>,
) -> (r: String)
    ensures
        r@ == spec_d3d12_summary(requested_fps, opt_str_view(backend_env), opt_str_view(api_env)),
{
    let mut s = String::from_str("Native D3D12 video path selected; reason: ");
    if names_d3d12_exec(backend_env) {
        append_str(&mut s, "forced by OPENNOW_NATIVE_VIDEO_BACKEND=d3d12");
    } else if names_d3d12_exec(api_env) {
        append_str(&mut s, "forced by OPENNOW_NATIVE_VIDEO_API=d3d12");
    } else if should_prefer_d3d12_for_high_fps(requested_fps) {
        append_str(&mut s, "auto-selected for ");
        match requested_fps {
            Some(fps) => append_decimal(&mut s, fps as u64),
            None => append_str(&mut s, "high-FPS"),
        }
        append_str(&mut s, " fps stream to avoid D3D11 display-rate present backpressure");
    } else {
        append_str(&mut s, "D3D11 was unavailable/probe failed");
    }
    append_str(&mut s, ". env OPENNOW_NATIVE_VIDEO_BACKEND=");
    append_debug_option(&mut s, backend_env);
    append_str(&mut s, ", OPENNOW_NATIVE_VIDEO_API=");
    append_debug_option(&mut s, api_env);
    append_str(&mut s, ". If D3D12 stalls on a specific driver, force OPENNOW_NATIVE_VIDEO_BACKEND=d3d11.");
    s
}

/// The error when no decode chain can be built for an encoding.
pub open spec fn spec_chain_unavailable(encoding: Seq<char>) -> Seq<char> {
    "Explicit low-latency decode chain is unavailable for RTP "@ + encoding
        + "; install the platform GStreamer plugin packages or set OPENNOW_NATIVE_VIDEO_BACKEND=software to force software decode."@
}

pub fn chain_unavailable_message(encoding: &str) -> (r: String)
    ensures
        r@ == spec_chain_unavailable(encoding@),
{
    let mut s = String::from_str("Explicit low-latency decode chain is unavailable for RTP ");
    append_str(&mut s, encoding);
    append_str(
        &mut s,
        "; install the platform GStreamer plugin packages or set OPENNOW_NATIVE_VIDEO_BACKEND=software to force software decode.",
    );
    s
}

/// The log line announcing an active present limiter.
pub open spec fn spec_present_limiter_message(fps: u32, api: RtpVideoApi, configured: u32) -> Seq<char> {
    "Native present limiter enabled at "@ + decimal(fps as nat) + " fps for "@ + spec_label(api)
        + " video path; reason: "@ + if configured == PRESENT_LIMITER_AUTO_SENTINEL {
        "auto-enabled for the D3D11 path to prevent display-rate present backpressure"@
    } else {
        "configured by OPENNOW_NATIVE_PRESENT_MAX_FPS"@
    } + "."@
}

pub fn present_limiter_message(effective_fps: u32, video_api: RtpVideoApi, configured_fps: u32) -> (r:
    String)
    ensures
        r@ == spec_present_limiter_message(effective_fps, video_api, configured_fps),
{
    let mut s = String::from_str("Native present limiter enabled at ");
    append_decimal(&mut s, effective_fps as u64);
    append_str(&mut s, " fps for ");
    append_str(&mut s, video_api.label());
    append_str(&mut s, " video path; reason: ");
    append_str(&mut s, crate::present::present_limiter_reason(configured_fps));
    append_str(&mut s, ".");
    s
}

/// The log line announcing a linked decode chain.
pub open spec fn spec_chain_linked(encoding: Seq<char>, api: RtpVideoApi) -> Seq<char> {
    "Linked RTP "@ + encoding + " video through explicit low-latency "@ + spec_label(api)
        + " decode chain."@
}

pub fn chain_linked_message(encoding: &str, video_api: RtpVideoApi) -> (r: String)
    ensures
        r@ == spec_chain_linked(encoding@, video_api),
{
    let mut s = String::from_str("Linked RTP ");
    append_str(&mut s, encoding);
    append_str(&mut s, " video through explicit low-latency ");
    append_str(&mut s, video_api.label());
    append_str(&mut s, " decode chain.");
    s
}

/// The chain elements the linking hands to the watchers and the liveness state: the first
/// element of each role, by position.
#[derive(Debug, Clone, Copy, PartialEq, Eq, Structural)]
pub struct ChainWiring {
    pub stats_overlay: Option<usize>,
    pub pre_decode_queue: Option<usize>,
    pub parser: Option<usize>,
    pub decoder: Option<usize>,
    pub post_decode_queue: Option<usize>,
}

pub open spec fn same_index(r: Option<usize>, i: Option<int>) -> bool {
    match (r, i) {
        (Some(a), Some(b)) => a as int == b,
        (None, None) => true,
        _ => false,
    }
}

pub fn chain_wiring(specs: &Vec<RtpVideoChainSpec>) -> (r: ChainWiring)
    ensures
        same_index(r.stats_overlay, role_index(chain_view(specs@), RtpVideoChainRole::StatsOverlay)),
        same_index(
            r.pre_decode_queue,
            role_index(chain_view(specs@), RtpVideoChainRole::PreDecodeQueue),
        ),
        same_index(r.parser, role_index(chain_view(specs@), RtpVideoChainRole::Parser)),
        same_index(r.decoder, role_index(chain_view(specs@), RtpVideoChainRole::Decoder)),
        same_index(
            r.post_decode_queue,
            role_index(chain_view(specs@), RtpVideoChainRole::PostDecodeQueue),
        ),
{
    ChainWiring {
        stats_overlay: find_role(specs, RtpVideoChainRole::StatsOverlay),
        pre_decode_queue: find_role(specs, RtpVideoChainRole::PreDecodeQueue),
        parser: find_role(specs, RtpVideoChainRole::Parser),
        decoder: find_role(specs, RtpVideoChainRole::Decoder),
        post_decode_queue: find_role(specs, RtpVideoChainRole::PostDecodeQueue),
    }
}

} // verus!
