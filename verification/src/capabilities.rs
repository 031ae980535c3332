//! The capability report: which decode backends and codecs this machine can run, and why not.
use vstd::prelude::*;
use crate::chain_select::{
    all_installed, installed, is_factory_available, required_video_chain_elements_available,
    retain_installed_overlays, select_decoder_factory, select_sink_factory, selected_decoder,
    selected_sink, with_selected, without_missing_overlays,
};
use crate::platform::{
    all_rtp_video_apis, all_video_codec_labels, backend_runs_on_current_platform, platform_label,
    runs_on, spec_all_apis, spec_all_codec_labels, spec_platform_label, TargetPlatform,
};
use crate::text::{append_str, ascii_lower, ascii_lower_exec, chars_of, string_of};
use crate::video_api::{
    chain_definition, chain_view, classify_codec, codec_kind, depayloader_for, parser_for,
    rtp_video_chain_definition, spec_capability_id, spec_depayloader, spec_label, spec_parser,
    spec_platform, spec_zero_copy_modes, zero_copy_modes_for_backend, RtpVideoApi,
    RtpVideoChainRole, RtpVideoChainSpec,
};

verus! {

/// Whether one codec decodes on one backend.
#[derive(Debug, Clone)]
pub struct NativeVideoCodecCapability {
    pub codec: String,
    pub available: bool,
    pub decoder: Option<String>,
    pub parser: Option<String>,
    pub depayloader: Option<String>,
    pub reason: Option<String>,
}

/// What one decode backend can do on this machine.
#[derive(Debug, Clone)]
pub struct NativeVideoBackendCapability {
    pub backend: String,
    pub platform: String,
    pub codecs: Vec<NativeVideoCodecCapability>,
    pub zero_copy_modes: Vec<String>,
    pub sink: Option<String>,
    pub available: bool,
    pub reason: Option<String>,
}

pub open spec fn opt_string(o: Option<String>) -> Option<Seq<char>> {
    match o {
        Some(s) => Some(s@),
        None => None,
    }
}

pub open spec fn opt_str(o: Option<&'static str>) -> Option<Seq<char>> {
    match o {
        Some(s) => Some(s@),
        None => None,
    }
}

/// codec, available, decoder, parser, depayloader, reason.
pub type CodecCapabilityView = (
    Seq<char>,
    bool,
    Option<Seq<char>>,
    Option<Seq<char>>,
    Option<Seq<char>>,
    Option<Seq<char>>,
);

impl View for NativeVideoCodecCapability {
    type V = CodecCapabilityView;

    open spec fn view(&self) -> CodecCapabilityView {
        (
            self.codec@,
            self.available,
            opt_string(self.decoder),
            opt_string(self.parser),
            opt_string(self.depayloader),
            opt_string(self.reason),
        )
    }
}

/// backend, platform, codecs, zero-copy modes, sink, available, reason.
pub type BackendCapabilityView = (
    Seq<char>,
    Seq<char>,
    Seq<CodecCapabilityView>,
    Seq<Seq<char>>,
    Option<Seq<char>>,
    bool,
    Option<Seq<char>>,
);

impl View for NativeVideoBackendCapability {
    type V = BackendCapabilityView;

    open spec fn view(&self) -> BackendCapabilityView {
        (
            self.backend@,
            self.platform@,
            self.codecs@.map_values(|c: NativeVideoCodecCapability| c@),
            self.zero_copy_modes@.map_values(|s: String| s@),
            opt_string(self.sink),
            self.available,
            opt_string(self.reason),
        )
    }
}

/// The decoder the report names for a codec: none off-platform, else the selected one.
pub open spec fn reported_decoder(
    api: RtpVideoApi,
    codec: Seq<char>,
    platform_supported: bool,
    available: Seq<String>,
) -> Option<Seq<char>> {
    if platform_supported {
        selected_decoder(api, codec_kind(codec), available)
    } else {
        None
    }
}

/// Whether the full chain for a codec can be built from installed elements.
pub open spec fn codec_available(
    api: RtpVideoApi,
    codec: Seq<char>,
    platform_supported: bool,
    sink: Option<Seq<char>>,
    zero_copy: bool,
    available: Seq<String>,
) -> bool {
    let kind = codec_kind(codec);
    let decoder = reported_decoder(api, codec, platform_supported, available);
    &&& platform_supported
    &&& sink is Some
    &&& decoder is Some
    &&& spec_depayloader(kind) matches Some(d) && installed(available, d)
    &&& spec_parser(kind) matches Some(p) && installed(available, p)
    &&& chain_definition(codec, api, zero_copy) matches Some(definition) && all_installed(
        without_missing_overlays(with_selected(definition, decoder->0, sink->0), available),
        available,
    )
}

/// Why a codec is not available, or `None` when it is.
pub open spec fn codec_reason(
    api: RtpVideoApi,
    codec: Seq<char>,
    platform_supported: bool,
    sink: Option<Seq<char>>,
    zero_copy: bool,
    available: Seq<String>,
) -> Option<Seq<char>> {
    let kind = codec_kind(codec);
    if !platform_supported {
        Some("Backend is not available on this platform."@)
    } else if spec_depayloader(kind) is None || spec_parser(kind) is None {
        Some("RTP depayloader or parser is not mapped for this codec."@)
    } else if reported_decoder(api, codec, platform_supported, available) is None {
        Some(spec_label(api) + " decoder for "@ + codec + " is not installed."@)
    } else if sink is None {
        Some(spec_label(api) + " video sink is not installed."@)
    } else if !codec_available(api, codec, platform_supported, sink, zero_copy, available) {
        Some("Required GStreamer elements are not all available."@)
    } else {
        None
    }
}

/// The report entry for one codec on one backend.
pub open spec fn codec_capability(
    api: RtpVideoApi,
    codec: Seq<char>,
    platform_supported: bool,
    sink: Option<Seq<char>>,
    zero_copy: bool,
    available: Seq<String>,
) -> CodecCapabilityView {
    (
        ascii_lower(codec),
        codec_available(api, codec, platform_supported, sink, zero_copy, available),
        reported_decoder(api, codec, platform_supported, available),
        spec_parser(codec_kind(codec)),
        spec_depayloader(codec_kind(codec)),
        codec_reason(api, codec, platform_supported, sink, zero_copy, available),
    )
}

fn owned(o: Option<&'static str>) -> (r: Option<String>)
    ensures
        opt_string(r) == opt_str(o),
{
    match o {
        Some(s) => Some(String::from_str(s)),
        None => None,
    }
}

/// Whether the whole chain for a codec can be built, given the selected decoder and sink.
fn chain_buildable(
    video_api: RtpVideoApi,
    codec: &str,
    decoder: &'static str,
    sink: &'static str,
    zero_copy: bool,
    available: &Vec<String>,
) -> (r: bool)
    ensures
        r == (chain_definition(codec@, video_api, zero_copy) matches Some(definition) && all_installed(
            without_missing_overlays(with_selected(definition, decoder@, sink@), available@),
            available@,
        )),
{
    match rtp_video_chain_definition(codec, video_api, zero_copy) {
        None => false,
        Some(specs) => {
            let mut replaced: Vec<RtpVideoChainSpec> = Vec::new();
            let ghost orig = chain_view(specs@);
            let ghost target = with_selected(orig, decoder@, sink@);
            let mut i: usize = 0;
            while i < specs.len()
                invariant
                    0 <= i <= specs.len(),
                    orig == chain_view(specs@),
                    target == with_selected(orig, decoder@, sink@),
                    replaced@.len() == i,
                    forall|j: int| 0 <= j < i ==> #[trigger] replaced@[j]@ == target[j],
                decreases specs.len() - i,
            {
                assert(orig[i as int] == specs@[i as int]@);
                assert(target[i as int] == (if orig[i as int].1 == RtpVideoChainRole::Decoder {
                    (decoder@, orig[i as int].1, orig[i as int].2)
                } else if orig[i as int].1 == RtpVideoChainRole::Sink {
                    (sink@, orig[i as int].1, orig[i as int].2)
                } else {
                    orig[i as int]
                }));
                let mut e = specs[i].duplicate();
                if e.role == RtpVideoChainRole::Decoder {
                    e.factory = decoder;
                } else if e.role == RtpVideoChainRole::Sink {
                    e.factory = sink;
                }
                assert(e@ == target[i as int]);
                replaced.push(e);
                i += 1;
            }
            assert(chain_view(replaced@) =~= target);
            let kept = retain_installed_overlays(replaced, available);
            required_video_chain_elements_available(&kept, available)
        },
    }
}

/// Builds the report entry for `codec` on `video_api`. `sink` is the sink selected for the
/// backend, and `available` the installed element factories.
pub fn native_video_codec_capability(
    video_api: RtpVideoApi,
    codec: &str,
    platform_supported: bool,
    sink: Option<&'static str>,
    zero_copy: bool,
    available: &Vec<String>,
) -> (r: NativeVideoCodecCapability)
    ensures
        r@ == codec_capability(video_api, codec@, platform_supported, opt_str(sink), zero_copy, available@),
{
    let raw = chars_of(codec);
    let kind = classify_codec(&raw);
    let depayloader = depayloader_for(kind);
    let parser = parser_for(kind);
    let decoder = if platform_supported {
        select_decoder_factory(video_api, kind, available)
    } else {
        None
    };
    let available_flag = platform_supported && sink.is_some() && decoder.is_some() && match depayloader {
        Some(d) => is_factory_available(available, d),
        None => false,
    } && match parser {
        Some(p) => is_factory_available(available, p),
        None => false,
    } && chain_buildable(video_api, codec, decoder.unwrap(), sink.unwrap(), zero_copy, available);
    assert(available_flag == codec_available(
        video_api,
        codec@,
        platform_supported,
        opt_str(sink),
        zero_copy,
        available@,
    ));
    let reason = if !platform_supported {
        Some(String::from_str("Backend is not available on this platform."))
    } else if depayloader.is_none() || parser.is_none() {
        Some(String::from_str("RTP depayloader or parser is not mapped for this codec."))
    } else if decoder.is_none() {
        let mut m = String::from_str(video_api.label());
        append_str(&mut m, " decoder for ");
        append_str(&mut m, codec);
        append_str(&mut m, " is not installed.");
        Some(m)
    } else if sink.is_none() {
        let mut m = String::from_str(video_api.label());
        append_str(&mut m, " video sink is not installed.");
        Some(m)
    } else if !available_flag {
        Some(String::from_str("Required GStreamer elements are not all available."))
    } else {
        None
    };
    let lower = ascii_lower_exec(&raw);
    NativeVideoCodecCapability {
        codec: string_of(&lower),
        available: available_flag,
        decoder: owned(decoder),
        parser: owned(parser),
        depayloader: owned(depayloader),
        reason,
    }
}

/// Whether any codec of a report is available.
pub open spec fn any_codec_available(codecs: Seq<CodecCapabilityView>) -> bool {
    exists|i: int| 0 <= i < codecs.len() && codecs[i].1
}

/// The report entries for every codec on one backend.
pub open spec fn codec_capabilities(
    api: RtpVideoApi,
    platform_supported: bool,
    sink: Option<Seq<char>>,
    zero_copy: bool,
    available: Seq<String>,
) -> Seq<CodecCapabilityView> {
    spec_all_codec_labels().map_values(
        |codec: Seq<char>|
            codec_capability(api, codec, platform_supported, sink, zero_copy, available),
    )
}

/// The report entry for one backend on `platform`.
pub open spec fn backend_capability(
    api: RtpVideoApi,
    platform: TargetPlatform,
    zero_copy: bool,
    available: Seq<String>,
) -> BackendCapabilityView {
    let supported = runs_on(api, platform);
    let sink = if supported {
        selected_sink(api, available)
    } else {
        None
    };
    let codecs = codec_capabilities(api, supported, sink, zero_copy, available);
    let ok = supported && sink is Some && any_codec_available(codecs);
    let reason = if !supported {
        Some(
            spec_label(api) + " is a "@ + spec_platform(api) + " backend and does not run on "@
                + spec_platform_label(platform) + "."@,
        )
    } else if sink is None {
        Some(spec_label(api) + " sink is unavailable; install the platform GStreamer video sink plugins."@)
    } else if !ok {
        Some(spec_label(api) + " decoders are unavailable for H.264, H.265, and AV1."@)
    } else {
        None
    };
    (
        spec_capability_id(api),
        spec_platform(api),
        codecs,
        spec_zero_copy_modes(api),
        sink,
        ok,
        reason,
    )
}

/// Builds the report entry for `video_api` on `platform`.
pub fn native_video_backend_capability(
    video_api: RtpVideoApi,
    platform: TargetPlatform,
    zero_copy: bool,
    available: &Vec<String>,
) -> (r: NativeVideoBackendCapability)
    ensures
        r@ == backend_capability(video_api, platform, zero_copy, available@),
{
    let platform_supported = backend_runs_on_current_platform(video_api, platform);
    let sink_factory = if platform_supported {
        select_sink_factory(video_api, available)
    } else {
        None
    };
    let ghost sink_view = opt_str(sink_factory);
    let labels = all_video_codec_labels();
    let ghost label_views = labels@.map_values(|s: &'static str| s@);
    let mut codecs: Vec<NativeVideoCodecCapability> = Vec::new();
    let mut any_available = false;
    let mut i: usize = 0;
    while i < labels.len()
        invariant
            0 <= i <= labels.len(),
            label_views == labels@.map_values(|s: &'static str| s@),
            label_views == spec_all_codec_labels(),
            sink_view == opt_str(sink_factory),
            codecs@.len() == i,
            forall|j: int|
                0 <= j < i ==> #[trigger] codecs@[j]@ == codec_capability(
                    video_api,
                    label_views[j],
                    platform_supported,
                    sink_view,
                    zero_copy,
                    available@,
                ),
            any_available == exists|j: int| 0 <= j < i && codecs@[j].available,
        decreases labels.len() - i,
    {
        assert(label_views[i as int] == labels@[i as int]@);
        let c = native_video_codec_capability(
            video_api,
            labels[i],
            platform_supported,
            sink_factory,
            zero_copy,
            available,
        );
        let ghost prev = codecs@;
        let ghost was_any = any_available;
        any_available = any_available || c.available;
        codecs.push(c);
        assert(forall|j: int| 0 <= j < i ==> codecs@[j] == prev[j]);
        assert(codecs@[i as int]@ == codec_capability(
            video_api,
            label_views[i as int],
            platform_supported,
            sink_view,
            zero_copy,
            available@,
        ));
        proof {
            if any_available {
                if was_any {
                    let j = choose|j: int| 0 <= j < i && prev[j].available;
                    assert(codecs@[j].available);
                } else {
                    assert(codecs@[i as int].available);
                }
            }
        }
        i += 1;
    }
    let ghost codec_views = codecs@.map_values(|c: NativeVideoCodecCapability| c@);
    assert(codec_views =~= codec_capabilities(
        video_api,
        platform_supported,
        sink_view,
        zero_copy,
        available@,
    ));
    assert(any_available == any_codec_available(codec_views)) by {
        if any_available {
            let j = choose|j: int| 0 <= j < codecs@.len() && codecs@[j].available;
            assert(codec_views[j].1);
        }
        if any_codec_available(codec_views) {
            let j = choose|j: int| 0 <= j < codec_views.len() && codec_views[j].1;
            assert(codecs@[j].available);
        }
    }
    let available_flag = platform_supported && sink_factory.is_some() && any_available;
    let reason = if !platform_supported {
        let mut m = String::from_str(video_api.label());
        append_str(&mut m, " is a ");
        append_str(&mut m, video_api.platform());
        append_str(&mut m, " backend and does not run on ");
        append_str(&mut m, platform_label(platform));
        append_str(&mut m, ".");
        Some(m)
    } else if sink_factory.is_none() {
        let mut m = String::from_str(video_api.label());
        append_str(&mut m, " sink is unavailable; install the platform GStreamer video sink plugins.");
        Some(m)
    } else if !available_flag {
        let mut m = String::from_str(video_api.label());
        append_str(&mut m, " decoders are unavailable for H.264, H.265, and AV1.");
        Some(m)
    } else {
        None
    };
    NativeVideoBackendCapability {
        backend: String::from_str(video_api.capability_id()),
        platform: String::from_str(video_api.platform()),
        codecs,
        zero_copy_modes: zero_copy_modes_for_backend(video_api),
        sink: owned(sink_factory),
        available: available_flag,
        reason,
    }
}

/// The report entries for every backend, in the order of `spec_all_apis`.
pub fn native_video_backend_capabilities(
    platform: TargetPlatform,
    zero_copy: bool,
    available: &Vec<String>,
) -> (r: Vec<NativeVideoBackendCapability>)
    ensures
        r@.len() == spec_all_apis().len(),
        forall|i: int|
            0 <= i < r@.len() ==> #[trigger] r@[i]@ == backend_capability(
                spec_all_apis()[i],
                platform,
                zero_copy,
                available@,
            ),
{
    let apis = all_rtp_video_apis();
    let mut r: Vec<NativeVideoBackendCapability> = Vec::new();
    let mut i: usize = 0;
    while i < apis.len()
        invariant
            0 <= i <= apis.len(),
            apis@ == spec_all_apis(),
            r@.len() == i,
            forall|j: int|
                0 <= j < i ==> #[trigger] r@[j]@ == backend_capability(
                    spec_all_apis()[j],
                    platform,
                    zero_copy,
                    available@,
                ),
        decreases apis.len() - i,
    {
        r.push(native_video_backend_capability(apis[i], platform, zero_copy, available));
        i += 1;
    }
    r
}

/// A capability report never contradicts itself: a codec, and a backend, is reported
/// available exactly when no reason against it is given.
pub proof fn law_available_iff_no_reason(
    api: RtpVideoApi,
    codec: Seq<char>,
    platform: TargetPlatform,
    platform_supported: bool,
    sink: Option<Seq<char>>,
    zero_copy: bool,
    available: Seq<String>,
)
    ensures
        codec_available(api, codec, platform_supported, sink, zero_copy, available) <==> codec_reason(
            api,
            codec,
            platform_supported,
            sink,
            zero_copy,
            available,
        ) is None,
        backend_capability(api, platform, zero_copy, available).5 <==> backend_capability(
            api,
            platform,
            zero_copy,
            available,
        ).6 is None,
{
}

} // verus!
