//! Choosing a decode chain that the installed GStreamer elements can actually build.
//!
//! Which element factories are installed depends on the machine, so every function here takes
//! the list of installed factory names as an argument and is exact for every such list.
use vstd::prelude::*;
use crate::platform::{preferred_apis, preferred_rtp_video_apis, TargetPlatform};
use crate::text::{append_decimal, append_str, ascii_upper, ascii_upper_exec, chars_of, decimal, str_eq};
use crate::video_api::{
    chain_definition, chain_view, classify_codec, codec_kind, rtp_video_chain_definition,
    spec_decoder, spec_fallback_decoders, spec_sink, spec_sink_fallbacks, views, ChainElement,
    RtpVideoApi, RtpVideoChainRole, RtpVideoChainSpec, VideoCodecKind,
};

verus! {

/// Whether `name` is among the installed factory names.
pub open spec fn installed(available: Seq<String>, name: Seq<char>) -> bool {
    exists|i: int| 0 <= i < available.len() && available[i]@ == name
}

/// Whether the factory `name` is installed.
pub fn is_factory_available(available: &Vec<String>, name: &str) -> (r: bool)
    ensures
        r == installed(available@, name@),
{
    let mut i: usize = 0;
    while i < available.len()
        invariant
            0 <= i <= available.len(),
            forall|j: int| 0 <= j < i ==> available@[j]@ != name@,
        decreases available.len() - i,
    {
        if str_eq(available[i].as_str(), name) {
            return true;
        }
        i += 1;
    }
    false
}

/// The first installed factory among `candidates`.
pub open spec fn first_installed(candidates: Seq<Seq<char>>, available: Seq<String>) -> Option<
    Seq<char>,
>
    decreases candidates.len(),
{
    if candidates.len() == 0 {
        None
    } else if installed(available, candidates[0]) {
        Some(candidates[0])
    } else {
        first_installed(candidates.drop_first(), available)
    }
}

/// The first installed factory among `candidates`.
pub fn first_available(candidates: &Vec<&'static str>, available: &Vec<String>) -> (r: Option<
    &'static str,
>)
    ensures
        r matches Some(s) ==> first_installed(views(candidates@), available@) == Some(s@),
        r is None ==> first_installed(views(candidates@), available@) is None,
{
    let mut i: usize = 0;
    assert(views(candidates@).skip(0) =~= views(candidates@));
    while i < candidates.len()
        invariant
            0 <= i <= candidates.len(),
            first_installed(views(candidates@), available@) == first_installed(
                views(candidates@).skip(i as int),
                available@,
            ),
        decreases candidates.len() - i,
    {
        let ghost rest = views(candidates@).skip(i as int);
        assert(rest[0] == candidates@[i as int]@);
        if is_factory_available(available, candidates[i]) {
            return Some(candidates[i]);
        }
        assert(rest.drop_first() =~= views(candidates@).skip(i + 1));
        i += 1;
    }
    assert(views(candidates@).skip(i as int).len() == 0);
    None
}

/// The decoder a backend uses for a codec: its preferred decoder or the first installed
/// fallback, whichever is installed first.
pub open spec fn selected_decoder(
    api: RtpVideoApi,
    codec: Option<VideoCodecKind>,
    available: Seq<String>,
) -> Option<Seq<char>> {
    match spec_decoder(api, codec) {
        None => None,
        Some(primary) => first_installed(
            seq![primary] + spec_fallback_decoders(api, codec),
            available,
        ),
    }
}

/// The sink a backend uses: its preferred sink or the first installed fallback.
pub open spec fn selected_sink(api: RtpVideoApi, available: Seq<String>) -> Option<Seq<char>> {
    first_installed(seq![spec_sink(api)] + spec_sink_fallbacks(api), available)
}

pub fn select_decoder_factory(
    video_api: RtpVideoApi,
    codec: Option<VideoCodecKind>,
    available: &Vec<String>,
) -> (r: Option<&'static str>)
    ensures
        r matches Some(s) ==> selected_decoder(video_api, codec, available@) == Some(s@),
        r is None ==> selected_decoder(video_api, codec, available@) is None,
{
    let primary = match video_api.decoder_for(codec) {
        Some(p) => p,
        None => return None,
    };
    let fallbacks = video_api.fallback_decoders_for(codec);
    let mut candidates: Vec<&'static str> = Vec::new();
    candidates.push(primary);
    let mut i: usize = 0;
    while i < fallbacks.len()
        invariant
            0 <= i <= fallbacks.len(),
            candidates@.len() == i + 1,
            candidates@[0] == primary,
            forall|j: int| 0 <= j < i ==> candidates@[j + 1] == fallbacks@[j],
        decreases fallbacks.len() - i,
    {
        candidates.push(fallbacks[i]);
        i += 1;
    }
    assert(views(candidates@) =~= seq![primary@] + views(fallbacks@));
    first_available(&candidates, available)
}

pub fn select_sink_factory(video_api: RtpVideoApi, available: &Vec<String>) -> (r: Option<
    &'static str,
>)
    ensures
        r matches Some(s) ==> selected_sink(video_api, available@) == Some(s@),
        r is None ==> selected_sink(video_api, available@) is None,
{
    let fallbacks = video_api.sink_fallback_factories();
    let mut candidates: Vec<&'static str> = Vec::new();
    candidates.push(video_api.sink_factory());
    let ghost primary = spec_sink(video_api);
    let mut i: usize = 0;
    while i < fallbacks.len()
        invariant
            0 <= i <= fallbacks.len(),
            candidates@.len() == i + 1,
            candidates@[0]@ == primary,
            forall|j: int| 0 <= j < i ==> candidates@[j + 1] == fallbacks@[j],
        decreases fallbacks.len() - i,
    {
        candidates.push(fallbacks[i]);
        i += 1;
    }
    assert(views(candidates@) =~= seq![primary] + views(fallbacks@));
    first_available(&candidates, available)
}

/// Whether every element of a chain is installed.
pub open spec fn all_installed(chain: Seq<ChainElement>, available: Seq<String>) -> bool {
    forall|i: int| 0 <= i < chain.len() ==> installed(available, #[trigger] chain[i].0)
}

pub fn required_video_chain_elements_available(
    specs: &Vec<RtpVideoChainSpec>,
    available: &Vec<String>,
) -> (r: bool)
    ensures
        r == all_installed(chain_view(specs@), available@),
{
    let mut i: usize = 0;
    while i < specs.len()
        invariant
            0 <= i <= specs.len(),
            forall|j: int| 0 <= j < i ==> installed(available@, #[trigger] chain_view(specs@)[j].0),
        decreases specs.len() - i,
    {
        if !is_factory_available(available, specs[i].factory) {
            assert(chain_view(specs@)[i as int].0 == specs@[i as int].factory@);
            return false;
        }
        i += 1;
    }
    true
}

/// The chain with its decoder and sink factories replaced by the selected ones.
pub open spec fn with_selected(chain: Seq<ChainElement>, decoder: Seq<char>, sink: Seq<char>) -> Seq<
    ChainElement,
> {
    chain.map_values(
        |e: ChainElement|
            if e.1 == RtpVideoChainRole::Decoder {
                (decoder, e.1, e.2)
            } else if e.1 == RtpVideoChainRole::Sink {
                (sink, e.1, e.2)
            } else {
                e
            },
    )
}

/// The first position holding an element with role `role`.
pub open spec fn role_index(chain: Seq<ChainElement>, role: RtpVideoChainRole) -> Option<int>
    decreases chain.len(),
{
    if chain.len() == 0 {
        None
    } else if chain[0].1 == role {
        Some(0)
    } else {
        match role_index(chain.drop_first(), role) {
            Some(i) => Some(i + 1),
            None => None,
        }
    }
}

/// A position `role_index` finds holds an element with that role.
pub proof fn lemma_role_index(chain: Seq<ChainElement>, role: RtpVideoChainRole)
    ensures
        role_index(chain, role) matches Some(i) ==> 0 <= i < chain.len() && chain[i].1 == role,
    decreases chain.len(),
{
    if chain.len() > 0 && chain[0].1 != role {
        lemma_role_index(chain.drop_first(), role);
    }
}

/// The caps a rate setter pins the decoded framerate to.
pub open spec fn rate_setter_caps(fps: u32) -> Seq<char> {
    "video/x-raw,framerate=(fraction)"@ + decimal(fps as nat) + "/1"@
}

/// The chain with a framerate-pinning `capssetter` right after the decoder, when a positive
/// framerate was requested, `capssetter` is installed and the chain has a decoder.
pub open spec fn with_rate_setter(
    chain: Seq<ChainElement>,
    requested_fps: Option<u32>,
    capssetter_installed: bool,
) -> Seq<ChainElement> {
    match requested_fps {
        Some(fps) => if fps > 0 && capssetter_installed {
            match role_index(chain, RtpVideoChainRole::Decoder) {
                Some(i) => chain.insert(
                    i + 1,
                    ("capssetter"@, RtpVideoChainRole::PostDecodeRateSetter, Some(rate_setter_caps(fps))),
                ),
                None => chain,
            }
        } else {
            chain
        },
        None => chain,
    }
}

/// The chain without the statistics overlays whose factory is not installed.
pub open spec fn without_missing_overlays(chain: Seq<ChainElement>, available: Seq<String>) -> Seq<
    ChainElement,
>
    decreases chain.len(),
{
    if chain.len() == 0 {
        seq![]
    } else {
        let kept = without_missing_overlays(chain.drop_last(), available);
        let e = chain.last();
        if e.1 != RtpVideoChainRole::StatsOverlay || installed(available, e.0) {
            kept.push(e)
        } else {
            kept
        }
    }
}

/// The chain a backend can build on this machine for an encoding, if it can build one.
pub open spec fn chain_for_api(
    encoding: Seq<char>,
    api: RtpVideoApi,
    requested_fps: Option<u32>,
    zero_copy: bool,
    available: Seq<String>,
) -> Option<Seq<ChainElement>> {
    let codec = codec_kind(ascii_upper(encoding));
    match (
        selected_decoder(api, codec, available),
        selected_sink(api, available),
        chain_definition(encoding, api, zero_copy),
    ) {
        (Some(decoder), Some(sink), Some(definition)) => {
            let chain = without_missing_overlays(
                with_rate_setter(
                    with_selected(definition, decoder, sink),
                    requested_fps,
                    installed(available, "capssetter"@),
                ),
                available,
            );
            if all_installed(chain, available) {
                Some(chain)
            } else {
                None
            }
        },
        _ => None,
    }
}

/// The first backend of `apis` that can build a chain, with that chain.
pub open spec fn first_buildable(
    encoding: Seq<char>,
    apis: Seq<RtpVideoApi>,
    requested_fps: Option<u32>,
    zero_copy: bool,
    available: Seq<String>,
) -> Option<(RtpVideoApi, Seq<ChainElement>)>
    decreases apis.len(),
{
    if apis.len() == 0 {
        None
    } else {
        match chain_for_api(encoding, apis[0], requested_fps, zero_copy, available) {
            Some(chain) => Some((apis[0], chain)),
            None => first_buildable(encoding, apis.drop_first(), requested_fps, zero_copy, available),
        }
    }
}

/// Replaces the decoder and sink factories of a chain.
fn replace_selected(specs: &mut Vec<RtpVideoChainSpec>, decoder: &'static str, sink: &'static str)
    ensures
        chain_view(final(specs)@) == with_selected(chain_view(old(specs)@), decoder@, sink@),
{
    let ghost orig = chain_view(specs@);
    let mut i: usize = 0;
    while i < specs.len()
        invariant
            0 <= i <= specs.len(),
            specs@.len() == orig.len(),
            forall|j: int| 0 <= j < i ==> chain_view(specs@)[j] == with_selected(orig, decoder@, sink@)[j],
            forall|j: int| i <= j < specs@.len() ==> chain_view(specs@)[j] == orig[j],
        decreases specs.len() - i,
    {
        let role = specs[i].role;
        let ghost before = specs@;
        assert(with_selected(orig, decoder@, sink@)[i as int] == (if orig[i as int].1
            == RtpVideoChainRole::Decoder {
            (decoder@, orig[i as int].1, orig[i as int].2)
        } else if orig[i as int].1 == RtpVideoChainRole::Sink {
            (sink@, orig[i as int].1, orig[i as int].2)
        } else {
            orig[i as int]
        }));
        if role == RtpVideoChainRole::Decoder {
            let mut e = specs[i].duplicate();
            e.factory = decoder;
            specs.set(i, e);
        } else if role == RtpVideoChainRole::Sink {
            let mut e = specs[i].duplicate();
            e.factory = sink;
            specs.set(i, e);
        }
        assert(forall|j: int| 0 <= j < specs@.len() && j != i ==> specs@[j] == before[j]);
        assert(chain_view(specs@)[i as int] == with_selected(orig, decoder@, sink@)[i as int]);
        assert forall|j: int| 0 <= j < specs@.len() && j != i implies chain_view(specs@)[j]
            == chain_view(before)[j] by {
            assert(specs@[j] == before[j]);
        }
        assert forall|j: int| 0 <= j < i + 1 implies chain_view(specs@)[j] == with_selected(
            orig,
            decoder@,
            sink@,
        )[j] by {
            if j < i {
                assert(chain_view(before)[j] == with_selected(orig, decoder@, sink@)[j]);
            }
        }
        i += 1;
    }
    assert(chain_view(specs@) =~= with_selected(orig, decoder@, sink@));
}

/// The position of the first element with role `role`.
pub(crate) fn find_role(specs: &Vec<RtpVideoChainSpec>, role: RtpVideoChainRole) -> (r: Option<usize>)
    ensures
        r matches Some(i) ==> role_index(chain_view(specs@), role) == Some(i as int),
        r is None ==> role_index(chain_view(specs@), role) is None,
{
    let ghost all = chain_view(specs@);
    let mut i: usize = 0;
    assert(all.skip(0) =~= all);
    while i < specs.len()
        invariant
            0 <= i <= specs.len(),
            all == chain_view(specs@),
            role_index(all, role) == match role_index(all.skip(i as int), role) {
                Some(k) => Some(k + i),
                None => None,
            },
        decreases specs.len() - i,
    {
        let ghost rest = all.skip(i as int);
        assert(rest[0] == all[i as int]);
        if specs[i].role == role {
            return Some(i);
        }
        assert(rest.drop_first() =~= all.skip(i + 1));
        i += 1;
    }
    assert(all.skip(i as int).len() == 0);
    None
}

/// Inserts a framerate-pinning `capssetter` after the decoder, as `with_rate_setter` says.
pub fn insert_requested_fps_capssetter(
    specs: &mut Vec<RtpVideoChainSpec>,
    requested_fps: Option<u32>,
    capssetter_available: bool,
)
    ensures
        chain_view(final(specs)@) == with_rate_setter(
            chain_view(old(specs)@),
            requested_fps,
            capssetter_available,
        ),
{
    let fps = match requested_fps {
        Some(fps) => fps,
        None => return ,
    };
    if fps == 0 || !capssetter_available {
        return ;
    }
    let decoder_index = match find_role(specs, RtpVideoChainRole::Decoder) {
        Some(i) => i,
        None => return ,
    };
    proof {
        lemma_role_index(chain_view(specs@), RtpVideoChainRole::Decoder);
        assert(chain_view(specs@).len() == specs@.len());
    }
    assert(decoder_index < specs.len());
    let mut caps = String::new();
    append_str(&mut caps, "video/x-raw,framerate=(fraction)");
    append_decimal(&mut caps, fps as u64);
    append_str(&mut caps, "/1");
    let ghost before = chain_view(specs@);
    let element = RtpVideoChainSpec::with_caps(
        "capssetter",
        RtpVideoChainRole::PostDecodeRateSetter,
        caps,
    );
    specs.insert(decoder_index + 1, element);
    assert(chain_view(specs@) =~= before.insert(decoder_index + 1, element@));
}

/// Drops the statistics overlays whose factory is not installed.
pub fn retain_installed_overlays(specs: Vec<RtpVideoChainSpec>, available: &Vec<String>) -> (r: Vec<
    RtpVideoChainSpec,
>)
    ensures
        chain_view(r@) == without_missing_overlays(chain_view(specs@), available@),
{
    let mut kept: Vec<RtpVideoChainSpec> = Vec::new();
    let mut i: usize = 0;
    while i < specs.len()
        invariant
            0 <= i <= specs.len(),
            chain_view(kept@) == without_missing_overlays(chain_view(specs@).take(i as int), available@),
        decreases specs.len() - i,
    {
        let e = specs[i].duplicate();
        let ghost prefix = chain_view(specs@).take(i + 1);
        assert(prefix.drop_last() =~= chain_view(specs@).take(i as int));
        assert(prefix.last() == specs@[i as int]@);
        if e.role != RtpVideoChainRole::StatsOverlay || is_factory_available(available, e.factory) {
            kept.push(e);
            assert(chain_view(kept@) =~= without_missing_overlays(prefix, available@));
        }
        i += 1;
    }
    assert(chain_view(specs@).take(specs.len() as int) =~= chain_view(specs@));
    kept
}

/// The chain `video_api` can build for `encoding` on this machine, if it can build one.
pub fn chain_for_video_api(
    encoding: &str,
    video_api: RtpVideoApi,
    requested_fps: Option<u32>,
    zero_copy: bool,
    available: &Vec<String>,
) -> (r: Option<Vec<RtpVideoChainSpec>>)
    ensures
        r matches Some(v) ==> chain_for_api(encoding@, video_api, requested_fps, zero_copy, available@)
            == Some(chain_view(v@)),
        r is None ==> chain_for_api(encoding@, video_api, requested_fps, zero_copy, available@) is None,
{
    let raw = chars_of(encoding);
    let upper = ascii_upper_exec(&raw);
    let codec = classify_codec(&upper);
    let decoder = match select_decoder_factory(video_api, codec, available) {
        Some(d) => d,
        None => return None,
    };
    let sink = match select_sink_factory(video_api, available) {
        Some(s) => s,
        None => return None,
    };
    let mut specs = match rtp_video_chain_definition(encoding, video_api, zero_copy) {
        Some(specs) => specs,
        None => return None,
    };
    replace_selected(&mut specs, decoder, sink);
    let capssetter_available = is_factory_available(available, "capssetter");
    insert_requested_fps_capssetter(&mut specs, requested_fps, capssetter_available);
    let specs = retain_installed_overlays(specs, available);
    if required_video_chain_elements_available(&specs, available) {
        Some(specs)
    } else {
        None
    }
}

/// Picks the first preferred backend that can build a decode chain for `encoding` on this
/// machine, and that chain. `requested_backend` is the user's backend override, if any.
pub fn rtp_video_chain_specs(
    encoding: &str,
    requested_fps: Option<u32>,
    requested_backend: Option<&str>,
    platform: TargetPlatform,
    zero_copy: bool,
    available: &Vec<String>,
) -> (r: Option<(RtpVideoApi, Vec<RtpVideoChainSpec>)>)
    ensures
        ({
            let apis = preferred_apis(
                match requested_backend {
                    Some(s) => Some(s@),
                    None => None,
                },
                platform,
                requested_fps,
            );
            let expected = first_buildable(encoding@, apis, requested_fps, zero_copy, available@);
            &&& r matches Some((api, v)) ==> expected == Some((api, chain_view(v@)))
            &&& r is None ==> expected is None
        }),
{
    let apis = preferred_rtp_video_apis(requested_backend, platform, requested_fps);
    let mut i: usize = 0;
    assert(apis@.skip(0) =~= apis@);
    while i < apis.len()
        invariant
            0 <= i <= apis.len(),
            apis@ == preferred_apis(
                match requested_backend {
                    Some(s) => Some(s@),
                    None => None,
                },
                platform,
                requested_fps,
            ),
            first_buildable(encoding@, apis@, requested_fps, zero_copy, available@) == first_buildable(
                encoding@,
                apis@.skip(i as int),
                requested_fps,
                zero_copy,
                available@,
            ),
        decreases apis.len() - i,
    {
        let ghost rest = apis@.skip(i as int);
        assert(rest[0] == apis@[i as int]);
        if let Some(specs) = chain_for_video_api(encoding, apis[i], requested_fps, zero_copy, available) {
            assert(rest.len() > 0);
            assert(first_buildable(encoding@, rest, requested_fps, zero_copy, available@) == Some(
                (apis@[i as int], chain_view(specs@)),
            ));
            return Some((apis[i], specs));
        }
        assert(rest.drop_first() =~= apis@.skip(i + 1));
        i += 1;
    }
    assert(apis@.skip(i as int).len() == 0);
    None
}

/// The chain picked for a stream has every element installed, comes from one of the
/// preferred backends, and every backend preferred before it cannot build a chain.
pub proof fn law_picked_chain_is_installed_and_first(
    encoding: Seq<char>,
    apis: Seq<RtpVideoApi>,
    requested_fps: Option<u32>,
    zero_copy: bool,
    available: Seq<String>,
)
    ensures
        first_buildable(encoding, apis, requested_fps, zero_copy, available) matches Some((api, chain))
            ==> {
            &&& all_installed(chain, available)
            &&& exists|k: int|
                0 <= k < apis.len() && apis[k] == api && forall|j: int|
                    0 <= j < k ==> chain_for_api(encoding, #[trigger] apis[j], requested_fps, zero_copy, available)
                        is None
        },
    decreases apis.len(),
{
    if apis.len() > 0 {
        match chain_for_api(encoding, apis[0], requested_fps, zero_copy, available) {
            Some(chain) => {
                assert(apis[0] == apis[0]);
            },
            None => {
                let rest = apis.drop_first();
                law_picked_chain_is_installed_and_first(encoding, rest, requested_fps, zero_copy, available);
                if let Some((api, chain)) = first_buildable(encoding, rest, requested_fps, zero_copy, available) {
                    let k = choose|k: int|
                        0 <= k < rest.len() && rest[k] == api && forall|j: int|
                            0 <= j < k ==> chain_for_api(encoding, #[trigger] rest[j], requested_fps, zero_copy, available)
                                is None;
                    assert forall|j: int| 0 <= j < k + 1 implies chain_for_api(
                        encoding,
                        #[trigger] apis[j],
                        requested_fps,
                        zero_copy,
                        available,
                    ) is None by {
                        if j > 0 {
                            assert(apis[j] == rest[j - 1]);
                        }
                    }
                    assert(apis[k + 1] == api);
                }
            },
        }
    }
}

} // verus!
