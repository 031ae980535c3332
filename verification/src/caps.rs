//! Reading what the video caps strings say: framerate, memory mode, zero-copy paths.
use vstd::prelude::*;
use crate::text::{
    chars_of, contains_exec, contains_sub, eq_lit, find, find_char_from, find_from, find_from_exec,
    lemma_find_from, matches_at, string_of_range, trim, trim_bounds,
};

verus! {

/// The marker that precedes a framerate value in a caps string.
pub open spec fn framerate_marker() -> Seq<char> {
    "framerate=(fraction)"@
}

/// Where the framerate value that starts at `start` ends: the first `;` or `,` after it,
/// or the end of the caps.
pub open spec fn framerate_value_end(caps: Seq<char>, start: int) -> int {
    match (find_from(caps, seq![';'], start), find_from(caps, seq![','], start)) {
        (Some(a), Some(b)) => if a <= b {
            a
        } else {
            b
        },
        (Some(a), None) => a,
        (None, Some(b)) => b,
        (None, None) => caps.len() as int,
    }
}

/// The framerate the caps announce: the trimmed text after the first
/// `framerate=(fraction)` up to the next `;` or `,`.
pub open spec fn caps_framerate(caps: Seq<char>) -> Option<Seq<char>> {
    match find(caps, framerate_marker()) {
        None => None,
        Some(i) => {
            let start = i + framerate_marker().len();
            Some(trim(caps.subrange(start, framerate_value_end(caps, start))))
        },
    }
}

/// Extracts the framerate summary (such as `240/1`) from a caps string.
pub fn caps_framerate_summary(caps: &str) -> (r: Option<String>)
    ensures
        r matches Some(s) ==> caps_framerate(caps@) == Some(s@),
        r is None ==> caps_framerate(caps@) is None,
{
    let v = chars_of(caps);
    let marker = chars_of("framerate=(fraction)");
    let found = find_from_exec(&v, &marker, 0);
    match found {
        None => None,
        Some(i) => {
            assert(matches_at(v@, marker@, i as int));
            assert(i + marker@.len() <= v@.len());
            assert(marker@.len() == marker.len());
            assert(v@.len() == v.len());
            assert(i + marker.len() <= v.len());
            let start = i + marker.len();
            let semicolon = find_char_from(&v, ';', start);
            let comma = find_char_from(&v, ',', start);
            proof {
                lemma_find_from(v@, seq![';'], start as int);
                lemma_find_from(v@, seq![','], start as int);
            }
            let end = match (semicolon, comma) {
                (Some(left), Some(right)) => if left <= right {
                    left
                } else {
                    right
                },
                (Some(index), None) => index,
                (None, Some(index)) => index,
                (None, None) => v.len(),
            };
            let (a, b) = trim_bounds(&v, start, end);
            Some(string_of_range(&v, a, b))
        },
    }
}

/// The memory kind that decoded frames with these caps live in.
pub open spec fn memory_mode_of(caps: Seq<char>) -> Seq<char> {
    if contains_sub(caps, "memory:D3D12Memory"@) {
        "D3D12Memory"@
    } else if contains_sub(caps, "memory:D3D11Memory"@) {
        "D3D11Memory"@
    } else if contains_sub(caps, "memory:VulkanImage"@) {
        "VulkanImage"@
    } else if contains_sub(caps, "memory:VAMemory"@) {
        "VAMemory"@
    } else if contains_sub(caps, "memory:GLMemory"@) {
        "GLMemory"@
    } else {
        "system-memory"@
    }
}

/// Names the memory kind of a caps string; `system-memory` when no GPU memory feature is present.
pub fn memory_mode_from_caps(caps: &str) -> (r: &'static str)
    ensures
        r@ == memory_mode_of(caps@),
{
    let v = chars_of(caps);
    if contains_exec(&v, "memory:D3D12Memory") {
        "D3D12Memory"
    } else if contains_exec(&v, "memory:D3D11Memory") {
        "D3D11Memory"
    } else if contains_exec(&v, "memory:VulkanImage") {
        "VulkanImage"
    } else if contains_exec(&v, "memory:VAMemory") {
        "VAMemory"
    } else if contains_exec(&v, "memory:GLMemory") {
        "GLMemory"
    } else {
        "system-memory"
    }
}

/// Whether a memory mode keeps frames in GPU memory.
pub open spec fn is_zero_copy_mode(mode: Seq<char>) -> bool {
    ||| mode == "D3D12Memory"@
    ||| mode == "D3D11Memory"@
    ||| mode == "VulkanImage"@
    ||| mode == "VAMemory"@
    ||| mode == "GLMemory"@
}

/// Whether the named memory mode is a zero-copy (GPU memory) mode.
pub fn is_zero_copy_memory_mode(memory_mode: &str) -> (r: bool)
    ensures
        r == is_zero_copy_mode(memory_mode@),
{
    let v = chars_of(memory_mode);
    eq_lit(&v, "D3D12Memory") || eq_lit(&v, "D3D11Memory") || eq_lit(&v, "VulkanImage") || eq_lit(
        &v,
        "VAMemory",
    ) || eq_lit(&v, "GLMemory")
}

/// What one look at a caps string tells: the memory mode, its framerate, and whether the
/// frames sit in D3D11 or D3D12 memory.
pub struct CapsObservation {
    pub memory_mode: &'static str,
    pub framerate: Option<String>,
    pub zero_copy_d3d11: bool,
    pub zero_copy_d3d12: bool,
}

/// Reads everything the liveness state records of a caps string.
pub fn observe_caps(caps: &str) -> (r: CapsObservation)
    ensures
        r.memory_mode@ == memory_mode_of(caps@),
        r.framerate matches Some(s) ==> caps_framerate(caps@) == Some(s@),
        r.framerate is None ==> caps_framerate(caps@) is None,
        r.zero_copy_d3d11 == contains_sub(caps@, "memory:D3D11Memory"@),
        r.zero_copy_d3d12 == contains_sub(caps@, "memory:D3D12Memory"@),
{
    let v = chars_of(caps);
    CapsObservation {
        memory_mode: memory_mode_from_caps(caps),
        framerate: caps_framerate_summary(caps),
        zero_copy_d3d11: contains_exec(&v, "memory:D3D11Memory"),
        zero_copy_d3d12: contains_exec(&v, "memory:D3D12Memory"),
    }
}

} // verus!
