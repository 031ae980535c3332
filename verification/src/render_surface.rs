//! The render surface the controlling process hands over: window handle and rectangle.
use vstd::prelude::*;
use crate::numbers::{IntErrorKind, parse_unsigned, parse_unsigned_range, spec_int_error_message, int_error_message};
use crate::text::{append_str, chars_of, debug_quoted, debug_text, matches_at, trim, trim_bounds};

verus! {

/// A rectangle in window coordinates.
#[derive(Debug, Clone, Copy, PartialEq, Eq, Structural)]
pub struct NativeRenderRect {
    pub x: i32,
    pub y: i32,
    pub width: i32,
    pub height: i32,
}

/// Where and whether native video is rendered.
#[derive(Debug, Clone)]
pub struct NativeRenderSurface {
    pub window_handle: Option<String>,
    pub rect: Option<NativeRenderRect>,
    pub visible: bool,
    pub show_stats: bool,
}

pub open spec fn max_i32(a: i32, b: i32) -> i32 {
    if a >= b {
        a
    } else {
        b
    }
}

/// The render rectangle actually used: the given one with its position clamped to be
/// non-negative and its size to at least 2x2, or a 2x2 rectangle at the origin when none.
pub open spec fn spec_normalized_rect(rect: Option<NativeRenderRect>) -> NativeRenderRect {
    match rect {
        None => NativeRenderRect { x: 0, y: 0, width: 2, height: 2 },
        Some(r) => NativeRenderRect {
            x: max_i32(r.x, 0),
            y: max_i32(r.y, 0),
            width: max_i32(r.width, 2),
            height: max_i32(r.height, 2),
        },
    }
}

fn max_i32_exec(a: i32, b: i32) -> (r: i32)
    ensures
        r == max_i32(a, b),
{
    if a >= b {
        a
    } else {
        b
    }
}

pub fn normalized_render_rect(rect: Option<NativeRenderRect>) -> (r: NativeRenderRect)
    ensures
        r == spec_normalized_rect(rect),
{
    match rect {
        None => NativeRenderRect { x: 0, y: 0, width: 2, height: 2 },
        Some(rect) => NativeRenderRect {
            x: max_i32_exec(rect.x, 0),
            y: max_i32_exec(rect.y, 0),
            width: max_i32_exec(rect.width, 2),
            height: max_i32_exec(rect.height, 2),
        },
    }
}

/// The rectangle the sink renders into: the surface's rectangle while it is visible, the
/// minimal one otherwise.
pub fn surface_render_rect(surface: &NativeRenderSurface) -> (r: NativeRenderRect)
    ensures
        r == spec_normalized_rect(
            if surface.visible {
                surface.rect
            } else {
                None
            },
        ),
{
    normalized_render_rect(
        if surface.visible {
            surface.rect
        } else {
            None
        },
    )
}

/// Whether the statistics overlay shows: only on a visible surface that asks for it.
pub fn stats_overlay_visible(surface: &NativeRenderSurface) -> (r: bool)
    ensures
        r == (surface.visible && surface.show_stats),
{
    surface.visible && surface.show_stats
}

/// The digits of a window handle and their base: after a `0x` or `0X` prefix in base 16,
/// else the whole text in base 10.
pub open spec fn handle_digits(trimmed: Seq<char>) -> (Seq<char>, nat) {
    if matches_at(trimmed, "0x"@, 0) || matches_at(trimmed, "0X"@, 0) {
        (trimmed.subrange(2, trimmed.len() as int), 16)
    } else {
        (trimmed, 10)
    }
}

/// The message for a handle text that does not parse, given the text already quoted.
pub open spec fn spec_invalid_handle_message(quoted: Seq<char>, kind: IntErrorKind) -> Seq<char> {
    "Invalid native render window handle "@ + quoted + ": "@ + spec_int_error_message(kind)
}

/// Builds the message for a handle text that does not parse, from its quoted rendering.
pub fn invalid_window_handle_message(quoted: &str, kind: IntErrorKind) -> (r: String)
    ensures
        r@ == spec_invalid_handle_message(quoted@, kind),
{
    let mut m = String::from_str("Invalid native render window handle ");
    append_str(&mut m, quoted);
    append_str(&mut m, ": ");
    append_str(&mut m, int_error_message(kind));
    m
}

/// What a window handle text reads as: the handle, or the error message.
pub open spec fn spec_window_handle(value: Seq<char>) -> Result<nat, Seq<char>> {
    let (digits, radix) = handle_digits(trim(value));
    match parse_unsigned(digits, radix, usize::MAX as nat) {
        Err(kind) => Err(spec_invalid_handle_message(debug_quoted(value), kind)),
        Ok(n) => if n == 0 {
            Err("Native render window handle is zero."@)
        } else {
            Ok(n)
        },
    }
}

/// Reads a native window handle given in decimal or `0x`-prefixed hexadecimal.
pub fn parse_window_handle(value: &str) -> (r: Result<usize, String>)
    ensures
        match (r, spec_window_handle(value@)) {
            (Ok(a), Ok(b)) => a as nat == b,
            (Err(a), Err(b)) => a@ == b,
            _ => false,
        },
{
    let v = chars_of(value);
    let (start, end) = trim_bounds(&v, 0, v.len());
    assert(v@.subrange(0, v@.len() as int) =~= v@);
    let ghost trimmed = v@.subrange(start as int, end as int);
    let lower_x = chars_of("0x");
    let upper_x = chars_of("0X");
    let hex = end - start >= 2 && v[start] == '0' && (v[start + 1] == 'x' || v[start + 1] == 'X');
    proof {
        reveal_strlit("0x");
        reveal_strlit("0X");
        assert("0x"@ =~= seq!['0', 'x']);
        assert("0X"@ =~= seq!['0', 'X']);
        if end - start >= 2 {
            assert(trimmed.subrange(0, 2) =~= seq![v@[start as int], v@[start + 1]]);
        }
        assert(hex == (matches_at(trimmed, "0x"@, 0) || matches_at(trimmed, "0X"@, 0)));
    }
    let parsed = if hex {
        assert(v@.subrange(start + 2, end as int) =~= trimmed.subrange(2, trimmed.len() as int));
        parse_unsigned_range(&v, start + 2, end, 16, usize::MAX as u64)
    } else {
        parse_unsigned_range(&v, start, end, 10, usize::MAX as u64)
    };
    match parsed {
        Err(kind) => {
            let quoted = debug_text(value);
            Err(invalid_window_handle_message(quoted.as_str(), kind))
        },
        Ok(n) => {
            if n == 0 {
                Err(String::from_str("Native render window handle is zero."))
            } else {
                Ok(n as usize)
            }
        },
    }
}

} // verus!
