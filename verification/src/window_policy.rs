//! The external renderer window: which top-level window of the process is the renderer, the
//! styles it is given, where it is placed, and how its window messages are routed.
use vstd::prelude::*;
use crate::keyboard::{is_escape_keyboard_message, legacy_mouse_button};

verus! {

pub const WS_CAPTION: isize = 0x00C0_0000;
pub const WS_MAXIMIZEBOX: isize = 0x0001_0000;
pub const WS_MINIMIZEBOX: isize = 0x0002_0000;
pub const WS_SYSMENU: isize = 0x0008_0000;
pub const WS_THICKFRAME: isize = 0x0004_0000;
pub const WS_EX_NOACTIVATE: isize = 0x0800_0000;
pub const WS_EX_TOOLWINDOW: isize = 0x0000_0080;
pub const WS_EX_TRANSPARENT: isize = 0x0000_0020;
pub const WM_NCHITTEST: u32 = 0x0084;
pub const WM_MOUSEACTIVATE: u32 = 0x0021;
pub const WM_SETCURSOR: u32 = 0x0020;
pub const WM_INPUT: u32 = 0x00FF;
pub const WM_KILLFOCUS: u32 = 0x0008;
pub const WM_ACTIVATE: u32 = 0x0006;

/// The smallest renderer window considered, in pixels.
pub const MIN_RENDERER_WIDTH: i32 = 320;
pub const MIN_RENDERER_HEIGHT: i32 = 180;

/// `a - b` in `i32`, saturating at the bounds.
pub open spec fn sat_sub_i32(a: i32, b: i32) -> i32 {
    let d = a - b;
    if d > i32::MAX {
        i32::MAX
    } else if d < i32::MIN {
        i32::MIN
    } else {
        d as i32
    }
}

pub fn saturating_sub_i32(a: i32, b: i32) -> (r: i32)
    ensures
        r == sat_sub_i32(a, b),
{
    let d = a as i64 - b as i64;
    if d > i32::MAX as i64 {
        i32::MAX
    } else if d < i32::MIN as i64 {
        i32::MIN
    } else {
        d as i32
    }
}

/// The area a window counts with as renderer candidate: a visible, non-minimised, unowned
/// window of this process that is neither a tool window nor non-activating, at least
/// 320x180 pixels large.
pub open spec fn spec_candidate_area(
    same_process: bool,
    visible: bool,
    iconic: bool,
    has_owner: bool,
    ex_style: isize,
    rect: Option<(i32, i32, i32, i32)>,
) -> Option<i64> {
    if !same_process || !visible || iconic || has_owner {
        None
    } else if ex_style & (WS_EX_TOOLWINDOW | WS_EX_NOACTIVATE) != 0 {
        None
    } else {
        match rect {
            None => None,
            Some((left, top, right, bottom)) => {
                let width = sat_sub_i32(right, left);
                let height = sat_sub_i32(bottom, top);
                if width < MIN_RENDERER_WIDTH || height < MIN_RENDERER_HEIGHT {
                    None
                } else {
                    Some((width * height) as i64)
                }
            },
        }
    }
}

/// Whether a window is a renderer candidate, and with which area; `rect` is its window
/// rectangle (left, top, right, bottom), none when it could not be read.
pub fn renderer_candidate_area(
    same_process: bool,
    visible: bool,
    iconic: bool,
    has_owner: bool,
    ex_style: isize,
    rect: Option<(i32, i32, i32, i32)>,
) -> (r: Option<i64>)
    ensures
        r == spec_candidate_area(same_process, visible, iconic, has_owner, ex_style, rect),
{
    if !same_process || !visible || iconic || has_owner {
        return None;
    }
    if ex_style & (WS_EX_TOOLWINDOW | WS_EX_NOACTIVATE) != 0 {
        return None;
    }
    match rect {
        None => None,
        Some((left, top, right, bottom)) => {
            let width = saturating_sub_i32(right, left);
            let height = saturating_sub_i32(bottom, top);
            if width < MIN_RENDERER_WIDTH || height < MIN_RENDERER_HEIGHT {
                None
            } else {
                assert(0 <= width * height <= i32::MAX * i32::MAX) by (nonlinear_arith)
                    requires
                        MIN_RENDERER_WIDTH <= width <= i32::MAX,
                        MIN_RENDERER_HEIGHT <= height <= i32::MAX,
                ;
                Some(width as i64 * height as i64)
            }
        },
    }
}

/// The position of the chosen window among `candidates`: one with the largest area, the last
/// such when several tie.
pub open spec fn is_pick(candidates: Seq<(usize, i64)>, i: int) -> bool {
    &&& 0 <= i < candidates.len()
    &&& forall|j: int| 0 <= j < candidates.len() ==> candidates[j].1 <= candidates[i].1
    &&& forall|j: int| i < j < candidates.len() ==> candidates[j].1 < candidates[i].1
}

/// Picks the renderer among the candidates (window, area): the largest, the last one among
/// equals; none without candidates.
pub fn pick_renderer_window(candidates: &Vec<(usize, i64)>) -> (r: Option<usize>)
    ensures
        candidates.len() == 0 <==> r is None,
        r matches Some(i) ==> is_pick(candidates@, i as int),
{
    if candidates.len() == 0 {
        return None;
    }
    let mut best: usize = 0;
    let mut i: usize = 1;
    while i < candidates.len()
        invariant
            1 <= i <= candidates.len(),
            best < i,
            forall|j: int| 0 <= j < i ==> candidates@[j].1 <= candidates@[best as int].1,
            forall|j: int| best < j < i ==> candidates@[j].1 < candidates@[best as int].1,
        decreases candidates.len() - i,
    {
        if candidates[i].1 >= candidates[best].1 {
            best = i;
        }
        i += 1;
    }
    Some(best)
}

/// The extended style of the renderer: no longer non-activating or click-through.
pub open spec fn spec_renderer_ex_style(ex_style: isize) -> isize {
    ex_style & !(WS_EX_NOACTIVATE | WS_EX_TRANSPARENT)
}

/// The style of the renderer: no caption, sizing frame, minimise or maximise box, or menu.
pub open spec fn spec_renderer_style(style: isize) -> isize {
    style & !(WS_CAPTION | WS_THICKFRAME | WS_MINIMIZEBOX | WS_MAXIMIZEBOX | WS_SYSMENU)
}

/// The styles the renderer window is given, from its current extended style and style.
pub fn renderer_window_styles(ex_style: isize, style: isize) -> (r: (isize, isize))
    ensures
        r == (spec_renderer_ex_style(ex_style), spec_renderer_style(style)),
{
    (
        ex_style & !(WS_EX_NOACTIVATE | WS_EX_TRANSPARENT),
        style & !(WS_CAPTION | WS_THICKFRAME | WS_MINIMIZEBOX | WS_MAXIMIZEBOX | WS_SYSMENU),
    )
}

pub open spec fn max2(v: i32) -> i32 {
    if v >= 2 {
        v
    } else {
        2
    }
}

/// Where the renderer is placed on its monitor (left, top, right, bottom): at the monitor's
/// corner, as large as the monitor and at least 2x2.
pub open spec fn spec_placement(monitor: (i32, i32, i32, i32)) -> (i32, i32, i32, i32) {
    (
        monitor.0,
        monitor.1,
        max2(sat_sub_i32(monitor.2, monitor.0)),
        max2(sat_sub_i32(monitor.3, monitor.1)),
    )
}

/// The renderer's position and size (x, y, width, height) on its monitor.
pub fn renderer_placement(monitor: (i32, i32, i32, i32)) -> (r: (i32, i32, i32, i32))
    ensures
        r == spec_placement(monitor),
{
    let width = saturating_sub_i32(monitor.2, monitor.0);
    let height = saturating_sub_i32(monitor.3, monitor.1);
    (monitor.0, monitor.1, if width >= 2 { width } else { 2 }, if height >= 2 { height } else { 2 })
}

/// What the renderer window does with a message.
#[derive(Debug, Clone, Copy, PartialEq, Eq, Structural)]
pub enum WindowMessageRoute {
    /// Hit-testing: the whole window is client area.
    HitTestClient,
    /// A click activates the window: input capture begins.
    ActivateWithCapture,
    /// While captured, the cursor is hidden.
    HideCursor,
    /// Raw input: decoded as keyboard or mouse input.
    RawInput,
    /// Escape, through legacy keyboard messages; capture begins first when it is off.
    Escape { begin_capture: bool },
    /// Anything else goes to the previous window procedure, after releasing the capture when
    /// focus is lost, and after capturing on a first click (which is forwarded as input).
    PassOn { release_capture: bool, capture_click: Option<u8> },
}

/// How a message is routed, given whether input is captured.
pub open spec fn spec_route(message: u32, wparam: usize, captured: bool) -> WindowMessageRoute {
    if message == WM_NCHITTEST {
        WindowMessageRoute::HitTestClient
    } else if message == WM_MOUSEACTIVATE {
        WindowMessageRoute::ActivateWithCapture
    } else if message == WM_SETCURSOR && captured {
        WindowMessageRoute::HideCursor
    } else if message == WM_INPUT {
        WindowMessageRoute::RawInput
    } else if crate::keyboard::is_key_message(message) && wparam as u16 == crate::keyboard::VK_ESCAPE {
        WindowMessageRoute::Escape { begin_capture: !captured }
    } else {
        let release = message == WM_KILLFOCUS || (message == WM_ACTIVATE && wparam & 0xffff == 0);
        WindowMessageRoute::PassOn {
            release_capture: release,
            capture_click: match crate::keyboard::spec_legacy_mouse_button(message, wparam) {
                Some((button, pressed)) => if pressed && !captured {
                    Some(button)
                } else {
                    None
                },
                None => None,
            },
        }
    }
}

pub fn route_window_message(message: u32, wparam: usize, captured: bool) -> (r: WindowMessageRoute)
    ensures
        r == spec_route(message, wparam, captured),
{
    if message == WM_NCHITTEST {
        return WindowMessageRoute::HitTestClient;
    }
    if message == WM_MOUSEACTIVATE {
        return WindowMessageRoute::ActivateWithCapture;
    }
    if message == WM_SETCURSOR && captured {
        return WindowMessageRoute::HideCursor;
    }
    if message == WM_INPUT {
        return WindowMessageRoute::RawInput;
    }
    if is_escape_keyboard_message(message, wparam) {
        return WindowMessageRoute::Escape { begin_capture: !captured };
    }
    let release = message == WM_KILLFOCUS || (message == WM_ACTIVATE && wparam & 0xffff == 0);
    let capture_click = match legacy_mouse_button(message, wparam) {
        Some((button, pressed)) => if pressed && !captured {
            Some(button)
        } else {
            None
        },
        None => None,
    };
    WindowMessageRoute::PassOn { release_capture: release, capture_click }
}

/// How many times the guard looks for the renderer window.
pub const RENDERER_GUARD_ATTEMPTS: u32 = 200;

/// One look of the renderer guard: whether to log that the window was configured (the first
/// time only), whether it is logged from now on, and how long to sleep before the next look.
pub fn renderer_guard_step(logged: bool, configured: bool) -> (r: (bool, bool, u64))
    ensures
        r.0 == (configured && !logged),
        r.1 == (logged || configured),
        r.2 == if r.1 {
            500u64
        } else {
            100u64
        },
{
    let log_now = configured && !logged;
    let now_logged = logged || configured;
    (log_now, now_logged, if now_logged { 500 } else { 100 })
}

} // verus!
