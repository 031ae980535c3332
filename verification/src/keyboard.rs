//! Keyboard and mouse decoding for the captured native renderer window: virtual-key and
//! scancode normalisation, the pressed-key set with its modifier flags, and the Escape
//! hold-to-minimise state.
use vstd::prelude::*;

verus! {

pub const VK_TAB: u16 = 0x09;

pub const VK_SHIFT: u16 = 0x10;

pub const VK_CONTROL: u16 = 0x11;

pub const VK_MENU: u16 = 0x12;

pub const VK_ESCAPE: u16 = 0x1B;

pub const VK_LWIN: u16 = 0x5B;

pub const VK_RWIN: u16 = 0x5C;

pub const VK_LSHIFT: u16 = 0xA0;

pub const VK_RSHIFT: u16 = 0xA1;

pub const VK_LCONTROL: u16 = 0xA2;

pub const VK_RCONTROL: u16 = 0xA3;

pub const VK_LMENU: u16 = 0xA4;

pub const VK_RMENU: u16 = 0xA5;

pub const RI_KEY_BREAK: u16 = 0x0001;

pub const RI_KEY_E0: u16 = 0x0002;

pub const RI_KEY_E1: u16 = 0x0004;

pub const WM_KEYDOWN: u32 = 0x0100;

pub const WM_KEYUP: u32 = 0x0101;

pub const WM_SYSKEYDOWN: u32 = 0x0104;

pub const WM_SYSKEYUP: u32 = 0x0105;

pub const WM_LBUTTONDOWN: u32 = 0x0201;

pub const WM_LBUTTONUP: u32 = 0x0202;

pub const WM_RBUTTONDOWN: u32 = 0x0204;

pub const WM_RBUTTONUP: u32 = 0x0205;

pub const WM_MBUTTONDOWN: u32 = 0x0207;

pub const WM_MBUTTONUP: u32 = 0x0208;

pub const WM_XBUTTONDOWN: u32 = 0x020B;

pub const WM_XBUTTONUP: u32 = 0x020C;

pub const XBUTTON1: u16 = 0x0001;

pub const XBUTTON2: u16 = 0x0002;

pub const RI_MOUSE_WHEEL: u16 = 0x0400;

/// The scancode Escape is reported with when the keyboard gives none.
pub const ESCAPE_SCANCODE: u16 = 0x0001;

pub open spec fn spec_normalize_virtual_key(vkey: u16, make_code: u16, flags: u16) -> u16 {
    if vkey == VK_SHIFT {
        if make_code == 0x36 {
            VK_RSHIFT
        } else {
            VK_LSHIFT
        }
    } else if vkey == VK_CONTROL {
        if flags & RI_KEY_E0 != 0 {
            VK_RCONTROL
        } else {
            VK_LCONTROL
        }
    } else if vkey == VK_MENU {
        if flags & RI_KEY_E0 != 0 {
            VK_RMENU
        } else {
            VK_LMENU
        }
    } else {
        vkey
    }
}

/// Left and right modifiers are told apart: Control (0x11) becomes right Control (0xA3)
/// exactly when the report carries the E0 prefix (flag 0x0002) and left Control (0xA2)
/// otherwise; Alt (0x12) likewise becomes right (0xA5) or left (0xA4) Alt; Shift (0x10)
/// becomes right Shift (0xA1) for the right Shift make code 0x36 and left Shift (0xA0)
/// otherwise; every other key keeps its code. A decoded key report carries that code.
pub proof fn law_modifiers_keep_their_side(vkey: u16, make_code: u16, flags: u16, message: u32)
    ensures
        ({
            let k = spec_normalize_virtual_key(vkey, make_code, flags);
            let e0 = (flags & 0x0002u16) != 0;
            &&& vkey == 0x11 ==> k == if e0 { 0xA3u16 } else { 0xA2u16 }
            &&& vkey == 0x12 ==> k == if e0 { 0xA5u16 } else { 0xA4u16 }
            &&& vkey == 0x10 ==> k == if make_code == 0x36 { 0xA1u16 } else { 0xA0u16 }
            &&& (vkey != 0x10 && vkey != 0x11 && vkey != 0x12) ==> k == vkey
            &&& spec_decode_raw_keyboard(vkey, make_code, flags, message) matches Some(d) ==> d.0 == k
        }),
{
}

/// Tells left and right Shift, Control and Alt apart.
pub fn normalize_virtual_key(vkey: u16, make_code: u16, flags: u16) -> (r: u16)
    ensures
        r == spec_normalize_virtual_key(vkey, make_code, flags),
{
    match vkey {
        VK_SHIFT => if make_code == 0x36 {
            VK_RSHIFT
        } else {
            VK_LSHIFT
        },
        VK_CONTROL => if (flags & RI_KEY_E0) != 0 {
            VK_RCONTROL
        } else {
            VK_LCONTROL
        },
        VK_MENU => if (flags & RI_KEY_E0) != 0 {
            VK_RMENU
        } else {
            VK_LMENU
        },
        _ => vkey,
    }
}

pub open spec fn spec_normalize_scancode(make_code: u16, flags: u16) -> u16 {
    if make_code == 0 {
        0
    } else if flags & RI_KEY_E0 != 0 {
        0xe000 | make_code
    } else if flags & RI_KEY_E1 != 0 {
        0xe100 | make_code
    } else {
        make_code
    }
}

/// The scancode with its extended-key prefix (`0xE0` or `0xE1`) in the high byte.
pub fn normalize_scancode(make_code: u16, flags: u16) -> (r: u16)
    ensures
        r == spec_normalize_scancode(make_code, flags),
{
    if make_code == 0 {
        return 0;
    }
    if (flags & RI_KEY_E0) != 0 {
        0xe000 | make_code
    } else if (flags & RI_KEY_E1) != 0 {
        0xe100 | make_code
    } else {
        make_code
    }
}

pub open spec fn spec_legacy_keyboard_scancode(lparam: isize) -> u16 {
    let scancode = ((lparam >> 16) & 0xff) as u16;
    if scancode == 0 {
        0
    } else if (lparam >> 24) & 0x01 != 0 {
        0xe000 | scancode
    } else {
        scancode
    }
}

/// The scancode of a legacy keyboard message: bits 16 to 23 of `lparam`, with the `0xE0`
/// prefix when bit 24 (extended key) is set.
pub fn legacy_keyboard_scancode(lparam: isize) -> (r: u16)
    ensures
        r == spec_legacy_keyboard_scancode(lparam),
{
    let scancode = ((lparam >> 16) & 0xff) as u16;
    if scancode == 0 {
        return 0;
    }
    if ((lparam >> 24) & 0x01) != 0 {
        0xe000 | scancode
    } else {
        scancode
    }
}

pub open spec fn is_key_message(message: u32) -> bool {
    message == WM_KEYDOWN || message == WM_KEYUP || message == WM_SYSKEYDOWN || message
        == WM_SYSKEYUP
}

/// Whether a window message is a key message for Escape.
pub fn is_escape_keyboard_message(message: u32, wparam: usize) -> (r: bool)
    ensures
        r == (is_key_message(message) && wparam as u16 == VK_ESCAPE),
{
    (message == WM_KEYDOWN || message == WM_KEYUP || message == WM_SYSKEYDOWN || message
        == WM_SYSKEYUP) && (wparam as u16) == VK_ESCAPE
}

pub open spec fn spec_legacy_mouse_button(message: u32, wparam: usize) -> Option<(u8, bool)> {
    if message == WM_LBUTTONDOWN {
        Some((1, true))
    } else if message == WM_LBUTTONUP {
        Some((1, false))
    } else if message == WM_MBUTTONDOWN {
        Some((2, true))
    } else if message == WM_MBUTTONUP {
        Some((2, false))
    } else if message == WM_RBUTTONDOWN {
        Some((3, true))
    } else if message == WM_RBUTTONUP {
        Some((3, false))
    } else if message == WM_XBUTTONDOWN || message == WM_XBUTTONUP {
        let xbutton = ((wparam >> 16) & 0xffff) as u16;
        if xbutton == XBUTTON1 {
            Some((4, message == WM_XBUTTONDOWN))
        } else if xbutton == XBUTTON2 {
            Some((5, message == WM_XBUTTONDOWN))
        } else {
            None
        }
    } else {
        None
    }
}

/// The mouse button (1 left, 2 middle, 3 right, 4 and 5 the extra buttons) and whether it
/// went down, for a legacy mouse-button window message.
pub fn legacy_mouse_button(message: u32, wparam: usize) -> (r: Option<(u8, bool)>)
    ensures
        r == spec_legacy_mouse_button(message, wparam),
{
    match message {
        WM_LBUTTONDOWN => Some((1, true)),
        WM_LBUTTONUP => Some((1, false)),
        WM_MBUTTONDOWN => Some((2, true)),
        WM_MBUTTONUP => Some((2, false)),
        WM_RBUTTONDOWN => Some((3, true)),
        WM_RBUTTONUP => Some((3, false)),
        WM_XBUTTONDOWN | WM_XBUTTONUP => {
            let xbutton = ((wparam >> 16) & 0xffff) as u16;
            let button: u8 = if xbutton == XBUTTON1 {
                4
            } else if xbutton == XBUTTON2 {
                5
            } else {
                return None;
            };
            Some((button, message == WM_XBUTTONDOWN))
        },
        _ => None,
    }
}

pub open spec fn spec_clamp_i16(v: i32) -> i16 {
    if v < -32768 {
        -32768i16
    } else if v > 32767 {
        32767i16
    } else {
        v as i16
    }
}

/// `value` clamped to the `i16` range.
pub fn clamp_i32_to_i16(value: i32) -> (r: i16)
    ensures
        r == spec_clamp_i16(value),
{
    if value < -32768 {
        -32768
    } else if value > 32767 {
        32767
    } else {
        value as i16
    }
}

/// The raw-input button flags in the order they are reported, with the button and direction.
pub open spec fn raw_button_table() -> Seq<(u16, u8, bool)> {
    seq![
        (0x0001u16, 1u8, true),
        (0x0002u16, 1u8, false),
        (0x0010u16, 2u8, true),
        (0x0020u16, 2u8, false),
        (0x0004u16, 3u8, true),
        (0x0008u16, 3u8, false),
        (0x0040u16, 4u8, true),
        (0x0080u16, 4u8, false),
        (0x0100u16, 5u8, true),
        (0x0200u16, 5u8, false),
    ]
}

/// The button transitions set in `flags`, in table order.
pub open spec fn raw_button_events(flags: u16, upto: int) -> Seq<(u8, bool)>
    decreases upto,
{
    if upto <= 0 {
        seq![]
    } else {
        let e = raw_button_table()[upto - 1];
        let before = raw_button_events(flags, upto - 1);
        if flags & e.0 != 0 {
            before.push((e.1, e.2))
        } else {
            before
        }
    }
}

/// The raw-input flag of a button transition: left 0x0001 down / 0x0002 up, middle 0x0010 /
/// 0x0020, right 0x0004 / 0x0008, button 4 0x0040 / 0x0080, button 5 0x0100 / 0x0200.
pub open spec fn raw_flag_of(button: u8, pressed: bool) -> u16 {
    match (button, pressed) {
        (1, true) => 0x0001u16,
        (1, false) => 0x0002u16,
        (2, true) => 0x0010u16,
        (2, false) => 0x0020u16,
        (3, true) => 0x0004u16,
        (3, false) => 0x0008u16,
        (4, true) => 0x0040u16,
        (4, false) => 0x0080u16,
        (5, true) => 0x0100u16,
        (5, false) => 0x0200u16,
        _ => 0u16,
    }
}

/// Where a button transition stands in the report order.
spec fn button_slot(button: u8, pressed: bool) -> int {
    2 * (button - 1) + if pressed {
        0int
    } else {
        1int
    }
}

proof fn lemma_button_events_prefix(flags: u16, upto: int, button: u8, pressed: bool)
    requires
        0 <= upto <= 10,
        1 <= button <= 5,
    ensures
        raw_button_events(flags, upto).contains((button, pressed)) <==> (button_slot(button, pressed)
            < upto && (flags & raw_flag_of(button, pressed)) != 0),
        forall|k: int|
            0 <= k < raw_button_events(flags, upto).len() ==> 1 <= (#[trigger] raw_button_events(
                flags,
                upto,
            )[k]).0 <= 5,
    decreases upto,
{
    if upto > 0 {
        lemma_button_events_prefix(flags, upto - 1, button, pressed);
        let t = raw_button_table();
        let e = t[upto - 1];
        let before = raw_button_events(flags, upto - 1);
        let after = raw_button_events(flags, upto);
        let hit = (e.1, e.2) == (button, pressed);
        assert(hit == (button_slot(button, pressed) == upto - 1));
        assert(hit ==> e.0 == raw_flag_of(button, pressed));
        if flags & e.0 != 0 {
            assert(after == before.push((e.1, e.2)));
            if after.contains((button, pressed)) {
                let k = choose|k: int| 0 <= k < after.len() && after[k] == (button, pressed);
                if k < before.len() {
                    assert(before[k] == after[k]);
                }
            }
            if before.contains((button, pressed)) {
                let k = choose|k: int| 0 <= k < before.len() && before[k] == (button, pressed);
                assert(after[k] == before[k]);
            }
            if hit {
                assert(after[after.len() - 1] == (button, pressed));
            }
            assert forall|k: int| 0 <= k < after.len() implies 1 <= (#[trigger] after[k]).0 <= 5 by {
                if k < before.len() {
                    assert(after[k] == before[k]);
                }
            }
        }
    }
}

/// Each raw-input button flag stands for its own button and direction: a report's events hold
/// a transition exactly when its flag is set, and only buttons 1 to 5 occur.
pub proof fn law_button_flags_map_to_their_buttons(flags: u16, button: u8, pressed: bool)
    requires
        1 <= button <= 5,
    ensures
        raw_button_events(flags, 10).contains((button, pressed)) <==> (flags & raw_flag_of(button, pressed)) != 0,
        forall|k: int|
            0 <= k < raw_button_events(flags, 10).len() ==> 1 <= (#[trigger] raw_button_events(
                flags,
                10,
            )[k]).0 <= 5,
{
    lemma_button_events_prefix(flags, 10, button, pressed);
}

fn raw_button_table_exec() -> (r: Vec<(u16, u8, bool)>)
    ensures
        r@ == raw_button_table(),
{
    let mut r: Vec<(u16, u8, bool)> = Vec::new();
    r.push((0x0001u16, 1u8, true));
    r.push((0x0002u16, 1u8, false));
    r.push((0x0010u16, 2u8, true));
    r.push((0x0020u16, 2u8, false));
    r.push((0x0004u16, 3u8, true));
    r.push((0x0008u16, 3u8, false));
    r.push((0x0040u16, 4u8, true));
    r.push((0x0080u16, 4u8, false));
    r.push((0x0100u16, 5u8, true));
    r.push((0x0200u16, 5u8, false));
    assert(r@ =~= raw_button_table());
    r
}

/// The button presses and releases a raw-input mouse report carries, in table order.
pub fn emit_raw_mouse_button_events(flags: u16) -> (r: Vec<(u8, bool)>)
    ensures
        r@ == raw_button_events(flags, 10),
{
    let table = raw_button_table_exec();
    let mut r: Vec<(u8, bool)> = Vec::new();
    let mut i: usize = 0;
    while i < table.len()
        invariant
            0 <= i <= table.len(),
            table@ == raw_button_table(),
            r@ == raw_button_events(flags, i as int),
        decreases table.len() - i,
    {
        let (flag, button, pressed) = table[i];
        if (flags & flag) != 0 {
            r.push((button, pressed));
        }
        i += 1;
    }
    r
}

/// A key the captured window saw go down and has not yet seen go up.
#[derive(Debug, Clone, Copy, PartialEq, Eq, Structural)]
pub struct PressedKey {
    pub keycode: u16,
    pub scancode: u16,
}

/// A key transition to send, stamped by the caller when it is emitted.
#[derive(Debug, Clone, Copy, PartialEq, Eq, Structural)]
pub struct KeyTransition {
    pub pressed: bool,
    pub keycode: u16,
    pub scancode: u16,
    pub modifiers: u16,
}

/// An Escape press being held in the captured window.
#[derive(Debug, Clone, Copy, PartialEq, Eq, Structural)]
pub struct EscapeKeyPress {
    pub scancode: u16,
    pub hold_timer_armed: bool,
}

/// What the window must do after one key message.
#[derive(Debug, Clone, PartialEq, Eq)]
pub struct KeyboardEffects {
    /// Alt+Tab was pressed: release the input capture.
    pub release_capture: bool,
    /// Start the Escape hold-to-minimise timer.
    pub start_hold_timer: bool,
    /// Cancel the Escape hold-to-minimise timer.
    pub cancel_hold_timer: bool,
    /// Key transitions to send, in order.
    pub keys: Vec<KeyTransition>,
}

/// Whether a pressed key with this scancode is recorded.
pub open spec fn has_scancode(keys: Seq<PressedKey>, scancode: u16) -> bool {
    exists|i: int| 0 <= i < keys.len() && keys[i].scancode == scancode
}

/// Whether some pressed key has one of the given keycodes.
pub open spec fn any_keycode(keys: Seq<PressedKey>, a: u16, b: u16, c: u16) -> bool {
    exists|i: int| 0 <= i < keys.len() && (keys[i].keycode == a || keys[i].keycode == b || keys[i].keycode == c)
}

pub open spec fn bit(on: bool, value: u16) -> int {
    if on {
        value as int
    } else {
        0
    }
}

/// The modifier flags: Shift 0x01, Control 0x02, Alt 0x04, Windows 0x08, Caps Lock 0x10,
/// Num Lock 0x20.
pub open spec fn modifier_flags(keys: Seq<PressedKey>, caps_lock: bool, num_lock: bool) -> u16 {
    (bit(any_keycode(keys, VK_LSHIFT, VK_RSHIFT, VK_SHIFT), 0x01) + bit(
        any_keycode(keys, VK_LCONTROL, VK_RCONTROL, VK_CONTROL),
        0x02,
    ) + bit(any_keycode(keys, VK_LMENU, VK_RMENU, VK_MENU), 0x04) + bit(
        any_keycode(keys, VK_LWIN, VK_RWIN, VK_RWIN),
        0x08,
    ) + bit(caps_lock, 0x10) + bit(num_lock, 0x20)) as u16
}

/// Whether a pressed key has one of the three keycodes.
fn any_keycode_exec(keys: &Vec<PressedKey>, a: u16, b: u16, c: u16) -> (r: bool)
    ensures
        r == any_keycode(keys@, a, b, c),
{
    let mut i: usize = 0;
    while i < keys.len()
        invariant
            0 <= i <= keys.len(),
            forall|j: int| 0 <= j < i ==> !(keys@[j].keycode == a || keys@[j].keycode == b || keys@[j].keycode == c),
        decreases keys.len() - i,
    {
        let k = keys[i].keycode;
        if k == a || k == b || k == c {
            return true;
        }
        i += 1;
    }
    false
}

/// The modifier flags for the pressed keys and the lock-key states the system reports.
pub fn current_modifier_flags(keys: &Vec<PressedKey>, caps_lock: bool, num_lock: bool) -> (r: u16)
    ensures
        r == modifier_flags(keys@, caps_lock, num_lock),
{
    let mut m: u16 = 0;
    if any_keycode_exec(keys, VK_LSHIFT, VK_RSHIFT, VK_SHIFT) {
        m = m + 0x01;
    }
    if any_keycode_exec(keys, VK_LCONTROL, VK_RCONTROL, VK_CONTROL) {
        m = m + 0x02;
    }
    if any_keycode_exec(keys, VK_LMENU, VK_RMENU, VK_MENU) {
        m = m + 0x04;
    }
    if any_keycode_exec(keys, VK_LWIN, VK_RWIN, VK_RWIN) {
        m = m + 0x08;
    }
    if caps_lock {
        m = m + 0x10;
    }
    if num_lock {
        m = m + 0x20;
    }
    m
}

/// Whether Alt is down: a pressed Alt key, or the system says so.
pub fn is_alt_modifier_down(keys: &Vec<PressedKey>, system_alt_down: bool) -> (r: bool)
    ensures
        r == (any_keycode(keys@, VK_LMENU, VK_RMENU, VK_MENU) || system_alt_down),
{
    any_keycode_exec(keys, VK_LMENU, VK_RMENU, VK_MENU) || system_alt_down
}

/// The keyboard state of the captured window.
#[derive(Debug, Clone)]
pub struct KeyboardCapture {
    pressed: Vec<PressedKey>,
    escape: Option<EscapeKeyPress>,
}

/// The position of the key with `scancode`, if one is recorded.
fn position_of(keys: &Vec<PressedKey>, scancode: u16) -> (r: Option<usize>)
    ensures
        r matches Some(i) ==> i < keys@.len() && keys@[i as int].scancode == scancode,
        r is None ==> !has_scancode(keys@, scancode),
{
    let mut i: usize = 0;
    while i < keys.len()
        invariant
            0 <= i <= keys.len(),
            forall|j: int| 0 <= j < i ==> keys@[j].scancode != scancode,
        decreases keys.len() - i,
    {
        if keys[i].scancode == scancode {
            return Some(i);
        }
        i += 1;
    }
    None
}

/// The system state a key message is interpreted in.
#[derive(Debug, Clone, Copy, PartialEq, Eq, Structural)]
pub struct KeyContext {
    /// The system reports Alt as down.
    pub system_alt_down: bool,
    /// Caps Lock is on.
    pub caps_lock: bool,
    /// Num Lock is on.
    pub num_lock: bool,
    /// The window currently holds the input capture.
    pub captured: bool,
}

impl KeyboardCapture {
    pub closed spec fn spec_pressed(&self) -> Seq<PressedKey> {
        self.pressed@
    }

    pub closed spec fn spec_escape(&self) -> Option<EscapeKeyPress> {
        self.escape
    }

    /// No two recorded keys share a scancode.
    pub open spec fn wf(&self) -> bool {
        forall|i: int, j: int|
            0 <= i < j < self.spec_pressed().len() ==> self.spec_pressed()[i].scancode
                != self.spec_pressed()[j].scancode
    }

    /// Nothing pressed, no Escape held.
    pub fn new() -> (r: Self)
        ensures
            r.wf(),
            r.spec_pressed().len() == 0,
            r.spec_escape() is None,
    {
        KeyboardCapture { pressed: Vec::new(), escape: None }
    }

    /// Handles Escape going down or up in the captured window.
    ///
    /// A press records the Escape press (the first one only) and arms the hold-to-minimise
    /// timer once while the window holds the capture. A release forgets the press, cancels the
    /// timer and, when a press was recorded, sends a complete Escape tap with that press's
    /// scancode.
    pub fn handle_escape(&mut self, scancode: u16, pressed: bool, captured: bool) -> (r: KeyboardEffects)
        requires
            old(self).wf(),
        ensures
            final(self).wf(),
            final(self).spec_pressed() == old(self).spec_pressed(),
            !r.release_capture,
            pressed ==> {
                &&& !r.cancel_hold_timer
                &&& r.keys@.len() == 0
                &&& match old(self).spec_escape() {
                    Some(e) => {
                        &&& r.start_hold_timer == (!e.hold_timer_armed && captured)
                        &&& final(self).spec_escape() == Some(
                            EscapeKeyPress {
                                scancode: e.scancode,
                                hold_timer_armed: e.hold_timer_armed || captured,
                            },
                        )
                    },
                    None => {
                        &&& r.start_hold_timer == captured
                        &&& final(self).spec_escape() == Some(
                            EscapeKeyPress { scancode, hold_timer_armed: captured },
                        )
                    },
                }
            },
            !pressed ==> {
                &&& r.cancel_hold_timer
                &&& !r.start_hold_timer
                &&& final(self).spec_escape() is None
                &&& r.keys@ == match old(self).spec_escape() {
                    Some(e) => seq![
                        KeyTransition { pressed: true, keycode: VK_ESCAPE, scancode: e.scancode, modifiers: 0 },
                        KeyTransition { pressed: false, keycode: VK_ESCAPE, scancode: e.scancode, modifiers: 0 },
                    ],
                    None => Seq::<KeyTransition>::empty(),
                }
            },
    {
        let mut keys: Vec<KeyTransition> = Vec::new();
        if pressed {
            let start = match self.escape {
                Some(current) => {
                    let should_start = !current.hold_timer_armed && captured;
                    if should_start {
                        self.escape = Some(EscapeKeyPress { scancode: current.scancode, hold_timer_armed: true });
                    }
                    should_start
                },
                None => {
                    self.escape = Some(EscapeKeyPress { scancode, hold_timer_armed: captured });
                    captured
                },
            };
            assert(self.spec_pressed() =~= old(self).spec_pressed());
        assert(self.wf());
            return KeyboardEffects { release_capture: false, start_hold_timer: start, cancel_hold_timer: false, keys };
        }
        let held = self.escape;
        self.escape = None;
        if let Some(press) = held {
            keys.push(KeyTransition { pressed: true, keycode: VK_ESCAPE, scancode: press.scancode, modifiers: 0 });
            keys.push(KeyTransition { pressed: false, keycode: VK_ESCAPE, scancode: press.scancode, modifiers: 0 });
        }
        assert(self.spec_pressed() =~= old(self).spec_pressed());
        assert(self.wf());
        KeyboardEffects { release_capture: false, start_hold_timer: false, cancel_hold_timer: true, keys }
    }

    /// Handles a normalised key transition in the captured window.
    ///
    /// Alt+Tab releases the capture; Escape goes to `handle_escape`; any other key is recorded
    /// on press and forgotten on release, and sent with the modifier flags of the keys pressed
    /// after the change. Repeated presses and releases of unrecorded keys send nothing.
    pub fn handle_key(&mut self, keycode: u16, scancode: u16, pressed: bool, ctx: KeyContext) -> (r:
        KeyboardEffects)
        requires
            old(self).wf(),
        ensures
            final(self).wf(),
            ({
                let alt_tab = pressed && keycode == VK_TAB && (any_keycode(
                    old(self).spec_pressed(),
                    VK_LMENU,
                    VK_RMENU,
                    VK_MENU,
                ) || ctx.system_alt_down);
                let present = has_scancode(old(self).spec_pressed(), scancode);
                if alt_tab {
                    &&& r.release_capture
                    &&& !r.start_hold_timer && !r.cancel_hold_timer
                    &&& r.keys@.len() == 0
                    &&& *final(self) == *old(self)
                } else if keycode == VK_ESCAPE {
                    &&& !r.release_capture
                    &&& final(self).spec_pressed() == old(self).spec_pressed()
                } else if pressed == present {
                    &&& !r.release_capture && !r.start_hold_timer && !r.cancel_hold_timer
                    &&& r.keys@.len() == 0
                    &&& *final(self) == *old(self)
                } else {
                    &&& !r.release_capture && !r.start_hold_timer && !r.cancel_hold_timer
                    &&& final(self).spec_escape() == old(self).spec_escape()
                    &&& (pressed ==> final(self).spec_pressed() == old(self).spec_pressed().push(
                        PressedKey { keycode, scancode },
                    ))
                    &&& (!pressed ==> (forall|s: u16| #[trigger] has_scancode(final(self).spec_pressed(), s)
                        <==> (has_scancode(old(self).spec_pressed(), s) && s != scancode)))
                    &&& r.keys@ == seq![
                        KeyTransition {
                            pressed,
                            keycode,
                            scancode,
                            modifiers: modifier_flags(final(self).spec_pressed(), ctx.caps_lock, ctx.num_lock),
                        },
                    ]
                }
            }),
    {
        if pressed && keycode == VK_TAB && is_alt_modifier_down(&self.pressed, ctx.system_alt_down) {
            return KeyboardEffects {
                release_capture: true,
                start_hold_timer: false,
                cancel_hold_timer: false,
                keys: Vec::new(),
            };
        }
        if keycode == VK_ESCAPE {
            return self.handle_escape(scancode, pressed, ctx.captured);
        }
        let found = position_of(&self.pressed, scancode);
        if pressed {
            if found.is_some() {
                return KeyboardEffects {
                    release_capture: false,
                    start_hold_timer: false,
                    cancel_hold_timer: false,
                    keys: Vec::new(),
                };
            }
            self.pressed.push(PressedKey { keycode, scancode });
        } else {
            let index = match found {
                Some(i) => i,
                None => {
                    return KeyboardEffects {
                        release_capture: false,
                        start_hold_timer: false,
                        cancel_hold_timer: false,
                        keys: Vec::new(),
                    };
                },
            };
            let ghost before = self.pressed@;
            self.pressed.remove(index);
            proof {
                assert forall|s: u16| #[trigger] has_scancode(self.pressed@, s) <==> (has_scancode(before, s) && s != scancode) by {
                    if has_scancode(self.pressed@, s) {
                        let k = choose|k: int| 0 <= k < self.pressed@.len() && self.pressed@[k].scancode == s;
                        if k < index {
                            assert(before[k].scancode == s);
                        } else {
                            assert(before[k + 1].scancode == s);
                        }
                    }
                    if has_scancode(before, s) && s != scancode {
                        let k = choose|k: int| 0 <= k < before.len() && before[k].scancode == s;
                        if k < index {
                            assert(self.pressed@[k].scancode == s);
                        } else {
                            assert(k != index);
                            assert(self.pressed@[k - 1].scancode == s);
                        }
                    }
                }
            }
        }
        let modifiers = current_modifier_flags(&self.pressed, ctx.caps_lock, ctx.num_lock);
        let mut keys: Vec<KeyTransition> = Vec::new();
        keys.push(KeyTransition { pressed, keycode, scancode, modifiers });
        KeyboardEffects { release_capture: false, start_hold_timer: false, cancel_hold_timer: false, keys }
    }

    /// Forgets every pressed key and returns a release (with no modifiers) for each.
    pub fn release_pressed_keys(&mut self) -> (r: Vec<KeyTransition>)
        requires
            old(self).wf(),
        ensures
            final(self).wf(),
            final(self).spec_pressed().len() == 0,
            final(self).spec_escape() == old(self).spec_escape(),
            r@.len() == old(self).spec_pressed().len(),
            forall|i: int|
                0 <= i < r@.len() ==> #[trigger] r@[i] == (KeyTransition {
                    pressed: false,
                    keycode: old(self).spec_pressed()[i].keycode,
                    scancode: old(self).spec_pressed()[i].scancode,
                    modifiers: 0,
                }),
    {
        let mut r: Vec<KeyTransition> = Vec::new();
        let mut i: usize = 0;
        while i < self.pressed.len()
            invariant
                0 <= i <= self.pressed.len(),
                self.pressed@ == old(self).spec_pressed(),
                r@.len() == i,
                forall|j: int|
                    0 <= j < i ==> #[trigger] r@[j] == (KeyTransition {
                        pressed: false,
                        keycode: old(self).spec_pressed()[j].keycode,
                        scancode: old(self).spec_pressed()[j].scancode,
                        modifiers: 0,
                    }),
            decreases self.pressed.len() - i,
        {
            let k = self.pressed[i];
            r.push(KeyTransition { pressed: false, keycode: k.keycode, scancode: k.scancode, modifiers: 0 });
            i += 1;
        }
        self.pressed = Vec::new();
        r
    }

    /// Forgets a held Escape press (the capture was released).
    pub fn clear_escape_key_press(&mut self)
        requires
            old(self).wf(),
        ensures
            final(self).wf(),
            final(self).spec_escape() is None,
            final(self).spec_pressed() == old(self).spec_pressed(),
    {
        self.escape = None;
        assert(self.spec_pressed() =~= old(self).spec_pressed());
        assert(self.wf());
    }
}

/// A raw-input keyboard report, normalised to what is handled: the keycode, the scancode and
/// whether the key went down; `None` for reports that are ignored.
pub open spec fn spec_decode_raw_keyboard(vkey: u16, make_code: u16, flags: u16, message: u32) -> Option<
    (u16, u16, bool),
> {
    if vkey == 0xff {
        None
    } else {
        let pressed = if message == WM_KEYDOWN || message == WM_SYSKEYDOWN {
            true
        } else if message == WM_KEYUP || message == WM_SYSKEYUP {
            false
        } else {
            flags & RI_KEY_BREAK == 0
        };
        let keycode = spec_normalize_virtual_key(vkey, make_code, flags);
        let raw_scancode = spec_normalize_scancode(make_code, flags);
        let scancode = if keycode == VK_ESCAPE && raw_scancode == 0 {
            ESCAPE_SCANCODE
        } else {
            raw_scancode
        };
        if keycode == 0 || scancode == 0 {
            None
        } else {
            Some((keycode, scancode, pressed))
        }
    }
}

/// Decodes a raw-input keyboard report.
pub fn decode_raw_keyboard(vkey: u16, make_code: u16, flags: u16, message: u32) -> (r: Option<
    (u16, u16, bool),
>)
    ensures
        r == spec_decode_raw_keyboard(vkey, make_code, flags, message),
{
    if vkey == 0xff {
        return None;
    }
    let pressed = match message {
        WM_KEYDOWN | WM_SYSKEYDOWN => true,
        WM_KEYUP | WM_SYSKEYUP => false,
        _ => (flags & RI_KEY_BREAK) == 0,
    };
    let keycode = normalize_virtual_key(vkey, make_code, flags);
    let mut scancode = normalize_scancode(make_code, flags);
    if keycode == VK_ESCAPE && scancode == 0 {
        scancode = ESCAPE_SCANCODE;
    }
    if keycode == 0 || scancode == 0 {
        return None;
    }
    Some((keycode, scancode, pressed))
}

/// The scancode a legacy Escape message is handled with.
pub fn legacy_escape_scancode(lparam: isize) -> (r: u16)
    ensures
        r == if spec_legacy_keyboard_scancode(lparam) == 0 {
            ESCAPE_SCANCODE
        } else {
            spec_legacy_keyboard_scancode(lparam)
        },
{
    let s = legacy_keyboard_scancode(lparam);
    if s == 0 {
        ESCAPE_SCANCODE
    } else {
        s
    }
}

/// What a raw-input mouse report turns into: a move when there is motion, the button
/// transitions, and a wheel turn when the wheel flag is set.
#[derive(Debug, Clone, PartialEq, Eq)]
pub struct RawMouseDecoded {
    pub motion: Option<(i16, i16)>,
    pub buttons: Vec<(u8, bool)>,
    pub wheel: Option<i16>,
}

/// Decodes a raw-input mouse report: motion clamped to `i16`, the low 16 bits of `buttons`
/// as the button flags and the high 16 bits as the wheel delta.
pub fn decode_raw_mouse(last_x: i32, last_y: i32, buttons: u32) -> (r: RawMouseDecoded)
    ensures
        r.motion == if spec_clamp_i16(last_x) != 0 || spec_clamp_i16(last_y) != 0 {
            Some((spec_clamp_i16(last_x), spec_clamp_i16(last_y)))
        } else {
            None::<(i16, i16)>
        },
        r.buttons@ == raw_button_events((buttons & 0xffff) as u16, 10),
        r.wheel == if ((buttons & 0xffff) as u16) & RI_MOUSE_WHEEL != 0 {
            Some(((buttons >> 16) as u16) as i16)
        } else {
            None::<i16>
        },
{
    let dx = clamp_i32_to_i16(last_x);
    let dy = clamp_i32_to_i16(last_y);
    let motion = if dx != 0 || dy != 0 {
        Some((dx, dy))
    } else {
        None
    };
    let button_flags = (buttons & 0xffff) as u16;
    let button_data = (buttons >> 16) as u16;
    let wheel = if (button_flags & RI_MOUSE_WHEEL) != 0 {
        Some(button_data as i16)
    } else {
        None
    };
    RawMouseDecoded { motion, buttons: emit_raw_mouse_button_events(button_flags), wheel }
}

} // verus!
