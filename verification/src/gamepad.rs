//! Gamepad state: dead zones on the raw XInput readings, and which controller states a poll
//! sends on to the server.
use vstd::prelude::*;
use crate::text::{append_decimal, append_str, decimal};

verus! {

/// Trigger readings at or below this are treated as released.
pub const TRIGGER_DEADZONE: u8 = 30;

/// The dead zone of the left stick.
pub const LEFT_STICK_DEADZONE: i16 = 7849;

/// The dead zone of the right stick.
pub const RIGHT_STICK_DEADZONE: i16 = 8689;

pub open spec fn spec_trigger(value: u8) -> u8 {
    if value <= TRIGGER_DEADZONE {
        0
    } else {
        value
    }
}

pub open spec fn abs_int(v: int) -> int {
    if v < 0 {
        -v
    } else {
        v
    }
}

pub open spec fn spec_stick(value: i16, deadzone: i16) -> i16 {
    if abs_int(value as int) <= deadzone as int {
        0
    } else {
        value
    }
}

/// A trigger reading with its dead zone applied.
pub fn apply_trigger_deadzone(value: u8) -> (r: u8)
    ensures
        r == spec_trigger(value),
{
    if value <= TRIGGER_DEADZONE {
        0
    } else {
        value
    }
}

/// A stick axis reading with a dead zone applied: readings within it (either side) become 0.
pub fn apply_stick_deadzone(value: i16, deadzone: i16) -> (r: i16)
    ensures
        r == spec_stick(value, deadzone),
{
    let v = value as i32;
    let magnitude: i32 = if v < 0 {
        -v
    } else {
        v
    };
    if magnitude <= deadzone as i32 {
        0
    } else {
        value
    }
}

/// One controller's state as XInput reports it, dead zones applied.
#[derive(Clone, Copy, Debug, PartialEq, Eq, Structural)]
pub struct XInputGamepadSnapshot {
    pub buttons: u16,
    pub left_trigger: u8,
    pub right_trigger: u8,
    pub left_stick_x: i16,
    pub left_stick_y: i16,
    pub right_stick_x: i16,
    pub right_stick_y: i16,
}

impl XInputGamepadSnapshot {
    /// The snapshot of a raw XInput reading: buttons as read, dead zones on the triggers and
    /// on both sticks.
    pub fn from_raw(
        buttons: u16,
        left_trigger: u8,
        right_trigger: u8,
        thumb_lx: i16,
        thumb_ly: i16,
        thumb_rx: i16,
        thumb_ry: i16,
    ) -> (r: Self)
        ensures
            r.buttons == buttons,
            r.left_trigger == spec_trigger(left_trigger),
            r.right_trigger == spec_trigger(right_trigger),
            r.left_stick_x == spec_stick(thumb_lx, LEFT_STICK_DEADZONE),
            r.left_stick_y == spec_stick(thumb_ly, LEFT_STICK_DEADZONE),
            r.right_stick_x == spec_stick(thumb_rx, RIGHT_STICK_DEADZONE),
            r.right_stick_y == spec_stick(thumb_ry, RIGHT_STICK_DEADZONE),
    {
        XInputGamepadSnapshot {
            buttons,
            left_trigger: apply_trigger_deadzone(left_trigger),
            right_trigger: apply_trigger_deadzone(right_trigger),
            left_stick_x: apply_stick_deadzone(thumb_lx, LEFT_STICK_DEADZONE),
            left_stick_y: apply_stick_deadzone(thumb_ly, LEFT_STICK_DEADZONE),
            right_stick_x: apply_stick_deadzone(thumb_rx, RIGHT_STICK_DEADZONE),
            right_stick_y: apply_stick_deadzone(thumb_ry, RIGHT_STICK_DEADZONE),
        }
    }
}

/// A controller slot's state as it is sent: disconnected slots are all zero.
#[derive(Clone, Copy, Debug, PartialEq, Eq, Structural)]
pub struct NativeGamepadSnapshot {
    pub connected: bool,
    pub buttons: u16,
    pub left_trigger: u8,
    pub right_trigger: u8,
    pub left_stick_x: i16,
    pub left_stick_y: i16,
    pub right_stick_x: i16,
    pub right_stick_y: i16,
}

pub open spec fn disconnected_snapshot() -> NativeGamepadSnapshot {
    NativeGamepadSnapshot {
        connected: false,
        buttons: 0,
        left_trigger: 0,
        right_trigger: 0,
        left_stick_x: 0,
        left_stick_y: 0,
        right_stick_x: 0,
        right_stick_y: 0,
    }
}

pub open spec fn spec_from_xinput(s: XInputGamepadSnapshot) -> NativeGamepadSnapshot {
    NativeGamepadSnapshot {
        connected: true,
        buttons: s.buttons,
        left_trigger: s.left_trigger,
        right_trigger: s.right_trigger,
        left_stick_x: s.left_stick_x,
        left_stick_y: s.left_stick_y,
        right_stick_x: s.right_stick_x,
        right_stick_y: s.right_stick_y,
    }
}

impl NativeGamepadSnapshot {
    /// The state of an empty slot.
    pub fn disconnected() -> (r: Self)
        ensures
            r == disconnected_snapshot(),
    {
        NativeGamepadSnapshot {
            connected: false,
            buttons: 0,
            left_trigger: 0,
            right_trigger: 0,
            left_stick_x: 0,
            left_stick_y: 0,
            right_stick_x: 0,
            right_stick_y: 0,
        }
    }

    /// The state of a connected controller.
    pub fn from_xinput(snapshot: XInputGamepadSnapshot) -> (r: Self)
        ensures
            r == spec_from_xinput(snapshot),
    {
        NativeGamepadSnapshot {
            connected: true,
            buttons: snapshot.buttons,
            left_trigger: snapshot.left_trigger,
            right_trigger: snapshot.right_trigger,
            left_stick_x: snapshot.left_stick_x,
            left_stick_y: snapshot.left_stick_y,
            right_stick_x: snapshot.right_stick_x,
            right_stick_y: snapshot.right_stick_y,
        }
    }
}

impl Default for NativeGamepadSnapshot {
    fn default() -> (r: Self)
        ensures
            r == disconnected_snapshot(),
    {
        Self::disconnected()
    }
}

/// The state of slot `i` after a poll that read `polled`.
pub open spec fn slot_state(polled: Seq<Option<XInputGamepadSnapshot>>, i: int) -> NativeGamepadSnapshot {
    match polled[i] {
        Some(s) => spec_from_xinput(s),
        None => disconnected_snapshot(),
    }
}

/// The connected-controller bitmap of the slots below `n`: bit `i` set for each slot read.
pub open spec fn connected_bitmap(polled: Seq<Option<XInputGamepadSnapshot>>, n: int) -> u16
    decreases n,
{
    if n <= 0 {
        0
    } else {
        let below = connected_bitmap(polled, n - 1);
        if polled[n - 1] is Some {
            below | (1u16 << ((n - 1) as u16))
        } else {
            below
        }
    }
}

/// One state a poll sends: the slot, its state, and the connection change to log, if any.
#[derive(Clone, Copy, Debug, PartialEq, Eq, Structural)]
pub struct GamepadSend {
    pub controller_id: u8,
    pub snapshot: NativeGamepadSnapshot,
    pub connection_change: Option<bool>,
}

/// Whether slot `i` is sent: its state changed, or it is connected and its keepalive is due.
pub open spec fn slot_sent(
    previous: Seq<NativeGamepadSnapshot>,
    polled: Seq<Option<XInputGamepadSnapshot>>,
    keepalive_due: Seq<bool>,
    i: int,
) -> bool {
    slot_state(polled, i) != previous[i] || (slot_state(polled, i).connected && keepalive_due[i])
}

/// The sends of the slots below `n`, in slot order.
pub open spec fn sends_below(
    previous: Seq<NativeGamepadSnapshot>,
    polled: Seq<Option<XInputGamepadSnapshot>>,
    keepalive_due: Seq<bool>,
    n: int,
) -> Seq<GamepadSend>
    decreases n,
{
    if n <= 0 {
        Seq::empty()
    } else {
        let below = sends_below(previous, polled, keepalive_due, n - 1);
        let i = n - 1;
        let state = slot_state(polled, i);
        if slot_sent(previous, polled, keepalive_due, i) {
            below.push(
                GamepadSend {
                    controller_id: i as u8,
                    snapshot: state,
                    connection_change: if state.connected != previous[i].connected {
                        Some(state.connected)
                    } else {
                        None
                    },
                },
            )
        } else {
            below
        }
    }
}

/// Decides one gamepad poll. `previous` holds each slot's last state and becomes the new
/// states; `polled` is what XInput read per slot; `keepalive_due` says per slot whether its
/// keepalive interval has passed. Returns the connected bitmap and the states to send.
pub fn plan_gamepad_poll(
    previous: &mut Vec<NativeGamepadSnapshot>,
    polled: &Vec<Option<XInputGamepadSnapshot>>,
    keepalive_due: &Vec<bool>,
) -> (r: (u16, Vec<GamepadSend>))
    requires
        old(previous).len() == polled.len(),
        keepalive_due.len() == polled.len(),
        polled.len() <= 16,
    ensures
        r.0 == connected_bitmap(polled@, polled.len() as int),
        r.1@ == sends_below(old(previous)@, polled@, keepalive_due@, polled.len() as int),
        final(previous).len() == polled.len(),
        forall|i: int| 0 <= i < polled.len() ==> final(previous)@[i] == slot_state(polled@, i),
{
    let n = polled.len();
    let mut bitmap: u16 = 0;
    let mut i: usize = 0;
    while i < n
        invariant
            i <= n == polled.len() <= 16,
            bitmap == connected_bitmap(polled@, i as int),
        decreases n - i,
    {
        if polled[i].is_some() {
            bitmap = bitmap | (1u16 << (i as u16));
        }
        i += 1;
    }
    let ghost prev0 = previous@;
    let mut sends: Vec<GamepadSend> = Vec::new();
    let mut j: usize = 0;
    while j < n
        invariant
            j <= n == polled.len() == keepalive_due.len() <= 16,
            previous.len() == n,
            prev0.len() == n,
            forall|k: int| j <= k < n ==> previous@[k] == prev0[k],
            forall|k: int| 0 <= k < j ==> previous@[k] == slot_state(polled@, k),
            sends@ == sends_below(prev0, polled@, keepalive_due@, j as int),
        decreases n - j,
    {
        let state = match polled[j] {
            Some(s) => NativeGamepadSnapshot::from_xinput(s),
            None => NativeGamepadSnapshot::disconnected(),
        };
        let before = previous[j];
        let changed = state != before;
        if changed || (state.connected && keepalive_due[j]) {
            let connection_change = if state.connected != before.connected {
                Some(state.connected)
            } else {
                None
            };
            sends.push(GamepadSend { controller_id: j as u8, snapshot: state, connection_change });
        }
        previous.set(j, state);
        j += 1;
    }
    (bitmap, sends)
}

/// A poll sends every slot whose state changed, and afterwards every slot holds what the
/// poll read.
pub proof fn law_changed_slots_are_sent(
    previous: Seq<NativeGamepadSnapshot>,
    polled: Seq<Option<XInputGamepadSnapshot>>,
    keepalive_due: Seq<bool>,
    n: int,
    i: int,
)
    requires
        0 <= i < n <= polled.len(),
        n <= 256,
        slot_state(polled, i) != previous[i],
    ensures
        exists|k: int|
            0 <= k < sends_below(previous, polled, keepalive_due, n).len()
                && #[trigger] sends_below(previous, polled, keepalive_due, n)[k].controller_id
                == i as u8 && sends_below(previous, polled, keepalive_due, n)[k].snapshot
                == slot_state(polled, i),
    decreases n,
{
    let s = sends_below(previous, polled, keepalive_due, n);
    if i == n - 1 {
        assert(s[s.len() - 1].controller_id == i as u8);
    } else {
        law_changed_slots_are_sent(previous, polled, keepalive_due, n - 1, i);
        let below = sends_below(previous, polled, keepalive_due, n - 1);
        let k = choose|k: int|
            0 <= k < below.len() && #[trigger] below[k].controller_id == i as u8
                && below[k].snapshot == slot_state(polled, i);
        assert(s[k] == below[k]);
    }
}

/// Every send of a poll is for a slot below `n` that is due to be sent, and carries the state
/// the poll read for that slot.
proof fn lemma_sends_are_due(
    previous: Seq<NativeGamepadSnapshot>,
    polled: Seq<Option<XInputGamepadSnapshot>>,
    keepalive_due: Seq<bool>,
    n: int,
)
    requires
        n <= 256,
    ensures
        forall|k: int|
            0 <= k < sends_below(previous, polled, keepalive_due, n).len() ==> {
                let send = #[trigger] sends_below(previous, polled, keepalive_due, n)[k];
                &&& (send.controller_id as int) < n
                &&& slot_sent(previous, polled, keepalive_due, send.controller_id as int)
                &&& send.snapshot == slot_state(polled, send.controller_id as int)
            },
    decreases n,
{
    if n > 0 {
        lemma_sends_are_due(previous, polled, keepalive_due, n - 1);
        let below = sends_below(previous, polled, keepalive_due, n - 1);
        let s = sends_below(previous, polled, keepalive_due, n);
        assert forall|k: int| 0 <= k < s.len() implies {
            let send = #[trigger] s[k];
            &&& (send.controller_id as int) < n
            &&& slot_sent(previous, polled, keepalive_due, send.controller_id as int)
            &&& send.snapshot == slot_state(polled, send.controller_id as int)
        } by {
            if k < below.len() {
                assert(s[k] == below[k]);
            }
        }
    }
}

/// A poll sends a slot exactly when that slot is due: its state changed, or it is connected
/// and its keepalive interval has passed. Each send carries the state the poll read, and a
/// slot is sent at most once.
pub proof fn law_sent_iff_changed_or_keepalive(
    previous: Seq<NativeGamepadSnapshot>,
    polled: Seq<Option<XInputGamepadSnapshot>>,
    keepalive_due: Seq<bool>,
    n: int,
    i: int,
)
    requires
        0 <= i < n <= polled.len(),
        n <= 256,
    ensures
        ({
            let sends = sends_below(previous, polled, keepalive_due, n);
            &&& (exists|k: int| 0 <= k < sends.len() && #[trigger] sends[k].controller_id == i as u8)
                <==> slot_sent(previous, polled, keepalive_due, i)
            &&& forall|k: int|
                0 <= k < sends.len() && #[trigger] sends[k].controller_id == i as u8
                    ==> sends[k].snapshot == slot_state(polled, i)
            &&& forall|k1: int, k2: int|
                0 <= k1 < sends.len() && 0 <= k2 < sends.len() && #[trigger] sends[k1].controller_id
                    == i as u8 && #[trigger] sends[k2].controller_id == i as u8 ==> k1 == k2
        }),
    decreases n,
{
    let sends = sends_below(previous, polled, keepalive_due, n);
    let below = sends_below(previous, polled, keepalive_due, n - 1);
    lemma_sends_are_due(previous, polled, keepalive_due, n);
    lemma_sends_are_due(previous, polled, keepalive_due, n - 1);
    if i == n - 1 {
        // No send below n - 1 is for slot i.
        assert forall|k: int| 0 <= k < below.len() implies #[trigger] below[k].controller_id != i as u8 by {
            assert((below[k].controller_id as int) < n - 1);
        }
        if slot_sent(previous, polled, keepalive_due, i) {
            assert(sends[sends.len() - 1].controller_id == i as u8);
        }
        assert forall|k1: int, k2: int|
            0 <= k1 < sends.len() && 0 <= k2 < sends.len() && #[trigger] sends[k1].controller_id
                == i as u8 && #[trigger] sends[k2].controller_id == i as u8 implies k1 == k2 by {
            if k1 < below.len() {
                assert(sends[k1] == below[k1]);
            }
            if k2 < below.len() {
                assert(sends[k2] == below[k2]);
            }
        }
    } else {
        law_sent_iff_changed_or_keepalive(previous, polled, keepalive_due, n - 1, i);
        if slot_sent(previous, polled, keepalive_due, i) {
            let k = choose|k: int| 0 <= k < below.len() && #[trigger] below[k].controller_id == i as u8;
            assert(sends[k] == below[k]);
        }
        assert forall|k1: int, k2: int|
            0 <= k1 < sends.len() && 0 <= k2 < sends.len() && #[trigger] sends[k1].controller_id
                == i as u8 && #[trigger] sends[k2].controller_id == i as u8 implies k1 == k2 by {
            if k1 < below.len() {
                assert(sends[k1] == below[k1]);
            } else {
                assert(sends[k1].controller_id == (n - 1) as u8);
            }
            if k2 < below.len() {
                assert(sends[k2] == below[k2]);
            } else {
                assert(sends[k2].controller_id == (n - 1) as u8);
            }
        }
    }
}

proof fn lemma_set_bit(b: u16, m: u16, i: u16)
    requires
        m < 16,
        i < 16,
    ensures
        m != i ==> ((b | (1u16 << m)) & (1u16 << i)) == (b & (1u16 << i)),
        ((b | (1u16 << m)) & (1u16 << m)) != 0,
        (0u16 & (1u16 << i)) == 0,
{
    assert(m != i ==> ((b | (1u16 << m)) & (1u16 << i)) == (b & (1u16 << i))) by (bit_vector)
        requires
            m < 16,
            i < 16,
    ;
    assert(((b | (1u16 << m)) & (1u16 << m)) != 0) by (bit_vector)
        requires
            m < 16,
    ;
    assert((0u16 & (1u16 << i)) == 0) by (bit_vector)
        requires
            i < 16,
    ;
}

/// Whether bit `i` of `bitmap` is set.
pub open spec fn has_bit(bitmap: u16, i: int) -> bool {
    (bitmap & (1u16 << (i as u16))) != 0
}

/// In a poll's connected bitmap, bit `i` is set exactly when slot `i` is one of the first `n`
/// and the poll read a controller there.
pub proof fn law_bitmap_marks_read_slots(polled: Seq<Option<XInputGamepadSnapshot>>, n: int)
    requires
        0 <= n <= polled.len(),
        n <= 16,
    ensures
        forall|i: int|
            0 <= i < 16 ==> (#[trigger] has_bit(connected_bitmap(polled, n), i) <==> (i < n
                && polled[i] is Some)),
    decreases n,
{
    if n == 0 {
        assert forall|i: int| 0 <= i < 16 implies !#[trigger] has_bit(connected_bitmap(polled, n), i) by {
            lemma_set_bit(0, 0, i as u16);
        }
    } else {
        law_bitmap_marks_read_slots(polled, n - 1);
        let below = connected_bitmap(polled, n - 1);
        assert forall|i: int| 0 <= i < 16 implies (#[trigger] has_bit(connected_bitmap(polled, n), i)
            <==> (i < n && polled[i] is Some)) by {
            lemma_set_bit(below, (n - 1) as u16, i as u16);
        }
    }
}

/// Whether a controller's input goes over the partially reliable channel: its bit is set in
/// `mask`.
pub fn uses_partially_reliable(mask: u32, controller_id: u8) -> (r: bool)
    requires
        controller_id < 32,
    ensures
        r == ((mask & (1u32 << (controller_id as u32))) != 0),
{
    (mask & (1u32 << (controller_id as u32))) != 0
}

/// The log line of a controller connecting or disconnecting.
pub open spec fn spec_connection_message(controller_id: u8, connected: bool) -> Seq<char> {
    "Native XInput controller "@ + decimal(controller_id as nat) + " "@ + if connected {
        "connected"@
    } else {
        "disconnected"@
    } + "."@
}

pub fn controller_connection_message(controller_id: u8, connected: bool) -> (r: String)
    ensures
        r@ == spec_connection_message(controller_id, connected),
{
    let mut s = String::from_str("Native XInput controller ");
    append_decimal(&mut s, controller_id as u64);
    append_str(&mut s, " ");
    append_str(&mut s, if connected { "connected" } else { "disconnected" });
    append_str(&mut s, ".");
    s
}

} // verus!
