//! Batching of native window input events into the packets sent over the input data channels.
use vstd::prelude::*;

verus! {

/// An input event captured from the native renderer window.
#[derive(Debug, Clone, Copy, PartialEq, Eq, Structural)]
pub enum NativeWindowInputEvent {
    Key { pressed: bool, keycode: u16, scancode: u16, modifiers: u16, timestamp_us: u64 },
    MouseMove { dx: i16, dy: i16, timestamp_us: u64 },
    MouseButton { pressed: bool, button: u8, timestamp_us: u64 },
    MouseWheel { delta: i16, timestamp_us: u64 },
}

/// One input message to encode and send, and whether it goes over the partially reliable
/// channel (mouse motion) or the reliable one (everything else).
#[derive(Debug, Clone, Copy, PartialEq, Eq, Structural)]
pub struct InputPacket {
    pub event: NativeWindowInputEvent,
    pub partially_reliable: bool,
}

/// Mouse motion gathered but not yet sent: total dx, total dy, latest timestamp.
pub type PendingMove = (i32, i32, u64);

pub open spec fn clamp_i16(v: int) -> int {
    if v < -32768 {
        -32768
    } else if v > 32767 {
        32767
    } else {
        v
    }
}

pub open spec fn sat_i32(v: int) -> i32 {
    if v < i32::MIN {
        i32::MIN
    } else if v > i32::MAX {
        i32::MAX
    } else {
        v as i32
    }
}

pub open spec fn abs(v: int) -> int {
    if v < 0 {
        -v
    } else {
        v
    }
}

/// The packet that carries one event: motion goes partially reliable, the rest reliable.
pub open spec fn packet_for(event: NativeWindowInputEvent) -> InputPacket {
    InputPacket { event, partially_reliable: event is MouseMove }
}

/// The motion packets that send `(dx, dy)`: as many moves as it takes, each within the
/// `i16` range, the first ones as large as they can be.
pub open spec fn move_chunks(dx: int, dy: int, timestamp_us: u64) -> Seq<InputPacket>
    decreases abs(dx) + abs(dy),
{
    if dx == 0 && dy == 0 {
        seq![]
    } else {
        let cx = clamp_i16(dx);
        let cy = clamp_i16(dy);
        seq![
            InputPacket {
                event: NativeWindowInputEvent::MouseMove {
                    dx: cx as i16,
                    dy: cy as i16,
                    timestamp_us,
                },
                partially_reliable: true,
            },
        ] + move_chunks(dx - cx, dy - cy, timestamp_us)
    }
}

/// The packets that flush pending motion.
pub open spec fn flush_packets(pending: Option<PendingMove>) -> Seq<InputPacket> {
    match pending {
        Some((dx, dy, ts)) => move_chunks(dx as int, dy as int, ts),
        None => seq![],
    }
}

/// Pending motion after one more move.
pub open spec fn add_move(pending: Option<PendingMove>, dx: i16, dy: i16, timestamp_us: u64) -> PendingMove {
    match pending {
        Some((px, py, _)) => (sat_i32(px + dx), sat_i32(py + dy), timestamp_us),
        None => (dx as i32, dy as i32, timestamp_us),
    }
}

/// The packets for a batch of events: consecutive moves are merged and sent, split into
/// `i16`-sized chunks, just before the next other event (or at the end); every other event is
/// sent on its own, in order.
pub open spec fn batch_packets(events: Seq<NativeWindowInputEvent>, pending: Option<PendingMove>) -> Seq<
    InputPacket,
>
    decreases events.len(),
{
    if events.len() == 0 {
        flush_packets(pending)
    } else {
        match events[0] {
            NativeWindowInputEvent::MouseMove { dx, dy, timestamp_us } => batch_packets(
                events.drop_first(),
                Some(add_move(pending, dx, dy, timestamp_us)),
            ),
            other => flush_packets(pending) + seq![packet_for(other)] + batch_packets(
                events.drop_first(),
                None,
            ),
        }
    }
}

/// `a + b`, clamped to the `i32` range.
fn saturating_add_i32(a: i32, b: i32) -> (r: i32)
    ensures
        r == sat_i32(a + b),
{
    let s = a as i64 + b as i64;
    if s < i32::MIN as i64 {
        i32::MIN
    } else if s > i32::MAX as i64 {
        i32::MAX
    } else {
        s as i32
    }
}

fn clamp_to_i16(v: i32) -> (r: i16)
    ensures
        r as int == clamp_i16(v as int),
{
    if v < -32768 {
        -32768
    } else if v > 32767 {
        32767
    } else {
        v as i16
    }
}

/// Appends the motion packets for pending motion, as `flush_packets` says.
pub fn flush_pending_mouse_move(out: &mut Vec<InputPacket>, pending: Option<PendingMove>)
    ensures
        final(out)@ == old(out)@ + flush_packets(pending),
{
    let (mut dx, mut dy, timestamp_us) = match pending {
        Some(p) => p,
        None => {
            assert(flush_packets(pending) =~= seq![]);
            return ;
        },
    };
    let ghost start = old(out)@;
    while dx != 0 || dy != 0
        invariant
            out@ + move_chunks(dx as int, dy as int, timestamp_us) == start + flush_packets(pending),
        decreases abs(dx as int) + abs(dy as int),
    {
        let chunk_dx = clamp_to_i16(dx);
        let chunk_dy = clamp_to_i16(dy);
        let packet = InputPacket {
            event: NativeWindowInputEvent::MouseMove { dx: chunk_dx, dy: chunk_dy, timestamp_us },
            partially_reliable: true,
        };
        let ghost before = out@;
        out.push(packet);
        dx = dx - chunk_dx as i32;
        dy = dy - chunk_dy as i32;
        assert(before + move_chunks((dx + chunk_dx) as int, (dy + chunk_dy) as int, timestamp_us)
            =~= out@ + move_chunks(dx as int, dy as int, timestamp_us));
    }
    assert(move_chunks(0, 0, timestamp_us) =~= seq![]);
    assert(out@ =~= start + flush_packets(pending));
}

/// The packets to send for a drained batch of window input events; nothing when the input
/// channel is not ready yet.
pub fn plan_window_input_packets(events: &Vec<NativeWindowInputEvent>, ready: bool) -> (r: Vec<
    InputPacket,
>)
    ensures
        r@ == if events@.len() == 0 || !ready {
            seq![]
        } else {
            batch_packets(events@, None)
        },
{
    let mut out: Vec<InputPacket> = Vec::new();
    if events.len() == 0 || !ready {
        return out;
    }
    let mut pending: Option<PendingMove> = None;
    let mut i: usize = 0;
    assert(events@.skip(0) =~= events@);
    while i < events.len()
        invariant
            0 <= i <= events.len(),
            out@ + batch_packets(events@.skip(i as int), pending) == batch_packets(events@, None),
        decreases events.len() - i,
    {
        let ghost rest = events@.skip(i as int);
        assert(rest[0] == events@[i as int]);
        assert(rest.drop_first() =~= events@.skip(i + 1));
        let ghost before = out@;
        let ghost old_pending = pending;
        match events[i] {
            NativeWindowInputEvent::MouseMove { dx, dy, timestamp_us } => {
                pending = match pending {
                    Some((px, py, _)) => Some(
                        (saturating_add_i32(px, dx as i32), saturating_add_i32(py, dy as i32), timestamp_us),
                    ),
                    None => Some((dx as i32, dy as i32, timestamp_us)),
                };
                assert(pending == Some(add_move(old_pending, dx, dy, timestamp_us)));
            },
            other => {
                flush_pending_mouse_move(&mut out, pending);
                pending = None;
                let partially_reliable = match other {
                    NativeWindowInputEvent::MouseMove { .. } => true,
                    _ => false,
                };
                out.push(InputPacket { event: other, partially_reliable });
                assert(out@ + batch_packets(events@.skip(i + 1), pending) =~= before
                    + batch_packets(rest, old_pending));
            },
        }
        i += 1;
    }
    assert(events@.skip(i as int).len() == 0);
    flush_pending_mouse_move(&mut out, pending);
    out
}

/// The motion packets for `(dx, dy)` add up to exactly `(dx, dy)`, and each stays within the
/// `i16` range and travels over the partially reliable channel.
pub proof fn law_move_chunks_sum(dx: int, dy: int, timestamp_us: u64)
    ensures
        sum_dx(move_chunks(dx, dy, timestamp_us)) == dx,
        sum_dy(move_chunks(dx, dy, timestamp_us)) == dy,
        forall|i: int|
            0 <= i < move_chunks(dx, dy, timestamp_us).len() ==> (#[trigger] move_chunks(
                dx,
                dy,
                timestamp_us,
            )[i]).partially_reliable && move_chunks(dx, dy, timestamp_us)[i].event is MouseMove,
    decreases abs(dx) + abs(dy),
{
    if dx == 0 && dy == 0 {
    } else {
        let cx = clamp_i16(dx);
        let cy = clamp_i16(dy);
        law_move_chunks_sum(dx - cx, dy - cy, timestamp_us);
        let head = seq![
            InputPacket {
                event: NativeWindowInputEvent::MouseMove {
                    dx: cx as i16,
                    dy: cy as i16,
                    timestamp_us,
                },
                partially_reliable: true,
            },
        ];
        let tail = move_chunks(dx - cx, dy - cy, timestamp_us);
        lemma_sum_concat(head, tail);
        assert(head.drop_first() =~= Seq::<InputPacket>::empty());
        assert(sum_dx(Seq::<InputPacket>::empty()) == 0);
        assert(sum_dy(Seq::<InputPacket>::empty()) == 0);
        assert(-32768 <= cx <= 32767 && -32768 <= cy <= 32767);
        assert((cx as i16) as int == cx);
        assert((cy as i16) as int == cy);
        assert(sum_dx(head) == cx);
        assert(sum_dy(head) == cy);
    }
}

/// The total horizontal motion of the move packets in `packets`.
pub open spec fn sum_dx(packets: Seq<InputPacket>) -> int
    decreases packets.len(),
{
    if packets.len() == 0 {
        0
    } else {
        (match packets[0].event {
            NativeWindowInputEvent::MouseMove { dx, .. } => dx as int,
            _ => 0,
        }) + sum_dx(packets.drop_first())
    }
}

/// The total vertical motion of the move packets in `packets`.
pub open spec fn sum_dy(packets: Seq<InputPacket>) -> int
    decreases packets.len(),
{
    if packets.len() == 0 {
        0
    } else {
        (match packets[0].event {
            NativeWindowInputEvent::MouseMove { dy, .. } => dy as int,
            _ => 0,
        }) + sum_dy(packets.drop_first())
    }
}

pub proof fn lemma_sum_concat(a: Seq<InputPacket>, b: Seq<InputPacket>)
    ensures
        sum_dx(a + b) == sum_dx(a) + sum_dx(b),
        sum_dy(a + b) == sum_dy(a) + sum_dy(b),
    decreases a.len(),
{
    if a.len() > 0 {
        lemma_sum_concat(a.drop_first(), b);
        assert((a + b).drop_first() =~= a.drop_first() + b);
    } else {
        assert(a + b =~= b);
    }
}

/// The events other than mouse motion, in order.
pub open spec fn non_moves(events: Seq<NativeWindowInputEvent>) -> Seq<NativeWindowInputEvent>
    decreases events.len(),
{
    if events.len() == 0 {
        seq![]
    } else if events[0] is MouseMove {
        non_moves(events.drop_first())
    } else {
        seq![events[0]] + non_moves(events.drop_first())
    }
}

/// The events carried by packets, other than mouse motion, in order.
pub open spec fn non_move_packets(packets: Seq<InputPacket>) -> Seq<NativeWindowInputEvent>
    decreases packets.len(),
{
    if packets.len() == 0 {
        seq![]
    } else if packets[0].event is MouseMove {
        non_move_packets(packets.drop_first())
    } else {
        seq![packets[0].event] + non_move_packets(packets.drop_first())
    }
}

proof fn lemma_non_move_concat(a: Seq<InputPacket>, b: Seq<InputPacket>)
    ensures
        non_move_packets(a + b) == non_move_packets(a) + non_move_packets(b),
    decreases a.len(),
{
    if a.len() > 0 {
        lemma_non_move_concat(a.drop_first(), b);
        assert((a + b).drop_first() =~= a.drop_first() + b);
        if !(a[0].event is MouseMove) {
            assert(seq![a[0].event] + (non_move_packets(a.drop_first()) + non_move_packets(b))
                =~= seq![a[0].event] + non_move_packets(a.drop_first()) + non_move_packets(b));
        }
    } else {
        assert(a + b =~= b);
    }
}

proof fn lemma_chunks_are_moves(dx: int, dy: int, timestamp_us: u64)
    ensures
        non_move_packets(move_chunks(dx, dy, timestamp_us)) == Seq::<NativeWindowInputEvent>::empty(),
    decreases abs(dx) + abs(dy),
{
    if !(dx == 0 && dy == 0) {
        let cx = clamp_i16(dx);
        let cy = clamp_i16(dy);
        lemma_chunks_are_moves(dx - cx, dy - cy, timestamp_us);
        let head = seq![
            InputPacket {
                event: NativeWindowInputEvent::MouseMove {
                    dx: cx as i16,
                    dy: cy as i16,
                    timestamp_us,
                },
                partially_reliable: true,
            },
        ];
        lemma_non_move_concat(head, move_chunks(dx - cx, dy - cy, timestamp_us));
        assert(head.drop_first() =~= Seq::<InputPacket>::empty());
        assert(non_move_packets(Seq::<InputPacket>::empty()) =~= Seq::<NativeWindowInputEvent>::empty());
        assert(non_move_packets(head) =~= Seq::<NativeWindowInputEvent>::empty());
    } else {
        assert(move_chunks(dx, dy, timestamp_us) =~= Seq::<InputPacket>::empty());
    }
}

/// Batching never drops, duplicates or reorders keys, buttons or wheel turns: the packets
/// carry exactly the batch's other events, in order.
pub proof fn law_batch_keeps_other_events(
    events: Seq<NativeWindowInputEvent>,
    pending: Option<PendingMove>,
)
    ensures
        non_move_packets(batch_packets(events, pending)) == non_moves(events),
    decreases events.len(),
{
    match pending {
        Some((dx, dy, ts)) => lemma_chunks_are_moves(dx as int, dy as int, ts),
        None => {},
    }
    if events.len() > 0 {
        match events[0] {
            NativeWindowInputEvent::MouseMove { dx, dy, timestamp_us } => {
                law_batch_keeps_other_events(
                    events.drop_first(),
                    Some(add_move(pending, dx, dy, timestamp_us)),
                );
            },
            other => {
                law_batch_keeps_other_events(events.drop_first(), None);
                let f = flush_packets(pending);
                let p = seq![packet_for(other)];
                let rest = batch_packets(events.drop_first(), None);
                lemma_non_move_concat(f + p, rest);
                lemma_non_move_concat(f, p);
                assert(!(other is MouseMove));
                assert(p[0].event == other);
                assert(p.drop_first() =~= Seq::<InputPacket>::empty());
                assert(non_move_packets(Seq::<InputPacket>::empty()) =~= Seq::<NativeWindowInputEvent>::empty());
                assert(non_move_packets(f) =~= seq![]);
                assert(non_move_packets(p) =~= seq![other]);
                assert(non_move_packets(f + p) =~= seq![other]);
            },
        }
    }
}

} // verus!
