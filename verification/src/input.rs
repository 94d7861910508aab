//! Input collection: raw platform window messages are classified into
//! normalized input events and buffered in arrival order. The queue is
//! drained exactly once per frame, at the start of a present call.

use vstd::prelude::*;

verus! {

pub const WM_KEYDOWN: u32 = 0x0100;

pub const WM_KEYUP: u32 = 0x0101;

pub const WM_CHAR: u32 = 0x0102;

pub const WM_SYSKEYDOWN: u32 = 0x0104;

pub const WM_SYSKEYUP: u32 = 0x0105;

pub const WM_MOUSEMOVE: u32 = 0x0200;

pub const WM_LBUTTONDOWN: u32 = 0x0201;

pub const WM_LBUTTONUP: u32 = 0x0202;

pub const WM_RBUTTONDOWN: u32 = 0x0204;

pub const WM_RBUTTONUP: u32 = 0x0205;

pub const WM_MBUTTONDOWN: u32 = 0x0207;

pub const WM_MBUTTONUP: u32 = 0x0208;

pub const WM_MOUSEWHEEL: u32 = 0x020A;

pub const WM_MOUSEHWHEEL: u32 = 0x020E;

/// Virtual key code of the shift key.
pub const VK_SHIFT: u16 = 0x10;

/// Virtual key code of the control key.
pub const VK_CONTROL: u16 = 0x11;

/// Virtual key code of the alt (menu) key.
pub const VK_MENU: u16 = 0x12;

/// The modifier keys held down, tracked across messages.
#[derive(Clone, Copy, PartialEq, Eq, Debug)]
pub struct Modifiers {
    pub alt: bool,
    pub ctrl: bool,
    pub shift: bool,
}

impl Modifiers {
    /// No modifier key held.
    pub fn none() -> (m: Modifiers)
        ensures
            m == (Modifiers { alt: false, ctrl: false, shift: false }),
    {
        Modifiers { alt: false, ctrl: false, shift: false }
    }
}

/// A pointer button, by its role.
#[derive(Clone, Copy, PartialEq, Eq, Debug)]
pub enum MouseButton {
    Primary,
    Secondary,
    Middle,
}

/// One normalized input event. Queue order is event order.
#[derive(Clone, Copy, PartialEq, Eq, Debug)]
pub enum InputEvent {
    PointerMove { x: i32, y: i32 },
    PointerButton { button: MouseButton, down: bool, x: i32, y: i32 },
    Scroll { dx: i32, dy: i32 },
    Key { code: u16, down: bool, modifiers: Modifiers },
    Text { code_unit: u16 },
    ModifierChange { modifiers: Modifiers },
}

/// The low 16 bits of `v`, read as a signed quantity.
pub open spec fn sx16(v: int) -> int {
    if v % 0x10000 < 0x8000 {
        v % 0x10000
    } else {
        v % 0x10000 - 0x10000
    }
}

/// The horizontal cursor position packed into a mouse message's `lparam`.
pub open spec fn cursor_x(lparam: i64) -> int {
    sx16((lparam as u64) as int)
}

/// The vertical cursor position packed into a mouse message's `lparam`.
pub open spec fn cursor_y(lparam: i64) -> int {
    sx16(((lparam as u64) / 0x10000) as int)
}

/// The wheel rotation packed into a wheel message's `wparam`.
pub open spec fn wheel_delta(wparam: u64) -> int {
    sx16((wparam / 0x10000) as int)
}

/// The virtual key code packed into a key message's `wparam`.
pub open spec fn key_code_spec(wparam: u64) -> int {
    wparam as int % 0x10000
}

/// Reads the horizontal cursor position out of `lparam`.
fn decode_cursor_x(lparam: i64) -> (r: i32)
    ensures
        r == cursor_x(lparam),
{
    let lo: u64 = (lparam as u64) % 0x10000;
    if lo < 0x8000 {
        lo as i32
    } else {
        (lo as i32) - 0x10000
    }
}

/// Reads the vertical cursor position out of `lparam`.
fn decode_cursor_y(lparam: i64) -> (r: i32)
    ensures
        r == cursor_y(lparam),
{
    let hi: u64 = ((lparam as u64) / 0x10000) % 0x10000;
    if hi < 0x8000 {
        hi as i32
    } else {
        (hi as i32) - 0x10000
    }
}

/// Reads the wheel rotation out of `wparam`.
fn decode_wheel_delta(wparam: u64) -> (r: i32)
    ensures
        r == wheel_delta(wparam),
{
    let hi: u64 = (wparam / 0x10000) % 0x10000;
    if hi < 0x8000 {
        hi as i32
    } else {
        (hi as i32) - 0x10000
    }
}

/// Reads the virtual key code out of `wparam`.
fn decode_key_code(wparam: u64) -> (r: u16)
    ensures
        r == key_code_spec(wparam),
{
    (wparam % 0x10000) as u16
}

/// Whether a raw message is one this collector classifies and consumes.
pub open spec fn recognized(umsg: u32) -> bool {
    ||| umsg == WM_MOUSEMOVE
    ||| umsg == WM_LBUTTONDOWN
    ||| umsg == WM_LBUTTONUP
    ||| umsg == WM_RBUTTONDOWN
    ||| umsg == WM_RBUTTONUP
    ||| umsg == WM_MBUTTONDOWN
    ||| umsg == WM_MBUTTONUP
    ||| umsg == WM_MOUSEWHEEL
    ||| umsg == WM_MOUSEHWHEEL
    ||| umsg == WM_KEYDOWN
    ||| umsg == WM_KEYUP
    ||| umsg == WM_SYSKEYDOWN
    ||| umsg == WM_SYSKEYUP
    ||| umsg == WM_CHAR
}

/// Whether a key message's code is a modifier key.
pub open spec fn is_modifier_key(code: int) -> bool {
    code == VK_SHIFT as int || code == VK_CONTROL as int || code == VK_MENU as int
}

/// The modifier state after a raw message: key messages for a modifier key
/// set or clear its flag; every other message leaves the state alone.
pub open spec fn next_modifiers(m: Modifiers, umsg: u32, wparam: u64) -> Modifiers {
    if umsg == WM_KEYDOWN || umsg == WM_SYSKEYDOWN || umsg == WM_KEYUP || umsg == WM_SYSKEYUP {
        let down = umsg == WM_KEYDOWN || umsg == WM_SYSKEYDOWN;
        let code = key_code_spec(wparam);
        if code == VK_SHIFT as int {
            Modifiers { alt: m.alt, ctrl: m.ctrl, shift: down }
        } else if code == VK_CONTROL as int {
            Modifiers { alt: m.alt, ctrl: down, shift: m.shift }
        } else if code == VK_MENU as int {
            Modifiers { alt: down, ctrl: m.ctrl, shift: m.shift }
        } else {
            m
        }
    } else {
        m
    }
}

/// The normalized event a recognized raw message classifies to, given the
/// modifier state before the message.
pub open spec fn event_of(m: Modifiers, umsg: u32, wparam: u64, lparam: i64) -> InputEvent
    recommends
        recognized(umsg),
{
    if umsg == WM_MOUSEMOVE {
        InputEvent::PointerMove { x: cursor_x(lparam) as i32, y: cursor_y(lparam) as i32 }
    } else if umsg == WM_LBUTTONDOWN || umsg == WM_LBUTTONUP {
        InputEvent::PointerButton {
            button: MouseButton::Primary,
            down: umsg == WM_LBUTTONDOWN,
            x: cursor_x(lparam) as i32,
            y: cursor_y(lparam) as i32,
        }
    } else if umsg == WM_RBUTTONDOWN || umsg == WM_RBUTTONUP {
        InputEvent::PointerButton {
            button: MouseButton::Secondary,
            down: umsg == WM_RBUTTONDOWN,
            x: cursor_x(lparam) as i32,
            y: cursor_y(lparam) as i32,
        }
    } else if umsg == WM_MBUTTONDOWN || umsg == WM_MBUTTONUP {
        InputEvent::PointerButton {
            button: MouseButton::Middle,
            down: umsg == WM_MBUTTONDOWN,
            x: cursor_x(lparam) as i32,
            y: cursor_y(lparam) as i32,
        }
    } else if umsg == WM_MOUSEWHEEL {
        InputEvent::Scroll { dx: 0, dy: wheel_delta(wparam) as i32 }
    } else if umsg == WM_MOUSEHWHEEL {
        InputEvent::Scroll { dx: wheel_delta(wparam) as i32, dy: 0 }
    } else if umsg == WM_CHAR {
        InputEvent::Text { code_unit: key_code_spec(wparam) as u16 }
    } else {
        let down = umsg == WM_KEYDOWN || umsg == WM_SYSKEYDOWN;
        let code = key_code_spec(wparam);
        if is_modifier_key(code) {
            InputEvent::ModifierChange { modifiers: next_modifiers(m, umsg, wparam) }
        } else {
            InputEvent::Key { code: code as u16, down, modifiers: m }
        }
    }
}

/// Buffers normalized input events between frames. Single writer and single
/// reader are serialized by the caller's lock; within that serialization the
/// queue is appended by message processing and drained whole by each frame.
pub struct InputCollector {
    pub events: Vec<InputEvent>,
    pub modifiers: Modifiers,
}

impl InputCollector {
    /// An empty collector with no modifier held.
    pub fn new() -> (c: InputCollector)
        ensures
            c.events@ =~= Seq::<InputEvent>::empty(),
            c.modifiers == (Modifiers { alt: false, ctrl: false, shift: false }),
    {
        InputCollector { events: Vec::new(), modifiers: Modifiers::none() }
    }

    /// Classifies one raw message. A recognized message appends exactly one
    /// normalized event to the pending queue and reports itself consumed;
    /// anything else changes nothing and reports false.
    pub fn process(&mut self, umsg: u32, wparam: u64, lparam: i64) -> (consumed: bool)
        ensures
            consumed == recognized(umsg),
            recognized(umsg) ==> final(self).events@ =~= old(self).events@.push(
                event_of(old(self).modifiers, umsg, wparam, lparam),
            ) && final(self).modifiers == next_modifiers(old(self).modifiers, umsg, wparam),
            !recognized(umsg) ==> *final(self) == *old(self),
    {
        if umsg == WM_MOUSEMOVE {
            let x = decode_cursor_x(lparam);
            let y = decode_cursor_y(lparam);
            self.events.push(InputEvent::PointerMove { x, y });
            true
        } else if umsg == WM_LBUTTONDOWN || umsg == WM_LBUTTONUP || umsg == WM_RBUTTONDOWN || umsg
            == WM_RBUTTONUP || umsg == WM_MBUTTONDOWN || umsg == WM_MBUTTONUP {
            let button = if umsg == WM_LBUTTONDOWN || umsg == WM_LBUTTONUP {
                MouseButton::Primary
            } else if umsg == WM_RBUTTONDOWN || umsg == WM_RBUTTONUP {
                MouseButton::Secondary
            } else {
                MouseButton::Middle
            };
            let down = umsg == WM_LBUTTONDOWN || umsg == WM_RBUTTONDOWN || umsg == WM_MBUTTONDOWN;
            let x = decode_cursor_x(lparam);
            let y = decode_cursor_y(lparam);
            self.events.push(InputEvent::PointerButton { button, down, x, y });
            true
        } else if umsg == WM_MOUSEWHEEL {
            let dy = decode_wheel_delta(wparam);
            self.events.push(InputEvent::Scroll { dx: 0, dy });
            true
        } else if umsg == WM_MOUSEHWHEEL {
            let dx = decode_wheel_delta(wparam);
            self.events.push(InputEvent::Scroll { dx, dy: 0 });
            true
        } else if umsg == WM_CHAR {
            let code_unit = decode_key_code(wparam);
            self.events.push(InputEvent::Text { code_unit });
            true
        } else if umsg == WM_KEYDOWN || umsg == WM_SYSKEYDOWN || umsg == WM_KEYUP || umsg
            == WM_SYSKEYUP {
            let down = umsg == WM_KEYDOWN || umsg == WM_SYSKEYDOWN;
            let code = decode_key_code(wparam);
            if code == VK_SHIFT || code == VK_CONTROL || code == VK_MENU {
                let m = Modifiers {
                    alt: if code == VK_MENU {
                        down
                    } else {
                        self.modifiers.alt
                    },
                    ctrl: if code == VK_CONTROL {
                        down
                    } else {
                        self.modifiers.ctrl
                    },
                    shift: if code == VK_SHIFT {
                        down
                    } else {
                        self.modifiers.shift
                    },
                };
                self.modifiers = m;
                self.events.push(InputEvent::ModifierChange { modifiers: m });
            } else {
                let modifiers = self.modifiers;
                self.events.push(InputEvent::Key { code, down, modifiers });
            }
            true
        } else {
            false
        }
    }

    /// Drains the whole pending queue, leaving it empty, preserving arrival
    /// order. Called exactly once per frame.
    pub fn collect_input(&mut self) -> (batch: Vec<InputEvent>)
        ensures
            batch@ =~= old(self).events@,
            final(self).events@ =~= Seq::<InputEvent>::empty(),
            final(self).modifiers == old(self).modifiers,
    {
        let mut batch: Vec<InputEvent> = Vec::new();
        core::mem::swap(&mut batch, &mut self.events);
        batch
    }
}

/// One raw platform window message.
#[derive(Clone, Copy, PartialEq, Eq, Debug)]
pub struct RawMessage {
    pub umsg: u32,
    pub wparam: u64,
    pub lparam: i64,
}

/// One operation on the collector, as the container's lock serializes them:
/// a message delivery, or a frame's drain at the start of a present call.
pub enum CollectorOp {
    Deliver(RawMessage),
    Drain,
}

/// The pending queue after a serialized run of operations, starting from
/// queue `q` and modifier state `m`: deliveries of recognized messages
/// append their event, drains empty the queue.
pub open spec fn queue_after(q: Seq<InputEvent>, m: Modifiers, ops: Seq<CollectorOp>) -> Seq<
    InputEvent,
>
    decreases ops.len(),
{
    if ops.len() == 0 {
        q
    } else {
        match ops[0] {
            CollectorOp::Deliver(msg) => {
                if recognized(msg.umsg) {
                    queue_after(
                        q.push(event_of(m, msg.umsg, msg.wparam, msg.lparam)),
                        next_modifiers(m, msg.umsg, msg.wparam),
                        ops.drop_first(),
                    )
                } else {
                    queue_after(q, m, ops.drop_first())
                }
            },
            CollectorOp::Drain => queue_after(Seq::empty(), m, ops.drop_first()),
        }
    }
}

/// The batches the drains see, in order, over a serialized run of
/// operations: each drain takes the whole queue as it stands.
pub open spec fn batches_after(q: Seq<InputEvent>, m: Modifiers, ops: Seq<CollectorOp>) -> Seq<
    Seq<InputEvent>,
>
    decreases ops.len(),
{
    if ops.len() == 0 {
        Seq::empty()
    } else {
        match ops[0] {
            CollectorOp::Deliver(msg) => {
                if recognized(msg.umsg) {
                    batches_after(
                        q.push(event_of(m, msg.umsg, msg.wparam, msg.lparam)),
                        next_modifiers(m, msg.umsg, msg.wparam),
                        ops.drop_first(),
                    )
                } else {
                    batches_after(q, m, ops.drop_first())
                }
            },
            CollectorOp::Drain => seq![q].add(batches_after(Seq::empty(), m, ops.drop_first())),
        }
    }
}

/// The events of the recognized messages a run of operations delivers, in
/// arrival order.
pub open spec fn delivered_events(m: Modifiers, ops: Seq<CollectorOp>) -> Seq<InputEvent>
    decreases ops.len(),
{
    if ops.len() == 0 {
        Seq::empty()
    } else {
        match ops[0] {
            CollectorOp::Deliver(msg) => {
                if recognized(msg.umsg) {
                    seq![event_of(m, msg.umsg, msg.wparam, msg.lparam)].add(
                        delivered_events(next_modifiers(m, msg.umsg, msg.wparam), ops.drop_first()),
                    )
                } else {
                    delivered_events(m, ops.drop_first())
                }
            },
            CollectorOp::Drain => delivered_events(m, ops.drop_first()),
        }
    }
}

/// Under the lock's serialization, no event is lost and none is duplicated:
/// over any run of deliveries and drains, the drained batches in order,
/// followed by what still sits in the queue, are exactly the starting queue
/// followed by every delivered event in arrival order — so each event is
/// attributed to exactly one frame (or still pending).
pub proof fn lemma_each_event_attributed_once(
    q: Seq<InputEvent>,
    m: Modifiers,
    ops: Seq<CollectorOp>,
)
    ensures
        batches_after(q, m, ops).flatten().add(queue_after(q, m, ops)) =~= q.add(
            delivered_events(m, ops),
        ),
    decreases ops.len(),
{
    if ops.len() == 0 {
        assert(batches_after(q, m, ops).flatten() =~= Seq::<InputEvent>::empty());
    } else {
        let rest = ops.drop_first();
        match ops[0] {
            CollectorOp::Deliver(msg) => {
                if recognized(msg.umsg) {
                    let ev = event_of(m, msg.umsg, msg.wparam, msg.lparam);
                    let m2 = next_modifiers(m, msg.umsg, msg.wparam);
                    lemma_each_event_attributed_once(q.push(ev), m2, rest);
                    assert(q.push(ev).add(delivered_events(m2, rest)) =~= q.add(
                        seq![ev].add(delivered_events(m2, rest)),
                    ));
                } else {
                    lemma_each_event_attributed_once(q, m, rest);
                }
            },
            CollectorOp::Drain => {
                lemma_each_event_attributed_once(Seq::empty(), m, rest);
                let b = batches_after(Seq::empty(), m, rest);
                assert(seq![q].add(b).drop_first() =~= b);
                assert(seq![q].add(b).flatten() == q.add(b.flatten()));
                assert(q.add(b.flatten()).add(queue_after(Seq::empty(), m, rest)) =~= q.add(
                    b.flatten().add(queue_after(Seq::empty(), m, rest)),
                ));
                assert(b.flatten().add(queue_after(Seq::empty(), m, rest)) == Seq::<
                    InputEvent,
                >::empty().add(delivered_events(m, rest)));
                assert(Seq::<InputEvent>::empty().add(delivered_events(m, rest))
                    =~= delivered_events(m, rest));
            },
        }
    }
}

/// The deliveries of a message list, in order.
pub open spec fn deliveries(msgs: Seq<RawMessage>) -> Seq<CollectorOp> {
    msgs.map_values(|msg: RawMessage| CollectorOp::Deliver(msg))
}

/// When every message is recognized, exactly one event is delivered per
/// message.
pub proof fn lemma_delivered_counts_messages(m: Modifiers, msgs: Seq<RawMessage>)
    requires
        forall|i: int| 0 <= i < msgs.len() ==> recognized(#[trigger] msgs[i].umsg),
    ensures
        delivered_events(m, deliveries(msgs)).len() == msgs.len(),
    decreases msgs.len(),
{
    if msgs.len() > 0 {
        let msg = msgs[0];
        let m2 = next_modifiers(m, msg.umsg, msg.wparam);
        assert(deliveries(msgs)[0] == CollectorOp::Deliver(msg));
        assert(deliveries(msgs).drop_first() =~= deliveries(msgs.drop_first()));
        lemma_delivered_counts_messages(m2, msgs.drop_first());
    }
}

/// Message deliveries followed by two drains: the first drain's frame sees
/// the whole pending queue and every delivered event, in order; the second
/// drain, with no delivery in between, sees nothing — draining is
/// destructive and exactly once per frame.
pub proof fn lemma_two_drains_see_all_then_nothing(
    q: Seq<InputEvent>,
    m: Modifiers,
    msgs: Seq<RawMessage>,
)
    ensures
        batches_after(q, m, deliveries(msgs).add(seq![CollectorOp::Drain, CollectorOp::Drain]))
            =~= seq![q.add(delivered_events(m, deliveries(msgs))), Seq::<InputEvent>::empty()],
        queue_after(q, m, deliveries(msgs).add(seq![CollectorOp::Drain, CollectorOp::Drain])) =~= Seq::<
            InputEvent,
        >::empty(),
    decreases msgs.len(),
{
    let ops = deliveries(msgs).add(seq![CollectorOp::Drain, CollectorOp::Drain]);
    if msgs.len() == 0 {
        assert(ops =~= seq![CollectorOp::Drain, CollectorOp::Drain]);
        assert(ops[0] == CollectorOp::Drain);
        assert(ops.drop_first() =~= seq![CollectorOp::Drain]);
        assert(ops.drop_first()[0] == CollectorOp::Drain);
        assert(ops.drop_first().drop_first() =~= Seq::<CollectorOp>::empty());
        assert(batches_after(Seq::empty(), m, ops.drop_first().drop_first()) =~= Seq::<
            Seq<InputEvent>,
        >::empty());
        assert(batches_after(Seq::empty(), m, ops.drop_first()) =~= seq![
            Seq::<InputEvent>::empty(),
        ]);
        assert(batches_after(q, m, ops) =~= seq![q, Seq::<InputEvent>::empty()]);
        assert(q.add(delivered_events(m, deliveries(msgs))) =~= q);
        assert(queue_after(Seq::empty(), m, ops.drop_first().drop_first()) =~= Seq::<
            InputEvent,
        >::empty());
        assert(queue_after(Seq::empty(), m, ops.drop_first()) =~= Seq::<InputEvent>::empty());
        assert(queue_after(q, m, ops) =~= Seq::<InputEvent>::empty());
    } else {
        let msg = msgs[0];
        assert(deliveries(msgs)[0] == CollectorOp::Deliver(msg));
        assert(ops[0] == CollectorOp::Deliver(msg));
        let rest_ops = deliveries(msgs.drop_first()).add(
            seq![CollectorOp::Drain, CollectorOp::Drain],
        );
        assert(ops.drop_first() =~= rest_ops);
        if recognized(msg.umsg) {
            let ev = event_of(m, msg.umsg, msg.wparam, msg.lparam);
            let m2 = next_modifiers(m, msg.umsg, msg.wparam);
            lemma_two_drains_see_all_then_nothing(q.push(ev), m2, msgs.drop_first());
            assert(deliveries(msgs).drop_first() =~= deliveries(msgs.drop_first()));
            assert(q.push(ev).add(delivered_events(m2, deliveries(msgs.drop_first()))) =~= q.add(
                delivered_events(m, deliveries(msgs)),
            ));
            assert(queue_after(q, m, ops) == queue_after(q.push(ev), m2, rest_ops));
        } else {
            lemma_two_drains_see_all_then_nothing(q, m, msgs.drop_first());
            assert(deliveries(msgs).drop_first() =~= deliveries(msgs.drop_first()));
            assert(queue_after(q, m, ops) == queue_after(q, m, rest_ops));
        }
    }
}

} // verus!
