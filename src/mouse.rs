//! The mouse: one identity for the whole run, updated by every cursor move
//! and button sample.
use vstd::prelude::*;
use crate::compositor::Compositor;
use crate::pointer::{
    push_unique, zero_delta, Delta, PointerButton, PointerEvent, PointerId, Pointers,
};
use crate::transform::{lemma_canvas_round_trip, CanvasPos};

verus! {

/// A cursor move to surface pixel `(x, y)`.
#[derive(Clone, Copy, Debug, PartialEq, Eq, Structural)]
pub struct CursorMoved {
    pub x: i64,
    pub y: i64,
}

/// A physical mouse button.
#[derive(Clone, Copy, Debug, PartialEq, Eq, Structural)]
pub enum MouseButton {
    Left,
    Right,
    Middle,
    Back,
    Forward,
    Other(u16),
}

/// Whether a button went down or up.
#[derive(Clone, Copy, Debug, PartialEq, Eq, Structural)]
pub enum ButtonState {
    Pressed,
    Released,
}

/// A button transition.
#[derive(Clone, Copy, Debug, PartialEq, Eq, Structural)]
pub struct MouseButtonInput {
    pub button: MouseButton,
    pub state: ButtonState,
}

/// The canvas position of the mouse's last move, if it has moved.
#[derive(Clone, Copy, Debug, PartialEq, Eq, Structural)]
pub struct MouseTracker {
    pub last: Option<CanvasPos>,
}

/// A canvas position in the range that the transform produces.
pub open spec fn canvas_pos_bounded(p: CanvasPos) -> bool {
    &&& 0 < p.den <= 0x4_0000_0000
    &&& 0 <= p.x <= 0x40_0000_0000_0000_0000
    &&& 0 <= p.y <= 0x40_0000_0000_0000_0000
}

impl MouseTracker {
    pub open spec fn wf(self) -> bool {
        self.last matches Some(p) ==> canvas_pos_bounded(p)
    }

    /// The mouse has not moved yet.
    pub fn new() -> (r: MouseTracker)
        ensures
            r.last is None,
            r.wf(),
    {
        MouseTracker { last: None }
    }
}

/// The motion from the last recorded position to `cur`: `cur - last` as a
/// ratio over the product of the denominators, zero on the first move.
pub open spec fn canvas_delta(last: Option<CanvasPos>, cur: CanvasPos) -> Delta {
    match last {
        None => zero_delta(),
        Some(l) => Delta {
            x: (cur.x * l.den - l.x * cur.den) as i128,
            y: (cur.y * l.den - l.y * cur.den) as i128,
            den: (cur.den * l.den) as u128,
        },
    }
}

/// The last position and the move events after a batch of cursor moves;
/// a move that maps outside the canvas is ignored.
pub open spec fn mouse_moves(last: Option<CanvasPos>, view: Compositor, ms: Seq<CursorMoved>) -> (
    Option<CanvasPos>,
    Seq<PointerEvent>,
)
    decreases ms.len(),
{
    if ms.len() == 0 {
        (last, Seq::empty())
    } else {
        let before = mouse_moves(last, view, ms.drop_last());
        let m = ms.last();
        match view.spec_viewport_to_canvas(m.x as int, m.y as int) {
            None => before,
            Some(pos) => (
                Some(pos),
                before.1.push(
                    PointerEvent::Move {
                        pointer: PointerId::Mouse,
                        position: pos,
                        delta: canvas_delta(before.0, pos),
                    },
                ),
            ),
        }
    }
}

/// The pointer button a mouse button stands for, if any.
pub open spec fn spec_pointer_button(b: MouseButton) -> Option<PointerButton> {
    match b {
        MouseButton::Left => Some(PointerButton::Primary),
        MouseButton::Right => Some(PointerButton::Secondary),
        MouseButton::Middle => Some(PointerButton::Middle),
        _ => None,
    }
}

/// The press events of a batch of button transitions.
pub open spec fn mouse_presses(bs: Seq<MouseButtonInput>) -> Seq<PointerEvent>
    decreases bs.len(),
{
    if bs.len() == 0 {
        Seq::empty()
    } else {
        let before = mouse_presses(bs.drop_last());
        let b = bs.last();
        match spec_pointer_button(b.button) {
            None => before,
            Some(button) => before.push(
                match b.state {
                    ButtonState::Pressed => PointerEvent::PressDown {
                        pointer: PointerId::Mouse,
                        button,
                    },
                    ButtonState::Released => PointerEvent::PressUp {
                        pointer: PointerId::Mouse,
                        button,
                    },
                },
            ),
        }
    }
}

/// Creates the mouse's identity.
pub fn spawn_mouse_pointer(pointers: &mut Pointers)
    requires
        old(pointers).wf(),
    ensures
        final(pointers).live@ == push_unique(old(pointers).live@, PointerId::Mouse),
        final(pointers).wf(),
{
    pointers.spawn(PointerId::Mouse);
}

fn pointer_button(b: MouseButton) -> (r: Option<PointerButton>)
    ensures
        r == spec_pointer_button(b),
{
    match b {
        MouseButton::Left => Some(PointerButton::Primary),
        MouseButton::Right => Some(PointerButton::Secondary),
        MouseButton::Middle => Some(PointerButton::Middle),
        _ => None,
    }
}

fn delta_from(last: Option<CanvasPos>, cur: &CanvasPos) -> (r: Delta)
    requires
        last matches Some(p) ==> canvas_pos_bounded(p),
        canvas_pos_bounded(*cur),
    ensures
        r == canvas_delta(last, *cur),
{
    match last {
        None => Delta { x: 0, y: 0, den: 1 },
        Some(l) => {
            proof {
                assert(0 <= cur.x * l.den <= 0x40_0000_0000_0000_0000 * 0x4_0000_0000)
                    by (nonlinear_arith)
                    requires 0 <= cur.x <= 0x40_0000_0000_0000_0000, 0 < l.den <= 0x4_0000_0000;
                assert(0 <= cur.y * l.den <= 0x40_0000_0000_0000_0000 * 0x4_0000_0000)
                    by (nonlinear_arith)
                    requires 0 <= cur.y <= 0x40_0000_0000_0000_0000, 0 < l.den <= 0x4_0000_0000;
                assert(0 <= l.x * cur.den <= 0x40_0000_0000_0000_0000 * 0x4_0000_0000)
                    by (nonlinear_arith)
                    requires 0 <= l.x <= 0x40_0000_0000_0000_0000, 0 < cur.den <= 0x4_0000_0000;
                assert(0 <= l.y * cur.den <= 0x40_0000_0000_0000_0000 * 0x4_0000_0000)
                    by (nonlinear_arith)
                    requires 0 <= l.y <= 0x40_0000_0000_0000_0000, 0 < cur.den <= 0x4_0000_0000;
                assert(0 < cur.den * l.den <= 0x4_0000_0000 * 0x4_0000_0000) by (nonlinear_arith)
                    requires 0 < cur.den <= 0x4_0000_0000, 0 < l.den <= 0x4_0000_0000;
            }
            Delta {
                x: cur.x * (l.den as i128) - l.x * (cur.den as i128),
                y: cur.y * (l.den as i128) - l.y * (cur.den as i128),
                den: (cur.den as u128) * (l.den as u128),
            }
        },
    }
}

/// Turns a batch of cursor moves and button transitions into pointer events
/// for the mouse: first one move event per move that maps into the canvas,
/// then one press event per left, right or middle button transition.
pub fn mouse_pick_events(
    tracker: &mut MouseTracker,
    view: &Compositor,
    moves: &Vec<CursorMoved>,
    buttons: &Vec<MouseButtonInput>,
) -> (events: Vec<PointerEvent>)
    requires
        old(tracker).wf(),
    ensures
        ({
            let r = mouse_moves(old(tracker).last, *view, moves@);
            &&& final(tracker).last == r.0
            &&& events@ == r.1 + mouse_presses(buttons@)
        }),
        final(tracker).wf(),
{
    let ghost last0 = tracker.last;
    let mut events: Vec<PointerEvent> = Vec::new();
    let mut i: usize = 0;
    while i < moves.len()
        invariant
            i <= moves@.len(),
            tracker.wf(),
            ({
                let r = mouse_moves(last0, *view, moves@.take(i as int));
                &&& tracker.last == r.0
                &&& events@ == r.1
            }),
        decreases moves@.len() - i,
    {
        assert(moves@.take(i + 1).drop_last() =~= moves@.take(i as int));
        assert(moves@.take(i + 1).last() == moves@[i as int]);
        let m = moves[i];
        match view.viewport_to_canvas(m.x, m.y) {
            Some(pos) => {
                proof {
                    lemma_canvas_round_trip(*view, m.x as int, m.y as int);
                }
                let delta = delta_from(tracker.last, &pos);
                events.push(PointerEvent::Move { pointer: PointerId::Mouse, position: pos, delta });
                tracker.last = Some(pos);
            },
            None => {},
        }
        i = i + 1;
    }
    assert(moves@.take(moves@.len() as int) =~= moves@);
    let ghost move_events = events@;
    let mut j: usize = 0;
    while j < buttons.len()
        invariant
            j <= buttons@.len(),
            events@ == move_events + mouse_presses(buttons@.take(j as int)),
        decreases buttons@.len() - j,
    {
        assert(buttons@.take(j + 1).drop_last() =~= buttons@.take(j as int));
        assert(buttons@.take(j + 1).last() == buttons@[j as int]);
        let b = buttons[j];
        match pointer_button(b.button) {
            Some(button) => {
                let event = match b.state {
                    ButtonState::Pressed => PointerEvent::PressDown {
                        pointer: PointerId::Mouse,
                        button,
                    },
                    ButtonState::Released => PointerEvent::PressUp {
                        pointer: PointerId::Mouse,
                        button,
                    },
                };
                events.push(event);
                assert(events@ =~= move_events + mouse_presses(buttons@.take(j + 1)));
            },
            None => {},
        }
        j = j + 1;
    }
    assert(buttons@.take(buttons@.len() as int) =~= buttons@);
    events
}

} // verus!
