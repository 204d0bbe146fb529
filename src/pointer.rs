//! Pointer identities, the events emitted in canvas space, and the set of
//! live pointer identities.
use vstd::prelude::*;
use crate::transform::CanvasPos;

verus! {

/// A logical input source: the mouse, or one active touch contact.
#[derive(Clone, Copy, Debug, PartialEq, Eq, Structural)]
pub enum PointerId {
    Mouse,
    Touch(u64),
}

/// A pointer button.
#[derive(Clone, Copy, Debug, PartialEq, Eq, Structural)]
pub enum PointerButton {
    Primary,
    Secondary,
    Middle,
}

/// A motion delta `(x / den, y / den)` pixels.
#[derive(Clone, Copy, Debug, PartialEq, Eq, Structural)]
pub struct Delta {
    pub x: i128,
    pub y: i128,
    pub den: u128,
}

/// The zero delta.
pub open spec fn zero_delta() -> Delta {
    Delta { x: 0, y: 0, den: 1 }
}

/// An event handed to the consumers of pointer input.
#[derive(Clone, Copy, Debug, PartialEq, Eq, Structural)]
pub enum PointerEvent {
    Move { pointer: PointerId, position: CanvasPos, delta: Delta },
    PressDown { pointer: PointerId, button: PointerButton },
    PressUp { pointer: PointerId, button: PointerButton },
    Cancel { pointer: PointerId },
}

/// `s` with `x` appended, unless `s` already holds it.
pub open spec fn push_unique<T>(s: Seq<T>, x: T) -> Seq<T> {
    if s.contains(x) {
        s
    } else {
        s.push(x)
    }
}

/// Appending only what is absent keeps a sequence free of duplicates.
pub proof fn lemma_push_unique_no_duplicates<T>(s: Seq<T>, x: T)
    requires
        s.no_duplicates(),
    ensures
        push_unique(s, x).no_duplicates(),
        push_unique(s, x).contains(x),
        forall|y: T| #[trigger] push_unique(s, x).contains(y) <==> s.contains(y) || y == x,
{
    if !s.contains(x) {
        let t = s.push(x);
        assert forall|i: int, j: int| 0 <= i < t.len() && 0 <= j < t.len() && i != j implies t[i]
            != t[j] by {
            if i < s.len() && j < s.len() {
            } else if i == s.len() {
                assert(s.contains(t[j]));
            } else {
                assert(s.contains(t[i]));
            }
        }
        assert(t[s.len() as int] == x);
        assert forall|y: T| #[trigger] t.contains(y) implies s.contains(y) || y == x by {
            let k = choose|k: int| 0 <= k < t.len() && t[k] == y;
            if k < s.len() {
                assert(s[k] == y);
            }
        }
        assert forall|y: T| s.contains(y) implies #[trigger] t.contains(y) by {
            let k = choose|k: int| 0 <= k < s.len() && s[k] == y;
            assert(t[k] == y);
        }
    }
}

/// The live pointer identities, each held once.
#[derive(Debug)]
pub struct Pointers {
    pub live: Vec<PointerId>,
}

impl Pointers {
    pub open spec fn wf(&self) -> bool {
        self.live@.no_duplicates()
    }

    /// No live pointer.
    pub fn new() -> (r: Pointers)
        ensures
            r.live@ == Seq::<PointerId>::empty(),
            r.wf(),
    {
        Pointers { live: Vec::new() }
    }

    /// Whether `p` is live.
    pub fn contains(&self, p: PointerId) -> (r: bool)
        ensures
            r == self.live@.contains(p),
    {
        let mut i: usize = 0;
        while i < self.live.len()
            invariant
                i <= self.live@.len(),
                forall|k: int| 0 <= k < i ==> self.live@[k] != p,
            decreases self.live@.len() - i,
        {
            if self.live[i] == p {
                return true;
            }
            i = i + 1;
        }
        false
    }

    /// Makes `p` live, unless it already is.
    pub fn spawn(&mut self, p: PointerId)
        requires
            old(self).wf(),
        ensures
            final(self).live@ == push_unique(old(self).live@, p),
            final(self).wf(),
    {
        proof {
            lemma_push_unique_no_duplicates(self.live@, p);
        }
        if !self.contains(p) {
            self.live.push(p);
        }
    }
}

/// Which kinds of input are turned into pointer events.
#[derive(Clone, Copy, Debug, PartialEq, Eq, Structural)]
pub struct RetroInputPluginSettings {
    is_touch_enabled: bool,
    is_mouse_enabled: bool,
}

impl Default for RetroInputPluginSettings {
    fn default() -> (r: RetroInputPluginSettings)
        ensures
            r.touch_enabled() && r.mouse_enabled(),
    {
        RetroInputPluginSettings { is_touch_enabled: true, is_mouse_enabled: true }
    }
}

impl RetroInputPluginSettings {
    pub closed spec fn touch_enabled(self) -> bool {
        self.is_touch_enabled
    }

    pub closed spec fn mouse_enabled(self) -> bool {
        self.is_mouse_enabled
    }

    /// Settings with each kind of input turned on or off.
    pub fn new(touch: bool, mouse: bool) -> (r: RetroInputPluginSettings)
        ensures
            r.touch_enabled() == touch,
            r.mouse_enabled() == mouse,
    {
        RetroInputPluginSettings { is_touch_enabled: touch, is_mouse_enabled: mouse }
    }

    /// Whether touch input is processed.
    pub fn is_touch_enabled(&self) -> (r: bool)
        ensures
            r == self.touch_enabled(),
    {
        self.is_touch_enabled
    }

    /// Whether mouse input is processed.
    pub fn is_mouse_enabled(&self) -> (r: bool)
        ensures
            r == self.mouse_enabled(),
    {
        self.is_mouse_enabled
    }
}

} // verus!
