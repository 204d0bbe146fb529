//! Touch contacts: one pointer identity per active contact, created on the
//! contact's first sample and destroyed once, after the frame's input.
use vstd::prelude::*;
use std::collections::HashMap;
use crate::compositor::Compositor;
use crate::pointer::{
    lemma_push_unique_no_duplicates, push_unique, zero_delta, Delta, PointerButton, PointerEvent,
    PointerId, Pointers,
};

verus! {

broadcast use vstd::std_specs::hash::group_hash_axioms;

/// The phase of a touch sample.
#[derive(Clone, Copy, Debug, PartialEq, Eq, Structural)]
pub enum TouchPhase {
    Started,
    Moved,
    Ended,
    Canceled,
}

/// A raw touch sample at surface pixel `(x, y)`, tagged with the contact id
/// the input source gave it.
#[derive(Clone, Copy, Debug, PartialEq, Eq, Structural)]
pub struct TouchInput {
    pub phase: TouchPhase,
    pub x: i64,
    pub y: i64,
    pub id: u64,
}

/// The touch state kept between samples: the last sample of each active
/// contact, and the contacts whose identities await destruction.
#[derive(Debug)]
pub struct TouchTracker {
    pub cache: HashMap<u64, TouchInput>,
    pub pending: Vec<u64>,
}

/// The mathematical state of touch handling.
pub struct TouchModel {
    pub cache: Map<u64, TouchInput>,
    pub pending: Seq<u64>,
    pub live: Seq<PointerId>,
}

impl TouchModel {
    /// Each contact awaits destruction once at most, and each identity is
    /// live once at most.
    pub open spec fn wf(self) -> bool {
        self.pending.no_duplicates() && self.live.no_duplicates()
    }
}

impl TouchTracker {
    /// No contact known, none pending.
    pub fn new() -> (r: TouchTracker)
        ensures
            r.cache@ == Map::<u64, TouchInput>::empty(),
            r.pending@ == Seq::<u64>::empty(),
    {
        TouchTracker { cache: HashMap::new(), pending: Vec::new() }
    }

    /// The tracker and the live identities as one mathematical state.
    pub open spec fn model(&self, pointers: &Pointers) -> TouchModel {
        TouchModel { cache: self.cache@, pending: self.pending@, live: pointers.live@ }
    }
}

/// The raw delta from sample `a` to sample `b`, in surface pixels.
pub open spec fn raw_delta(a: TouchInput, b: TouchInput) -> Delta {
    Delta { x: (b.x - a.x) as i128, y: (b.y - a.y) as i128, den: 1 }
}

/// Whether the phase ends a contact.
pub open spec fn ends_contact(phase: TouchPhase) -> bool {
    phase is Ended || phase is Canceled
}

/// What one touch sample does to the state, and the events it emits. A
/// sample that maps outside the canvas emits nothing; if it ends its contact,
/// the contact's identity is still queued for destruction.
pub open spec fn touch_step(m: TouchModel, view: Compositor, t: TouchInput) -> (
    TouchModel,
    Seq<PointerEvent>,
) {
    let pointer = PointerId::Touch(t.id);
    let pending = if ends_contact(t.phase) {
        push_unique(m.pending, t.id)
    } else {
        m.pending
    };
    match view.spec_viewport_to_canvas(t.x as int, t.y as int) {
        None => (TouchModel { cache: m.cache, pending, live: m.live }, Seq::empty()),
        Some(pos) => match t.phase {
            TouchPhase::Started => (
                TouchModel {
                    cache: m.cache.insert(t.id, t),
                    pending,
                    live: push_unique(m.live, pointer),
                },
                seq![
                    PointerEvent::Move { pointer, position: pos, delta: zero_delta() },
                    PointerEvent::PressDown { pointer, button: PointerButton::Primary },
                ],
            ),
            TouchPhase::Moved => {
                if m.cache.contains_key(t.id) && m.cache[t.id] == t {
                    (m, Seq::empty())
                } else if m.cache.contains_key(t.id) {
                    (
                        TouchModel { cache: m.cache.insert(t.id, t), pending, live: m.live },
                        seq![
                            PointerEvent::Move {
                                pointer,
                                position: pos,
                                delta: raw_delta(m.cache[t.id], t),
                            },
                        ],
                    )
                } else {
                    (TouchModel { cache: m.cache.insert(t.id, t), pending, live: m.live }, Seq::empty())
                }
            },
            TouchPhase::Ended => (
                TouchModel { cache: m.cache.remove(t.id), pending, live: m.live },
                seq![PointerEvent::PressUp { pointer, button: PointerButton::Primary }],
            ),
            TouchPhase::Canceled => (
                TouchModel { cache: m.cache.remove(t.id), pending, live: m.live },
                seq![
                    PointerEvent::PressUp { pointer, button: PointerButton::Primary },
                    PointerEvent::Cancel { pointer },
                ],
            ),
        },
    }
}

/// The state after a batch of samples, taken in order, and every event
/// they emit, in order.
pub open spec fn touch_run(m: TouchModel, view: Compositor, ts: Seq<TouchInput>) -> (
    TouchModel,
    Seq<PointerEvent>,
)
    decreases ts.len(),
{
    if ts.len() == 0 {
        (m, Seq::empty())
    } else {
        let before = touch_run(m, view, ts.drop_last());
        let after = touch_step(before.0, view, ts.last());
        (after.0, before.1 + after.1)
    }
}

/// The sample's raw delta from the cached sample, computed without overflow.
fn delta_between(a: &TouchInput, b: &TouchInput) -> (r: Delta)
    ensures
        r == raw_delta(*a, *b),
{
    Delta { x: b.x as i128 - a.x as i128, y: b.y as i128 - a.y as i128, den: 1 }
}

/// Whether `v` holds `id`.
fn holds_id(v: &Vec<u64>, id: u64) -> (r: bool)
    ensures
        r == v@.contains(id),
{
    let mut i: usize = 0;
    while i < v.len()
        invariant
            i <= v@.len(),
            forall|k: int| 0 <= k < i ==> v@[k] != id,
        decreases v@.len() - i,
    {
        if v[i] == id {
            return true;
        }
        i = i + 1;
    }
    false
}

/// Handles one touch sample, appending what it emits to `events`.
fn touch_sample(
    tracker: &mut TouchTracker,
    pointers: &mut Pointers,
    view: &Compositor,
    t: TouchInput,
    events: &mut Vec<PointerEvent>,
)
    requires
        old(pointers).wf(),
        old(tracker).pending@.no_duplicates(),
    ensures
        ({
            let r = touch_step(old(tracker).model(old(pointers)), *view, t);
            &&& final(tracker).model(final(pointers)) == r.0
            &&& final(events)@ == old(events)@ + r.1
        }),
        final(pointers).wf(),
        final(tracker).pending@.no_duplicates(),
{
    let ghost m = tracker.model(pointers);
    let ghost r = touch_step(m, *view, t);
    let pointer = PointerId::Touch(t.id);
    if t.phase == TouchPhase::Ended || t.phase == TouchPhase::Canceled {
        proof {
            lemma_push_unique_no_duplicates(tracker.pending@, t.id);
        }
        if !holds_id(&tracker.pending, t.id) {
            tracker.pending.push(t.id);
        }
    }
    let pos = match view.viewport_to_canvas(t.x, t.y) {
        Some(pos) => pos,
        None => {
            assert(events@ =~= old(events)@ + r.1);
            return;
        },
    };
    match t.phase {
        TouchPhase::Started => {
            pointers.spawn(pointer);
            events.push(PointerEvent::Move { pointer, position: pos, delta: Delta { x: 0, y: 0, den: 1 } });
            events.push(PointerEvent::PressDown { pointer, button: PointerButton::Primary });
            tracker.cache.insert(t.id, t);
            assert(events@ =~= old(events)@ + r.1);
        },
        TouchPhase::Moved => {
            let cached = match tracker.cache.get(&t.id) {
                Some(last) => Some(*last),
                None => None,
            };
            match cached {
                Some(last) => {
                    if last == t {
                        assert(events@ =~= old(events)@ + r.1);
                        return;
                    }
                    let delta = delta_between(&last, &t);
                    events.push(PointerEvent::Move { pointer, position: pos, delta });
                },
                None => {},
            }
            tracker.cache.insert(t.id, t);
            assert(events@ =~= old(events)@ + r.1);
        },
        TouchPhase::Ended => {
            events.push(PointerEvent::PressUp { pointer, button: PointerButton::Primary });
            tracker.cache.remove(&t.id);
            assert(events@ =~= old(events)@ + r.1);
        },
        TouchPhase::Canceled => {
            events.push(PointerEvent::PressUp { pointer, button: PointerButton::Primary });
            events.push(PointerEvent::Cancel { pointer });
            tracker.cache.remove(&t.id);
            assert(events@ =~= old(events)@ + r.1);
        },
    }
}

/// Turns a batch of touch samples into pointer events in canvas space. A
/// contact's first sample creates its identity at once, so later samples of
/// the same batch find it; an ending sample only queues the identity for
/// destruction.
pub fn touch_pick_events(
    tracker: &mut TouchTracker,
    pointers: &mut Pointers,
    view: &Compositor,
    touches: &Vec<TouchInput>,
) -> (events: Vec<PointerEvent>)
    requires
        old(pointers).wf(),
        old(tracker).pending@.no_duplicates(),
    ensures
        ({
            let r = touch_run(old(tracker).model(old(pointers)), *view, touches@);
            &&& final(tracker).model(final(pointers)) == r.0
            &&& events@ == r.1
        }),
        final(pointers).wf(),
        final(tracker).pending@.no_duplicates(),
{
    let ghost m0 = tracker.model(pointers);
    let mut events: Vec<PointerEvent> = Vec::new();
    let mut i: usize = 0;
    while i < touches.len()
        invariant
            i <= touches@.len(),
            pointers.wf(),
            tracker.pending@.no_duplicates(),
            ({
                let r = touch_run(m0, *view, touches@.take(i as int));
                &&& tracker.model(pointers) == r.0
                &&& events@ == r.1
            }),
        decreases touches@.len() - i,
    {
        assert(touches@.take(i + 1).drop_last() =~= touches@.take(i as int));
        assert(touches@.take(i + 1).last() == touches@[i as int]);
        touch_sample(tracker, pointers, view, touches[i], &mut events);
        i = i + 1;
    }
    assert(touches@.take(touches@.len() as int) =~= touches@);
    events
}

/// Whether `p` is the identity of a contact that awaits destruction.
pub open spec fn is_ended(p: PointerId, pending: Seq<u64>) -> bool {
    match p {
        PointerId::Touch(id) => pending.contains(id),
        PointerId::Mouse => false,
    }
}

/// The identities of `live` that stay, in order.
pub open spec fn kept_pointers(live: Seq<PointerId>, pending: Seq<u64>) -> Seq<PointerId>
    decreases live.len(),
{
    if live.len() == 0 {
        Seq::empty()
    } else {
        let rest = kept_pointers(live.drop_last(), pending);
        if is_ended(live.last(), pending) {
            rest
        } else {
            rest.push(live.last())
        }
    }
}

/// The identities of `live` that are destroyed, in order.
pub open spec fn ended_pointers(live: Seq<PointerId>, pending: Seq<u64>) -> Seq<PointerId>
    decreases live.len(),
{
    if live.len() == 0 {
        Seq::empty()
    } else {
        let rest = ended_pointers(live.drop_last(), pending);
        if is_ended(live.last(), pending) {
            rest.push(live.last())
        } else {
            rest
        }
    }
}

/// What is kept and what is destroyed are the identities of `live` on
/// either side of `is_ended`, each once when `live` holds it once.
pub proof fn lemma_split_pointers(live: Seq<PointerId>, pending: Seq<u64>)
    ensures
        forall|p: PointerId| #[trigger]
            ended_pointers(live, pending).contains(p) <==> live.contains(p) && is_ended(p, pending),
        forall|p: PointerId| #[trigger]
            kept_pointers(live, pending).contains(p) <==> live.contains(p) && !is_ended(p, pending),
        live.no_duplicates() ==> ended_pointers(live, pending).no_duplicates(),
        live.no_duplicates() ==> kept_pointers(live, pending).no_duplicates(),
    decreases live.len(),
{
    if live.len() > 0 {
        let init = live.drop_last();
        let x = live.last();
        lemma_split_pointers(init, pending);
        assert forall|p: PointerId| #[trigger] live.contains(p) <==> init.contains(p) || p == x by {
            if live.contains(p) {
                let k = choose|k: int| 0 <= k < live.len() && live[k] == p;
                if k < init.len() {
                    assert(init[k] == p);
                }
            }
            if init.contains(p) {
                let k = choose|k: int| 0 <= k < init.len() && init[k] == p;
                assert(live[k] == p);
            }
            assert(live[live.len() - 1] == x);
        }
        if live.no_duplicates() {
            assert(init.no_duplicates());
            assert(!init.contains(x)) by {
                if init.contains(x) {
                    let k = choose|k: int| 0 <= k < init.len() && init[k] == x;
                    assert(live[k] == live[live.len() - 1]);
                }
            }
        }
        let e = ended_pointers(init, pending);
        let kp = kept_pointers(init, pending);
        if live.no_duplicates() {
            assert(!e.contains(x) && !kp.contains(x));
            lemma_push_unique_no_duplicates(e, x);
            lemma_push_unique_no_duplicates(kp, x);
            assert(push_unique(e, x) == e.push(x));
            assert(push_unique(kp, x) == kp.push(x));
        }
        assert forall|p: PointerId| #[trigger] e.push(x).contains(p) <==> e.contains(p) || p == x by {
            lemma_push_contains(e, x, p);
        }
        assert forall|p: PointerId| #[trigger] kp.push(x).contains(p) <==> kp.contains(p) || p == x by {
            lemma_push_contains(kp, x, p);
        }
    }
}

/// An element of `s.push(x)` is `x` or an element of `s`.
proof fn lemma_push_contains<T>(s: Seq<T>, x: T, p: T)
    ensures
        s.push(x).contains(p) <==> s.contains(p) || p == x,
{
    let t = s.push(x);
    if t.contains(p) {
        let k = choose|k: int| 0 <= k < t.len() && t[k] == p;
        if k < s.len() {
            assert(s[k] == p);
        }
    }
    if s.contains(p) {
        let k = choose|k: int| 0 <= k < s.len() && s[k] == p;
        assert(t[k] == p);
    }
    assert(t[s.len() as int] == x);
}

/// The deferred cleanup pass: destroys the identity of every contact that
/// ended this frame, each once, however many ending samples it sent, and
/// empties the queue. Returns the destroyed identities.
pub fn deactivate_touch_pointers(tracker: &mut TouchTracker, pointers: &mut Pointers) -> (gone: Vec<
    PointerId,
>)
    requires
        old(pointers).wf(),
    ensures
        gone@ == ended_pointers(old(pointers).live@, old(tracker).pending@),
        final(pointers).live@ == kept_pointers(old(pointers).live@, old(tracker).pending@),
        final(tracker).pending@ == Seq::<u64>::empty(),
        final(tracker).cache@ == old(tracker).cache@,
        final(pointers).wf(),
        gone@.no_duplicates(),
{
    let ghost live0 = pointers.live@;
    let ghost pending0 = tracker.pending@;
    let mut kept: Vec<PointerId> = Vec::new();
    let mut gone: Vec<PointerId> = Vec::new();
    let mut i: usize = 0;
    while i < pointers.live.len()
        invariant
            pointers.live@ == live0,
            tracker.pending@ == pending0,
            i <= live0.len(),
            kept@ == kept_pointers(live0.take(i as int), pending0),
            gone@ == ended_pointers(live0.take(i as int), pending0),
        decreases live0.len() - i,
    {
        assert(live0.take(i + 1).drop_last() =~= live0.take(i as int));
        assert(live0.take(i + 1).last() == live0[i as int]);
        let p = pointers.live[i];
        let ended = match p {
            PointerId::Touch(id) => holds_id(&tracker.pending, id),
            PointerId::Mouse => false,
        };
        if ended {
            gone.push(p);
        } else {
            kept.push(p);
        }
        i = i + 1;
    }
    assert(live0.take(live0.len() as int) =~= live0);
    proof {
        lemma_split_pointers(live0, pending0);
    }
    pointers.live = kept;
    tracker.pending = Vec::new();
    gone
}

/// Some sample of contact `id` in `ts` starts it and lands on the canvas.
pub open spec fn started_in_view(view: Compositor, ts: Seq<TouchInput>, id: u64) -> bool {
    exists|i: int|
        0 <= i < ts.len() && (#[trigger] ts[i]).id == id && ts[i].phase is Started
            && view.spec_viewport_to_canvas(ts[i].x as int, ts[i].y as int) is Some
}

/// Some sample of contact `id` in `ts` ends or cancels it.
pub open spec fn ended_in(ts: Seq<TouchInput>, id: u64) -> bool {
    exists|i: int| 0 <= i < ts.len() && (#[trigger] ts[i]).id == id && ends_contact(ts[i].phase)
}

/// A batch keeps the state well formed; contact `id` is live after it
/// exactly when it was live before or one of its starts landed on the
/// canvas, and it is queued for destruction exactly when it was queued
/// before or one of its samples ended it.
pub proof fn lemma_touch_run_tracks(m: TouchModel, view: Compositor, ts: Seq<TouchInput>, id: u64)
    requires
        m.wf(),
    ensures
        ({
            let r = touch_run(m, view, ts).0;
            &&& r.wf()
            &&& r.live.contains(PointerId::Touch(id)) <==> m.live.contains(PointerId::Touch(id))
                || started_in_view(view, ts, id)
            &&& r.pending.contains(id) <==> m.pending.contains(id) || ended_in(ts, id)
        }),
    decreases ts.len(),
{
    if ts.len() > 0 {
        let init = ts.drop_last();
        let t = ts.last();
        lemma_touch_run_tracks(m, view, init, id);
        let b = touch_run(m, view, init).0;
        lemma_push_unique_no_duplicates(b.pending, t.id);
        lemma_push_unique_no_duplicates(b.live, PointerId::Touch(t.id));
        let last_starts = t.id == id && t.phase is Started && view.spec_viewport_to_canvas(
            t.x as int,
            t.y as int,
        ) is Some;
        assert(started_in_view(view, ts, id) <==> started_in_view(view, init, id) || last_starts)
            by {
            if started_in_view(view, ts, id) {
                let i = choose|i: int|
                    0 <= i < ts.len() && (#[trigger] ts[i]).id == id && ts[i].phase is Started
                        && view.spec_viewport_to_canvas(ts[i].x as int, ts[i].y as int) is Some;
                if i < init.len() {
                    assert(init[i] == ts[i]);
                }
            }
            if started_in_view(view, init, id) {
                let i = choose|i: int|
                    0 <= i < init.len() && (#[trigger] init[i]).id == id && init[i].phase is Started
                        && view.spec_viewport_to_canvas(init[i].x as int, init[i].y as int) is Some;
                assert(ts[i] == init[i]);
            }
            if last_starts {
                assert(ts[ts.len() - 1] == t);
            }
        }
        assert(ended_in(ts, id) <==> ended_in(init, id) || (t.id == id && ends_contact(t.phase)))
            by {
            if ended_in(ts, id) {
                let i = choose|i: int|
                    0 <= i < ts.len() && (#[trigger] ts[i]).id == id && ends_contact(ts[i].phase);
                if i < init.len() {
                    assert(init[i] == ts[i]);
                }
            }
            if ended_in(init, id) {
                let i = choose|i: int|
                    0 <= i < init.len() && (#[trigger] init[i]).id == id && ends_contact(
                        init[i].phase,
                    );
                assert(ts[i] == init[i]);
            }
            if t.id == id && ends_contact(t.phase) {
                assert(ts[ts.len() - 1] == t);
            }
        }
    }
}

/// However many samples one contact sends in a frame, and however many of
/// them end it, its identity exists once at most: exactly once when it was
/// already live or one of its starts landed on the canvas. The cleanup pass
/// that follows destroys it once at most, exactly when it exists and has
/// ended, and a destroyed identity is no longer live.
pub proof fn lemma_touch_lifecycle(m: TouchModel, view: Compositor, ts: Seq<TouchInput>, id: u64)
    requires
        m.wf(),
        forall|i: int| 0 <= i < ts.len() ==> (#[trigger] ts[i]).id == id,
    ensures
        ({
            let r = touch_run(m, view, ts).0;
            let gone = ended_pointers(r.live, r.pending);
            let kept = kept_pointers(r.live, r.pending);
            let p = PointerId::Touch(id);
            &&& r.live.no_duplicates()
            &&& r.live.contains(p) <==> m.live.contains(p) || started_in_view(view, ts, id)
            &&& gone.no_duplicates()
            &&& gone.contains(p) <==> r.live.contains(p) && (m.pending.contains(id) || ended_in(
                ts,
                id,
            ))
            &&& gone.contains(p) ==> !kept.contains(p)
            &&& kept.no_duplicates()
        }),
{
    lemma_touch_run_tracks(m, view, ts, id);
    let r = touch_run(m, view, ts).0;
    lemma_split_pointers(r.live, r.pending);
}

/// Repeating one move sample emits nothing after its first copy: `k` copies
/// leave the same state and emit the same events as one.
pub proof fn lemma_repeated_move_silent(m: TouchModel, view: Compositor, t: TouchInput, k: nat)
    requires
        t.phase is Moved,
        k >= 1,
    ensures
        touch_run(m, view, Seq::new(k, |i: int| t)) == touch_run(m, view, seq![t]),
    decreases k,
{
    let ts = Seq::new(k, |i: int| t);
    let one = touch_run(m, view, seq![t]);
    assert(seq![t].drop_last() =~= Seq::<TouchInput>::empty());
    assert(seq![t].last() == t);
    assert(touch_run(m, view, Seq::<TouchInput>::empty()).1 =~= Seq::<PointerEvent>::empty());
    assert(one.1 =~= touch_step(m, view, t).1);
    if k > 1 {
        assert(ts.drop_last() =~= Seq::new((k - 1) as nat, |i: int| t));
        lemma_repeated_move_silent(m, view, t, (k - 1) as nat);
        let again = touch_step(one.0, view, t);
        assert(again.1 =~= Seq::<PointerEvent>::empty());
        assert(one.1 + again.1 =~= one.1);
    } else {
        assert(ts =~= seq![t]);
    }
}

} // verus!
