use base_retro::canvas::{CanvasConfig, CanvasScale, ClearColor};
use base_retro::compositor::Compositor;
use base_retro::mouse::{
    mouse_pick_events, spawn_mouse_pointer, ButtonState, CursorMoved, MouseButton,
    MouseButtonInput, MouseTracker,
};
use base_retro::pointer::{
    Delta, PointerButton, PointerEvent, PointerId, Pointers, RetroInputPluginSettings,
};
use base_retro::touch::{
    deactivate_touch_pointers, touch_pick_events, TouchInput, TouchPhase, TouchTracker,
};
use base_retro::transform::CanvasPos;

fn view() -> Compositor {
    let c = CanvasConfig {
        width: 480,
        height: 270,
        scale: CanvasScale::AutoFit { pixel_perfect: true },
        lock_cursor: false,
        clear_color: ClearColor::Default,
    };
    Compositor::setup_canvas(&c, 1920, 1080)
}

fn touch(phase: TouchPhase, x: i64, y: i64, id: u64) -> TouchInput {
    TouchInput { phase, x, y, id }
}

#[test]
fn touch_start_creates_identity_and_presses() {
    let mut tracker = TouchTracker::new();
    let mut pointers = Pointers::new();
    let events = touch_pick_events(
        &mut tracker,
        &mut pointers,
        &view(),
        &vec![touch(TouchPhase::Started, 960, 540, 1)],
    );
    let p = PointerId::Touch(1);
    assert_eq!(
        events,
        vec![
            PointerEvent::Move {
                pointer: p,
                position: CanvasPos { x: 1920, y: 1080, den: 8 },
                delta: Delta { x: 0, y: 0, den: 1 },
            },
            PointerEvent::PressDown { pointer: p, button: PointerButton::Primary },
        ]
    );
    assert_eq!(pointers.live, vec![p]);
    assert_eq!(tracker.cache.get(&1), Some(&touch(TouchPhase::Started, 960, 540, 1)));
}

#[test]
fn touch_move_carries_raw_delta() {
    let mut tracker = TouchTracker::new();
    let mut pointers = Pointers::new();
    let events = touch_pick_events(
        &mut tracker,
        &mut pointers,
        &view(),
        &vec![touch(TouchPhase::Started, 960, 540, 1), touch(TouchPhase::Moved, 964, 530, 1)],
    );
    assert_eq!(events.len(), 3);
    assert_eq!(
        events[2],
        PointerEvent::Move {
            pointer: PointerId::Touch(1),
            position: CanvasPos { x: 1928, y: 1060, den: 8 },
            delta: Delta { x: 4, y: -10, den: 1 },
        }
    );
}

#[test]
fn repeated_identical_moves_emit_once() {
    let mut tracker = TouchTracker::new();
    let mut pointers = Pointers::new();
    let v = view();
    touch_pick_events(&mut tracker, &mut pointers, &v, &vec![touch(TouchPhase::Started, 960, 540, 7)]);
    let m = touch(TouchPhase::Moved, 970, 540, 7);
    let events = touch_pick_events(&mut tracker, &mut pointers, &v, &vec![m, m, m, m]);
    assert_eq!(events.len(), 1);
    let again = touch_pick_events(&mut tracker, &mut pointers, &v, &vec![m]);
    assert!(again.is_empty());
    // A different sample after the repeats is reported again.
    let later = touch_pick_events(
        &mut tracker,
        &mut pointers,
        &v,
        &vec![m, touch(TouchPhase::Moved, 971, 540, 7)],
    );
    assert_eq!(later.len(), 1);
}

#[test]
fn ended_touch_is_destroyed_once() {
    let mut tracker = TouchTracker::new();
    let mut pointers = Pointers::new();
    let v = view();
    let batch = vec![
        touch(TouchPhase::Started, 100, 100, 3),
        touch(TouchPhase::Moved, 110, 100, 3),
        touch(TouchPhase::Ended, 110, 100, 3),
        touch(TouchPhase::Canceled, 110, 100, 3),
    ];
    let events = touch_pick_events(&mut tracker, &mut pointers, &v, &batch);
    let p = PointerId::Touch(3);
    assert_eq!(
        events[3..].to_vec(),
        vec![
            PointerEvent::PressUp { pointer: p, button: PointerButton::Primary },
            PointerEvent::PressUp { pointer: p, button: PointerButton::Primary },
            PointerEvent::Cancel { pointer: p },
        ]
    );
    // Still live until the cleanup pass.
    assert_eq!(pointers.live, vec![p]);
    assert_eq!(tracker.pending, vec![3]);
    assert!(tracker.cache.get(&3).is_none());
    let gone = deactivate_touch_pointers(&mut tracker, &mut pointers);
    assert_eq!(gone, vec![p]);
    assert!(pointers.live.is_empty());
    assert!(tracker.pending.is_empty());
    assert!(deactivate_touch_pointers(&mut tracker, &mut pointers).is_empty());
}

#[test]
fn second_start_of_live_contact_adds_no_identity() {
    let mut tracker = TouchTracker::new();
    let mut pointers = Pointers::new();
    let batch = vec![
        touch(TouchPhase::Started, 100, 100, 5),
        touch(TouchPhase::Started, 200, 100, 5),
    ];
    let events = touch_pick_events(&mut tracker, &mut pointers, &view(), &batch);
    assert_eq!(events.len(), 4);
    assert_eq!(pointers.live, vec![PointerId::Touch(5)]);
}

#[test]
fn cleanup_keeps_mouse_and_other_contacts() {
    let mut tracker = TouchTracker::new();
    let mut pointers = Pointers::new();
    spawn_mouse_pointer(&mut pointers);
    let v = view();
    let batch = vec![
        touch(TouchPhase::Started, 100, 100, 1),
        touch(TouchPhase::Started, 200, 100, 2),
        touch(TouchPhase::Ended, 200, 100, 2),
    ];
    touch_pick_events(&mut tracker, &mut pointers, &v, &batch);
    let gone = deactivate_touch_pointers(&mut tracker, &mut pointers);
    assert_eq!(gone, vec![PointerId::Touch(2)]);
    assert_eq!(pointers.live, vec![PointerId::Mouse, PointerId::Touch(1)]);
}

#[test]
fn touch_outside_canvas_is_ignored_but_end_still_queues() {
    let mut tracker = TouchTracker::new();
    let mut pointers = Pointers::new();
    let v = view();
    touch_pick_events(&mut tracker, &mut pointers, &v, &vec![touch(TouchPhase::Started, 10, 10, 9)]);
    let events = touch_pick_events(
        &mut tracker,
        &mut pointers,
        &v,
        &vec![touch(TouchPhase::Moved, -5, 10, 9), touch(TouchPhase::Ended, -5, 10, 9)],
    );
    assert!(events.is_empty());
    assert_eq!(tracker.pending, vec![9]);
    assert_eq!(deactivate_touch_pointers(&mut tracker, &mut pointers), vec![PointerId::Touch(9)]);
    let none = touch_pick_events(
        &mut tracker,
        &mut pointers,
        &v,
        &vec![touch(TouchPhase::Started, 5000, 10, 10)],
    );
    assert!(none.is_empty());
    assert!(pointers.live.is_empty());
}

#[test]
fn mouse_spawned_once() {
    let mut pointers = Pointers::new();
    spawn_mouse_pointer(&mut pointers);
    spawn_mouse_pointer(&mut pointers);
    assert_eq!(pointers.live, vec![PointerId::Mouse]);
    assert!(pointers.contains(PointerId::Mouse));
    assert!(!pointers.contains(PointerId::Touch(0)));
}

#[test]
fn mouse_moves_report_canvas_delta() {
    let mut tracker = MouseTracker::new();
    let moves = vec![
        CursorMoved { x: 960, y: 540 },
        CursorMoved { x: -3, y: 540 },
        CursorMoved { x: 964, y: 532 },
    ];
    let events = mouse_pick_events(&mut tracker, &view(), &moves, &Vec::new());
    assert_eq!(
        events,
        vec![
            PointerEvent::Move {
                pointer: PointerId::Mouse,
                position: CanvasPos { x: 1920, y: 1080, den: 8 },
                delta: Delta { x: 0, y: 0, den: 1 },
            },
            PointerEvent::Move {
                pointer: PointerId::Mouse,
                position: CanvasPos { x: 1928, y: 1064, den: 8 },
                delta: Delta { x: 64, y: -128, den: 64 },
            },
        ]
    );
    assert_eq!(tracker.last, Some(CanvasPos { x: 1928, y: 1064, den: 8 }));
}

#[test]
fn mouse_buttons_map_to_pointer_buttons() {
    let mut tracker = MouseTracker::new();
    let buttons = vec![
        MouseButtonInput { button: MouseButton::Left, state: ButtonState::Pressed },
        MouseButtonInput { button: MouseButton::Back, state: ButtonState::Pressed },
        MouseButtonInput { button: MouseButton::Right, state: ButtonState::Released },
        MouseButtonInput { button: MouseButton::Other(9), state: ButtonState::Released },
        MouseButtonInput { button: MouseButton::Middle, state: ButtonState::Pressed },
        MouseButtonInput { button: MouseButton::Forward, state: ButtonState::Pressed },
    ];
    let events = mouse_pick_events(&mut tracker, &view(), &Vec::new(), &buttons);
    let m = PointerId::Mouse;
    assert_eq!(
        events,
        vec![
            PointerEvent::PressDown { pointer: m, button: PointerButton::Primary },
            PointerEvent::PressUp { pointer: m, button: PointerButton::Secondary },
            PointerEvent::PressDown { pointer: m, button: PointerButton::Middle },
        ]
    );
    assert_eq!(tracker.last, None);
}

#[test]
fn input_settings_default_and_toggle() {
    let s = RetroInputPluginSettings::default();
    assert!(s.is_touch_enabled() && s.is_mouse_enabled());
    let s = RetroInputPluginSettings::new(false, true);
    assert!(!s.is_touch_enabled());
    assert!(s.is_mouse_enabled());
}
