use egui_d3d11::input::{
    InputCollector, InputEvent, Modifiers, MouseButton, VK_CONTROL, VK_SHIFT, WM_CHAR, WM_KEYDOWN,
    WM_KEYUP, WM_LBUTTONDOWN, WM_LBUTTONUP, WM_MBUTTONDOWN, WM_MOUSEHWHEEL, WM_MOUSEMOVE,
    WM_MOUSEWHEEL, WM_RBUTTONDOWN,
};

fn pos_lparam(x: i32, y: i32) -> i64 {
    (((y as u16) as i64) << 16) | ((x as u16) as i64)
}

fn wheel_wparam(delta: i32) -> u64 {
    ((delta as u16) as u64) << 16
}

#[test]
fn mouse_move_is_classified_with_coordinates() {
    let mut c = InputCollector::new();
    assert!(c.process(WM_MOUSEMOVE, 0, pos_lparam(10, 20)));
    assert_eq!(c.collect_input(), vec![InputEvent::PointerMove { x: 10, y: 20 }]);
}

#[test]
fn negative_coordinates_are_sign_extended() {
    let mut c = InputCollector::new();
    assert!(c.process(WM_MOUSEMOVE, 0, pos_lparam(-5, -7)));
    assert_eq!(c.collect_input(), vec![InputEvent::PointerMove { x: -5, y: -7 }]);
}

#[test]
fn buttons_map_to_their_roles() {
    let mut c = InputCollector::new();
    assert!(c.process(WM_LBUTTONDOWN, 0, pos_lparam(1, 2)));
    assert!(c.process(WM_LBUTTONUP, 0, pos_lparam(1, 2)));
    assert!(c.process(WM_RBUTTONDOWN, 0, pos_lparam(3, 4)));
    assert!(c.process(WM_MBUTTONDOWN, 0, pos_lparam(5, 6)));
    assert_eq!(
        c.collect_input(),
        vec![
            InputEvent::PointerButton { button: MouseButton::Primary, down: true, x: 1, y: 2 },
            InputEvent::PointerButton { button: MouseButton::Primary, down: false, x: 1, y: 2 },
            InputEvent::PointerButton { button: MouseButton::Secondary, down: true, x: 3, y: 4 },
            InputEvent::PointerButton { button: MouseButton::Middle, down: true, x: 5, y: 6 },
        ]
    );
}

#[test]
fn wheel_deltas_carry_sign() {
    let mut c = InputCollector::new();
    assert!(c.process(WM_MOUSEWHEEL, wheel_wparam(120), 0));
    assert!(c.process(WM_MOUSEWHEEL, wheel_wparam(-120), 0));
    assert!(c.process(WM_MOUSEHWHEEL, wheel_wparam(-240), 0));
    assert_eq!(
        c.collect_input(),
        vec![
            InputEvent::Scroll { dx: 0, dy: 120 },
            InputEvent::Scroll { dx: 0, dy: -120 },
            InputEvent::Scroll { dx: -240, dy: 0 },
        ]
    );
}

#[test]
fn keys_carry_the_modifier_state() {
    let mut c = InputCollector::new();
    assert!(c.process(WM_KEYDOWN, VK_SHIFT as u64, 0));
    assert!(c.process(WM_KEYDOWN, 0x41, 0));
    assert!(c.process(WM_KEYUP, VK_SHIFT as u64, 0));
    assert!(c.process(WM_KEYDOWN, 0x41, 0));
    let shift = Modifiers { alt: false, ctrl: false, shift: true };
    let none = Modifiers { alt: false, ctrl: false, shift: false };
    assert_eq!(
        c.collect_input(),
        vec![
            InputEvent::ModifierChange { modifiers: shift },
            InputEvent::Key { code: 0x41, down: true, modifiers: shift },
            InputEvent::ModifierChange { modifiers: none },
            InputEvent::Key { code: 0x41, down: true, modifiers: none },
        ]
    );
}

#[test]
fn control_modifier_tracked_independently() {
    let mut c = InputCollector::new();
    assert!(c.process(WM_KEYDOWN, VK_CONTROL as u64, 0));
    let ctrl = Modifiers { alt: false, ctrl: true, shift: false };
    assert_eq!(c.collect_input(), vec![InputEvent::ModifierChange { modifiers: ctrl }]);
}

#[test]
fn text_input_carries_the_code_unit() {
    let mut c = InputCollector::new();
    assert!(c.process(WM_CHAR, 0x48, 0));
    assert!(c.process(WM_CHAR, 0x69, 0));
    assert_eq!(
        c.collect_input(),
        vec![InputEvent::Text { code_unit: 0x48 }, InputEvent::Text { code_unit: 0x69 }]
    );
}

#[test]
fn unrecognized_messages_change_nothing() {
    let mut c = InputCollector::new();
    assert!(!c.process(0x0000, 0, 0));
    assert!(!c.process(0x0400, 1, 2));
    assert!(c.collect_input().is_empty());
}

#[test]
fn drain_is_destructive_and_exactly_once() {
    let mut c = InputCollector::new();
    assert!(c.process(WM_MOUSEMOVE, 0, pos_lparam(1, 1)));
    assert!(c.process(WM_MOUSEMOVE, 0, pos_lparam(2, 2)));
    let first = c.collect_input();
    assert_eq!(first.len(), 2);
    let second = c.collect_input();
    assert!(second.is_empty());
}

#[test]
fn interleaved_processing_attributes_each_event_to_one_frame() {
    let mut c = InputCollector::new();
    assert!(c.process(WM_MOUSEMOVE, 0, pos_lparam(1, 0)));
    assert!(c.process(WM_MOUSEMOVE, 0, pos_lparam(2, 0)));
    let b1 = c.collect_input();
    assert!(c.process(WM_MOUSEMOVE, 0, pos_lparam(3, 0)));
    let b2 = c.collect_input();
    let b3 = c.collect_input();
    assert_eq!(
        b1,
        vec![InputEvent::PointerMove { x: 1, y: 0 }, InputEvent::PointerMove { x: 2, y: 0 }]
    );
    assert_eq!(b2, vec![InputEvent::PointerMove { x: 3, y: 0 }]);
    assert!(b3.is_empty());
    // Every event appears in exactly one batch, in arrival order.
    let mut all = b1;
    all.extend(b2);
    for (i, ev) in all.iter().enumerate() {
        assert_eq!(*ev, InputEvent::PointerMove { x: i as i32 + 1, y: 0 });
    }
}

#[test]
fn drain_preserves_arrival_order() {
    let mut c = InputCollector::new();
    for i in 0..5i32 {
        assert!(c.process(WM_MOUSEMOVE, 0, pos_lparam(i, 0)));
    }
    let batch = c.collect_input();
    assert_eq!(batch.len(), 5);
    for (i, ev) in batch.iter().enumerate() {
        assert_eq!(*ev, InputEvent::PointerMove { x: i as i32, y: 0 });
    }
}
