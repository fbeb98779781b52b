use digit_recognizer::input::{Control, Event, InputHandler, Keycode, MouseButton, WindowEvent};
use digit_recognizer::vector::{Vec2i, Vec2u};

const CONTROLS: [Control; 9] = [
    Control::Up,
    Control::Down,
    Control::Left,
    Control::Right,
    Control::Escape,
    Control::Color,
    Control::Pieces,
    Control::ZoomIn,
    Control::ZoomOut,
];

const KEYS: [Keycode; 10] = [
    Keycode::W,
    Keycode::S,
    Keycode::A,
    Keycode::D,
    Keycode::Escape,
    Keycode::C,
    Keycode::P,
    Keycode::Plus,
    Keycode::Minus,
    Keycode::Other,
];

/// Everything that can be observed of a handler.
fn observe(handler: &InputHandler) -> (Vec<bool>, bool, bool, Vec2u, Vec2i, i32, Vec2u, bool) {
    (
        CONTROLS.iter().map(|control| handler.pressed(*control)).collect(),
        handler.left_click(),
        handler.right_click(),
        handler.mouse_pos(),
        handler.mouse_delta(),
        handler.mouse_wheel_delta(),
        handler.window_size(),
        handler.quit(),
    )
}

fn key_down(key: Keycode) -> Event {
    Event::KeyDown { keycode: Some(key) }
}

fn key_up(key: Keycode) -> Event {
    Event::KeyUp { keycode: Some(key) }
}

#[test]
fn new_handler_holds_nothing() {
    let handler = InputHandler::new();
    for control in CONTROLS {
        assert!(!handler.pressed(control));
    }
    assert!(!handler.left_click());
    assert!(!handler.right_click());
    assert!(!handler.quit());
    assert_eq!(handler.mouse_pos(), Vec2u::zero());
    assert_eq!(handler.window_size(), Vec2u::zero());
    assert_eq!(handler.mouse_delta(), Vec2i::zero());
    assert_eq!(handler.mouse_wheel_delta(), 0);
}

#[test]
fn each_control_has_its_key() {
    assert_eq!(Control::Up.keycode(), Keycode::W);
    assert_eq!(Control::Down.keycode(), Keycode::S);
    assert_eq!(Control::Left.keycode(), Keycode::A);
    assert_eq!(Control::Right.keycode(), Keycode::D);
    assert_eq!(Control::Escape.keycode(), Keycode::Escape);
    assert_eq!(Control::Color.keycode(), Keycode::C);
    assert_eq!(Control::Pieces.keycode(), Keycode::P);
    assert_eq!(Control::ZoomIn.keycode(), Keycode::Plus);
    assert_eq!(Control::ZoomOut.keycode(), Keycode::Minus);
}

#[test]
fn key_map_round_trip() {
    for control in CONTROLS {
        assert_eq!(Control::from_keycode(control.keycode()), Some(control));
    }
    for key in KEYS {
        match Control::from_keycode(key) {
            Some(control) => assert_eq!(control.keycode(), key),
            None => assert_eq!(key, Keycode::Other),
        }
    }
}

#[test]
fn unbound_key_has_no_control() {
    assert_eq!(Control::from_keycode(Keycode::Other), None);
}

#[test]
fn press_controls_are_the_two_zoom_controls() {
    assert_eq!(Control::press_controls(), vec![Control::ZoomIn, Control::ZoomOut]);
}

#[test]
fn set_key_presses_and_releases_the_bound_control() {
    let mut handler = InputHandler::new();
    handler.set_key(Keycode::W, true);
    assert!(handler.pressed(Control::Up));
    assert!(!handler.pressed(Control::Down));
    handler.set_key(Keycode::S, true);
    assert!(handler.pressed(Control::Up));
    assert!(handler.pressed(Control::Down));
    handler.set_key(Keycode::W, false);
    assert!(!handler.pressed(Control::Up));
    assert!(handler.pressed(Control::Down));
}

#[test]
fn set_key_with_an_unbound_key_changes_nothing() {
    let mut handler = InputHandler::new();
    handler.set_key(Keycode::D, true);
    let before = observe(&handler);
    handler.set_key(Keycode::Other, true);
    assert_eq!(observe(&handler), before);
    handler.set_key(Keycode::Other, false);
    assert_eq!(observe(&handler), before);
}

#[test]
fn releasing_a_key_that_was_never_pressed_leaves_it_released() {
    let mut handler = InputHandler::new();
    handler.set_key(Keycode::P, false);
    assert!(!handler.pressed(Control::Pieces));
}

#[test]
fn mouse_buttons_follow_left_and_right_only() {
    let mut handler = InputHandler::new();
    handler.mouse_down(MouseButton::Left);
    assert!(handler.left_click());
    assert!(!handler.right_click());
    handler.mouse_down(MouseButton::Right);
    assert!(handler.left_click());
    assert!(handler.right_click());
    handler.mouse_up(MouseButton::Left);
    assert!(!handler.left_click());
    assert!(handler.right_click());
    handler.mouse_up(MouseButton::Right);
    assert!(!handler.right_click());

    for button in [MouseButton::Unknown, MouseButton::Middle, MouseButton::X1, MouseButton::X2] {
        let before = observe(&handler);
        handler.mouse_down(button);
        assert_eq!(observe(&handler), before);
        handler.mouse_up(button);
        assert_eq!(observe(&handler), before);
    }
}

#[test]
fn mouse_motion_sets_the_pointer_position() {
    let mut handler = InputHandler::new();
    handler.handle_event(Event::MouseMotion { x: 120, y: 45 });
    assert_eq!(handler.mouse_pos(), Vec2u::new(120, 45));
    assert_eq!(handler.window_size(), Vec2u::zero());
    assert_eq!(handler.mouse_delta(), Vec2i::zero());
}

#[test]
fn negative_coordinates_keep_their_bits() {
    let mut handler = InputHandler::new();
    handler.handle_event(Event::MouseMotion { x: -1, y: i32::MIN });
    assert_eq!(handler.mouse_pos(), Vec2u::new(u32::MAX, 0x8000_0000));
    handler.handle_event(Event::Window { win_event: WindowEvent::Resized(-2, 0) });
    assert_eq!(handler.window_size(), Vec2u::new(u32::MAX - 1, 0));
}

#[test]
fn window_events_set_the_window_size() {
    let mut handler = InputHandler::new();
    handler.handle_event(Event::Window { win_event: WindowEvent::SizeChanged(560, 660) });
    assert_eq!(handler.window_size(), Vec2u::new(560, 660));
    handler.handle_event(Event::Window { win_event: WindowEvent::Resized(800, 600) });
    assert_eq!(handler.window_size(), Vec2u::new(800, 600));
    handler.handle_event(Event::Window { win_event: WindowEvent::Other });
    assert_eq!(handler.window_size(), Vec2u::new(800, 600));
    assert_eq!(handler.mouse_pos(), Vec2u::zero());
}

#[test]
fn quit_event_sets_quit_and_nothing_clears_it() {
    let mut handler = InputHandler::new();
    handler.handle_event(Event::Quit);
    assert!(handler.quit());
    handler.handle_events(&[key_down(Keycode::W), Event::Other, Event::MouseMotion { x: 1, y: 1 }]);
    handler.frame_reset();
    assert!(handler.quit());
}

#[test]
fn key_events_without_a_keycode_change_nothing() {
    let mut handler = InputHandler::new();
    handler.set_key(Keycode::A, true);
    let before = observe(&handler);
    handler.handle_event(Event::KeyDown { keycode: None });
    handler.handle_event(Event::KeyUp { keycode: None });
    handler.handle_event(Event::Other);
    assert_eq!(observe(&handler), before);
}

#[test]
fn key_and_button_events_reach_the_state() {
    let mut handler = InputHandler::new();
    handler.handle_event(key_down(Keycode::Escape));
    handler.handle_event(Event::MouseButtonDown { mouse_btn: MouseButton::Right });
    assert!(handler.pressed(Control::Escape));
    assert!(handler.right_click());
    assert!(!handler.left_click());
    handler.handle_event(key_up(Keycode::Escape));
    handler.handle_event(Event::MouseButtonUp { mouse_btn: MouseButton::Right });
    assert!(!handler.pressed(Control::Escape));
    assert!(!handler.right_click());
}

#[test]
fn events_are_taken_in_oldest_first() {
    let mut pressed_last = InputHandler::new();
    pressed_last.handle_events(&[key_up(Keycode::W), key_down(Keycode::W)]);
    assert!(pressed_last.pressed(Control::Up));

    let mut released_last = InputHandler::new();
    released_last.handle_events(&[key_down(Keycode::W), key_up(Keycode::W)]);
    assert!(!released_last.pressed(Control::Up));

    let mut moved = InputHandler::new();
    moved.handle_events(&[Event::MouseMotion { x: 1, y: 2 }, Event::MouseMotion { x: 3, y: 4 }]);
    assert_eq!(moved.mouse_pos(), Vec2u::new(3, 4));
}

#[test]
fn no_events_change_nothing() {
    let mut handler = InputHandler::new();
    handler.handle_events(&[key_down(Keycode::C), Event::MouseMotion { x: 9, y: 8 }]);
    let before = observe(&handler);
    handler.handle_events(&[]);
    assert_eq!(observe(&handler), before);
}

#[test]
fn a_batch_of_events_equals_the_events_one_by_one() {
    let events = [
        key_down(Keycode::W),
        Event::MouseMotion { x: 40, y: 50 },
        Event::MouseButtonDown { mouse_btn: MouseButton::Left },
        key_down(Keycode::Plus),
        Event::Window { win_event: WindowEvent::SizeChanged(300, 200) },
        key_up(Keycode::W),
        Event::Other,
        Event::Quit,
    ];
    let mut batch = InputHandler::new();
    batch.handle_events(&events);

    let mut single = InputHandler::new();
    for event in events {
        single.handle_event(event);
    }
    assert_eq!(observe(&batch), observe(&single));

    for cut in 0..=events.len() {
        let mut halves = InputHandler::new();
        halves.handle_events(&events[..cut]);
        halves.handle_events(&events[cut..]);
        assert_eq!(observe(&halves), observe(&batch));
    }
}

#[test]
fn frame_reset_releases_press_controls_only() {
    let mut handler = InputHandler::new();
    handler.handle_events(&[
        key_down(Keycode::Plus),
        key_down(Keycode::Minus),
        key_down(Keycode::W),
        key_down(Keycode::C),
        Event::MouseButtonDown { mouse_btn: MouseButton::Left },
        Event::MouseMotion { x: 7, y: 9 },
    ]);
    handler.add_mouse_delta(Vec2i::new(3, -4));
    handler.add_mouse_wheel_delta(2);
    handler.frame_reset();
    assert!(!handler.pressed(Control::ZoomIn));
    assert!(!handler.pressed(Control::ZoomOut));
    assert!(handler.pressed(Control::Up));
    assert!(handler.pressed(Control::Color));
    assert!(handler.left_click());
    assert_eq!(handler.mouse_pos(), Vec2u::new(7, 9));
    assert_eq!(handler.mouse_delta(), Vec2i::zero());
    assert_eq!(handler.mouse_wheel_delta(), 0);
}

#[test]
fn frame_reset_twice_is_frame_reset_once() {
    let mut handler = InputHandler::new();
    handler.handle_events(&[key_down(Keycode::Plus), key_down(Keycode::A)]);
    handler.frame_reset();
    let once = observe(&handler);
    handler.frame_reset();
    assert_eq!(observe(&handler), once);
}

#[test]
fn movement_accumulates_until_the_frame_ends() {
    let mut handler = InputHandler::new();
    handler.add_mouse_delta(Vec2i::new(3, -4));
    handler.add_mouse_delta(Vec2i::new(-10, 6));
    assert_eq!(handler.mouse_delta(), Vec2i::new(-7, 2));
    handler.add_mouse_wheel_delta(5);
    handler.add_mouse_wheel_delta(-8);
    assert_eq!(handler.mouse_wheel_delta(), -3);
    assert_eq!(handler.mouse_pos(), Vec2u::zero());
}

#[test]
fn movement_may_reach_the_limits() {
    let mut handler = InputHandler::new();
    handler.add_mouse_delta(Vec2i::new(i32::MAX, i32::MIN));
    assert_eq!(handler.mouse_delta(), Vec2i::new(i32::MAX, i32::MIN));
    handler.add_mouse_wheel_delta(i32::MIN);
    assert_eq!(handler.mouse_wheel_delta(), i32::MIN);
}

