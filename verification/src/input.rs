//! Keyboard, pointer and window state, advanced one event at a time.

use crate::vector::{Vec2i, Vec2u};
use std::collections::HashMap;
use vstd::prelude::*;

verus! {

/// The keys that the key map knows by name; every other key is `Other`.
#[derive(Clone, Copy, Debug, PartialEq, Eq, Structural)]
pub enum Keycode {
    W,
    S,
    A,
    D,
    Escape,
    C,
    P,
    Plus,
    Minus,
    Other,
}

/// A pointer button.
#[derive(Clone, Copy, Debug, PartialEq, Eq, Structural)]
pub enum MouseButton {
    Unknown,
    Left,
    Middle,
    Right,
    X1,
    X2,
}

/// What happened to the window.
#[derive(Clone, Copy, Debug, PartialEq, Eq, Structural)]
pub enum WindowEvent {
    SizeChanged(i32, i32),
    Resized(i32, i32),
    Other,
}

/// One event of the windowing system, reduced to what the handler reads.
#[derive(Clone, Copy, Debug, PartialEq, Eq, Structural)]
pub enum Event {
    MouseMotion { x: i32, y: i32 },
    Window { win_event: WindowEvent },
    Quit,
    KeyDown { keycode: Option<Keycode> },
    KeyUp { keycode: Option<Keycode> },
    MouseButtonDown { mouse_btn: MouseButton },
    MouseButtonUp { mouse_btn: MouseButton },
    Other,
}

/// What a key can be bound to. `ZoomIn` and `ZoomOut` are press controls: they
/// are released at the end of every frame.
#[derive(Clone, Copy, Debug, PartialEq, Eq, Hash, Structural)]
pub enum Control {
    Up,
    Down,
    Left,
    Right,
    Escape,
    Color,
    Pieces,
    ZoomIn,
    ZoomOut,
}

impl Control {
    /// The key that this control is bound to.
    pub open spec fn spec_keycode(self) -> Keycode {
        match self {
            Control::Up => Keycode::W,
            Control::Down => Keycode::S,
            Control::Left => Keycode::A,
            Control::Right => Keycode::D,
            Control::Escape => Keycode::Escape,
            Control::Color => Keycode::C,
            Control::Pieces => Keycode::P,
            Control::ZoomIn => Keycode::Plus,
            Control::ZoomOut => Keycode::Minus,
        }
    }

    /// The control that a key is bound to, if it is bound.
    pub open spec fn spec_from_keycode(keycode: Keycode) -> Option<Control> {
        match keycode {
            Keycode::W => Some(Control::Up),
            Keycode::S => Some(Control::Down),
            Keycode::A => Some(Control::Left),
            Keycode::D => Some(Control::Right),
            Keycode::Escape => Some(Control::Escape),
            Keycode::C => Some(Control::Color),
            Keycode::P => Some(Control::Pieces),
            Keycode::Plus => Some(Control::ZoomIn),
            Keycode::Minus => Some(Control::ZoomOut),
            Keycode::Other => None,
        }
    }

    /// Whether the control is released at the end of every frame.
    pub open spec fn is_press_control(self) -> bool {
        self == Control::ZoomIn || self == Control::ZoomOut
    }

    /// The key under which the handler files this control.
    spec fn slot(self) -> u8 {
        match self {
            Control::Up => 0,
            Control::Down => 1,
            Control::Left => 2,
            Control::Right => 3,
            Control::Escape => 4,
            Control::Color => 5,
            Control::Pieces => 6,
            Control::ZoomIn => 7,
            Control::ZoomOut => 8,
        }
    }

    fn exec_slot(&self) -> (slot: u8)
        ensures
            slot == self.slot(),
    {
        match self {
            Control::Up => 0,
            Control::Down => 1,
            Control::Left => 2,
            Control::Right => 3,
            Control::Escape => 4,
            Control::Color => 5,
            Control::Pieces => 6,
            Control::ZoomIn => 7,
            Control::ZoomOut => 8,
        }
    }

    pub fn keycode(&self) -> (keycode: Keycode)
        ensures
            keycode == self.spec_keycode(),
    {
        match self {
            Control::Up => Keycode::W,
            Control::Down => Keycode::S,
            Control::Left => Keycode::A,
            Control::Right => Keycode::D,
            Control::Escape => Keycode::Escape,
            Control::Color => Keycode::C,
            Control::Pieces => Keycode::P,
            Control::ZoomIn => Keycode::Plus,
            Control::ZoomOut => Keycode::Minus,
        }
    }

    pub fn from_keycode(keycode: Keycode) -> (control: Option<Control>)
        ensures
            control == Self::spec_from_keycode(keycode),
    {
        match keycode {
            Keycode::W => Some(Control::Up),
            Keycode::S => Some(Control::Down),
            Keycode::A => Some(Control::Left),
            Keycode::D => Some(Control::Right),
            Keycode::Escape => Some(Control::Escape),
            Keycode::C => Some(Control::Color),
            Keycode::P => Some(Control::Pieces),
            Keycode::Plus => Some(Control::ZoomIn),
            Keycode::Minus => Some(Control::ZoomOut),
            Keycode::Other => None,
        }
    }

    /// The press controls, in the order in which a frame releases them.
    pub fn press_controls() -> (controls: Vec<Control>)
        ensures
            controls@ == seq![Control::ZoomIn, Control::ZoomOut],
            forall|control: Control|
                controls@.contains(control) <==> control.is_press_control(),
    {
        let mut controls = Vec::new();
        controls.push(Control::ZoomIn);
        controls.push(Control::ZoomOut);
        proof {
            assert(controls@[0] == Control::ZoomIn);
            assert(controls@[1] == Control::ZoomOut);
        }
        controls
    }
}

/// Every key is bound to at most one control, and a control's key leads back
/// to that control.
pub proof fn lemma_key_map_round_trip(control: Control, keycode: Keycode)
    ensures
        Control::spec_from_keycode(control.spec_keycode()) == Some(control),
        Control::spec_from_keycode(keycode) == Some(control) <==> control.spec_keycode() == keycode,
        control.spec_keycode() != Keycode::Other,
{
}

/// The unsigned number with the bits of `value`.
pub open spec fn reinterpret(value: i32) -> u32 {
    if value >= 0 {
        value as u32
    } else {
        (value + 0x1_0000_0000) as u32
    }
}

proof fn lemma_reinterpret(value: i32)
    by (bit_vector)
    ensures
        value as u32 == (if value >= 0 { value as u32 } else { (value + 0x1_0000_0000) as u32 }),
{
}

fn as_unsigned(value: i32) -> (bits: u32)
    ensures
        bits == reinterpret(value),
{
    proof {
        lemma_reinterpret(value);
    }
    #[verifier::truncate]
    (value as u32)
}

/// The state that an [`InputHandler`] stands for.
#[verifier::ext_equal]
pub struct InputState {
    /// The controls that are held down.
    pub pressed: Set<Control>,
    pub left_click: bool,
    pub right_click: bool,
    pub mouse_pos: Vec2u,
    pub mouse_delta: Vec2i,
    pub mouse_wheel_delta: int,
    pub window_size: Vec2u,
    pub quit: bool,
}

impl InputState {
    /// Nothing held, pointer and window at the origin.
    pub open spec fn initial() -> InputState {
        InputState {
            pressed: Set::empty(),
            left_click: false,
            right_click: false,
            mouse_pos: Vec2u { x: 0, y: 0 },
            mouse_delta: Vec2i { x: 0, y: 0 },
            mouse_wheel_delta: 0,
            window_size: Vec2u { x: 0, y: 0 },
            quit: false,
        }
    }

    /// The state once `key` has gone down or up. A key that no control is
    /// bound to changes nothing.
    pub open spec fn with_key(self, key: Keycode, down: bool) -> InputState {
        match Control::spec_from_keycode(key) {
            Some(control) => InputState {
                pressed: if down {
                    self.pressed.insert(control)
                } else {
                    self.pressed.remove(control)
                },
                ..self
            },
            None => self,
        }
    }

    /// The state once `button` has gone down or up. Only the left and the
    /// right button are followed.
    pub open spec fn with_button(self, button: MouseButton, down: bool) -> InputState {
        match button {
            MouseButton::Left => InputState { left_click: down, ..self },
            MouseButton::Right => InputState { right_click: down, ..self },
            _ => self,
        }
    }

    /// The state once the window has its new size.
    pub open spec fn with_window_size(self, w: i32, h: i32) -> InputState {
        InputState { window_size: Vec2u { x: reinterpret(w), y: reinterpret(h) }, ..self }
    }

    /// The state after one event.
    pub open spec fn after(self, event: Event) -> InputState {
        match event {
            Event::MouseMotion { x, y } => InputState {
                mouse_pos: Vec2u { x: reinterpret(x), y: reinterpret(y) },
                ..self
            },
            Event::Window { win_event: WindowEvent::SizeChanged(w, h) } => self.with_window_size(
                w,
                h,
            ),
            Event::Window { win_event: WindowEvent::Resized(w, h) } => self.with_window_size(w, h),
            Event::Window { win_event: WindowEvent::Other } => self,
            Event::Quit => InputState { quit: true, ..self },
            Event::KeyDown { keycode: Some(key) } => self.with_key(key, true),
            Event::KeyUp { keycode: Some(key) } => self.with_key(key, false),
            Event::KeyDown { keycode: None } => self,
            Event::KeyUp { keycode: None } => self,
            Event::MouseButtonDown { mouse_btn } => self.with_button(mouse_btn, true),
            Event::MouseButtonUp { mouse_btn } => self.with_button(mouse_btn, false),
            Event::Other => self,
        }
    }

    /// The state after a run of events, the first of them applied first.
    pub open spec fn after_all(self, events: Seq<Event>) -> InputState
        decreases events.len(),
    {
        if events.len() == 0 {
            self
        } else {
            self.after_all(events.drop_last()).after(events.last())
        }
    }

    /// The state at the start of the next frame: press controls released,
    /// accumulated movement cleared.
    pub open spec fn frame_reset(self) -> InputState {
        InputState {
            pressed: self.pressed.filter(|control: Control| !control.is_press_control()),
            mouse_delta: Vec2i { x: 0, y: 0 },
            mouse_wheel_delta: 0,
            ..self
        }
    }
}

/// Taking events in two batches leads to the state that taking them in one
/// batch leads to.
pub proof fn lemma_batches_compose(state: InputState, first: Seq<Event>, second: Seq<Event>)
    ensures
        state.after_all(first + second) == state.after_all(first).after_all(second),
    decreases second.len(),
{
    if second.len() == 0 {
        assert(first + second =~= first);
    } else {
        lemma_batches_compose(state, first, second.drop_last());
        assert((first + second).drop_last() =~= first + second.drop_last());
        assert((first + second).last() == second.last());
    }
}

/// No event takes back the request to leave.
pub proof fn lemma_quit_stays(state: InputState, events: Seq<Event>)
    requires
        state.quit,
    ensures
        state.after_all(events).quit,
    decreases events.len(),
{
    if events.len() > 0 {
        lemma_quit_stays(state, events.drop_last());
    }
}

/// Ending a frame twice leaves the state that ending it once leaves, and no
/// press control is held after it.
pub proof fn lemma_frame_reset_settles(state: InputState)
    ensures
        state.frame_reset().frame_reset() == state.frame_reset(),
        forall|control: Control|
            control.is_press_control() ==> !state.frame_reset().pressed.contains(control),
{
    assert(state.frame_reset().frame_reset().pressed =~= state.frame_reset().pressed);
}

/// Collects the state of keys, pointer and window from the events of the
/// windowing system.
pub struct InputHandler {
    pressed: HashMap<u8, bool>,
    left_click: bool,
    right_click: bool,
    mouse_pos: Vec2u,
    mouse_delta: Vec2i,
    mouse_wheel_delta: i32,
    window_size: Vec2u,
    quit: bool,
}

impl View for InputHandler {
    type V = InputState;

    closed spec fn view(&self) -> InputState {
        InputState {
            pressed: Set::new(
                |control: Control|
                    self.pressed@.contains_key(control.slot()) && self.pressed@[control.slot()],
            ),
            left_click: self.left_click,
            right_click: self.right_click,
            mouse_pos: self.mouse_pos,
            mouse_delta: self.mouse_delta,
            mouse_wheel_delta: self.mouse_wheel_delta as int,
            window_size: self.window_size,
            quit: self.quit,
        }
    }
}

impl InputHandler {
    pub fn new() -> (handler: InputHandler)
        ensures
            handler@ == InputState::initial(),
    {
        let handler = InputHandler {
            pressed: HashMap::new(),
            left_click: false,
            right_click: false,
            mouse_pos: Vec2u::zero(),
            mouse_delta: Vec2i::zero(),
            mouse_wheel_delta: 0,
            window_size: Vec2u::zero(),
            quit: false,
        };
        assert(handler@ =~= InputState::initial());
        handler
    }

    /// Files `down` under `control`.
    fn set_control(&mut self, control: Control, down: bool)
        ensures
            final(self)@ == (InputState {
                pressed: if down {
                    old(self)@.pressed.insert(control)
                } else {
                    old(self)@.pressed.remove(control)
                },
                ..old(self)@
            }),
    {
        self.pressed.insert(control.exec_slot(), down);
        assert(final(self)@ =~= (InputState {
            pressed: if down {
                old(self)@.pressed.insert(control)
            } else {
                old(self)@.pressed.remove(control)
            },
            ..old(self)@
        }));
    }

    /// Adds a pointer movement to what the frame has seen so far.
    pub fn add_mouse_delta(&mut self, delta: Vec2i)
        requires
            old(self)@.mouse_delta.plus_fits(delta),
        ensures
            (final(self)@.mouse_delta.x as int, final(self)@.mouse_delta.y as int) == old(
                self,
            )@.mouse_delta.spec_plus(delta),
            final(self)@ == (InputState { mouse_delta: final(self)@.mouse_delta, ..old(self)@ }),
    {
        self.mouse_delta = self.mouse_delta.plus(delta);
    }

    /// Adds a wheel movement to what the frame has seen so far.
    pub fn add_mouse_wheel_delta(&mut self, delta: i32)
        requires
            i32::MIN <= old(self)@.mouse_wheel_delta + delta <= i32::MAX,
        ensures
            final(self)@ == (InputState {
                mouse_wheel_delta: old(self)@.mouse_wheel_delta + delta,
                ..old(self)@
            }),
    {
        self.mouse_wheel_delta += delta;
    }

    pub fn mouse_delta(&self) -> (delta: Vec2i)
        ensures
            delta == self@.mouse_delta,
    {
        self.mouse_delta
    }

    pub fn mouse_wheel_delta(&self) -> (delta: i32)
        ensures
            delta == self@.mouse_wheel_delta,
    {
        self.mouse_wheel_delta
    }

    pub fn mouse_pos(&self) -> (pos: Vec2u)
        ensures
            pos == self@.mouse_pos,
    {
        self.mouse_pos
    }

    pub fn left_click(&self) -> (held: bool)
        ensures
            held == self@.left_click,
    {
        self.left_click
    }

    pub fn right_click(&self) -> (held: bool)
        ensures
            held == self@.right_click,
    {
        self.right_click
    }

    pub fn window_size(&self) -> (size: Vec2u)
        ensures
            size == self@.window_size,
    {
        self.window_size
    }

    /// Whether the user has asked to leave.
    pub fn quit(&self) -> (asked: bool)
        ensures
            asked == self@.quit,
    {
        self.quit
    }

    /// Whether `control` is held down.
    pub fn pressed(&self, control: Control) -> (held: bool)
        ensures
            held == self@.pressed.contains(control),
    {
        let slot = control.exec_slot();
        match self.pressed.get(&slot) {
            Some(down) => *down,
            None => false,
        }
    }

    /// Ends a frame: releases the press controls and clears the accumulated
    /// pointer and wheel movement.
    pub fn frame_reset(&mut self)
        ensures
            final(self)@ == old(self)@.frame_reset(),
    {
        let controls = Control::press_controls();
        let mut released: usize = 0;
        while released < controls.len()
            invariant
                released <= controls.len(),
                controls@ == seq![Control::ZoomIn, Control::ZoomOut],
                self@ == (InputState {
                    pressed: old(self)@.pressed.filter(
                        |control: Control| !controls@.take(released as int).contains(control),
                    ),
                    ..old(self)@
                }),
            decreases controls.len() - released,
        {
            let control = controls[released];
            self.set_control(control, false);
            proof {
                let earlier = controls@.take(released as int);
                let now = controls@.take(released + 1);
                assert forall|c: Control| now.contains(c) <==> (earlier.contains(c) || c
                    == control) by {
                    if earlier.contains(c) {
                        let at = choose|at: int| 0 <= at < earlier.len() && earlier[at] == c;
                        assert(now[at] == c);
                    }
                    if c == control {
                        assert(now[released as int] == c);
                    }
                }
                assert(self@.pressed =~= old(self)@.pressed.filter(
                    |c: Control| !now.contains(c),
                ));
            }
            released += 1;
        }
        self.mouse_delta = Vec2i::zero();
        self.mouse_wheel_delta = 0;
        proof {
            assert(controls@.take(released as int) =~= controls@);
            assert(final(self)@ =~= old(self)@.frame_reset());
        }
    }

    pub fn set_key(&mut self, key: Keycode, down: bool)
        ensures
            final(self)@ == old(self)@.with_key(key, down),
    {
        match Control::from_keycode(key) {
            Some(control) => {
                self.set_control(control, down);
            },
            _ => (),
        }
    }

    pub fn mouse_down(&mut self, button: MouseButton)
        ensures
            final(self)@ == old(self)@.with_button(button, true),
    {
        match button {
            MouseButton::Left => self.left_click = true,
            MouseButton::Right => self.right_click = true,
            _ => (),
        }
    }

    pub fn mouse_up(&mut self, button: MouseButton)
        ensures
            final(self)@ == old(self)@.with_button(button, false),
    {
        match button {
            MouseButton::Left => self.left_click = false,
            MouseButton::Right => self.right_click = false,
            _ => (),
        }
    }

    /// Takes one event in.
    pub fn handle_event(&mut self, event: Event)
        ensures
            final(self)@ == old(self)@.after(event),
    {
        match event {
            Event::MouseMotion { x, y } => {
                self.mouse_pos.x = as_unsigned(x);
                self.mouse_pos.y = as_unsigned(y);
            },
            Event::Window { win_event } => match win_event {
                WindowEvent::SizeChanged(w, h) => {
                    self.window_size.x = as_unsigned(w);
                    self.window_size.y = as_unsigned(h);
                },
                WindowEvent::Resized(w, h) => {
                    self.window_size.x = as_unsigned(w);
                    self.window_size.y = as_unsigned(h);
                },
                _ => (),
            },
            Event::Quit => {
                self.quit = true;
            },
            Event::KeyDown { keycode } => {
                if let Some(key) = keycode {
                    self.set_key(key, true);
                }
            },
            Event::KeyUp { keycode } => {
                if let Some(key) = keycode {
                    self.set_key(key, false);
                }
            },
            Event::MouseButtonDown { mouse_btn } => self.mouse_down(mouse_btn),
            Event::MouseButtonUp { mouse_btn } => self.mouse_up(mouse_btn),
            _ => {},
        }
    }

    /// Takes the pending events in, oldest first.
    pub fn handle_events(&mut self, events: &[Event])
        ensures
            final(self)@ == old(self)@.after_all(events@),
    {
        let mut taken: usize = 0;
        while taken < events.len()
            invariant
                taken <= events.len(),
                self@ == old(self)@.after_all(events@.take(taken as int)),
            decreases events.len() - taken,
        {
            let event = events[taken];
            self.handle_event(event);
            proof {
                let done = events@.take(taken + 1);
                assert(done.drop_last() =~= events@.take(taken as int));
                assert(done.last() == event);
            }
            taken += 1;
        }
        assert(events@.take(taken as int) =~= events@);
    }
}

} // verus!
