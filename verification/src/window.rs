//! What a window is created with, the state it is in, and what it decides
//! when an event comes in or time has passed.

use vstd::prelude::*;
use crate::input::{Input, Key, KeyboardAction, MouseAction, MouseButton, RawInputEvent};

verus! {

/// The number of nanoseconds in a second.
pub const NANOS_PER_SEC: u64 = 1_000_000_000;

/// The keys that are held down, by key code: a `hashbrown::HashSet`.
#[verifier::external_body]
pub struct PressedKeys {
    keys: hashbrown::HashSet<u32>,
}

/// The key codes that a set of pressed keys holds.
pub uninterp spec fn held(keys: PressedKeys) -> Set<u32>;

/// `hashbrown::HashSet::new`: the set it makes is empty.
#[verifier::external_body]
fn no_keys() -> (keys: PressedKeys)
    ensures
        held(keys) == Set::<u32>::empty(),
{
    PressedKeys { keys: hashbrown::HashSet::new() }
}

/// `hashbrown::HashSet::contains`: whether the set holds the value; the set
/// is not changed.
#[verifier::external_body]
fn holds_key(keys: &PressedKeys, code: u32) -> (found: bool)
    ensures
        found == held(*keys).contains(code),
{
    keys.keys.contains(&code)
}

/// `hashbrown::HashSet::insert`: the value is in the set afterwards, beside
/// what was there; the result says whether it was not there before.
#[verifier::external_body]
fn insert_key(keys: &mut PressedKeys, code: u32) -> (fresh: bool)
    ensures
        held(*final(keys)) == held(*old(keys)).insert(code),
        fresh == !held(*old(keys)).contains(code),
{
    keys.keys.insert(code)
}

/// `hashbrown::HashSet::remove`: the value is not in the set afterwards, and
/// the rest is; the result says whether it was there before.
#[verifier::external_body]
fn remove_key(keys: &mut PressedKeys, code: u32) -> (found: bool)
    ensures
        held(*final(keys)) == held(*old(keys)).remove(code),
        found == held(*old(keys)).contains(code),
{
    keys.keys.remove(&code)
}

/// What a window is created with.
#[derive(Clone, Eq, PartialEq, Debug)]
pub struct WindowCreateInfo {
    /// The width of the window in pixels.
    ///
    /// Default is 800.
    pub width: u32,
    /// The height of the window in pixels.
    ///
    /// Default is 600.
    pub height: u32,
    /// The window title, which is displayed at the top of the window.
    ///
    /// Default is "MVEngine Application".
    pub title: String,
    /// Whether the window should be fullscreen.
    ///
    /// Default is false.
    pub fullscreen: bool,
    /// Whether the window should have a frame and buttons (like close, minimize and maximize)
    ///
    /// Default is true.
    pub decorated: bool,
    /// Whether the window should be resizable.
    ///
    /// Default is true.
    pub resizable: bool,
    /// Whether the window background is transparent.
    ///
    /// Default is false.
    pub transparent: bool,
    /// Whether to sync the screen update with the time the vertical electron beam of your monitor reaches its lowest point.
    ///
    /// Default is false.
    pub vsync: bool,
    /// The maximum frames in flight of the rendering API.
    ///
    /// Default is 2.
    pub max_frames_in_flight: u32,
    /// The maximum frames per second of the window.
    ///
    /// Default is 60.
    pub fps: u32,
    /// The maximum updates per second of the window.
    ///
    /// Default is 20.
    pub ups: u32,
}

impl Default for WindowCreateInfo {
    fn default() -> (info: Self)
        ensures
            info.width == 800,
            info.height == 600,
            info.title@ == "MVEngine Application"@,
            !info.fullscreen,
            info.decorated,
            info.resizable,
            !info.transparent,
            !info.vsync,
            info.max_frames_in_flight == 2,
            info.fps == 60,
            info.ups == 20,
    {
        WindowCreateInfo {
            width: 800,
            height: 600,
            title: "MVEngine Application".to_string(),
            fullscreen: false,
            decorated: true,
            resizable: true,
            transparent: false,
            vsync: false,
            max_frames_in_flight: 2,
            fps: 60,
            ups: 20,
        }
    }
}

/// The state of a window over its life.
#[derive(Copy, Clone, Debug, Eq, PartialEq)]
pub enum State {
    Ready,
    Running,
    Exited,
}

/// Whether a key or a button went down or up.
#[derive(Copy, Clone, Debug, Eq, PartialEq)]
pub enum ElementState {
    Pressed,
    Released,
}

/// How far the wheel was turned; the deltas are given as the bit patterns of
/// 32-bit floats.
#[derive(Copy, Clone, Debug, Eq, PartialEq)]
pub enum ScrollDelta {
    Line(u32, u32),
    Pixel(u32, u32),
}

/// An event that the windowing system reports.
#[derive(Copy, Clone, Debug, Eq, PartialEq)]
pub enum WindowEvent {
    Resized(u32, u32),
    Closed,
    /// A key changed; the key is `None` where the system could not name it.
    KeyboardInput(ElementState, Option<Key>),
    MouseMoved(i32, i32),
    MouseWheel(ScrollDelta),
    MouseInput(ElementState, MouseButton),
    /// Any other event.
    Other,
}

/// What is to be done about an event.
#[derive(Copy, Clone, Debug, Eq, PartialEq)]
pub enum Reaction {
    /// Nothing.
    Ignore,
    /// Tell the application of the new size.
    Resize(u32, u32),
    /// Dispatch the raw input event, with the input state shown beside it.
    Dispatch(RawInputEvent, Input),
    /// Leave the event loop.
    Close,
}

/// A window as mathematical data.
pub struct WindowView {
    pub info: WindowCreateInfo,
    pub state: State,
    pub frame_time_nanos: nat,
    pub update_time_nanos: nat,
    pub input: Input,
    pub pressed: Set<u32>,
}

impl WindowView {
    /// The window as it is after `event`.
    pub open spec fn after(self, event: WindowEvent) -> WindowView {
        match event {
            WindowEvent::Resized(width, height) => WindowView {
                info: WindowCreateInfo { width, height, ..self.info },
                ..self
            },
            WindowEvent::KeyboardInput(ElementState::Pressed, Some(key)) => WindowView {
                pressed: self.pressed.insert(key.0),
                ..self
            },
            WindowEvent::KeyboardInput(ElementState::Released, Some(key)) => WindowView {
                pressed: self.pressed.remove(key.0),
                ..self
            },
            WindowEvent::MouseMoved(x, y) => WindowView {
                input: Input { mouse_x: x, mouse_y: y },
                ..self
            },
            _ => self,
        }
    }

    /// What is to be done about `event`. A key that goes down is pressed if
    /// it was not held, and typed if it was. Raw input is dispatched with the
    /// input state from before the event.
    pub open spec fn reaction(self, event: WindowEvent) -> Reaction {
        match event {
            WindowEvent::Resized(width, height) => Reaction::Resize(width, height),
            WindowEvent::Closed => Reaction::Close,
            WindowEvent::KeyboardInput(ElementState::Pressed, Some(key)) => Reaction::Dispatch(
                RawInputEvent::Keyboard(
                    if self.pressed.contains(key.0) {
                        KeyboardAction::Type(key)
                    } else {
                        KeyboardAction::Press(key)
                    },
                ),
                self.input,
            ),
            WindowEvent::KeyboardInput(ElementState::Released, Some(key)) => Reaction::Dispatch(
                RawInputEvent::Keyboard(KeyboardAction::Release(key)),
                self.input,
            ),
            WindowEvent::MouseMoved(x, y) => Reaction::Dispatch(
                RawInputEvent::Mouse(MouseAction::Move(x, y)),
                self.input,
            ),
            WindowEvent::MouseWheel(ScrollDelta::Pixel(dx, dy)) => Reaction::Dispatch(
                RawInputEvent::Mouse(MouseAction::Wheel(dx, dy)),
                self.input,
            ),
            WindowEvent::MouseInput(ElementState::Pressed, button) => Reaction::Dispatch(
                RawInputEvent::Mouse(MouseAction::Press(button)),
                self.input,
            ),
            WindowEvent::MouseInput(ElementState::Released, button) => Reaction::Dispatch(
                RawInputEvent::Mouse(MouseAction::Release(button)),
                self.input,
            ),
            _ => Reaction::Ignore,
        }
    }
}

/// A key that has gone down is typed, not pressed, for as long as it is
/// held, and is pressed anew once it has gone up; other keys do not matter.
pub proof fn law_held_key_is_typed(window: WindowView, key: Key, other: WindowEvent)
    requires
        other != WindowEvent::KeyboardInput(ElementState::Pressed, Some(key)),
        other != WindowEvent::KeyboardInput(ElementState::Released, Some(key)),
    ensures
        ({
            let down = WindowEvent::KeyboardInput(ElementState::Pressed, Some(key));
            let up = WindowEvent::KeyboardInput(ElementState::Released, Some(key));
            &&& window.after(down).reaction(down) == Reaction::Dispatch(
                RawInputEvent::Keyboard(KeyboardAction::Type(key)),
                window.input,
            )
            &&& window.after(up).reaction(down) == Reaction::Dispatch(
                RawInputEvent::Keyboard(KeyboardAction::Press(key)),
                window.input,
            )
            &&& window.after(other).pressed.contains(key.0) == window.pressed.contains(key.0)
        }),
{
}

/// The bookkeeping of a window: what it was created with, its state, the
/// time between frames and between updates, where the mouse is, and which
/// keys are held down.
pub struct Window {
    info: WindowCreateInfo,
    state: State,
    frame_time_nanos: u64,
    update_time_nanos: u64,
    input: Input,
    pressed_keys: PressedKeys,
}

impl View for Window {
    type V = WindowView;

    closed spec fn view(&self) -> WindowView {
        WindowView {
            info: self.info,
            state: self.state,
            frame_time_nanos: self.frame_time_nanos as nat,
            update_time_nanos: self.update_time_nanos as nat,
            input: self.input,
            pressed: held(self.pressed_keys),
        }
    }
}

impl Window {
    /// A window that is ready to run, with no key held and the mouse at the
    /// origin. The frame and update rates must not be zero.
    pub fn new(info: WindowCreateInfo) -> (window: Self)
        requires
            info.fps > 0,
            info.ups > 0,
        ensures
            window@ == (WindowView {
                info,
                state: State::Ready,
                frame_time_nanos: (NANOS_PER_SEC / info.fps as u64) as nat,
                update_time_nanos: (NANOS_PER_SEC / info.ups as u64) as nat,
                input: Input { mouse_x: 0, mouse_y: 0 },
                pressed: Set::<u32>::empty(),
            }),
    {
        let frame_time_nanos = NANOS_PER_SEC / info.fps as u64;
        let update_time_nanos = NANOS_PER_SEC / info.ups as u64;
        Window {
            info,
            state: State::Ready,
            frame_time_nanos,
            update_time_nanos,
            input: Input::new(),
            pressed_keys: no_keys(),
        }
    }

    /// Takes in `event`: updates the size, the held keys or the mouse
    /// position, and says what is to be done about the event.
    pub fn on_event(&mut self, event: WindowEvent) -> (reaction: Reaction)
        ensures
            reaction == old(self)@.reaction(event),
            final(self)@ == old(self)@.after(event),
    {
        let input = self.input;
        match event {
            WindowEvent::Resized(width, height) => {
                self.info.width = width;
                self.info.height = height;
                Reaction::Resize(width, height)
            },
            WindowEvent::Closed => Reaction::Close,
            WindowEvent::KeyboardInput(ElementState::Pressed, Some(key)) => {
                let action = if !holds_key(&self.pressed_keys, key.0) {
                    insert_key(&mut self.pressed_keys, key.0);
                    KeyboardAction::Press(key)
                } else {
                    assert(held(self.pressed_keys).insert(key.0) == held(self.pressed_keys));
                    KeyboardAction::Type(key)
                };
                Reaction::Dispatch(RawInputEvent::Keyboard(action), input)
            },
            WindowEvent::KeyboardInput(ElementState::Released, Some(key)) => {
                remove_key(&mut self.pressed_keys, key.0);
                Reaction::Dispatch(RawInputEvent::Keyboard(KeyboardAction::Release(key)), input)
            },
            WindowEvent::MouseMoved(x, y) => {
                self.input.mouse_x = x;
                self.input.mouse_y = y;
                Reaction::Dispatch(RawInputEvent::Mouse(MouseAction::Move(x, y)), input)
            },
            WindowEvent::MouseWheel(ScrollDelta::Pixel(dx, dy)) => Reaction::Dispatch(
                RawInputEvent::Mouse(MouseAction::Wheel(dx, dy)),
                input,
            ),
            WindowEvent::MouseInput(ElementState::Pressed, button) => Reaction::Dispatch(
                RawInputEvent::Mouse(MouseAction::Press(button)),
                input,
            ),
            WindowEvent::MouseInput(ElementState::Released, button) => Reaction::Dispatch(
                RawInputEvent::Mouse(MouseAction::Release(button)),
                input,
            ),
            _ => Reaction::Ignore,
        }
    }

    /// Whether an update is due when `elapsed_nanos` have passed since the
    /// last one: when more than the update time has passed.
    pub fn update_due(&self, elapsed_nanos: u128) -> (due: bool)
        ensures
            due == (elapsed_nanos > self@.update_time_nanos),
    {
        elapsed_nanos > self.update_time_nanos as u128
    }

    /// Whether a frame is due when `elapsed_nanos` have passed since the last
    /// one: when more than the frame time has passed.
    pub fn frame_due(&self, elapsed_nanos: u128) -> (due: bool)
        ensures
            due == (elapsed_nanos > self@.frame_time_nanos),
    {
        elapsed_nanos > self.frame_time_nanos as u128
    }

    /// Moves the window on to `state`.
    pub fn set_state(&mut self, state: State)
        ensures
            final(self)@ == (WindowView { state, ..old(self)@ }),
    {
        self.state = state;
    }

    /// What the window was created with, with the size and the rates as
    /// they are now.
    pub fn info(&self) -> (info: &WindowCreateInfo)
        ensures
            *info == self@.info,
    {
        &self.info
    }

    /// The state that the window is in.
    pub fn get_state(&self) -> (state: State)
        ensures
            state == self@.state,
    {
        self.state
    }

    /// The input state: where the mouse is.
    pub fn input(&self) -> (input: Input)
        ensures
            input == self@.input,
    {
        self.input
    }

    /// Whether the key `key` is held down.
    pub fn is_pressed(&self, key: Key) -> (pressed: bool)
        ensures
            pressed == self@.pressed.contains(key.0),
    {
        holds_key(&self.pressed_keys, key.0)
    }

    /// Sets the frames per second, which must not be zero, and the time
    /// between frames with it.
    pub fn set_fps(&mut self, fps: u32)
        requires
            fps > 0,
        ensures
            final(self)@ == (WindowView {
                info: WindowCreateInfo { fps, ..old(self)@.info },
                frame_time_nanos: (NANOS_PER_SEC / fps as u64) as nat,
                ..old(self)@
            }),
    {
        self.info.fps = fps;
        self.frame_time_nanos = NANOS_PER_SEC / fps as u64;
    }

    /// Sets the updates per second, which must not be zero, and the time
    /// between updates with it.
    pub fn set_ups(&mut self, ups: u32)
        requires
            ups > 0,
        ensures
            final(self)@ == (WindowView {
                info: WindowCreateInfo { ups, ..old(self)@.info },
                update_time_nanos: (NANOS_PER_SEC / ups as u64) as nat,
                ..old(self)@
            }),
    {
        self.info.ups = ups;
        self.update_time_nanos = NANOS_PER_SEC / ups as u64;
    }

    /// The middle of the window, in pixels.
    pub fn center(&self) -> (center: (i32, i32))
        ensures
            center.0 == self@.info.width / 2,
            center.1 == self@.info.height / 2,
    {
        ((self.info.width / 2) as i32, (self.info.height / 2) as i32)
    }
}

} // verus!
