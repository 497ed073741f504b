use mvengine::input::{Input, Key, KeyboardAction, MouseAction, MouseButton, RawInputEvent};
use mvengine::window::{
    ElementState, Reaction, ScrollDelta, State, Window, WindowCreateInfo, WindowEvent,
    NANOS_PER_SEC,
};

#[test]
fn default_create_info() {
    let info = WindowCreateInfo::default();
    assert_eq!(info.width, 800);
    assert_eq!(info.height, 600);
    assert_eq!(info.title, "MVEngine Application");
    assert!(!info.fullscreen);
    assert!(info.decorated);
    assert!(info.resizable);
    assert!(!info.transparent);
    assert!(!info.vsync);
    assert_eq!(info.max_frames_in_flight, 2);
    assert_eq!(info.fps, 60);
    assert_eq!(info.ups, 20);
    assert_eq!(info.clone(), info);
}

#[test]
fn states_differ() {
    assert_ne!(State::Ready, State::Running);
    assert_ne!(State::Running, State::Exited);
}

fn window() -> Window {
    Window::new(WindowCreateInfo::default())
}

#[test]
fn new_window_is_ready() {
    let window = window();
    assert_eq!(window.get_state(), State::Ready);
    assert_eq!(*window.info(), WindowCreateInfo::default());
    assert_eq!(window.input(), Input { mouse_x: 0, mouse_y: 0 });
    assert!(!window.is_pressed(Key(30)));
    assert_eq!(window.center(), (400, 300));
}

#[test]
fn frame_and_update_times_follow_the_rates() {
    let mut window = window();
    // 60 frames and 20 updates per second
    assert_eq!(NANOS_PER_SEC, 1_000_000_000);
    assert!(!window.frame_due(16_666_666));
    assert!(window.frame_due(16_666_667));
    assert!(!window.update_due(50_000_000));
    assert!(window.update_due(50_000_001));
    window.set_fps(30);
    window.set_ups(7);
    assert_eq!(window.info().fps, 30);
    assert_eq!(window.info().ups, 7);
    assert!(!window.frame_due(33_333_333));
    assert!(window.frame_due(33_333_334));
    assert!(!window.update_due(142_857_142));
    assert!(window.update_due(142_857_143));
}

#[test]
fn key_is_pressed_once_and_typed_while_held() {
    let mut window = window();
    let key = Key(17);
    let held = Input { mouse_x: 0, mouse_y: 0 };
    let down = WindowEvent::KeyboardInput(ElementState::Pressed, Some(key));
    let up = WindowEvent::KeyboardInput(ElementState::Released, Some(key));
    assert_eq!(
        window.on_event(down),
        Reaction::Dispatch(RawInputEvent::Keyboard(KeyboardAction::Press(key)), held)
    );
    assert!(window.is_pressed(key));
    assert_eq!(
        window.on_event(down),
        Reaction::Dispatch(RawInputEvent::Keyboard(KeyboardAction::Type(key)), held)
    );
    assert_eq!(
        window.on_event(WindowEvent::KeyboardInput(ElementState::Pressed, Some(Key(18)))),
        Reaction::Dispatch(RawInputEvent::Keyboard(KeyboardAction::Press(Key(18))), held)
    );
    assert_eq!(
        window.on_event(up),
        Reaction::Dispatch(RawInputEvent::Keyboard(KeyboardAction::Release(key)), held)
    );
    assert!(!window.is_pressed(key));
    assert!(window.is_pressed(Key(18)));
    assert_eq!(
        window.on_event(down),
        Reaction::Dispatch(RawInputEvent::Keyboard(KeyboardAction::Press(key)), held)
    );
    // releasing a key that is not held is reported all the same
    assert_eq!(
        window.on_event(WindowEvent::KeyboardInput(ElementState::Released, Some(Key(99)))),
        Reaction::Dispatch(RawInputEvent::Keyboard(KeyboardAction::Release(Key(99))), held)
    );
}

#[test]
fn unnamed_key_is_ignored() {
    let mut window = window();
    assert_eq!(
        window.on_event(WindowEvent::KeyboardInput(ElementState::Pressed, None)),
        Reaction::Ignore
    );
    assert_eq!(
        window.on_event(WindowEvent::KeyboardInput(ElementState::Released, None)),
        Reaction::Ignore
    );
}

#[test]
fn mouse_move_is_dispatched_with_the_old_position() {
    let mut window = window();
    assert_eq!(
        window.on_event(WindowEvent::MouseMoved(10, 20)),
        Reaction::Dispatch(
            RawInputEvent::Mouse(MouseAction::Move(10, 20)),
            Input { mouse_x: 0, mouse_y: 0 }
        )
    );
    assert_eq!(window.input(), Input { mouse_x: 10, mouse_y: 20 });
    assert_eq!(
        window.on_event(WindowEvent::MouseMoved(-3, 4)),
        Reaction::Dispatch(
            RawInputEvent::Mouse(MouseAction::Move(-3, 4)),
            Input { mouse_x: 10, mouse_y: 20 }
        )
    );
    assert_eq!(window.input(), Input { mouse_x: -3, mouse_y: 4 });
}

#[test]
fn buttons_and_wheel() {
    let mut window = window();
    let at = Input { mouse_x: 0, mouse_y: 0 };
    assert_eq!(
        window.on_event(WindowEvent::MouseInput(ElementState::Pressed, MouseButton::Left)),
        Reaction::Dispatch(RawInputEvent::Mouse(MouseAction::Press(MouseButton::Left)), at)
    );
    assert_eq!(
        window.on_event(WindowEvent::MouseInput(ElementState::Released, MouseButton::Other(4))),
        Reaction::Dispatch(RawInputEvent::Mouse(MouseAction::Release(MouseButton::Other(4))), at)
    );
    let dx = 1.5f32.to_bits();
    let dy = (-2.0f32).to_bits();
    assert_eq!(
        window.on_event(WindowEvent::MouseWheel(ScrollDelta::Pixel(dx, dy))),
        Reaction::Dispatch(RawInputEvent::Mouse(MouseAction::Wheel(dx, dy)), at)
    );
    assert_eq!(window.on_event(WindowEvent::MouseWheel(ScrollDelta::Line(dx, dy))), Reaction::Ignore);
}

#[test]
fn resize_close_and_the_rest() {
    let mut window = window();
    assert_eq!(window.on_event(WindowEvent::Resized(1024, 769)), Reaction::Resize(1024, 769));
    assert_eq!(window.info().width, 1024);
    assert_eq!(window.info().height, 769);
    assert_eq!(window.center(), (512, 384));
    assert_eq!(window.on_event(WindowEvent::Closed), Reaction::Close);
    assert_eq!(window.on_event(WindowEvent::Other), Reaction::Ignore);
    assert_eq!(window.get_state(), State::Ready);
    window.set_state(State::Running);
    assert_eq!(window.get_state(), State::Running);
    window.set_state(State::Exited);
    assert_eq!(window.get_state(), State::Exited);
}

#[test]
fn center_of_the_widest_window_fits() {
    let mut window = window();
    window.on_event(WindowEvent::Resized(u32::MAX, 1));
    assert_eq!(window.center(), (i32::MAX, 0));
}
