use andromeda::camera::{Camera, CameraInput, CameraMotion, EnableCameraEvent};
use andromeda::driver::{driver_step, DriverStep, WindowInput};
use andromeda::input::{ButtonState, InputState, Key, KeyState, MouseButton, MouseButtonState};

#[test]
fn unreported_buttons_are_released() {
    let state = InputState::new();
    assert_eq!(state.get_key(Key::Shift), ButtonState::Released);
    assert_eq!(state.get_mouse_key(MouseButton::Other(7)), ButtonState::Released);
}

#[test]
fn key_event_sets_only_that_key() {
    let mut state = InputState::new();
    state.process_key(KeyState { state: ButtonState::Pressed, button: Key::Shift });
    assert_eq!(state.get_key(Key::Shift), ButtonState::Pressed);
    assert_eq!(state.get_key(Key::Escape), ButtonState::Released);
    state.process_key(KeyState { state: ButtonState::Released, button: Key::Shift });
    assert_eq!(state.get_key(Key::Shift), ButtonState::Released);
}

#[test]
fn mouse_event_sets_only_that_button() {
    let mut state = InputState::new();
    state.process_mouse_button(MouseButtonState {
        state: ButtonState::Pressed,
        button: MouseButton::Other(0),
    });
    assert_eq!(state.get_mouse_key(MouseButton::Other(0)), ButtonState::Pressed);
    assert_eq!(state.get_mouse_key(MouseButton::Left), ButtonState::Released);
    assert_eq!(state.get_mouse_key(MouseButton::Middle), ButtonState::Released);
    assert_eq!(state.get_mouse_key(MouseButton::Other(1)), ButtonState::Released);
    assert_eq!(state.get_key(Key::Shift), ButtonState::Released);
}

#[test]
fn camera_motion_follows_buttons() {
    let camera = Camera::new();
    let mut input = InputState::new();
    assert_eq!(camera.motion(CameraInput::MouseMove, &input), CameraMotion::Stay);
    assert_eq!(camera.motion(CameraInput::Scroll, &input), CameraMotion::Zoom);
    input.process_mouse_button(MouseButtonState {
        state: ButtonState::Pressed,
        button: MouseButton::Middle,
    });
    assert_eq!(camera.motion(CameraInput::MouseMove, &input), CameraMotion::Rotate);
    input.process_key(KeyState { state: ButtonState::Pressed, button: Key::Shift });
    assert_eq!(camera.motion(CameraInput::MouseMove, &input), CameraMotion::Pan);
    assert_eq!(camera.motion(CameraInput::Other, &input), CameraMotion::Stay);
}

#[test]
fn disabled_camera_stays() {
    let mut camera = Camera::new();
    assert!(camera.controls_enabled());
    camera.handle_enabled_event(&EnableCameraEvent { enabled: false });
    assert!(!camera.controls_enabled());
    let input = InputState::new();
    assert_eq!(camera.motion(CameraInput::Scroll, &input), CameraMotion::Stay);
    camera.handle_enabled_event(&EnableCameraEvent { enabled: true });
    assert_eq!(camera.motion(CameraInput::Scroll, &input), CameraMotion::Zoom);
}

#[test]
fn driver_steps() {
    assert!(matches!(
        driver_step(WindowInput::CloseRequested { main_window: true }),
        DriverStep::Exit
    ));
    assert!(matches!(
        driver_step(WindowInput::CloseRequested { main_window: false }),
        DriverStep::Nothing
    ));
    match driver_step(WindowInput::ModifiersChanged { shift: true }) {
        DriverStep::Key(k) => {
            assert_eq!(k.state, ButtonState::Pressed);
            assert_eq!(k.button, Key::Shift);
        }
        _ => panic!("expected a key event"),
    }
    match driver_step(WindowInput::ModifiersChanged { shift: false }) {
        DriverStep::Key(k) => assert_eq!(k.state, ButtonState::Released),
        _ => panic!("expected a key event"),
    }
    assert!(matches!(driver_step(WindowInput::RedrawRequested), DriverStep::Render));
    assert!(matches!(driver_step(WindowInput::MainEventsCleared), DriverStep::RequestRedraw));
    assert!(matches!(driver_step(WindowInput::MouseWheel), DriverStep::Scroll));
    assert!(matches!(driver_step(WindowInput::CursorMoved), DriverStep::MousePosition));
    assert!(matches!(driver_step(WindowInput::Other), DriverStep::Nothing));
}
