//! The application driver's reaction to window events: which input event a
//! window event becomes, and whether the application exits or draws a frame.
use vstd::prelude::*;

use crate::input::{ButtonState, Key, KeyState, MouseButtonState};

verus! {

/// A window-system event, with the payloads that the decision reads.
#[derive(Debug, Clone, Copy)]
pub enum WindowInput {
    /// A window asked to be closed; `main_window` tells whether it is the
    /// application's window.
    CloseRequested { main_window: bool },
    /// The modifier keys changed; `shift` tells whether shift is held.
    ModifiersChanged { shift: bool },
    /// The cursor moved over the window.
    CursorMoved,
    /// The mouse wheel turned.
    MouseWheel,
    /// A mouse button changed state.
    MouseInput(MouseButtonState),
    /// The window must be redrawn.
    RedrawRequested,
    /// All pending events were handled.
    MainEventsCleared,
    /// Any other event.
    Other,
}

/// What the driver does with one window event.
#[derive(Debug, Clone, Copy)]
pub enum DriverStep {
    /// Wait for the device to go idle and stop the event loop.
    Exit,
    /// Forward this key event to the input system.
    Key(KeyState),
    /// Forward this mouse button event to the input system.
    MouseButton(MouseButtonState),
    /// Forward the cursor position to the input system.
    MousePosition,
    /// Forward the scroll delta to the input system.
    Scroll,
    /// Render a frame.
    Render,
    /// Ask the window for a redraw.
    RequestRedraw,
    /// Nothing besides flushing the input system.
    Nothing,
}

/// The driver's step for a window event: closing the application's window exits,
/// the shift modifier becomes a shift key event, cursor, wheel and mouse button
/// events go to the input system, and redraw requests render a frame.
pub open spec fn step_for(input: WindowInput) -> DriverStep {
    match input {
        WindowInput::CloseRequested { main_window } => if main_window {
            DriverStep::Exit
        } else {
            DriverStep::Nothing
        },
        WindowInput::ModifiersChanged { shift } => DriverStep::Key(
            KeyState {
                state: if shift {
                    ButtonState::Pressed
                } else {
                    ButtonState::Released
                },
                button: Key::Shift,
            },
        ),
        WindowInput::CursorMoved => DriverStep::MousePosition,
        WindowInput::MouseWheel => DriverStep::Scroll,
        WindowInput::MouseInput(state) => DriverStep::MouseButton(state),
        WindowInput::RedrawRequested => DriverStep::Render,
        WindowInput::MainEventsCleared => DriverStep::RequestRedraw,
        WindowInput::Other => DriverStep::Nothing,
    }
}

/// Decide what the driver does with a window event. Unless the step is `Exit`,
/// the driver then flushes and clears the input system's event buffer.
pub fn driver_step(input: WindowInput) -> (step: DriverStep)
    ensures
        step == step_for(input),
        input matches WindowInput::MouseInput(s) ==> step == DriverStep::MouseButton(s),
        input matches WindowInput::CloseRequested { main_window } ==> (step is Exit <==> main_window),
        input matches WindowInput::ModifiersChanged { shift } ==> step matches DriverStep::Key(k)
            && k.button == Key::Shift && (k.state == ButtonState::Pressed <==> shift),
        step is Exit ==> input matches WindowInput::CloseRequested { main_window: true },
        step is Render <==> input is RedrawRequested,
{
    match input {
        WindowInput::CloseRequested { main_window } => {
            if main_window {
                DriverStep::Exit
            } else {
                DriverStep::Nothing
            }
        },
        WindowInput::ModifiersChanged { shift } => {
            let state = if shift {
                ButtonState::Pressed
            } else {
                ButtonState::Released
            };
            DriverStep::Key(KeyState { state, button: Key::Shift })
        },
        WindowInput::CursorMoved => DriverStep::MousePosition,
        WindowInput::MouseWheel => DriverStep::Scroll,
        WindowInput::MouseInput(state) => DriverStep::MouseButton(state),
        WindowInput::RedrawRequested => DriverStep::Render,
        WindowInput::MainEventsCleared => DriverStep::RequestRedraw,
        WindowInput::Other => DriverStep::Nothing,
    }
}

/// A mouse button event reaches the input system unchanged: the same button in
/// the same state, released or pressed.
pub proof fn law_mouse_input_forwarded(state: MouseButtonState)
    ensures
        step_for(WindowInput::MouseInput(state)) matches DriverStep::MouseButton(s) && s.state
            == state.state && s.button == state.button,
{
}

/// The shift modifier becomes a shift key event that is pressed exactly when
/// shift is held.
pub proof fn law_shift_becomes_key(shift: bool)
    ensures
        step_for(WindowInput::ModifiersChanged { shift }) matches DriverStep::Key(k) && k.button
            == Key::Shift && (k.state == ButtonState::Pressed <==> shift),
{
}

/// Only closing the application's own window exits, and only a redraw request
/// renders a frame.
pub proof fn law_exit_and_render(input: WindowInput)
    ensures
        step_for(input) is Exit <==> input == (WindowInput::CloseRequested { main_window: true }),
        step_for(input) is Render <==> input is RedrawRequested,
{
}

} // verus!
