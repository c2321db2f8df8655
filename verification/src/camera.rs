//! The camera controller: whether it reacts to input, and which camera motion
//! an input event asks for.
use vstd::prelude::*;

use crate::input::{ButtonState, InputState, Key, MouseButton};

verus! {

/// Turns the camera controls on or off.
#[derive(Debug)]
pub struct EnableCameraEvent {
    pub enabled: bool,
}

/// The camera controller system.
#[derive(Debug, Clone)]
pub struct Camera {
    enable_controls: bool,
}

/// The kind of an input event, as far as the camera controller tells them apart.
#[derive(Debug, Clone, Copy, PartialEq, Eq, Structural)]
pub enum CameraInput {
    /// The mouse moved by some delta.
    MouseMove,
    /// The scroll wheel turned.
    Scroll,
    /// Any other input event.
    Other,
}

/// What the camera does in response to an input event.
#[derive(Debug, Clone, Copy, PartialEq, Eq, Structural)]
pub enum CameraMotion {
    /// Translate in the camera's up/right plane by the mouse delta.
    Pan,
    /// Rotate by the mouse delta.
    Rotate,
    /// Move along the view direction by the scroll amount.
    Zoom,
    /// Do nothing.
    Stay,
}

/// The motion the camera controller performs for an input event: dragging with
/// the middle mouse button pans while shift is held and rotates otherwise, and
/// scrolling zooms.
pub open spec fn motion_for(enabled: bool, event: CameraInput, middle: ButtonState, shift: ButtonState) -> CameraMotion {
    if !enabled {
        CameraMotion::Stay
    } else {
        match event {
            CameraInput::MouseMove => if middle == ButtonState::Pressed {
                if shift == ButtonState::Pressed {
                    CameraMotion::Pan
                } else {
                    CameraMotion::Rotate
                }
            } else {
                CameraMotion::Stay
            },
            CameraInput::Scroll => CameraMotion::Zoom,
            CameraInput::Other => CameraMotion::Stay,
        }
    }
}

impl Camera {
    pub closed spec fn enabled(&self) -> bool {
        self.enable_controls
    }

    /// A camera controller with its controls turned on.
    pub fn new() -> (camera: Self)
        ensures
            camera.enabled(),
    {
        Camera { enable_controls: true }
    }

    /// Whether the controls are on.
    pub fn controls_enabled(&self) -> (enabled: bool)
        ensures
            enabled == self.enabled(),
    {
        self.enable_controls
    }

    /// Turn the controls on or off.
    pub fn handle_enabled_event(&mut self, event: &EnableCameraEvent)
        ensures
            final(self).enabled() == event.enabled,
    {
        self.enable_controls = event.enabled;
    }

    /// The motion the camera performs for an input event, given the current
    /// button states.
    pub fn motion(&self, event: CameraInput, input: &InputState) -> (motion: CameraMotion)
        ensures
            motion == motion_for(
                self.enabled(),
                event,
                input.mouse_state(MouseButton::Middle),
                input.key_state(Key::Shift),
            ),
            !self.enabled() ==> motion == CameraMotion::Stay,
            self.enabled() && event == CameraInput::MouseMove && input.mouse_state(
                MouseButton::Middle,
            ) != ButtonState::Pressed ==> motion == CameraMotion::Stay,
            self.enabled() && event == CameraInput::MouseMove && input.mouse_state(
                MouseButton::Middle,
            ) == ButtonState::Pressed && input.key_state(Key::Shift) == ButtonState::Pressed
                ==> motion == CameraMotion::Pan,
            self.enabled() && event == CameraInput::MouseMove && input.mouse_state(
                MouseButton::Middle,
            ) == ButtonState::Pressed && input.key_state(Key::Shift) != ButtonState::Pressed
                ==> motion == CameraMotion::Rotate,
            self.enabled() && event == CameraInput::Scroll ==> motion == CameraMotion::Zoom,
            event == CameraInput::Other ==> motion == CameraMotion::Stay,
    {
        if !self.enable_controls {
            return CameraMotion::Stay;
        }
        match event {
            CameraInput::MouseMove => {
                if input.get_mouse_key(MouseButton::Middle) == ButtonState::Pressed {
                    if input.get_key(Key::Shift) == ButtonState::Pressed {
                        CameraMotion::Pan
                    } else {
                        CameraMotion::Rotate
                    }
                } else {
                    CameraMotion::Stay
                }
            },
            CameraInput::Scroll => CameraMotion::Zoom,
            CameraInput::Other => CameraMotion::Stay,
        }
    }
}

/// A camera whose controls are off does not move, whatever the input.
pub proof fn law_disabled_camera_stays(event: CameraInput, middle: ButtonState, shift: ButtonState)
    ensures
        motion_for(false, event, middle, shift) == CameraMotion::Stay,
{
}

/// Scrolling zooms whenever the controls are on, whatever buttons are held.
pub proof fn law_scroll_zooms(middle: ButtonState, shift: ButtonState)
    ensures
        motion_for(true, CameraInput::Scroll, middle, shift) == CameraMotion::Zoom,
{
}

/// Moving the mouse without the middle button held leaves the camera where it
/// is, whether or not shift is held.
pub proof fn law_mouse_move_needs_middle_button(shift: ButtonState)
    ensures
        motion_for(true, CameraInput::MouseMove, ButtonState::Released, shift) == CameraMotion::Stay,
{
}

/// Dragging with the middle button pans exactly when shift is held, and rotates
/// otherwise; no other motion comes from a mouse move.
pub proof fn law_middle_drag(shift: ButtonState)
    ensures
        shift == ButtonState::Pressed ==> motion_for(
            true,
            CameraInput::MouseMove,
            ButtonState::Pressed,
            shift,
        ) == CameraMotion::Pan,
        shift == ButtonState::Released ==> motion_for(
            true,
            CameraInput::MouseMove,
            ButtonState::Pressed,
            shift,
        ) == CameraMotion::Rotate,
{
}

/// Only a mouse move pans or rotates, and only scrolling zooms; other events
/// leave the camera where it is.
pub proof fn law_motion_kinds(enabled: bool, event: CameraInput, middle: ButtonState, shift: ButtonState)
    ensures
        motion_for(enabled, event, middle, shift) == CameraMotion::Pan ==> enabled && event
            == CameraInput::MouseMove && middle == ButtonState::Pressed && shift
            == ButtonState::Pressed,
        motion_for(enabled, event, middle, shift) == CameraMotion::Rotate ==> enabled && event
            == CameraInput::MouseMove && middle == ButtonState::Pressed && shift
            == ButtonState::Released,
        motion_for(enabled, event, middle, shift) == CameraMotion::Zoom <==> enabled && event
            == CameraInput::Scroll,
        event == CameraInput::Other ==> motion_for(enabled, event, middle, shift)
            == CameraMotion::Stay,
{
}

} // verus!
