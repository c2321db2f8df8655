//! Button and key states, updated from input events.
use std::collections::HashMap;

use vstd::prelude::*;

verus! {

broadcast use vstd::std_specs::hash::group_hash_axioms;

#[derive(Debug, Clone, Copy, PartialEq, Eq, Structural)]
pub enum ButtonState {
    Pressed,
    Released,
}

#[derive(Debug, Clone, Copy, PartialEq, Eq, Structural, Hash)]
pub enum MouseButton {
    Left,
    Right,
    Middle,
    Other(u16),
}

#[derive(Debug, Clone, Copy, PartialEq, Eq, Structural, Hash)]
pub enum Key {
    Shift,
    Escape,
}

#[derive(Debug, Clone, Copy)]
pub struct MouseButtonState {
    pub state: ButtonState,
    pub button: MouseButton,
}

#[derive(Debug, Clone, Copy)]
pub struct KeyState {
    pub state: ButtonState,
    pub button: Key,
}

/// The number under which a mouse button's state is kept; distinct buttons get
/// distinct numbers.
pub open spec fn mouse_button_code(button: MouseButton) -> u32 {
    match button {
        MouseButton::Left => 0,
        MouseButton::Right => 1,
        MouseButton::Middle => 2,
        MouseButton::Other(x) => (3 + x) as u32,
    }
}

/// The number under which a key's state is kept.
pub open spec fn key_code(key: Key) -> u32 {
    match key {
        Key::Shift => 0,
        Key::Escape => 1,
    }
}

fn mouse_button_number(button: MouseButton) -> (code: u32)
    ensures
        code == mouse_button_code(button),
{
    match button {
        MouseButton::Left => 0,
        MouseButton::Right => 1,
        MouseButton::Middle => 2,
        MouseButton::Other(x) => 3 + x as u32,
    }
}

fn key_number(key: Key) -> (code: u32)
    ensures
        code == key_code(key),
{
    match key {
        Key::Shift => 0,
        Key::Escape => 1,
    }
}

/// Distinct mouse buttons are kept under distinct numbers.
pub proof fn lemma_mouse_button_code_injective(a: MouseButton, b: MouseButton)
    ensures
        mouse_button_code(a) == mouse_button_code(b) <==> a == b,
{
}

/// Distinct keys are kept under distinct numbers.
pub proof fn lemma_key_code_injective(a: Key, b: Key)
    ensures
        key_code(a) == key_code(b) <==> a == b,
{
}

/// The state recorded under `code`; a button that was never reported is released.
pub open spec fn recorded_state(states: Map<u32, ButtonState>, code: u32) -> ButtonState {
    if states.contains_key(code) {
        states[code]
    } else {
        ButtonState::Released
    }
}

/// The last reported state of every mouse button and key.
pub struct InputState {
    mouse_buttons: HashMap<u32, ButtonState>,
    kb_buttons: HashMap<u32, ButtonState>,
}

impl InputState {
    /// The last reported state of each mouse button, by its number.
    pub closed spec fn mouse_states(&self) -> Map<u32, ButtonState> {
        self.mouse_buttons@
    }

    /// The last reported state of each key, by its number.
    pub closed spec fn key_states(&self) -> Map<u32, ButtonState> {
        self.kb_buttons@
    }

    /// The state of `button` as the input state reports it.
    pub open spec fn mouse_state(&self, button: MouseButton) -> ButtonState {
        recorded_state(self.mouse_states(), mouse_button_code(button))
    }

    /// The state of `key` as the input state reports it.
    pub open spec fn key_state(&self, key: Key) -> ButtonState {
        recorded_state(self.key_states(), key_code(key))
    }

    /// No button has been reported yet.
    pub fn new() -> (state: Self)
        ensures
            state.mouse_states() == Map::<u32, ButtonState>::empty(),
            state.key_states() == Map::<u32, ButtonState>::empty(),
    {
        InputState { mouse_buttons: HashMap::new(), kb_buttons: HashMap::new() }
    }

    /// The last reported state of `key`, or `Released` if it was never reported.
    pub fn get_key(&self, key: Key) -> (state: ButtonState)
        ensures
            state == self.key_state(key),
    {
        match self.kb_buttons.get(&key_number(key)) {
            Some(state) => *state,
            None => ButtonState::Released,
        }
    }

    /// The last reported state of `button`, or `Released` if it was never reported.
    pub fn get_mouse_key(&self, button: MouseButton) -> (state: ButtonState)
        ensures
            state == self.mouse_state(button),
    {
        match self.mouse_buttons.get(&mouse_button_number(button)) {
            Some(state) => *state,
            None => ButtonState::Released,
        }
    }

    /// Record a mouse button event.
    pub fn process_mouse_button(&mut self, event: MouseButtonState)
        ensures
            final(self).mouse_states() == old(self).mouse_states().insert(
                mouse_button_code(event.button),
                event.state,
            ),
            final(self).key_states() == old(self).key_states(),
    {
        self.mouse_buttons.insert(mouse_button_number(event.button), event.state);
    }

    /// Record a key event.
    pub fn process_key(&mut self, event: KeyState)
        ensures
            final(self).key_states() == old(self).key_states().insert(
                key_code(event.button),
                event.state,
            ),
            final(self).mouse_states() == old(self).mouse_states(),
    {
        self.kb_buttons.insert(key_number(event.button), event.state);
    }
}

/// After a key event, the key reports the new state and every other key and
/// every mouse button reports what it reported before.
pub proof fn law_key_event_sets_only_that_key(
    before: InputState,
    after: InputState,
    event: KeyState,
)
    requires
        after.key_states() == before.key_states().insert(key_code(event.button), event.state),
        after.mouse_states() == before.mouse_states(),
    ensures
        after.key_state(event.button) == event.state,
        forall|key: Key| key != event.button ==> after.key_state(key) == before.key_state(key),
        forall|button: MouseButton| after.mouse_state(button) == before.mouse_state(button),
{
}

/// After a mouse button event, the button reports the new state and every other
/// button and every key reports what it reported before.
pub proof fn law_mouse_event_sets_only_that_button(
    before: InputState,
    after: InputState,
    event: MouseButtonState,
)
    requires
        after.mouse_states() == before.mouse_states().insert(
            mouse_button_code(event.button),
            event.state,
        ),
        after.key_states() == before.key_states(),
    ensures
        after.mouse_state(event.button) == event.state,
        forall|button: MouseButton|
            button != event.button ==> after.mouse_state(button) == before.mouse_state(button),
        forall|key: Key| after.key_state(key) == before.key_state(key),
{
    assert forall|button: MouseButton| button != event.button implies after.mouse_state(button)
        == before.mouse_state(button) by {
        lemma_mouse_button_code_injective(button, event.button);
    }
}

} // verus!
