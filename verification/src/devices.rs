//! Reading a tick's sample out of the engine's input resources.

use vstd::prelude::*;
use bevy::input::Input;
use bevy::input::keyboard::KeyCode;
use bevy::input::mouse::MouseButton;
use crate::input::{DirectionKeys, MouseButtons};

verus! {

/// The engine's record of which inputs of one device are held.
#[verifier::external_type_specification]
#[verifier::external_body]
#[verifier::reject_recursive_types(T)]
pub struct ExInput<T: Eq + std::hash::Hash>(Input<T>);

/// The engine's names of the keys of the keyboard.
#[verifier::external_type_specification]
#[verifier::external_body]
pub struct ExKeyCode(KeyCode);

/// The engine's names of the buttons of the mouse.
#[verifier::external_type_specification]
#[verifier::external_body]
pub struct ExMouseButton(MouseButton);

/// The four keys that move the character.
#[derive(Clone, Copy, Debug, PartialEq, Eq, Structural)]
pub enum DirectionKey {
    Up,
    Down,
    Right,
    Left,
}

/// The two mouse buttons that the tick looks at.
#[derive(Clone, Copy, Debug, PartialEq, Eq, Structural)]
pub enum PointerButton {
    Left,
    Right,
}

/// The directional keys that the keyboard record holds as pressed.
pub uninterp spec fn held_direction_keys(keyboard: Input<KeyCode>) -> Set<DirectionKey>;

/// The buttons that the mouse record holds as pressed.
pub uninterp spec fn held_pointer_buttons(mouse: Input<MouseButton>) -> Set<PointerButton>;

/// `Input::<KeyCode>::pressed` for the engine's key code of `key`: whether the
/// record holds that key as pressed. The call only looks the key up.
#[verifier::external_body]
fn direction_key_pressed(keyboard: &Input<KeyCode>, key: DirectionKey) -> (held: bool)
    ensures
        held == held_direction_keys(*keyboard).contains(key),
{
    keyboard.pressed(
        match key {
            DirectionKey::Up => KeyCode::Up,
            DirectionKey::Down => KeyCode::Down,
            DirectionKey::Right => KeyCode::Right,
            DirectionKey::Left => KeyCode::Left,
        },
    )
}

/// `Input::<MouseButton>::pressed` for the engine's name of `button`: whether
/// the record holds that button as pressed. The call only looks the button up.
#[verifier::external_body]
fn pointer_button_pressed(mouse: &Input<MouseButton>, button: PointerButton) -> (held: bool)
    ensures
        held == held_pointer_buttons(*mouse).contains(button),
{
    mouse.pressed(
        match button {
            PointerButton::Left => MouseButton::Left,
            PointerButton::Right => MouseButton::Right,
        },
    )
}

/// The key sample that stands for a set of held directional keys.
pub open spec fn direction_keys_of(held: Set<DirectionKey>) -> DirectionKeys {
    DirectionKeys {
        up: held.contains(DirectionKey::Up),
        down: held.contains(DirectionKey::Down),
        right: held.contains(DirectionKey::Right),
        left: held.contains(DirectionKey::Left),
    }
}

/// The button sample that stands for a set of held mouse buttons.
pub open spec fn mouse_buttons_of(held: Set<PointerButton>) -> MouseButtons {
    MouseButtons {
        left: held.contains(PointerButton::Left),
        right: held.contains(PointerButton::Right),
    }
}

/// Samples the four directional keys of the keyboard record.
pub fn sample_direction_keys(keyboard: &Input<KeyCode>) -> (keys: DirectionKeys)
    ensures
        keys == direction_keys_of(held_direction_keys(*keyboard)),
{
    DirectionKeys {
        up: direction_key_pressed(keyboard, DirectionKey::Up),
        down: direction_key_pressed(keyboard, DirectionKey::Down),
        right: direction_key_pressed(keyboard, DirectionKey::Right),
        left: direction_key_pressed(keyboard, DirectionKey::Left),
    }
}

/// Samples the two buttons of the mouse record.
pub fn sample_mouse_buttons(mouse: &Input<MouseButton>) -> (buttons: MouseButtons)
    ensures
        buttons == mouse_buttons_of(held_pointer_buttons(*mouse)),
{
    MouseButtons {
        left: pointer_button_pressed(mouse, PointerButton::Left),
        right: pointer_button_pressed(mouse, PointerButton::Right),
    }
}

} // verus!
