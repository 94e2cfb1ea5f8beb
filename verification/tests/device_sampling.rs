use bevy::input::keyboard::KeyCode;
use bevy::input::mouse::MouseButton;
use bevy::input::Input;
use player_control::devices::{sample_direction_keys, sample_mouse_buttons};
use player_control::input::{DirectionKeys, MouseButtons};

#[test]
fn no_key_pressed_samples_as_none_held() {
    let keyboard = Input::<KeyCode>::default();
    assert_eq!(
        sample_direction_keys(&keyboard),
        DirectionKeys { up: false, down: false, right: false, left: false }
    );
}

#[test]
fn each_directional_key_is_sampled_by_itself() {
    let none = DirectionKeys { up: false, down: false, right: false, left: false };
    let cases = [
        (KeyCode::Up, DirectionKeys { up: true, ..none }),
        (KeyCode::Down, DirectionKeys { down: true, ..none }),
        (KeyCode::Right, DirectionKeys { right: true, ..none }),
        (KeyCode::Left, DirectionKeys { left: true, ..none }),
    ];
    for (code, expected) in cases {
        let mut keyboard = Input::<KeyCode>::default();
        keyboard.press(code);
        assert_eq!(sample_direction_keys(&keyboard), expected);
    }
}

#[test]
fn other_keys_do_not_count_as_directional() {
    let mut keyboard = Input::<KeyCode>::default();
    keyboard.press(KeyCode::W);
    keyboard.press(KeyCode::Space);
    assert!(!sample_direction_keys(&keyboard).any());
}

#[test]
fn released_key_is_no_longer_held() {
    let mut keyboard = Input::<KeyCode>::default();
    keyboard.press(KeyCode::Up);
    keyboard.press(KeyCode::Left);
    keyboard.release(KeyCode::Up);
    assert_eq!(
        sample_direction_keys(&keyboard),
        DirectionKeys { up: false, down: false, right: false, left: true }
    );
}

#[test]
fn key_stays_held_after_the_tick_it_was_pressed_in() {
    let mut keyboard = Input::<KeyCode>::default();
    keyboard.press(KeyCode::Down);
    keyboard.clear();
    assert!(sample_direction_keys(&keyboard).down);
}

#[test]
fn mouse_buttons_are_sampled_by_themselves() {
    let mut mouse = Input::<MouseButton>::default();
    assert_eq!(sample_mouse_buttons(&mouse), MouseButtons { left: false, right: false });
    mouse.press(MouseButton::Right);
    assert_eq!(sample_mouse_buttons(&mouse), MouseButtons { left: false, right: true });
    mouse.press(MouseButton::Left);
    assert_eq!(sample_mouse_buttons(&mouse), MouseButtons { left: true, right: true });
    mouse.release(MouseButton::Right);
    assert_eq!(sample_mouse_buttons(&mouse), MouseButtons { left: true, right: false });
}

#[test]
fn middle_button_is_not_sampled() {
    let mut mouse = Input::<MouseButton>::default();
    mouse.press(MouseButton::Middle);
    assert_eq!(sample_mouse_buttons(&mouse), MouseButtons { left: false, right: false });
}
