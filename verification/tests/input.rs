use frameloop::input::{Input, InputEvent, InputState, KeyMods};

const KEY_A: u32 = 10;
const LOGICAL_A: u32 = 97;
const BUTTON_LEFT: u32 = 0;

fn press(key: u32, logical_key: Option<u32>) -> InputEvent {
    InputEvent::Key { key, logical_key, repeat: false, state: InputState::Pressed }
}

fn release(key: u32, logical_key: Option<u32>) -> InputEvent {
    InputEvent::Key { key, logical_key, repeat: false, state: InputState::Released }
}

#[test]
fn key_lifecycle_press_hold_release_gone() {
    let mut input = Input::new();

    input.process_event(press(KEY_A, None));
    assert!(input.is_key_pressed(KEY_A));
    assert!(input.is_key_down(KEY_A));

    input.update_keys();
    assert!(!input.is_key_pressed(KEY_A));
    assert!(input.is_key_down(KEY_A));

    input.process_event(release(KEY_A, None));
    assert!(input.is_key_released(KEY_A));
    assert!(!input.is_key_down(KEY_A));

    input.update_keys();
    assert!(input.keys().get(KEY_A).is_none());
    assert!(!input.is_key_pressed(KEY_A));
    assert!(!input.is_key_down(KEY_A));
    assert!(!input.is_key_released(KEY_A));
}

#[test]
fn repeat_events_are_suppressed() {
    let mut input = Input::new();

    input.process_event(press(KEY_A, Some(LOGICAL_A)));
    input.update_keys();
    assert_eq!(input.keys().get(KEY_A), Some(InputState::Down));

    input.process_event(InputEvent::Key {
        key: KEY_A,
        logical_key: Some(LOGICAL_A),
        repeat: true,
        state: InputState::Pressed,
    });
    assert_eq!(input.keys().get(KEY_A), Some(InputState::Down));
    assert!(!input.is_key_pressed(KEY_A));
    assert!(input.is_key_down(KEY_A));
    assert_eq!(input.logical_keys().get(LOGICAL_A), Some(InputState::Down));
    assert!(!input.is_logical_key_pressed(LOGICAL_A));
    assert!(input.is_logical_key_down(LOGICAL_A));
}

#[test]
fn logical_keys_follow_key_events() {
    let mut input = Input::new();

    input.process_event(press(KEY_A, Some(LOGICAL_A)));
    assert!(input.is_logical_key_pressed(LOGICAL_A));
    assert!(input.is_logical_key_down(LOGICAL_A));

    input.update_keys();
    input.process_event(release(KEY_A, Some(LOGICAL_A)));
    assert!(input.is_logical_key_released(LOGICAL_A));
    assert!(!input.is_logical_key_down(LOGICAL_A));

    input.update_keys();
    assert!(input.logical_keys().get(LOGICAL_A).is_none());
}

#[test]
fn key_without_logical_id_leaves_logical_map_alone() {
    let mut input = Input::new();
    input.process_event(press(KEY_A, None));
    assert!(input.is_key_pressed(KEY_A));
    assert!(!input.is_logical_key_pressed(LOGICAL_A));
    assert!(input.logical_keys().get(LOGICAL_A).is_none());
}

#[test]
fn mouse_button_lifecycle() {
    let mut input = Input::new();

    input.process_event(InputEvent::MouseButton {
        button: BUTTON_LEFT,
        state: InputState::Pressed,
    });
    assert!(input.is_mouse_button_pressed(BUTTON_LEFT));
    assert!(input.is_mouse_button_down(BUTTON_LEFT));

    input.update_keys();
    assert!(!input.is_mouse_button_pressed(BUTTON_LEFT));
    assert!(input.is_mouse_button_down(BUTTON_LEFT));

    input.process_event(InputEvent::MouseButton {
        button: BUTTON_LEFT,
        state: InputState::Released,
    });
    assert!(input.is_mouse_button_released(BUTTON_LEFT));
    assert!(!input.is_mouse_button_down(BUTTON_LEFT));

    input.update_keys();
    assert!(input.mouse_buttons().get(BUTTON_LEFT).is_none());
}

#[test]
fn modifiers_replace_the_snapshot() {
    let mut input = Input::new();
    let mods = KeyMods {
        lshift: true,
        rshift: false,
        lalt: false,
        ralt: true,
        lcontrol: false,
        rcontrol: false,
        lsuper: false,
        rsuper: false,
    };
    input.process_event(InputEvent::Modifiers(mods));
    assert_eq!(input.key_mods(), mods);

    input.process_event(InputEvent::Modifiers(KeyMods::default()));
    assert_eq!(input.key_mods(), KeyMods::default());
}

#[test]
fn mouse_position_and_scroll_store_last_seen() {
    let mut input = Input::new();
    assert_eq!(input.mouse_pos(), (0, 0));
    assert_eq!(input.mouse_scroll(), (0, 0));

    let x = 320.5f32.to_bits();
    let y = 240.25f32.to_bits();
    input.process_event(InputEvent::MouseMoved(x, y));
    assert_eq!(input.mouse_pos(), (x, y));
    assert_eq!(f32::from_bits(input.mouse_pos().0), 320.5);
    assert_eq!(f32::from_bits(input.mouse_pos().1), 240.25);

    let sx = 0.0f32.to_bits();
    let sy = (-3.0f32).to_bits();
    input.process_event(InputEvent::MouseScroll(sx, sy));
    assert_eq!(input.mouse_scroll(), (sx, sy));

    // A second scroll replaces the delta; it is not accumulated.
    let sy2 = 1.5f32.to_bits();
    input.process_event(InputEvent::MouseScroll(sx, sy2));
    assert_eq!(input.mouse_scroll(), (sx, sy2));
}

#[test]
fn clear_resets_every_query() {
    let mut input = Input::new();
    input.process_event(press(KEY_A, Some(LOGICAL_A)));
    input.process_event(InputEvent::MouseButton {
        button: BUTTON_LEFT,
        state: InputState::Pressed,
    });
    input.process_event(InputEvent::Modifiers(KeyMods {
        lshift: true,
        rshift: true,
        lalt: true,
        ralt: true,
        lcontrol: true,
        rcontrol: true,
        lsuper: true,
        rsuper: true,
    }));
    input.process_event(InputEvent::MouseMoved(55, 66));
    input.process_event(InputEvent::MouseScroll(7, 8));
    input.update_keys();

    input.clear();

    assert!(!input.is_key_pressed(KEY_A));
    assert!(!input.is_key_down(KEY_A));
    assert!(!input.is_key_released(KEY_A));
    assert!(!input.is_logical_key_pressed(LOGICAL_A));
    assert!(!input.is_logical_key_down(LOGICAL_A));
    assert!(!input.is_logical_key_released(LOGICAL_A));
    assert!(!input.is_mouse_button_pressed(BUTTON_LEFT));
    assert!(!input.is_mouse_button_down(BUTTON_LEFT));
    assert!(!input.is_mouse_button_released(BUTTON_LEFT));
    assert_eq!(input.key_mods(), KeyMods::default());
    assert_eq!(input.mouse_pos(), (0, 0));
    assert_eq!(input.mouse_scroll(), (0, 0));
    assert!(input.keys().get(KEY_A).is_none());
}

#[test]
fn input_state_predicates() {
    assert!(InputState::Pressed.is_pressed());
    assert!(!InputState::Down.is_pressed());
    assert!(!InputState::Released.is_pressed());

    assert!(InputState::Pressed.is_any_down());
    assert!(InputState::Down.is_any_down());
    assert!(!InputState::Released.is_any_down());

    assert!(!InputState::Pressed.is_released());
    assert!(!InputState::Down.is_released());
    assert!(InputState::Released.is_released());
}

#[test]
fn overwriting_a_key_keeps_one_entry() {
    let mut input = Input::new();
    input.process_event(press(KEY_A, None));
    input.process_event(press(KEY_A, None));
    assert!(input.is_key_pressed(KEY_A));
    input.process_event(release(KEY_A, None));
    assert!(input.is_key_released(KEY_A));
    assert!(!input.is_key_down(KEY_A));
    input.update_keys();
    assert!(input.keys().get(KEY_A).is_none());
}
