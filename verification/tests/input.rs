use kiwi::capture::{Axis, ButtonState, InputEvent, KeyState, SwipeDirection};
use kiwi::daemon_keys;
use kiwi::input::{
    is_modifier, key_to_string, prettify_key_name, process_input_event, process_input_event_named,
    KeyNaming,
};
use kiwi::overlay::SharedState;

fn key(key: u32, pressed: bool) -> InputEvent {
    InputEvent::Key { key, state: if pressed { KeyState::Pressed } else { KeyState::Released } }
}

fn history_keys(s: &SharedState) -> Vec<Vec<String>> {
    s.history.iter().map(|k| k.keys.clone()).collect()
}

#[test]
fn evdev_key_names() {
    assert_eq!(key_to_string(29).as_deref(), Some("Ctrl"));
    assert_eq!(key_to_string(54).as_deref(), Some("⇧"));
    assert_eq!(key_to_string(126).as_deref(), Some("Super"));
    assert_eq!(key_to_string(96).as_deref(), Some("↵"));
    assert_eq!(key_to_string(111).as_deref(), Some("Del"));
    assert_eq!(key_to_string(30).as_deref(), Some("A"));
    assert_eq!(key_to_string(2).as_deref(), Some("1"));
    assert_eq!(key_to_string(59).as_deref(), Some("F1"));
    assert_eq!(key_to_string(183).as_deref(), Some("F13"));
    assert_eq!(key_to_string(12).as_deref(), Some("-"));
    assert_eq!(key_to_string(71).as_deref(), Some("KP7"));
    assert_eq!(key_to_string(55).as_deref(), Some("KPASTERISK"));
    assert_eq!(key_to_string(69).as_deref(), Some("Numlock"));
    assert_eq!(key_to_string(86).as_deref(), Some("102nd"));
    assert_eq!(key_to_string(240).as_deref(), Some("Unknown"));
    assert_eq!(key_to_string(84), None);
    assert_eq!(key_to_string(744), None);
}

#[test]
fn evdev_key_codes_are_truncated_to_sixteen_bits() {
    assert_eq!(key_to_string(65536 + 30).as_deref(), Some("A"));
    assert!(is_modifier(65536 + 29));
}

#[test]
fn modifier_codes() {
    for code in [29, 97, 56, 100, 42, 54, 125, 126] {
        assert!(is_modifier(code));
        assert!(daemon_keys::is_modifier(code));
    }
    for code in [1, 30, 28, 57, 65] {
        assert!(!is_modifier(code));
        assert!(!daemon_keys::is_modifier(code));
    }
}

#[test]
fn prettify_names() {
    assert_eq!(prettify_key_name("unknown key: 84"), None);
    assert_eq!(prettify_key_name("KEY_SCROLLLOCK").as_deref(), Some("Scrolllock"));
    assert_eq!(prettify_key_name("KEY_KP").as_deref(), Some("KP"));
    assert_eq!(prettify_key_name("KEY_KPPLUS").as_deref(), Some("KPPLUS"));
    assert_eq!(prettify_key_name("KEY_Z").as_deref(), Some("Z"));
    assert_eq!(prettify_key_name("KEY_F24").as_deref(), Some("F24"));
    assert_eq!(prettify_key_name("KEY_FN").as_deref(), Some("Fn"));
    assert_eq!(prettify_key_name("KEY_SLASH").as_deref(), Some("/"));
    assert_eq!(prettify_key_name("KEY_BACKSLASH").as_deref(), Some("\\"));
    assert_eq!(prettify_key_name("KEY_SPACE").as_deref(), Some("␣"));
    assert_eq!(prettify_key_name("BTN_LEFT").as_deref(), Some("Btn_left"));
    assert_eq!(prettify_key_name("123").as_deref(), Some("123"));
    assert_eq!(prettify_key_name("99999999999").as_deref(), Some("99999999999"));
    assert_eq!(prettify_key_name("").as_deref(), Some(""));
    assert_eq!(prettify_key_name("é").as_deref(), Some("é"));
}

#[test]
fn daemon_table_names() {
    assert_eq!(daemon_keys::key_to_string(1).as_deref(), Some("Esc"));
    assert_eq!(daemon_keys::key_to_string(2).as_deref(), Some("1"));
    assert_eq!(daemon_keys::key_to_string(10).as_deref(), Some("9"));
    assert_eq!(daemon_keys::key_to_string(11).as_deref(), Some("0"));
    assert_eq!(daemon_keys::key_to_string(43).as_deref(), Some("\\"));
    assert_eq!(daemon_keys::key_to_string(68).as_deref(), Some("F10"));
    assert_eq!(daemon_keys::key_to_string(88).as_deref(), Some("F12"));
    assert_eq!(daemon_keys::key_to_string(125).as_deref(), Some("Super"));
    assert_eq!(daemon_keys::key_to_string(69), None);
    assert_eq!(daemon_keys::key_to_string(65536 + 30), None);
}

#[test]
fn key_tap_is_recorded_alone() {
    let mut s = SharedState::new(true, 5000, 5, true);
    process_input_event(&mut s, key(30, true), 0);
    let shown = s.display_keystrokes();
    assert_eq!(shown.len(), 1);
    assert!(shown[0].pressed);
    process_input_event(&mut s, key(30, false), 0);
    assert_eq!(history_keys(&s), vec![vec!["A".to_string()]]);
    assert!(!s.history[0].pressed);
    assert!(s.current_key.is_none());
}

#[test]
fn shortcut_is_recorded_once_as_combination() {
    let mut s = SharedState::new(true, 5000, 5, true);
    process_input_event(&mut s, key(29, true), 0);
    process_input_event(&mut s, key(46, true), 0);
    process_input_event(&mut s, key(46, false), 0);
    process_input_event(&mut s, key(29, false), 0);
    assert_eq!(history_keys(&s), vec![vec!["Ctrl".to_string(), "C".to_string()]]);
    assert!(!s.modifiers.any());
    assert!(!s.peak_modifiers.any());
}

#[test]
fn modifier_tap_records_peak_combination() {
    let mut s = SharedState::new(true, 5000, 5, true);
    process_input_event(&mut s, key(29, true), 0);
    process_input_event(&mut s, key(42, true), 0);
    process_input_event(&mut s, key(29, false), 0);
    assert!(s.history.is_empty());
    process_input_event(&mut s, key(42, false), 0);
    assert_eq!(history_keys(&s), vec![vec!["Ctrl".to_string(), "⇧".to_string()]]);
}

#[test]
fn repeated_key_increments_count() {
    let mut s = SharedState::new(true, 5000, 5, true);
    for _ in 0..3 {
        process_input_event(&mut s, key(30, true), 0);
        process_input_event(&mut s, key(30, false), 0);
    }
    assert_eq!(s.history.len(), 1);
    assert_eq!(s.history[0].count, 3);
}

#[test]
fn new_key_press_releases_held_key() {
    let mut s = SharedState::new(true, 5000, 5, true);
    process_input_event(&mut s, key(30, true), 0);
    process_input_event(&mut s, key(48, true), 0);
    assert_eq!(history_keys(&s), vec![vec!["A".to_string()]]);
    assert_eq!(s.current_key.as_ref().map(|(k, _)| k.as_str()), Some("B"));
}

#[test]
fn unnamed_keys_are_ignored() {
    let mut s = SharedState::new(true, 5000, 5, true);
    process_input_event(&mut s, key(84, true), 0);
    process_input_event(&mut s, key(84, false), 0);
    assert!(s.history.is_empty());
    assert!(s.current_key.is_none());
}

#[test]
fn disabled_state_ignores_input_but_tracks_drag() {
    let mut s = SharedState::new(false, 5000, 5, true);
    process_input_event(&mut s, key(30, true), 0);
    process_input_event(&mut s, key(30, false), 0);
    assert!(s.history.is_empty());
    assert!(s.display_keystrokes().is_empty());
    s.current_mouse = Some(("LClick".to_string(), false, false));
    process_input_event(&mut s, InputEvent::MouseMotion, 0);
    assert_eq!(s.current_mouse.as_ref().map(|m| m.2), Some(true));
}

#[test]
fn mouse_clicks_and_drags() {
    let mut s = SharedState::new(true, 5000, 5, true);
    let press = InputEvent::MouseButton { button: 272, state: ButtonState::Pressed, is_touchpad: false };
    let release = InputEvent::MouseButton { button: 272, state: ButtonState::Released, is_touchpad: false };
    process_input_event(&mut s, press, 0);
    let shown = s.display_keystrokes();
    assert_eq!(shown.last().unwrap().keys, vec!["LClick"]);
    process_input_event(&mut s, release, 0);
    process_input_event(&mut s, press, 0);
    process_input_event(&mut s, InputEvent::MouseMotion, 0);
    assert_eq!(s.display_keystrokes().last().unwrap().keys, vec!["LDrag"]);
    process_input_event(&mut s, release, 0);
    assert_eq!(history_keys(&s), vec![vec!["LClick".to_string()], vec!["LDrag".to_string()]]);
    let tap = InputEvent::MouseButton { button: 273, state: ButtonState::Released, is_touchpad: true };
    process_input_event(&mut s, tap, 0);
    assert_eq!(s.history.last().unwrap().keys, vec!["2Tap"]);
    let other = InputEvent::MouseButton { button: 275, state: ButtonState::Released, is_touchpad: false };
    process_input_event(&mut s, other, 0);
    assert_eq!(s.history.len(), 3);
}

#[test]
fn touchpad_tap_drag() {
    let mut s = SharedState::new(true, 5000, 5, true);
    process_input_event(&mut s, InputEvent::MouseButton { button: 272, state: ButtonState::Pressed, is_touchpad: true }, 0);
    process_input_event(&mut s, InputEvent::MouseMotion, 0);
    process_input_event(&mut s, InputEvent::MouseButton { button: 272, state: ButtonState::Released, is_touchpad: true }, 0);
    assert_eq!(history_keys(&s), vec![vec!["TapDrag".to_string()]]);
}

#[test]
fn click_with_modifier_blocks_modifier_tap() {
    let mut s = SharedState::new(true, 5000, 5, true);
    process_input_event(&mut s, key(56, true), 0);
    process_input_event(&mut s, InputEvent::MouseButton { button: 272, state: ButtonState::Pressed, is_touchpad: false }, 0);
    process_input_event(&mut s, InputEvent::MouseButton { button: 272, state: ButtonState::Released, is_touchpad: false }, 0);
    process_input_event(&mut s, key(56, false), 0);
    assert_eq!(history_keys(&s), vec![vec!["Alt".to_string(), "LClick".to_string()]]);
}

#[test]
fn wheel_scroll_threshold() {
    let mut s = SharedState::new(true, 5000, 5, true);
    process_input_event(&mut s, InputEvent::MouseScroll { axis: Axis::Vertical, value: 10 }, 0);
    process_input_event(&mut s, InputEvent::MouseScroll { axis: Axis::Horizontal, value: 120 }, 0);
    assert!(s.history.is_empty());
    process_input_event(&mut s, InputEvent::MouseScroll { axis: Axis::Vertical, value: 120 }, 0);
    process_input_event(&mut s, InputEvent::MouseScroll { axis: Axis::Vertical, value: -11 }, 0);
    assert_eq!(history_keys(&s), vec![vec!["ScrollDown".to_string()], vec!["ScrollUp".to_string()]]);
}

#[test]
fn touchpad_scroll_and_gestures() {
    let mut s = SharedState::new(true, 5000, 5, true);
    process_input_event(&mut s, InputEvent::TouchpadScroll { axis: Axis::Vertical, value: 0 }, 0);
    process_input_event(&mut s, InputEvent::TouchpadScroll { axis: Axis::Horizontal, value: 20 }, 0);
    process_input_event(&mut s, InputEvent::Swipe { finger_count: 3, direction: SwipeDirection::Down }, 0);
    process_input_event(&mut s, InputEvent::Swipe { finger_count: 3, direction: SwipeDirection::Left }, 0);
    process_input_event(&mut s, InputEvent::Swipe { finger_count: 5, direction: SwipeDirection::Up }, 0);
    process_input_event(&mut s, InputEvent::Hold { finger_count: 4 }, 0);
    process_input_event(&mut s, InputEvent::Hold { finger_count: 2 }, 0);
    assert_eq!(
        history_keys(&s),
        vec![
            vec!["2Up".to_string()],
            vec!["2Right".to_string()],
            vec!["3Down".to_string()],
            vec!["4Tap".to_string()],
        ]
    );
}

#[test]
fn gesture_with_modifier_is_a_combination() {
    let mut s = SharedState::new(true, 5000, 5, true);
    process_input_event(&mut s, key(125, true), 0);
    process_input_event(&mut s, InputEvent::Swipe { finger_count: 4, direction: SwipeDirection::Up }, 0);
    assert_eq!(history_keys(&s), vec![vec!["Super".to_string(), "4Up".to_string()]]);
}

#[test]
fn history_keeps_newest_ten() {
    let mut s = SharedState::new(true, 5000, 5, true);
    for code in [16u32, 17, 18, 19, 20, 21, 22, 23, 24, 25, 30, 31] {
        process_input_event(&mut s, key(code, true), 0);
        process_input_event(&mut s, key(code, false), 0);
    }
    assert_eq!(s.history.len(), 10);
    assert_eq!(s.history[0].keys, vec!["E"]);
    assert_eq!(s.history[9].keys, vec!["S"]);
}

#[test]
fn held_modifiers_are_shown_pressed() {
    let mut s = SharedState::new(true, 5000, 5, true);
    process_input_event(&mut s, key(97, true), 0);
    let shown = s.display_keystrokes();
    assert_eq!(shown.len(), 1);
    assert_eq!(shown[0].keys, vec!["Ctrl"]);
    assert!(shown[0].pressed);
}

#[test]
fn daemon_naming_uses_the_table() {
    let mut s = SharedState::new(true, 5000, 5, true);
    process_input_event_named(&mut s, key(69, true), KeyNaming::Table, 0);
    assert!(s.current_key.is_none());
    process_input_event_named(&mut s, key(16, true), KeyNaming::Table, 0);
    process_input_event_named(&mut s, key(16, false), KeyNaming::Table, 0);
    assert_eq!(history_keys(&s), vec![vec!["Q".to_string()]]);
}

#[test]
fn recorded_keystrokes_carry_the_release_time() {
    let mut s = SharedState::new(true, 5000, 5, true);
    process_input_event(&mut s, key(30, true), 100);
    process_input_event(&mut s, key(30, false), 180);
    assert_eq!(s.history[0].time, 180);
    // the same key again within the merge window is counted on the same entry
    process_input_event(&mut s, key(30, true), 600);
    process_input_event(&mut s, key(30, false), 700);
    assert_eq!(s.history.len(), 1);
    assert_eq!(s.history[0].count, 2);
    assert_eq!(s.history[0].time, 700);
    // and after a pause it is a new entry
    process_input_event(&mut s, key(30, true), 5000);
    process_input_event(&mut s, key(30, false), 5100);
    assert_eq!(s.history.len(), 2);
    assert_eq!(s.history[1].count, 1);
}

#[test]
fn prettify_title_cases_other_names() {
    assert_eq!(prettify_key_name("KEY_NUMLOCK").as_deref(), Some("Numlock"));
    assert_eq!(prettify_key_name("KEY_PAGEUP").as_deref(), Some("Pageup"));
    assert_eq!(prettify_key_name("KEY_F1X").as_deref(), Some("F1x"));
    assert_eq!(prettify_key_name("KEY_ÉA").as_deref(), Some("Éa"));
}
