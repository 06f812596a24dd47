use kiwi::keystroke::{KeyModifiers, Keystroke, MERGE_WINDOW_MS};
use kiwi::touch::TouchSet;
use kiwi::overlay::{push_history, shown_button_label, SharedState, MAX_HISTORY};

#[test]
fn push_history_appends_and_merges() {
    let mut h = Vec::new();
    push_history(&mut h, Keystroke::single("A".to_string(), false));
    push_history(&mut h, Keystroke::single("A".to_string(), false));
    push_history(&mut h, Keystroke::single("B".to_string(), false));
    assert_eq!(h.len(), 2);
    assert_eq!(h[0].count, 2);
    assert_eq!(h[1].keys, vec!["B"]);
    assert_eq!(h[1].count, 1);
}

#[test]
fn push_history_drops_oldest_when_full() {
    let mut h: Vec<Keystroke> = (0..MAX_HISTORY).map(|i| Keystroke::single(format!("k{}", i), false)).collect();
    push_history(&mut h, Keystroke::single("new".to_string(), false));
    assert_eq!(h.len(), MAX_HISTORY);
    assert_eq!(h[0].keys, vec!["k1"]);
    assert_eq!(h[MAX_HISTORY - 1].keys, vec!["new"]);
}

#[test]
fn push_history_on_overlong_history_drops_only_one() {
    let mut h: Vec<Keystroke> = (0..12).map(|i| Keystroke::single(format!("k{}", i), false)).collect();
    push_history(&mut h, Keystroke::single("new".to_string(), false));
    assert_eq!(h.len(), 12);
    assert_eq!(h[0].keys, vec!["k1"]);
}

#[test]
fn merge_with_full_history_keeps_length() {
    let mut h: Vec<Keystroke> = (0..MAX_HISTORY).map(|i| Keystroke::single(format!("k{}", i), false)).collect();
    push_history(&mut h, Keystroke::single(format!("k{}", MAX_HISTORY - 1), false));
    assert_eq!(h.len(), MAX_HISTORY);
    assert_eq!(h[0].keys, vec!["k0"]);
    assert_eq!(h[MAX_HISTORY - 1].count, 2);
}

#[test]
fn display_shows_history_then_held_keystroke() {
    let mut s = SharedState::new(true, 5000, 5, true);
    s.history.push(Keystroke::single("A".to_string(), false));
    assert_eq!(s.display_keystrokes().len(), 1);
    s.current_key = Some(("B".to_string(), KeyModifiers { ctrl: true, alt: false, shift: false, super_key: false }));
    let shown = s.display_keystrokes();
    assert_eq!(shown.len(), 2);
    assert_eq!(shown[1].keys, vec!["Ctrl", "B"]);
    assert!(shown[1].pressed);
    // a held mouse button takes precedence over the held key
    s.current_mouse = Some(("RClick".to_string(), false, true));
    let shown = s.display_keystrokes();
    assert_eq!(shown[1].keys, vec!["RClick"]);
}

#[test]
fn disabled_display_is_empty() {
    let mut s = SharedState::new(false, 5000, 5, true);
    s.history.push(Keystroke::single("A".to_string(), false));
    assert!(s.display_keystrokes().is_empty());
}

#[test]
fn drag_labels() {
    assert_eq!(shown_button_label(&"LClick".to_string(), false, true), "LDrag");
    assert_eq!(shown_button_label(&"LClick".to_string(), false, false), "LClick");
    assert_eq!(shown_button_label(&"Tap".to_string(), true, true), "TapDrag");
    assert_eq!(shown_button_label(&"Tap".to_string(), false, true), "Tap");
    assert_eq!(shown_button_label(&"RClick".to_string(), false, true), "RClick");
}

fn at(key: &str, time: u64) -> Keystroke {
    let mut k = Keystroke::single(key.to_string(), false);
    k.time = time;
    k
}

#[test]
fn repeats_merge_only_within_the_window() {
    let mut h = Vec::new();
    push_history(&mut h, at("A", 1000));
    push_history(&mut h, at("A", 1000 + MERGE_WINDOW_MS - 1));
    assert_eq!(h.len(), 1);
    assert_eq!(h[0].count, 2);
    // the merged entry is restamped, so the window runs from the latest repeat
    assert_eq!(h[0].time, 1000 + MERGE_WINDOW_MS - 1);
    push_history(&mut h, at("A", 1000 + 2 * MERGE_WINDOW_MS - 1));
    assert_eq!(h.len(), 2);
    assert_eq!(h[1].count, 1);
    assert_eq!(h[1].time, 1000 + 2 * MERGE_WINDOW_MS - 1);
    // a clock reading before the newest entry never counts as a repeat
    push_history(&mut h, at("A", 0));
    assert_eq!(h.len(), 3);
}

#[test]
fn cleanup_drops_faded_keystrokes_and_touches() {
    let mut s = SharedState::new(true, 5000, 5, true);
    s.history.push(at("A", 1000));
    s.history.push(at("B", 3000));
    let mut touches: TouchSet<(i32, i32)> = TouchSet::new();
    touches.touch_down(0, (1, 2));
    touches.touch_up(0, 5900);
    s.cleanup_expired(&mut touches, 5999);
    assert_eq!(s.history.len(), 2);
    s.cleanup_expired(&mut touches, 6000);
    assert_eq!(s.history.len(), 1);
    assert_eq!(s.history[0].keys, vec!["B"]);
    assert_eq!(touches.touches.len(), 1);
    s.cleanup_expired(&mut touches, 7999);
    assert_eq!(s.history.len(), 1);
    assert!(touches.touches.is_empty());
    s.cleanup_expired(&mut touches, 8000);
    assert!(s.history.is_empty());
}

#[test]
fn touch_markers_need_enabled_setting_and_surface() {
    let mut touches: TouchSet<u8> = TouchSet::new();
    touches.touch_down(4, 7);
    let s = SharedState::new(true, 5000, 5, true);
    let shown = s.touch_markers(&touches, true);
    assert_eq!(shown.len(), 1);
    assert_eq!(shown[0].slot, 4);
    assert!(s.touch_markers(&touches, false).is_empty());
    assert!(SharedState::new(true, 5000, 5, false).touch_markers(&touches, true).is_empty());
    assert!(SharedState::new(false, 5000, 5, true).touch_markers(&touches, true).is_empty());
    assert!(s.touch_markers(&TouchSet::<u8>::new(), true).is_empty());
}

#[test]
fn row_is_limited_by_history_count() {
    let mut s = SharedState::new(true, 5000, 3, true);
    for i in 0..6 {
        s.history.push(at(&format!("k{}", i), 0));
    }
    let row = s.row_keystrokes();
    assert_eq!(row.len(), 3);
    assert_eq!(row[0].keys, vec!["k3"]);
    assert_eq!(row[2].keys, vec!["k5"]);
    s.current_key = Some(("Z".to_string(), KeyModifiers::default()));
    let row = s.row_keystrokes();
    assert_eq!(row.len(), 3);
    assert_eq!(row[2].keys, vec!["Z"]);
    assert!(SharedState::new(true, 5000, 0, true).row_keystrokes().is_empty());
}
