use kiwi::keystroke::{fitting_start, KeyModifiers, Keystroke, MERGE_WINDOW_MS};

fn mods(ctrl: bool, alt: bool, shift: bool, super_key: bool) -> KeyModifiers {
    KeyModifiers { ctrl, alt, shift, super_key }
}

#[test]
fn modifier_parts_follow_super_ctrl_alt_shift_order() {
    assert_eq!(mods(true, true, true, true).to_parts(), vec!["Super", "Ctrl", "Alt", "⇧"]);
    assert_eq!(mods(true, false, true, false).to_parts(), vec!["Ctrl", "⇧"]);
    assert!(mods(false, false, false, false).to_parts().is_empty());
}

#[test]
fn any_modifier() {
    assert!(!KeyModifiers::default().any());
    assert!(mods(false, false, false, true).any());
    assert!(mods(false, true, false, false).any());
}

#[test]
fn keystroke_from_no_modifiers_is_none() {
    assert!(KeyModifiers::default().to_keystroke(true).is_none());
    assert!(Keystroke::from_modifiers(&KeyModifiers::default(), false).is_none());
}

#[test]
fn keystroke_from_modifiers_lists_them() {
    let k = Keystroke::from_modifiers(&mods(true, false, true, false), true).unwrap();
    assert_eq!(k.keys, vec!["Ctrl", "⇧"]);
    assert!(k.pressed);
    assert_eq!(k.count, 1);
    assert!(k.is_combination());
}

#[test]
fn single_and_combination() {
    let single = Keystroke::single("A".to_string(), false);
    assert_eq!(single.keys, vec!["A"]);
    assert!(!single.is_combination());
    let combo = Keystroke::combination(&mods(true, false, false, false), "C".to_string(), true);
    assert_eq!(combo.keys, vec!["Ctrl", "C"]);
    assert!(combo.pressed);
    assert!(combo.is_combination());
    let plain = Keystroke::combination(&KeyModifiers::default(), "C".to_string(), true);
    assert_eq!(plain.keys, vec!["C"]);
    assert!(!plain.is_combination());
}

#[test]
fn labelled_uses_modifiers_only_when_held() {
    assert_eq!(Keystroke::labelled(&KeyModifiers::default(), "Tap".to_string(), false).keys, vec!["Tap"]);
    assert_eq!(
        Keystroke::labelled(&mods(false, true, false, false), "Tap".to_string(), false).keys,
        vec!["Alt", "Tap"]
    );
}

#[test]
fn merge_and_increment() {
    let mut a = Keystroke::single("A".to_string(), false);
    let b = Keystroke::single("A".to_string(), true);
    let c = Keystroke::single("B".to_string(), false);
    assert!(a.can_merge(&b));
    assert!(!a.can_merge(&c));
    a.increment();
    assert_eq!(a.count, 2);
    let mut late = Keystroke::single("A".to_string(), false);
    late.time = MERGE_WINDOW_MS;
    assert!(!a.can_merge(&late));
    late.time = MERGE_WINDOW_MS - 1;
    assert!(a.can_merge(&late));
    let mut full = Keystroke { keys: vec!["A".to_string()], pressed: false, count: u32::MAX, time: 0 };
    full.increment();
    assert_eq!(full.count, u32::MAX);
}

#[test]
fn clone_keeps_contents() {
    let k = Keystroke::combination(&mods(true, false, false, false), "Z".to_string(), false);
    let c = k.clone();
    assert_eq!(c.keys, k.keys);
    assert_eq!(c.pressed, k.pressed);
    assert_eq!(c.count, k.count);
}

#[test]
fn estimated_widths() {
    assert_eq!(Keystroke::single("Escape".to_string(), false).estimated_width(), 48);
    // "Ctrl" + "C": 5 bytes * 12 + one separator 20 + padding 20
    let combo = Keystroke::combination(&mods(true, false, false, false), "C".to_string(), false);
    assert_eq!(combo.estimated_width(), 100);
    // "⇧" is three bytes long
    let shifted = Keystroke::combination(&mods(false, false, true, false), "A".to_string(), false);
    assert_eq!(shifted.estimated_width(), 12 * 4 + 20 + 20);
}

#[test]
fn fitting_row_keeps_newest_that_fit() {
    let singles: Vec<Keystroke> = (0..10).map(|i| Keystroke::single(format!("{}", i), false)).collect();
    // seven singles take 7 * 48 + 6 * 8 = 384 > 380, six take 328
    assert_eq!(fitting_start(&singles, 10), 4);
    let few: Vec<Keystroke> = (0..3).map(|i| Keystroke::single(format!("{}", i), false)).collect();
    assert_eq!(fitting_start(&few, 10), 0);
    assert_eq!(fitting_start(&[], 10), 0);
    let wide = Keystroke::combination(
        &mods(true, true, true, true),
        "ABCDEFGHIJKLMNOPQRSTUVWXYZ".to_string(),
        false,
    );
    assert_eq!(fitting_start(&[wide], 10), 1);
}

#[test]
fn fitting_row_respects_widget_limit() {
    let singles: Vec<Keystroke> = (0..10).map(|i| Keystroke::single(format!("{}", i), false)).collect();
    assert_eq!(fitting_start(&singles, 5), 5);
    assert_eq!(fitting_start(&singles, 0), 10);
    // the width still limits the row when the widget limit is larger
    assert_eq!(fitting_start(&singles, 8), 4);
}

#[test]
fn keystroke_expiry() {
    let mut k = Keystroke::single("A".to_string(), false);
    k.time = 2000;
    assert!(!k.is_expired(6999, 5000));
    assert!(k.is_expired(7000, 5000));
    assert!(!k.is_expired(1000, 0));
    assert!(k.is_expired(2000, 0));
}

#[test]
fn widget_texts_interleave_plus() {
    let combo = Keystroke::combination(&mods(true, true, false, false), "X".to_string(), false);
    assert_eq!(combo.widget_texts(), vec!["Ctrl", "+", "Alt", "+", "X"]);
    assert_eq!(Keystroke::single("Tab".to_string(), true).widget_texts(), vec!["Tab"]);
    let empty = Keystroke { keys: vec![], pressed: false, count: 1, time: 0 };
    assert!(empty.widget_texts().is_empty());
}
