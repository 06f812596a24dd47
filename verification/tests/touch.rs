use kiwi::touch::{TouchSet, TOUCH_FADE_MS};

#[test]
fn touch_lifecycle() {
    let mut t: TouchSet<(i32, i32)> = TouchSet::new();
    assert!(!t.has_touches());
    t.touch_down(1, (10, 10));
    t.touch_down(2, (20, 20));
    t.touch_motion(1, (11, 12));
    assert_eq!(t.touches[0].position, (11, 12));
    t.touch_up(1, 1000);
    assert_eq!(t.touches[0].released_at, Some(1000));
    // a lifted contact no longer moves
    t.touch_motion(1, (50, 50));
    assert_eq!(t.touches[0].position, (11, 12));
    t.cleanup_expired(1000 + TOUCH_FADE_MS - 1);
    assert_eq!(t.touches.len(), 2);
    t.cleanup_expired(1000 + TOUCH_FADE_MS);
    assert_eq!(t.touches.len(), 1);
    assert_eq!(t.touches[0].slot, 2);
}

#[test]
fn reused_slot_restarts_contact() {
    let mut t: TouchSet<u8> = TouchSet::new();
    t.touch_down(3, 1);
    t.touch_up(3, 5);
    t.touch_down(3, 2);
    assert_eq!(t.touches.len(), 1);
    assert_eq!(t.touches[0].position, 2);
    assert_eq!(t.touches[0].released_at, None);
    assert!(!t.touches[0].is_expired(1_000_000));
}

#[test]
fn expiry_is_not_reached_before_release() {
    let mut t: TouchSet<u8> = TouchSet::new();
    t.touch_down(0, 0);
    t.touch_up(0, 500);
    assert!(!t.touches[0].is_expired(100));
    assert!(t.touches[0].is_expired(750));
}
