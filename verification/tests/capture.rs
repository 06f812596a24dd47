use kiwi::capture::CaptureError;
use kiwi::common::{Config, DaemonStatus, Modifiers, APP_ID, DBUS_NAME, DBUS_PATH};
use kiwi::evdev_capture::{CaptureError as EvdevError, EvdevCapture, KeystrokeCapture};

#[test]
fn capture_error_messages() {
    assert_eq!(CaptureError::PermissionDenied.message(), "Permission denied. Add user to 'input' group.");
    assert_eq!(CaptureError::SeatError("no seat".to_string()).message(), "Failed to assign seat: no seat");
    assert_eq!(CaptureError::DeviceError("gone".to_string()).message(), "Device error: gone");
    assert_eq!(EvdevError::NoDevices.message(), "No input devices found");
    assert_eq!(EvdevError::DeviceError("x".to_string()).message(), "Device error: x");
}

#[test]
fn evdev_capture_placeholder() {
    let mut c = EvdevCapture::new().unwrap();
    assert!(c.start().is_ok());
    assert!(c.poll().is_none());
    c.stop();
    let mut d = EvdevCapture::default();
    assert!(d.poll().is_none());
}

#[test]
fn common_defaults_and_names() {
    assert!(!Config::default().enabled);
    assert_eq!(Modifiers::default(), Modifiers { ctrl: false, alt: false, shift: false, super_key: false });
    assert_eq!(DaemonStatus::default(), DaemonStatus { running: false, enabled: false });
    assert_eq!(APP_ID, "dev.hojjat.kiwi");
    assert_eq!(DBUS_NAME, "dev.hojjat.Kiwi");
    assert_eq!(DBUS_PATH, "/dev/hojjat/Kiwi");
}
