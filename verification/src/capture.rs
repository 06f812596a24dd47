//! The input events the keystroke state machine consumes, and the errors of
//! setting up input capture.
use vstd::prelude::*;

verus! {

/// Errors that can occur during input capture
#[derive(Debug)]
pub enum CaptureError {
    /// Permission denied (not in input group)
    PermissionDenied,
    /// Failed to assign seat
    SeatError(String),
    /// Device open failed
    DeviceError(String),
}

impl CaptureError {
    pub open spec fn spec_message(&self) -> Seq<char> {
        match self {
            CaptureError::PermissionDenied => "Permission denied. Add user to 'input' group."@,
            CaptureError::SeatError(e) => "Failed to assign seat: "@ + e@,
            CaptureError::DeviceError(e) => "Device error: "@ + e@,
        }
    }

    /// The message shown for this error.
    pub fn message(&self) -> (r: String)
        ensures
            r@ == self.spec_message(),
    {
        match self {
            CaptureError::PermissionDenied => String::from_str("Permission denied. Add user to 'input' group."),
            CaptureError::SeatError(e) => {
                let mut r = String::from_str("Failed to assign seat: ");
                r.append(e.as_str());
                r
            },
            CaptureError::DeviceError(e) => {
                let mut r = String::from_str("Device error: ");
                r.append(e.as_str());
                r
            },
        }
    }
}

/// A message about a failure with a detail text reads the fixed description
/// of the failure followed by the detail text itself.
pub proof fn lemma_error_messages(detail: String)
    ensures
        CaptureError::SeatError(detail).spec_message() == "Failed to assign seat: "@ + detail@,
        CaptureError::SeatError(detail).spec_message().skip("Failed to assign seat: "@.len() as int) == detail@,
        CaptureError::DeviceError(detail).spec_message() == "Device error: "@ + detail@,
        CaptureError::DeviceError(detail).spec_message().skip("Device error: "@.len() as int) == detail@,
{
    assert(("Failed to assign seat: "@ + detail@).skip("Failed to assign seat: "@.len() as int) =~= detail@);
    assert(("Device error: "@ + detail@).skip("Device error: "@.len() as int) =~= detail@);
}

/// Swipe direction
#[derive(Debug, Clone, Copy, PartialEq, Eq, Structural)]
pub enum SwipeDirection {
    Up,
    Down,
    Left,
    Right,
}

/// State of a key in a keyboard event
#[derive(Debug, Clone, Copy, PartialEq, Eq, Structural)]
pub enum KeyState {
    Pressed,
    Released,
}

/// State of a pointer button in a button event
#[derive(Debug, Clone, Copy, PartialEq, Eq, Structural)]
pub enum ButtonState {
    Pressed,
    Released,
}

/// Scroll axis
#[derive(Debug, Clone, Copy, PartialEq, Eq, Structural)]
pub enum Axis {
    Vertical,
    Horizontal,
}

/// Input event types we care about.
///
/// Scroll amounts are whole numbers: the device's amount rounded away from
/// zero, so that an amount is positive exactly when the device's is, and its
/// magnitude exceeds a whole-number threshold exactly when the device's does.
#[derive(Debug, Clone, Copy, PartialEq, Eq, Structural)]
pub enum InputEvent {
    /// Key press or release
    Key { key: u32, state: KeyState },
    /// Mouse button press or release
    MouseButton {
        button: u32,
        state: ButtonState,
        /// True if from a touchpad (tap), false if from a mouse
        is_touchpad: bool,
    },
    /// Mouse/pointer motion (used to detect drag)
    MouseMotion,
    /// Mouse wheel scroll
    MouseScroll { axis: Axis, value: i64 },
    /// Touchpad two-finger scroll
    TouchpadScroll { axis: Axis, value: i64 },
    /// Multi-finger swipe gesture (3+ fingers)
    Swipe { finger_count: i32, direction: SwipeDirection },
    /// Multi-finger hold/tap gesture (3+ fingers held briefly without movement)
    Hold { finger_count: i32 },
}

} // verus!
