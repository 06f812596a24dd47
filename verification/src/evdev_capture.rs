//! Keystroke capture backend interface, with an evdev backend that does not
//! capture anything yet.
use vstd::prelude::*;
use vstd::string::*;

use crate::common::KeyEvent;

verus! {

/// Errors that can occur during keystroke capture
#[derive(Debug)]
pub enum CaptureError {
    /// Permission denied (not in input group)
    PermissionDenied,
    /// No input devices found
    NoDevices,
    /// Device open failed
    DeviceError(String),
}

impl CaptureError {
    pub open spec fn spec_message(&self) -> Seq<char> {
        match self {
            CaptureError::PermissionDenied => "Permission denied. Add user to 'input' group."@,
            CaptureError::NoDevices => "No input devices found"@,
            CaptureError::DeviceError(e) => "Device error: "@ + e@,
        }
    }

    /// The message shown for this error.
    pub fn message(&self) -> (r: String)
        ensures
            r@ == self.spec_message(),
    {
        match self {
            CaptureError::PermissionDenied => String::from_str("Permission denied. Add user to 'input' group."),
            CaptureError::NoDevices => String::from_str("No input devices found"),
            CaptureError::DeviceError(e) => {
                let mut r = String::from_str("Device error: ");
                r.append(e.as_str());
                r
            },
        }
    }
}

/// A message about a failure with a detail text reads the fixed description
/// of the failure followed by the detail text itself.
pub proof fn lemma_error_messages(detail: String)
    ensures
        CaptureError::DeviceError(detail).spec_message() == "Device error: "@ + detail@,
        CaptureError::DeviceError(detail).spec_message().skip("Device error: "@.len() as int) == detail@,
{
    assert(("Device error: "@ + detail@).skip("Device error: "@.len() as int) =~= detail@);
}

/// Trait for keystroke capture backends
pub trait KeystrokeCapture {
    /// Start capturing keystrokes
    fn start(&mut self) -> Result<(), CaptureError>;

    /// Stop capturing
    fn stop(&mut self);

    /// Poll for the next key event (non-blocking)
    fn poll(&mut self) -> Option<KeyEvent>;
}

/// Evdev capture backend; it does not read any device yet, so it starts
/// successfully and never yields an event.
#[derive(Debug)]
pub struct EvdevCapture {}

impl EvdevCapture {
    /// A new backend; creating it always succeeds.
    pub fn new() -> (r: Result<Self, CaptureError>)
        ensures
            r is Ok,
    {
        Ok(Self {})
    }
}

impl Default for EvdevCapture {
    fn default() -> Self {
        Self {}
    }
}

impl KeystrokeCapture for EvdevCapture {
    fn start(&mut self) -> (r: Result<(), CaptureError>)
        ensures
            r is Ok,
    {
        Ok(())
    }

    fn stop(&mut self) {
    }

    fn poll(&mut self) -> (r: Option<KeyEvent>)
        ensures
            r is None,
    {
        None
    }
}

} // verus!
