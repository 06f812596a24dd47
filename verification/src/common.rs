//! Shared types, configuration, and IPC names for the Kiwi keystroke visualizer.
use vstd::prelude::*;

verus! {

/// The APP_ID used for cosmic-config
pub const APP_ID: &'static str = "dev.hojjat.kiwi";

/// D-Bus service name
pub const DBUS_NAME: &'static str = "dev.hojjat.Kiwi";

/// D-Bus object path
pub const DBUS_PATH: &'static str = "/dev/hojjat/Kiwi";

/// D-Bus interface name
pub const DBUS_INTERFACE: &'static str = "dev.hojjat.Kiwi";

/// User configuration - persisted via cosmic-config
#[derive(Debug, Clone, Copy, PartialEq, Eq, Structural)]
pub struct Config {
    /// Whether keystroke visualization is enabled
    pub enabled: bool,
}

impl Default for Config {
    fn default() -> (r: Self)
        ensures
            !r.enabled,
    {
        Config { enabled: false }
    }
}

/// Active modifier keys
#[derive(Debug, Clone, Copy, PartialEq, Eq, Structural)]
pub struct Modifiers {
    pub ctrl: bool,
    pub alt: bool,
    pub shift: bool,
    pub super_key: bool,
}

impl Default for Modifiers {
    fn default() -> (r: Self)
        ensures
            !r.ctrl && !r.alt && !r.shift && !r.super_key,
    {
        Modifiers { ctrl: false, alt: false, shift: false, super_key: false }
    }
}

/// Status response from daemon
#[derive(Debug, Clone, Copy, PartialEq, Eq, Structural)]
pub struct DaemonStatus {
    pub running: bool,
    pub enabled: bool,
}

impl Default for DaemonStatus {
    fn default() -> (r: Self)
        ensures
            !r.running && !r.enabled,
    {
        DaemonStatus { running: false, enabled: false }
    }
}

/// A key press or release with the modifiers active at the time
#[derive(Debug, Clone, Copy, PartialEq, Eq, Structural)]
pub struct KeyEvent {
    pub key: u32,
    pub pressed: bool,
    pub modifiers: Modifiers,
}

} // verus!
