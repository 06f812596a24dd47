//! Kiwi keystroke visualizer: the verified core.
//!
//! Modules:
//! - `config`: display options (palettes, overlay positions, key display modes)
//! - `keystroke`: keystrokes, modifier sets and the row-fitting rule
//! - `overlay`: the keystroke history and the shared overlay state
//! - `input`: key naming and the input event state machine
//! - `capture`: the input events the state machine consumes
//! - `cosmic_xkb`: the active XKB source of the compositor configuration
//! - `daemon_keys`: the daemon's fixed table of key labels
//! - `tray`: tray texts, menu and icon pixels
//! - `touch`: touchscreen contacts and their fade-out
//! - `outputs`: displays and their overlay surfaces
//! - `app_state`, `daemon_control`, `applet`: decisions of the settings
//!   application, the service-controlling settings application and the
//!   panel applet
//! - `common`, `evdev_capture`: shared names and types, capture backends
//! - `text`: small verified string helpers

pub mod config;
pub mod keystroke;
pub mod text;
pub mod input;
pub mod capture;
pub mod overlay;
pub mod cosmic_xkb;
pub mod tray;
pub mod daemon_keys;
pub mod common;
pub mod evdev_capture;
pub mod touch;
pub mod app_state;
pub mod outputs;
pub mod daemon_control;
pub mod applet;
