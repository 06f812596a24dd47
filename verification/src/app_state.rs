//! Decisions of the settings application: how each message changes the
//! non-visual application state and which commands the runtime has to carry
//! out (open or close windows, save the configuration, update the tray and
//! the overlay).
//!
//! Sizes and durations are edited by the runtime itself; messages about them
//! only say whether something changed.
use vstd::prelude::*;

use crate::config::{OverlayPosition, PaletteType};
use crate::tray::TrayAction;

verus! {

/// Messages handled by the settings application.
#[derive(Debug, Clone, Copy, PartialEq, Eq, Structural)]
pub enum AppMessage {
    /// A window asked to close
    WindowClosed(u64),
    /// The settings window was created with this id
    SettingsWindowCreated(u64),
    /// A window finished opening
    WindowOpened(u64),
    /// An action chosen in the tray menu
    TrayAction(TrayAction),
    TrayShowSettings,
    TrayToggleActive,
    TrayQuit,
    /// Turn keystroke visualization on or off
    ToggleActive(bool),
    /// The key size slider moved (the runtime stores the new size)
    KeySizeEdited,
    /// The fade duration slider moved (the runtime stores the new duration)
    FadeDurationEdited,
    /// A palette was picked in the dropdown
    SetPaletteIndex(usize),
    /// An overlay position was picked
    SetPosition(OverlayPosition),
    /// The save timer fired; `key_size_changed` tells whether the stored key
    /// size differs noticeably from the one the overlay uses
    SaveConfig { key_size_changed: bool },
    /// The configuration changed outside the application
    ConfigChanged {
        enabled: bool,
        palette: PaletteType,
        position: OverlayPosition,
        key_size_changed: bool,
    },
    /// Periodic tick
    Tick,
}

/// Commands for the runtime, in the order it carries them out.
#[derive(Debug, Clone, Copy, PartialEq, Eq, Structural)]
pub enum AppCommand {
    CloseWindow(u64),
    FocusWindow(u64),
    OpenSettingsWindow,
    Exit,
    /// Write the configuration
    SaveConfig,
    /// Show this activity state in the tray
    UpdateTray(bool),
    SetOverlayEnabled(bool),
    SetOverlayPalette(PaletteType),
    SetOverlayPosition(OverlayPosition),
    /// Apply the whole (externally changed) configuration to the overlay
    ApplyConfigToOverlay,
    /// Recreate the overlay surfaces of all outputs
    RecreateSurfaces,
    /// Drop expired keystrokes and touch markers
    CleanupExpired,
}

/// Application state that the decisions read and change.
#[derive(Debug, Clone, Copy, PartialEq, Eq, Structural)]
pub struct KiwiAppState {
    pub enabled: bool,
    pub palette: PaletteType,
    pub position: OverlayPosition,
    /// A configuration save is waiting for the save timer
    pub pending_save: bool,
    /// Id of the open settings window
    pub main_window: Option<u64>,
}

/// The state and commands after handling `msg` in state `s`.
pub open spec fn app_step(s: KiwiAppState, msg: AppMessage) -> (KiwiAppState, Seq<AppCommand>) {
    match msg {
        AppMessage::WindowClosed(id) => if s.main_window == Some(id) {
            (KiwiAppState { main_window: None, ..s }, seq![AppCommand::CloseWindow(id)])
        } else {
            (s, Seq::empty())
        },
        AppMessage::SettingsWindowCreated(id) => (
            KiwiAppState { main_window: Some(id), ..s },
            Seq::empty(),
        ),
        AppMessage::WindowOpened(id) => (
            KiwiAppState { main_window: Some(id), ..s },
            seq![AppCommand::FocusWindow(id)],
        ),
        AppMessage::TrayAction(action) => match action {
            TrayAction::ShowSettings => show_settings(s),
            TrayAction::ToggleActive => toggle_active(s, !s.enabled),
            TrayAction::Quit => (s, seq![AppCommand::Exit]),
        },
        AppMessage::TrayShowSettings => show_settings(s),
        AppMessage::TrayToggleActive => toggle_active(s, !s.enabled),
        AppMessage::TrayQuit => (s, seq![AppCommand::Exit]),
        AppMessage::ToggleActive(active) => toggle_active(s, active),
        AppMessage::KeySizeEdited => (KiwiAppState { pending_save: true, ..s }, Seq::empty()),
        AppMessage::FadeDurationEdited => (KiwiAppState { pending_save: true, ..s }, Seq::empty()),
        AppMessage::SetPaletteIndex(index) => match PaletteType::spec_from_index(index as int) {
            Some(p) => (
                KiwiAppState { palette: p, ..s },
                seq![AppCommand::SaveConfig, AppCommand::SetOverlayPalette(p)],
            ),
            None => (s, Seq::empty()),
        },
        AppMessage::SetPosition(p) => (
            KiwiAppState { position: p, ..s },
            seq![AppCommand::SaveConfig, AppCommand::SetOverlayPosition(p)] + if s.position != p {
                seq![AppCommand::RecreateSurfaces]
            } else {
                Seq::empty()
            },
        ),
        AppMessage::SaveConfig { key_size_changed } => if s.pending_save {
            (
                KiwiAppState { pending_save: false, ..s },
                seq![AppCommand::SaveConfig] + if key_size_changed {
                    seq![AppCommand::RecreateSurfaces]
                } else {
                    Seq::empty()
                },
            )
        } else {
            (s, Seq::empty())
        },
        AppMessage::ConfigChanged { enabled, palette, position, key_size_changed } => (
            KiwiAppState { enabled, palette, position, ..s },
            seq![AppCommand::UpdateTray(enabled), AppCommand::ApplyConfigToOverlay] + if key_size_changed
                || s.position != position {
                seq![AppCommand::RecreateSurfaces]
            } else {
                Seq::empty()
            },
        ),
        AppMessage::Tick => (s, seq![AppCommand::CleanupExpired]),
    }
}

/// Showing the settings focuses the open settings window, or opens one.
pub open spec fn show_settings(s: KiwiAppState) -> (KiwiAppState, Seq<AppCommand>) {
    match s.main_window {
        Some(id) => (s, seq![AppCommand::FocusWindow(id)]),
        None => (s, seq![AppCommand::OpenSettingsWindow]),
    }
}

/// Turning visualization on or off saves the configuration and updates the
/// tray and the overlay.
pub open spec fn toggle_active(s: KiwiAppState, active: bool) -> (KiwiAppState, Seq<AppCommand>) {
    (
        KiwiAppState { enabled: active, ..s },
        seq![AppCommand::SaveConfig, AppCommand::UpdateTray(active), AppCommand::SetOverlayEnabled(active)],
    )
}

impl KiwiAppState {
    /// State for a configuration just loaded, with no window open.
    pub fn new(enabled: bool, palette: PaletteType, position: OverlayPosition) -> (r: Self)
        ensures
            r == (KiwiAppState { enabled, palette, position, pending_save: false, main_window: None }),
    {
        KiwiAppState { enabled, palette, position, pending_save: false, main_window: None }
    }

    /// Whether the save timer has to run.
    pub fn needs_save_timer(&self) -> (r: bool)
        ensures
            r == self.pending_save,
    {
        self.pending_save
    }

    fn show_settings(&mut self) -> (cmds: Vec<AppCommand>)
        ensures
            (*final(self), cmds@) == show_settings(*old(self)),
    {
        match self.main_window {
            Some(id) => vec![AppCommand::FocusWindow(id)],
            None => vec![AppCommand::OpenSettingsWindow],
        }
    }

    fn toggle_active(&mut self, active: bool) -> (cmds: Vec<AppCommand>)
        ensures
            (*final(self), cmds@) == toggle_active(*old(self), active),
    {
        self.enabled = active;
        vec![AppCommand::SaveConfig, AppCommand::UpdateTray(active), AppCommand::SetOverlayEnabled(active)]
    }

    /// Handle one message: update the state and return the commands to carry out.
    pub fn update(&mut self, msg: AppMessage) -> (cmds: Vec<AppCommand>)
        ensures
            (*final(self), cmds@) == app_step(*old(self), msg),
    {
        match msg {
            AppMessage::WindowClosed(id) => {
                if self.main_window == Some(id) {
                    self.main_window = None;
                    vec![AppCommand::CloseWindow(id)]
                } else {
                    Vec::new()
                }
            },
            AppMessage::SettingsWindowCreated(id) => {
                self.main_window = Some(id);
                Vec::new()
            },
            AppMessage::WindowOpened(id) => {
                self.main_window = Some(id);
                vec![AppCommand::FocusWindow(id)]
            },
            AppMessage::TrayAction(action) => match action {
                TrayAction::ShowSettings => self.show_settings(),
                TrayAction::ToggleActive => {
                    let active = !self.enabled;
                    self.toggle_active(active)
                },
                TrayAction::Quit => vec![AppCommand::Exit],
            },
            AppMessage::TrayShowSettings => self.show_settings(),
            AppMessage::TrayToggleActive => {
                let active = !self.enabled;
                self.toggle_active(active)
            },
            AppMessage::TrayQuit => vec![AppCommand::Exit],
            AppMessage::ToggleActive(active) => self.toggle_active(active),
            AppMessage::KeySizeEdited => {
                self.pending_save = true;
                Vec::new()
            },
            AppMessage::FadeDurationEdited => {
                self.pending_save = true;
                Vec::new()
            },
            AppMessage::SetPaletteIndex(index) => match PaletteType::from_index(index) {
                Some(p) => {
                    self.palette = p;
                    vec![AppCommand::SaveConfig, AppCommand::SetOverlayPalette(p)]
                },
                None => Vec::new(),
            },
            AppMessage::SetPosition(p) => {
                let old_position = self.position;
                self.position = p;
                let mut cmds = vec![AppCommand::SaveConfig, AppCommand::SetOverlayPosition(p)];
                if old_position != p {
                    cmds.push(AppCommand::RecreateSurfaces);
                }
                proof {
                    let extra = if old_position != p {
                        seq![AppCommand::RecreateSurfaces]
                    } else {
                        Seq::<AppCommand>::empty()
                    };
                    assert(cmds@ =~= seq![AppCommand::SaveConfig, AppCommand::SetOverlayPosition(p)]
                        + extra);
                }
                cmds
            },
            AppMessage::SaveConfig { key_size_changed } => {
                if self.pending_save {
                    self.pending_save = false;
                    let mut cmds = vec![AppCommand::SaveConfig];
                    if key_size_changed {
                        cmds.push(AppCommand::RecreateSurfaces);
                    }
                    proof {
                        let extra = if key_size_changed {
                            seq![AppCommand::RecreateSurfaces]
                        } else {
                            Seq::<AppCommand>::empty()
                        };
                        assert(cmds@ =~= seq![AppCommand::SaveConfig] + extra);
                    }
                    cmds
                } else {
                    Vec::new()
                }
            },
            AppMessage::ConfigChanged { enabled, palette, position, key_size_changed } => {
                let position_changed = self.position != position;
                self.enabled = enabled;
                self.palette = palette;
                self.position = position;
                let mut cmds = vec![AppCommand::UpdateTray(enabled), AppCommand::ApplyConfigToOverlay];
                if key_size_changed || position_changed {
                    cmds.push(AppCommand::RecreateSurfaces);
                }
                proof {
                    let extra = if key_size_changed || position_changed {
                        seq![AppCommand::RecreateSurfaces]
                    } else {
                        Seq::<AppCommand>::empty()
                    };
                    assert(cmds@ =~= seq![AppCommand::UpdateTray(enabled), AppCommand::ApplyConfigToOverlay]
                        + extra);
                }
                cmds
            },
            AppMessage::Tick => vec![AppCommand::CleanupExpired],
        }
    }
}

/// Toggling from the tray twice restores the activity state, and each toggle
/// shows the new state in the tray.
pub proof fn lemma_tray_toggle_twice(s: KiwiAppState)
    ensures
        ({
            let (s1, c1) = app_step(s, AppMessage::TrayToggleActive);
            let (s2, c2) = app_step(s1, AppMessage::TrayToggleActive);
            &&& s1.enabled == !s.enabled
            &&& c1.contains(AppCommand::UpdateTray(!s.enabled))
            &&& s2 == s
            &&& c2.contains(AppCommand::UpdateTray(s.enabled))
        }),
{
    let (s1, c1) = app_step(s, AppMessage::TrayToggleActive);
    let (s2, c2) = app_step(s1, AppMessage::TrayToggleActive);
    assert(c1[1] == AppCommand::UpdateTray(!s.enabled));
    assert(c2[1] == AppCommand::UpdateTray(s.enabled));
}

/// Overlay surfaces are recreated on a position pick exactly when the position
/// changes, and a pending save is written once: a second save tick writes nothing.
pub proof fn lemma_recreate_and_save(s: KiwiAppState, p: OverlayPosition, changed: bool)
    ensures
        app_step(s, AppMessage::SetPosition(p)).1.contains(AppCommand::RecreateSurfaces)
            <==> s.position != p,
        ({
            let (s1, c1) = app_step(s, AppMessage::SaveConfig { key_size_changed: changed });
            let (s2, c2) = app_step(s1, AppMessage::SaveConfig { key_size_changed: changed });
            &&& !s1.pending_save
            &&& (s.pending_save <==> c1.contains(AppCommand::SaveConfig))
            &&& c2.len() == 0
        }),
{
    let c = app_step(s, AppMessage::SetPosition(p)).1;
    if s.position == p {
        assert(c =~= seq![AppCommand::SaveConfig, AppCommand::SetOverlayPosition(p)]);
        assert(!c.contains(AppCommand::RecreateSurfaces)) by {
            if c.contains(AppCommand::RecreateSurfaces) {
                let i = choose|i: int| 0 <= i < c.len() && c[i] == AppCommand::RecreateSurfaces;
                assert(i == 0 || i == 1);
            }
        }
    } else {
        assert(c[2] == AppCommand::RecreateSurfaces);
    }
    let (s1, c1) = app_step(s, AppMessage::SaveConfig { key_size_changed: changed });
    if s.pending_save {
        assert(c1[0] == AppCommand::SaveConfig);
    } else {
        assert(c1.len() == 0);
    }
}

/// Closing a window other than the settings window changes nothing.
pub proof fn lemma_close_other_window(s: KiwiAppState, id: u64)
    requires
        s.main_window != Some(id),
    ensures
        app_step(s, AppMessage::WindowClosed(id)) == (s, Seq::<AppCommand>::empty()),
{
}

/// What each message does: a tray menu action does what the matching tray
/// message does; quitting exits and changes nothing; showing the settings
/// focuses the open settings window or else opens one; turning visualization
/// on or off records the choice, saves it and shows it in the tray and the
/// overlay; picking a palette in the dropdown selects the listed palette,
/// saves it and shows it in the overlay (an index past the list changes
/// nothing); the tick only asks for the cleanup; a window that opened or was
/// created becomes the settings window, which closes when asked to.
pub proof fn lemma_app_messages(s: KiwiAppState, active: bool, index: usize, id: u64)
    ensures
        app_step(s, AppMessage::TrayAction(TrayAction::ShowSettings)) == app_step(
            s,
            AppMessage::TrayShowSettings,
        ),
        app_step(s, AppMessage::TrayAction(TrayAction::ToggleActive)) == app_step(
            s,
            AppMessage::TrayToggleActive,
        ),
        app_step(s, AppMessage::TrayAction(TrayAction::Quit)) == app_step(s, AppMessage::TrayQuit),
        app_step(s, AppMessage::TrayQuit) == (s, seq![AppCommand::Exit]),
        app_step(s, AppMessage::TrayShowSettings).0 == s,
        s.main_window is None ==> app_step(s, AppMessage::TrayShowSettings).1 == seq![
            AppCommand::OpenSettingsWindow,
        ],
        s.main_window matches Some(w) ==> app_step(s, AppMessage::TrayShowSettings).1 == seq![
            AppCommand::FocusWindow(w),
        ],
        app_step(s, AppMessage::TrayToggleActive) == app_step(s, AppMessage::ToggleActive(!s.enabled)),
        ({
            let (s1, c1) = app_step(s, AppMessage::ToggleActive(active));
            &&& s1 == (KiwiAppState { enabled: active, ..s })
            &&& c1.contains(AppCommand::SaveConfig)
            &&& c1.contains(AppCommand::UpdateTray(active))
            &&& c1.contains(AppCommand::SetOverlayEnabled(active))
        }),
        ({
            let (s1, c1) = app_step(s, AppMessage::SetPaletteIndex(index));
            &&& index < PaletteType::spec_all().len() ==> s1 == (KiwiAppState {
                palette: PaletteType::spec_all()[index as int],
                ..s
            }) && c1.contains(AppCommand::SaveConfig) && c1.contains(
                AppCommand::SetOverlayPalette(PaletteType::spec_all()[index as int]),
            )
            &&& index >= PaletteType::spec_all().len() ==> s1 == s && c1.len() == 0
        }),
        app_step(s, AppMessage::Tick) == (s, seq![AppCommand::CleanupExpired]),
        app_step(s, AppMessage::WindowOpened(id)).0.main_window == Some(id),
        app_step(s, AppMessage::SettingsWindowCreated(id)).0.main_window == Some(id),
        s.main_window == Some(id) ==> app_step(s, AppMessage::WindowClosed(id)) == (
            KiwiAppState { main_window: None, ..s },
            seq![AppCommand::CloseWindow(id)],
        ),
{
    let (_, c1) = app_step(s, AppMessage::ToggleActive(active));
    assert(c1[0] == AppCommand::SaveConfig);
    assert(c1[1] == AppCommand::UpdateTray(active));
    assert(c1[2] == AppCommand::SetOverlayEnabled(active));
    let (_, c2) = app_step(s, AppMessage::SetPaletteIndex(index));
    if index < PaletteType::spec_all().len() {
        assert(c2[0] == AppCommand::SaveConfig);
        assert(c2[1] == AppCommand::SetOverlayPalette(PaletteType::spec_all()[index as int]));
    }
}

/// An outside configuration change is taken over whole: the state gets the
/// new activity, palette and position, the tray shows the new activity, the
/// overlay gets the new configuration, and the surfaces are recreated exactly
/// when the key size or the position changed.
pub proof fn lemma_config_changed(
    s: KiwiAppState,
    enabled: bool,
    palette: PaletteType,
    position: OverlayPosition,
    key_size_changed: bool,
)
    ensures
        ({
            let (s1, c1) = app_step(
                s,
                AppMessage::ConfigChanged { enabled, palette, position, key_size_changed },
            );
            &&& s1 == (KiwiAppState { enabled, palette, position, ..s })
            &&& c1.contains(AppCommand::UpdateTray(enabled))
            &&& c1.contains(AppCommand::ApplyConfigToOverlay)
            &&& c1.contains(AppCommand::RecreateSurfaces) <==> (key_size_changed || s.position
                != position)
        }),
{
    let (_, c) = app_step(s, AppMessage::ConfigChanged { enabled, palette, position, key_size_changed });
    assert(c[0] == AppCommand::UpdateTray(enabled));
    assert(c[1] == AppCommand::ApplyConfigToOverlay);
    if key_size_changed || s.position != position {
        assert(c[2] == AppCommand::RecreateSurfaces);
    } else {
        assert(!c.contains(AppCommand::RecreateSurfaces)) by {
            if c.contains(AppCommand::RecreateSurfaces) {
                let i = choose|i: int| 0 <= i < c.len() && c[i] == AppCommand::RecreateSurfaces;
                assert(i == 0 || i == 1);
            }
        }
    }
}

} // verus!
