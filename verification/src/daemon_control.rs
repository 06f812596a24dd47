//! Decisions of the settings application that runs the overlay as a separate
//! user service: the tray shows the visualization as active only while the
//! service runs and visualization is enabled, and enabling or disabling
//! starts or stops the service as needed.
use vstd::prelude::*;

use crate::config::{OverlayPosition, PaletteType};
use crate::tray::TrayAction;

verus! {

/// Messages handled by the service-controlling settings application.
#[derive(Debug, Clone, Copy, PartialEq, Eq, Structural)]
pub enum ControlMessage {
    /// The settings window asked to close (it is minimized instead)
    WindowClosed(u64),
    TrayShowSettings,
    TrayToggleActive,
    TrayQuit,
    /// An action chosen in the tray menu
    TrayAction(TrayAction),
    ToggleActive(bool),
    /// Result of asking whether the service runs
    DaemonStatusChecked(bool),
    /// Result of starting the service
    DaemonStarted(bool),
    /// Result of stopping the service
    DaemonStopped(bool),
    /// Periodic request to check the service
    RefreshDaemonStatus,
    /// The key size slider moved (the runtime stores the new size)
    KeySizeEdited,
    /// The fade duration slider moved (the runtime stores the new duration)
    FadeDurationEdited,
    SetPaletteIndex(usize),
    SetPosition(OverlayPosition),
    /// The save timer fired
    SaveConfig,
    /// The configuration changed outside the application
    ConfigChanged { enabled: bool, palette: PaletteType, position: OverlayPosition },
}

/// Commands for the runtime, in the order it carries them out.
#[derive(Debug, Clone, Copy, PartialEq, Eq, Structural)]
pub enum ControlCommand {
    MinimizeWindow(u64),
    RestoreWindow(u64),
    FocusWindow(u64),
    Exit,
    SaveConfig,
    /// Show this activity state in the tray
    UpdateTray(bool),
    StartDaemon,
    StopDaemon,
    CheckDaemonStatus,
}

/// State of the service-controlling settings application.
#[derive(Debug, Clone, Copy, PartialEq, Eq, Structural)]
pub struct ControlState {
    pub enabled: bool,
    pub palette: PaletteType,
    pub position: OverlayPosition,
    pub daemon_running: bool,
    pub pending_save: bool,
    pub window_visible: bool,
    /// Id of the settings window, if it exists
    pub main_window: Option<u64>,
}

impl ControlState {
    /// Whether the tray shows visualization as active.
    pub open spec fn spec_tray_active(self) -> bool {
        self.daemon_running && self.enabled
    }
}

/// The tray update after a change that leaves the state `s`.
pub open spec fn tray_update(s: ControlState) -> ControlCommand {
    ControlCommand::UpdateTray(s.spec_tray_active())
}

pub open spec fn control_toggle(s: ControlState, active: bool) -> (ControlState, Seq<ControlCommand>) {
    let n = ControlState { enabled: active, ..s };
    (
        n,
        seq![ControlCommand::SaveConfig, tray_update(n)] + if active && !s.daemon_running {
            seq![ControlCommand::StartDaemon]
        } else if !active && s.daemon_running {
            seq![ControlCommand::StopDaemon]
        } else {
            Seq::empty()
        },
    )
}

pub open spec fn control_show(s: ControlState) -> (ControlState, Seq<ControlCommand>) {
    let n = ControlState { window_visible: true, ..s };
    match s.main_window {
        Some(id) => (n, seq![ControlCommand::RestoreWindow(id), ControlCommand::FocusWindow(id)]),
        None => (n, Seq::empty()),
    }
}

/// The state and commands after handling `msg` in state `s`.
pub open spec fn control_step(s: ControlState, msg: ControlMessage) -> (ControlState, Seq<ControlCommand>) {
    match msg {
        ControlMessage::WindowClosed(id) => (
            ControlState { window_visible: false, ..s },
            seq![ControlCommand::MinimizeWindow(id)],
        ),
        ControlMessage::TrayShowSettings => control_show(s),
        ControlMessage::TrayToggleActive => control_toggle(s, !s.spec_tray_active()),
        ControlMessage::TrayQuit => (s, seq![ControlCommand::Exit]),
        ControlMessage::TrayAction(action) => match action {
            TrayAction::ShowSettings => control_show(s),
            TrayAction::ToggleActive => control_toggle(s, !s.spec_tray_active()),
            TrayAction::Quit => (s, seq![ControlCommand::Exit]),
        },
        ControlMessage::ToggleActive(active) => control_toggle(s, active),
        ControlMessage::DaemonStatusChecked(running) => {
            let n = ControlState { daemon_running: running, ..s };
            (n, seq![tray_update(n)])
        },
        ControlMessage::DaemonStarted(success) => {
            let n = if success { ControlState { daemon_running: true, ..s } } else { s };
            (n, seq![tray_update(n)])
        },
        ControlMessage::DaemonStopped(success) => {
            let n = if success { ControlState { daemon_running: false, ..s } } else { s };
            (n, seq![tray_update(n)])
        },
        ControlMessage::RefreshDaemonStatus => (s, seq![ControlCommand::CheckDaemonStatus]),
        ControlMessage::KeySizeEdited => (ControlState { pending_save: true, ..s }, Seq::empty()),
        ControlMessage::FadeDurationEdited => (ControlState { pending_save: true, ..s }, Seq::empty()),
        ControlMessage::SetPaletteIndex(index) => match PaletteType::spec_from_index(index as int) {
            Some(p) => (ControlState { palette: p, ..s }, seq![ControlCommand::SaveConfig]),
            None => (s, Seq::empty()),
        },
        ControlMessage::SetPosition(p) => (
            ControlState { position: p, ..s },
            seq![ControlCommand::SaveConfig],
        ),
        ControlMessage::SaveConfig => if s.pending_save {
            (ControlState { pending_save: false, ..s }, seq![ControlCommand::SaveConfig])
        } else {
            (s, Seq::empty())
        },
        ControlMessage::ConfigChanged { enabled, palette, position } => {
            let n = ControlState { enabled, palette, position, ..s };
            (n, seq![tray_update(n)])
        },
    }
}

impl ControlState {
    /// State for a configuration just loaded: service state unknown (not
    /// running), settings window hidden.
    pub fn new(enabled: bool, palette: PaletteType, position: OverlayPosition, main_window: Option<u64>) -> (r: Self)
        ensures
            r == (ControlState {
                enabled,
                palette,
                position,
                daemon_running: false,
                pending_save: false,
                window_visible: false,
                main_window,
            }),
    {
        ControlState {
            enabled,
            palette,
            position,
            daemon_running: false,
            pending_save: false,
            window_visible: false,
            main_window,
        }
    }

    /// Whether the tray shows visualization as active.
    pub fn tray_active(&self) -> (r: bool)
        ensures
            r == self.spec_tray_active(),
    {
        self.daemon_running && self.enabled
    }

    fn toggle(&mut self, active: bool) -> (cmds: Vec<ControlCommand>)
        ensures
            (*final(self), cmds@) == control_toggle(*old(self), active),
    {
        let was_running = self.daemon_running;
        self.enabled = active;
        let mut cmds = vec![ControlCommand::SaveConfig, ControlCommand::UpdateTray(self.tray_active())];
        if active && !was_running {
            cmds.push(ControlCommand::StartDaemon);
        } else if !active && was_running {
            cmds.push(ControlCommand::StopDaemon);
        }
        proof {
            let n = ControlState { enabled: active, ..*old(self) };
            let extra = if active && !was_running {
                seq![ControlCommand::StartDaemon]
            } else if !active && was_running {
                seq![ControlCommand::StopDaemon]
            } else {
                Seq::<ControlCommand>::empty()
            };
            assert(cmds@ =~= seq![ControlCommand::SaveConfig, tray_update(n)] + extra);
        }
        cmds
    }

    fn show(&mut self) -> (cmds: Vec<ControlCommand>)
        ensures
            (*final(self), cmds@) == control_show(*old(self)),
    {
        self.window_visible = true;
        match self.main_window {
            Some(id) => vec![ControlCommand::RestoreWindow(id), ControlCommand::FocusWindow(id)],
            None => Vec::new(),
        }
    }

    /// Handle one message: update the state and return the commands to carry out.
    pub fn update(&mut self, msg: ControlMessage) -> (cmds: Vec<ControlCommand>)
        ensures
            (*final(self), cmds@) == control_step(*old(self), msg),
    {
        match msg {
            ControlMessage::WindowClosed(id) => {
                self.window_visible = false;
                vec![ControlCommand::MinimizeWindow(id)]
            },
            ControlMessage::TrayShowSettings => self.show(),
            ControlMessage::TrayToggleActive => {
                let active = !self.tray_active();
                self.toggle(active)
            },
            ControlMessage::TrayQuit => vec![ControlCommand::Exit],
            ControlMessage::TrayAction(action) => match action {
                TrayAction::ShowSettings => self.show(),
                TrayAction::ToggleActive => {
                    let active = !self.tray_active();
                    self.toggle(active)
                },
                TrayAction::Quit => vec![ControlCommand::Exit],
            },
            ControlMessage::ToggleActive(active) => self.toggle(active),
            ControlMessage::DaemonStatusChecked(running) => {
                self.daemon_running = running;
                vec![ControlCommand::UpdateTray(self.tray_active())]
            },
            ControlMessage::DaemonStarted(success) => {
                if success {
                    self.daemon_running = true;
                }
                vec![ControlCommand::UpdateTray(self.tray_active())]
            },
            ControlMessage::DaemonStopped(success) => {
                if success {
                    self.daemon_running = false;
                }
                vec![ControlCommand::UpdateTray(self.tray_active())]
            },
            ControlMessage::RefreshDaemonStatus => vec![ControlCommand::CheckDaemonStatus],
            ControlMessage::KeySizeEdited => {
                self.pending_save = true;
                Vec::new()
            },
            ControlMessage::FadeDurationEdited => {
                self.pending_save = true;
                Vec::new()
            },
            ControlMessage::SetPaletteIndex(index) => match PaletteType::from_index(index) {
                Some(p) => {
                    self.palette = p;
                    vec![ControlCommand::SaveConfig]
                },
                None => Vec::new(),
            },
            ControlMessage::SetPosition(p) => {
                self.position = p;
                vec![ControlCommand::SaveConfig]
            },
            ControlMessage::SaveConfig => {
                if self.pending_save {
                    self.pending_save = false;
                    vec![ControlCommand::SaveConfig]
                } else {
                    Vec::new()
                }
            },
            ControlMessage::ConfigChanged { enabled, palette, position } => {
                self.enabled = enabled;
                self.palette = palette;
                self.position = position;
                vec![ControlCommand::UpdateTray(self.tray_active())]
            },
        }
    }
}

/// Every tray update a message causes shows the resulting state: active
/// exactly when the service runs and visualization is enabled.
pub proof fn lemma_tray_shows_state(s: ControlState, msg: ControlMessage)
    ensures
        ({
            let (n, cmds) = control_step(s, msg);
            forall|i: int|
                0 <= i < cmds.len() ==> (#[trigger] cmds[i] matches ControlCommand::UpdateTray(a) ==> a
                    == n.spec_tray_active())
        }),
{
    let (n, cmds) = control_step(s, msg);
    assert forall|i: int| 0 <= i < cmds.len() implies (#[trigger] cmds[i] matches ControlCommand::UpdateTray(a)
        ==> a == n.spec_tray_active()) by {
        match msg {
            ControlMessage::TrayToggleActive | ControlMessage::ToggleActive(_) | ControlMessage::TrayAction(_) => {
                if i >= 2 {
                    assert(cmds[i] == ControlCommand::StartDaemon || cmds[i] == ControlCommand::StopDaemon
                        || cmds[i] == ControlCommand::Exit || cmds[i] == ControlCommand::FocusWindow(
                        s.main_window->0,
                    ));
                }
            },
            _ => {},
        }
    }
}

/// Turning visualization on while the service is stopped starts it; turning
/// it off while the service runs stops it; the service is left alone otherwise.
pub proof fn lemma_toggle_controls_service(s: ControlState, active: bool)
    ensures
        ({
            let cmds = control_step(s, ControlMessage::ToggleActive(active)).1;
            &&& (active && !s.daemon_running) <==> cmds.contains(ControlCommand::StartDaemon)
            &&& (!active && s.daemon_running) <==> cmds.contains(ControlCommand::StopDaemon)
        }),
{
    let cmds = control_step(s, ControlMessage::ToggleActive(active)).1;
    if active && !s.daemon_running {
        assert(cmds[2] == ControlCommand::StartDaemon);
    }
    if !active && s.daemon_running {
        assert(cmds[2] == ControlCommand::StopDaemon);
    }
    if cmds.contains(ControlCommand::StartDaemon) {
        let i = choose|i: int| 0 <= i < cmds.len() && cmds[i] == ControlCommand::StartDaemon;
        assert(i == 2);
    }
    if cmds.contains(ControlCommand::StopDaemon) {
        let i = choose|i: int| 0 <= i < cmds.len() && cmds[i] == ControlCommand::StopDaemon;
        assert(i == 2);
    }
}

/// What each message does: a tray menu action does what the matching tray
/// message does, and toggling from the tray flips what the tray shows;
/// quitting exits and changes nothing; turning visualization on or off
/// records and saves the choice; showing the settings makes the window
/// visible, restoring and focusing it when it exists; closing it only
/// minimizes it; the service counts as running after a successful start and
/// as stopped after a successful stop, and a failed attempt changes nothing;
/// refreshing asks for the service's status; a palette pick selects the
/// listed palette and saves it.
pub proof fn lemma_control_messages(s: ControlState, active: bool, success: bool, index: usize, id: u64)
    ensures
        control_step(s, ControlMessage::TrayAction(TrayAction::ShowSettings)) == control_step(
            s,
            ControlMessage::TrayShowSettings,
        ),
        control_step(s, ControlMessage::TrayAction(TrayAction::ToggleActive)) == control_step(
            s,
            ControlMessage::TrayToggleActive,
        ),
        control_step(s, ControlMessage::TrayAction(TrayAction::Quit)) == control_step(
            s,
            ControlMessage::TrayQuit,
        ),
        control_step(s, ControlMessage::TrayQuit) == (s, seq![ControlCommand::Exit]),
        control_step(s, ControlMessage::TrayToggleActive).0.enabled == !s.spec_tray_active(),
        ({
            let (n, c) = control_step(s, ControlMessage::ToggleActive(active));
            &&& n == (ControlState { enabled: active, ..s })
            &&& c.contains(ControlCommand::SaveConfig)
        }),
        ({
            let (n, c) = control_step(s, ControlMessage::TrayShowSettings);
            &&& n == (ControlState { window_visible: true, ..s })
            &&& (s.main_window matches Some(w) ==> c.contains(ControlCommand::RestoreWindow(w))
                && c.contains(ControlCommand::FocusWindow(w)))
            &&& (s.main_window is None ==> c.len() == 0)
        }),
        control_step(s, ControlMessage::WindowClosed(id)) == (
            ControlState { window_visible: false, ..s },
            seq![ControlCommand::MinimizeWindow(id)],
        ),
        control_step(s, ControlMessage::DaemonStarted(success)).0 == if success {
            ControlState { daemon_running: true, ..s }
        } else {
            s
        },
        control_step(s, ControlMessage::DaemonStopped(success)).0 == if success {
            ControlState { daemon_running: false, ..s }
        } else {
            s
        },
        control_step(s, ControlMessage::DaemonStatusChecked(success)).0 == (ControlState {
            daemon_running: success,
            ..s
        }),
        control_step(s, ControlMessage::RefreshDaemonStatus) == (
            s,
            seq![ControlCommand::CheckDaemonStatus],
        ),
        index < PaletteType::spec_all().len() ==> control_step(s, ControlMessage::SetPaletteIndex(index))
            == (
            ControlState { palette: PaletteType::spec_all()[index as int], ..s },
            seq![ControlCommand::SaveConfig],
        ),
        index >= PaletteType::spec_all().len() ==> control_step(
            s,
            ControlMessage::SetPaletteIndex(index),
        ) == (s, Seq::<ControlCommand>::empty()),
{
    let (_, c) = control_step(s, ControlMessage::ToggleActive(active));
    assert(c[0] == ControlCommand::SaveConfig);
    if let Some(w) = s.main_window {
        let (_, c2) = control_step(s, ControlMessage::TrayShowSettings);
        assert(c2[0] == ControlCommand::RestoreWindow(w));
        assert(c2[1] == ControlCommand::FocusWindow(w));
    }
}

} // verus!
