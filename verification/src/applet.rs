//! Decisions of the panel applet: its popup opens and closes on each click,
//! and its toggle enables or disables visualization.
use vstd::prelude::*;

verus! {

/// Messages handled by the panel applet.
#[derive(Debug, Clone, Copy, PartialEq, Eq, Structural)]
pub enum AppletMessage {
    /// The panel icon was clicked; `new_id` is a fresh id for a popup
    TogglePopup { new_id: u64 },
    /// A popup was closed
    PopupClosed(u64),
    /// The enable toggle was switched
    ToggleEnabled(bool),
    /// The configuration changed outside the applet
    ConfigChanged(bool),
}

/// Commands for the runtime.
#[derive(Debug, Clone, Copy, PartialEq, Eq, Structural)]
pub enum AppletCommand {
    OpenPopup(u64),
    DestroyPopup(u64),
    SaveConfig,
}

/// State of the panel applet.
#[derive(Debug, Clone, Copy, PartialEq, Eq, Structural)]
pub struct AppletState {
    /// Id of the open popup
    pub popup: Option<u64>,
    /// Whether visualization is enabled
    pub enabled: bool,
}

/// The state and command after handling `msg` in state `s`.
pub open spec fn applet_step(s: AppletState, msg: AppletMessage) -> (AppletState, Option<AppletCommand>) {
    match msg {
        AppletMessage::TogglePopup { new_id } => match s.popup {
            Some(p) => (AppletState { popup: None, ..s }, Some(AppletCommand::DestroyPopup(p))),
            None => (AppletState { popup: Some(new_id), ..s }, Some(AppletCommand::OpenPopup(new_id))),
        },
        AppletMessage::PopupClosed(id) => if s.popup == Some(id) {
            (AppletState { popup: None, ..s }, None)
        } else {
            (s, None)
        },
        AppletMessage::ToggleEnabled(enabled) => (
            AppletState { enabled, ..s },
            Some(AppletCommand::SaveConfig),
        ),
        AppletMessage::ConfigChanged(enabled) => (AppletState { enabled, ..s }, None),
    }
}

impl AppletState {
    /// Applet with no popup open.
    pub fn new(enabled: bool) -> (r: Self)
        ensures
            r == (AppletState { popup: None, enabled }),
    {
        AppletState { popup: None, enabled }
    }

    /// Handle one message: update the state and return the command to carry out.
    pub fn update(&mut self, msg: AppletMessage) -> (cmd: Option<AppletCommand>)
        ensures
            (*final(self), cmd) == applet_step(*old(self), msg),
    {
        match msg {
            AppletMessage::TogglePopup { new_id } => match self.popup {
                Some(p) => {
                    self.popup = None;
                    Some(AppletCommand::DestroyPopup(p))
                },
                None => {
                    self.popup = Some(new_id);
                    Some(AppletCommand::OpenPopup(new_id))
                },
            },
            AppletMessage::PopupClosed(id) => {
                if self.popup == Some(id) {
                    self.popup = None;
                }
                None
            },
            AppletMessage::ToggleEnabled(enabled) => {
                self.enabled = enabled;
                Some(AppletCommand::SaveConfig)
            },
            AppletMessage::ConfigChanged(enabled) => {
                self.enabled = enabled;
                None
            },
        }
    }
}

/// Clicking the panel icon twice opens a popup and then destroys that same
/// popup, leaving none open.
pub proof fn lemma_popup_toggle_twice(s: AppletState, a: u64, b: u64)
    requires
        s.popup is None,
    ensures
        ({
            let (s1, c1) = applet_step(s, AppletMessage::TogglePopup { new_id: a });
            let (s2, c2) = applet_step(s1, AppletMessage::TogglePopup { new_id: b });
            &&& c1 == Some(AppletCommand::OpenPopup(a))
            &&& c2 == Some(AppletCommand::DestroyPopup(a))
            &&& s2 == s
        }),
{
}

/// Switching the toggle records the choice and saves it; an outside
/// configuration change is recorded without saving; neither touches the
/// popup. Closing the open popup forgets it; closing any other changes nothing.
pub proof fn lemma_applet_messages(s: AppletState, enabled: bool, id: u64)
    ensures
        applet_step(s, AppletMessage::ToggleEnabled(enabled)) == (
            AppletState { enabled, ..s },
            Some(AppletCommand::SaveConfig),
        ),
        applet_step(s, AppletMessage::ConfigChanged(enabled)) == (
            AppletState { enabled, ..s },
            None::<AppletCommand>,
        ),
        s.popup == Some(id) ==> applet_step(s, AppletMessage::PopupClosed(id)) == (
            AppletState { popup: None, ..s },
            None::<AppletCommand>,
        ),
        s.popup != Some(id) ==> applet_step(s, AppletMessage::PopupClosed(id)) == (
            s,
            None::<AppletCommand>,
        ),
        s.popup matches Some(p) ==> applet_step(s, AppletMessage::TogglePopup { new_id: id }) == (
            AppletState { popup: None, ..s },
            Some(AppletCommand::DestroyPopup(p)),
        ),
{
}

} // verus!
