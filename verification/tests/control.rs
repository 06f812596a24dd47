use kiwi::applet::{AppletCommand, AppletMessage, AppletState};
use kiwi::config::{OverlayPosition, PaletteType};
use kiwi::daemon_control::{ControlCommand, ControlMessage, ControlState};
use kiwi::tray::TrayAction;

fn control() -> ControlState {
    ControlState::new(true, PaletteType::Dark, OverlayPosition::BottomLeft, Some(1))
}

#[test]
fn tray_active_needs_running_service() {
    let mut s = control();
    assert!(!s.tray_active());
    assert_eq!(s.update(ControlMessage::DaemonStatusChecked(true)), vec![ControlCommand::UpdateTray(true)]);
    assert!(s.tray_active());
    assert_eq!(
        s.update(ControlMessage::DaemonStopped(false)),
        vec![ControlCommand::UpdateTray(true)]
    );
    assert_eq!(s.update(ControlMessage::DaemonStopped(true)), vec![ControlCommand::UpdateTray(false)]);
}

#[test]
fn toggling_starts_and_stops_service() {
    let mut s = control();
    // tray shows inactive (service stopped), so the tray toggle turns it on
    assert_eq!(
        s.update(ControlMessage::TrayToggleActive),
        vec![ControlCommand::SaveConfig, ControlCommand::UpdateTray(false), ControlCommand::StartDaemon]
    );
    assert_eq!(s.update(ControlMessage::DaemonStarted(true)), vec![ControlCommand::UpdateTray(true)]);
    assert_eq!(
        s.update(ControlMessage::TrayAction(TrayAction::ToggleActive)),
        vec![ControlCommand::SaveConfig, ControlCommand::UpdateTray(false), ControlCommand::StopDaemon]
    );
    assert!(!s.enabled);
    s.update(ControlMessage::DaemonStopped(true));
    assert_eq!(
        s.update(ControlMessage::ToggleActive(false)),
        vec![ControlCommand::SaveConfig, ControlCommand::UpdateTray(false)]
    );
}

#[test]
fn window_is_minimized_and_restored() {
    let mut s = control();
    assert_eq!(s.update(ControlMessage::WindowClosed(1)), vec![ControlCommand::MinimizeWindow(1)]);
    assert!(!s.window_visible);
    assert_eq!(
        s.update(ControlMessage::TrayShowSettings),
        vec![ControlCommand::RestoreWindow(1), ControlCommand::FocusWindow(1)]
    );
    assert!(s.window_visible);
    let mut hidden = ControlState::new(false, PaletteType::Dark, OverlayPosition::BottomLeft, None);
    assert!(hidden.update(ControlMessage::TrayAction(TrayAction::ShowSettings)).is_empty());
    assert!(hidden.window_visible);
}

#[test]
fn control_settings_and_saving() {
    let mut s = control();
    assert_eq!(s.update(ControlMessage::SetPaletteIndex(1)), vec![ControlCommand::SaveConfig]);
    assert_eq!(s.palette, PaletteType::Light);
    assert!(s.update(ControlMessage::SetPaletteIndex(7)).is_empty());
    assert_eq!(s.update(ControlMessage::SetPosition(OverlayPosition::TopLeft)), vec![ControlCommand::SaveConfig]);
    assert!(s.update(ControlMessage::SaveConfig).is_empty());
    s.update(ControlMessage::KeySizeEdited);
    assert_eq!(s.update(ControlMessage::SaveConfig), vec![ControlCommand::SaveConfig]);
    assert_eq!(s.update(ControlMessage::RefreshDaemonStatus), vec![ControlCommand::CheckDaemonStatus]);
    assert_eq!(s.update(ControlMessage::TrayQuit), vec![ControlCommand::Exit]);
    assert_eq!(
        s.update(ControlMessage::ConfigChanged {
            enabled: false,
            palette: PaletteType::Kiwi,
            position: OverlayPosition::TopRight
        }),
        vec![ControlCommand::UpdateTray(false)]
    );
}

#[test]
fn applet_popup_and_toggle() {
    let mut a = AppletState::new(false);
    assert_eq!(a.update(AppletMessage::TogglePopup { new_id: 5 }), Some(AppletCommand::OpenPopup(5)));
    assert_eq!(a.popup, Some(5));
    assert_eq!(a.update(AppletMessage::PopupClosed(6)), None);
    assert_eq!(a.popup, Some(5));
    assert_eq!(a.update(AppletMessage::TogglePopup { new_id: 6 }), Some(AppletCommand::DestroyPopup(5)));
    assert_eq!(a.popup, None);
    a.update(AppletMessage::TogglePopup { new_id: 7 });
    assert_eq!(a.update(AppletMessage::PopupClosed(7)), None);
    assert_eq!(a.popup, None);
    assert_eq!(a.update(AppletMessage::ToggleEnabled(true)), Some(AppletCommand::SaveConfig));
    assert!(a.enabled);
    assert_eq!(a.update(AppletMessage::ConfigChanged(false)), None);
    assert!(!a.enabled);
}
