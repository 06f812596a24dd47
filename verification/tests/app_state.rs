use kiwi::app_state::{AppCommand, AppMessage, KiwiAppState};
use kiwi::config::{OverlayPosition, PaletteType};
use kiwi::tray::TrayAction;

fn state() -> KiwiAppState {
    KiwiAppState::new(true, PaletteType::Dark, OverlayPosition::BottomLeft)
}

#[test]
fn toggling_from_tray() {
    let mut s = state();
    let cmds = s.update(AppMessage::TrayToggleActive);
    assert!(!s.enabled);
    assert_eq!(
        cmds,
        vec![AppCommand::SaveConfig, AppCommand::UpdateTray(false), AppCommand::SetOverlayEnabled(false)]
    );
    let cmds = s.update(AppMessage::TrayAction(TrayAction::ToggleActive));
    assert!(s.enabled);
    assert_eq!(cmds[1], AppCommand::UpdateTray(true));
}

#[test]
fn settings_window_lifecycle() {
    let mut s = state();
    assert_eq!(s.update(AppMessage::TrayShowSettings), vec![AppCommand::OpenSettingsWindow]);
    assert!(s.update(AppMessage::SettingsWindowCreated(7)).is_empty());
    assert_eq!(s.update(AppMessage::TrayAction(TrayAction::ShowSettings)), vec![AppCommand::FocusWindow(7)]);
    assert!(s.update(AppMessage::WindowClosed(8)).is_empty());
    assert_eq!(s.main_window, Some(7));
    assert_eq!(s.update(AppMessage::WindowClosed(7)), vec![AppCommand::CloseWindow(7)]);
    assert_eq!(s.main_window, None);
    assert_eq!(s.update(AppMessage::WindowOpened(9)), vec![AppCommand::FocusWindow(9)]);
    assert_eq!(s.main_window, Some(9));
}

#[test]
fn quitting() {
    let mut s = state();
    assert_eq!(s.update(AppMessage::TrayQuit), vec![AppCommand::Exit]);
    assert_eq!(s.update(AppMessage::TrayAction(TrayAction::Quit)), vec![AppCommand::Exit]);
}

#[test]
fn palette_and_position_picks() {
    let mut s = state();
    assert_eq!(
        s.update(AppMessage::SetPaletteIndex(3)),
        vec![AppCommand::SaveConfig, AppCommand::SetOverlayPalette(PaletteType::Kiwi)]
    );
    assert_eq!(s.palette, PaletteType::Kiwi);
    assert!(s.update(AppMessage::SetPaletteIndex(9)).is_empty());
    assert_eq!(s.palette, PaletteType::Kiwi);
    assert_eq!(
        s.update(AppMessage::SetPosition(OverlayPosition::TopRight)),
        vec![
            AppCommand::SaveConfig,
            AppCommand::SetOverlayPosition(OverlayPosition::TopRight),
            AppCommand::RecreateSurfaces
        ]
    );
    assert_eq!(
        s.update(AppMessage::SetPosition(OverlayPosition::TopRight)),
        vec![AppCommand::SaveConfig, AppCommand::SetOverlayPosition(OverlayPosition::TopRight)]
    );
}

#[test]
fn debounced_save() {
    let mut s = state();
    assert!(s.update(AppMessage::SaveConfig { key_size_changed: true }).is_empty());
    assert!(s.update(AppMessage::KeySizeEdited).is_empty());
    assert!(s.needs_save_timer());
    assert_eq!(
        s.update(AppMessage::SaveConfig { key_size_changed: true }),
        vec![AppCommand::SaveConfig, AppCommand::RecreateSurfaces]
    );
    assert!(!s.needs_save_timer());
    s.update(AppMessage::FadeDurationEdited);
    assert_eq!(s.update(AppMessage::SaveConfig { key_size_changed: false }), vec![AppCommand::SaveConfig]);
}

#[test]
fn external_config_change() {
    let mut s = state();
    let cmds = s.update(AppMessage::ConfigChanged {
        enabled: false,
        palette: PaletteType::Light,
        position: OverlayPosition::BottomLeft,
        key_size_changed: false,
    });
    assert_eq!(cmds, vec![AppCommand::UpdateTray(false), AppCommand::ApplyConfigToOverlay]);
    assert!(!s.enabled);
    assert_eq!(s.palette, PaletteType::Light);
    let cmds = s.update(AppMessage::ConfigChanged {
        enabled: false,
        palette: PaletteType::Light,
        position: OverlayPosition::TopLeft,
        key_size_changed: false,
    });
    assert_eq!(cmds.last(), Some(&AppCommand::RecreateSurfaces));
    assert_eq!(s.update(AppMessage::Tick), vec![AppCommand::CleanupExpired]);
}
