use kiwi::tray::{load_icon_pixmap, rgba_to_argb, MenuEntry, TrayAction, TrayState};

#[test]
fn tray_texts_follow_activity() {
    let mut t = TrayState::new(true);
    assert_eq!(t.id(), "dev.hojjat.kiwi");
    assert_eq!(t.title(), "Kiwi");
    assert_eq!(t.icon_name(), "kiwi-on");
    assert_eq!(t.tooltip_title(), "Kiwi Keystroke Visualizer");
    assert_eq!(t.tooltip_description(), "Active - Keystrokes are being visualized");
    t.set_active(false);
    assert_eq!(t.icon_name(), "kiwi-off");
    assert_eq!(t.tooltip_description(), "Inactive - Click to configure");
    assert_eq!(t.activate(), TrayAction::ShowSettings);
}

#[test]
fn tray_menu_layout() {
    let labels = |t: &TrayState| -> Vec<Option<(String, TrayAction)>> {
        t.menu()
            .into_iter()
            .map(|e| match e {
                MenuEntry::Item(label, action) => Some((label, action)),
                MenuEntry::Separator => None,
            })
            .collect()
    };
    assert_eq!(
        labels(&TrayState::new(true)),
        vec![
            Some(("Settings...".to_string(), TrayAction::ShowSettings)),
            None,
            Some(("Deactivate".to_string(), TrayAction::ToggleActive)),
            None,
            Some(("Quit".to_string(), TrayAction::Quit)),
        ]
    );
    assert_eq!(labels(&TrayState::new(false))[2], Some(("Activate".to_string(), TrayAction::ToggleActive)));
}

#[test]
fn rgba_bytes_become_argb() {
    assert_eq!(rgba_to_argb(&vec![1, 2, 3, 4, 5, 6, 7, 8]), vec![4, 1, 2, 3, 8, 5, 6, 7]);
    assert_eq!(rgba_to_argb(&vec![1, 2, 3, 4, 9, 9]), vec![4, 1, 2, 3]);
    assert!(rgba_to_argb(&vec![]).is_empty());
}

#[test]
fn icon_from_png() {
    let img = image::RgbaImage::from_raw(2, 1, vec![10, 20, 30, 40, 50, 60, 70, 80]).unwrap();
    let mut png = std::io::Cursor::new(Vec::new());
    img.write_to(&mut png, image::ImageFormat::Png).unwrap();
    let icons = load_icon_pixmap(png.get_ref());
    assert_eq!(icons.len(), 1);
    assert_eq!(icons[0].width, 2);
    assert_eq!(icons[0].height, 1);
    assert_eq!(icons[0].data, vec![40, 10, 20, 30, 80, 50, 60, 70]);
}

#[test]
fn icon_from_invalid_bytes_is_empty() {
    assert!(load_icon_pixmap(b"not a png").is_empty());
}
