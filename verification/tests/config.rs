use kiwi::config::{HorizontalAlign, KeyDisplayMode, OverlayPosition, PaletteType, VerticalAlign};

#[test]
fn display_mode_names_and_examples() {
    assert_eq!(KeyDisplayMode::TypedCharacter.name(), "Typed Character");
    assert_eq!(KeyDisplayMode::PhysicalKey.name(), "Physical Key");
    assert_eq!(KeyDisplayMode::TypedCharacter.example(), "Shift+@");
    assert_eq!(KeyDisplayMode::PhysicalKey.example(), "Shift+2");
    assert_eq!(KeyDisplayMode::all(), vec![KeyDisplayMode::TypedCharacter, KeyDisplayMode::PhysicalKey]);
    assert_eq!(KeyDisplayMode::default(), KeyDisplayMode::TypedCharacter);
}

#[test]
fn position_names() {
    let names: Vec<&str> = OverlayPosition::all().iter().map(|p| p.name()).collect();
    assert_eq!(names, vec!["Top Left", "Top Right", "Bottom Left", "Bottom Right", "Bottom Center"]);
    assert_eq!(OverlayPosition::default(), OverlayPosition::BottomLeft);
}

#[test]
fn palette_names_and_indices() {
    let names: Vec<&str> = PaletteType::all().iter().map(|p| p.name()).collect();
    assert_eq!(names, vec!["Dark", "Light", "Frosted", "Kiwi"]);
    for p in PaletteType::all() {
        assert_eq!(PaletteType::from_index(p.index()), Some(p));
    }
    assert_eq!(PaletteType::from_index(4), None);
    assert_eq!(PaletteType::Frosted.index(), 2);
    assert_eq!(PaletteType::default(), PaletteType::Dark);
}

#[test]
fn overlay_alignment() {
    assert_eq!(OverlayPosition::TopRight.alignment(), (VerticalAlign::Top, HorizontalAlign::Right));
    assert_eq!(OverlayPosition::BottomCenter.alignment(), (VerticalAlign::Bottom, HorizontalAlign::Center));
}

#[test]
fn layer_placement_anchors_and_margins() {
    let p = OverlayPosition::TopLeft.layer_placement();
    assert!(p.anchor_top && p.anchor_left && !p.anchor_bottom && !p.anchor_right);
    assert_eq!((p.margin_top, p.margin_left, p.margin_bottom, p.margin_right), (20, 20, 0, 0));
    let c = OverlayPosition::BottomCenter.layer_placement();
    assert!(c.anchor_bottom && !c.anchor_left && !c.anchor_right && !c.anchor_top);
    assert_eq!((c.margin_top, c.margin_left, c.margin_bottom, c.margin_right), (0, 0, 20, 0));
    let r = OverlayPosition::BottomRight.layer_placement();
    assert_eq!((r.margin_bottom, r.margin_right), (20, 20));
}
