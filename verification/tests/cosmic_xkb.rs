use kiwi::cosmic_xkb::{CosmicCompConfig, XkbConfig};

#[test]
fn active_source_uses_first_layout_and_variant() {
    let config = XkbConfig {
        layout: "us,ir,us".to_string(),
        variant: "dvorak,,".to_string(),
        ..XkbConfig::default()
    };

    let source = config.active_source();
    assert_eq!(source.layout, "us");
    assert_eq!(source.variant, "dvorak");
}

#[test]
fn active_source_handles_empty_variant_slots() {
    let config = XkbConfig {
        layout: "us,ir,us".to_string(),
        variant: ",,dvorak".to_string(),
        ..XkbConfig::default()
    };

    let source = config.active_source();
    assert_eq!(source.layout, "us");
    assert_eq!(source.variant, "");
}

#[test]
fn active_source_without_commas_keeps_whole_fields() {
    let config = XkbConfig {
        rules: "evdev".to_string(),
        model: "pc104".to_string(),
        layout: "de".to_string(),
        variant: "nodeadkeys".to_string(),
        options: Some("caps:escape".to_string()),
    };
    let source = config.active_source();
    assert_eq!(source.rules, "evdev");
    assert_eq!(source.model, "pc104");
    assert_eq!(source.layout, "de");
    assert_eq!(source.variant, "nodeadkeys");
    assert_eq!(source.options, Some("caps:escape"));
}

#[test]
fn active_source_of_default_config_is_empty() {
    let config = CosmicCompConfig::default();
    let source = config.xkb_config.active_source();
    assert_eq!(source.layout, "");
    assert_eq!(source.variant, "");
    assert_eq!(source.options, None);
}

#[test]
fn active_source_handles_multibyte_layouts() {
    let config = XkbConfig {
        layout: "ü,é".to_string(),
        ..XkbConfig::default()
    };
    assert_eq!(config.active_source().layout, "ü");
}
