use oscillator::setting::{
    BarSettings, Key, KeyTable, LayoutManagerSettings, Settings, SettingsError,
};

fn stack(border: u32, focus: &str, normal: &str) -> LayoutManagerSettings {
    LayoutManagerSettings::Stack {
        border,
        focus_border_color: focus.to_string(),
        normal_border_color: normal.to_string(),
    }
}

fn bar(font: &str, background: &str, active_font: &str, active_background: &str) -> BarSettings {
    BarSettings {
        height: 20,
        font_family: "fixed".to_string(),
        font_color: font.to_string(),
        background_color: background.to_string(),
        active_font_color: active_font.to_string(),
        active_background_color: active_background.to_string(),
        tag_cell_width: 30,
    }
}

fn good_bar() -> BarSettings {
    bar("#ffffff", "#000000", "#000000", "#ffffff")
}

fn error_of(layout: LayoutManagerSettings, bar: BarSettings) -> Option<SettingsError> {
    Settings::new(KeyTable::new(), "wall.png".to_string(), layout, bar).err()
}

#[test]
fn a_table_starts_empty() {
    let table = KeyTable::new();
    assert_eq!(table.len(), 0);
    assert!(table.get(&"m1-t".to_string()).is_none());
}

#[test]
fn insert_then_get() {
    let mut table = KeyTable::new();
    table.insert("m1-q".to_string(), Key::Quit);
    table.insert(
        "m1-t".to_string(),
        Key::Spawn { command: vec!["xterm".to_string(), "-e".to_string()] },
    );
    assert_eq!(table.len(), 2);
    assert!(matches!(table.get(&"m1-q".to_string()), Some(Key::Quit)));
    match table.get(&"m1-t".to_string()) {
        Some(Key::Spawn { command }) => assert_eq!(command, &vec!["xterm", "-e"]),
        _ => panic!("the binding is missing"),
    }
    assert!(table.get(&"m1-x".to_string()).is_none());
    assert!(table.get(&"M1-Q".to_string()).is_none());
}

#[test]
fn insert_replaces_a_binding_of_the_same_name() {
    let mut table = KeyTable::new();
    table.insert("m1-q".to_string(), Key::Quit);
    table.insert("m1-q".to_string(), Key::Spawn { command: vec!["true".to_string()] });
    assert_eq!(table.len(), 1);
    assert!(matches!(table.get(&"m1-q".to_string()), Some(Key::Spawn { .. })));
}

#[test]
fn resolve_looks_up_the_binding_name() {
    let mut table = KeyTable::new();
    table.insert("m1-c-t".to_string(), Key::Quit);
    table.insert("s-return".to_string(), Key::Spawn { command: vec!["xterm".to_string()] });
    assert!(matches!(table.resolve("t", 0x04 | 0x08), Some(Key::Quit)));
    assert!(matches!(table.resolve("T", 0x04 | 0x08), Some(Key::Quit)));
    assert!(matches!(table.resolve("Return", 0x01), Some(Key::Spawn { .. })));
    assert!(table.resolve("t", 0x04).is_none());
    assert!(table.resolve("t", 0).is_none());
}

#[test]
fn a_table_key_that_is_not_lower_case_is_never_found() {
    let mut table = KeyTable::new();
    table.insert("M1-T".to_string(), Key::Quit);
    assert!(table.resolve("t", 0x08).is_none());
    assert!(table.resolve("T", 0x08).is_none());
}

#[test]
fn well_formed_settings_are_accepted() {
    let mut keys = KeyTable::new();
    keys.insert("m1-q".to_string(), Key::Quit);
    let settings =
        Settings::new(keys, "wall.png".to_string(), stack(2, "#ff0000", "#00ff0080"), good_bar());
    let settings = settings.ok().unwrap();
    assert_eq!(settings.get_background(), "wall.png");
    assert_eq!(settings.get_keys().len(), 1);
    assert_eq!(settings.get_bar().height, 20);
    assert_eq!(settings.get_bar().tag_cell_width, 30);
    assert_eq!(settings.get_bar().font_family, "fixed");
    assert_eq!(settings.get_layout_manager_settings().border(), 2);
    assert_eq!(settings.get_layout_manager_settings().focus_border_color(), "#ff0000");
    assert_eq!(settings.get_layout_manager_settings().normal_border_color(), "#00ff0080");
}

#[test]
fn malformed_focus_border_color() {
    assert_eq!(error_of(stack(1, "ff0000", "#00ff00"), good_bar()), Some(SettingsError::FocusBorderColor));
}

#[test]
fn malformed_normal_border_color() {
    assert_eq!(error_of(stack(1, "#ff0000", "#00ff0"), good_bar()), Some(SettingsError::NormalBorderColor));
}

#[test]
fn malformed_bar_font_color() {
    assert_eq!(
        error_of(stack(1, "#ff0000", "#00ff00"), bar("white", "#000000", "#000000", "#ffffff")),
        Some(SettingsError::BarFontColor)
    );
}

#[test]
fn malformed_bar_background_color() {
    assert_eq!(
        error_of(stack(1, "#ff0000", "#00ff00"), bar("#ffffff", "#00000g", "#000000", "#ffffff")),
        Some(SettingsError::BarBackgroundColor)
    );
}

#[test]
fn malformed_bar_active_font_color() {
    assert_eq!(
        error_of(stack(1, "#ff0000", "#00ff00"), bar("#ffffff", "#000000", "", "#ffffff")),
        Some(SettingsError::BarActiveFontColor)
    );
}

#[test]
fn malformed_bar_active_background_color() {
    assert_eq!(
        error_of(stack(1, "#ff0000", "#00ff00"), bar("#ffffff", "#000000", "#000000", "#ffffffff0")),
        Some(SettingsError::BarActiveBackgroundColor)
    );
}

#[test]
fn the_first_malformed_color_is_named() {
    assert_eq!(
        error_of(stack(1, "#ff0000", "bad"), bar("bad", "bad", "bad", "bad")),
        Some(SettingsError::NormalBorderColor)
    );
    assert_eq!(
        error_of(stack(1, "bad", "bad"), bar("bad", "bad", "bad", "bad")),
        Some(SettingsError::FocusBorderColor)
    );
}
