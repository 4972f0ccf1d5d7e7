use std::sync::Arc;

use lapce_app::color::{Color, NamedColor};
use lapce_app::config::{ConfigEntry, ConfigResources, ConfigValue, LapceConfig, OsProfile, PluginConfig};
use lapce_app::font::FontFamily;
use lapce_app::manager::{dropdown_info, LapceConfigManager, SettingError};
use lapce_app::settings::{SettingKey, SettingValue, TabCloseButton, WrapStyle};
use lapce_app::store::{SettingsStore, StoreEntry};
use lapce_app::theme::{ColorThemeConfig, IconEntry, IconThemeConfig, ThemeColorEntry};
use lapce_app::traits::{
    ConfigManager, CoreConfigProvider, EditorConfigProvider, PluginConfigProvider,
    TerminalConfigProvider, ThemeConfigProvider, UIConfigProvider,
};

fn rgba(r: u8, g: u8, b: u8, a: u8) -> Color {
    Color { r, g, b, a }
}

fn entry(name: &str, color: Color) -> ThemeColorEntry {
    ThemeColorEntry { name: name.to_string(), color }
}

fn resources() -> ConfigResources {
    let base = ColorThemeConfig {
        name: "Base".to_string(),
        base: None,
        colors: vec![
            entry("editor.background", rgba(10, 10, 10, 255)),
            entry("editor.foreground", rgba(200, 200, 200, 255)),
            entry("terminal.red", rgba(205, 49, 49, 255)),
        ],
    };
    let dark = ColorThemeConfig {
        name: "Lapce Dark".to_string(),
        base: Some("Base".to_string()),
        colors: vec![
            entry("editor.background", rgba(40, 44, 52, 255)),
            entry("panel.background", rgba(33, 37, 43, 128)),
        ],
    };
    let light = ColorThemeConfig {
        name: "Lapce Light".to_string(),
        base: None,
        colors: vec![entry("editor.background", rgba(250, 250, 250, 255))],
    };
    let icons = IconThemeConfig {
        name: "Lapce Codicons".to_string(),
        path: None,
        icons: vec![IconEntry { id: "file".to_string(), svg: "file.svg".to_string() }],
    };
    ConfigResources {
        color_themes: vec![base, dark, light],
        icon_themes: vec![icons],
        plugins: vec![PluginConfig {
            id: "rust-analyzer".to_string(),
            settings: vec![ConfigEntry {
                key: "checkOnSave".to_string(),
                value: ConfigValue::Bool(true),
            }],
        }],
        profiles: Vec::new(),
        default_profiles: vec![OsProfile { os: "linux".to_string(), profile: "bash".to_string() }],
    }
}

fn manager() -> LapceConfigManager {
    LapceConfigManager::load(SettingsStore::new(), resources())
}

#[test]
fn load_gives_defaults_and_id_zero() {
    let m = manager();
    assert_eq!(m.config_id(), 0);
    assert!(!m.modal());
    assert_eq!(CoreConfigProvider::color_theme(&m), "Lapce Dark");
    assert_eq!(EditorConfigProvider::font_size(&m), 13);
    assert_eq!(EditorConfigProvider::tab_width(&m), 4);
    assert_eq!(m.wrap_style(), WrapStyle::EditorWidth);
    assert_eq!(m.scale(), 100);
    assert_eq!(m.tab_min_width(), 100);
    assert_eq!(m.scroll_width(), 10);
    assert_eq!(m.drop_shadow_width(), 5);
    assert_eq!(m.list_line_height(), 20);
    assert_eq!(m.tab_close_button(), TabCloseButton::Right);
    assert_eq!(TerminalConfigProvider::line_height(&m), 20);
}

#[test]
fn update_then_reload_reflects_value() {
    let mut m = manager();
    assert_eq!(m.update_setting("editor", "font-size", SettingValue::Int(20)), Ok(()));
    assert_eq!(EditorConfigProvider::font_size(&m), 13);
    assert_eq!(m.config_id(), 0);
    assert_eq!(m.reload(), Ok(()));
    assert_eq!(m.config_id(), 1);
    assert_eq!(EditorConfigProvider::font_size(&m), 20);

    assert_eq!(m.update_setting("core", "modal", SettingValue::Bool(true)), Ok(()));
    assert_eq!(
        m.update_setting("editor", "wrap-style", SettingValue::Text("wrap-column".to_string())),
        Ok(())
    );
    assert_eq!(
        m.update_setting("core", "color-theme", SettingValue::Text("Lapce Light".to_string())),
        Ok(())
    );
    assert_eq!(m.reload(), Ok(()));
    assert_eq!(m.config_id(), 2);
    assert!(m.modal());
    assert_eq!(m.wrap_style(), WrapStyle::WrapColumn);
    assert_eq!(CoreConfigProvider::color_theme(&m), "Lapce Light");
    assert_eq!(EditorConfigProvider::font_size(&m), 20);
}

#[test]
fn update_twice_keeps_the_last_value() {
    let mut m = manager();
    assert_eq!(m.update_setting("ui", "font-size", SettingValue::Int(15)), Ok(()));
    assert_eq!(m.update_setting("ui", "font-size", SettingValue::Int(17)), Ok(()));
    assert_eq!(m.store().entries.len(), 1);
    assert_eq!(m.reload(), Ok(()));
    assert_eq!(UIConfigProvider::font_size(&m), 17);
}

#[test]
fn reset_then_reload_gives_default() {
    let mut m = manager();
    assert_eq!(m.update_setting("editor", "tab-width", SettingValue::Int(8)), Ok(()));
    assert_eq!(m.reload(), Ok(()));
    assert_eq!(m.tab_width(), 8);
    assert_eq!(m.reset_setting("editor", "tab-width"), Ok(()));
    assert_eq!(m.tab_width(), 8);
    assert_eq!(m.reload(), Ok(()));
    assert_eq!(m.tab_width(), 4);
    assert_eq!(m.config_id(), 2);
}

#[test]
fn unknown_path_is_setting_not_found() {
    let mut m = manager();
    assert_eq!(
        m.update_setting("editor", "no-such-key", SettingValue::Int(1)),
        Err(SettingError::SettingNotFound)
    );
    assert_eq!(
        m.update_setting("nowhere", "font-size", SettingValue::Int(1)),
        Err(SettingError::SettingNotFound)
    );
    assert_eq!(m.reset_setting("", ""), Err(SettingError::SettingNotFound));
    assert_eq!(m.store().entries.len(), 0);
}

#[test]
fn fixed_geometry_is_read_only() {
    let mut m = manager();
    assert_eq!(
        m.update_setting("ui", "tab-min-width", SettingValue::Int(120)),
        Err(SettingError::ReadOnly)
    );
    assert_eq!(m.reset_setting("ui", "list-line-height"), Err(SettingError::ReadOnly));
}

#[test]
fn illegal_value_is_write_failed() {
    let mut m = manager();
    assert_eq!(
        m.update_setting("editor", "font-size", SettingValue::Bool(true)),
        Err(SettingError::WriteFailed)
    );
    assert_eq!(
        m.update_setting("editor", "font-size", SettingValue::Int(0)),
        Err(SettingError::WriteFailed)
    );
    assert_eq!(
        m.update_setting("editor", "wrap-style", SettingValue::Text("sideways".to_string())),
        Err(SettingError::WriteFailed)
    );
    assert_eq!(m.store().entries.len(), 0);
}

#[test]
fn failed_reload_leaves_snapshot_unchanged() {
    let bad = SettingsStore::from_entries(vec![
        StoreEntry { key: SettingKey::EditorFontSize, value: SettingValue::Int(18) },
        StoreEntry { key: SettingKey::CoreModal, value: SettingValue::Int(3) },
    ]);
    let mut m = LapceConfigManager::load(bad, resources());
    assert_eq!(m.config_id(), 0);
    assert_eq!(EditorConfigProvider::font_size(&m), 13);
    assert_eq!(m.reload(), Err(SettingError::ReloadFailed));
    assert_eq!(m.config_id(), 0);
    assert_eq!(EditorConfigProvider::font_size(&m), 13);
    assert!(!m.modal());
    assert_eq!(m.store().entries.len(), 2);

    assert_eq!(m.reset_setting("core", "modal"), Ok(()));
    assert_eq!(m.reload(), Ok(()));
    assert_eq!(m.config_id(), 1);
    assert_eq!(EditorConfigProvider::font_size(&m), 18);
}

#[test]
fn reload_fails_when_ids_are_used_up() {
    let last = LapceConfig::from_store(u64::MAX, &SettingsStore::new(), Arc::new(resources()));
    let mut m = LapceConfigManager::new(Arc::new(last));
    assert_eq!(m.reload(), Err(SettingError::ReloadFailed));
    assert_eq!(m.config_id(), u64::MAX);
}

#[test]
fn held_snapshot_survives_reload() {
    let mut m = manager();
    let held = m.snapshot();
    assert_eq!(m.update_setting("editor", "line-height", SettingValue::Int(30)), Ok(()));
    assert_eq!(m.update_setting("core", "modal", SettingValue::Bool(true)), Ok(()));
    assert_eq!(m.reload(), Ok(()));
    assert_eq!(held.id, 0);
    assert_eq!(held.editor.line_height, 23);
    assert!(!held.core.modal);
    assert_eq!(m.current().id, 1);
    assert_eq!(m.current().editor.line_height, 30);
    assert!(m.current().core.modal);
}

#[test]
fn resolve_color_is_total() {
    let m = manager();
    assert_eq!(m.color("editor.background"), rgba(40, 44, 52, 255));
    assert_eq!(m.color("editor.foreground"), rgba(200, 200, 200, 255));
    assert_eq!(m.color(""), rgba(0, 0, 0, 255));
    assert_eq!(m.color("never.declared"), rgba(0, 0, 0, 255));
}

#[test]
fn colors_inherit_along_the_whole_chain() {
    let mut res = resources();
    res.color_themes.push(ColorThemeConfig {
        name: "Child".to_string(),
        base: Some("Lapce Dark".to_string()),
        colors: vec![entry("child.only", rgba(1, 1, 1, 255))],
    });
    let mut m = LapceConfigManager::load(SettingsStore::new(), res);
    assert_eq!(
        m.update_setting("core", "color-theme", SettingValue::Text("Child".to_string())),
        Ok(())
    );
    assert_eq!(m.reload(), Ok(()));
    assert_eq!(m.color("child.only"), rgba(1, 1, 1, 255));
    assert_eq!(m.color("panel.background"), rgba(33, 37, 43, 128));
    assert_eq!(m.color("editor.background"), rgba(40, 44, 52, 255));
    assert_eq!(m.color("editor.foreground"), rgba(200, 200, 200, 255));
    assert_eq!(m.color("nowhere"), rgba(0, 0, 0, 255));
}

#[test]
fn cyclic_theme_chain_ends_in_fallback() {
    let mut res = resources();
    res.color_themes = vec![
        ColorThemeConfig { name: "Lapce Dark".to_string(), base: Some("Loop".to_string()), colors: Vec::new() },
        ColorThemeConfig { name: "Loop".to_string(), base: Some("Lapce Dark".to_string()), colors: Vec::new() },
    ];
    let m = LapceConfigManager::load(SettingsStore::new(), res);
    assert_eq!(m.color("editor.background"), rgba(0, 0, 0, 255));
}

#[test]
fn duplicate_keys_are_detected() {
    let mut res = resources();
    assert!(res.keys_unique());
    res.plugins.push(PluginConfig { id: "rust-analyzer".to_string(), settings: Vec::new() });
    assert!(!res.keys_unique());
}

#[test]
fn update_config_publishes_a_newer_snapshot() {
    let mut m = manager();
    let next = LapceConfig::from_store(5, &SettingsStore::new(), Arc::new(resources()));
    m.update_config(Arc::new(next));
    assert_eq!(m.config_id(), 5);
}

#[test]
fn unknown_active_theme_falls_back() {
    let mut m = manager();
    assert_eq!(
        m.update_setting("core", "color-theme", SettingValue::Text("Missing".to_string())),
        Ok(())
    );
    assert_eq!(m.reload(), Ok(()));
    assert_eq!(m.color("editor.background"), rgba(0, 0, 0, 255));
}

#[test]
fn color_with_alpha_scales_alpha() {
    let m = manager();
    assert_eq!(m.color_with_alpha("panel.background", 0), rgba(33, 37, 43, 0));
    assert_eq!(m.color_with_alpha("panel.background", 255), m.color("panel.background"));
    assert_eq!(m.color_with_alpha("editor.background", 0).a, 0);
    assert_eq!(m.color_with_alpha("editor.background", 255), rgba(40, 44, 52, 255));
    assert_eq!(m.color_with_alpha("panel.background", 128), rgba(33, 37, 43, 64));
}

#[test]
fn multiply_alpha_rounds_to_nearest() {
    assert_eq!(rgba(1, 2, 3, 200).multiply_alpha(128), rgba(1, 2, 3, 100));
    assert_eq!(rgba(1, 2, 3, 255).multiply_alpha(1), rgba(1, 2, 3, 1));
    assert_eq!(rgba(1, 2, 3, 3).multiply_alpha(128), rgba(1, 2, 3, 2));
    assert_eq!(rgba(1, 2, 3, 1).multiply_alpha(128), rgba(1, 2, 3, 1));
    assert_eq!(rgba(1, 2, 3, 0).multiply_alpha(255), rgba(1, 2, 3, 0));
}

#[test]
fn terminal_colors_come_from_the_theme() {
    let m = manager();
    assert_eq!(m.get_terminal_color(NamedColor::Red), rgba(205, 49, 49, 255));
    assert_eq!(m.get_terminal_color(NamedColor::Blue), rgba(0, 0, 0, 255));
    assert_eq!(m.get_terminal_color(NamedColor::DimRed), rgba(205, 49, 49, 170));
    assert_eq!(m.get_terminal_color(NamedColor::Cursor), rgba(0, 0, 0, 255));
}

#[test]
fn icons_resolve_in_the_active_icon_theme() {
    let m = manager();
    assert_eq!(m.icon("file"), Some("file.svg"));
    assert_eq!(m.icon("folder"), None);
}

#[test]
fn default_profile_by_os() {
    let m = manager();
    assert_eq!(m.default_profile("linux"), Some("bash"));
    assert_eq!(m.default_profile("windows"), None);
}

#[test]
fn plugin_configs_by_id() {
    let m = manager();
    let p = m.plugin_config("rust-analyzer").unwrap();
    assert_eq!(p.settings.len(), 1);
    assert!(m.plugin_config("other").is_none());
    assert_eq!(m.all_plugin_configs().len(), 1);
    assert!(!m.is_plugin_disabled("rust-analyzer"));
}

#[test]
fn editor_view_is_idempotent() {
    let mut m = manager();
    assert_eq!(
        m.update_setting("editor", "font-family", SettingValue::Text("'Fira Code', monospace".to_string())),
        Ok(())
    );
    assert_eq!(m.reload(), Ok(()));
    let a = m.editor_config_view();
    let b = m.editor_config_view();
    assert_eq!(format!("{:?}", a), format!("{:?}", b));
    assert_eq!(a.line_height, 23);
    assert_eq!(a.font_size, 13);
    assert_eq!(a.wrap_style, WrapStyle::EditorWidth);
    assert!(a.show_line_numbers);
    assert!(a.show_relative_line_numbers);
    assert!(a.show_indent_guides);
    assert_eq!(a.font_family.len(), 2);
    assert!(matches!(&a.font_family[0], FontFamily::Name(n) if n == "Fira Code"));
    assert!(matches!(a.font_family[1], FontFamily::Monospace));
}

#[test]
fn ui_theme_and_core_views() {
    let m = manager();
    let u = m.ui_config_view();
    assert_eq!(u.scale, 100);
    assert_eq!(u.header_height, 36);
    assert_eq!(u.palette_width, 500);
    assert!(matches!(u.font_family[0], FontFamily::SansSerif));
    let t = m.theme_config_view();
    assert_eq!(t.color_theme_name, "Lapce Dark");
    assert_eq!(t.icon_theme_name, "Lapce Codicons");
    let c = m.core_config_view();
    assert!(!c.modal);
    assert!(c.custom_titlebar);
    assert_eq!(c.color_theme, "Lapce Dark");
}

#[test]
fn dropdown_info_for_enumerations() {
    let info = dropdown_info("editor", "wrap-style").unwrap();
    assert_eq!(info.key, SettingKey::EditorWrapStyle);
    assert_eq!(info.items, vec!["none", "editor-width", "wrap-column"]);
    let info = manager().get_dropdown_info("ui", "tab-close-button").unwrap();
    assert_eq!(info.items, vec!["Left", "Right", "Off"]);
}

#[test]
fn dropdown_info_undeclared_is_none() {
    assert!(dropdown_info("editor", "no-such-key").is_none());
    assert!(dropdown_info("", "").is_none());
    assert!(dropdown_info("editor", "font-size").is_none());
}
