use lapce_app::font::{parse_font_list, FontFamily};
use lapce_app::settings::{SettingKey, TabSeparatorHeight, WrapStyle};

#[test]
fn font_list_trims_quotes_and_skips_blanks() {
    let f = parse_font_list(" \"JetBrains Mono\" , , serif,cursive ,fantasy,'x'");
    assert_eq!(f.len(), 5);
    assert!(matches!(&f[0], FontFamily::Name(n) if n == "JetBrains Mono"));
    assert!(matches!(f[1], FontFamily::Serif));
    assert!(matches!(f[2], FontFamily::Cursive));
    assert!(matches!(f[3], FontFamily::Fantasy));
    assert!(matches!(&f[4], FontFamily::Name(n) if n == "x"));
}

#[test]
fn font_list_of_empty_text_is_empty() {
    assert!(parse_font_list("").is_empty());
    assert!(parse_font_list(" , ,").is_empty());
}

#[test]
fn setting_paths_resolve() {
    assert_eq!(SettingKey::parse("ui", "scale"), Some(SettingKey::UiScale));
    assert_eq!(SettingKey::parse("terminal", "font-size"), Some(SettingKey::TerminalFontSize));
    assert_eq!(SettingKey::parse("terminal", "scale"), None);
}

#[test]
fn labels_round_trip() {
    assert_eq!(WrapStyle::from_label("none"), Some(WrapStyle::NoWrap));
    assert_eq!(WrapStyle::NoWrap.label(), "none");
    assert_eq!(TabSeparatorHeight::from_label("Full"), Some(TabSeparatorHeight::Full));
    assert_eq!(TabSeparatorHeight::from_label("full"), None);
}
