use lapce_app::management::{ConfigManager, SettingsManager};
use lapce_app::services::{CommandService, CompletionService, DebugService, EditorService, SearchService};
use lapce_app::ui::{PanelPosition, PanelUiState, UiEvent, UiEventBus, WindowUiState};
use lapce_app::utils::{CommonUtils, FileUtils, StringUtils};

#[test]
fn clamp_holds_values_in_range() {
    assert_eq!(CommonUtils::clamp(5, 0, 10), 5);
    assert_eq!(CommonUtils::clamp(-3, 0, 10), 0);
    assert_eq!(CommonUtils::clamp(42, 0, 10), 10);
}

#[test]
fn ids_are_decimal() {
    assert_eq!(CommonUtils::id_from_nanos(0), "id_0");
    assert_eq!(CommonUtils::id_from_nanos(1234567890123), "id_1234567890123");
    let id = CommonUtils::generate_id();
    assert!(id.starts_with("id_"));
    assert!(id.len() > 3);
}

#[test]
fn truncate_cuts_with_ellipsis() {
    assert_eq!(StringUtils::truncate("hello world", 8), "hello...");
    assert_eq!(StringUtils::truncate("hello", 8), "hello");
    assert_eq!(StringUtils::truncate("hello", 5), "hello");
    assert_eq!(StringUtils::truncate("abcdef", 2), "...");
}

#[test]
fn truncate_counts_bytes() {
    assert_eq!(StringUtils::truncate("éé", 3), "...");
    assert_eq!(StringUtils::truncate("éé", 4), "éé");
    assert_eq!(StringUtils::truncate("aébcde", 6), "aé...");
}

#[test]
fn blank_strings() {
    assert!(StringUtils::is_blank(""));
    assert!(StringUtils::is_blank(" \t\n"));
    assert!(!StringUtils::is_blank("  a "));
    assert!(StringUtils::is_blank("\u{a0}\u{3000}\u{2028}"));
    assert!(!StringUtils::is_blank("\u{200b}"));
}

#[test]
fn camel_to_snake_lowercases() {
    assert_eq!(StringUtils::camel_to_snake("HelloWorld"), "helloworld");
}

#[test]
fn path_helpers() {
    assert_eq!(FileUtils::get_extension("src/Main.RS"), Some("rs".to_string()));
    assert_eq!(FileUtils::get_extension("Makefile"), None);
    assert!(FileUtils::is_hidden("/home/u/.git"));
    assert!(!FileUtils::is_hidden("/home/u/src"));
    assert_eq!(FileUtils::normalize_path("a/b"), "a/b");
    assert_eq!(FileUtils::get_relative_path("/a", "/a/b/c"), Some("b/c".to_string()));
    assert_eq!(FileUtils::get_relative_path("/x", "/a/b"), None);
}

#[test]
fn services_without_backends() {
    let c = CommandService::new();
    assert!(c.execute_command("open", &["a".to_string()]).is_ok());
    assert!(CompletionService::new().get_completions("fo", 2).is_empty());
    let d = DebugService::new();
    assert!(d.start_debug_session("bin").is_ok());
    assert!(d.set_breakpoint("main.rs", 3).is_ok());
    assert!(d.step().is_ok());
    let e = EditorService::new();
    assert!(e.insert_text("x", 0).is_ok());
    assert!(e.delete_text(0, 1).is_ok());
    assert_eq!(e.get_text(0, 1), "");
    assert!(e.format_text(0, 1).is_ok());
    let s = SearchService::new();
    assert!(s.global_search("q").is_empty());
    assert!(s.find_in_document("doc", "q").is_empty());
    let bus = UiEventBus::new();
    bus.emit(UiEvent::CommandExecuted { command: "x".to_string() });
}

#[test]
fn managers_without_persistence() {
    let mut m = SettingsManager::new();
    assert!(m.load_settings().is_ok());
    assert!(m.get_setting::<u32>("k").is_none());
    assert!(m.set_setting("k", 1u32).is_ok());
    let mut c = ConfigManager::new();
    assert!(c.load_config().is_ok());
    assert!(c.get::<bool>("k").is_none());
    assert!(c.set("k", true).is_ok());
}

#[test]
fn ui_state_defaults() {
    let w = WindowUiState::default();
    assert_eq!(w.size, (800, 600));
    assert!(!w.is_maximized);
    assert!(w.active_tab_id.is_none());
    let p = PanelUiState::default();
    assert!(!p.is_visible);
    assert_eq!(p.size, 200);
    assert_eq!(p.position, PanelPosition::Left);
}
