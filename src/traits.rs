use vstd::prelude::*;

use crate::color::{with_alpha, Color, NamedColor};
use crate::config::{
    find_default_profile, find_plugin, resolve_icon_in, CoreConfig, EditorConfig, LapceConfig,
    PluginConfig, TerminalConfig, TerminalProfile, UIConfig,
};
use crate::font::{font_list, FontFamily};
use crate::manager::{dropdown_items, labels, DropdownInfo, SettingError};
use crate::settings::{key_of, SettingValue, TabCloseButton, TabSeparatorHeight, WrapStyle};
use crate::store::{entries_valid, without, StoreEntry};
use crate::config::reflects;
use crate::theme::{ColorThemeConfig, IconThemeConfig};

verus! {

/// Read access to the application-wide settings.
pub trait CoreConfigProvider {
    /// The snapshot the accessors read.
    spec fn core_source(&self) -> LapceConfig;

    fn modal(&self) -> (r: bool)
        ensures
            r == self.core_source().core.modal,
    ;

    fn color_theme(&self) -> (r: &str)
        ensures
            r@ == self.core_source().core.color_theme@,
    ;

    fn icon_theme(&self) -> (r: &str)
        ensures
            r@ == self.core_source().core.icon_theme@,
    ;

    fn custom_titlebar(&self) -> (r: bool)
        ensures
            r == self.core_source().core.custom_titlebar,
    ;

    fn file_explorer_double_click(&self) -> (r: bool)
        ensures
            r == self.core_source().core.file_explorer_double_click,
    ;

    fn auto_reload_plugin(&self) -> (r: bool)
        ensures
            r == self.core_source().core.auto_reload_plugin,
    ;

    fn core_config(&self) -> (r: &CoreConfig)
        ensures
            *r == self.core_source().core,
    ;
}

/// Read access to the editor settings.
pub trait EditorConfigProvider {
    /// The snapshot the accessors read.
    spec fn editor_source(&self) -> LapceConfig;

    fn line_height(&self) -> (r: usize)
        ensures
            r == self.editor_source().editor.line_height,
    ;

    fn font_family(&self) -> (r: Vec<FontFamily>)
        ensures
            r@.map_values(|f: FontFamily| f@) == font_list(self.editor_source().editor.font_family@),
    ;

    fn font_size(&self) -> (r: usize)
        ensures
            r == self.editor_source().editor.font_size,
    ;

    fn wrap_style(&self) -> (r: WrapStyle)
        ensures
            r == self.editor_source().editor.wrap_style,
    ;

    fn tab_width(&self) -> (r: usize)
        ensures
            r == self.editor_source().editor.tab_width,
    ;

    fn show_line_numbers(&self) -> (r: bool)
        ensures
            r == self.editor_source().editor.show_line_numbers,
    ;

    fn show_relative_line_numbers(&self) -> (r: bool)
        ensures
            r == self.editor_source().editor.modal_mode_relative_line_numbers,
    ;

    fn show_indent_guides(&self) -> (r: bool)
        ensures
            r == self.editor_source().editor.show_indent_guide,
    ;

    fn editor_config(&self) -> (r: &EditorConfig)
        ensures
            *r == self.editor_source().editor,
    ;
}

/// Read access to the user-interface settings.
pub trait UIConfigProvider {
    /// The snapshot the accessors read.
    spec fn ui_source(&self) -> LapceConfig;

    /// The scale factor in percent (100 is 1.0); above 0 in a well-formed snapshot.
    fn scale(&self) -> (r: usize)
        ensures
            r == self.ui_source().ui.scale,
    ;

    fn font_family(&self) -> (r: Vec<FontFamily>)
        ensures
            r@.map_values(|f: FontFamily| f@) == font_list(self.ui_source().ui.font_family@),
    ;

    fn font_size(&self) -> (r: usize)
        ensures
            r == self.ui_source().ui.font_size,
    ;

    fn icon_size(&self) -> (r: usize)
        ensures
            r == self.ui_source().ui.icon_size,
    ;

    fn header_height(&self) -> (r: usize)
        ensures
            r == self.ui_source().ui.header_height,
    ;

    fn status_height(&self) -> (r: usize)
        ensures
            r == self.ui_source().ui.status_height,
    ;

    fn tab_min_width(&self) -> (r: usize)
        ensures
            r == self.ui_source().ui.tab_min_width,
    ;

    fn tab_separator_height(&self) -> (r: TabSeparatorHeight)
        ensures
            r == self.ui_source().ui.tab_separator_height,
    ;

    fn scroll_width(&self) -> (r: usize)
        ensures
            r == self.ui_source().ui.scroll_width,
    ;

    fn drop_shadow_width(&self) -> (r: usize)
        ensures
            r == self.ui_source().ui.drop_shadow_width,
    ;

    fn palette_width(&self) -> (r: usize)
        ensures
            r == self.ui_source().ui.palette_width,
    ;

    fn tab_close_button(&self) -> (r: TabCloseButton)
        ensures
            r == self.ui_source().ui.tab_close_button,
    ;

    fn open_editors_visible(&self) -> (r: bool)
        ensures
            r == self.ui_source().ui.open_editors_visible,
    ;

    fn trim_search_results_whitespace(&self) -> (r: bool)
        ensures
            r == self.ui_source().ui.trim_search_results_whitespace,
    ;

    fn list_line_height(&self) -> (r: usize)
        ensures
            r == self.ui_source().ui.list_line_height,
    ;

    fn ui_config(&self) -> (r: &UIConfig)
        ensures
            *r == self.ui_source().ui,
    ;
}

/// Color and icon resolution against the active themes.
pub trait ThemeConfigProvider {
    /// The snapshot the accessors read.
    spec fn theme_source(&self) -> LapceConfig;

    /// Resolves a symbolic color name; total, with a fallback for unknown names.
    fn color(&self, color: &str) -> (r: Color)
        ensures
            r == self.theme_source().spec_color(color@),
    ;

    /// Resolves a color and multiplies its alpha channel by `alpha / 255`.
    fn color_with_alpha(&self, color: &str, alpha: u8) -> (r: Color)
        ensures
            r == with_alpha(self.theme_source().spec_color(color@), alpha),
            alpha == 0 ==> r.a == 0,
            alpha == 255 ==> r == self.theme_source().spec_color(color@),
    ;

    /// The source of icon `icon` in the active icon theme, if it declares one.
    fn icon(&self, icon: &str) -> (r: Option<&str>)
        ensures
            match r {
                Some(s) => resolve_icon_in(
                    self.theme_source().resources.icon_themes@,
                    self.theme_source().core.icon_theme@,
                    icon@,
                ) == Some(s@),
                None => resolve_icon_in(
                    self.theme_source().resources.icon_themes@,
                    self.theme_source().core.icon_theme@,
                    icon@,
                ) is None,
            },
    ;

    fn available_color_themes(&self) -> (r: &Vec<ColorThemeConfig>)
        ensures
            r@ == self.theme_source().resources.color_themes@,
    ;

    fn available_icon_themes(&self) -> (r: &Vec<IconThemeConfig>)
        ensures
            r@ == self.theme_source().resources.icon_themes@,
    ;
}

/// Read access to the terminal settings.
pub trait TerminalConfigProvider {
    /// The snapshot the accessors read.
    spec fn terminal_source(&self) -> LapceConfig;

    fn font_family(&self) -> (r: Vec<FontFamily>)
        ensures
            r@.map_values(|f: FontFamily| f@) == font_list(
                self.terminal_source().terminal.font_family@,
            ),
    ;

    fn font_size(&self) -> (r: usize)
        ensures
            r == self.terminal_source().terminal.font_size,
    ;

    fn line_height(&self) -> (r: usize)
        ensures
            r == self.terminal_source().terminal.line_height,
    ;

    /// The default profile for operating system `os`, if one is set.
    fn default_profile(&self, os: &str) -> (r: Option<&str>)
        ensures
            match r {
                Some(s) => find_default_profile(self.terminal_source().resources.default_profiles@, os@)
                    == Some(s@),
                None => find_default_profile(
                    self.terminal_source().resources.default_profiles@,
                    os@,
                ) is None,
            },
    ;

    fn profiles(&self) -> (r: &Vec<TerminalProfile>)
        ensures
            r@ == self.terminal_source().resources.profiles@,
    ;

    /// The color the active theme gives the ANSI color `color`.
    fn get_terminal_color(&self, color: NamedColor) -> (r: Color)
        ensures
            r == with_alpha(self.terminal_source().spec_color(color.spec_theme_key()), color.spec_alpha()),
    ;

    fn terminal_config(&self) -> (r: &TerminalConfig)
        ensures
            *r == self.terminal_source().terminal,
    ;
}

/// Read access to plugin configuration.
pub trait PluginConfigProvider {
    /// The snapshot the accessors read.
    spec fn plugin_source(&self) -> LapceConfig;

    fn plugin_config(&self, plugin_id: &str) -> (r: Option<&PluginConfig>)
        ensures
            match r {
                Some(p) => find_plugin(self.plugin_source().resources.plugins@, plugin_id@) matches Some(
                    i,
                ) && *p == self.plugin_source().resources.plugins@[i],
                None => find_plugin(self.plugin_source().resources.plugins@, plugin_id@) is None,
            },
    ;

    fn all_plugin_configs(&self) -> (r: &Vec<PluginConfig>)
        ensures
            r@ == self.plugin_source().resources.plugins@,
    ;

    /// Whether plugin `plugin_id` is disabled; no plugin is, until a plugin
    /// registry decides.
    fn is_plugin_disabled(&self, plugin_id: &str) -> (r: bool)
        ensures
            !r,
    ;
}

/// The configuration manager: every capability, plus change detection,
/// settings introspection and write-through of settings.
pub trait ConfigManager:
    CoreConfigProvider + EditorConfigProvider + UIConfigProvider + ThemeConfigProvider
        + TerminalConfigProvider + PluginConfigProvider {
    /// The snapshot that is current.
    spec fn current_source(&self) -> LapceConfig;

    /// The overrides that the next reload derives a snapshot from.
    spec fn pending_overrides(&self) -> Seq<StoreEntry>;

    /// The id of the current snapshot, for change detection.
    fn config_id(&self) -> (r: u64)
        ensures
            r == self.current_source().id,
    ;

    /// The dropdown of the setting at `(kind, key)`, if it is a declared enumeration.
    fn get_dropdown_info(&self, kind: &str, key: &str) -> (r: Option<DropdownInfo>)
        ensures
            match r {
                Some(info) => key_of(kind@, key@) == Some(info.key) && dropdown_items(info.key)
                    == Some(labels(info.items@)),
                None => match key_of(kind@, key@) {
                    Some(k) => dropdown_items(k) is None,
                    None => true,
                },
            },
    ;

    /// Writes the user's override of the setting at `(parent, key)`.
    fn update_setting(&mut self, parent: &str, key: &str, value: SettingValue) -> (r: Result<(), SettingError>)
        ensures
            match key_of(parent@, key@) {
                None => r == Err::<(), SettingError>(SettingError::SettingNotFound),
                Some(k) => if !k.spec_writable() {
                    r == Err::<(), SettingError>(SettingError::ReadOnly)
                } else if !k.spec_accepts(value@) {
                    r == Err::<(), SettingError>(SettingError::WriteFailed)
                } else {
                    r is Ok && final(self).pending_overrides() == without(old(self).pending_overrides(), k).push(
                        StoreEntry { key: k, value },
                    )
                },
            },
            final(self).current_source() == old(self).current_source(),
            r is Err ==> final(self).pending_overrides() == old(self).pending_overrides(),
    ;

    /// Removes the user's override of the setting at `(parent, key)`.
    fn reset_setting(&mut self, parent: &str, key: &str) -> (r: Result<(), SettingError>)
        ensures
            match key_of(parent@, key@) {
                None => r == Err::<(), SettingError>(SettingError::SettingNotFound),
                Some(k) => if !k.spec_writable() {
                    r == Err::<(), SettingError>(SettingError::ReadOnly)
                } else {
                    r is Ok && final(self).pending_overrides() == without(old(self).pending_overrides(), k)
                },
            },
            final(self).current_source() == old(self).current_source(),
            r is Err ==> final(self).pending_overrides() == old(self).pending_overrides(),
    ;

    /// Derives a snapshot from the overrides and publishes it with the next id;
    /// all or nothing.
    fn reload(&mut self) -> (r: Result<(), SettingError>)
        ensures
            r is Ok <==> (entries_valid(old(self).pending_overrides()) && old(self).current_source().id
                < u64::MAX && old(self).current_source().resources.wf()),
            r is Ok ==> final(self).current_source().id == old(self).current_source().id + 1
                && reflects(final(self).current_source(), old(self).pending_overrides())
                && final(self).pending_overrides() == old(self).pending_overrides(),
            r is Err ==> r == Err::<(), SettingError>(SettingError::ReloadFailed)
                && final(self).current_source() == old(self).current_source()
                && final(self).pending_overrides() == old(self).pending_overrides(),
    ;
}

} // verus!
