use vstd::prelude::*;

use std::sync::Arc;

use crate::color::{Color, NamedColor};
use crate::config::{
    reflects, setting_of, ConfigResources, CoreConfig, EditorConfig, LapceConfig, PluginConfig,
    TerminalConfig, TerminalProfile, UIConfig,
};
use crate::font::{parse_font_list, FontFamily};
use crate::settings::{TabCloseButton, TabSeparatorHeight, WrapStyle};
use crate::theme::{ColorThemeConfig, IconThemeConfig};
use crate::traits::{
    ConfigManager, CoreConfigProvider, EditorConfigProvider, PluginConfigProvider,
    TerminalConfigProvider, ThemeConfigProvider, UIConfigProvider,
};
use crate::views::{editor_view_of, ui_view_of, CoreConfigView, EditorConfigView, ThemeConfigView, UIConfigView};
use crate::settings::{key_of, SettingKey, SettingValue};
use crate::store::{effective, entries_valid, lemma_without_lookup, lemma_without_valid, without, SettingsStore, StoreEntry};

verus! {

/// Why a setting could not be written or the configuration not reloaded.
#[derive(Clone, Copy, Debug, PartialEq, Eq, Structural)]
pub enum SettingError {
    /// The path `(domain, key)` is not in the schema.
    SettingNotFound,
    /// The path exists but users may not set it.
    ReadOnly,
    /// The store refused the value.
    WriteFailed,
    /// No snapshot could be derived from the store; the previous one stays.
    ReloadFailed,
}

/// The legal choices of a setting that a settings UI offers as a dropdown.
#[derive(Debug)]
pub struct DropdownInfo {
    pub key: SettingKey,
    pub items: Vec<String>,
}

/// The labels a dropdown offers for `k`, if `k` is an enumeration.
pub open spec fn dropdown_items(k: SettingKey) -> Option<Seq<Seq<char>>> {
    match k {
        SettingKey::EditorWrapStyle => Some(seq!["none"@, "editor-width"@, "wrap-column"@]),
        SettingKey::UiTabSeparatorHeight => Some(seq!["Content"@, "Full"@]),
        SettingKey::UiTabCloseButton => Some(seq!["Left"@, "Right"@, "Off"@]),
        _ => None,
    }
}

pub open spec fn labels(v: Seq<String>) -> Seq<Seq<char>> {
    v.map_values(|s: String| s@)
}

fn labels_of(items: &[&str]) -> (r: Vec<String>)
    ensures
        labels(r@) == items@.map_values(|s: &str| s@),
{
    let mut out: Vec<String> = Vec::new();
    let mut i: usize = 0;
    while i < items.len()
        invariant
            i <= items@.len(),
            labels(out@) == items@.subrange(0, i as int).map_values(|s: &str| s@),
        decreases items@.len() - i,
    {
        let ghost before = out@;
        let label = String::from_str(items[i]);
        out.push(label);
        assert(labels(out@) =~= labels(before).push(items@[i as int]@));
        assert(items@.subrange(0, i as int + 1).map_values(|s: &str| s@) =~= items@.subrange(
            0,
            i as int,
        ).map_values(|s: &str| s@).push(items@[i as int]@));
        i = i + 1;
    }
    assert(items@.subrange(0, i as int) =~= items@);
    out
}

/// The dropdown of the setting at `(domain, key)`, if it is a declared enumeration.
pub fn dropdown_info(domain: &str, key: &str) -> (r: Option<DropdownInfo>)
    ensures
        match r {
            Some(info) => key_of(domain@, key@) == Some(info.key) && dropdown_items(info.key) == Some(
                labels(info.items@),
            ),
            None => match key_of(domain@, key@) {
                Some(k) => dropdown_items(k) is None,
                None => true,
            },
        },
{
    match SettingKey::parse(domain, key) {
        Some(k) => {
            let items: Option<Vec<String>> = match k {
                SettingKey::EditorWrapStyle => {
                    let l = ["none", "editor-width", "wrap-column"];
                    let v = labels_of(&l);
                    assert(l@.map_values(|s: &str| s@) =~= seq!["none"@, "editor-width"@, "wrap-column"@]);
                    Some(v)
                },
                SettingKey::UiTabSeparatorHeight => {
                    let l = ["Content", "Full"];
                    let v = labels_of(&l);
                    assert(l@.map_values(|s: &str| s@) =~= seq!["Content"@, "Full"@]);
                    Some(v)
                },
                SettingKey::UiTabCloseButton => {
                    let l = ["Left", "Right", "Off"];
                    let v = labels_of(&l);
                    assert(l@.map_values(|s: &str| s@) =~= seq!["Left"@, "Right"@, "Off"@]);
                    Some(v)
                },
                _ => None,
            };
            match items {
                Some(items) => Some(DropdownInfo { key: k, items }),
                None => None,
            }
        },
        None => None,
    }
}

/// Relies on `Arc::clone`: the new handle points to the same value.
#[verifier::external_body]
fn share<T>(a: &Arc<T>) -> (r: Arc<T>)
    ensures
        *r == **a,
{
    Arc::clone(a)
}

/// Owns the current configuration snapshot and the store of user overrides.
///
/// Writes go to the store; a reload derives a fresh snapshot from it and
/// publishes it with the next id. A published snapshot never changes.
#[derive(Debug)]
pub struct LapceConfigManager {
    config: Arc<LapceConfig>,
    store: SettingsStore,
}

impl LapceConfigManager {
    /// The snapshot that is current.
    pub closed spec fn spec_config(&self) -> LapceConfig {
        *self.config
    }

    /// The overrides that the next reload derives a snapshot from.
    pub closed spec fn spec_store(&self) -> Seq<StoreEntry> {
        self.store.entries@
    }

    /// The current snapshot is well formed.
    pub open spec fn wf(&self) -> bool {
        self.spec_config().wf()
    }

    /// A manager around `config`, with no user overrides.
    pub fn new(config: Arc<LapceConfig>) -> (r: Self)
        requires
            config.wf(),
        ensures
            r.wf(),
            r.spec_config() == *config,
            r.spec_store().len() == 0,
    {
        LapceConfigManager { config, store: SettingsStore::new() }
    }

    /// A manager whose first snapshot (id 0) is derived from `store`; a store
    /// that the schema refuses leaves every setting at its default until it
    /// is mended.
    pub fn load(store: SettingsStore, resources: ConfigResources) -> (r: Self)
        requires
            resources.wf(),
        ensures
            r.wf(),
            r.spec_config().id == 0,
            *r.spec_config().resources == resources,
            r.spec_store() == store.entries@,
            entries_valid(store.entries@) ==> reflects(r.spec_config(), store.entries@),
            !entries_valid(store.entries@) ==> reflects(r.spec_config(), Seq::<StoreEntry>::empty()),
    {
        let res = Arc::new(resources);
        let config = if store.is_valid() {
            LapceConfig::from_store(0, &store, res)
        } else {
            let defaults = SettingsStore::new();
            assert(entries_valid(defaults.entries@));
            LapceConfig::from_store(0, &defaults, res)
        };
        LapceConfigManager { config: Arc::new(config), store }
    }

    /// The snapshot that is current.
    pub fn current(&self) -> (r: &LapceConfig)
        ensures
            *r == self.spec_config(),
    {
        &*self.config
    }

    /// The handle of the current snapshot, for backward compatibility.
    pub fn inner(&self) -> (r: &Arc<LapceConfig>)
        ensures
            **r == self.spec_config(),
    {
        &self.config
    }

    /// A handle on the current snapshot that stays valid, and unchanged,
    /// across later reloads.
    pub fn snapshot(&self) -> (r: Arc<LapceConfig>)
        ensures
            *r == self.spec_config(),
    {
        share(&self.config)
    }

    /// The overrides that the next reload derives a snapshot from.
    pub fn store(&self) -> (r: &SettingsStore)
        ensures
            r.entries@ == self.spec_store(),
    {
        &self.store
    }

    /// Publishes `config` as the current snapshot. Its id must be above the
    /// current one, so that an unchanged id always means an unchanged snapshot.
    pub fn update_config(&mut self, config: Arc<LapceConfig>)
        requires
            config.wf(),
            config.id > old(self).spec_config().id,
        ensures
            final(self).spec_config().id == config.id,
            final(self).spec_config().id > old(self).spec_config().id,
            final(self).wf(),
            final(self).spec_config() == *config,
            final(self).spec_store() == old(self).spec_store(),
    {
        self.config = config;
    }

    /// A fresh editor view of the current snapshot.
    pub fn editor_config_view(&self) -> (r: EditorConfigView)
        ensures
            r@ == editor_view_of(self.spec_config()),
    {
        self.config.editor_view()
    }

    /// A fresh user-interface view of the current snapshot.
    pub fn ui_config_view(&self) -> (r: UIConfigView)
        ensures
            r@ == ui_view_of(self.spec_config()),
    {
        self.config.ui_view()
    }

    /// A fresh theme view of the current snapshot.
    pub fn theme_config_view(&self) -> (r: ThemeConfigView)
        ensures
            r.color_theme_name@ == self.spec_config().core.color_theme@,
            r.icon_theme_name@ == self.spec_config().core.icon_theme@,
    {
        self.config.theme_view()
    }

    /// A fresh core view of the current snapshot.
    pub fn core_config_view(&self) -> (r: CoreConfigView)
        ensures
            r.modal == self.spec_config().core.modal,
            r.color_theme@ == self.spec_config().core.color_theme@,
            r.icon_theme@ == self.spec_config().core.icon_theme@,
            r.custom_titlebar == self.spec_config().core.custom_titlebar,
            r.file_explorer_double_click == self.spec_config().core.file_explorer_double_click,
            r.auto_reload_plugin == self.spec_config().core.auto_reload_plugin,
    {
        self.config.core_view()
    }

    /// The id of the current snapshot.
    pub fn config_id(&self) -> (r: u64)
        ensures
            r == self.spec_config().id,
    {
        self.config.id
    }

    /// Writes `value` as the user's override of the setting at `(domain, key)`.
    /// The current snapshot is untouched until the next reload.
    pub fn update_setting(&mut self, domain: &str, key: &str, value: SettingValue) -> (r: Result<(), SettingError>)
        ensures
            match key_of(domain@, key@) {
                None => r == Err::<(), SettingError>(SettingError::SettingNotFound),
                Some(k) => if !k.spec_writable() {
                    r == Err::<(), SettingError>(SettingError::ReadOnly)
                } else if !k.spec_accepts(value@) {
                    r == Err::<(), SettingError>(SettingError::WriteFailed)
                } else {
                    r is Ok && final(self).spec_store() == without(old(self).spec_store(), k).push(
                        StoreEntry { key: k, value },
                    )
                },
            },
            final(self).spec_config() == old(self).spec_config(),
            r is Err ==> final(self).spec_store() == old(self).spec_store(),
    {
        match SettingKey::parse(domain, key) {
            None => Err(SettingError::SettingNotFound),
            Some(k) => {
                if !k.writable() {
                    Err(SettingError::ReadOnly)
                } else if !k.accepts(&value) {
                    Err(SettingError::WriteFailed)
                } else {
                    self.store.write(k, value);
                    Ok(())
                }
            },
        }
    }

    /// Removes the user's override of the setting at `(domain, key)`, so that
    /// the next reload gives it its default.
    pub fn reset_setting(&mut self, domain: &str, key: &str) -> (r: Result<(), SettingError>)
        ensures
            match key_of(domain@, key@) {
                None => r == Err::<(), SettingError>(SettingError::SettingNotFound),
                Some(k) => if !k.spec_writable() {
                    r == Err::<(), SettingError>(SettingError::ReadOnly)
                } else {
                    r is Ok && final(self).spec_store() == without(old(self).spec_store(), k)
                },
            },
            final(self).spec_config() == old(self).spec_config(),
            r is Err ==> final(self).spec_store() == old(self).spec_store(),
    {
        match SettingKey::parse(domain, key) {
            None => Err(SettingError::SettingNotFound),
            Some(k) => {
                if !k.writable() {
                    Err(SettingError::ReadOnly)
                } else {
                    self.store.remove(k);
                    Ok(())
                }
            },
        }
    }

    /// Derives a snapshot from the store and publishes it with the next id.
    /// All or nothing: when the store holds an entry that the schema refuses,
    /// or the ids are used up, nothing changes. (The resources of a
    /// well-formed snapshot are always keyed uniquely.)
    pub fn reload(&mut self) -> (r: Result<(), SettingError>)
        ensures
            r is Ok <==> (entries_valid(old(self).spec_store()) && old(self).spec_config().id < u64::MAX
                && old(self).spec_config().resources.wf()),
            old(self).wf() ==> final(self).wf(),
            r is Ok ==> final(self).spec_config().id == old(self).spec_config().id + 1
                && reflects(final(self).spec_config(), old(self).spec_store())
                && final(self).spec_config().resources == old(self).spec_config().resources
                && final(self).spec_store() == old(self).spec_store(),
            r is Err ==> r == Err::<(), SettingError>(SettingError::ReloadFailed) && *final(self)
                == *old(self),
    {
        if self.config.id == u64::MAX || !self.store.is_valid() || !self.config.resources.keys_unique() {
            return Err(SettingError::ReloadFailed);
        }
        let resources = share(&self.config.resources);
        let next = LapceConfig::from_store(self.config.id + 1, &self.store, resources);
        self.config = Arc::new(next);
        Ok(())
    }
}

impl CoreConfigProvider for LapceConfigManager {
    open spec fn core_source(&self) -> LapceConfig {
        self.spec_config()
    }

    fn modal(&self) -> (r: bool) {
        self.config.core.modal
    }

    fn color_theme(&self) -> (r: &str) {
        self.config.core.color_theme.as_str()
    }

    fn icon_theme(&self) -> (r: &str) {
        self.config.core.icon_theme.as_str()
    }

    fn custom_titlebar(&self) -> (r: bool) {
        self.config.core.custom_titlebar
    }

    fn file_explorer_double_click(&self) -> (r: bool) {
        self.config.core.file_explorer_double_click
    }

    fn auto_reload_plugin(&self) -> (r: bool) {
        self.config.core.auto_reload_plugin
    }

    fn core_config(&self) -> (r: &CoreConfig) {
        &self.config.core
    }
}

impl EditorConfigProvider for LapceConfigManager {
    open spec fn editor_source(&self) -> LapceConfig {
        self.spec_config()
    }

    fn line_height(&self) -> (r: usize) {
        self.config.editor.line_height
    }

    fn font_family(&self) -> (r: Vec<FontFamily>) {
        parse_font_list(self.config.editor.font_family.as_str())
    }

    fn font_size(&self) -> (r: usize) {
        self.config.editor.font_size
    }

    fn wrap_style(&self) -> (r: WrapStyle) {
        self.config.editor.wrap_style
    }

    fn tab_width(&self) -> (r: usize) {
        self.config.editor.tab_width
    }

    fn show_line_numbers(&self) -> (r: bool) {
        self.config.editor.show_line_numbers
    }

    fn show_relative_line_numbers(&self) -> (r: bool) {
        self.config.editor.modal_mode_relative_line_numbers
    }

    fn show_indent_guides(&self) -> (r: bool) {
        self.config.editor.show_indent_guide
    }

    fn editor_config(&self) -> (r: &EditorConfig) {
        &self.config.editor
    }
}

impl UIConfigProvider for LapceConfigManager {
    open spec fn ui_source(&self) -> LapceConfig {
        self.spec_config()
    }

    fn scale(&self) -> (r: usize) {
        self.config.ui.scale
    }

    fn font_family(&self) -> (r: Vec<FontFamily>) {
        parse_font_list(self.config.ui.font_family.as_str())
    }

    fn font_size(&self) -> (r: usize) {
        self.config.ui.font_size
    }

    fn icon_size(&self) -> (r: usize) {
        self.config.ui.icon_size
    }

    fn header_height(&self) -> (r: usize) {
        self.config.ui.header_height
    }

    fn status_height(&self) -> (r: usize) {
        self.config.ui.status_height
    }

    fn tab_min_width(&self) -> (r: usize) {
        self.config.ui.tab_min_width
    }

    fn tab_separator_height(&self) -> (r: TabSeparatorHeight) {
        self.config.ui.tab_separator_height
    }

    fn scroll_width(&self) -> (r: usize) {
        self.config.ui.scroll_width
    }

    fn drop_shadow_width(&self) -> (r: usize) {
        self.config.ui.drop_shadow_width
    }

    fn palette_width(&self) -> (r: usize) {
        self.config.ui.palette_width
    }

    fn tab_close_button(&self) -> (r: TabCloseButton) {
        self.config.ui.tab_close_button
    }

    fn open_editors_visible(&self) -> (r: bool) {
        self.config.ui.open_editors_visible
    }

    fn trim_search_results_whitespace(&self) -> (r: bool) {
        self.config.ui.trim_search_results_whitespace
    }

    fn list_line_height(&self) -> (r: usize) {
        self.config.ui.list_line_height
    }

    fn ui_config(&self) -> (r: &UIConfig) {
        &self.config.ui
    }
}

impl ThemeConfigProvider for LapceConfigManager {
    open spec fn theme_source(&self) -> LapceConfig {
        self.spec_config()
    }

    fn color(&self, color: &str) -> (r: Color) {
        self.config.color(color)
    }

    fn color_with_alpha(&self, color: &str, alpha: u8) -> (r: Color) {
        self.config.color_with_alpha(color, alpha)
    }

    fn icon(&self, icon: &str) -> (r: Option<&str>) {
        self.config.icon_svg(icon)
    }

    fn available_color_themes(&self) -> (r: &Vec<ColorThemeConfig>) {
        &self.config.resources.color_themes
    }

    fn available_icon_themes(&self) -> (r: &Vec<IconThemeConfig>) {
        &self.config.resources.icon_themes
    }
}

impl TerminalConfigProvider for LapceConfigManager {
    open spec fn terminal_source(&self) -> LapceConfig {
        self.spec_config()
    }

    fn font_family(&self) -> (r: Vec<FontFamily>) {
        parse_font_list(self.config.terminal.font_family.as_str())
    }

    fn font_size(&self) -> (r: usize) {
        self.config.terminal.font_size
    }

    fn line_height(&self) -> (r: usize) {
        self.config.terminal.line_height
    }

    fn default_profile(&self, os: &str) -> (r: Option<&str>) {
        self.config.default_profile(os)
    }

    fn profiles(&self) -> (r: &Vec<TerminalProfile>) {
        &self.config.resources.profiles
    }

    fn get_terminal_color(&self, color: NamedColor) -> (r: Color) {
        self.config.terminal_color(color)
    }

    fn terminal_config(&self) -> (r: &TerminalConfig) {
        &self.config.terminal
    }
}

impl PluginConfigProvider for LapceConfigManager {
    open spec fn plugin_source(&self) -> LapceConfig {
        self.spec_config()
    }

    fn plugin_config(&self, plugin_id: &str) -> (r: Option<&PluginConfig>) {
        self.config.plugin_config(plugin_id)
    }

    fn all_plugin_configs(&self) -> (r: &Vec<PluginConfig>) {
        &self.config.resources.plugins
    }

    fn is_plugin_disabled(&self, plugin_id: &str) -> (r: bool) {
        false
    }
}

impl ConfigManager for LapceConfigManager {
    open spec fn current_source(&self) -> LapceConfig {
        self.spec_config()
    }

    open spec fn pending_overrides(&self) -> Seq<StoreEntry> {
        self.spec_store()
    }

    fn config_id(&self) -> (r: u64) {
        LapceConfigManager::config_id(self)
    }

    fn get_dropdown_info(&self, kind: &str, key: &str) -> (r: Option<DropdownInfo>) {
        dropdown_info(kind, key)
    }

    fn update_setting(&mut self, parent: &str, key: &str, value: SettingValue) -> (r: Result<(), SettingError>) {
        LapceConfigManager::update_setting(self, parent, key, value)
    }

    fn reset_setting(&mut self, parent: &str, key: &str) -> (r: Result<(), SettingError>) {
        LapceConfigManager::reset_setting(self, parent, key)
    }

    fn reload(&mut self) -> (r: Result<(), SettingError>) {
        LapceConfigManager::reload(self)
    }
}

/// A write that `update_setting` accepted is what the snapshot of the next
/// reload holds for that setting, and that reload finds the store valid.
pub proof fn lemma_update_then_reload(s: Seq<StoreEntry>, k: SettingKey, value: SettingValue, c: LapceConfig)
    requires
        entries_valid(s),
        k.spec_writable(),
        k.spec_accepts(value@),
        reflects(c, without(s, k).push(StoreEntry { key: k, value })),
    ensures
        entries_valid(without(s, k).push(StoreEntry { key: k, value })),
        setting_of(c, k) == value@,
{
    let w = without(s, k).push(StoreEntry { key: k, value });
    lemma_without_valid(s, k);
    assert(w.drop_last() =~= without(s, k));
    assert(w.last() == w[w.len() - 1]);
    assert(entries_valid(w)) by {
        assert forall|i: int| 0 <= i < w.len() implies (#[trigger] w[i]).key.spec_writable()
            && w[i].key.spec_accepts(w[i].value@) by {
            if i < w.len() - 1 {
                assert(w[i] == without(s, k)[i]);
            }
        }
    }
    assert(setting_of(c, k) == effective(w, k));
}

/// After `reset_setting` of a setting, the snapshot of the next reload holds
/// the setting's documented default, and that reload finds the store valid.
pub proof fn lemma_reset_then_reload(s: Seq<StoreEntry>, k: SettingKey, c: LapceConfig)
    requires
        entries_valid(s),
        reflects(c, without(s, k)),
    ensures
        entries_valid(without(s, k)),
        setting_of(c, k) == k.spec_default(),
{
    lemma_without_valid(s, k);
    lemma_without_lookup(s, k, k);
    assert(setting_of(c, k) == effective(without(s, k), k));
}

} // verus!
