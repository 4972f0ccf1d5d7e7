use vstd::prelude::*;

use std::sync::Arc;

use crate::settings::{
    close_button_from_label, separator_from_label, wrap_style_from_label, SettingKey,
    SettingValue, SettingValueModel, TabCloseButton, TabSeparatorHeight, WrapStyle,
};
use crate::store::{effective, entries_valid, lookup, SettingsStore, StoreEntry};
use crate::color::{with_alpha, Color, NamedColor};
use crate::text::str_eq;
use crate::theme::{
    find_icon, find_icon_theme, lookup_icon, lookup_icon_theme, resolve_color, resolve_color_in,
    ColorThemeConfig, IconThemeConfig,
};

verus! {

/// Application-wide settings.
#[derive(Debug)]
pub struct CoreConfig {
    pub modal: bool,
    pub color_theme: String,
    pub icon_theme: String,
    pub custom_titlebar: bool,
    pub file_explorer_double_click: bool,
    pub auto_reload_plugin: bool,
}

/// Settings of the text editor.
#[derive(Debug)]
pub struct EditorConfig {
    pub font_family: String,
    pub font_size: usize,
    pub line_height: usize,
    pub wrap_style: WrapStyle,
    pub tab_width: usize,
    pub show_line_numbers: bool,
    pub modal_mode_relative_line_numbers: bool,
    pub show_indent_guide: bool,
}

/// Settings of the user interface; `scale` is in percent (100 is 1.0).
#[derive(Debug)]
pub struct UIConfig {
    pub scale: usize,
    pub font_family: String,
    pub font_size: usize,
    pub icon_size: usize,
    pub header_height: usize,
    pub status_height: usize,
    pub tab_min_width: usize,
    pub tab_separator_height: TabSeparatorHeight,
    pub scroll_width: usize,
    pub drop_shadow_width: usize,
    pub palette_width: usize,
    pub tab_close_button: TabCloseButton,
    pub open_editors_visible: bool,
    pub trim_search_results_whitespace: bool,
    pub list_line_height: usize,
}

/// Settings of the integrated terminal.
#[derive(Debug)]
pub struct TerminalConfig {
    pub font_family: String,
    pub font_size: usize,
    pub line_height: usize,
}

/// A dynamically typed value of plugin or terminal-profile configuration.
#[derive(Debug)]
pub enum ConfigValue {
    Bool(bool),
    Number(i64),
    Str(String),
    Array(Vec<ConfigValue>),
    Table(Vec<ConfigEntry>),
}

/// A key of a configuration map and its value.
#[derive(Debug)]
pub struct ConfigEntry {
    pub key: String,
    pub value: ConfigValue,
}

/// The configuration of one plugin.
#[derive(Debug)]
pub struct PluginConfig {
    pub id: String,
    pub settings: Vec<ConfigEntry>,
}

/// A terminal profile: a named shell setup.
#[derive(Debug)]
pub struct TerminalProfile {
    pub name: String,
    pub settings: Vec<ConfigEntry>,
}

/// The profile that a terminal opens with by default on one operating system.
#[derive(Debug)]
pub struct OsProfile {
    pub os: String,
    pub profile: String,
}

/// What a snapshot holds besides the schema's settings: the themes that can
/// be chosen, plugin configuration and terminal profiles. It is shared,
/// unchanged, by the snapshots that reloads derive from one another. Each
/// list is a map: its keys (theme names, plugin ids, profile names, operating
/// systems) are unique (see `wf`).
#[derive(Debug)]
pub struct ConfigResources {
    pub color_themes: Vec<ColorThemeConfig>,
    pub icon_themes: Vec<IconThemeConfig>,
    pub plugins: Vec<PluginConfig>,
    pub profiles: Vec<TerminalProfile>,
    pub default_profiles: Vec<OsProfile>,
}

/// No two entries of `s` are equal.
pub open spec fn names_unique(s: Seq<Seq<char>>) -> bool {
    forall|i: int, j: int| 0 <= i < j < s.len() ==> s[i] != s[j]
}

/// Whether the texts of `names` are pairwise different.
fn all_distinct(names: &Vec<&str>) -> (r: bool)
    ensures
        r == names_unique(names@.map_values(|n: &str| n@)),
{
    let ghost v = names@.map_values(|n: &str| n@);
    let mut i: usize = 0;
    while i < names.len()
        invariant
            v == names@.map_values(|n: &str| n@),
            i <= names@.len(),
            forall|a: int, b: int| 0 <= a < b < i ==> v[a] != v[b],
        decreases names@.len() - i,
    {
        let mut j: usize = 0;
        while j < i
            invariant
                v == names@.map_values(|n: &str| n@),
                j <= i < names@.len(),
                forall|a: int, b: int| 0 <= a < b < i ==> v[a] != v[b],
                forall|a: int| 0 <= a < j ==> v[a] != v[i as int],
            decreases i - j,
        {
            if str_eq(names[j], names[i]) {
                assert(!names_unique(v)) by {
                    assert(v[j as int] == v[i as int]);
                }
                return false;
            }
            j = j + 1;
        }
        i = i + 1;
    }
    true
}

impl ConfigResources {
    pub open spec fn color_theme_names(&self) -> Seq<Seq<char>> {
        self.color_themes@.map_values(|t: ColorThemeConfig| t.name@)
    }

    pub open spec fn icon_theme_names(&self) -> Seq<Seq<char>> {
        self.icon_themes@.map_values(|t: IconThemeConfig| t.name@)
    }

    pub open spec fn plugin_ids(&self) -> Seq<Seq<char>> {
        self.plugins@.map_values(|p: PluginConfig| p.id@)
    }

    pub open spec fn profile_names(&self) -> Seq<Seq<char>> {
        self.profiles@.map_values(|p: TerminalProfile| p.name@)
    }

    pub open spec fn profile_systems(&self) -> Seq<Seq<char>> {
        self.default_profiles@.map_values(|d: OsProfile| d.os@)
    }

    /// Every list is keyed uniquely.
    pub open spec fn wf(&self) -> bool {
        names_unique(self.color_theme_names()) && names_unique(self.icon_theme_names())
            && names_unique(self.plugin_ids()) && names_unique(self.profile_names())
            && names_unique(self.profile_systems())
    }

    /// Whether every list is keyed uniquely.
    pub fn keys_unique(&self) -> (r: bool)
        ensures
            r == self.wf(),
    {
        let mut names: Vec<&str> = Vec::new();
        let mut i: usize = 0;
        while i < self.color_themes.len()
            invariant
                i <= self.color_themes@.len(),
                names@.map_values(|n: &str| n@) == self.color_theme_names().subrange(0, i as int),
            decreases self.color_themes@.len() - i,
        {
            let ghost before = names@;
            let n = self.color_themes[i].name.as_str();
            names.push(n);
            assert(names@.map_values(|n: &str| n@) =~= before.map_values(|n: &str| n@).push(n@));
            assert(self.color_theme_names().subrange(0, i as int + 1) =~= self.color_theme_names().subrange(
                0,
                i as int,
            ).push(n@));
            i = i + 1;
        }
        assert(self.color_theme_names().subrange(0, i as int) =~= self.color_theme_names());
        if !all_distinct(&names) {
            return false;
        }
        let mut names: Vec<&str> = Vec::new();
        let mut i: usize = 0;
        while i < self.icon_themes.len()
            invariant
                i <= self.icon_themes@.len(),
                names@.map_values(|n: &str| n@) == self.icon_theme_names().subrange(0, i as int),
            decreases self.icon_themes@.len() - i,
        {
            let ghost before = names@;
            let n = self.icon_themes[i].name.as_str();
            names.push(n);
            assert(names@.map_values(|n: &str| n@) =~= before.map_values(|n: &str| n@).push(n@));
            assert(self.icon_theme_names().subrange(0, i as int + 1) =~= self.icon_theme_names().subrange(
                0,
                i as int,
            ).push(n@));
            i = i + 1;
        }
        assert(self.icon_theme_names().subrange(0, i as int) =~= self.icon_theme_names());
        if !all_distinct(&names) {
            return false;
        }
        let mut names: Vec<&str> = Vec::new();
        let mut i: usize = 0;
        while i < self.plugins.len()
            invariant
                i <= self.plugins@.len(),
                names@.map_values(|n: &str| n@) == self.plugin_ids().subrange(0, i as int),
            decreases self.plugins@.len() - i,
        {
            let ghost before = names@;
            let n = self.plugins[i].id.as_str();
            names.push(n);
            assert(names@.map_values(|n: &str| n@) =~= before.map_values(|n: &str| n@).push(n@));
            assert(self.plugin_ids().subrange(0, i as int + 1) =~= self.plugin_ids().subrange(
                0,
                i as int,
            ).push(n@));
            i = i + 1;
        }
        assert(self.plugin_ids().subrange(0, i as int) =~= self.plugin_ids());
        if !all_distinct(&names) {
            return false;
        }
        let mut names: Vec<&str> = Vec::new();
        let mut i: usize = 0;
        while i < self.profiles.len()
            invariant
                i <= self.profiles@.len(),
                names@.map_values(|n: &str| n@) == self.profile_names().subrange(0, i as int),
            decreases self.profiles@.len() - i,
        {
            let ghost before = names@;
            let n = self.profiles[i].name.as_str();
            names.push(n);
            assert(names@.map_values(|n: &str| n@) =~= before.map_values(|n: &str| n@).push(n@));
            assert(self.profile_names().subrange(0, i as int + 1) =~= self.profile_names().subrange(
                0,
                i as int,
            ).push(n@));
            i = i + 1;
        }
        assert(self.profile_names().subrange(0, i as int) =~= self.profile_names());
        if !all_distinct(&names) {
            return false;
        }
        let mut names: Vec<&str> = Vec::new();
        let mut i: usize = 0;
        while i < self.default_profiles.len()
            invariant
                i <= self.default_profiles@.len(),
                names@.map_values(|n: &str| n@) == self.profile_systems().subrange(0, i as int),
            decreases self.default_profiles@.len() - i,
        {
            let ghost before = names@;
            let n = self.default_profiles[i].os.as_str();
            names.push(n);
            assert(names@.map_values(|n: &str| n@) =~= before.map_values(|n: &str| n@).push(n@));
            assert(self.profile_systems().subrange(0, i as int + 1) =~= self.profile_systems().subrange(
                0,
                i as int,
            ).push(n@));
            i = i + 1;
        }
        assert(self.profile_systems().subrange(0, i as int) =~= self.profile_systems());
        all_distinct(&names)
    }
}

/// An immutable, versioned configuration tree.
#[derive(Debug)]
pub struct LapceConfig {
    pub id: u64,
    pub core: CoreConfig,
    pub editor: EditorConfig,
    pub ui: UIConfig,
    pub terminal: TerminalConfig,
    pub resources: Arc<ConfigResources>,
}

/// The value that snapshot `c` holds for the setting `k`.
pub open spec fn setting_of(c: LapceConfig, k: SettingKey) -> SettingValueModel {
    match k {
        SettingKey::CoreModal => SettingValueModel::Bool(c.core.modal),
        SettingKey::CoreColorTheme => SettingValueModel::Text(c.core.color_theme@),
        SettingKey::CoreIconTheme => SettingValueModel::Text(c.core.icon_theme@),
        SettingKey::CoreCustomTitlebar => SettingValueModel::Bool(c.core.custom_titlebar),
        SettingKey::CoreFileExplorerDoubleClick => SettingValueModel::Bool(c.core.file_explorer_double_click),
        SettingKey::CoreAutoReloadPlugin => SettingValueModel::Bool(c.core.auto_reload_plugin),
        SettingKey::EditorFontFamily => SettingValueModel::Text(c.editor.font_family@),
        SettingKey::EditorFontSize => SettingValueModel::Int(c.editor.font_size),
        SettingKey::EditorLineHeight => SettingValueModel::Int(c.editor.line_height),
        SettingKey::EditorWrapStyle => SettingValueModel::Text(c.editor.wrap_style.spec_label()),
        SettingKey::EditorTabWidth => SettingValueModel::Int(c.editor.tab_width),
        SettingKey::EditorShowLineNumbers => SettingValueModel::Bool(c.editor.show_line_numbers),
        SettingKey::EditorRelativeLineNumbers => SettingValueModel::Bool(c.editor.modal_mode_relative_line_numbers),
        SettingKey::EditorShowIndentGuide => SettingValueModel::Bool(c.editor.show_indent_guide),
        SettingKey::UiScale => SettingValueModel::Int(c.ui.scale),
        SettingKey::UiFontFamily => SettingValueModel::Text(c.ui.font_family@),
        SettingKey::UiFontSize => SettingValueModel::Int(c.ui.font_size),
        SettingKey::UiIconSize => SettingValueModel::Int(c.ui.icon_size),
        SettingKey::UiHeaderHeight => SettingValueModel::Int(c.ui.header_height),
        SettingKey::UiStatusHeight => SettingValueModel::Int(c.ui.status_height),
        SettingKey::UiTabMinWidth => SettingValueModel::Int(c.ui.tab_min_width),
        SettingKey::UiTabSeparatorHeight => SettingValueModel::Text(c.ui.tab_separator_height.spec_label()),
        SettingKey::UiScrollWidth => SettingValueModel::Int(c.ui.scroll_width),
        SettingKey::UiDropShadowWidth => SettingValueModel::Int(c.ui.drop_shadow_width),
        SettingKey::UiPaletteWidth => SettingValueModel::Int(c.ui.palette_width),
        SettingKey::UiTabCloseButton => SettingValueModel::Text(c.ui.tab_close_button.spec_label()),
        SettingKey::UiOpenEditorsVisible => SettingValueModel::Bool(c.ui.open_editors_visible),
        SettingKey::UiTrimSearchResultsWhitespace => SettingValueModel::Bool(c.ui.trim_search_results_whitespace),
        SettingKey::UiListLineHeight => SettingValueModel::Int(c.ui.list_line_height),
        SettingKey::TerminalFontFamily => SettingValueModel::Text(c.terminal.font_family@),
        SettingKey::TerminalFontSize => SettingValueModel::Int(c.terminal.font_size),
        SettingKey::TerminalLineHeight => SettingValueModel::Int(c.terminal.line_height),
    }
}

impl LapceConfig {
    /// Every setting of the snapshot holds a legal value of it, and its
    /// resources are keyed uniquely.
    pub open spec fn wf(&self) -> bool {
        &&& forall|k: SettingKey| k.spec_accepts(#[trigger] setting_of(*self, k))
        &&& self.resources.wf()
    }
}

/// In a well-formed snapshot the sizes are positive; in particular the UI
/// scale factor is above 0.
pub proof fn lemma_wf_sizes_positive(c: LapceConfig)
    requires
        c.wf(),
    ensures
        c.ui.scale > 0,
        c.ui.font_size > 0,
        c.editor.font_size > 0,
        c.editor.line_height > 0,
        c.editor.tab_width > 0,
        c.terminal.font_size > 0,
{
    assert(SettingKey::UiScale.spec_accepts(setting_of(c, SettingKey::UiScale)));
    assert(SettingKey::UiFontSize.spec_accepts(setting_of(c, SettingKey::UiFontSize)));
    assert(SettingKey::EditorFontSize.spec_accepts(setting_of(c, SettingKey::EditorFontSize)));
    assert(SettingKey::EditorLineHeight.spec_accepts(setting_of(c, SettingKey::EditorLineHeight)));
    assert(SettingKey::EditorTabWidth.spec_accepts(setting_of(c, SettingKey::EditorTabWidth)));
    assert(SettingKey::TerminalFontSize.spec_accepts(setting_of(c, SettingKey::TerminalFontSize)));
}

/// `c` holds, for every setting, the value it takes under the overrides `s`.
pub open spec fn reflects(c: LapceConfig, s: Seq<StoreEntry>) -> bool {
    forall|k: SettingKey| #[trigger] setting_of(c, k) == effective(s, k)
}

proof fn lemma_lookup_accepted(s: Seq<StoreEntry>, k: SettingKey)
    requires
        entries_valid(s),
    ensures
        lookup(s, k) matches Some(v) ==> k.spec_accepts(v),
    decreases s.len(),
{
    if s.len() > 0 {
        assert(s.last() == s[s.len() - 1]);
        if s.last().key != k {
            assert(entries_valid(s.drop_last())) by {
                assert forall|i: int| 0 <= i < s.drop_last().len() implies (#[trigger] s.drop_last()[i]).key.spec_writable()
                    && s.drop_last()[i].key.spec_accepts(s.drop_last()[i].value@) by {
                    assert(s.drop_last()[i] == s[i]);
                }
            }
            lemma_lookup_accepted(s.drop_last(), k);
        }
    }
}

/// The value that a valid store gives a setting is a legal value of it.
pub proof fn lemma_effective_accepted(s: Seq<StoreEntry>, k: SettingKey)
    requires
        entries_valid(s),
    ensures
        k.spec_accepts(effective(s, k)),
{
    lemma_lookup_accepted(s, k);
}

fn take_bool(v: SettingValue) -> (r: bool)
    requires
        v@ is Bool,
    ensures
        v@ == SettingValueModel::Bool(r),
{
    match v {
        SettingValue::Bool(b) => b,
        _ => false,
    }
}

fn take_int(v: SettingValue) -> (r: usize)
    requires
        v@ is Int,
    ensures
        v@ == SettingValueModel::Int(r),
{
    match v {
        SettingValue::Int(n) => n,
        _ => 0,
    }
}

fn take_text(v: SettingValue) -> (r: String)
    requires
        v@ is Text,
    ensures
        v@ == SettingValueModel::Text(r@),
{
    match v {
        SettingValue::Text(s) => s,
        _ => String::new(),
    }
}

fn take_wrap_style(v: SettingValue) -> (r: WrapStyle)
    requires
        v@ matches SettingValueModel::Text(t) && wrap_style_from_label(t) is Some,
    ensures
        v@ == SettingValueModel::Text(r.spec_label()),
{
    match v {
        SettingValue::Text(s) => match WrapStyle::from_label(s.as_str()) {
            Some(w) => w,
            None => WrapStyle::EditorWidth,
        },
        _ => WrapStyle::EditorWidth,
    }
}

fn take_separator(v: SettingValue) -> (r: TabSeparatorHeight)
    requires
        v@ matches SettingValueModel::Text(t) && separator_from_label(t) is Some,
    ensures
        v@ == SettingValueModel::Text(r.spec_label()),
{
    match v {
        SettingValue::Text(s) => match TabSeparatorHeight::from_label(s.as_str()) {
            Some(h) => h,
            None => TabSeparatorHeight::Content,
        },
        _ => TabSeparatorHeight::Content,
    }
}

fn take_close_button(v: SettingValue) -> (r: TabCloseButton)
    requires
        v@ matches SettingValueModel::Text(t) && close_button_from_label(t) is Some,
    ensures
        v@ == SettingValueModel::Text(r.spec_label()),
{
    match v {
        SettingValue::Text(s) => match TabCloseButton::from_label(s.as_str()) {
            Some(b) => b,
            None => TabCloseButton::Right,
        },
        _ => TabCloseButton::Right,
    }
}

impl LapceConfig {
    /// Derives the snapshot `id` from the overrides of a valid store: every
    /// setting takes its override, or its default where it has none.
    #[verifier::rlimit(40)]
    pub fn from_store(id: u64, store: &SettingsStore, resources: Arc<ConfigResources>) -> (r: LapceConfig)
        requires
            entries_valid(store.entries@),
            resources.wf(),
        ensures
            r.id == id,
            r.resources == resources,
            reflects(r, store.entries@),
            r.wf(),
    {
        proof {
            lemma_effective_accepted(store.entries@, SettingKey::CoreModal);
        }
        let core_modal = take_bool(store.effective_value(SettingKey::CoreModal));
        proof {
            lemma_effective_accepted(store.entries@, SettingKey::CoreColorTheme);
        }
        let core_color_theme = take_text(store.effective_value(SettingKey::CoreColorTheme));
        proof {
            lemma_effective_accepted(store.entries@, SettingKey::CoreIconTheme);
        }
        let core_icon_theme = take_text(store.effective_value(SettingKey::CoreIconTheme));
        proof {
            lemma_effective_accepted(store.entries@, SettingKey::CoreCustomTitlebar);
        }
        let core_custom_titlebar = take_bool(store.effective_value(SettingKey::CoreCustomTitlebar));
        proof {
            lemma_effective_accepted(store.entries@, SettingKey::CoreFileExplorerDoubleClick);
        }
        let core_file_explorer_double_click = take_bool(store.effective_value(SettingKey::CoreFileExplorerDoubleClick));
        proof {
            lemma_effective_accepted(store.entries@, SettingKey::CoreAutoReloadPlugin);
        }
        let core_auto_reload_plugin = take_bool(store.effective_value(SettingKey::CoreAutoReloadPlugin));
        proof {
            lemma_effective_accepted(store.entries@, SettingKey::EditorFontFamily);
        }
        let editor_font_family = take_text(store.effective_value(SettingKey::EditorFontFamily));
        proof {
            lemma_effective_accepted(store.entries@, SettingKey::EditorFontSize);
        }
        let editor_font_size = take_int(store.effective_value(SettingKey::EditorFontSize));
        proof {
            lemma_effective_accepted(store.entries@, SettingKey::EditorLineHeight);
        }
        let editor_line_height = take_int(store.effective_value(SettingKey::EditorLineHeight));
        proof {
            lemma_effective_accepted(store.entries@, SettingKey::EditorWrapStyle);
        }
        let editor_wrap_style = take_wrap_style(store.effective_value(SettingKey::EditorWrapStyle));
        proof {
            lemma_effective_accepted(store.entries@, SettingKey::EditorTabWidth);
        }
        let editor_tab_width = take_int(store.effective_value(SettingKey::EditorTabWidth));
        proof {
            lemma_effective_accepted(store.entries@, SettingKey::EditorShowLineNumbers);
        }
        let editor_show_line_numbers = take_bool(store.effective_value(SettingKey::EditorShowLineNumbers));
        proof {
            lemma_effective_accepted(store.entries@, SettingKey::EditorRelativeLineNumbers);
        }
        let editor_modal_mode_relative_line_numbers = take_bool(store.effective_value(SettingKey::EditorRelativeLineNumbers));
        proof {
            lemma_effective_accepted(store.entries@, SettingKey::EditorShowIndentGuide);
        }
        let editor_show_indent_guide = take_bool(store.effective_value(SettingKey::EditorShowIndentGuide));
        proof {
            lemma_effective_accepted(store.entries@, SettingKey::UiScale);
        }
        let ui_scale = take_int(store.effective_value(SettingKey::UiScale));
        proof {
            lemma_effective_accepted(store.entries@, SettingKey::UiFontFamily);
        }
        let ui_font_family = take_text(store.effective_value(SettingKey::UiFontFamily));
        proof {
            lemma_effective_accepted(store.entries@, SettingKey::UiFontSize);
        }
        let ui_font_size = take_int(store.effective_value(SettingKey::UiFontSize));
        proof {
            lemma_effective_accepted(store.entries@, SettingKey::UiIconSize);
        }
        let ui_icon_size = take_int(store.effective_value(SettingKey::UiIconSize));
        proof {
            lemma_effective_accepted(store.entries@, SettingKey::UiHeaderHeight);
        }
        let ui_header_height = take_int(store.effective_value(SettingKey::UiHeaderHeight));
        proof {
            lemma_effective_accepted(store.entries@, SettingKey::UiStatusHeight);
        }
        let ui_status_height = take_int(store.effective_value(SettingKey::UiStatusHeight));
        proof {
            lemma_effective_accepted(store.entries@, SettingKey::UiTabMinWidth);
        }
        let ui_tab_min_width = take_int(store.effective_value(SettingKey::UiTabMinWidth));
        proof {
            lemma_effective_accepted(store.entries@, SettingKey::UiTabSeparatorHeight);
        }
        let ui_tab_separator_height = take_separator(store.effective_value(SettingKey::UiTabSeparatorHeight));
        proof {
            lemma_effective_accepted(store.entries@, SettingKey::UiScrollWidth);
        }
        let ui_scroll_width = take_int(store.effective_value(SettingKey::UiScrollWidth));
        proof {
            lemma_effective_accepted(store.entries@, SettingKey::UiDropShadowWidth);
        }
        let ui_drop_shadow_width = take_int(store.effective_value(SettingKey::UiDropShadowWidth));
        proof {
            lemma_effective_accepted(store.entries@, SettingKey::UiPaletteWidth);
        }
        let ui_palette_width = take_int(store.effective_value(SettingKey::UiPaletteWidth));
        proof {
            lemma_effective_accepted(store.entries@, SettingKey::UiTabCloseButton);
        }
        let ui_tab_close_button = take_close_button(store.effective_value(SettingKey::UiTabCloseButton));
        proof {
            lemma_effective_accepted(store.entries@, SettingKey::UiOpenEditorsVisible);
        }
        let ui_open_editors_visible = take_bool(store.effective_value(SettingKey::UiOpenEditorsVisible));
        proof {
            lemma_effective_accepted(store.entries@, SettingKey::UiTrimSearchResultsWhitespace);
        }
        let ui_trim_search_results_whitespace = take_bool(store.effective_value(SettingKey::UiTrimSearchResultsWhitespace));
        proof {
            lemma_effective_accepted(store.entries@, SettingKey::UiListLineHeight);
        }
        let ui_list_line_height = take_int(store.effective_value(SettingKey::UiListLineHeight));
        proof {
            lemma_effective_accepted(store.entries@, SettingKey::TerminalFontFamily);
        }
        let terminal_font_family = take_text(store.effective_value(SettingKey::TerminalFontFamily));
        proof {
            lemma_effective_accepted(store.entries@, SettingKey::TerminalFontSize);
        }
        let terminal_font_size = take_int(store.effective_value(SettingKey::TerminalFontSize));
        proof {
            lemma_effective_accepted(store.entries@, SettingKey::TerminalLineHeight);
        }
        let terminal_line_height = take_int(store.effective_value(SettingKey::TerminalLineHeight));
        let core = CoreConfig {
            modal: core_modal,
            color_theme: core_color_theme,
            icon_theme: core_icon_theme,
            custom_titlebar: core_custom_titlebar,
            file_explorer_double_click: core_file_explorer_double_click,
            auto_reload_plugin: core_auto_reload_plugin,
        };
        let editor = EditorConfig {
            font_family: editor_font_family,
            font_size: editor_font_size,
            line_height: editor_line_height,
            wrap_style: editor_wrap_style,
            tab_width: editor_tab_width,
            show_line_numbers: editor_show_line_numbers,
            modal_mode_relative_line_numbers: editor_modal_mode_relative_line_numbers,
            show_indent_guide: editor_show_indent_guide,
        };
        let ui = UIConfig {
            scale: ui_scale,
            font_family: ui_font_family,
            font_size: ui_font_size,
            icon_size: ui_icon_size,
            header_height: ui_header_height,
            status_height: ui_status_height,
            tab_min_width: ui_tab_min_width,
            tab_separator_height: ui_tab_separator_height,
            scroll_width: ui_scroll_width,
            drop_shadow_width: ui_drop_shadow_width,
            palette_width: ui_palette_width,
            tab_close_button: ui_tab_close_button,
            open_editors_visible: ui_open_editors_visible,
            trim_search_results_whitespace: ui_trim_search_results_whitespace,
            list_line_height: ui_list_line_height,
        };
        let terminal = TerminalConfig {
            font_family: terminal_font_family,
            font_size: terminal_font_size,
            line_height: terminal_line_height,
        };
        let c = LapceConfig { id, core, editor, ui, terminal, resources };
        assert forall|k: SettingKey| #[trigger] setting_of(c, k) == effective(store.entries@, k) by {
            match k {
                SettingKey::CoreModal => {},
                SettingKey::CoreColorTheme => {},
                SettingKey::CoreIconTheme => {},
                SettingKey::CoreCustomTitlebar => {},
                SettingKey::CoreFileExplorerDoubleClick => {},
                SettingKey::CoreAutoReloadPlugin => {},
                SettingKey::EditorFontFamily => {},
                SettingKey::EditorFontSize => {},
                SettingKey::EditorLineHeight => {},
                SettingKey::EditorWrapStyle => {},
                SettingKey::EditorTabWidth => {},
                SettingKey::EditorShowLineNumbers => {},
                SettingKey::EditorRelativeLineNumbers => {},
                SettingKey::EditorShowIndentGuide => {},
                SettingKey::UiScale => {},
                SettingKey::UiFontFamily => {},
                SettingKey::UiFontSize => {},
                SettingKey::UiIconSize => {},
                SettingKey::UiHeaderHeight => {},
                SettingKey::UiStatusHeight => {},
                SettingKey::UiTabMinWidth => {},
                SettingKey::UiTabSeparatorHeight => {},
                SettingKey::UiScrollWidth => {},
                SettingKey::UiDropShadowWidth => {},
                SettingKey::UiPaletteWidth => {},
                SettingKey::UiTabCloseButton => {},
                SettingKey::UiOpenEditorsVisible => {},
                SettingKey::UiTrimSearchResultsWhitespace => {},
                SettingKey::UiListLineHeight => {},
                SettingKey::TerminalFontFamily => {},
                SettingKey::TerminalFontSize => {},
                SettingKey::TerminalLineHeight => {},
            }
        }
        assert forall|k: SettingKey| k.spec_accepts(#[trigger] setting_of(c, k)) by {
            lemma_effective_accepted(store.entries@, k);
        }
        c
    }
}

} // verus!

verus! {

/// The position of the last plugin configuration of `ps` for plugin `id`.
pub open spec fn find_plugin(ps: Seq<PluginConfig>, id: Seq<char>) -> Option<int>
    decreases ps.len(),
{
    if ps.len() == 0 {
        None
    } else if ps.last().id@ == id {
        Some(ps.len() - 1)
    } else {
        find_plugin(ps.drop_last(), id)
    }
}

/// The default profile that `ds` names for operating system `os`: the last entry wins.
pub open spec fn find_default_profile(ds: Seq<OsProfile>, os: Seq<char>) -> Option<Seq<char>>
    decreases ds.len(),
{
    if ds.len() == 0 {
        None
    } else if ds.last().os@ == os {
        Some(ds.last().profile@)
    } else {
        find_default_profile(ds.drop_last(), os)
    }
}

/// The icon source that the icon theme called `active` declares for `id`.
pub open spec fn resolve_icon_in(ts: Seq<IconThemeConfig>, active: Seq<char>, id: Seq<char>) -> Option<Seq<char>> {
    match find_icon_theme(ts, active) {
        Some(i) => find_icon(ts[i].icons@, id),
        None => None,
    }
}

impl LapceConfig {
    /// What the color `name` resolves to in this snapshot.
    pub open spec fn spec_color(&self, name: Seq<char>) -> Color {
        resolve_color_in(self.resources.color_themes@, self.core.color_theme@, name)
    }

    /// Resolves a symbolic color name against the active color theme, then
    /// the themes up its inheritance chain, then the fallback color. Never fails.
    pub fn color(&self, name: &str) -> (r: Color)
        ensures
            r == self.spec_color(name@),
    {
        resolve_color(&self.resources.color_themes, self.core.color_theme.as_str(), name)
    }

    /// Resolves `name`, then multiplies its alpha channel by `alpha / 255`.
    pub fn color_with_alpha(&self, name: &str, alpha: u8) -> (r: Color)
        ensures
            r == with_alpha(self.spec_color(name@), alpha),
            alpha == 0 ==> r.a == 0,
            alpha == 255 ==> r == self.spec_color(name@),
    {
        self.color(name).multiply_alpha(alpha)
    }

    /// The color a terminal shows for the ANSI color `c`: the theme's
    /// color for it, dimmed where `c` is a dim color.
    pub fn terminal_color(&self, c: NamedColor) -> (r: Color)
        ensures
            r == with_alpha(self.spec_color(c.spec_theme_key()), c.spec_alpha()),
    {
        self.color_with_alpha(c.theme_key(), c.alpha())
    }

    /// The SVG source or path of the icon `id`, if the active icon theme declares it.
    pub fn icon_svg(&self, id: &str) -> (r: Option<&str>)
        ensures
            match r {
                Some(s) => resolve_icon_in(self.resources.icon_themes@, self.core.icon_theme@, id@)
                    == Some(s@),
                None => resolve_icon_in(self.resources.icon_themes@, self.core.icon_theme@, id@) is None,
            },
    {
        let themes = &self.resources.icon_themes;
        match lookup_icon_theme(themes, self.core.icon_theme.as_str()) {
            Some(i) => lookup_icon(&themes[i].icons, id),
            None => None,
        }
    }

    /// The default terminal profile for operating system `os`, if one is set.
    pub fn default_profile(&self, os: &str) -> (r: Option<&str>)
        ensures
            match r {
                Some(s) => find_default_profile(self.resources.default_profiles@, os@) == Some(s@),
                None => find_default_profile(self.resources.default_profiles@, os@) is None,
            },
    {
        let ds = &self.resources.default_profiles;
        let mut found: Option<&str> = None;
        let mut i: usize = 0;
        while i < ds.len()
            invariant
                i <= ds@.len(),
                match found {
                    Some(s) => find_default_profile(ds@.subrange(0, i as int), os@) == Some(s@),
                    None => find_default_profile(ds@.subrange(0, i as int), os@) is None,
                },
            decreases ds@.len() - i,
        {
            assert(ds@.subrange(0, i as int + 1).drop_last() =~= ds@.subrange(0, i as int));
            if str_eq(ds[i].os.as_str(), os) {
                found = Some(ds[i].profile.as_str());
            }
            i = i + 1;
        }
        assert(ds@.subrange(0, i as int) =~= ds@);
        found
    }

    /// The configuration of plugin `id`, if there is one.
    pub fn plugin_config(&self, id: &str) -> (r: Option<&PluginConfig>)
        ensures
            match r {
                Some(p) => find_plugin(self.resources.plugins@, id@) matches Some(i) && *p
                    == self.resources.plugins@[i],
                None => find_plugin(self.resources.plugins@, id@) is None,
            },
    {
        let ps = &self.resources.plugins;
        let mut found: Option<usize> = None;
        let mut i: usize = 0;
        while i < ps.len()
            invariant
                i <= ps@.len(),
                match found {
                    Some(j) => find_plugin(ps@.subrange(0, i as int), id@) == Some(j as int) && j < i,
                    None => find_plugin(ps@.subrange(0, i as int), id@) is None,
                },
            decreases ps@.len() - i,
        {
            assert(ps@.subrange(0, i as int + 1).drop_last() =~= ps@.subrange(0, i as int));
            if str_eq(ps[i].id.as_str(), id) {
                found = Some(i);
            }
            i = i + 1;
        }
        assert(ps@.subrange(0, i as int) =~= ps@);
        match found {
            Some(j) => Some(&ps[j]),
            None => None,
        }
    }
}

} // verus!
