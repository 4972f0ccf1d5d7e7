use vstd::prelude::*;

use crate::config::LapceConfig;
use crate::font::{font_list, parse_font_list, FontFamily, FontFamilyModel};
use crate::settings::{TabCloseButton, TabSeparatorHeight, WrapStyle};

verus! {

/// Editor settings resolved for per-frame use.
#[derive(Debug)]
pub struct EditorConfigView {
    pub line_height: usize,
    pub font_family: Vec<FontFamily>,
    pub font_size: usize,
    pub wrap_style: WrapStyle,
    pub tab_width: usize,
    pub show_line_numbers: bool,
    pub show_relative_line_numbers: bool,
    pub show_indent_guides: bool,
}

pub ghost struct EditorViewModel {
    pub line_height: usize,
    pub font_family: Seq<FontFamilyModel>,
    pub font_size: usize,
    pub wrap_style: WrapStyle,
    pub tab_width: usize,
    pub show_line_numbers: bool,
    pub show_relative_line_numbers: bool,
    pub show_indent_guides: bool,
}

impl View for EditorConfigView {
    type V = EditorViewModel;

    open spec fn view(&self) -> EditorViewModel {
        EditorViewModel {
            line_height: self.line_height,
            font_family: self.font_family@.map_values(|f: FontFamily| f@),
            font_size: self.font_size,
            wrap_style: self.wrap_style,
            tab_width: self.tab_width,
            show_line_numbers: self.show_line_numbers,
            show_relative_line_numbers: self.show_relative_line_numbers,
            show_indent_guides: self.show_indent_guides,
        }
    }
}

/// The editor view that snapshot `c` materializes to.
pub open spec fn editor_view_of(c: LapceConfig) -> EditorViewModel {
    EditorViewModel {
        line_height: c.editor.line_height,
        font_family: font_list(c.editor.font_family@),
        font_size: c.editor.font_size,
        wrap_style: c.editor.wrap_style,
        tab_width: c.editor.tab_width,
        show_line_numbers: c.editor.show_line_numbers,
        show_relative_line_numbers: c.editor.modal_mode_relative_line_numbers,
        show_indent_guides: c.editor.show_indent_guide,
    }
}

/// User-interface settings resolved for per-frame use; `scale` is in percent.
#[derive(Debug)]
pub struct UIConfigView {
    pub scale: usize,
    pub font_family: Vec<FontFamily>,
    pub font_size: usize,
    pub icon_size: usize,
    pub header_height: usize,
    pub status_height: usize,
    pub tab_min_width: usize,
    pub tab_separator_height: TabSeparatorHeight,
    pub scroll_width: usize,
    pub drop_shadow_width: usize,
    pub palette_width: usize,
    pub tab_close_button: TabCloseButton,
    pub open_editors_visible: bool,
    pub trim_search_results_whitespace: bool,
    pub list_line_height: usize,
}

pub ghost struct UIViewModel {
    pub scale: usize,
    pub font_family: Seq<FontFamilyModel>,
    pub font_size: usize,
    pub icon_size: usize,
    pub header_height: usize,
    pub status_height: usize,
    pub tab_min_width: usize,
    pub tab_separator_height: TabSeparatorHeight,
    pub scroll_width: usize,
    pub drop_shadow_width: usize,
    pub palette_width: usize,
    pub tab_close_button: TabCloseButton,
    pub open_editors_visible: bool,
    pub trim_search_results_whitespace: bool,
    pub list_line_height: usize,
}

impl View for UIConfigView {
    type V = UIViewModel;

    open spec fn view(&self) -> UIViewModel {
        UIViewModel {
            scale: self.scale,
            font_family: self.font_family@.map_values(|f: FontFamily| f@),
            font_size: self.font_size,
            icon_size: self.icon_size,
            header_height: self.header_height,
            status_height: self.status_height,
            tab_min_width: self.tab_min_width,
            tab_separator_height: self.tab_separator_height,
            scroll_width: self.scroll_width,
            drop_shadow_width: self.drop_shadow_width,
            palette_width: self.palette_width,
            tab_close_button: self.tab_close_button,
            open_editors_visible: self.open_editors_visible,
            trim_search_results_whitespace: self.trim_search_results_whitespace,
            list_line_height: self.list_line_height,
        }
    }
}

/// The user-interface view that snapshot `c` materializes to.
pub open spec fn ui_view_of(c: LapceConfig) -> UIViewModel {
    UIViewModel {
        scale: c.ui.scale,
        font_family: font_list(c.ui.font_family@),
        font_size: c.ui.font_size,
        icon_size: c.ui.icon_size,
        header_height: c.ui.header_height,
        status_height: c.ui.status_height,
        tab_min_width: c.ui.tab_min_width,
        tab_separator_height: c.ui.tab_separator_height,
        scroll_width: c.ui.scroll_width,
        drop_shadow_width: c.ui.drop_shadow_width,
        palette_width: c.ui.palette_width,
        tab_close_button: c.ui.tab_close_button,
        open_editors_visible: c.ui.open_editors_visible,
        trim_search_results_whitespace: c.ui.trim_search_results_whitespace,
        list_line_height: c.ui.list_line_height,
    }
}

/// The names of the active color and icon themes.
#[derive(Debug)]
pub struct ThemeConfigView {
    pub color_theme_name: String,
    pub icon_theme_name: String,
}

/// Application-wide settings, copied out of a snapshot.
#[derive(Debug)]
pub struct CoreConfigView {
    pub modal: bool,
    pub color_theme: String,
    pub icon_theme: String,
    pub custom_titlebar: bool,
    pub file_explorer_double_click: bool,
    pub auto_reload_plugin: bool,
}

impl LapceConfig {
    /// Materializes the editor view: fonts parsed into a family list.
    pub fn editor_view(&self) -> (r: EditorConfigView)
        ensures
            r@ == editor_view_of(*self),
    {
        let font_family = parse_font_list(self.editor.font_family.as_str());
        EditorConfigView {
            line_height: self.editor.line_height,
            font_family,
            font_size: self.editor.font_size,
            wrap_style: self.editor.wrap_style,
            tab_width: self.editor.tab_width,
            show_line_numbers: self.editor.show_line_numbers,
            show_relative_line_numbers: self.editor.modal_mode_relative_line_numbers,
            show_indent_guides: self.editor.show_indent_guide,
        }
    }

    /// Materializes the user-interface view: fonts parsed into a family list.
    pub fn ui_view(&self) -> (r: UIConfigView)
        ensures
            r@ == ui_view_of(*self),
    {
        let font_family = parse_font_list(self.ui.font_family.as_str());
        UIConfigView {
            scale: self.ui.scale,
            font_family,
            font_size: self.ui.font_size,
            icon_size: self.ui.icon_size,
            header_height: self.ui.header_height,
            status_height: self.ui.status_height,
            tab_min_width: self.ui.tab_min_width,
            tab_separator_height: self.ui.tab_separator_height,
            scroll_width: self.ui.scroll_width,
            drop_shadow_width: self.ui.drop_shadow_width,
            palette_width: self.ui.palette_width,
            tab_close_button: self.ui.tab_close_button,
            open_editors_visible: self.ui.open_editors_visible,
            trim_search_results_whitespace: self.ui.trim_search_results_whitespace,
            list_line_height: self.ui.list_line_height,
        }
    }

    /// Materializes the theme view.
    pub fn theme_view(&self) -> (r: ThemeConfigView)
        ensures
            r.color_theme_name@ == self.core.color_theme@,
            r.icon_theme_name@ == self.core.icon_theme@,
    {
        ThemeConfigView {
            color_theme_name: self.core.color_theme.clone(),
            icon_theme_name: self.core.icon_theme.clone(),
        }
    }

    /// Materializes the core view.
    pub fn core_view(&self) -> (r: CoreConfigView)
        ensures
            r.modal == self.core.modal,
            r.color_theme@ == self.core.color_theme@,
            r.icon_theme@ == self.core.icon_theme@,
            r.custom_titlebar == self.core.custom_titlebar,
            r.file_explorer_double_click == self.core.file_explorer_double_click,
            r.auto_reload_plugin == self.core.auto_reload_plugin,
    {
        CoreConfigView {
            modal: self.core.modal,
            color_theme: self.core.color_theme.clone(),
            icon_theme: self.core.icon_theme.clone(),
            custom_titlebar: self.core.custom_titlebar,
            file_explorer_double_click: self.core.file_explorer_double_click,
            auto_reload_plugin: self.core.auto_reload_plugin,
        }
    }
}

/// Materializing a view is a function of the snapshot alone: two views
/// materialized from one snapshot are field-for-field identical.
pub proof fn lemma_views_idempotent(
    c: LapceConfig,
    e1: EditorConfigView,
    e2: EditorConfigView,
    u1: UIConfigView,
    u2: UIConfigView,
)
    requires
        e1@ == editor_view_of(c),
        e2@ == editor_view_of(c),
        u1@ == ui_view_of(c),
        u2@ == ui_view_of(c),
    ensures
        e1@ == e2@,
        u1@ == u2@,
{
}

} // verus!
