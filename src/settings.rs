use vstd::prelude::*;

use crate::text::str_eq;

verus! {

/// How the editor wraps long lines.
#[derive(Clone, Copy, Debug, PartialEq, Eq, Structural)]
pub enum WrapStyle {
    NoWrap,
    EditorWidth,
    WrapColumn,
}

/// How tall the separators between editor tabs are drawn.
#[derive(Clone, Copy, Debug, PartialEq, Eq, Structural)]
pub enum TabSeparatorHeight {
    Content,
    Full,
}

/// Where the close button of an editor tab is placed.
#[derive(Clone, Copy, Debug, PartialEq, Eq, Structural)]
pub enum TabCloseButton {
    Left,
    Right,
    Off,
}

pub open spec fn wrap_style_from_label(s: Seq<char>) -> Option<WrapStyle> {
    if s == "none"@ {
        Some(WrapStyle::NoWrap)
    } else if s == "editor-width"@ {
        Some(WrapStyle::EditorWidth)
    } else if s == "wrap-column"@ {
        Some(WrapStyle::WrapColumn)
    } else {
        None
    }
}

pub open spec fn separator_from_label(s: Seq<char>) -> Option<TabSeparatorHeight> {
    if s == "Content"@ {
        Some(TabSeparatorHeight::Content)
    } else if s == "Full"@ {
        Some(TabSeparatorHeight::Full)
    } else {
        None
    }
}

pub open spec fn close_button_from_label(s: Seq<char>) -> Option<TabCloseButton> {
    if s == "Left"@ {
        Some(TabCloseButton::Left)
    } else if s == "Right"@ {
        Some(TabCloseButton::Right)
    } else if s == "Off"@ {
        Some(TabCloseButton::Off)
    } else {
        None
    }
}

impl WrapStyle {
    pub open spec fn spec_label(self) -> Seq<char> {
        match self {
            WrapStyle::NoWrap => "none"@,
            WrapStyle::EditorWidth => "editor-width"@,
            WrapStyle::WrapColumn => "wrap-column"@,
        }
    }

    /// The label under which this style is stored and offered.
    pub fn label(&self) -> (r: &'static str)
        ensures
            r@ == self.spec_label(),
    {
        match self {
            WrapStyle::NoWrap => "none",
            WrapStyle::EditorWidth => "editor-width",
            WrapStyle::WrapColumn => "wrap-column",
        }
    }

    /// Reads a style from its label.
    pub fn from_label(s: &str) -> (r: Option<WrapStyle>)
        ensures
            r == wrap_style_from_label(s@),
    {
        if str_eq(s, "none") {
            Some(WrapStyle::NoWrap)
        } else if str_eq(s, "editor-width") {
            Some(WrapStyle::EditorWidth)
        } else if str_eq(s, "wrap-column") {
            Some(WrapStyle::WrapColumn)
        } else {
            None
        }
    }
}

impl TabSeparatorHeight {
    pub open spec fn spec_label(self) -> Seq<char> {
        match self {
            TabSeparatorHeight::Content => "Content"@,
            TabSeparatorHeight::Full => "Full"@,
        }
    }

    /// The label under which this height is stored and offered.
    pub fn label(&self) -> (r: &'static str)
        ensures
            r@ == self.spec_label(),
    {
        match self {
            TabSeparatorHeight::Content => "Content",
            TabSeparatorHeight::Full => "Full",
        }
    }

    /// Reads a separator height from its label.
    pub fn from_label(s: &str) -> (r: Option<TabSeparatorHeight>)
        ensures
            r == separator_from_label(s@),
    {
        if str_eq(s, "Content") {
            Some(TabSeparatorHeight::Content)
        } else if str_eq(s, "Full") {
            Some(TabSeparatorHeight::Full)
        } else {
            None
        }
    }
}

impl TabCloseButton {
    pub open spec fn spec_label(self) -> Seq<char> {
        match self {
            TabCloseButton::Left => "Left"@,
            TabCloseButton::Right => "Right"@,
            TabCloseButton::Off => "Off"@,
        }
    }

    /// The label under which this placement is stored and offered.
    pub fn label(&self) -> (r: &'static str)
        ensures
            r@ == self.spec_label(),
    {
        match self {
            TabCloseButton::Left => "Left",
            TabCloseButton::Right => "Right",
            TabCloseButton::Off => "Off",
        }
    }

    /// Reads a placement from its label.
    pub fn from_label(s: &str) -> (r: Option<TabCloseButton>)
        ensures
            r == close_button_from_label(s@),
    {
        if str_eq(s, "Left") {
            Some(TabCloseButton::Left)
        } else if str_eq(s, "Right") {
            Some(TabCloseButton::Right)
        } else if str_eq(s, "Off") {
            Some(TabCloseButton::Off)
        } else {
            None
        }
    }
}

/// The mathematical value of a setting.
pub ghost enum SettingValueModel {
    Bool(bool),
    Int(usize),
    Text(Seq<char>),
}

/// A value written to or read from the settings store.
#[derive(Debug)]
pub enum SettingValue {
    Bool(bool),
    Int(usize),
    Text(String),
}

impl View for SettingValue {
    type V = SettingValueModel;

    open spec fn view(&self) -> SettingValueModel {
        match self {
            SettingValue::Bool(b) => SettingValueModel::Bool(*b),
            SettingValue::Int(n) => SettingValueModel::Int(*n),
            SettingValue::Text(s) => SettingValueModel::Text(s@),
        }
    }
}

impl SettingValue {
    /// A copy with the same value.
    pub fn duplicate(&self) -> (r: SettingValue)
        ensures
            r == *self,
            r@ == self@,
    {
        match self {
            SettingValue::Bool(b) => SettingValue::Bool(*b),
            SettingValue::Int(n) => SettingValue::Int(*n),
            SettingValue::Text(s) => SettingValue::Text(s.clone()),
        }
    }
}

/// The shape of the values a setting takes.
#[derive(Clone, Copy, Debug, PartialEq, Eq, Structural)]
pub enum SettingKind {
    Bool,
    Integer,
    Text,
    Choice,
}

/// Every setting that the schema declares, one per `(domain, key)` path.
#[derive(Clone, Copy, Debug, PartialEq, Eq, Structural)]
pub enum SettingKey {
    CoreModal,
    CoreColorTheme,
    CoreIconTheme,
    CoreCustomTitlebar,
    CoreFileExplorerDoubleClick,
    CoreAutoReloadPlugin,
    EditorFontFamily,
    EditorFontSize,
    EditorLineHeight,
    EditorWrapStyle,
    EditorTabWidth,
    EditorShowLineNumbers,
    EditorRelativeLineNumbers,
    EditorShowIndentGuide,
    UiScale,
    UiFontFamily,
    UiFontSize,
    UiIconSize,
    UiHeaderHeight,
    UiStatusHeight,
    UiTabMinWidth,
    UiTabSeparatorHeight,
    UiScrollWidth,
    UiDropShadowWidth,
    UiPaletteWidth,
    UiTabCloseButton,
    UiOpenEditorsVisible,
    UiTrimSearchResultsWhitespace,
    UiListLineHeight,
    TerminalFontFamily,
    TerminalFontSize,
    TerminalLineHeight,
}

/// The setting that the path `(domain, key)` names, if the schema declares it.
pub open spec fn key_of(domain: Seq<char>, key: Seq<char>) -> Option<SettingKey> {
    if domain == "core"@ {
        if key == "modal"@ {
            Some(SettingKey::CoreModal)
        } else if key == "color-theme"@ {
            Some(SettingKey::CoreColorTheme)
        } else if key == "icon-theme"@ {
            Some(SettingKey::CoreIconTheme)
        } else if key == "custom-titlebar"@ {
            Some(SettingKey::CoreCustomTitlebar)
        } else if key == "file-explorer-double-click"@ {
            Some(SettingKey::CoreFileExplorerDoubleClick)
        } else if key == "auto-reload-plugin"@ {
            Some(SettingKey::CoreAutoReloadPlugin)
        } else {
            None
        }
    } else if domain == "editor"@ {
        if key == "font-family"@ {
            Some(SettingKey::EditorFontFamily)
        } else if key == "font-size"@ {
            Some(SettingKey::EditorFontSize)
        } else if key == "line-height"@ {
            Some(SettingKey::EditorLineHeight)
        } else if key == "wrap-style"@ {
            Some(SettingKey::EditorWrapStyle)
        } else if key == "tab-width"@ {
            Some(SettingKey::EditorTabWidth)
        } else if key == "show-line-numbers"@ {
            Some(SettingKey::EditorShowLineNumbers)
        } else if key == "modal-mode-relative-line-numbers"@ {
            Some(SettingKey::EditorRelativeLineNumbers)
        } else if key == "show-indent-guide"@ {
            Some(SettingKey::EditorShowIndentGuide)
        } else {
            None
        }
    } else if domain == "ui"@ {
        if key == "scale"@ {
            Some(SettingKey::UiScale)
        } else if key == "font-family"@ {
            Some(SettingKey::UiFontFamily)
        } else if key == "font-size"@ {
            Some(SettingKey::UiFontSize)
        } else if key == "icon-size"@ {
            Some(SettingKey::UiIconSize)
        } else if key == "header-height"@ {
            Some(SettingKey::UiHeaderHeight)
        } else if key == "status-height"@ {
            Some(SettingKey::UiStatusHeight)
        } else if key == "tab-min-width"@ {
            Some(SettingKey::UiTabMinWidth)
        } else if key == "tab-separator-height"@ {
            Some(SettingKey::UiTabSeparatorHeight)
        } else if key == "scroll-width"@ {
            Some(SettingKey::UiScrollWidth)
        } else if key == "drop-shadow-width"@ {
            Some(SettingKey::UiDropShadowWidth)
        } else if key == "palette-width"@ {
            Some(SettingKey::UiPaletteWidth)
        } else if key == "tab-close-button"@ {
            Some(SettingKey::UiTabCloseButton)
        } else if key == "open-editors-visible"@ {
            Some(SettingKey::UiOpenEditorsVisible)
        } else if key == "trim-search-results-whitespace"@ {
            Some(SettingKey::UiTrimSearchResultsWhitespace)
        } else if key == "list-line-height"@ {
            Some(SettingKey::UiListLineHeight)
        } else {
            None
        }
    } else if domain == "terminal"@ {
        if key == "font-family"@ {
            Some(SettingKey::TerminalFontFamily)
        } else if key == "font-size"@ {
            Some(SettingKey::TerminalFontSize)
        } else if key == "line-height"@ {
            Some(SettingKey::TerminalLineHeight)
        } else {
            None
        }
    } else {
        None
    }
}

impl SettingKey {
    pub open spec fn spec_kind(self) -> SettingKind {
        match self {
            SettingKey::CoreModal => SettingKind::Bool,
            SettingKey::CoreColorTheme => SettingKind::Text,
            SettingKey::CoreIconTheme => SettingKind::Text,
            SettingKey::CoreCustomTitlebar => SettingKind::Bool,
            SettingKey::CoreFileExplorerDoubleClick => SettingKind::Bool,
            SettingKey::CoreAutoReloadPlugin => SettingKind::Bool,
            SettingKey::EditorFontFamily => SettingKind::Text,
            SettingKey::EditorFontSize => SettingKind::Integer,
            SettingKey::EditorLineHeight => SettingKind::Integer,
            SettingKey::EditorWrapStyle => SettingKind::Choice,
            SettingKey::EditorTabWidth => SettingKind::Integer,
            SettingKey::EditorShowLineNumbers => SettingKind::Bool,
            SettingKey::EditorRelativeLineNumbers => SettingKind::Bool,
            SettingKey::EditorShowIndentGuide => SettingKind::Bool,
            SettingKey::UiScale => SettingKind::Integer,
            SettingKey::UiFontFamily => SettingKind::Text,
            SettingKey::UiFontSize => SettingKind::Integer,
            SettingKey::UiIconSize => SettingKind::Integer,
            SettingKey::UiHeaderHeight => SettingKind::Integer,
            SettingKey::UiStatusHeight => SettingKind::Integer,
            SettingKey::UiTabMinWidth => SettingKind::Integer,
            SettingKey::UiTabSeparatorHeight => SettingKind::Choice,
            SettingKey::UiScrollWidth => SettingKind::Integer,
            SettingKey::UiDropShadowWidth => SettingKind::Integer,
            SettingKey::UiPaletteWidth => SettingKind::Integer,
            SettingKey::UiTabCloseButton => SettingKind::Choice,
            SettingKey::UiOpenEditorsVisible => SettingKind::Bool,
            SettingKey::UiTrimSearchResultsWhitespace => SettingKind::Bool,
            SettingKey::UiListLineHeight => SettingKind::Integer,
            SettingKey::TerminalFontFamily => SettingKind::Text,
            SettingKey::TerminalFontSize => SettingKind::Integer,
            SettingKey::TerminalLineHeight => SettingKind::Integer,
        }
    }

    /// Whether users may override this setting; the others keep their default.
    pub open spec fn spec_writable(self) -> bool {
        match self {
            SettingKey::UiTabMinWidth | SettingKey::UiScrollWidth | SettingKey::UiDropShadowWidth | SettingKey::UiListLineHeight => false,
            _ => true,
        }
    }

    /// The documented default of this setting.
    pub open spec fn spec_default(self) -> SettingValueModel {
        match self {
            SettingKey::CoreModal => SettingValueModel::Bool(false),
            SettingKey::CoreColorTheme => SettingValueModel::Text("Lapce Dark"@),
            SettingKey::CoreIconTheme => SettingValueModel::Text("Lapce Codicons"@),
            SettingKey::CoreCustomTitlebar => SettingValueModel::Bool(true),
            SettingKey::CoreFileExplorerDoubleClick => SettingValueModel::Bool(false),
            SettingKey::CoreAutoReloadPlugin => SettingValueModel::Bool(false),
            SettingKey::EditorFontFamily => SettingValueModel::Text("monospace"@),
            SettingKey::EditorFontSize => SettingValueModel::Int(13),
            SettingKey::EditorLineHeight => SettingValueModel::Int(23),
            SettingKey::EditorWrapStyle => SettingValueModel::Text("editor-width"@),
            SettingKey::EditorTabWidth => SettingValueModel::Int(4),
            SettingKey::EditorShowLineNumbers => SettingValueModel::Bool(true),
            SettingKey::EditorRelativeLineNumbers => SettingValueModel::Bool(true),
            SettingKey::EditorShowIndentGuide => SettingValueModel::Bool(true),
            SettingKey::UiScale => SettingValueModel::Int(100),
            SettingKey::UiFontFamily => SettingValueModel::Text("sans-serif"@),
            SettingKey::UiFontSize => SettingValueModel::Int(13),
            SettingKey::UiIconSize => SettingValueModel::Int(16),
            SettingKey::UiHeaderHeight => SettingValueModel::Int(36),
            SettingKey::UiStatusHeight => SettingValueModel::Int(25),
            SettingKey::UiTabMinWidth => SettingValueModel::Int(100),
            SettingKey::UiTabSeparatorHeight => SettingValueModel::Text("Content"@),
            SettingKey::UiScrollWidth => SettingValueModel::Int(10),
            SettingKey::UiDropShadowWidth => SettingValueModel::Int(5),
            SettingKey::UiPaletteWidth => SettingValueModel::Int(500),
            SettingKey::UiTabCloseButton => SettingValueModel::Text("Right"@),
            SettingKey::UiOpenEditorsVisible => SettingValueModel::Bool(true),
            SettingKey::UiTrimSearchResultsWhitespace => SettingValueModel::Bool(true),
            SettingKey::UiListLineHeight => SettingValueModel::Int(20),
            SettingKey::TerminalFontFamily => SettingValueModel::Text("monospace"@),
            SettingKey::TerminalFontSize => SettingValueModel::Int(13),
            SettingKey::TerminalLineHeight => SettingValueModel::Int(20),
        }
    }

    /// Whether `v` is a legal value of this setting.
    pub open spec fn spec_accepts(self, v: SettingValueModel) -> bool {
        match v {
            SettingValueModel::Bool(_) => self.spec_kind() == SettingKind::Bool,
            SettingValueModel::Int(n) => self.spec_kind() == SettingKind::Integer && n > 0,
            SettingValueModel::Text(t) => match self {
                SettingKey::EditorWrapStyle => wrap_style_from_label(t) is Some,
                SettingKey::UiTabSeparatorHeight => separator_from_label(t) is Some,
                SettingKey::UiTabCloseButton => close_button_from_label(t) is Some,
                _ => self.spec_kind() == SettingKind::Text,
            },
        }
    }

    /// Resolves the path `(domain, key)` against the schema.
    pub fn parse(domain: &str, key: &str) -> (r: Option<SettingKey>)
        ensures
            r == key_of(domain@, key@),
    {
        if str_eq(domain, "core") {
            if str_eq(key, "modal") {
                Some(SettingKey::CoreModal)
            } else if str_eq(key, "color-theme") {
                Some(SettingKey::CoreColorTheme)
            } else if str_eq(key, "icon-theme") {
                Some(SettingKey::CoreIconTheme)
            } else if str_eq(key, "custom-titlebar") {
                Some(SettingKey::CoreCustomTitlebar)
            } else if str_eq(key, "file-explorer-double-click") {
                Some(SettingKey::CoreFileExplorerDoubleClick)
            } else if str_eq(key, "auto-reload-plugin") {
                Some(SettingKey::CoreAutoReloadPlugin)
            } else {
                None
            }
        } else if str_eq(domain, "editor") {
            if str_eq(key, "font-family") {
                Some(SettingKey::EditorFontFamily)
            } else if str_eq(key, "font-size") {
                Some(SettingKey::EditorFontSize)
            } else if str_eq(key, "line-height") {
                Some(SettingKey::EditorLineHeight)
            } else if str_eq(key, "wrap-style") {
                Some(SettingKey::EditorWrapStyle)
            } else if str_eq(key, "tab-width") {
                Some(SettingKey::EditorTabWidth)
            } else if str_eq(key, "show-line-numbers") {
                Some(SettingKey::EditorShowLineNumbers)
            } else if str_eq(key, "modal-mode-relative-line-numbers") {
                Some(SettingKey::EditorRelativeLineNumbers)
            } else if str_eq(key, "show-indent-guide") {
                Some(SettingKey::EditorShowIndentGuide)
            } else {
                None
            }
        } else if str_eq(domain, "ui") {
            if str_eq(key, "scale") {
                Some(SettingKey::UiScale)
            } else if str_eq(key, "font-family") {
                Some(SettingKey::UiFontFamily)
            } else if str_eq(key, "font-size") {
                Some(SettingKey::UiFontSize)
            } else if str_eq(key, "icon-size") {
                Some(SettingKey::UiIconSize)
            } else if str_eq(key, "header-height") {
                Some(SettingKey::UiHeaderHeight)
            } else if str_eq(key, "status-height") {
                Some(SettingKey::UiStatusHeight)
            } else if str_eq(key, "tab-min-width") {
                Some(SettingKey::UiTabMinWidth)
            } else if str_eq(key, "tab-separator-height") {
                Some(SettingKey::UiTabSeparatorHeight)
            } else if str_eq(key, "scroll-width") {
                Some(SettingKey::UiScrollWidth)
            } else if str_eq(key, "drop-shadow-width") {
                Some(SettingKey::UiDropShadowWidth)
            } else if str_eq(key, "palette-width") {
                Some(SettingKey::UiPaletteWidth)
            } else if str_eq(key, "tab-close-button") {
                Some(SettingKey::UiTabCloseButton)
            } else if str_eq(key, "open-editors-visible") {
                Some(SettingKey::UiOpenEditorsVisible)
            } else if str_eq(key, "trim-search-results-whitespace") {
                Some(SettingKey::UiTrimSearchResultsWhitespace)
            } else if str_eq(key, "list-line-height") {
                Some(SettingKey::UiListLineHeight)
            } else {
                None
            }
        } else if str_eq(domain, "terminal") {
            if str_eq(key, "font-family") {
                Some(SettingKey::TerminalFontFamily)
            } else if str_eq(key, "font-size") {
                Some(SettingKey::TerminalFontSize)
            } else if str_eq(key, "line-height") {
                Some(SettingKey::TerminalLineHeight)
            } else {
                None
            }
        } else {
            None
        }
    }

    /// The shape of this setting's values.
    pub fn kind(&self) -> (r: SettingKind)
        ensures
            r == self.spec_kind(),
    {
        match self {
            SettingKey::CoreModal => SettingKind::Bool,
            SettingKey::CoreColorTheme => SettingKind::Text,
            SettingKey::CoreIconTheme => SettingKind::Text,
            SettingKey::CoreCustomTitlebar => SettingKind::Bool,
            SettingKey::CoreFileExplorerDoubleClick => SettingKind::Bool,
            SettingKey::CoreAutoReloadPlugin => SettingKind::Bool,
            SettingKey::EditorFontFamily => SettingKind::Text,
            SettingKey::EditorFontSize => SettingKind::Integer,
            SettingKey::EditorLineHeight => SettingKind::Integer,
            SettingKey::EditorWrapStyle => SettingKind::Choice,
            SettingKey::EditorTabWidth => SettingKind::Integer,
            SettingKey::EditorShowLineNumbers => SettingKind::Bool,
            SettingKey::EditorRelativeLineNumbers => SettingKind::Bool,
            SettingKey::EditorShowIndentGuide => SettingKind::Bool,
            SettingKey::UiScale => SettingKind::Integer,
            SettingKey::UiFontFamily => SettingKind::Text,
            SettingKey::UiFontSize => SettingKind::Integer,
            SettingKey::UiIconSize => SettingKind::Integer,
            SettingKey::UiHeaderHeight => SettingKind::Integer,
            SettingKey::UiStatusHeight => SettingKind::Integer,
            SettingKey::UiTabMinWidth => SettingKind::Integer,
            SettingKey::UiTabSeparatorHeight => SettingKind::Choice,
            SettingKey::UiScrollWidth => SettingKind::Integer,
            SettingKey::UiDropShadowWidth => SettingKind::Integer,
            SettingKey::UiPaletteWidth => SettingKind::Integer,
            SettingKey::UiTabCloseButton => SettingKind::Choice,
            SettingKey::UiOpenEditorsVisible => SettingKind::Bool,
            SettingKey::UiTrimSearchResultsWhitespace => SettingKind::Bool,
            SettingKey::UiListLineHeight => SettingKind::Integer,
            SettingKey::TerminalFontFamily => SettingKind::Text,
            SettingKey::TerminalFontSize => SettingKind::Integer,
            SettingKey::TerminalLineHeight => SettingKind::Integer,
        }
    }

    /// Whether users may override this setting.
    pub fn writable(&self) -> (r: bool)
        ensures
            r == self.spec_writable(),
    {
        match self {
            SettingKey::UiTabMinWidth | SettingKey::UiScrollWidth | SettingKey::UiDropShadowWidth | SettingKey::UiListLineHeight => false,
            _ => true,
        }
    }

    /// The documented default of this setting.
    pub fn default_value(&self) -> (r: SettingValue)
        ensures
            r@ == self.spec_default(),
    {
        match self {
            SettingKey::CoreModal => SettingValue::Bool(false),
            SettingKey::CoreColorTheme => SettingValue::Text(String::from_str("Lapce Dark")),
            SettingKey::CoreIconTheme => SettingValue::Text(String::from_str("Lapce Codicons")),
            SettingKey::CoreCustomTitlebar => SettingValue::Bool(true),
            SettingKey::CoreFileExplorerDoubleClick => SettingValue::Bool(false),
            SettingKey::CoreAutoReloadPlugin => SettingValue::Bool(false),
            SettingKey::EditorFontFamily => SettingValue::Text(String::from_str("monospace")),
            SettingKey::EditorFontSize => SettingValue::Int(13),
            SettingKey::EditorLineHeight => SettingValue::Int(23),
            SettingKey::EditorWrapStyle => SettingValue::Text(String::from_str("editor-width")),
            SettingKey::EditorTabWidth => SettingValue::Int(4),
            SettingKey::EditorShowLineNumbers => SettingValue::Bool(true),
            SettingKey::EditorRelativeLineNumbers => SettingValue::Bool(true),
            SettingKey::EditorShowIndentGuide => SettingValue::Bool(true),
            SettingKey::UiScale => SettingValue::Int(100),
            SettingKey::UiFontFamily => SettingValue::Text(String::from_str("sans-serif")),
            SettingKey::UiFontSize => SettingValue::Int(13),
            SettingKey::UiIconSize => SettingValue::Int(16),
            SettingKey::UiHeaderHeight => SettingValue::Int(36),
            SettingKey::UiStatusHeight => SettingValue::Int(25),
            SettingKey::UiTabMinWidth => SettingValue::Int(100),
            SettingKey::UiTabSeparatorHeight => SettingValue::Text(String::from_str("Content")),
            SettingKey::UiScrollWidth => SettingValue::Int(10),
            SettingKey::UiDropShadowWidth => SettingValue::Int(5),
            SettingKey::UiPaletteWidth => SettingValue::Int(500),
            SettingKey::UiTabCloseButton => SettingValue::Text(String::from_str("Right")),
            SettingKey::UiOpenEditorsVisible => SettingValue::Bool(true),
            SettingKey::UiTrimSearchResultsWhitespace => SettingValue::Bool(true),
            SettingKey::UiListLineHeight => SettingValue::Int(20),
            SettingKey::TerminalFontFamily => SettingValue::Text(String::from_str("monospace")),
            SettingKey::TerminalFontSize => SettingValue::Int(13),
            SettingKey::TerminalLineHeight => SettingValue::Int(20),
        }
    }

    /// Whether `v` is a legal value of this setting.
    pub fn accepts(&self, v: &SettingValue) -> (r: bool)
        ensures
            r == self.spec_accepts(v@),
    {
        match v {
            SettingValue::Bool(_) => self.kind() == SettingKind::Bool,
            SettingValue::Int(n) => self.kind() == SettingKind::Integer && *n > 0,
            SettingValue::Text(t) => match self {
                SettingKey::EditorWrapStyle => WrapStyle::from_label(t.as_str()).is_some(),
                SettingKey::UiTabSeparatorHeight => TabSeparatorHeight::from_label(t.as_str()).is_some(),
                SettingKey::UiTabCloseButton => TabCloseButton::from_label(t.as_str()).is_some(),
                _ => self.kind() == SettingKind::Text,
            },
        }
    }
}

} // verus!
