use vstd::prelude::*;

verus! {

/// Events that user-interface components emit.
#[derive(Debug)]
pub enum UiEvent {
    EditorTextChanged { content: String },
    EditorCursorMoved { position: (usize, usize) },
    WindowResized { width: u32, height: u32 },
    TabSwitched { tab_id: String },
    PanelToggled { panel_type: String },
    CommandExecuted { command: String },
}

impl Clone for UiEvent {
    fn clone(&self) -> (r: Self) {
        match self {
            UiEvent::EditorTextChanged { content } => UiEvent::EditorTextChanged { content: content.clone() },
            UiEvent::EditorCursorMoved { position } => UiEvent::EditorCursorMoved { position: (position.0, position.1) },
            UiEvent::WindowResized { width, height } => UiEvent::WindowResized { width: *width, height: *height },
            UiEvent::TabSwitched { tab_id } => UiEvent::TabSwitched { tab_id: tab_id.clone() },
            UiEvent::PanelToggled { panel_type } => UiEvent::PanelToggled { panel_type: panel_type.clone() },
            UiEvent::CommandExecuted { command } => UiEvent::CommandExecuted { command: command.clone() },
        }
    }
}

/// A component that reacts to user-interface events.
pub trait UiEventHandler {
    fn handle_ui_event(&mut self, event: UiEvent);
}

/// Distributes user-interface events. No subscriber is kept yet, so an
/// emitted event reaches nobody.
pub struct UiEventBus {}

impl UiEventBus {
    pub fn new() -> (r: Self) {
        UiEventBus {}
    }

    pub fn emit(&self, event: UiEvent) {
    }

    pub fn subscribe<H: UiEventHandler>(&mut self, handler: H) {
    }
}

/// The state of a window.
#[derive(Debug)]
pub struct WindowUiState {
    pub size: (u32, u32),
    pub is_maximized: bool,
    pub active_tab_id: Option<String>,
}

impl Clone for WindowUiState {
    fn clone(&self) -> (r: Self) {
        let active_tab_id = match &self.active_tab_id {
            Some(t) => Some(t.clone()),
            None => None,
        };
        WindowUiState { size: (self.size.0, self.size.1), is_maximized: self.is_maximized, active_tab_id }
    }
}

impl Default for WindowUiState {
    /// An 800 by 600 window, not maximized, without an active tab.
    fn default() -> (r: Self)
        ensures
            r.size == (800u32, 600u32),
            !r.is_maximized,
            r.active_tab_id is None,
    {
        WindowUiState { size: (800, 600), is_maximized: false, active_tab_id: None }
    }
}

/// The state of a panel.
#[derive(Debug, Clone)]
pub struct PanelUiState {
    pub is_visible: bool,
    pub size: u32,
    pub position: PanelPosition,
}

/// The side of the window a panel is docked to.
#[derive(Debug, Clone, Copy, PartialEq, Eq, Structural)]
pub enum PanelPosition {
    Left,
    Right,
    Bottom,
}

impl Default for PanelUiState {
    /// A hidden panel, 200 wide, docked left.
    fn default() -> (r: Self)
        ensures
            !r.is_visible,
            r.size == 200,
            r.position == PanelPosition::Left,
    {
        PanelUiState { is_visible: false, size: 200, position: PanelPosition::Left }
    }
}

} // verus!
