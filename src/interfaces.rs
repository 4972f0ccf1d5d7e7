use vstd::prelude::*;

verus! {

/// Handles named commands.
pub trait CommandHandler {
    /// Handles `command` with `params`.
    fn handle_command(&self, command: &str, params: &[String]) -> Result<(), String>;

    /// The commands this handler supports.
    fn supported_commands(&self) -> Vec<String>;
}

/// Keeps the set of command handlers.
pub trait CommandRegistry {
    /// Adds a handler.
    fn register_handler(&mut self, handler: Box<dyn CommandHandler>);

    /// Removes the handler called `handler_id`.
    fn unregister_handler(&mut self, handler_id: &str);
}

/// Provides text completions.
pub trait CompletionProvider {
    /// The completions for `context`.
    fn get_completions(&self, context: &CompletionContext) -> Vec<CompletionItem>;

    /// Whether this provider can complete in `context`.
    fn can_provide(&self, context: &CompletionContext) -> bool;
}

/// Where a completion is asked for.
#[derive(Debug, Clone)]
pub struct CompletionContext {
    pub text: String,
    pub position: usize,
    pub file_type: Option<String>,
    pub trigger_character: Option<char>,
}

/// One proposed completion.
#[derive(Debug, Clone)]
pub struct CompletionItem {
    pub label: String,
    pub detail: Option<String>,
    pub documentation: Option<String>,
    pub insert_text: String,
    pub kind: CompletionKind,
}

/// What a completion stands for.
#[derive(Debug, Clone, Copy, PartialEq, Eq, Structural)]
pub enum CompletionKind {
    Text,
    Method,
    Function,
    Constructor,
    Field,
    Variable,
    Class,
    Interface,
    Module,
    Property,
    Unit,
    Value,
    Enum,
    Keyword,
    Snippet,
}

/// Drives debug sessions through a debug adapter.
pub trait DebugManager {
    fn start_session(&self, config: &DebugConfig) -> Result<DebugSession, String>;

    fn stop_session(&self, session_id: &str) -> Result<(), String>;

    fn set_breakpoint(&self, session_id: &str, breakpoint: &Breakpoint) -> Result<(), String>;

    fn remove_breakpoint(&self, session_id: &str, breakpoint_id: &str) -> Result<(), String>;

    fn step(&self, session_id: &str, step_type: StepType) -> Result<(), String>;

    fn continue_execution(&self, session_id: &str) -> Result<(), String>;
}

/// What to debug and how to start it.
#[derive(Debug, Clone)]
pub struct DebugConfig {
    pub program: String,
    pub args: Vec<String>,
    pub working_directory: Option<String>,
    pub environment: Vec<(String, String)>,
}

/// A running debug session.
#[derive(Debug, Clone)]
pub struct DebugSession {
    pub id: String,
    pub status: DebugStatus,
}

/// The state of a debug session.
#[derive(Debug, Clone)]
pub enum DebugStatus {
    Starting,
    Running,
    Paused,
    Stopped,
    Error(String),
}

/// A breakpoint in a source file.
#[derive(Debug, Clone)]
pub struct Breakpoint {
    pub id: String,
    pub file: String,
    pub line: usize,
    pub condition: Option<String>,
}

/// How far a debug step goes.
#[derive(Debug, Clone, Copy, PartialEq, Eq, Structural)]
pub enum StepType {
    Into,
    Over,
    Out,
}

/// Creates and edits editor instances.
pub trait EditorManager {
    fn create_editor(&self, config: &EditorConfig) -> Result<EditorInstance, String>;

    fn get_editor(&self, editor_id: &str) -> Option<&EditorInstance>;

    fn close_editor(&self, editor_id: &str) -> Result<(), String>;

    fn apply_edit(&self, editor_id: &str, edit: &EditOperation) -> Result<(), String>;

    fn get_content(&self, editor_id: &str) -> Result<String, String>;
}

/// How an editor instance is opened.
#[derive(Debug, Clone)]
pub struct EditorConfig {
    pub file_path: Option<String>,
    pub language: Option<String>,
    pub read_only: bool,
    pub tab_size: usize,
    pub insert_spaces: bool,
}

/// An open editor.
#[derive(Debug, Clone)]
pub struct EditorInstance {
    pub id: String,
    pub file_path: Option<String>,
    pub is_dirty: bool,
    pub cursor_position: Position,
    pub selection: Option<Range>,
}

/// A line and column in a text.
#[derive(Debug, Clone, Copy, PartialEq, Eq, Structural)]
pub struct Position {
    pub line: usize,
    pub column: usize,
}

/// The text between two positions.
#[derive(Debug, Clone, Copy, PartialEq, Eq, Structural)]
pub struct Range {
    pub start: Position,
    pub end: Position,
}

/// A change to a text.
#[derive(Debug, Clone)]
pub enum EditOperation {
    Insert { position: Position, text: String },
    Delete { range: Range },
    Replace { range: Range, text: String },
}

/// Searches text.
pub trait SearchProvider {
    fn search(&self, query: &SearchQuery) -> Result<SearchResults, String>;

    fn can_search(&self, query: &SearchQuery) -> bool;
}

/// What to search for, where and how.
#[derive(Debug, Clone)]
pub struct SearchQuery {
    pub text: String,
    pub scope: SearchScope,
    pub options: SearchOptions,
}

/// Where a search looks.
#[derive(Debug, Clone)]
pub enum SearchScope {
    CurrentFile,
    OpenFiles,
    Workspace,
    Directory(String),
}

/// How a search matches.
#[derive(Debug, Clone)]
pub struct SearchOptions {
    pub case_sensitive: bool,
    pub whole_word: bool,
    pub regex: bool,
    pub include_patterns: Vec<String>,
    pub exclude_patterns: Vec<String>,
}

/// The matches of a search.
#[derive(Debug, Clone)]
pub struct SearchResults {
    pub matches: Vec<SearchMatch>,
    pub total_count: usize,
    pub has_more: bool,
}

/// One match of a search.
#[derive(Debug, Clone)]
pub struct SearchMatch {
    pub file_path: String,
    pub line_number: usize,
    pub column_start: usize,
    pub column_end: usize,
    pub line_content: String,
    pub match_text: String,
}

/// A document.
pub struct Document {}

/// A project.
pub struct Project {}

/// A plugin.
pub struct Plugin {}

/// Where documents are stored.
pub struct DocumentRepository {}

/// Where configuration is stored.
pub struct ConfigRepository {}

/// Where plugin data is stored.
pub struct PluginRepository {}

/// Where workspace data is stored.
pub struct WorkspaceRepository {}

} // verus!
