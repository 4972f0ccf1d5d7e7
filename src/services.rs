use vstd::prelude::*;

use crate::interfaces::{CommandHandler, CompletionProvider};

verus! {

/// Runs application commands. No handler is registered yet, so every
/// command succeeds without effect.
pub struct CommandService {}

impl CommandService {
    pub fn new() -> (r: Self) {
        CommandService {}
    }

    /// Executes `command`; succeeds for every command.
    pub fn execute_command(&self, command: &str, params: &[String]) -> (r: Result<(), String>)
        ensures
            r is Ok,
    {
        Ok(())
    }

    /// Accepts a handler; handlers are not kept yet.
    pub fn register_handler<H: CommandHandler>(&mut self, handler: H) {
    }
}

impl Default for CommandService {
    fn default() -> (r: Self) {
        CommandService::new()
    }
}

/// Offers text completions. No provider is registered yet, so it offers none.
pub struct CompletionService {}

impl CompletionService {
    pub fn new() -> (r: Self) {
        CompletionService {}
    }

    /// The completions at `position` of `text`: none.
    pub fn get_completions(&self, text: &str, position: usize) -> (r: Vec<String>)
        ensures
            r@.len() == 0,
    {
        Vec::new()
    }

    /// Accepts a provider; providers are not kept yet.
    pub fn register_provider<P: CompletionProvider>(&mut self, provider: P) {
    }
}

impl Default for CompletionService {
    fn default() -> (r: Self) {
        CompletionService::new()
    }
}

/// Coordinates debugging. No debug adapter is attached yet, so every
/// request succeeds without effect.
pub struct DebugService {}

impl DebugService {
    pub fn new() -> (r: Self) {
        DebugService {}
    }

    pub fn start_debug_session(&self, target: &str) -> (r: Result<(), String>)
        ensures
            r is Ok,
    {
        Ok(())
    }

    pub fn set_breakpoint(&self, file: &str, line: usize) -> (r: Result<(), String>)
        ensures
            r is Ok,
    {
        Ok(())
    }

    pub fn step(&self) -> (r: Result<(), String>)
        ensures
            r is Ok,
    {
        Ok(())
    }
}

impl Default for DebugService {
    fn default() -> (r: Self) {
        DebugService::new()
    }
}

/// Text editing operations. No buffer is attached yet: edits succeed
/// without effect and reads return the empty text.
pub struct EditorService {}

impl EditorService {
    pub fn new() -> (r: Self) {
        EditorService {}
    }

    pub fn insert_text(&self, text: &str, position: usize) -> (r: Result<(), String>)
        ensures
            r is Ok,
    {
        Ok(())
    }

    pub fn delete_text(&self, start: usize, end: usize) -> (r: Result<(), String>)
        ensures
            r is Ok,
    {
        Ok(())
    }

    pub fn get_text(&self, start: usize, end: usize) -> (r: String)
        ensures
            r@.len() == 0,
    {
        String::new()
    }

    pub fn format_text(&self, start: usize, end: usize) -> (r: Result<(), String>)
        ensures
            r is Ok,
    {
        Ok(())
    }
}

impl Default for EditorService {
    fn default() -> (r: Self) {
        EditorService::new()
    }
}

/// Global and in-document search. No search engine is attached yet, so
/// every search finds nothing.
pub struct SearchService {}

/// A place where a search matched.
#[derive(Debug, Clone)]
pub struct SearchResult {
    pub file_path: String,
    pub line_number: usize,
    pub column: usize,
    pub content: String,
}

impl SearchService {
    pub fn new() -> (r: Self) {
        SearchService {}
    }

    pub fn global_search(&self, query: &str) -> (r: Vec<SearchResult>)
        ensures
            r@.len() == 0,
    {
        Vec::new()
    }

    pub fn find_in_document(&self, document: &str, query: &str) -> (r: Vec<usize>)
        ensures
            r@.len() == 0,
    {
        Vec::new()
    }
}

impl Default for SearchService {
    fn default() -> (r: Self) {
        SearchService::new()
    }
}

} // verus!
