//! The parameters of the tools and the shapes of structured results.
//!
//! Nine tools are offered: `goto_definition`, `find_references`, `hover`,
//! `document_symbols`, `workspace_symbols`, `incoming_calls`,
//! `outgoing_calls`, `implementations` and `type_definition`.

use vstd::prelude::*;

verus! {

/// A place in a file, as a user writes it.
#[derive(Clone, Debug, PartialEq, Eq)]
pub struct PositionParams {
    /// The path of the file.
    pub file_path: String,
    /// The line, counted from one.
    pub line: u32,
    /// The column, counted from one.
    pub column: u32,
}

/// A symbol given by its name, with an optional file to look in first.
#[derive(Clone, Debug, PartialEq, Eq)]
pub struct SymbolNameParams {
    /// The name of the symbol.
    pub symbol: String,
    /// A file in which the symbol is looked for first.
    pub file_path: Option<String>,
}

/// A symbol, given by its place or by its name.
#[derive(Clone, Debug, PartialEq, Eq)]
pub enum SymbolQuery {
    /// The symbol at a place in a file.
    Position(PositionParams),
    /// The symbol with a name.
    Name(SymbolNameParams),
}

/// The parameters of `goto_definition`.
#[derive(Clone, Debug, PartialEq, Eq)]
pub struct GotoDefinitionParams {
    /// The symbol whose definition is asked for.
    pub query: SymbolQuery,
}

/// The parameters of `find_references`.
#[derive(Clone, Debug, PartialEq, Eq)]
pub struct FindReferencesParams {
    /// The symbol whose references are asked for.
    pub query: SymbolQuery,
    /// Whether the declaration is to be among the results; `false` where
    /// the caller does not say.
    pub include_declaration: bool,
}

/// The parameters of `hover`.
#[derive(Clone, Debug, PartialEq, Eq)]
pub struct HoverParams {
    /// The place to get information for.
    pub position: PositionParams,
}

/// The parameters of `document_symbols`.
#[derive(Clone, Debug, PartialEq, Eq)]
pub struct DocumentSymbolsParams {
    /// The path of the file.
    pub file_path: String,
}

/// The parameters of `workspace_symbols`.
#[derive(Clone, Debug, PartialEq, Eq)]
pub struct WorkspaceSymbolsParams {
    /// The text to search for.
    pub query: String,
    /// How many results are returned at most; `default_max_results()` where
    /// the caller does not say.
    pub max_results: u32,
}

/// How many results a workspace search returns where the caller sets no limit.
pub fn default_max_results() -> (limit: u32)
    ensures
        limit == 50,
{
    50
}

/// The parameters of `incoming_calls`.
#[derive(Clone, Debug, PartialEq, Eq)]
pub struct IncomingCallsParams {
    /// The place of the function whose callers are asked for.
    pub position: PositionParams,
}

/// The parameters of `outgoing_calls`.
#[derive(Clone, Debug, PartialEq, Eq)]
pub struct OutgoingCallsParams {
    /// The place of the function whose callees are asked for.
    pub position: PositionParams,
}

/// The parameters of `implementations`.
#[derive(Clone, Debug, PartialEq, Eq)]
pub struct ImplementationsParams {
    /// The trait or interface whose implementations are asked for.
    pub query: SymbolQuery,
}

/// The parameters of `type_definition`.
#[derive(Clone, Debug, PartialEq, Eq)]
pub struct TypeDefinitionParams {
    /// The place of the symbol whose type is asked for.
    pub position: PositionParams,
}

/// A place in the source with the lines around it.
#[derive(Clone, Debug, PartialEq, Eq)]
pub struct LocationWithContext {
    /// The path of the file.
    pub file_path: String,
    /// The line, counted from one.
    pub line: u32,
    /// The column, counted from one.
    pub column: u32,
    /// The source line at the place.
    pub context: String,
    /// The lines before it.
    pub context_before: Option<Vec<String>>,
    /// The lines after it.
    pub context_after: Option<Vec<String>>,
}

/// A symbol with its place.
#[derive(Clone, Debug, PartialEq, Eq)]
pub struct SymbolInfo {
    /// The name of the symbol.
    pub name: String,
    /// The kind of the symbol, such as function or struct.
    pub kind: String,
    /// Where the symbol is.
    pub location: LocationWithContext,
    /// The name of what contains it.
    pub container: Option<String>,
}

/// What a hover shows.
#[derive(Clone, Debug, PartialEq, Eq)]
pub struct HoverResult {
    /// The signature or declaration.
    pub signature: Option<String>,
    /// The documentation.
    pub documentation: Option<String>,
}

/// A function with the places of its calls.
#[derive(Clone, Debug, PartialEq, Eq)]
pub struct CallInfo {
    /// The function that makes or receives the calls.
    pub function: SymbolInfo,
    /// The places of the calls.
    pub call_sites: Vec<LocationWithContext>,
}

} // verus!
