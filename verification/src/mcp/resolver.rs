//! Finding a symbol that is given by its name alone.
//!
//! The search goes in a fixed order. With a file to look in, the symbols of
//! that file come first: the first whose name is exactly the one sought is
//! the answer. Without such a file, or without such a symbol in it, the
//! workspace is searched, and of what the server returns only names that are
//! exactly the one sought count, since the server matches loosely. The first
//! of those is the answer; where there is none, the symbol is not found.

use crate::error::ToolError;
use crate::lsp::types::{
    checked_from_lsp_position, one_based, shown_path, uri_display, DocumentSymbol,
    DocumentSymbolResponse, Position, SymbolInformation,
};
use crate::mcp::tools::{PositionParams, SymbolNameParams, SymbolQuery};
use vstd::prelude::*;

verus! {

/// Whether a place has a form counted from one.
pub open spec fn has_user_form(place: Position) -> bool {
    place.line < u32::MAX && place.character < u32::MAX
}

/// Whether a listed symbol is the one sought: it has exactly the name, and
/// the place of its declaration can be written counted from one.
pub open spec fn is_sought(symbol: SymbolInformation, name: Seq<char>) -> bool {
    symbol.name@ == name && has_user_form(symbol.location.range.start)
}

/// The first of `symbols` that is the one sought.
pub open spec fn first_listed(symbols: Seq<SymbolInformation>, name: Seq<char>) -> Option<
    SymbolInformation,
>
    decreases symbols.len(),
{
    if symbols.len() == 0 {
        None
    } else if is_sought(symbols[0], name) {
        Some(symbols[0])
    } else {
        first_listed(symbols.drop_first(), name)
    }
}

/// The place of the name of the first symbol of a forest that is the one
/// sought, where a symbol comes before its children and these before the
/// symbols that follow it.
pub open spec fn first_in_forest(symbols: Seq<DocumentSymbol>, name: Seq<char>) -> Option<
    Position,
>
    decreases symbols,
{
    if symbols.len() == 0 {
        None
    } else if symbols[0].name@ == name && has_user_form(symbols[0].selection_range.start) {
        Some(symbols[0].selection_range.start)
    } else {
        match first_in_forest(symbols[0].children@, name) {
            Some(place) => Some(place),
            None => first_in_forest(symbols.drop_first(), name),
        }
    }
}

/// The place in a document of the symbol sought, among the symbols that the
/// server listed for the document; none where the server listed nothing,
/// because the document could not be opened or the request failed.
pub open spec fn place_in_document(response: Option<DocumentSymbolResponse>, name: Seq<char>) -> Option<
    Position,
> {
    match response {
        Some(DocumentSymbolResponse::Flat(symbols)) => match first_listed(symbols@, name) {
            Some(symbol) => Some(symbol.location.range.start),
            None => None,
        },
        Some(DocumentSymbolResponse::Nested(symbols)) => first_in_forest(symbols@, name),
        None => None,
    }
}

/// `found` is the place `place` of the file `file_path`, counted from one.
pub open spec fn is_place(found: PositionParams, file_path: Seq<char>, place: Position) -> bool {
    &&& found.file_path@ == file_path
    &&& (found.line as int, found.column as int) == one_based(place)
}

fn find_listed(symbols: &Vec<SymbolInformation>, name: &str) -> (found: Option<usize>)
    ensures
        match found {
            Some(i) => i < symbols@.len() && first_listed(symbols@, name@) == Some(
                symbols@[i as int],
            ) && is_sought(symbols@[i as int], name@),
            None => first_listed(symbols@, name@) is None,
        },
{
    let mut i: usize = 0;
    assert(symbols@.skip(0) =~= symbols@);
    while i < symbols.len()
        invariant
            i <= symbols@.len(),
            first_listed(symbols@, name@) == first_listed(symbols@.skip(i as int), name@),
        decreases symbols@.len() - i,
    {
        proof {
            assert(symbols@.skip(i as int).drop_first() =~= symbols@.skip(i + 1));
        }
        let symbol = &symbols[i];
        if symbol.name.as_str().eq(name) && checked_from_lsp_position(
            symbol.location.range.start,
        ).is_some() {
            return Some(i);
        }
        i = i + 1;
    }
    None
}

fn find_in_forest(symbols: &Vec<DocumentSymbol>, name: &str) -> (found: Option<Position>)
    ensures
        found == first_in_forest(symbols@, name@),
        found matches Some(place) ==> has_user_form(place),
    decreases symbols,
{
    let mut i: usize = 0;
    assert(symbols@.skip(0) =~= symbols@);
    while i < symbols.len()
        invariant
            i <= symbols@.len(),
            first_in_forest(symbols@, name@) == first_in_forest(symbols@.skip(i as int), name@),
        decreases symbols@.len() - i,
    {
        proof {
            assert(symbols@.skip(i as int).drop_first() =~= symbols@.skip(i + 1));
        }
        let symbol = &symbols[i];
        if symbol.name.as_str().eq(name) && checked_from_lsp_position(
            symbol.selection_range.start,
        ).is_some() {
            return Some(symbol.selection_range.start);
        }
        match find_in_forest(&symbol.children, name) {
            Some(place) => {
                return Some(place);
            },
            None => {},
        }
        i = i + 1;
    }
    None
}

/// What is to be done next to find a symbol, or how the search ended.
#[derive(Clone, Debug, PartialEq, Eq)]
pub enum Resolution {
    /// Ask the server for the symbols of this file.
    AskDocument {
        /// The path of the file.
        file_path: String,
    },
    /// Ask the server for the symbols of the workspace that match this query.
    AskWorkspace {
        /// The query: the name sought.
        query: String,
    },
    /// The symbol is at this place.
    Found(PositionParams),
}

/// The search for a symbol by name, with an optional file to look in first.
#[derive(Clone, Debug, PartialEq, Eq)]
pub struct SymbolResolver {
    /// The name sought.
    pub name: String,
    /// The file to look in first.
    pub file_hint: Option<String>,
}

/// The view of an optional owned string.
pub open spec fn hint_text(hint: Option<String>) -> Option<Seq<char>> {
    match hint {
        Some(path) => Some(path@),
        None => None,
    }
}

/// What a whole search comes to, given what the server would answer: the
/// symbols `document` of the hinted file, if they can be had, and the
/// symbols `workspace` of the search. The file comes first; the workspace
/// counts only where the file gives nothing.
pub open spec fn resolved(
    name: Seq<char>,
    file_hint: Option<Seq<char>>,
    document: Option<DocumentSymbolResponse>,
    workspace: Seq<SymbolInformation>,
    result: Result<PositionParams, ToolError>,
) -> bool {
    match file_hint {
        Some(path) if place_in_document(document, name) is Some => result matches Ok(found)
            && is_place(found, path, place_in_document(document, name)->Some_0),
        _ => found_in_workspace(name, workspace, result),
    }
}

/// What the search of the workspace comes to.
pub open spec fn found_in_workspace(
    name: Seq<char>,
    workspace: Seq<SymbolInformation>,
    result: Result<PositionParams, ToolError>,
) -> bool {
    match first_listed(workspace, name) {
        Some(symbol) => result matches Ok(found) && is_place(
            found,
            shown_path(symbol.location.uri@),
            symbol.location.range.start,
        ),
        None => result matches Err(ToolError::SymbolNotFound),
    }
}

impl SymbolResolver {
    /// A search for `name`, looking first in the file `file_hint` if one is given.
    pub fn new(name: &str, file_hint: Option<&str>) -> (resolver: SymbolResolver)
        ensures
            resolver.name@ == name@,
            hint_text(resolver.file_hint) == crate::lsp::documents::optional_text(file_hint),
    {
        let file_hint = match file_hint {
            Some(path) => Some(path.to_owned()),
            None => None,
        };
        SymbolResolver { name: name.to_owned(), file_hint }
    }

    /// The search that a query by name asks for.
    pub fn for_query(query: &SymbolNameParams) -> (resolver: SymbolResolver)
        ensures
            resolver.name == query.symbol,
            resolver.file_hint == query.file_path,
    {
        SymbolResolver { name: query.symbol.clone(), file_hint: query.file_path.clone() }
    }

    /// The first step of the search: the symbols of the hinted file where
    /// there is one, else the workspace.
    pub fn resolve(&self) -> (step: Resolution)
        ensures
            match self.file_hint {
                Some(path) => step matches Resolution::AskDocument { file_path } && file_path@
                    == path@,
                None => step matches Resolution::AskWorkspace { query } && query@ == self.name@,
            },
    {
        match &self.file_hint {
            Some(path) => Resolution::AskDocument { file_path: path.clone() },
            None => Resolution::AskWorkspace { query: self.name.clone() },
        }
    }

    /// The step after the server was asked for the symbols of the file
    /// `file_path`: the place of the symbol sought if the file declares it,
    /// else the search of the workspace. `response` is what the server
    /// listed, or nothing where the file could not be opened or the request
    /// failed; a file whose symbols cannot be had declares nothing.
    pub fn document_answered(&self, file_path: &str, response: Option<&DocumentSymbolResponse>) -> (step:
        Resolution)
        ensures
            match place_in_document(
                match response {
                    Some(listed) => Some(*listed),
                    None => None,
                },
                self.name@,
            ) {
                Some(place) => step matches Resolution::Found(found) && is_place(
                    found,
                    file_path@,
                    place,
                ),
                None => step matches Resolution::AskWorkspace { query } && query@ == self.name@,
            },
    {
        let place = match response {
            Some(DocumentSymbolResponse::Flat(symbols)) => {
                match find_listed(symbols, self.name.as_str()) {
                    Some(i) => Some(symbols[i].location.range.start),
                    None => None,
                }
            },
            Some(DocumentSymbolResponse::Nested(symbols)) => find_in_forest(
                symbols,
                self.name.as_str(),
            ),
            None => None,
        };
        match place {
            Some(place) => Resolution::Found(
                PositionParams {
                    file_path: file_path.to_owned(),
                    line: place.line + 1,
                    column: place.character + 1,
                },
            ),
            None => Resolution::AskWorkspace { query: self.name.clone() },
        }
    }

    /// The whole search at once, for answers that are at hand: `document`
    /// is what the server lists for the hinted file, or nothing where that
    /// cannot be had, and `workspace` is what it returns for the search of
    /// the workspace. The steps above, taken in their order, come to this.
    pub fn resolve_in(
        &self,
        document: Option<&DocumentSymbolResponse>,
        workspace: &Vec<SymbolInformation>,
    ) -> (result: Result<PositionParams, ToolError>)
        ensures
            resolved(
                self.name@,
                hint_text(self.file_hint),
                match document {
                    Some(listed) => Some(*listed),
                    None => None,
                },
                workspace@,
                result,
            ),
    {
        match self.resolve() {
            Resolution::AskDocument { file_path } => {
                match self.document_answered(file_path.as_str(), document) {
                    Resolution::Found(place) => Ok(place),
                    _ => self.workspace_answered(workspace),
                }
            },
            _ => self.workspace_answered(workspace),
        }
    }

    /// The end of the search, after the server answered the search of the
    /// workspace: the place of the first symbol with exactly the name
    /// sought, or `SymbolNotFound` where no symbol has it.
    pub fn workspace_answered(&self, symbols: &Vec<SymbolInformation>) -> (result: Result<
        PositionParams,
        ToolError,
    >)
        ensures
            found_in_workspace(self.name@, symbols@, result),
    {
        match find_listed(symbols, self.name.as_str()) {
            Some(i) => {
                let symbol = &symbols[i];
                let place = symbol.location.range.start;
                Ok(
                    PositionParams {
                        file_path: uri_display(symbol.location.uri.as_str()),
                        line: place.line + 1,
                        column: place.character + 1,
                    },
                )
            },
            None => Err(ToolError::SymbolNotFound),
        }
    }
}

/// A symbol that the hinted file declares is found there, whatever the
/// workspace search would return.
pub proof fn lemma_file_comes_first(
    name: Seq<char>,
    path: Seq<char>,
    document: Option<DocumentSymbolResponse>,
    workspace: Seq<SymbolInformation>,
    other_workspace: Seq<SymbolInformation>,
    result: Result<PositionParams, ToolError>,
)
    requires
        place_in_document(document, name) is Some,
        resolved(name, Some(path), document, workspace, result),
    ensures
        result matches Ok(found) && is_place(
            found,
            path,
            place_in_document(document, name)->Some_0,
        ),
        resolved(name, Some(path), document, other_workspace, result),
{
}

/// Without a hinted file, or with one that does not declare the symbol, the
/// search comes to what the workspace gives.
pub proof fn lemma_workspace_is_the_fallback(
    name: Seq<char>,
    file_hint: Option<Seq<char>>,
    document: Option<DocumentSymbolResponse>,
    workspace: Seq<SymbolInformation>,
    result: Result<PositionParams, ToolError>,
)
    requires
        file_hint is None || place_in_document(document, name) is None,
    ensures
        resolved(name, file_hint, document, workspace, result) == found_in_workspace(
            name,
            workspace,
            result,
        ),
{
}

/// A symbol that is found in the workspace has exactly the name sought, and
/// no symbol before it in the server's answer has; where the answer holds no
/// such symbol, however close the names in it come, the symbol is not found.
pub proof fn lemma_first_listed_is_first_exact(symbols: Seq<SymbolInformation>, name: Seq<char>)
    ensures
        match first_listed(symbols, name) {
            Some(symbol) => exists|i: int|
                0 <= i < symbols.len() && symbols[i] == symbol && is_sought(symbol, name)
                    && forall|j: int| 0 <= j < i ==> !is_sought(#[trigger] symbols[j], name),
            None => forall|j: int| 0 <= j < symbols.len() ==> !is_sought(#[trigger] symbols[j], name),
        },
    decreases symbols.len(),
{
    if symbols.len() > 0 && !is_sought(symbols[0], name) {
        let rest = symbols.drop_first();
        lemma_first_listed_is_first_exact(rest, name);
        match first_listed(rest, name) {
            Some(symbol) => {
                let i = choose|i: int|
                    0 <= i < rest.len() && rest[i] == symbol && is_sought(symbol, name)
                        && forall|j: int| 0 <= j < i ==> !is_sought(#[trigger] rest[j], name);
                assert forall|j: int| 0 <= j < i + 1 implies !is_sought(
                    #[trigger] symbols[j],
                    name,
                ) by {
                    if j > 0 {
                        assert(symbols[j] == rest[j - 1]);
                    }
                }
            },
            None => {
                assert forall|j: int| 0 <= j < symbols.len() implies !is_sought(
                    #[trigger] symbols[j],
                    name,
                ) by {
                    if j > 0 {
                        assert(symbols[j] == rest[j - 1]);
                    }
                }
            },
        }
    }
}

/// Where exactly one symbol of the server's answer has the name sought, the
/// search of the workspace finds that symbol, wherever in the answer it stands.
pub proof fn lemma_only_symbol_of_its_name_is_found(
    symbols: Seq<SymbolInformation>,
    name: Seq<char>,
    at: int,
    result: Result<PositionParams, ToolError>,
)
    requires
        0 <= at < symbols.len(),
        is_sought(symbols[at], name),
        forall|j: int| 0 <= j < symbols.len() && j != at ==> (#[trigger] symbols[j]).name@ != name,
        found_in_workspace(name, symbols, result),
    ensures
        result matches Ok(found) && is_place(
            found,
            shown_path(symbols[at].location.uri@),
            symbols[at].location.range.start,
        ),
{
    lemma_first_listed_is_first_exact(symbols, name);
}

/// Where a query points: to a place as it stands, or to a search by name.
#[derive(Clone, Debug, PartialEq, Eq)]
pub enum QueryTarget {
    /// The place is given.
    Place(PositionParams),
    /// The place is to be found.
    Search(SymbolResolver),
}

/// Where a query points.
pub fn query_target(query: &SymbolQuery) -> (target: QueryTarget)
    ensures
        match *query {
            SymbolQuery::Position(place) => target matches QueryTarget::Place(given)
                && given.file_path == place.file_path && given.line == place.line && given.column
                == place.column,
            SymbolQuery::Name(named) => target matches QueryTarget::Search(resolver)
                && resolver.name == named.symbol && resolver.file_hint == named.file_path,
        },
{
    match query {
        SymbolQuery::Position(place) => QueryTarget::Place(
            PositionParams {
                file_path: place.file_path.clone(),
                line: place.line,
                column: place.column,
            },
        ),
        SymbolQuery::Name(named) => QueryTarget::Search(SymbolResolver::for_query(named)),
    }
}

} // verus!
