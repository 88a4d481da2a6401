//! The course of one tool call, step by step.
//!
//! A call goes through the same stations whatever the tool: find the place
//! that the query points to, by name where it gives a name; have the
//! language server open the document; ask it; render the answer, with the
//! lines around each location where the answer is a list of locations. The
//! router says what is to be done next and takes the outcome of what was
//! done. A failure ends the call: nothing is asked twice.

use crate::error::{LspError, McpError, ToolError};
use crate::lsp::types::{
    CallHierarchyIncomingCall, CallHierarchyOutgoingCall, DocumentSymbolResponse,
    GotoDefinitionResponse, Hover, Location, SymbolInformation,
};
use crate::lsp::LspResult;
use crate::lsp::types::shown_path;
use crate::mcp::resolver::{
    first_listed, is_place, place_in_document, query_target, QueryTarget, Resolution,
    SymbolResolver,
};
use crate::mcp::server::{
    document_symbols_text, format_document_symbol_response, format_hover, format_incoming_calls,
    format_locations, format_outgoing_calls, format_workspace_symbols,
    goto_response_to_locations, hover_answer, incoming_calls_text, locations_text, open_failure,
    outgoing_calls_text, rendered_as, request_failure, resolution_failure, response_locations,
    workspace_symbols_text, LocatedSource, Tool, CONTEXT_LINES,
};
use crate::mcp::tools::{
    DocumentSymbolsParams, FindReferencesParams, GotoDefinitionParams, HoverParams,
    ImplementationsParams, IncomingCallsParams, OutgoingCallsParams, PositionParams, SymbolQuery,
    TypeDefinitionParams, WorkspaceSymbolsParams,
};
use vstd::prelude::*;

verus! {

/// A call of a tool, with its parameters.
#[derive(Clone, Debug, PartialEq, Eq)]
pub enum ToolCall {
    GotoDefinition(GotoDefinitionParams),
    FindReferences(FindReferencesParams),
    Hover(HoverParams),
    DocumentSymbols(DocumentSymbolsParams),
    WorkspaceSymbols(WorkspaceSymbolsParams),
    IncomingCalls(IncomingCallsParams),
    OutgoingCalls(OutgoingCallsParams),
    Implementations(ImplementationsParams),
    TypeDefinition(TypeDefinitionParams),
}

impl ToolCall {
    /// The tool that is called.
    pub open spec fn tool_spec(self) -> Tool {
        match self {
            ToolCall::GotoDefinition(_) => Tool::GotoDefinition,
            ToolCall::FindReferences(_) => Tool::FindReferences,
            ToolCall::Hover(_) => Tool::Hover,
            ToolCall::DocumentSymbols(_) => Tool::DocumentSymbols,
            ToolCall::WorkspaceSymbols(_) => Tool::WorkspaceSymbols,
            ToolCall::IncomingCalls(_) => Tool::IncomingCalls,
            ToolCall::OutgoingCalls(_) => Tool::OutgoingCalls,
            ToolCall::Implementations(_) => Tool::Implementations,
            ToolCall::TypeDefinition(_) => Tool::TypeDefinition,
        }
    }

    /// The tool that is called.
    pub fn tool(&self) -> (tool: Tool)
        ensures
            tool == self.tool_spec(),
    {
        match self {
            ToolCall::GotoDefinition(_) => Tool::GotoDefinition,
            ToolCall::FindReferences(_) => Tool::FindReferences,
            ToolCall::Hover(_) => Tool::Hover,
            ToolCall::DocumentSymbols(_) => Tool::DocumentSymbols,
            ToolCall::WorkspaceSymbols(_) => Tool::WorkspaceSymbols,
            ToolCall::IncomingCalls(_) => Tool::IncomingCalls,
            ToolCall::OutgoingCalls(_) => Tool::OutgoingCalls,
            ToolCall::Implementations(_) => Tool::Implementations,
            ToolCall::TypeDefinition(_) => Tool::TypeDefinition,
        }
    }
}

/// What the language server is asked.
#[derive(Clone, Debug, PartialEq, Eq)]
pub enum Question {
    /// Where is the symbol at this place defined?
    Definition(PositionParams),
    /// Where is the symbol at this place used?
    References {
        /// The place of the symbol.
        place: PositionParams,
        /// Whether the declaration counts as a use.
        include_declaration: bool,
    },
    /// What is known of the symbol at this place?
    Hover(PositionParams),
    /// Which symbols does this file declare?
    DocumentSymbols {
        /// The path of the file.
        file_path: String,
    },
    /// Which symbols of the workspace match this query?
    WorkspaceSymbols {
        /// The query.
        query: String,
    },
    /// Who calls the function at this place?
    IncomingCalls(PositionParams),
    /// Whom does the function at this place call?
    OutgoingCalls(PositionParams),
    /// Where is the trait or interface at this place implemented?
    Implementations(PositionParams),
    /// Where is the type of the symbol at this place defined?
    TypeDefinition(PositionParams),
}

/// What the language server answered.
#[derive(Debug, PartialEq, Eq)]
pub enum Answer {
    /// The answer about a definition, an implementation or a type definition.
    Definition(GotoDefinitionResponse),
    /// The references.
    References(Vec<Location>),
    /// The hover, if there is one.
    Hover(Option<Hover>),
    /// The symbols of a document.
    DocumentSymbols(DocumentSymbolResponse),
    /// The symbols found in the workspace.
    WorkspaceSymbols(Vec<SymbolInformation>),
    /// The callers.
    IncomingCalls(Vec<CallHierarchyIncomingCall>),
    /// The callees.
    OutgoingCalls(Vec<CallHierarchyOutgoingCall>),
}

/// What is to be done next for a tool call.
#[derive(Debug)]
pub enum Action {
    /// Have the language server open the document at this path.
    Open {
        /// The path of the file.
        file_path: String,
    },
    /// Ask the language server.
    Ask(Question),
    /// Read the files that these locations point into.
    Read {
        /// The locations, in the order in which they are rendered.
        locations: Vec<Location>,
    },
    /// The call is done: this is its result.
    Reply(String),
    /// The call is done: it failed.
    Fail(McpError),
}

/// What came of the last action.
#[derive(Debug)]
pub enum Event {
    /// The document was opened, or could not be.
    Opened(LspResult<()>),
    /// The language server answered, or the request failed.
    Answered(LspResult<Answer>),
    /// The files were read: each location with the text of its file, or
    /// with the failure to read it.
    Sources(Vec<LocatedSource>),
}

/// How far a tool call has come.
#[derive(Debug, PartialEq, Eq)]
pub enum Stage {
    /// The file in which the symbol is looked for first is being opened.
    HintOpening {
        /// The search.
        resolver: SymbolResolver,
        /// The path of the file.
        file_path: String,
    },
    /// The language server is asked for the symbols of that file.
    HintAsked {
        /// The search.
        resolver: SymbolResolver,
        /// The path of the file.
        file_path: String,
    },
    /// The language server is asked for the symbols of the workspace that
    /// match the name.
    WorkspaceAsked {
        /// The search.
        resolver: SymbolResolver,
    },
    /// The document that the call is about is being opened.
    Opening {
        /// The place that the call is about.
        place: PositionParams,
    },
    /// The language server is asked what the tool asks.
    Asked,
    /// The files of the locations are being read.
    Reading,
    /// The call is done.
    Done,
}

/// The course of one tool call.
#[derive(Debug)]
pub struct ToolRouter {
    /// The call.
    pub call: ToolCall,
    /// How far it has come.
    pub stage: Stage,
}

/// Two places are the same place.
pub open spec fn same_place(a: PositionParams, b: PositionParams) -> bool {
    a.file_path@ == b.file_path@ && a.line == b.line && a.column == b.column
}

/// The question that a call asks once its place is known.
pub open spec fn asks(call: ToolCall, place: PositionParams, question: Question) -> bool {
    match call {
        ToolCall::GotoDefinition(_) => question matches Question::Definition(at) && same_place(
            at,
            place,
        ),
        ToolCall::FindReferences(params) => question matches Question::References {
            place: at,
            include_declaration,
        } && same_place(at, place) && include_declaration == params.include_declaration,
        ToolCall::Hover(_) => question matches Question::Hover(at) && same_place(at, place),
        ToolCall::DocumentSymbols(_) => question matches Question::DocumentSymbols { file_path }
            && file_path@ == place.file_path@,
        ToolCall::WorkspaceSymbols(params) => question matches Question::WorkspaceSymbols {
            query,
        } && query@ == params.query@,
        ToolCall::IncomingCalls(_) => question matches Question::IncomingCalls(at) && same_place(
            at,
            place,
        ),
        ToolCall::OutgoingCalls(_) => question matches Question::OutgoingCalls(at) && same_place(
            at,
            place,
        ),
        ToolCall::Implementations(_) => question matches Question::Implementations(at)
            && same_place(at, place),
        ToolCall::TypeDefinition(_) => question matches Question::TypeDefinition(at)
            && same_place(at, place),
    }
}

/// The call has failed with `message` as an internal error.
pub open spec fn fails_with(action: Action, message: Seq<char>) -> bool {
    action matches Action::Fail(McpError::InternalError(detail)) && detail@ == message
}

/// The document of the place `place` is to be opened next.
pub open spec fn opens(stage: Stage, action: Action, place: PositionParams) -> bool {
    &&& stage matches Stage::Opening { place: kept } && same_place(kept, place)
    &&& action matches Action::Open { file_path } && file_path@ == place.file_path@
}

/// The workspace is to be searched for the name of `resolver` next.
pub open spec fn searches_workspace(stage: Stage, action: Action, resolver: SymbolResolver) -> bool {
    &&& stage == (Stage::WorkspaceAsked { resolver })
    &&& action matches Action::Ask(Question::WorkspaceSymbols { query }) && query@
        == resolver.name@
}

/// How a call begins.
pub open spec fn begins(call: ToolCall, stage: Stage, action: Action) -> bool {
    match call {
        ToolCall::GotoDefinition(GotoDefinitionParams { query }) => begins_with_query(
            query,
            stage,
            action,
        ),
        ToolCall::FindReferences(FindReferencesParams { query, .. }) => begins_with_query(
            query,
            stage,
            action,
        ),
        ToolCall::Implementations(ImplementationsParams { query }) => begins_with_query(
            query,
            stage,
            action,
        ),
        ToolCall::Hover(HoverParams { position }) => opens(stage, action, position),
        ToolCall::IncomingCalls(IncomingCallsParams { position }) => opens(stage, action, position),
        ToolCall::OutgoingCalls(OutgoingCallsParams { position }) => opens(stage, action, position),
        ToolCall::TypeDefinition(TypeDefinitionParams { position }) => opens(
            stage,
            action,
            position,
        ),
        ToolCall::DocumentSymbols(DocumentSymbolsParams { file_path }) => {
            &&& stage matches Stage::Opening { place } && place.file_path@ == file_path@
            &&& action matches Action::Open { file_path: opened } && opened@ == file_path@
        },
        ToolCall::WorkspaceSymbols(params) => {
            &&& stage == Stage::Asked
            &&& action matches Action::Ask(Question::WorkspaceSymbols { query }) && query@
                == params.query@
        },
    }
}

/// How a call with a query begins: a place is opened as it stands; a name is
/// looked for in the hinted file first, and in the workspace where no file
/// is hinted at.
pub open spec fn begins_with_query(query: SymbolQuery, stage: Stage, action: Action) -> bool {
    match query {
        SymbolQuery::Position(place) => opens(stage, action, place),
        SymbolQuery::Name(named) => match named.file_path {
            Some(path) => {
                &&& stage matches Stage::HintOpening { resolver, file_path } && resolver.name
                    == named.symbol && resolver.file_hint == named.file_path && file_path@
                    == path@
                &&& action matches Action::Open { file_path } && file_path@ == path@
            },
            None => {
                &&& stage matches Stage::WorkspaceAsked { resolver } && resolver.name
                    == named.symbol && resolver.file_hint == named.file_path
                &&& action matches Action::Ask(Question::WorkspaceSymbols { query: asked })
                    && asked@ == named.symbol@
            },
        },
    }
}

/// What follows the listing of the hinted file's symbols, or the failure to
/// get them: the document of the symbol's place if the file declares the
/// symbol, else the search of the workspace.
pub open spec fn after_hint(
    resolver: SymbolResolver,
    file_path: Seq<char>,
    response: Option<DocumentSymbolResponse>,
    stage: Stage,
    action: Action,
) -> bool {
    match place_in_document(response, resolver.name@) {
        Some(place) => {
            &&& stage matches Stage::Opening { place: found } && is_place(found, file_path, place)
            &&& action matches Action::Open { file_path: opened } && opened@ == file_path
        },
        None => searches_workspace(stage, action, resolver),
    }
}

/// What follows the answer to the search of the workspace: the document of
/// the first symbol with exactly the name sought, or the failure to find
/// the symbol.
pub open spec fn after_workspace(
    resolver: SymbolResolver,
    symbols: Seq<SymbolInformation>,
    stage: Stage,
    action: Action,
) -> bool {
    match first_listed(symbols, resolver.name@) {
        Some(symbol) => {
            &&& stage matches Stage::Opening { place: found } && is_place(
                found,
                shown_path(symbol.location.uri@),
                symbol.location.range.start,
            )
            &&& action matches Action::Open { file_path } && file_path@ == shown_path(
                symbol.location.uri@,
            )
        },
        None => stage == Stage::Done && action == Action::Fail(
            McpError::ToolError(ToolError::SymbolNotFound),
        ),
    }
}

/// What follows the answer to the question of the call: the reading of the
/// files where the answer is a list of locations, else the answer as text.
/// An answer to another question than the one asked is a failure.
pub open spec fn after_answer(call: ToolCall, answer: Answer, stage: Stage, action: Action) -> bool {
    match (call, answer) {
        (ToolCall::GotoDefinition(_), Answer::Definition(response)) => reads(
            stage,
            action,
            response_locations(response),
        ),
        (ToolCall::Implementations(_), Answer::Definition(response)) => reads(
            stage,
            action,
            response_locations(response),
        ),
        (ToolCall::TypeDefinition(_), Answer::Definition(response)) => reads(
            stage,
            action,
            response_locations(response),
        ),
        (ToolCall::FindReferences(_), Answer::References(locations)) => reads(
            stage,
            action,
            locations@,
        ),
        (ToolCall::Hover(_), Answer::Hover(hover)) => replies(stage, action, hover_answer(hover)),
        (ToolCall::DocumentSymbols(_), Answer::DocumentSymbols(response)) => replies(
            stage,
            action,
            document_symbols_text(response),
        ),
        (ToolCall::WorkspaceSymbols(params), Answer::WorkspaceSymbols(symbols)) => replies(
            stage,
            action,
            workspace_symbols_text(symbols@, params.query@, params.max_results as int),
        ),
        (ToolCall::IncomingCalls(_), Answer::IncomingCalls(calls)) => replies(
            stage,
            action,
            incoming_calls_text(calls@),
        ),
        (ToolCall::OutgoingCalls(_), Answer::OutgoingCalls(calls)) => replies(
            stage,
            action,
            outgoing_calls_text(calls@),
        ),
        _ => stage == Stage::Done && fails_with(action, "unexpected answer"@),
    }
}

/// The files of `locations` are to be read next.
pub open spec fn reads(stage: Stage, action: Action, locations: Seq<Location>) -> bool {
    &&& stage == Stage::Reading
    &&& action matches Action::Read { locations: read } && read@ == locations
}

/// The call is done with the text `text`.
pub open spec fn replies(stage: Stage, action: Action, text: Seq<char>) -> bool {
    &&& stage == Stage::Done
    &&& action matches Action::Reply(reply) && reply@ == text
}

/// The call has failed because the language server could not be asked or
/// did not answer.
pub open spec fn request_failed(call: ToolCall, error: LspError, stage: Stage, action: Action) -> bool {
    stage == Stage::Done && fails_with(
        action,
        call.tool_spec().name_spec() + " failed: "@ + error.message(),
    )
}

/// One step of a tool call: from the stage `before` and the event to the
/// stage `after` and the action.
pub open spec fn routed(call: ToolCall, before: Stage, event: Event, after: Stage, action: Action) -> bool {
    match (before, event) {
        (Stage::HintOpening { resolver, file_path }, Event::Opened(Ok(_))) => {
            &&& after == (Stage::HintAsked { resolver, file_path })
            &&& action matches Action::Ask(Question::DocumentSymbols { file_path: asked })
                && asked@ == file_path@
        },
        (Stage::HintOpening { resolver, file_path }, Event::Opened(Err(_))) => after_hint(
            resolver,
            file_path@,
            None,
            after,
            action,
        ),
        (
            Stage::HintAsked { resolver, file_path },
            Event::Answered(Ok(Answer::DocumentSymbols(response))),
        ) => after_hint(resolver, file_path@, Some(response), after, action),
        (Stage::HintAsked { resolver, file_path }, Event::Answered(Err(_))) => after_hint(
            resolver,
            file_path@,
            None,
            after,
            action,
        ),
        (
            Stage::WorkspaceAsked { resolver },
            Event::Answered(Ok(Answer::WorkspaceSymbols(symbols))),
        ) => after_workspace(resolver, symbols@, after, action),
        (Stage::WorkspaceAsked { .. }, Event::Answered(Err(error))) => request_failed(
            call,
            error,
            after,
            action,
        ),
        (Stage::Opening { place }, Event::Opened(Ok(_))) => {
            &&& after == Stage::Asked
            &&& action matches Action::Ask(question) && asks(call, place, question)
        },
        (Stage::Opening { .. }, Event::Opened(Err(error))) => after == Stage::Done && fails_with(
            action,
            "failed to open document: "@ + error.message(),
        ),
        (Stage::Asked, Event::Answered(Ok(answer))) => after_answer(call, answer, after, action),
        (Stage::Asked, Event::Answered(Err(error))) => request_failed(call, error, after, action),
        (Stage::Reading, Event::Sources(entries)) => after == Stage::Done && match locations_text(
            entries@,
            CONTEXT_LINES as int,
        ) {
            Ok(text) => action matches Action::Reply(reply) && reply@ == text,
            Err(message) => fails_with(action, message),
        },
        _ => after == Stage::Done && fails_with(action, "unexpected event"@),
    }
}

fn copy_place(place: &PositionParams) -> (copy: PositionParams)
    ensures
        same_place(copy, *place),
{
    PositionParams { file_path: place.file_path.clone(), line: place.line, column: place.column }
}

fn open_place(place: PositionParams) -> (next: (Stage, Action))
    ensures
        opens(next.0, next.1, place),
{
    let file_path = place.file_path.clone();
    (Stage::Opening { place }, Action::Open { file_path })
}

fn unexpected(what: &str) -> (next: (Stage, Action))
    ensures
        next.0 == Stage::Done,
        fails_with(next.1, what@),
{
    (Stage::Done, Action::Fail(McpError::InternalError(what.to_owned())))
}

fn search_workspace(resolver: SymbolResolver) -> (next: (Stage, Action))
    ensures
        searches_workspace(next.0, next.1, resolver),
{
    let query = resolver.name.clone();
    (Stage::WorkspaceAsked { resolver }, Action::Ask(Question::WorkspaceSymbols { query }))
}

fn begin_with_query(query: &SymbolQuery) -> (next: (Stage, Action))
    ensures
        begins_with_query(*query, next.0, next.1),
{
    match query_target(query) {
        QueryTarget::Place(place) => open_place(place),
        QueryTarget::Search(resolver) => match resolver.resolve() {
            Resolution::AskDocument { file_path } => {
                let opened = file_path.clone();
                (Stage::HintOpening { resolver, file_path }, Action::Open { file_path: opened })
            },
            Resolution::AskWorkspace { query } => (
                Stage::WorkspaceAsked { resolver },
                Action::Ask(Question::WorkspaceSymbols { query }),
            ),
            Resolution::Found(place) => open_place(place),
        },
    }
}

fn question(call: &ToolCall, place: PositionParams) -> (asked: Question)
    ensures
        asks(*call, place, asked),
{
    match call {
        ToolCall::GotoDefinition(_) => Question::Definition(place),
        ToolCall::FindReferences(params) => Question::References {
            place,
            include_declaration: params.include_declaration,
        },
        ToolCall::Hover(_) => Question::Hover(place),
        ToolCall::DocumentSymbols(_) => Question::DocumentSymbols { file_path: place.file_path },
        ToolCall::WorkspaceSymbols(params) => Question::WorkspaceSymbols {
            query: params.query.clone(),
        },
        ToolCall::IncomingCalls(_) => Question::IncomingCalls(place),
        ToolCall::OutgoingCalls(_) => Question::OutgoingCalls(place),
        ToolCall::Implementations(_) => Question::Implementations(place),
        ToolCall::TypeDefinition(_) => Question::TypeDefinition(place),
    }
}

fn on_hint(resolver: SymbolResolver, file_path: String, response: Option<&DocumentSymbolResponse>) -> (next:
    (Stage, Action))
    ensures
        after_hint(
            resolver,
            file_path@,
            match response {
                Some(listed) => Some(*listed),
                None => None,
            },
            next.0,
            next.1,
        ),
{
    match resolver.document_answered(file_path.as_str(), response) {
        Resolution::Found(place) => open_place(place),
        _ => search_workspace(resolver),
    }
}

fn on_workspace(resolver: SymbolResolver, symbols: &Vec<SymbolInformation>) -> (next: (
    Stage,
    Action,
))
    ensures
        after_workspace(resolver, symbols@, next.0, next.1),
{
    match resolver.workspace_answered(symbols) {
        Ok(place) => open_place(place),
        Err(error) => (Stage::Done, Action::Fail(resolution_failure(error))),
    }
}

fn on_request_failure(call: &ToolCall, error: &LspError) -> (next: (Stage, Action))
    ensures
        request_failed(*call, *error, next.0, next.1),
{
    (Stage::Done, Action::Fail(request_failure(call.tool(), error)))
}

fn on_answer(call: &ToolCall, answer: Answer) -> (next: (Stage, Action))
    ensures
        after_answer(*call, answer, next.0, next.1),
{
    match (call, answer) {
        (ToolCall::GotoDefinition(_), Answer::Definition(response)) => (
            Stage::Reading,
            Action::Read { locations: goto_response_to_locations(response) },
        ),
        (ToolCall::Implementations(_), Answer::Definition(response)) => (
            Stage::Reading,
            Action::Read { locations: goto_response_to_locations(response) },
        ),
        (ToolCall::TypeDefinition(_), Answer::Definition(response)) => (
            Stage::Reading,
            Action::Read { locations: goto_response_to_locations(response) },
        ),
        (ToolCall::FindReferences(_), Answer::References(locations)) => (
            Stage::Reading,
            Action::Read { locations },
        ),
        (ToolCall::Hover(_), Answer::Hover(hover)) => (
            Stage::Done,
            Action::Reply(format_hover(hover)),
        ),
        (ToolCall::DocumentSymbols(_), Answer::DocumentSymbols(response)) => (
            Stage::Done,
            Action::Reply(format_document_symbol_response(&response)),
        ),
        (ToolCall::WorkspaceSymbols(params), Answer::WorkspaceSymbols(symbols)) => (
            Stage::Done,
            Action::Reply(
                format_workspace_symbols(&symbols, params.query.as_str(), params.max_results),
            ),
        ),
        (ToolCall::IncomingCalls(_), Answer::IncomingCalls(calls)) => (
            Stage::Done,
            Action::Reply(format_incoming_calls(&calls)),
        ),
        (ToolCall::OutgoingCalls(_), Answer::OutgoingCalls(calls)) => (
            Stage::Done,
            Action::Reply(format_outgoing_calls(&calls)),
        ),
        _ => unexpected("unexpected answer"),
    }
}

impl ToolRouter {
    /// Begins a call and says what is to be done first.
    pub fn start(call: ToolCall) -> (begun: (ToolRouter, Action))
        ensures
            begun.0.call == call,
            begins(call, begun.0.stage, begun.1),
    {
        let (stage, action) = match &call {
            ToolCall::GotoDefinition(params) => begin_with_query(&params.query),
            ToolCall::FindReferences(params) => begin_with_query(&params.query),
            ToolCall::Implementations(params) => begin_with_query(&params.query),
            ToolCall::Hover(params) => open_place(copy_place(&params.position)),
            ToolCall::IncomingCalls(params) => open_place(copy_place(&params.position)),
            ToolCall::OutgoingCalls(params) => open_place(copy_place(&params.position)),
            ToolCall::TypeDefinition(params) => open_place(copy_place(&params.position)),
            ToolCall::DocumentSymbols(params) => open_place(
                PositionParams { file_path: params.file_path.clone(), line: 0, column: 0 },
            ),
            ToolCall::WorkspaceSymbols(params) => (
                Stage::Asked,
                Action::Ask(
                    question(
                        &call,
                        PositionParams { file_path: params.query.clone(), line: 0, column: 0 },
                    ),
                ),
            ),
        };
        (ToolRouter { call, stage }, action)
    }

    /// Whether the call is done.
    pub fn is_done(&self) -> (done: bool)
        ensures
            done == (self.stage == Stage::Done),
    {
        match self.stage {
            Stage::Done => true,
            _ => false,
        }
    }

    /// Takes what came of the last action and says what is to be done next.
    /// An event that the stage does not wait for ends the call as a failure.
    pub fn step(self, event: Event) -> (next: (ToolRouter, Action))
        ensures
            next.0.call == self.call,
            routed(self.call, self.stage, event, next.0.stage, next.1),
    {
        let call = self.call;
        let (stage, action) = match (self.stage, event) {
            (Stage::HintOpening { resolver, file_path }, Event::Opened(Ok(_))) => {
                let asked = file_path.clone();
                (
                    Stage::HintAsked { resolver, file_path },
                    Action::Ask(Question::DocumentSymbols { file_path: asked }),
                )
            },
            (Stage::HintOpening { resolver, file_path }, Event::Opened(Err(_))) => on_hint(
                resolver,
                file_path,
                None,
            ),
            (
                Stage::HintAsked { resolver, file_path },
                Event::Answered(Ok(Answer::DocumentSymbols(response))),
            ) => on_hint(resolver, file_path, Some(&response)),
            (Stage::HintAsked { resolver, file_path }, Event::Answered(Err(_))) => on_hint(
                resolver,
                file_path,
                None,
            ),
            (
                Stage::WorkspaceAsked { resolver },
                Event::Answered(Ok(Answer::WorkspaceSymbols(symbols))),
            ) => on_workspace(resolver, &symbols),
            (Stage::WorkspaceAsked { .. }, Event::Answered(Err(error))) => on_request_failure(
                &call,
                &error,
            ),
            (Stage::Opening { place }, Event::Opened(Ok(_))) => (
                Stage::Asked,
                Action::Ask(question(&call, place)),
            ),
            (Stage::Opening { .. }, Event::Opened(Err(error))) => (
                Stage::Done,
                Action::Fail(open_failure(&error)),
            ),
            (Stage::Asked, Event::Answered(Ok(answer))) => on_answer(&call, answer),
            (Stage::Asked, Event::Answered(Err(error))) => on_request_failure(&call, &error),
            (Stage::Reading, Event::Sources(entries)) => {
                match format_locations(&entries, CONTEXT_LINES) {
                    Ok(text) => (Stage::Done, Action::Reply(text)),
                    Err(error) => (Stage::Done, Action::Fail(error)),
                }
            },
            _ => unexpected("unexpected event"),
        };
        (ToolRouter { call, stage }, action)
    }
}

/// A reply or a failure ends the call, and nothing else does: after a step
/// the call is done exactly when the step gave its result.
pub proof fn lemma_result_ends_the_call(
    call: ToolCall,
    before: Stage,
    event: Event,
    after: Stage,
    action: Action,
)
    requires
        routed(call, before, event, after, action),
    ensures
        after == Stage::Done <==> action is Reply || action is Fail,
{
}

/// A call that is done stays done: whatever comes after is a failure, and
/// nothing is asked again.
pub proof fn lemma_done_is_final(call: ToolCall, event: Event, after: Stage, action: Action)
    requires
        routed(call, Stage::Done, event, after, action),
    ensures
        after == Stage::Done,
        action is Fail,
{
}

/// A request that fails or is not answered in time ends the call with a
/// failure: it is not sent again.
pub proof fn lemma_failed_request_is_not_retried(
    call: ToolCall,
    error: LspError,
    after: Stage,
    action: Action,
)
    requires
        routed(call, Stage::Asked, Event::Answered(Err(error)), after, action),
    ensures
        after == Stage::Done,
        action is Fail,
{
}

} // verus!
