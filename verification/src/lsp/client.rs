//! The session with a language server: its configuration, the handshake that
//! starts it, the requests it plans and the documents it holds open.
//!
//! Nothing here touches a process or a channel. Each step says what is to be
//! done next and takes the outcome of what was done before; the caller spawns
//! the server, sends the messages and waits.

use crate::error::LspError;
use crate::lsp::documents::{
    after_close, after_open, change_outcome, language_of, optional_text, send_failure,
    send_failure_text, DocumentTracker, Notification,
};
use crate::lsp::gateway::{settled, Method, Outcome, PendingRequest, RequestGateway};
use crate::lsp::handshake::RootPending;
use crate::lsp::types::{
    to_lsp_position, zero_based, DocumentSymbolResponse, GotoDefinitionResponse, Position,
    SymbolInformation, WorkspaceSymbolResponse,
};
use crate::lsp::LspResult;
use crate::time::TimeSpan;
use vstd::prelude::*;

verus! {

/// `lsp_types::ServerCapabilities`: what a language server says it can do.
/// The session carries the value as it came with the answer to the
/// handshake; nothing is claimed of what it holds.
#[verifier::external_type_specification]
#[verifier::external_body]
pub struct ExServerCapabilities(lsp_types::ServerCapabilities);

/// A notification from the language server.
#[derive(Clone, Copy, Debug, PartialEq, Eq, Structural)]
pub enum ServerNotification {
    /// Progress of work on the server.
    Progress,
    /// Diagnostics for a document.
    PublishDiagnostics,
}

/// The state with which notifications from the language server are handled.
/// Notifications are observed and not kept.
#[derive(Clone, Copy, Debug, PartialEq, Eq, Structural)]
pub struct ClientState {}

impl ClientState {
    /// The state before any notification.
    pub fn new() -> (state: ClientState)
        ensures
            state == (ClientState {  }),
    {
        ClientState {  }
    }

    /// Takes note of a notification. The answer says whether the message
    /// loop goes on, which it always does.
    pub fn observe(&mut self, notification: ServerNotification) -> (go_on: bool)
        ensures
            go_on,
            *final(self) == *old(self),
    {
        true
    }
}

/// How a session is set up.
#[derive(Clone, Debug, PartialEq, Eq)]
pub struct LspClientConfig {
    /// The command that starts the language server.
    pub server_command: String,
    /// The arguments of the command.
    pub server_args: Vec<String>,
    /// The root directory of the workspace.
    pub workspace_root: String,
    /// How long the handshake may take.
    pub init_timeout: TimeSpan,
    /// How long a request may take.
    pub request_timeout: TimeSpan,
}

impl LspClientConfig {
    /// The configuration that is used where nothing is set: `rust-analyzer`
    /// without arguments in the current directory, thirty seconds for the
    /// handshake and ten for a request.
    pub open spec fn is_default(self) -> bool {
        &&& self.server_command@ == "rust-analyzer"@
        &&& self.server_args@.len() == 0
        &&& self.workspace_root@ == "."@
        &&& self.init_timeout == TimeSpan::of(30, 0)
        &&& self.request_timeout == TimeSpan::of(10, 0)
    }
}

impl Default for LspClientConfig {
    fn default() -> (config: LspClientConfig)
        ensures
            config.is_default(),
    {
        LspClientConfig {
            server_command: "rust-analyzer".to_owned(),
            server_args: Vec::new(),
            workspace_root: ".".to_owned(),
            init_timeout: TimeSpan::from_secs(30),
            request_timeout: TimeSpan::from_secs(10),
        }
    }
}

/// Builds the configuration of a session, setting by setting.
#[derive(Debug)]
pub struct LspClientBuilder {
    /// The configuration so far.
    pub config: LspClientConfig,
}

impl Default for LspClientBuilder {
    fn default() -> (builder: LspClientBuilder)
        ensures
            builder.config.is_default(),
    {
        LspClientBuilder { config: LspClientConfig::default() }
    }
}

impl LspClientBuilder {
    /// A builder with the default configuration.
    pub fn new() -> (builder: LspClientBuilder)
        ensures
            builder.config.is_default(),
    {
        LspClientBuilder { config: LspClientConfig::default() }
    }

    /// Sets the command that starts the language server.
    pub fn server_command(self, command: &str) -> (builder: LspClientBuilder)
        ensures
            builder.config.server_command@ == command@,
            builder.config.server_args == self.config.server_args,
            builder.config.workspace_root == self.config.workspace_root,
            builder.config.init_timeout == self.config.init_timeout,
            builder.config.request_timeout == self.config.request_timeout,
    {
        let mut builder = self;
        builder.config.server_command = command.to_owned();
        builder
    }

    /// Sets the arguments of the command.
    pub fn server_args(self, args: Vec<String>) -> (builder: LspClientBuilder)
        ensures
            builder.config.server_args == args,
            builder.config.server_command == self.config.server_command,
            builder.config.workspace_root == self.config.workspace_root,
            builder.config.init_timeout == self.config.init_timeout,
            builder.config.request_timeout == self.config.request_timeout,
    {
        let mut builder = self;
        builder.config.server_args = args;
        builder
    }

    /// Sets the root directory of the workspace.
    pub fn workspace_root(self, path: &str) -> (builder: LspClientBuilder)
        ensures
            builder.config.workspace_root@ == path@,
            builder.config.server_command == self.config.server_command,
            builder.config.server_args == self.config.server_args,
            builder.config.init_timeout == self.config.init_timeout,
            builder.config.request_timeout == self.config.request_timeout,
    {
        let mut builder = self;
        builder.config.workspace_root = path.to_owned();
        builder
    }

    /// Sets how long the handshake may take.
    pub fn init_timeout(self, timeout: TimeSpan) -> (builder: LspClientBuilder)
        ensures
            builder.config.init_timeout == timeout,
            builder.config.server_command == self.config.server_command,
            builder.config.server_args == self.config.server_args,
            builder.config.workspace_root == self.config.workspace_root,
            builder.config.request_timeout == self.config.request_timeout,
    {
        let mut builder = self;
        builder.config.init_timeout = timeout;
        builder
    }

    /// Sets how long a request may take.
    pub fn request_timeout(self, timeout: TimeSpan) -> (builder: LspClientBuilder)
        ensures
            builder.config.request_timeout == timeout,
            builder.config.server_command == self.config.server_command,
            builder.config.server_args == self.config.server_args,
            builder.config.workspace_root == self.config.workspace_root,
            builder.config.init_timeout == self.config.init_timeout,
    {
        let mut builder = self;
        builder.config.request_timeout = timeout;
        builder
    }

    /// Begins the handshake. The first thing to do is to resolve the
    /// workspace root to an absolute path without symbolic links.
    pub fn build(self) -> (stage: RootPending)
        ensures
            stage.config == self.config,
    {
        RootPending { config: self.config }
    }
}

/// A document and a place in it.
#[derive(Clone, Debug, PartialEq, Eq)]
pub struct TextDocumentPosition {
    /// The URI of the document.
    pub uri: String,
    /// The place, counted from zero.
    pub position: Position,
}

/// A request to the language server, with what it asks about.
#[derive(Clone, Debug, PartialEq, Eq)]
pub enum Request {
    /// The server shall prepare to exit.
    Shutdown,
    /// Where is the symbol at this place defined?
    Definition(TextDocumentPosition),
    /// Where is the symbol at this place used?
    References {
        /// The place of the symbol.
        target: TextDocumentPosition,
        /// Whether the declaration counts as a use.
        include_declaration: bool,
    },
    /// What is known of the symbol at this place?
    Hover(TextDocumentPosition),
    /// Which symbols does this document declare?
    DocumentSymbol {
        /// The URI of the document.
        uri: String,
    },
    /// Which symbols of the workspace match this query?
    WorkspaceSymbol {
        /// The query.
        query: String,
    },
    /// Which callable entities are at this place?
    PrepareCallHierarchy(TextDocumentPosition),
    /// Where is the trait or interface at this place implemented?
    Implementation(TextDocumentPosition),
    /// Where is the type of the symbol at this place defined?
    TypeDefinition(TextDocumentPosition),
}

impl Request {
    /// The method of the request.
    pub open spec fn method_spec(self) -> Method {
        match self {
            Request::Shutdown => Method::Shutdown,
            Request::Definition(_) => Method::Definition,
            Request::References { .. } => Method::References,
            Request::Hover(_) => Method::Hover,
            Request::DocumentSymbol { .. } => Method::DocumentSymbol,
            Request::WorkspaceSymbol { .. } => Method::WorkspaceSymbol,
            Request::PrepareCallHierarchy(_) => Method::PrepareCallHierarchy,
            Request::Implementation(_) => Method::Implementation,
            Request::TypeDefinition(_) => Method::TypeDefinition,
        }
    }

    /// The method of the request.
    pub fn method(&self) -> (method: Method)
        ensures
            method == self.method_spec(),
    {
        match self {
            Request::Shutdown => Method::Shutdown,
            Request::Definition(_) => Method::Definition,
            Request::References { .. } => Method::References,
            Request::Hover(_) => Method::Hover,
            Request::DocumentSymbol { .. } => Method::DocumentSymbol,
            Request::WorkspaceSymbol { .. } => Method::WorkspaceSymbol,
            Request::PrepareCallHierarchy(_) => Method::PrepareCallHierarchy,
            Request::Implementation(_) => Method::Implementation,
            Request::TypeDefinition(_) => Method::TypeDefinition,
        }
    }
}

/// What the place given as `line` and `column`, both counted from one, comes
/// to in the document `uri`: the place counted from zero, or
/// `InvalidPosition` where either is zero.
pub open spec fn placed(
    uri: Seq<char>,
    line: u32,
    column: u32,
    result: LspResult<TextDocumentPosition>,
) -> bool {
    match zero_based(line, column) {
        Some(position) => result matches Ok(target) && target.uri@ == uri && target.position
            == position,
        None => result matches Err(LspError::InvalidPosition { line: l, column: c }) && l == line
            && c == column,
    }
}

/// The place `line`, `column` of the document `uri`, as the server counts it.
pub fn text_document_position(uri: String, line: u32, column: u32) -> (result: LspResult<
    TextDocumentPosition,
>)
    ensures
        placed(uri@, line, column, result),
{
    match to_lsp_position(line, column) {
        Ok(position) => Ok(TextDocumentPosition { uri, position }),
        Err(error) => Err(error),
    }
}

/// The session with a running language server.
#[derive(Debug)]
pub struct LspClient {
    config: LspClientConfig,
    capabilities: lsp_types::ServerCapabilities,
    gateway: RequestGateway,
    documents: DocumentTracker,
}

impl LspClient {
    /// The configuration that the session was started with.
    pub closed spec fn config(self) -> LspClientConfig {
        self.config
    }

    /// What the server said it can do when the session began.
    pub closed spec fn capabilities(self) -> lsp_types::ServerCapabilities {
        self.capabilities
    }

    /// The gateway that the requests go through.
    pub closed spec fn gateway(self) -> RequestGateway {
        self.gateway
    }

    /// The URIs of the documents that are open.
    pub closed spec fn open_documents(self) -> Set<Seq<char>> {
        self.documents@
    }

    /// Everything about the session but the request in flight and the open
    /// documents is the same in `self` and `other`.
    pub open spec fn same_session(self, other: LspClient) -> bool {
        &&& self.config() == other.config()
        &&& self.capabilities() == other.capabilities()
        &&& self.gateway().timeout() == other.gateway().timeout()
    }

    /// A builder for the configuration of a session.
    pub fn builder() -> (builder: LspClientBuilder)
        ensures
            builder.config.is_default(),
    {
        LspClientBuilder::new()
    }

    /// The session as the handshake leaves it.
    pub(crate) fn ready(config: LspClientConfig, capabilities: lsp_types::ServerCapabilities) -> (client:
        LspClient)
        ensures
            client.config() == config,
            client.capabilities() == capabilities,
            client.open_documents() == Set::<Seq<char>>::empty(),
            client.gateway().is_idle(),
            client.gateway().timeout() == config.request_timeout,
    {
        let gateway = RequestGateway::new(config.request_timeout);
        LspClient { config, capabilities, gateway, documents: DocumentTracker::new() }
    }

    /// The configuration that the session was started with.
    pub fn configuration(&self) -> (config: &LspClientConfig)
        ensures
            *config == self.config(),
    {
        &self.config
    }

    /// What the server said it can do when the session began.
    pub fn server_capabilities(&self) -> (capabilities: &lsp_types::ServerCapabilities)
        ensures
            *capabilities == self.capabilities(),
    {
        &self.capabilities
    }

    /// Whether no request is in flight.
    pub fn is_idle(&self) -> (idle: bool)
        ensures
            idle == self.gateway().is_idle(),
    {
        self.gateway.idle()
    }

    /// Whether the document `uri` is open.
    pub fn is_open(&self, uri: &str) -> (open: bool)
        ensures
            open == self.open_documents().contains(uri@),
    {
        self.documents.is_open(uri)
    }

    /// Takes the channel for a request of `method`, if it is free. The
    /// request may then take as long as the request timeout.
    pub fn begin(&mut self, method: Method) -> (pending: Option<PendingRequest>)
        ensures
            final(self).same_session(*old(self)),
            final(self).open_documents() == old(self).open_documents(),
            old(self).gateway().is_idle() ==> final(self).gateway() == old(self).gateway().begun(
                method,
            ) && pending == Some(
                PendingRequest { method, timeout: old(self).gateway().timeout() },
            ),
            !old(self).gateway().is_idle() ==> final(self).gateway() == old(self).gateway()
                && pending is None,
    {
        self.gateway.begin(method)
    }

    /// Settles the request `pending`, which `begin` handed out, and frees
    /// the channel. A request that was not answered in time leaves the
    /// session as usable as it was.
    pub fn settle<T>(&mut self, pending: PendingRequest, outcome: Outcome<T>) -> (result: LspResult<
        T,
    >)
        ensures
            final(self).same_session(*old(self)),
            final(self).open_documents() == old(self).open_documents(),
            final(self).gateway() == old(self).gateway().released(),
            final(self).gateway().is_idle(),
            settled(pending.method, pending.timeout, outcome, result),
    {
        self.gateway.settle(pending, outcome)
    }

    /// The request that begins the orderly end of the session.
    pub fn shutdown(&self) -> (request: Request)
        ensures
            request == Request::Shutdown,
    {
        Request::Shutdown
    }

    /// What follows the `shutdown` request: the `exit` notification once the
    /// request is answered; if it failed, the failure, and nothing is sent.
    pub fn shutdown_answered(&self, answer: LspResult<()>) -> (result: LspResult<Notification>)
        ensures
            match answer {
                Ok(_) => result == Ok::<Notification, LspError>(Notification::Exit),
                Err(error) => result == Err::<Notification, LspError>(error),
            },
    {
        match answer {
            Ok(_) => Ok(Notification::Exit),
            Err(error) => Err(error),
        }
    }

    /// The notification that opens the document `uri`, read from `path`:
    /// the whole text, at version 0, in the language of the file's
    /// extension. `content` is the text, or the failure to read it; a file
    /// that cannot be read is a document that is not there. Opening a
    /// document that is open already is in order.
    pub fn did_open(
        &self,
        uri: &str,
        path: &str,
        extension: Option<&str>,
        content: Result<String, String>,
    ) -> (result: LspResult<Notification>)
        ensures
            match content {
                Ok(text) => result matches Ok(
                    Notification::DidOpen {
                        uri: sent_uri,
                        language_id: language,
                        version,
                        text: sent_text,
                    },
                ) && sent_uri@ == uri@ && language@ == language_of(optional_text(extension))
                    && version == 0 && sent_text@ == text@,
                Err(failure) => result matches Err(LspError::DocumentNotFound(detail)) && detail@
                    == "failed to read '"@ + path@ + "': "@ + failure@,
            },
    {
        match content {
            Ok(text) => Ok(self.documents.open(uri, extension, text)),
            Err(failure) => {
                let mut detail = String::new();
                detail.append("failed to read '");
                detail.append(path);
                detail.append("': ");
                detail.append(failure.as_str());
                Err(LspError::DocumentNotFound(detail))
            },
        }
    }

    /// Takes the outcome of sending the notification that opens `uri`. Once
    /// it is sent the document counts as open; if it could not be sent,
    /// nothing changes.
    pub fn did_open_sent(&mut self, uri: String, sent: Result<(), String>) -> (result: LspResult<
        (),
    >)
        ensures
            final(self).same_session(*old(self)),
            final(self).gateway() == old(self).gateway(),
            match sent {
                Ok(_) => result is Ok && final(self).open_documents() == after_open(
                    old(self).open_documents(),
                    uri@,
                ),
                Err(failure) => result matches Err(LspError::RequestFailed(detail)) && detail@
                    == send_failure_text("didOpen"@, failure@) && final(self).open_documents()
                    == old(self).open_documents(),
            },
    {
        match sent {
            Ok(_) => {
                self.documents.opened(uri);
                Ok(())
            },
            Err(failure) => Err(
                LspError::RequestFailed(send_failure("didOpen", failure.as_str())),
            ),
        }
    }

    /// The notification that replaces the text of the document `uri`, at
    /// version 1. The document must be open: one that was never opened, or
    /// was closed since, is not found.
    pub fn did_change(&self, uri: &str, path: &str, content: &str) -> (result: LspResult<
        Notification,
    >)
        ensures
            change_outcome(self.open_documents(), uri@, path@, content@, result),
    {
        self.documents.change(uri, path, content)
    }

    /// Takes the outcome of sending a change.
    pub fn did_change_sent(&self, sent: Result<(), String>) -> (result: LspResult<()>)
        ensures
            match sent {
                Ok(_) => result is Ok,
                Err(failure) => result matches Err(LspError::RequestFailed(detail)) && detail@
                    == send_failure_text("didChange"@, failure@),
            },
    {
        match sent {
            Ok(_) => Ok(()),
            Err(failure) => Err(
                LspError::RequestFailed(send_failure("didChange", failure.as_str())),
            ),
        }
    }

    /// The notification that closes the document `uri`, whether or not it is open.
    pub fn did_close(&self, uri: &str) -> (notification: Notification)
        ensures
            notification matches Notification::DidClose { uri: sent_uri } && sent_uri@ == uri@,
    {
        self.documents.close(uri)
    }

    /// Takes the outcome of sending the notification that closes `uri`.
    /// Once it is sent the document does not count as open; if it could not
    /// be sent, nothing changes.
    pub fn did_close_sent(&mut self, uri: &str, sent: Result<(), String>) -> (result: LspResult<
        (),
    >)
        ensures
            final(self).same_session(*old(self)),
            final(self).gateway() == old(self).gateway(),
            match sent {
                Ok(_) => result is Ok && final(self).open_documents() == after_close(
                    old(self).open_documents(),
                    uri@,
                ),
                Err(failure) => result matches Err(LspError::RequestFailed(detail)) && detail@
                    == send_failure_text("didClose"@, failure@) && final(self).open_documents()
                    == old(self).open_documents(),
            },
    {
        match sent {
            Ok(_) => {
                self.documents.closed(uri);
                Ok(())
            },
            Err(failure) => Err(
                LspError::RequestFailed(send_failure("didClose", failure.as_str())),
            ),
        }
    }

    /// Takes the outcome of sending the `exit` notification.
    pub fn exit_sent(&self, sent: Result<(), String>) -> (result: LspResult<()>)
        ensures
            match sent {
                Ok(_) => result is Ok,
                Err(failure) => result matches Err(LspError::RequestFailed(detail)) && detail@
                    == send_failure_text("exit"@, failure@),
            },
    {
        match sent {
            Ok(_) => Ok(()),
            Err(failure) => Err(LspError::RequestFailed(send_failure("exit", failure.as_str()))),
        }
    }

    /// The request for the definition of the symbol at `line`, `column` of
    /// the document `uri`, both counted from one.
    pub fn goto_definition(&self, uri: String, line: u32, column: u32) -> (result: LspResult<
        Request,
    >)
        ensures
            result is Ok <==> line >= 1 && column >= 1,
            result matches Ok(request) ==> request matches Request::Definition(target) && placed(
                uri@,
                line,
                column,
                Ok(target),
            ),
            result matches Err(error) ==> placed(uri@, line, column, Err(error)),
    {
        match text_document_position(uri, line, column) {
            Ok(target) => Ok(Request::Definition(target)),
            Err(error) => Err(error),
        }
    }

    /// The request for the references to the symbol at `line`, `column` of
    /// the document `uri`. Whether the declaration itself is among them is
    /// for the server to honour; the request carries the wish as given.
    pub fn find_references(
        &self,
        uri: String,
        line: u32,
        column: u32,
        include_declaration: bool,
    ) -> (result: LspResult<Request>)
        ensures
            result is Ok <==> line >= 1 && column >= 1,
            result matches Ok(request) ==> request matches Request::References {
                target,
                include_declaration: wish,
            } && wish == include_declaration && placed(uri@, line, column, Ok(target)),
            result matches Err(error) ==> placed(uri@, line, column, Err(error)),
    {
        match text_document_position(uri, line, column) {
            Ok(target) => Ok(Request::References { target, include_declaration }),
            Err(error) => Err(error),
        }
    }

    /// The request for hover information at `line`, `column` of the document `uri`.
    pub fn hover(&self, uri: String, line: u32, column: u32) -> (result: LspResult<Request>)
        ensures
            result is Ok <==> line >= 1 && column >= 1,
            result matches Ok(request) ==> request matches Request::Hover(target) && placed(
                uri@,
                line,
                column,
                Ok(target),
            ),
            result matches Err(error) ==> placed(uri@, line, column, Err(error)),
    {
        match text_document_position(uri, line, column) {
            Ok(target) => Ok(Request::Hover(target)),
            Err(error) => Err(error),
        }
    }

    /// The request for the symbols of the document `uri`.
    pub fn document_symbols(&self, uri: String) -> (request: Request)
        ensures
            request == (Request::DocumentSymbol { uri }),
    {
        Request::DocumentSymbol { uri }
    }

    /// The request for the symbols of the workspace that match `query`.
    pub fn workspace_symbols(&self, query: &str) -> (request: Request)
        ensures
            request matches Request::WorkspaceSymbol { query: sent } && sent@ == query@,
    {
        Request::WorkspaceSymbol { query: query.to_owned() }
    }

    /// The first request on the way to the callers of the function at
    /// `line`, `column` of the document `uri`: the one that prepares the
    /// call hierarchy there. `call_hierarchy_target` says what follows.
    pub fn incoming_calls(&self, uri: String, line: u32, column: u32) -> (result: LspResult<
        Request,
    >)
        ensures
            result is Ok <==> line >= 1 && column >= 1,
            result matches Ok(request) ==> request matches Request::PrepareCallHierarchy(target)
                && placed(uri@, line, column, Ok(target)),
            result matches Err(error) ==> placed(uri@, line, column, Err(error)),
    {
        self.prepare_call_hierarchy(uri, line, column)
    }

    /// The first request on the way to the callees of the function at
    /// `line`, `column` of the document `uri`: the one that prepares the
    /// call hierarchy there. `call_hierarchy_target` says what follows.
    pub fn outgoing_calls(&self, uri: String, line: u32, column: u32) -> (result: LspResult<
        Request,
    >)
        ensures
            result is Ok <==> line >= 1 && column >= 1,
            result matches Ok(request) ==> request matches Request::PrepareCallHierarchy(target)
                && placed(uri@, line, column, Ok(target)),
            result matches Err(error) ==> placed(uri@, line, column, Err(error)),
    {
        self.prepare_call_hierarchy(uri, line, column)
    }

    fn prepare_call_hierarchy(&self, uri: String, line: u32, column: u32) -> (result: LspResult<
        Request,
    >)
        ensures
            result is Ok <==> line >= 1 && column >= 1,
            result matches Ok(request) ==> request matches Request::PrepareCallHierarchy(target)
                && placed(uri@, line, column, Ok(target)),
            result matches Err(error) ==> placed(uri@, line, column, Err(error)),
    {
        match text_document_position(uri, line, column) {
            Ok(target) => Ok(Request::PrepareCallHierarchy(target)),
            Err(error) => Err(error),
        }
    }

    /// The request for the implementations of the trait or interface at
    /// `line`, `column` of the document `uri`.
    pub fn implementations(&self, uri: String, line: u32, column: u32) -> (result: LspResult<
        Request,
    >)
        ensures
            result is Ok <==> line >= 1 && column >= 1,
            result matches Ok(request) ==> request matches Request::Implementation(target)
                && placed(uri@, line, column, Ok(target)),
            result matches Err(error) ==> placed(uri@, line, column, Err(error)),
    {
        match text_document_position(uri, line, column) {
            Ok(target) => Ok(Request::Implementation(target)),
            Err(error) => Err(error),
        }
    }

    /// The request for the definition of the type of the symbol at `line`,
    /// `column` of the document `uri`.
    pub fn type_definition(&self, uri: String, line: u32, column: u32) -> (result: LspResult<
        Request,
    >)
        ensures
            result is Ok <==> line >= 1 && column >= 1,
            result matches Ok(request) ==> request matches Request::TypeDefinition(target)
                && placed(uri@, line, column, Ok(target)),
            result matches Err(error) ==> placed(uri@, line, column, Err(error)),
    {
        match text_document_position(uri, line, column) {
            Ok(target) => Ok(Request::TypeDefinition(target)),
            Err(error) => Err(error),
        }
    }
}

/// The item for which callers or callees are asked: the first that the
/// server prepared. Where it prepared none, there is nothing to ask and the
/// result is empty.
pub fn call_hierarchy_target<T>(prepared: Vec<T>) -> (target: Option<T>)
    ensures
        match target {
            Some(item) => prepared@.len() > 0 && item == prepared@[0],
            None => prepared@.len() == 0,
        },
{
    let mut prepared = prepared;
    if prepared.len() == 0 {
        None
    } else {
        Some(prepared.remove(0))
    }
}

/// The items of an answer that may be missing: none where it is.
pub fn or_empty<T>(answer: Option<Vec<T>>) -> (items: Vec<T>)
    ensures
        match answer {
            Some(given) => items == given,
            None => items@.len() == 0,
        },
{
    match answer {
        Some(given) => given,
        None => Vec::new(),
    }
}

/// The answer to a request for a definition, an implementation or a type
/// definition: an empty list of locations where the server gave none.
pub fn definition_or_empty(answer: Option<GotoDefinitionResponse>) -> (response:
    GotoDefinitionResponse)
    ensures
        match answer {
            Some(given) => response == given,
            None => response matches GotoDefinitionResponse::Array(locations) && locations@.len()
                == 0,
        },
{
    match answer {
        Some(given) => given,
        None => GotoDefinitionResponse::Array(Vec::new()),
    }
}

/// The answer to a request for the symbols of a document: an empty flat
/// list where the server gave none.
pub fn document_symbols_or_empty(answer: Option<DocumentSymbolResponse>) -> (response:
    DocumentSymbolResponse)
    ensures
        match answer {
            Some(given) => response == given,
            None => response matches DocumentSymbolResponse::Flat(symbols) && symbols@.len() == 0,
        },
{
    match answer {
        Some(given) => given,
        None => DocumentSymbolResponse::Flat(Vec::new()),
    }
}

/// The symbols of an answer to a workspace search: those of a flat answer,
/// and none where the answer is missing or in the newer form.
pub fn flat_workspace_symbols(answer: Option<WorkspaceSymbolResponse>) -> (symbols: Vec<
    SymbolInformation,
>)
    ensures
        match answer {
            Some(WorkspaceSymbolResponse::Flat(given)) => symbols == given,
            _ => symbols@.len() == 0,
        },
{
    match answer {
        Some(WorkspaceSymbolResponse::Flat(given)) => given,
        _ => Vec::new(),
    }
}

} // verus!
