//! One request at a time: what is in flight, how long it may take, and how
//! its outcome is classified.

use crate::error::LspError;
use crate::lsp::LspResult;
use crate::time::TimeSpan;
use vstd::prelude::*;

verus! {

/// The requests that this client sends.
#[derive(Clone, Copy, Debug, PartialEq, Eq, Structural)]
pub enum Method {
    Shutdown,
    Definition,
    References,
    Hover,
    DocumentSymbol,
    WorkspaceSymbol,
    PrepareCallHierarchy,
    IncomingCalls,
    OutgoingCalls,
    Implementation,
    TypeDefinition,
}

impl Method {
    /// The name of the method in the protocol.
    pub open spec fn protocol_name(self) -> Seq<char> {
        match self {
            Method::Shutdown => "shutdown"@,
            Method::Definition => "textDocument/definition"@,
            Method::References => "textDocument/references"@,
            Method::Hover => "textDocument/hover"@,
            Method::DocumentSymbol => "textDocument/documentSymbol"@,
            Method::WorkspaceSymbol => "workspace/symbol"@,
            Method::PrepareCallHierarchy => "textDocument/prepareCallHierarchy"@,
            Method::IncomingCalls => "callHierarchy/incomingCalls"@,
            Method::OutgoingCalls => "callHierarchy/outgoingCalls"@,
            Method::Implementation => "textDocument/implementation"@,
            Method::TypeDefinition => "textDocument/typeDefinition"@,
        }
    }

    /// The name under which a failure of the request is reported.
    pub open spec fn label(self) -> Seq<char> {
        match self {
            Method::Shutdown => "shutdown request"@,
            Method::Definition => "goto_definition"@,
            Method::References => "references"@,
            Method::Hover => "hover"@,
            Method::DocumentSymbol => "document_symbol"@,
            Method::WorkspaceSymbol => "symbol"@,
            Method::PrepareCallHierarchy => "prepare_call_hierarchy"@,
            Method::IncomingCalls => "incoming_calls"@,
            Method::OutgoingCalls => "outgoing_calls"@,
            Method::Implementation => "goto_implementation"@,
            Method::TypeDefinition => "goto_type_definition"@,
        }
    }

    /// The name of the method in the protocol.
    pub fn name(&self) -> (name: &'static str)
        ensures
            name@ == self.protocol_name(),
    {
        match self {
            Method::Shutdown => "shutdown",
            Method::Definition => "textDocument/definition",
            Method::References => "textDocument/references",
            Method::Hover => "textDocument/hover",
            Method::DocumentSymbol => "textDocument/documentSymbol",
            Method::WorkspaceSymbol => "workspace/symbol",
            Method::PrepareCallHierarchy => "textDocument/prepareCallHierarchy",
            Method::IncomingCalls => "callHierarchy/incomingCalls",
            Method::OutgoingCalls => "callHierarchy/outgoingCalls",
            Method::Implementation => "textDocument/implementation",
            Method::TypeDefinition => "textDocument/typeDefinition",
        }
    }

    /// The name under which a failure of the request is reported.
    pub fn failure_label(&self) -> (label: &'static str)
        ensures
            label@ == self.label(),
    {
        match self {
            Method::Shutdown => "shutdown request",
            Method::Definition => "goto_definition",
            Method::References => "references",
            Method::Hover => "hover",
            Method::DocumentSymbol => "document_symbol",
            Method::WorkspaceSymbol => "symbol",
            Method::PrepareCallHierarchy => "prepare_call_hierarchy",
            Method::IncomingCalls => "incoming_calls",
            Method::OutgoingCalls => "outgoing_calls",
            Method::Implementation => "goto_implementation",
            Method::TypeDefinition => "goto_type_definition",
        }
    }
}

/// How the wait for a response ended.
#[derive(Debug)]
pub enum Outcome<T> {
    /// The timer fired before a response came.
    TimedOut,
    /// The channel reported a failure; the text describes it.
    Failed(String),
    /// The response.
    Completed(T),
}

/// A request that was sent and not yet settled.
#[derive(Clone, Copy, Debug, PartialEq, Eq, Structural)]
pub struct PendingRequest {
    /// Which request it is.
    pub method: Method,
    /// How long the caller waits for the response.
    pub timeout: TimeSpan,
}

/// What settling a request under `method` and `timeout` returns for an outcome.
pub open spec fn settled<T>(
    method: Method,
    timeout: TimeSpan,
    outcome: Outcome<T>,
    result: LspResult<T>,
) -> bool {
    match outcome {
        Outcome::TimedOut => result matches Err(LspError::Timeout(span)) && span == timeout,
        Outcome::Failed(failure) => result matches Err(LspError::RequestFailed(detail))
            && detail@ == method.label() + " failed: "@ + failure@,
        Outcome::Completed(value) => result matches Ok(answer) && answer == value,
    }
}

/// Classifies the outcome of a request: a response is handed on, a failure
/// of the channel becomes `RequestFailed` with the method's label and the
/// failure's text, and silence becomes `Timeout` with the time waited.
pub fn classify<T>(method: Method, timeout: TimeSpan, outcome: Outcome<T>) -> (result: LspResult<
    T,
>)
    ensures
        settled(method, timeout, outcome, result),
{
    match outcome {
        Outcome::TimedOut => Err(LspError::Timeout(timeout)),
        Outcome::Failed(failure) => {
            let mut detail = String::new();
            detail.append(method.failure_label());
            detail.append(" failed: ");
            detail.append(failure.as_str());
            Err(LspError::RequestFailed(detail))
        },
        Outcome::Completed(value) => Ok(value),
    }
}

/// The way that every request to the language server takes. At most
/// one request is in flight; each waits no longer than the request timeout.
#[derive(Debug)]
pub struct RequestGateway {
    request_timeout: TimeSpan,
    in_flight: Option<PendingRequest>,
}

impl RequestGateway {
    /// The request that is in flight, if one is.
    pub closed spec fn pending(self) -> Option<PendingRequest> {
        self.in_flight
    }

    /// How long a request may take.
    pub closed spec fn timeout(self) -> TimeSpan {
        self.request_timeout
    }

    /// No request is in flight.
    pub open spec fn is_idle(self) -> bool {
        self.pending() is None
    }

    /// A gateway with nothing in flight.
    pub fn new(request_timeout: TimeSpan) -> (gateway: RequestGateway)
        ensures
            gateway.is_idle(),
            gateway.timeout() == request_timeout,
    {
        RequestGateway { request_timeout, in_flight: None }
    }

    /// Whether nothing is in flight.
    pub fn idle(&self) -> (idle: bool)
        ensures
            idle == self.is_idle(),
    {
        self.in_flight.is_none()
    }

    /// The gateway with a request of `method` in flight.
    pub closed spec fn begun(self, method: Method) -> RequestGateway {
        RequestGateway {
            request_timeout: self.request_timeout,
            in_flight: Some(PendingRequest { method, timeout: self.request_timeout }),
        }
    }

    /// The gateway with nothing in flight.
    pub closed spec fn released(self) -> RequestGateway {
        RequestGateway { request_timeout: self.request_timeout, in_flight: None }
    }

    /// Takes the channel for a request of `method`, if it is free; a busy
    /// gateway is left as it is.
    pub fn begin(&mut self, method: Method) -> (pending: Option<PendingRequest>)
        ensures
            old(self).is_idle() ==> *final(self) == old(self).begun(method) && pending == Some(
                PendingRequest { method, timeout: old(self).timeout() },
            ),
            !old(self).is_idle() ==> *final(self) == *old(self) && pending is None,
            final(self).pending() == if old(self).is_idle() {
                pending
            } else {
                old(self).pending()
            },
            final(self).timeout() == old(self).timeout(),
    {
        if self.in_flight.is_none() {
            let pending = PendingRequest { method, timeout: self.request_timeout };
            self.in_flight = Some(pending);
            Some(pending)
        } else {
            None
        }
    }

    /// Settles the request `pending`, which `begin` handed out, with the
    /// outcome of the wait, and frees the channel whatever the outcome was.
    /// Nothing is sent again.
    pub fn settle<T>(&mut self, pending: PendingRequest, outcome: Outcome<T>) -> (result: LspResult<
        T,
    >)
        ensures
            *final(self) == old(self).released(),
            final(self).is_idle(),
            final(self).timeout() == old(self).timeout(),
            settled(pending.method, pending.timeout, outcome, result),
    {
        self.in_flight = None;
        classify(pending.method, pending.timeout, outcome)
    }
}

/// A request that is not answered in time yields `Timeout` with the request
/// timeout, and leaves the gateway as it was before the request: idle, with
/// the same timeout, free for the next request.
pub proof fn lemma_timeout_leaves_gateway_usable<T>(
    gateway: RequestGateway,
    method: Method,
    result: LspResult<T>,
)
    requires
        gateway.is_idle(),
        settled(method, gateway.timeout(), Outcome::<T>::TimedOut, result),
    ensures
        gateway.begun(method).pending() == Some(
            PendingRequest { method, timeout: gateway.timeout() },
        ),
        result matches Err(LspError::Timeout(span)) && span == gateway.timeout(),
        gateway.begun(method).released() == gateway,
        gateway.begun(method).released().is_idle(),
{
}

} // verus!
