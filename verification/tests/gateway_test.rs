use kadabra_runes::error::LspError;
use kadabra_runes::lsp::gateway::{classify, Method, Outcome, PendingRequest, RequestGateway};
use kadabra_runes::time::TimeSpan;

#[test]
fn classification() {
    let timeout = TimeSpan::from_secs(10);
    let ok: Result<u32, LspError> = classify(Method::Hover, timeout, Outcome::Completed(5));
    assert_eq!(ok.unwrap(), 5);
    let late: Result<u32, LspError> = classify(Method::Hover, timeout, Outcome::TimedOut);
    assert!(matches!(late, Err(LspError::Timeout(span)) if span == timeout));
    let failed: Result<u32, LspError> =
        classify(Method::Definition, timeout, Outcome::Failed("Routing".to_string()));
    match failed {
        Err(LspError::RequestFailed(detail)) => {
            assert_eq!(detail, "goto_definition failed: Routing");
        }
        other => panic!("unexpected: {:?}", other),
    }
}

#[test]
fn failure_labels_and_protocol_names() {
    let all = [
        (Method::Shutdown, "shutdown request", "shutdown"),
        (Method::Definition, "goto_definition", "textDocument/definition"),
        (Method::References, "references", "textDocument/references"),
        (Method::Hover, "hover", "textDocument/hover"),
        (Method::DocumentSymbol, "document_symbol", "textDocument/documentSymbol"),
        (Method::WorkspaceSymbol, "symbol", "workspace/symbol"),
        (
            Method::PrepareCallHierarchy,
            "prepare_call_hierarchy",
            "textDocument/prepareCallHierarchy",
        ),
        (Method::IncomingCalls, "incoming_calls", "callHierarchy/incomingCalls"),
        (Method::OutgoingCalls, "outgoing_calls", "callHierarchy/outgoingCalls"),
        (Method::Implementation, "goto_implementation", "textDocument/implementation"),
        (Method::TypeDefinition, "goto_type_definition", "textDocument/typeDefinition"),
    ];
    for (method, label, name) in all {
        assert_eq!(method.failure_label(), label);
        assert_eq!(method.name(), name);
    }
}

#[test]
fn one_request_at_a_time() {
    let mut gateway = RequestGateway::new(TimeSpan::from_secs(2));
    assert!(gateway.idle());
    let pending = gateway.begin(Method::Hover).unwrap();
    assert_eq!(pending, PendingRequest { method: Method::Hover, timeout: TimeSpan::from_secs(2) });
    assert!(!gateway.idle());
    assert_eq!(gateway.begin(Method::References), None);
    assert!(!gateway.idle());
    let result: Result<u8, LspError> = gateway.settle(pending, Outcome::Failed("x".to_string()));
    match result {
        Err(LspError::RequestFailed(detail)) => assert_eq!(detail, "hover failed: x"),
        other => panic!("unexpected: {:?}", other),
    }
    assert!(gateway.idle());
}

#[test]
fn timeout_yields_timeout_and_frees_the_gateway() {
    let mut gateway = RequestGateway::new(TimeSpan::from_secs(10));
    let pending = gateway.begin(Method::WorkspaceSymbol).unwrap();
    let result: Result<Vec<u8>, LspError> = gateway.settle(pending, Outcome::TimedOut);
    match result {
        Err(error) => {
            assert!(matches!(error, LspError::Timeout(span) if span == TimeSpan::from_secs(10)));
            assert_eq!(error.to_string(), "language server request timed out after 10s");
        }
        Ok(_) => panic!("a timeout is no answer"),
    }
    assert!(gateway.idle());
    let pending = gateway.begin(Method::WorkspaceSymbol).unwrap();
    let result: Result<Vec<u8>, LspError> = gateway.settle(pending, Outcome::Completed(vec![1]));
    assert_eq!(result.unwrap(), vec![1]);
}
