use kadabra_runes::error::LspError;
use kadabra_runes::lsp::client::{LspClient, LspClientBuilder};
use kadabra_runes::lsp::documents::{
    language_id, send_failure, DocumentTracker, Notification,
};
use kadabra_runes::lsp::gateway::Outcome;
use kadabra_runes::lsp::handshake::SpawnOutcome;

fn session() -> LspClient {
    LspClientBuilder::new()
        .build()
        .resolved(Ok("/work".to_string()))
        .unwrap()
        .spawned(SpawnOutcome::Running, 1, Some("work".to_string()), "0.1.0")
        .unwrap()
        .answered(Outcome::Completed(lsp_types::ServerCapabilities::default()))
        .unwrap()
        .confirmed(Ok(()))
        .unwrap()
}

#[test]
fn language_identifiers() {
    assert_eq!(language_id(Some("rs")), "rust");
    assert_eq!(language_id(Some("py")), "python");
    assert_eq!(language_id(Some("js")), "javascript");
    assert_eq!(language_id(Some("ts")), "typescript");
    assert_eq!(language_id(Some("go")), "go");
    assert_eq!(language_id(Some("c")), "c");
    assert_eq!(language_id(Some("cpp")), "cpp");
    assert_eq!(language_id(Some("cc")), "cpp");
    assert_eq!(language_id(Some("cxx")), "cpp");
    assert_eq!(language_id(Some("java")), "java");
    assert_eq!(language_id(Some("RS")), "plaintext");
    assert_eq!(language_id(Some("txt")), "plaintext");
    assert_eq!(language_id(Some("")), "plaintext");
    assert_eq!(language_id(None), "plaintext");
}

#[test]
fn change_of_a_document_never_opened_is_not_found() {
    let tracker = DocumentTracker::new();
    match tracker.change("file:///work/a.rs", "a.rs", "fn main() {}") {
        Err(LspError::DocumentNotFound(detail)) => assert_eq!(detail, "document not open: a.rs"),
        other => panic!("unexpected: {:?}", other),
    }
}

#[test]
fn change_of_an_open_document_replaces_the_whole_text() {
    let mut tracker = DocumentTracker::new();
    tracker.opened("file:///work/a.rs".to_string());
    assert!(tracker.is_open("file:///work/a.rs"));
    assert!(!tracker.is_open("file:///work/b.rs"));
    assert_eq!(
        tracker.change("file:///work/a.rs", "a.rs", "fn main() {}").unwrap(),
        Notification::DidChange {
            uri: "file:///work/a.rs".to_string(),
            version: 1,
            text: "fn main() {}".to_string(),
        }
    );
    assert!(tracker.change("file:///work/b.rs", "b.rs", "").is_err());
}

#[test]
fn change_of_a_closed_document_is_not_found() {
    let mut tracker = DocumentTracker::new();
    tracker.opened("file:///work/a.rs".to_string());
    tracker.opened("file:///work/b.rs".to_string());
    tracker.closed("file:///work/a.rs");
    assert!(!tracker.is_open("file:///work/a.rs"));
    assert!(tracker.is_open("file:///work/b.rs"));
    assert!(matches!(
        tracker.change("file:///work/a.rs", "a.rs", "x"),
        Err(LspError::DocumentNotFound(_))
    ));
    assert!(tracker.change("file:///work/b.rs", "b.rs", "x").is_ok());
}

#[test]
fn opening_twice_is_in_order() {
    let mut tracker = DocumentTracker::new();
    let first = tracker.open("file:///work/a.rs", Some("rs"), "one".to_string());
    tracker.opened("file:///work/a.rs".to_string());
    let second = tracker.open("file:///work/a.rs", Some("rs"), "one".to_string());
    tracker.opened("file:///work/a.rs".to_string());
    assert_eq!(first, second);
    assert_eq!(
        first,
        Notification::DidOpen {
            uri: "file:///work/a.rs".to_string(),
            language_id: "rust".to_string(),
            version: 0,
            text: "one".to_string(),
        }
    );
    assert!(tracker.is_open("file:///work/a.rs"));
    tracker.closed("file:///work/a.rs");
    assert!(!tracker.is_open("file:///work/a.rs"));
}

#[test]
fn closing_what_is_not_open_is_in_order() {
    let mut tracker = DocumentTracker::new();
    assert_eq!(
        tracker.close("file:///work/a.rs"),
        Notification::DidClose { uri: "file:///work/a.rs".to_string() }
    );
    tracker.closed("file:///work/a.rs");
    assert!(!tracker.is_open("file:///work/a.rs"));
}

#[test]
fn session_tracks_documents_once_the_notification_is_sent() {
    let mut client = session();
    let uri = "file:///work/src/lib.rs";
    let notification =
        client.did_open(uri, "src/lib.rs", Some("rs"), Ok("pub fn add() {}".to_string())).unwrap();
    assert_eq!(
        notification,
        Notification::DidOpen {
            uri: uri.to_string(),
            language_id: "rust".to_string(),
            version: 0,
            text: "pub fn add() {}".to_string(),
        }
    );
    assert!(!client.is_open(uri));
    assert!(client.did_change(uri, "src/lib.rs", "x").is_err());

    match client.did_open_sent(uri.to_string(), Err("closed".to_string())) {
        Err(LspError::RequestFailed(detail)) => {
            assert_eq!(detail, "didOpen notification failed: closed");
        }
        other => panic!("unexpected: {:?}", other),
    }
    assert!(!client.is_open(uri));

    client.did_open_sent(uri.to_string(), Ok(())).unwrap();
    assert!(client.is_open(uri));
    client.did_open_sent(uri.to_string(), Ok(())).unwrap();
    assert!(client.is_open(uri));

    assert_eq!(
        client.did_change(uri, "src/lib.rs", "pub fn add(a: i32) {}").unwrap(),
        Notification::DidChange {
            uri: uri.to_string(),
            version: 1,
            text: "pub fn add(a: i32) {}".to_string(),
        }
    );
    assert!(client.did_change_sent(Ok(())).is_ok());
    match client.did_change_sent(Err("closed".to_string())) {
        Err(LspError::RequestFailed(detail)) => {
            assert_eq!(detail, "didChange notification failed: closed");
        }
        other => panic!("unexpected: {:?}", other),
    }

    assert_eq!(client.did_close(uri), Notification::DidClose { uri: uri.to_string() });
    match client.did_close_sent(uri, Err("closed".to_string())) {
        Err(LspError::RequestFailed(detail)) => {
            assert_eq!(detail, "didClose notification failed: closed");
        }
        other => panic!("unexpected: {:?}", other),
    }
    assert!(client.is_open(uri));
    client.did_close_sent(uri, Ok(())).unwrap();
    assert!(!client.is_open(uri));
    match client.did_change(uri, "src/lib.rs", "x") {
        Err(LspError::DocumentNotFound(detail)) => {
            assert_eq!(detail, "document not open: src/lib.rs");
        }
        other => panic!("unexpected: {:?}", other),
    }
}

#[test]
fn a_file_that_cannot_be_read_is_not_found() {
    let client = session();
    match client.did_open("file:///work/a.rs", "a.rs", Some("rs"), Err("denied".to_string())) {
        Err(LspError::DocumentNotFound(detail)) => {
            assert_eq!(detail, "failed to read 'a.rs': denied");
        }
        other => panic!("unexpected: {:?}", other),
    }
}

#[test]
fn failures_to_send_are_reported_under_the_name_of_the_notification() {
    assert_eq!(send_failure("didOpen", "Eof"), "didOpen notification failed: Eof");
}
