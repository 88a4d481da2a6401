use kadabra_runes::error::LspError;
use kadabra_runes::lsp::types::{
    checked_from_lsp_position, from_lsp_position, path_to_url, symbol_kind_to_string,
    to_lsp_position, uri_display, PathResolution, Position, SymbolKind,
};

#[test]
fn test_to_lsp_position() {
    let pos = to_lsp_position(1, 1).unwrap();
    assert_eq!(pos.line, 0);
    assert_eq!(pos.character, 0);

    let pos = to_lsp_position(10, 5).unwrap();
    assert_eq!(pos.line, 9);
    assert_eq!(pos.character, 4);
}

#[test]
fn test_to_lsp_position_invalid() {
    assert!(to_lsp_position(0, 1).is_err());
    assert!(to_lsp_position(1, 0).is_err());
}

#[test]
fn test_from_lsp_position() {
    let (line, col) = from_lsp_position(Position { line: 0, character: 0 });
    assert_eq!(line, 1);
    assert_eq!(col, 1);

    let (line, col) = from_lsp_position(Position { line: 9, character: 4 });
    assert_eq!(line, 10);
    assert_eq!(col, 5);
}

#[test]
fn test_symbol_kind_to_string() {
    assert_eq!(symbol_kind_to_string(SymbolKind::Function), "function");
    assert_eq!(symbol_kind_to_string(SymbolKind::Struct), "struct");
    assert_eq!(symbol_kind_to_string(SymbolKind::Method), "method");
}

#[test]
fn every_symbol_kind_has_its_name() {
    let names = [
        "file", "module", "namespace", "package", "class", "method", "property", "field",
        "constructor", "enum", "interface", "function", "variable", "constant", "string",
        "number", "boolean", "array", "object", "key", "null", "enum_member", "struct", "event",
        "operator", "type_parameter",
    ];
    for (i, name) in names.iter().enumerate() {
        let kind = SymbolKind::from_code(i as i32 + 1);
        assert_ne!(kind, SymbolKind::Unknown);
        assert_eq!(symbol_kind_to_string(kind), *name);
    }
    assert_eq!(SymbolKind::from_code(12), SymbolKind::Function);
    assert_eq!(SymbolKind::from_code(23), SymbolKind::Struct);
    assert_eq!(SymbolKind::from_code(0), SymbolKind::Unknown);
    assert_eq!(SymbolKind::from_code(27), SymbolKind::Unknown);
    assert_eq!(SymbolKind::from_code(-1), SymbolKind::Unknown);
    assert_eq!(symbol_kind_to_string(SymbolKind::Unknown), "unknown");
}

#[test]
fn position_round_trip() {
    for &(line, column) in &[(1u32, 1u32), (10, 5), (1, 4_294_967_295), (4_294_967_295, 1)] {
        let there = to_lsp_position(line, column).unwrap();
        assert_eq!(from_lsp_position(there), (line, column));
        assert_eq!(checked_from_lsp_position(there), Some((line, column)));
    }
}

#[test]
fn only_zero_is_rejected() {
    match to_lsp_position(0, 7) {
        Err(LspError::InvalidPosition { line, column }) => {
            assert_eq!((line, column), (0, 7));
        }
        other => panic!("unexpected: {:?}", other),
    }
    match to_lsp_position(3, 0) {
        Err(LspError::InvalidPosition { line, column }) => {
            assert_eq!((line, column), (3, 0));
        }
        other => panic!("unexpected: {:?}", other),
    }
    assert!(matches!(to_lsp_position(0, 0), Err(LspError::InvalidPosition { line: 0, column: 0 })));
    assert_eq!(to_lsp_position(1, 1).unwrap(), Position { line: 0, character: 0 });
    assert_eq!(
        to_lsp_position(u32::MAX, u32::MAX).unwrap(),
        Position { line: u32::MAX - 1, character: u32::MAX - 1 }
    );
}

#[test]
fn largest_position_has_no_user_form() {
    assert_eq!(checked_from_lsp_position(Position { line: u32::MAX, character: 0 }), None);
    assert_eq!(checked_from_lsp_position(Position { line: 0, character: u32::MAX }), None);
    assert_eq!(
        checked_from_lsp_position(Position { line: u32::MAX - 1, character: 2 }),
        Some((u32::MAX, 3))
    );
}

#[test]
fn path_to_url_makes_a_file_url() {
    let url = path_to_url(
        "src/main.rs",
        PathResolution::Canonical("/work/project/src/main.rs".to_string()),
    )
    .unwrap();
    assert_eq!(url, "file:///work/project/src/main.rs");
    let url =
        path_to_url("a b.rs", PathResolution::Canonical("/tmp/a b.rs".to_string())).unwrap();
    assert_eq!(url, "file:///tmp/a%20b.rs");
}

#[test]
fn path_to_url_reports_what_went_wrong() {
    match path_to_url("x.rs", PathResolution::NoCurrentDir("gone".to_string())) {
        Err(LspError::DocumentNotFound(detail)) => {
            assert_eq!(detail, "failed to get current directory: gone");
        }
        other => panic!("unexpected: {:?}", other),
    }
    match path_to_url("x.rs", PathResolution::NotCanonical("No such file".to_string())) {
        Err(LspError::DocumentNotFound(detail)) => {
            assert_eq!(detail, "failed to canonicalize path 'x.rs': No such file");
        }
        other => panic!("unexpected: {:?}", other),
    }
    match path_to_url("x.rs", PathResolution::Canonical("relative/x.rs".to_string())) {
        Err(LspError::DocumentNotFound(detail)) => {
            assert_eq!(detail, "invalid path: relative/x.rs");
        }
        other => panic!("unexpected: {:?}", other),
    }
}

#[test]
fn uri_display_prefers_the_file_path() {
    assert_eq!(uri_display("file:///tmp/a%20b.rs"), "/tmp/a b.rs");
    assert_eq!(uri_display("file:///work/src/lib.rs"), "/work/src/lib.rs");
    assert_eq!(uri_display("untitled:Untitled-1"), "untitled:Untitled-1");
    assert_eq!(uri_display("not a uri"), "not a uri");
}

#[test]
fn test_path_to_uri() {
    let uri = path_to_url(
        "kadabra_test.rs",
        PathResolution::Canonical("/tmp/kadabra_test.rs".to_string()),
    )
    .unwrap();
    assert!(uri.starts_with("file://"));
    assert!(uri.contains("kadabra_test.rs"));
}
