use kadabra_runes::error::{LspError, McpError, ToolError};
use kadabra_runes::lsp::types::{
    CallHierarchyIncomingCall, CallHierarchyItem, CallHierarchyOutgoingCall, DocumentSymbol,
    DocumentSymbolResponse, GotoDefinitionResponse, Hover, HoverContents, LanguageString,
    Location, LocationLink, MarkedString, MarkupContent, Position, Range, SymbolInformation,
    SymbolKind,
};
use kadabra_runes::mcp::server::{
    context_lines, extract_hover_text, format_document_symbol_response, format_document_symbols,
    format_hover, format_incoming_calls, format_location, format_locations,
    format_outgoing_calls, format_symbol_information, format_workspace_symbols,
    goto_response_to_locations, location_file, open_failure, request_failure,
    resolution_failure, LocatedSource, Tool,
};
use kadabra_runes::mcp::tools::default_max_results;

const LIB: &str = "pub mod calculator;\n\npub use calculator::{Adder, Calculator};\n\n/// Adds.\npub fn add(a: i32, b: i32) -> i32 {\n    a + b\n}\n\n/// Multiplies.\npub fn multiply(a: i32, b: i32) -> i32 {\n    a * b\n}\n";

fn range(line: u32, from: u32, to: u32) -> Range {
    Range {
        start: Position { line, character: from },
        end: Position { line, character: to },
    }
}

fn location(uri: &str, line: u32, from: u32, to: u32) -> Location {
    Location { uri: uri.to_string(), range: range(line, from, to) }
}

fn information(name: &str, kind: SymbolKind, uri: &str, line: u32) -> SymbolInformation {
    SymbolInformation {
        name: name.to_string(),
        kind,
        location: location(uri, line, 0, 1),
        container_name: None,
    }
}

fn symbol(name: &str, kind: SymbolKind, line: u32, children: Vec<DocumentSymbol>) -> DocumentSymbol {
    DocumentSymbol {
        name: name.to_string(),
        kind,
        range: range(line, 0, 10),
        selection_range: range(line, 4, 4 + name.len() as u32),
        children,
    }
}

fn item(name: &str, kind: SymbolKind, uri: &str, line: u32) -> CallHierarchyItem {
    CallHierarchyItem {
        name: name.to_string(),
        kind,
        uri: uri.to_string(),
        range: range(line, 0, 1),
        selection_range: range(line, 3, 7),
    }
}

#[test]
fn test_helper_functions() {
    assert_eq!(
        context_lines("one\ntwo\nthree\n", 2, 1),
        "     1 | one\n>    2 | two\n     3 | three\n"
    );
    let entry = LocatedSource {
        location: location("file:///work/src/lib.rs", 5, 7, 10),
        source: Ok(LIB.to_string()),
    };
    assert_eq!(
        format_location(&entry, 2).unwrap(),
        "/work/src/lib.rs:6:8\n     4 | \n     5 | /// Adds.\n>    6 | pub fn add(a: i32, b: i32) -> i32 {\n     7 |     a + b\n     8 | }\n"
    );
    assert_eq!(format_locations(&vec![], 2).unwrap(), "No results found.");
    assert_eq!(
        goto_response_to_locations(GotoDefinitionResponse::Array(vec![])),
        Vec::<Location>::new()
    );
    assert_eq!(
        extract_hover_text(HoverContents::Scalar(MarkedString::String("text".to_string()))),
        "text"
    );
    assert_eq!(format_document_symbols(&vec![], 0), "");
    assert_eq!(format_symbol_information(&vec![]), "");
}

#[test]
fn context_window_is_cut_at_the_ends_of_the_file() {
    let text = "a\nb\nc\nd\ne\nf";
    assert_eq!(context_lines(text, 1, 2), ">    1 | a\n     2 | b\n     3 | c\n");
    assert_eq!(context_lines(text, 0, 2), ">    1 | a\n     2 | b\n     3 | c\n");
    assert_eq!(
        context_lines(text, 3, 2),
        "     1 | a\n     2 | b\n>    3 | c\n     4 | d\n     5 | e\n"
    );
    assert_eq!(context_lines(text, 6, 2), "     4 | d\n     5 | e\n>    6 | f\n");
    assert_eq!(context_lines(text, 7, 2), "     5 | e\n     6 | f\n");
    assert_eq!(context_lines(text, 8, 2), "     6 | f\n");
    assert_eq!(context_lines(text, 9, 2), "");
    assert_eq!(context_lines(text, 100, 2), "");
    assert_eq!(context_lines(text, u32::MAX, usize::MAX), "     1 | a\n     2 | b\n     3 | c\n     4 | d\n     5 | e\n     6 | f\n");
    assert_eq!(context_lines(text, 4, 0), ">    4 | d\n");
    assert_eq!(context_lines("", 1, 2), "");
}

#[test]
fn line_numbers_are_right_aligned_in_four_columns() {
    let mut text = String::new();
    for i in 1..=10001 {
        text.push_str(&format!("line {}\n", i));
    }
    assert_eq!(context_lines(&text, 9, 1), "     8 | line 8\n>    9 | line 9\n    10 | line 10\n");
    assert_eq!(
        context_lines(&text, 1000, 1),
        "   999 | line 999\n> 1000 | line 1000\n  1001 | line 1001\n"
    );
    assert_eq!(
        context_lines(&text, 10000, 1),
        "  9999 | line 9999\n> 10000 | line 10000\n  10001 | line 10001\n"
    );
}

#[test]
fn locations_are_separated_by_a_rule() {
    let entries = vec![
        LocatedSource {
            location: location("file:///work/src/lib.rs", 5, 7, 10),
            source: Ok(LIB.to_string()),
        },
        LocatedSource {
            location: location("file:///work/src/main.rs", 0, 0, 3),
            source: Ok("use sample::add;\nfn main() {}\n".to_string()),
        },
    ];
    assert_eq!(
        format_locations(&entries, 1).unwrap(),
        "/work/src/lib.rs:6:8\n     5 | /// Adds.\n>    6 | pub fn add(a: i32, b: i32) -> i32 {\n     7 |     a + b\n\n\n---\n\n/work/src/main.rs:1:1\n>    1 | use sample::add;\n     2 | fn main() {}\n"
    );
}

#[test]
fn the_first_location_that_goes_wrong_ends_the_rendering() {
    let good = || LocatedSource {
        location: location("file:///work/src/lib.rs", 0, 0, 1),
        source: Ok("x\n".to_string()),
    };
    let unread = LocatedSource {
        location: location("file:///work/src/gone.rs", 0, 0, 1),
        source: Err("No such file or directory (os error 2)".to_string()),
    };
    let no_file = LocatedSource {
        location: location("untitled:Untitled-1", 0, 0, 1),
        source: Err("never read".to_string()),
    };
    match format_locations(&vec![good(), unread, no_file], 2) {
        Err(McpError::InternalError(detail)) => {
            assert_eq!(detail, "failed to read file: No such file or directory (os error 2)");
        }
        other => panic!("unexpected: {:?}", other),
    }
    let no_file = LocatedSource {
        location: location("untitled:Untitled-1", 0, 0, 1),
        source: Ok("text".to_string()),
    };
    match format_locations(&vec![good(), no_file], 2) {
        Err(McpError::InternalError(detail)) => assert_eq!(detail, "invalid file URI"),
        other => panic!("unexpected: {:?}", other),
    }
    match location_file(&location("http://example.com/a.rs", 0, 0, 0)) {
        Err(McpError::InternalError(detail)) => assert_eq!(detail, "invalid file URI"),
        other => panic!("unexpected: {:?}", other),
    }
    assert_eq!(
        location_file(&location("file:///work/src/a%20b.rs", 0, 0, 0)).unwrap(),
        "/work/src/a b.rs"
    );
}

#[test]
fn goto_responses_become_locations() {
    let a = location("file:///a.rs", 1, 2, 3);
    let b = location("file:///b.rs", 4, 5, 6);
    assert_eq!(
        goto_response_to_locations(GotoDefinitionResponse::Scalar(a.clone())),
        vec![a.clone()]
    );
    assert_eq!(
        goto_response_to_locations(GotoDefinitionResponse::Array(vec![a.clone(), b.clone()])),
        vec![a.clone(), b.clone()]
    );
    let links = vec![
        LocationLink {
            target_uri: "file:///a.rs".to_string(),
            target_range: range(1, 2, 3),
            target_selection_range: range(1, 2, 2),
        },
        LocationLink {
            target_uri: "file:///b.rs".to_string(),
            target_range: range(4, 5, 6),
            target_selection_range: range(9, 9, 9),
        },
    ];
    assert_eq!(goto_response_to_locations(GotoDefinitionResponse::Link(links)), vec![a, b]);
}

#[test]
fn hover_text() {
    let code = MarkedString::LanguageString(LanguageString {
        language: "rust".to_string(),
        value: "pub fn add(a: i32, b: i32) -> i32".to_string(),
    });
    assert_eq!(
        extract_hover_text(HoverContents::Scalar(code.clone())),
        "```rust\npub fn add(a: i32, b: i32) -> i32\n```"
    );
    assert_eq!(
        extract_hover_text(HoverContents::Array(vec![
            code,
            MarkedString::String("Adds two numbers.".to_string()),
        ])),
        "```rust\npub fn add(a: i32, b: i32) -> i32\n```\n\nAdds two numbers."
    );
    assert_eq!(extract_hover_text(HoverContents::Array(vec![])), "");
    assert_eq!(
        extract_hover_text(HoverContents::Markup(MarkupContent { value: "**add**".to_string() })),
        "**add**"
    );
}

#[test]
fn hover_without_text_says_so() {
    assert_eq!(format_hover(None), "No hover information available.");
    assert_eq!(
        format_hover(Some(Hover {
            contents: HoverContents::Markup(MarkupContent { value: String::new() }),
            range: None,
        })),
        "No hover information available."
    );
    assert_eq!(
        format_hover(Some(Hover {
            contents: HoverContents::Array(vec![]),
            range: Some(range(0, 0, 1)),
        })),
        "No hover information available."
    );
    assert_eq!(
        format_hover(Some(Hover {
            contents: HoverContents::Markup(MarkupContent { value: "i32".to_string() }),
            range: None,
        })),
        "i32"
    );
}

#[test]
fn document_symbols_as_an_outline() {
    let forest = vec![
        symbol(
            "Point",
            SymbolKind::Struct,
            45,
            vec![
                symbol("x", SymbolKind::Field, 46, vec![]),
                symbol("y", SymbolKind::Field, 47, vec![]),
            ],
        ),
        symbol(
            "impl Point",
            SymbolKind::Object,
            50,
            vec![symbol(
                "new",
                SymbolKind::Function,
                52,
                vec![symbol("inner", SymbolKind::Variable, 53, vec![])],
            )],
        ),
        symbol("add", SymbolKind::Function, 21, vec![]),
    ];
    let expected = "[struct] Point (line 46)\n  [field] x (line 47)\n  [field] y (line 48)\n[object] impl Point (line 51)\n  [function] new (line 53)\n    [variable] inner (line 54)\n[function] add (line 22)\n";
    assert_eq!(format_document_symbols(&forest, 0), expected);
    assert_eq!(
        format_document_symbols(&vec![symbol("add", SymbolKind::Function, 21, vec![])], 2),
        "    [function] add (line 22)\n"
    );
    assert_eq!(format_document_symbol_response(&DocumentSymbolResponse::Nested(forest)), expected);
    assert_eq!(
        format_document_symbol_response(&DocumentSymbolResponse::Nested(vec![])),
        "No symbols found in document."
    );
    assert_eq!(
        format_document_symbol_response(&DocumentSymbolResponse::Flat(vec![])),
        "No symbols found in document."
    );
    assert_eq!(
        format_document_symbol_response(&DocumentSymbolResponse::Flat(vec![information(
            "add",
            SymbolKind::Function,
            "file:///work/src/lib.rs",
            21
        )])),
        "[function] add - /work/src/lib.rs:22\n"
    );
}

#[test]
fn symbol_information_as_a_listing() {
    let mut method = information("calculate", SymbolKind::Method, "file:///work/src/calculator.rs", 3);
    method.container_name = Some("Calculator".to_string());
    let symbols = vec![
        information("add", SymbolKind::Function, "file:///work/src/lib.rs", 21),
        method,
        information("scratch", SymbolKind::Unknown, "untitled:Untitled-1", 0),
        information("far", SymbolKind::Constant, "file:///far.rs", u32::MAX),
    ];
    assert_eq!(
        format_symbol_information(&symbols),
        "[function] add - /work/src/lib.rs:22\n[method] calculate (in Calculator) - /work/src/calculator.rs:4\n[unknown] scratch - untitled:Untitled-1:1\n[constant] far - /far.rs:4294967296\n"
    );
}

#[test]
fn workspace_symbols_are_cut_to_the_limit() {
    let symbols = vec![
        information("add", SymbolKind::Function, "file:///work/src/lib.rs", 21),
        information("Adder", SymbolKind::Struct, "file:///work/src/calculator.rs", 7),
        information("address", SymbolKind::Variable, "file:///work/src/main.rs", 2),
    ];
    assert_eq!(default_max_results(), 50);
    let all = "[function] add - /work/src/lib.rs:22\n[struct] Adder - /work/src/calculator.rs:8\n[variable] address - /work/src/main.rs:3\n";
    assert_eq!(format_workspace_symbols(&symbols, "add", default_max_results()), all);
    assert_eq!(format_workspace_symbols(&symbols, "add", 3), all);
    assert_eq!(
        format_workspace_symbols(&symbols, "add", 2),
        "[function] add - /work/src/lib.rs:22\n[struct] Adder - /work/src/calculator.rs:8\n"
    );
    assert_eq!(
        format_workspace_symbols(&symbols, "add", 1),
        "[function] add - /work/src/lib.rs:22\n"
    );
    assert_eq!(format_workspace_symbols(&symbols, "add", 0), "No symbols found matching 'add'.");
    assert_eq!(format_workspace_symbols(&vec![], "zzz", 50), "No symbols found matching 'zzz'.");
    assert_eq!(format_workspace_symbols(&symbols, "add", u32::MAX), all);
}

#[test]
fn incoming_calls_with_their_call_sites() {
    assert_eq!(format_incoming_calls(&vec![]), "No incoming calls found.");
    let calls = vec![
        CallHierarchyIncomingCall {
            from: item("main", SymbolKind::Function, "file:///work/src/main.rs", 4),
            from_ranges: vec![range(6, 17, 20), range(9, 4, 7)],
        },
        CallHierarchyIncomingCall {
            from: item("helper", SymbolKind::Method, "file:///work/src/util.rs", 0),
            from_ranges: vec![],
        },
    ];
    assert_eq!(
        format_incoming_calls(&calls),
        "\n[function] main - /work/src/main.rs:5\n  Call site: line 7, column 18\n  Call site: line 10, column 5\n\n[method] helper - /work/src/util.rs:1\n"
    );
}

#[test]
fn outgoing_calls_with_their_call_sites() {
    assert_eq!(format_outgoing_calls(&vec![]), "No outgoing calls found.");
    let calls = vec![CallHierarchyOutgoingCall {
        to: item("add", SymbolKind::Function, "file:///work/src/lib.rs", 21),
        from_ranges: vec![range(6, 17, 20)],
    }];
    assert_eq!(
        format_outgoing_calls(&calls),
        "\n[function] add - /work/src/lib.rs:22\n  Call site: line 7, column 18\n"
    );
}

#[test]
fn tool_names() {
    let all = [
        (Tool::GotoDefinition, "goto_definition"),
        (Tool::FindReferences, "find_references"),
        (Tool::Hover, "hover"),
        (Tool::DocumentSymbols, "document_symbols"),
        (Tool::WorkspaceSymbols, "workspace_symbols"),
        (Tool::IncomingCalls, "incoming_calls"),
        (Tool::OutgoingCalls, "outgoing_calls"),
        (Tool::Implementations, "implementations"),
        (Tool::TypeDefinition, "type_definition"),
    ];
    for (tool, name) in all {
        assert_eq!(tool.name(), name);
    }
}

#[test]
fn failures_at_the_tool_boundary() {
    let not_found = LspError::DocumentNotFound("failed to read 'a.rs': denied".to_string());
    match open_failure(&not_found) {
        McpError::InternalError(detail) => assert_eq!(
            detail,
            "failed to open document: document not found: failed to read 'a.rs': denied"
        ),
        other => panic!("unexpected: {:?}", other),
    }
    let invalid = LspError::InvalidPosition { line: 0, column: 1 };
    match request_failure(Tool::FindReferences, &invalid) {
        McpError::InternalError(detail) => {
            assert_eq!(detail, "find_references failed: invalid position: line 0, column 1");
        }
        other => panic!("unexpected: {:?}", other),
    }
    assert!(matches!(
        resolution_failure(ToolError::SymbolNotFound),
        McpError::ToolError(ToolError::SymbolNotFound)
    ));
}
