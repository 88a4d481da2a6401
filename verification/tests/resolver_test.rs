use kadabra_runes::error::ToolError;
use kadabra_runes::lsp::types::{
    DocumentSymbol, DocumentSymbolResponse, Location, Position, Range, SymbolInformation,
    SymbolKind,
};
use kadabra_runes::mcp::resolver::{query_target, QueryTarget, Resolution, SymbolResolver};
use kadabra_runes::mcp::tools::{PositionParams, SymbolNameParams, SymbolQuery};

const LIB: &str = "file:///work/sample_project/src/lib.rs";
const CALCULATOR: &str = "file:///work/sample_project/src/calculator.rs";

fn range(line: u32, from: u32, to: u32) -> Range {
    Range {
        start: Position { line, character: from },
        end: Position { line, character: to },
    }
}

fn listed(name: &str, kind: SymbolKind, uri: &str, line: u32, column: u32) -> SymbolInformation {
    SymbolInformation {
        name: name.to_string(),
        kind,
        location: Location { uri: uri.to_string(), range: range(line, column, column + 3) },
        container_name: None,
    }
}

fn declared(name: &str, kind: SymbolKind, line: u32, column: u32, children: Vec<DocumentSymbol>) -> DocumentSymbol {
    DocumentSymbol {
        name: name.to_string(),
        kind,
        range: range(line, 0, 40),
        selection_range: range(line, column, column + name.len() as u32),
        children,
    }
}

/// The symbols that the lib.rs of the sample project declares.
fn lib_symbols() -> DocumentSymbolResponse {
    DocumentSymbolResponse::Nested(vec![
        declared("calculator", SymbolKind::Module, 0, 8, vec![]),
        declared("add", SymbolKind::Function, 21, 7, vec![]),
        declared("subtract", SymbolKind::Function, 35, 7, vec![]),
        declared("multiply", SymbolKind::Function, 40, 7, vec![]),
        declared(
            "Point",
            SymbolKind::Struct,
            45,
            11,
            vec![
                declared("x", SymbolKind::Field, 46, 8, vec![]),
                declared("y", SymbolKind::Field, 47, 8, vec![]),
            ],
        ),
        declared(
            "impl Point",
            SymbolKind::Object,
            50,
            5,
            vec![
                declared("new", SymbolKind::Function, 52, 11, vec![]),
                declared("distance_from_origin", SymbolKind::Function, 57, 11, vec![]),
            ],
        ),
    ])
}

fn found(file_path: &str, line: u32, column: u32) -> PositionParams {
    PositionParams { file_path: file_path.to_string(), line, column }
}

#[test]
fn a_name_alone_is_searched_in_the_workspace() {
    let resolver = SymbolResolver::new("multiply", None);
    assert_eq!(resolver.resolve(), Resolution::AskWorkspace { query: "multiply".to_string() });
    let answer = vec![
        listed("Multiplier", SymbolKind::Struct, CALCULATOR, 16, 11),
        listed("multiply", SymbolKind::Function, LIB, 40, 7),
    ];
    assert_eq!(
        resolver.workspace_answered(&answer).unwrap(),
        found("/work/sample_project/src/lib.rs", 41, 8)
    );
}

#[test]
fn a_hinted_file_that_declares_the_symbol_answers() {
    let resolver = SymbolResolver::new("add", Some("src/lib.rs"));
    assert_eq!(resolver.resolve(), Resolution::AskDocument { file_path: "src/lib.rs".to_string() });
    assert_eq!(
        resolver.document_answered("src/lib.rs", Some(&lib_symbols())),
        Resolution::Found(found("src/lib.rs", 22, 8))
    );
}

#[test]
fn the_function_is_found_and_not_the_struct_of_a_similar_name() {
    let with_decoy = DocumentSymbolResponse::Flat(vec![
        listed("Adder", SymbolKind::Struct, LIB, 2, 21),
        listed("adder", SymbolKind::Variable, LIB, 3, 4),
        listed("add", SymbolKind::Function, LIB, 21, 7),
        listed("add", SymbolKind::Function, LIB, 99, 1),
    ]);
    let resolver = SymbolResolver::new("add", Some("src/lib.rs"));
    assert_eq!(
        resolver.document_answered("src/lib.rs", Some(&with_decoy)),
        Resolution::Found(found("src/lib.rs", 22, 8))
    );
}

#[test]
fn a_name_that_the_workspace_search_misses_is_not_found() {
    let resolver = SymbolResolver::new("add", None);
    assert_eq!(resolver.resolve(), Resolution::AskWorkspace { query: "add".to_string() });
    let answer = vec![
        listed("Adder", SymbolKind::Struct, CALCULATOR, 7, 11),
        listed("Adder", SymbolKind::Struct, LIB, 2, 21),
    ];
    assert!(matches!(resolver.workspace_answered(&answer), Err(ToolError::SymbolNotFound)));
    assert!(matches!(resolver.workspace_answered(&vec![]), Err(ToolError::SymbolNotFound)));
}

#[test]
fn a_hinted_file_that_only_re_exports_falls_back_to_the_workspace() {
    let resolver = SymbolResolver::new("Calculator", Some("src/lib.rs"));
    assert_eq!(
        resolver.document_answered("src/lib.rs", Some(&lib_symbols())),
        Resolution::AskWorkspace { query: "Calculator".to_string() }
    );
    let answer = vec![listed("Calculator", SymbolKind::Interface, CALCULATOR, 1, 10)];
    assert_eq!(
        resolver.workspace_answered(&answer).unwrap(),
        found("/work/sample_project/src/calculator.rs", 2, 11)
    );
}

#[test]
fn a_hinted_file_whose_symbols_cannot_be_had_falls_back_to_the_workspace() {
    let resolver = SymbolResolver::new("Calculator", Some("calculator.rs"));
    assert_eq!(
        resolver.resolve(),
        Resolution::AskDocument { file_path: "calculator.rs".to_string() }
    );
    assert_eq!(
        resolver.document_answered("calculator.rs", None),
        Resolution::AskWorkspace { query: "Calculator".to_string() }
    );
}

#[test]
fn names_are_matched_exactly_and_with_case() {
    let resolver = SymbolResolver::new("point", Some("src/lib.rs"));
    assert_eq!(
        resolver.document_answered("src/lib.rs", Some(&lib_symbols())),
        Resolution::AskWorkspace { query: "point".to_string() }
    );
    let answer = vec![
        listed("Point", SymbolKind::Struct, LIB, 45, 11),
        listed("points", SymbolKind::Variable, LIB, 70, 4),
    ];
    assert!(matches!(resolver.workspace_answered(&answer), Err(ToolError::SymbolNotFound)));
}

#[test]
fn among_several_exact_matches_the_first_returned_is_taken() {
    let resolver = SymbolResolver::new("new", None);
    let answer = vec![
        listed("renew", SymbolKind::Function, LIB, 5, 1),
        listed("new", SymbolKind::Function, CALCULATOR, 60, 11),
        listed("new", SymbolKind::Function, LIB, 52, 11),
    ];
    assert_eq!(
        resolver.workspace_answered(&answer).unwrap(),
        found("/work/sample_project/src/calculator.rs", 61, 12)
    );
}

#[test]
fn a_symbol_comes_before_its_children_and_they_before_what_follows() {
    let forest = DocumentSymbolResponse::Nested(vec![
        declared(
            "outer",
            SymbolKind::Module,
            0,
            4,
            vec![
                declared(
                    "first",
                    SymbolKind::Struct,
                    1,
                    4,
                    vec![declared("target", SymbolKind::Field, 2, 8, vec![])],
                ),
                declared("target", SymbolKind::Function, 5, 7, vec![]),
            ],
        ),
        declared("target", SymbolKind::Constant, 9, 6, vec![]),
        declared("last", SymbolKind::Function, 12, 3, vec![]),
    ]);
    let at = |name: &str| SymbolResolver::new(name, Some("m.rs")).document_answered("m.rs", Some(&forest));
    assert_eq!(at("target"), Resolution::Found(found("m.rs", 3, 9)));
    assert_eq!(at("outer"), Resolution::Found(found("m.rs", 1, 5)));
    assert_eq!(at("last"), Resolution::Found(found("m.rs", 13, 4)));
    assert_eq!(at("absent"), Resolution::AskWorkspace { query: "absent".to_string() });
}

#[test]
fn a_place_without_a_user_form_is_no_match() {
    let resolver = SymbolResolver::new("far", None);
    let answer = vec![
        listed("far", SymbolKind::Function, LIB, u32::MAX, 0),
        listed("far", SymbolKind::Function, LIB, 3, u32::MAX),
        listed("far", SymbolKind::Function, LIB, u32::MAX - 1, 0),
    ];
    assert_eq!(
        resolver.workspace_answered(&answer).unwrap(),
        found("/work/sample_project/src/lib.rs", u32::MAX, 1)
    );
}

#[test]
fn a_symbol_outside_any_file_is_named_by_its_uri() {
    let resolver = SymbolResolver::new("scratch", None);
    let answer = vec![listed("scratch", SymbolKind::Variable, "untitled:Untitled-1", 0, 0)];
    assert_eq!(resolver.workspace_answered(&answer).unwrap(), found("untitled:Untitled-1", 1, 1));
}

#[test]
fn queries_point_to_a_place_or_to_a_search() {
    let place = PositionParams { file_path: "/work/src/main.rs".to_string(), line: 7, column: 18 };
    assert_eq!(query_target(&SymbolQuery::Position(place.clone())), QueryTarget::Place(place));
    let named = SymbolNameParams {
        symbol: "Calculator".to_string(),
        file_path: Some("calculator.rs".to_string()),
    };
    assert_eq!(
        query_target(&SymbolQuery::Name(named.clone())),
        QueryTarget::Search(SymbolResolver {
            name: "Calculator".to_string(),
            file_hint: Some("calculator.rs".to_string()),
        })
    );
    assert_eq!(SymbolResolver::for_query(&named), SymbolResolver::new("Calculator", Some("calculator.rs")));
}

/// What a server that has indexed the sample project returns for a search of
/// the workspace: names that hold the query, of which the function `add` is
/// none, since the struct `Adder` takes its place.
fn workspace_search(query: &str) -> Vec<SymbolInformation> {
    let all = vec![
        listed("Adder", SymbolKind::Struct, CALCULATOR, 7, 11),
        listed("Calculator", SymbolKind::Interface, CALCULATOR, 1, 10),
        listed("Multiplier", SymbolKind::Struct, CALCULATOR, 16, 11),
        listed("multiply", SymbolKind::Function, LIB, 40, 7),
        listed("Subtractor", SymbolKind::Struct, CALCULATOR, 25, 11),
        listed("subtract", SymbolKind::Function, LIB, 35, 7),
        listed("Point", SymbolKind::Struct, LIB, 45, 11),
    ];
    let wanted = query.to_lowercase();
    all.into_iter().filter(|symbol| symbol.name.to_lowercase().contains(&wanted)).collect()
}

#[test]
fn resolve_multiply_without_a_hint_finds_the_only_symbol_of_that_name() {
    let resolver = SymbolResolver::new("multiply", None);
    let workspace = workspace_search("multiply");
    assert_eq!(workspace.iter().filter(|symbol| symbol.name == "multiply").count(), 1);
    assert_eq!(
        resolver.resolve_in(None, &workspace).unwrap(),
        found("/work/sample_project/src/lib.rs", 41, 8)
    );
}

#[test]
fn resolve_add_with_the_file_that_declares_it_finds_the_function_and_not_the_decoy() {
    let resolver = SymbolResolver::new("add", Some("lib.rs"));
    let workspace = workspace_search("add");
    assert!(workspace.iter().any(|symbol| symbol.name == "Adder"));
    assert_eq!(
        resolver.resolve_in(Some(&lib_symbols()), &workspace).unwrap(),
        found("lib.rs", 22, 8)
    );
}

#[test]
fn resolve_add_without_a_hint_fails_with_symbol_not_found() {
    let resolver = SymbolResolver::new("add", None);
    let workspace = workspace_search("add");
    assert!(!workspace.is_empty());
    assert!(matches!(
        resolver.resolve_in(None, &workspace),
        Err(ToolError::SymbolNotFound)
    ));
    assert!(matches!(
        resolver.resolve_in(Some(&lib_symbols()), &workspace),
        Err(ToolError::SymbolNotFound)
    ));
}

#[test]
fn resolve_falls_back_to_the_workspace_where_the_file_gives_nothing() {
    let resolver = SymbolResolver::new("Calculator", Some("src/lib.rs"));
    let workspace = workspace_search("Calculator");
    assert_eq!(
        resolver.resolve_in(Some(&lib_symbols()), &workspace).unwrap(),
        found("/work/sample_project/src/calculator.rs", 2, 11)
    );
    assert_eq!(
        resolver.resolve_in(None, &workspace).unwrap(),
        found("/work/sample_project/src/calculator.rs", 2, 11)
    );
}
