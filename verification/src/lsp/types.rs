//! The values that travel between this client and a language server, and the
//! conversions on them: positions, symbol kinds, file URLs.

use crate::error::LspError;
use crate::lsp::LspResult;
use vstd::prelude::*;

verus! {

/// `str`'s `==`: two strings are equal when they hold the same characters.
pub assume_specification[ <str as PartialEq>::eq ](a: &str, b: &str) -> (equal: bool)
    ensures
        equal == (a@ == b@),
;

/// A place in a document as the language server counts it: lines and
/// characters from zero.
#[derive(Clone, Copy, Debug, PartialEq, Eq, Structural)]
pub struct Position {
    /// The line, from zero.
    pub line: u32,
    /// The offset in the line, from zero.
    pub character: u32,
}

/// A stretch of a document between two places.
#[derive(Clone, Copy, Debug, PartialEq, Eq, Structural)]
pub struct Range {
    /// Where the stretch begins.
    pub start: Position,
    /// Where it ends.
    pub end: Position,
}

/// A stretch of the document with a given URI.
#[derive(Clone, Debug, PartialEq, Eq)]
pub struct Location {
    /// The URI of the document, as text.
    pub uri: String,
    /// The stretch in the document.
    pub range: Range,
}

/// A link from one place to a stretch of a target document.
#[derive(Clone, Debug, PartialEq, Eq)]
pub struct LocationLink {
    /// The URI of the target document, as text.
    pub target_uri: String,
    /// The whole of the target.
    pub target_range: Range,
    /// The part of the target to select, such as its name.
    pub target_selection_range: Range,
}

/// What a language server answers when asked where something is defined.
#[derive(Clone, Debug, PartialEq, Eq)]
pub enum GotoDefinitionResponse {
    /// One location.
    Scalar(Location),
    /// Any number of locations.
    Array(Vec<Location>),
    /// Any number of links.
    Link(Vec<LocationLink>),
}

/// The kind of a symbol.
#[derive(Clone, Copy, Debug, PartialEq, Eq, Structural)]
pub enum SymbolKind {
    File,
    Module,
    Namespace,
    Package,
    Class,
    Method,
    Property,
    Field,
    Constructor,
    Enum,
    Interface,
    Function,
    Variable,
    Constant,
    String,
    Number,
    Boolean,
    Array,
    Object,
    Key,
    Null,
    EnumMember,
    Struct,
    Event,
    Operator,
    TypeParameter,
    /// A kind that this client has no name for.
    Unknown,
}

impl SymbolKind {
    /// The kind that the protocol numbers `code`.
    pub open spec fn of_code(code: int) -> SymbolKind {
        if code == 1 {
            SymbolKind::File
        } else if code == 2 {
            SymbolKind::Module
        } else if code == 3 {
            SymbolKind::Namespace
        } else if code == 4 {
            SymbolKind::Package
        } else if code == 5 {
            SymbolKind::Class
        } else if code == 6 {
            SymbolKind::Method
        } else if code == 7 {
            SymbolKind::Property
        } else if code == 8 {
            SymbolKind::Field
        } else if code == 9 {
            SymbolKind::Constructor
        } else if code == 10 {
            SymbolKind::Enum
        } else if code == 11 {
            SymbolKind::Interface
        } else if code == 12 {
            SymbolKind::Function
        } else if code == 13 {
            SymbolKind::Variable
        } else if code == 14 {
            SymbolKind::Constant
        } else if code == 15 {
            SymbolKind::String
        } else if code == 16 {
            SymbolKind::Number
        } else if code == 17 {
            SymbolKind::Boolean
        } else if code == 18 {
            SymbolKind::Array
        } else if code == 19 {
            SymbolKind::Object
        } else if code == 20 {
            SymbolKind::Key
        } else if code == 21 {
            SymbolKind::Null
        } else if code == 22 {
            SymbolKind::EnumMember
        } else if code == 23 {
            SymbolKind::Struct
        } else if code == 24 {
            SymbolKind::Event
        } else if code == 25 {
            SymbolKind::Operator
        } else if code == 26 {
            SymbolKind::TypeParameter
        } else {
            SymbolKind::Unknown
        }
    }

    /// The kind that the protocol numbers `code`; `Unknown` for a number
    /// outside 1 to 26.
    pub fn from_code(code: i32) -> (kind: SymbolKind)
        ensures
            kind == SymbolKind::of_code(code as int),
    {
        match code {
            1 => SymbolKind::File,
            2 => SymbolKind::Module,
            3 => SymbolKind::Namespace,
            4 => SymbolKind::Package,
            5 => SymbolKind::Class,
            6 => SymbolKind::Method,
            7 => SymbolKind::Property,
            8 => SymbolKind::Field,
            9 => SymbolKind::Constructor,
            10 => SymbolKind::Enum,
            11 => SymbolKind::Interface,
            12 => SymbolKind::Function,
            13 => SymbolKind::Variable,
            14 => SymbolKind::Constant,
            15 => SymbolKind::String,
            16 => SymbolKind::Number,
            17 => SymbolKind::Boolean,
            18 => SymbolKind::Array,
            19 => SymbolKind::Object,
            20 => SymbolKind::Key,
            21 => SymbolKind::Null,
            22 => SymbolKind::EnumMember,
            23 => SymbolKind::Struct,
            24 => SymbolKind::Event,
            25 => SymbolKind::Operator,
            26 => SymbolKind::TypeParameter,
            _ => SymbolKind::Unknown,
        }
    }

    /// The name of the kind in lower case.
    pub open spec fn name(self) -> Seq<char> {
        match self {
            SymbolKind::File => "file"@,
            SymbolKind::Module => "module"@,
            SymbolKind::Namespace => "namespace"@,
            SymbolKind::Package => "package"@,
            SymbolKind::Class => "class"@,
            SymbolKind::Method => "method"@,
            SymbolKind::Property => "property"@,
            SymbolKind::Field => "field"@,
            SymbolKind::Constructor => "constructor"@,
            SymbolKind::Enum => "enum"@,
            SymbolKind::Interface => "interface"@,
            SymbolKind::Function => "function"@,
            SymbolKind::Variable => "variable"@,
            SymbolKind::Constant => "constant"@,
            SymbolKind::String => "string"@,
            SymbolKind::Number => "number"@,
            SymbolKind::Boolean => "boolean"@,
            SymbolKind::Array => "array"@,
            SymbolKind::Object => "object"@,
            SymbolKind::Key => "key"@,
            SymbolKind::Null => "null"@,
            SymbolKind::EnumMember => "enum_member"@,
            SymbolKind::Struct => "struct"@,
            SymbolKind::Event => "event"@,
            SymbolKind::Operator => "operator"@,
            SymbolKind::TypeParameter => "type_parameter"@,
            SymbolKind::Unknown => "unknown"@,
        }
    }
}

/// A symbol of one document, with the symbols declared inside it.
#[derive(Debug, PartialEq, Eq)]
pub struct DocumentSymbol {
    /// The name of the symbol.
    pub name: String,
    /// Its kind.
    pub kind: SymbolKind,
    /// The whole declaration.
    pub range: Range,
    /// The part to select, such as the name.
    pub selection_range: Range,
    /// The symbols declared inside this one, in document order.
    pub children: Vec<DocumentSymbol>,
}

/// A symbol with the location of its declaration.
#[derive(Clone, Debug, PartialEq, Eq)]
pub struct SymbolInformation {
    /// The name of the symbol.
    pub name: String,
    /// Its kind.
    pub kind: SymbolKind,
    /// Where it is declared.
    pub location: Location,
    /// The name of what contains it, if the server gave one.
    pub container_name: Option<String>,
}

/// What a language server answers when asked for the symbols of a document.
#[derive(Debug, PartialEq, Eq)]
pub enum DocumentSymbolResponse {
    /// A list of symbols without structure.
    Flat(Vec<SymbolInformation>),
    /// A forest of symbols.
    Nested(Vec<DocumentSymbol>),
}

/// What a language server answers to a search over the workspace.
#[derive(Clone, Debug, PartialEq, Eq)]
pub enum WorkspaceSymbolResponse {
    /// Symbols with their locations.
    Flat(Vec<SymbolInformation>),
    /// Symbols in the newer form, whose entries this client does not read.
    Nested,
}

/// A piece of code in a named language.
#[derive(Clone, Debug, PartialEq, Eq)]
pub struct LanguageString {
    /// The language of the code.
    pub language: String,
    /// The code.
    pub value: String,
}

/// A piece of hover text: plain markdown, or code in a language.
#[derive(Clone, Debug, PartialEq, Eq)]
pub enum MarkedString {
    String(String),
    LanguageString(LanguageString),
}

/// Text with markup.
#[derive(Clone, Debug, PartialEq, Eq)]
pub struct MarkupContent {
    /// The text.
    pub value: String,
}

/// The contents of a hover.
#[derive(Clone, Debug, PartialEq, Eq)]
pub enum HoverContents {
    /// One piece.
    Scalar(MarkedString),
    /// Several pieces.
    Array(Vec<MarkedString>),
    /// Text with markup.
    Markup(MarkupContent),
}

/// What a language server shows for the symbol at a position.
#[derive(Clone, Debug, PartialEq, Eq)]
pub struct Hover {
    /// What to show.
    pub contents: HoverContents,
    /// The stretch that the hover is about, if the server gave one.
    pub range: Option<Range>,
}

/// A callable entity as the call hierarchy names it.
#[derive(Clone, Debug, PartialEq, Eq)]
pub struct CallHierarchyItem {
    /// The name of the entity.
    pub name: String,
    /// Its kind.
    pub kind: SymbolKind,
    /// The URI of the document that declares it, as text.
    pub uri: String,
    /// The whole declaration.
    pub range: Range,
    /// The part to select, such as the name.
    pub selection_range: Range,
}

/// A caller, with the places in it where the calls are made.
#[derive(Clone, Debug, PartialEq, Eq)]
pub struct CallHierarchyIncomingCall {
    /// The caller.
    pub from: CallHierarchyItem,
    /// The calls, as stretches of the caller's document.
    pub from_ranges: Vec<Range>,
}

/// A callee, with the places where the calls to it are made.
#[derive(Clone, Debug, PartialEq, Eq)]
pub struct CallHierarchyOutgoingCall {
    /// The callee.
    pub to: CallHierarchyItem,
    /// The calls, as stretches of the document of the function that makes them.
    pub from_ranges: Vec<Range>,
}

/// The place counted from zero for a line and a column counted from one;
/// none where either is zero.
pub open spec fn zero_based(line: u32, column: u32) -> Option<Position> {
    if line >= 1 && column >= 1 {
        Some(Position { line: (line - 1) as u32, character: (column - 1) as u32 })
    } else {
        None
    }
}

/// The line and the column counted from one for a place counted from zero.
pub open spec fn one_based(position: Position) -> (int, int) {
    (position.line + 1, position.character + 1)
}

/// Converts a position counted from one, as users write it, to one counted
/// from zero. A line or column of zero is no position, and nothing else is
/// rejected.
pub fn to_lsp_position(line: u32, column: u32) -> (result: LspResult<Position>)
    ensures
        result is Err <==> line == 0 || column == 0,
        match zero_based(line, column) {
            Some(position) => result == Ok::<Position, LspError>(position),
            None => result == Err::<Position, LspError>(
                LspError::InvalidPosition { line, column },
            ),
        },
{
    if line == 0 {
        return Err(LspError::InvalidPosition { line, column });
    }
    if column == 0 {
        return Err(LspError::InvalidPosition { line, column });
    }
    Ok(Position { line: line - 1, character: column - 1 })
}

/// Converts a position counted from zero to line and column counted from one.
/// The largest line and the largest character have no such form.
pub fn from_lsp_position(position: Position) -> (result: (u32, u32))
    requires
        position.line < u32::MAX,
        position.character < u32::MAX,
    ensures
        (result.0 as int, result.1 as int) == one_based(position),
{
    (position.line + 1, position.character + 1)
}

/// Converts a position counted from zero to line and column counted from
/// one, where it has such a form.
pub fn checked_from_lsp_position(position: Position) -> (result: Option<(u32, u32)>)
    ensures
        result is Some <==> position.line < u32::MAX && position.character < u32::MAX,
        result matches Some(pair) ==> (pair.0 as int, pair.1 as int) == one_based(position),
{
    if position.line < u32::MAX && position.character < u32::MAX {
        Some(from_lsp_position(position))
    } else {
        None
    }
}

/// Every line and column of at least one has a place counted from zero, that
/// place can be converted back, and converting it back gives the line and
/// the column that one started from.
pub proof fn lemma_position_round_trip(line: u32, column: u32)
    requires
        line >= 1,
        column >= 1,
    ensures
        zero_based(line, column) is Some,
        zero_based(line, column)->Some_0.line < u32::MAX,
        zero_based(line, column)->Some_0.character < u32::MAX,
        one_based(zero_based(line, column)->Some_0) == (line as int, column as int),
{
}

/// A line and a column have no place counted from zero exactly when one of
/// them is zero.
pub proof fn lemma_only_zero_is_rejected(line: u32, column: u32)
    ensures
        zero_based(line, column) is None <==> line == 0 || column == 0,
{
}

/// The name of a symbol kind in lower case.
pub fn symbol_kind_to_string(kind: SymbolKind) -> (name: &'static str)
    ensures
        name@ == kind.name(),
{
    match kind {
        SymbolKind::File => "file",
        SymbolKind::Module => "module",
        SymbolKind::Namespace => "namespace",
        SymbolKind::Package => "package",
        SymbolKind::Class => "class",
        SymbolKind::Method => "method",
        SymbolKind::Property => "property",
        SymbolKind::Field => "field",
        SymbolKind::Constructor => "constructor",
        SymbolKind::Enum => "enum",
        SymbolKind::Interface => "interface",
        SymbolKind::Function => "function",
        SymbolKind::Variable => "variable",
        SymbolKind::Constant => "constant",
        SymbolKind::String => "string",
        SymbolKind::Number => "number",
        SymbolKind::Boolean => "boolean",
        SymbolKind::Array => "array",
        SymbolKind::Object => "object",
        SymbolKind::Key => "key",
        SymbolKind::Null => "null",
        SymbolKind::EnumMember => "enum_member",
        SymbolKind::Struct => "struct",
        SymbolKind::Event => "event",
        SymbolKind::Operator => "operator",
        SymbolKind::TypeParameter => "type_parameter",
        SymbolKind::Unknown => "unknown",
    }
}

/// The `file` URL that `Url::from_file_path` makes of a path, as text; `None`
/// where it makes none. The conventions for paths are those of the platform
/// that the library is built for, so that the path alone decides the result.
pub uninterp spec fn file_url_text(path: Seq<char>) -> Option<Seq<char>>;

/// The path that `Url::to_file_path` gives for the URL that `Url::parse`
/// reads from a text, as `Path::display` shows it; `None` where the text is
/// no URL or the URL names no file. The conventions for paths are those of
/// the platform that the library is built for, so that the text alone
/// decides the result.
pub uninterp spec fn url_file_path_text(uri: Seq<char>) -> Option<Seq<char>>;

/// Calls `Url::from_file_path` and takes the URL's serialization. The URL is
/// made from the path alone.
#[verifier::external_body]
pub(crate) fn file_url(path: &str) -> (url: Option<String>)
    ensures
        match url {
            Some(text) => file_url_text(path@) == Some(text@),
            None => file_url_text(path@) is None,
        },
{
    match lsp_types::Url::from_file_path(path) {
        Ok(url) => Some(String::from(url)),
        Err(()) => None,
    }
}

/// Calls `Url::parse` and then `Url::to_file_path`, and shows the path with
/// `Path::display`. Both read the text alone.
#[verifier::external_body]
pub(crate) fn url_file_path(uri: &str) -> (path: Option<String>)
    ensures
        match path {
            Some(text) => url_file_path_text(uri@) == Some(text@),
            None => url_file_path_text(uri@) is None,
        },
{
    match lsp_types::Url::parse(uri) {
        Ok(url) => match url.to_file_path() {
            Ok(path) => Some(path.display().to_string()),
            Err(()) => None,
        },
        Err(_) => None,
    }
}

/// How the attempt to make a path absolute and free of symbolic links ended.
#[derive(Clone, Debug, PartialEq, Eq)]
pub enum PathResolution {
    /// The path is relative and the current directory could not be had; the
    /// text is that of the failure.
    NoCurrentDir(String),
    /// The path could not be resolved; the text is that of the failure.
    NotCanonical(String),
    /// The resolved path.
    Canonical(String),
}

/// What `path_to_url` returns for a path and the way its resolution ended.
pub open spec fn path_url_outcome(
    path: Seq<char>,
    resolution: PathResolution,
    result: LspResult<String>,
) -> bool {
    match resolution {
        PathResolution::NoCurrentDir(failure) => result matches Err(
            LspError::DocumentNotFound(detail),
        ) && detail@ == "failed to get current directory: "@ + failure@,
        PathResolution::NotCanonical(failure) => result matches Err(
            LspError::DocumentNotFound(detail),
        ) && detail@ == "failed to canonicalize path '"@ + path + "': "@ + failure@,
        PathResolution::Canonical(resolved) => match file_url_text(resolved@) {
            Some(url) => result matches Ok(text) && text@ == url,
            None => result matches Err(LspError::DocumentNotFound(detail)) && detail@
                == "invalid path: "@ + resolved@,
        },
    }
}

/// The `file` URL of a path, given how the path was resolved. A path that
/// could not be resolved, or that has no URL, is a document that is not
/// there.
pub fn path_to_url(path: &str, resolution: PathResolution) -> (result: LspResult<String>)
    ensures
        path_url_outcome(path@, resolution, result),
{
    match resolution {
        PathResolution::NoCurrentDir(failure) => {
            let mut detail = String::new();
            detail.append("failed to get current directory: ");
            detail.append(failure.as_str());
            Err(LspError::DocumentNotFound(detail))
        },
        PathResolution::NotCanonical(failure) => {
            let mut detail = String::new();
            detail.append("failed to canonicalize path '");
            detail.append(path);
            detail.append("': ");
            detail.append(failure.as_str());
            Err(LspError::DocumentNotFound(detail))
        },
        PathResolution::Canonical(resolved) => {
            match file_url(resolved.as_str()) {
                Some(url) => Ok(url),
                None => {
                    let mut detail = String::new();
                    detail.append("invalid path: ");
                    detail.append(resolved.as_str());
                    Err(LspError::DocumentNotFound(detail))
                },
            }
        },
    }
}

/// The text that stands for a URI in a listing: the path of the file that it
/// names, or the URI itself where it names none.
pub open spec fn shown_path(uri: Seq<char>) -> Seq<char> {
    match url_file_path_text(uri) {
        Some(path) => path,
        None => uri,
    }
}

/// The path of the file that a URI names, or the URI itself where it names none.
pub fn uri_display(uri: &str) -> (shown: String)
    ensures
        shown@ == shown_path(uri@),
{
    match url_file_path(uri) {
        Some(path) => path,
        None => uri.to_owned(),
    }
}

} // verus!
