//! How the results of the tools are rendered as text.
//!
//! Every function here is a computation on values that are already at hand:
//! the answers of the language server and the text of the files they point
//! into. An empty result is rendered as a sentence that says so.

use crate::error::{LspError, McpError, ToolError};
use crate::lsp::types::{
    shown_path, symbol_kind_to_string, uri_display, url_file_path, url_file_path_text,
    CallHierarchyIncomingCall, CallHierarchyItem, CallHierarchyOutgoingCall, DocumentSymbol,
    DocumentSymbolResponse, GotoDefinitionResponse, Hover, HoverContents, Location, LocationLink,
    MarkedString, Position, Range, SymbolInformation,
};
use crate::text::{
    decimal, join, joined, lines_of, push_decimal, push_right_aligned, right_aligned, split_lines,
    texts,
};
use vstd::prelude::*;

verus! {

/// How many lines of a file are shown each side of a location.
pub const CONTEXT_LINES: usize = 2;

/// A line as a listing shows it: a marker if it is the line that the
/// listing is about, its number in a column of four, a bar, and the text.
pub open spec fn listing_entry(marked: bool, number: nat, text: Seq<char>) -> Seq<char> {
    (if marked {
        ">"@
    } else {
        " "@
    }) + " "@ + right_aligned(decimal(number), 4) + " | "@ + text + "\n"@
}

/// The line `at` of `lines` as a listing about the line `target` shows it,
/// numbered from one.
pub open spec fn listing_line(lines: Seq<Seq<char>>, target: int, at: int) -> Seq<char> {
    listing_entry(at == target, (at + 1) as nat, lines[at])
}

/// The lines `from` to `to - 1` of `lines` as a listing shows them.
pub open spec fn listing(lines: Seq<Seq<char>>, target: int, from: int, to: int) -> Seq<char>
    decreases to - from,
{
    if to <= from {
        Seq::empty()
    } else {
        listing(lines, target, from, to - 1) + listing_line(lines, target, to - 1)
    }
}

/// The first line of the window of `context` lines each side of `target`.
pub open spec fn window_start(target: int, context: int) -> int {
    if target >= context {
        target - context
    } else {
        0
    }
}

/// The line after the last of the window, among `count` lines.
pub open spec fn window_end(target: int, context: int, count: int) -> int {
    if target + context + 1 <= count {
        target + context + 1
    } else {
        count
    }
}

/// The listing of the line `target` of `content`, counted from zero, with up
/// to `context` lines before and after it. Only lines that exist are
/// listed: a target beyond the end by more than `context` lists nothing.
pub open spec fn context_text(content: Seq<char>, target: int, context: int) -> Seq<char> {
    let lines = lines_of(content);
    listing(
        lines,
        target,
        window_start(target, context),
        window_end(target, context, lines.len() as int),
    )
}

fn push_listing_entry(out: &mut String, marked: bool, number: u64, text: &str)
    ensures
        final(out)@ == old(out)@ + listing_entry(marked, number as nat, text@),
{
    let ghost before = out@;
    if marked {
        out.append(">");
    } else {
        out.append(" ");
    }
    out.append(" ");
    let mut numeral = String::new();
    push_decimal(&mut numeral, number);
    push_right_aligned(out, numeral.as_str(), 4);
    out.append(" | ");
    out.append(text);
    out.append("\n");
    proof {
        assert(out@ =~= before + listing_entry(marked, number as nat, text@));
    }
}

fn context_around(content: &str, target: usize, context: usize) -> (out: String)
    ensures
        out@ == context_text(content@, target as int, context as int),
{
    let lines = split_lines(content);
    let start: usize = if target >= context {
        target - context
    } else {
        0
    };
    let end: usize = if target < lines.len() && context < lines.len() - target {
        target + context + 1
    } else {
        lines.len()
    };
    let mut out = String::new();
    let mut at: usize = start;
    while at < end
        invariant
            end <= lines@.len(),
            start <= at,
            start < end ==> at <= end,
            start >= end ==> at == start,
            out@ == listing(texts(lines@), target as int, start as int, at as int),
        decreases end - at,
    {
        push_listing_entry(&mut out, at == target, at as u64 + 1, lines[at].as_str());
        at = at + 1;
    }
    out
}

/// Lists the line `line` of `content`, counted from one, with up to
/// `context` lines before and after it. Line zero is listed as line one.
pub fn context_lines(content: &str, line: u32, context: usize) -> (out: String)
    ensures
        out@ == context_text(
            content@,
            if line >= 1 {
                line - 1
            } else {
                0
            },
            context as int,
        ),
{
    let target: u32 = if line >= 1 {
        line - 1
    } else {
        0
    };
    context_around(content, target as usize, context)
}

/// A location as a heading: path, line and column, both counted from one.
pub open spec fn location_heading(path: Seq<char>, start: Position) -> Seq<char> {
    path + ":"@ + decimal((start.line + 1) as nat) + ":"@ + decimal((start.character + 1) as nat)
        + "\n"@
}

/// A location with the lines around it: the heading, then the listing.
pub open spec fn located_text(
    path: Seq<char>,
    start: Position,
    content: Seq<char>,
    context: int,
) -> Seq<char> {
    location_heading(path, start) + context_text(content, start.line as int, context)
}

/// A location with what reading its file gave: the text, or the failure.
#[derive(Debug, PartialEq, Eq)]
pub struct LocatedSource {
    /// The location.
    pub location: Location,
    /// The text of the file that the location points into, or the text of
    /// the failure to read it.
    pub source: Result<String, String>,
}

/// What a location comes to as text: its heading and listing, or the
/// message of what went wrong. A URI that names no file goes wrong before
/// the file is looked at.
pub open spec fn rendering(entry: LocatedSource, context: int) -> Result<Seq<char>, Seq<char>> {
    match url_file_path_text(entry.location.uri@) {
        None => Err("invalid file URI"@),
        Some(path) => match entry.source {
            Err(failure) => Err("failed to read file: "@ + failure@),
            Ok(content) => Ok(located_text(path, entry.location.range.start, content@, context)),
        },
    }
}

/// The message of the first location that goes wrong, if one does.
pub open spec fn first_failure(entries: Seq<LocatedSource>, context: int) -> Option<Seq<char>>
    decreases entries.len(),
{
    if entries.len() == 0 {
        None
    } else {
        match first_failure(entries.drop_last(), context) {
            Some(failure) => Some(failure),
            None => match rendering(entries.last(), context) {
                Err(failure) => Some(failure),
                Ok(_) => None,
            },
        }
    }
}

/// The texts of the locations, in order.
pub open spec fn renderings(entries: Seq<LocatedSource>, context: int) -> Seq<Seq<char>> {
    Seq::new(
        entries.len(),
        |i: int|
            match rendering(entries[i], context) {
                Ok(text) => text,
                Err(_) => Seq::empty(),
            },
    )
}

/// What a list of locations comes to as text: a sentence where there are
/// none, else the locations with a rule between them, or the message of the
/// first that goes wrong.
pub open spec fn locations_text(entries: Seq<LocatedSource>, context: int) -> Result<
    Seq<char>,
    Seq<char>,
> {
    if entries.len() == 0 {
        Ok("No results found."@)
    } else {
        match first_failure(entries, context) {
            Some(failure) => Err(failure),
            None => Ok(joined(renderings(entries, context), "\n\n---\n\n"@)),
        }
    }
}

/// `result` is the text `expected`, or an internal error with the message `expected`.
pub open spec fn rendered_as(
    result: Result<String, McpError>,
    expected: Result<Seq<char>, Seq<char>>,
) -> bool {
    match expected {
        Ok(text) => result matches Ok(out) && out@ == text,
        Err(message) => result matches Err(McpError::InternalError(detail)) && detail@ == message,
    }
}

/// The path of the file that a location points into. A URI that names no
/// file is an internal error.
pub fn location_file(location: &Location) -> (result: Result<String, McpError>)
    ensures
        match url_file_path_text(location.uri@) {
            Some(path) => result matches Ok(out) && out@ == path,
            None => result matches Err(McpError::InternalError(detail)) && detail@
                == "invalid file URI"@,
        },
{
    match url_file_path(location.uri.as_str()) {
        Some(path) => Ok(path),
        None => Err(McpError::InternalError("invalid file URI".to_owned())),
    }
}

/// Renders a location with `context_lines` lines of its file each side of it.
pub fn format_location(entry: &LocatedSource, context_lines: usize) -> (result: Result<
    String,
    McpError,
>)
    ensures
        rendered_as(result, rendering(*entry, context_lines as int)),
{
    let path = location_file(&entry.location)?;
    match &entry.source {
        Err(failure) => {
            let mut detail = String::new();
            detail.append("failed to read file: ");
            detail.append(failure.as_str());
            Err(McpError::InternalError(detail))
        },
        Ok(content) => {
            let start = entry.location.range.start;
            let mut out = path;
            out.append(":");
            push_decimal(&mut out, start.line as u64 + 1);
            out.append(":");
            push_decimal(&mut out, start.character as u64 + 1);
            out.append("\n");
            let listing = context_around(content.as_str(), start.line as usize, context_lines);
            out.append(listing.as_str());
            Ok(out)
        },
    }
}

/// Renders a list of locations, each with `context_lines` lines of its file
/// each side of it.
pub fn format_locations(entries: &Vec<LocatedSource>, context_lines: usize) -> (result: Result<
    String,
    McpError,
>)
    ensures
        rendered_as(result, locations_text(entries@, context_lines as int)),
{
    if entries.len() == 0 {
        return Ok("No results found.".to_owned());
    }
    let mut parts: Vec<String> = Vec::new();
    let mut i: usize = 0;
    while i < entries.len()
        invariant
            i <= entries@.len(),
            parts@.len() == i,
            first_failure(entries@.take(i as int), context_lines as int) is None,
            forall|k: int|
                0 <= k < i ==> rendering(entries@[k], context_lines as int) == Ok::<
                    Seq<char>,
                    Seq<char>,
                >(#[trigger] parts@[k]@),
        decreases entries@.len() - i,
    {
        proof {
            assert(entries@.take(i + 1).drop_last() =~= entries@.take(i as int));
        }
        match format_location(&entries[i], context_lines) {
            Ok(text) => {
                parts.push(text);
            },
            Err(error) => {
                proof {
                    lemma_first_failure_stays(entries@, i + 1, context_lines as int);
                }
                return Err(error);
            },
        }
        i = i + 1;
    }
    proof {
        assert(entries@.take(entries@.len() as int) =~= entries@);
        assert(texts(parts@) =~= renderings(entries@, context_lines as int));
    }
    Ok(join(&parts, "\n\n---\n\n"))
}

/// A failure among the first `n` locations is the failure of the whole list.
proof fn lemma_first_failure_stays(entries: Seq<LocatedSource>, n: int, context: int)
    requires
        0 <= n <= entries.len(),
        first_failure(entries.take(n), context) is Some,
    ensures
        first_failure(entries, context) == first_failure(entries.take(n), context),
    decreases entries.len() - n,
{
    if n < entries.len() {
        assert(entries.take(n + 1).drop_last() =~= entries.take(n));
        lemma_first_failure_stays(entries, n + 1, context);
    } else {
        assert(entries.take(n) =~= entries);
    }
}

/// The location that a link points to.
pub open spec fn link_target(link: LocationLink) -> Location {
    Location { uri: link.target_uri, range: link.target_range }
}

/// The locations of an answer about a definition, in the order given.
pub open spec fn response_locations(response: GotoDefinitionResponse) -> Seq<Location> {
    match response {
        GotoDefinitionResponse::Scalar(location) => seq![location],
        GotoDefinitionResponse::Array(locations) => locations@,
        GotoDefinitionResponse::Link(links) => links@.map_values(|link: LocationLink| link_target(link)),
    }
}

/// The locations of an answer about a definition: the one, the many, or the
/// targets of the links.
pub fn goto_response_to_locations(response: GotoDefinitionResponse) -> (locations: Vec<Location>)
    ensures
        locations@ == response_locations(response),
{
    match response {
        GotoDefinitionResponse::Scalar(location) => {
            let mut locations = Vec::new();
            locations.push(location);
            locations
        },
        GotoDefinitionResponse::Array(locations) => locations,
        GotoDefinitionResponse::Link(links) => {
            let mut locations: Vec<Location> = Vec::new();
            let mut i: usize = 0;
            while i < links.len()
                invariant
                    i <= links@.len(),
                    locations@ == links@.take(i as int).map_values(
                        |link: LocationLink| link_target(link),
                    ),
                decreases links@.len() - i,
            {
                locations.push(
                    Location { uri: links[i].target_uri.clone(), range: links[i].target_range },
                );
                i = i + 1;
            }
            locations
        },
    }
}

/// A piece of hover text as markdown: plain text as it is, code in a fence
/// that names its language.
pub open spec fn marked_text(piece: MarkedString) -> Seq<char> {
    match piece {
        MarkedString::String(text) => text@,
        MarkedString::LanguageString(code) => "```"@ + code.language@ + "\n"@ + code.value@
            + "\n```"@,
    }
}

/// The text of a hover: the one piece, the pieces with an empty line
/// between them, or the text of the markup.
pub open spec fn hover_text(contents: HoverContents) -> Seq<char> {
    match contents {
        HoverContents::Scalar(piece) => marked_text(piece),
        HoverContents::Array(pieces) => joined(
            pieces@.map_values(|piece: MarkedString| marked_text(piece)),
            "\n\n"@,
        ),
        HoverContents::Markup(markup) => markup.value@,
    }
}

fn marked_string_text(piece: &MarkedString) -> (text: String)
    ensures
        text@ == marked_text(*piece),
{
    match piece {
        MarkedString::String(plain) => plain.clone(),
        MarkedString::LanguageString(code) => {
            let mut text = String::new();
            text.append("```");
            text.append(code.language.as_str());
            text.append("\n");
            text.append(code.value.as_str());
            text.append("\n```");
            text
        },
    }
}

/// The text of a hover.
pub fn extract_hover_text(contents: HoverContents) -> (text: String)
    ensures
        text@ == hover_text(contents),
{
    match contents {
        HoverContents::Scalar(piece) => marked_string_text(&piece),
        HoverContents::Array(pieces) => {
            let mut parts: Vec<String> = Vec::new();
            let mut i: usize = 0;
            while i < pieces.len()
                invariant
                    i <= pieces@.len(),
                    parts@.len() == i,
                    forall|k: int| 0 <= k < i ==> (#[trigger] parts@[k])@ == marked_text(pieces@[k]),
                decreases pieces@.len() - i,
            {
                parts.push(marked_string_text(&pieces[i]));
                i = i + 1;
            }
            assert(texts(parts@) =~= pieces@.map_values(|piece: MarkedString| marked_text(piece)));
            join(&parts, "\n\n")
        },
        HoverContents::Markup(markup) => markup.value,
    }
}

/// What a hover comes to as text: its text, or a sentence where the server
/// gave no hover or an empty one.
pub open spec fn hover_answer(hover: Option<Hover>) -> Seq<char> {
    match hover {
        Some(given) => if hover_text(given.contents).len() == 0 {
            "No hover information available."@
        } else {
            hover_text(given.contents)
        },
        None => "No hover information available."@,
    }
}

/// Renders the answer to a hover request.
pub fn format_hover(hover: Option<Hover>) -> (text: String)
    ensures
        text@ == hover_answer(hover),
{
    match hover {
        Some(given) => {
            let text = extract_hover_text(given.contents);
            if text.as_str().is_empty() {
                "No hover information available.".to_owned()
            } else {
                text
            }
        },
        None => "No hover information available.".to_owned(),
    }
}

/// The line of an outline for one symbol: its kind in brackets, its name,
/// and the line of its name counted from one, after the indentation `prefix`.
pub open spec fn outline_line(symbol: DocumentSymbol, prefix: Seq<char>) -> Seq<char> {
    prefix + "["@ + symbol.kind.name() + "] "@ + symbol.name@ + " (line "@ + decimal(
        (symbol.selection_range.start.line + 1) as nat,
    ) + ")\n"@
}

/// The outline of a forest of symbols: each symbol on a line of its own,
/// followed by the outline of its children, indented by two more spaces.
pub open spec fn outline(symbols: Seq<DocumentSymbol>, prefix: Seq<char>) -> Seq<char>
    decreases symbols,
{
    if symbols.len() == 0 {
        Seq::empty()
    } else {
        outline(symbols.drop_last(), prefix) + outline_line(symbols.last(), prefix) + outline(
            symbols.last().children@,
            prefix + "  "@,
        )
    }
}

fn push_outline_line(out: &mut String, symbol: &DocumentSymbol, prefix: &str)
    ensures
        final(out)@ == old(out)@ + outline_line(*symbol, prefix@),
{
    out.append(prefix);
    out.append("[");
    out.append(symbol_kind_to_string(symbol.kind));
    out.append("] ");
    out.append(symbol.name.as_str());
    out.append(" (line ");
    push_decimal(out, symbol.selection_range.start.line as u64 + 1);
    out.append(")\n");
}

fn outline_with_prefix(symbols: &Vec<DocumentSymbol>, prefix: &str) -> (out: String)
    ensures
        out@ == outline(symbols@, prefix@),
    decreases symbols,
{
    let mut out = String::new();
    let mut deeper = String::new();
    deeper.append(prefix);
    deeper.append("  ");
    let mut i: usize = 0;
    while i < symbols.len()
        invariant
            i <= symbols@.len(),
            deeper@ == prefix@ + "  "@,
            out@ == outline(symbols@.take(i as int), prefix@),
        decreases symbols@.len() - i,
    {
        proof {
            assert(symbols@.take(i + 1).drop_last() =~= symbols@.take(i as int));
        }
        push_outline_line(&mut out, &symbols[i], prefix);
        let inner = outline_with_prefix(&symbols[i].children, deeper.as_str());
        out.append(inner.as_str());
        i = i + 1;
    }
    proof {
        assert(symbols@.take(symbols@.len() as int) =~= symbols@);
    }
    out
}

/// Renders a forest of symbols as an outline, indented by `indent` steps of
/// two spaces.
pub fn format_document_symbols(symbols: &Vec<DocumentSymbol>, indent: usize) -> (out: String)
    ensures
        out@ == outline(symbols@, crate::text::repeated("  "@, indent as nat)),
{
    let mut prefix = String::new();
    crate::text::push_repeated(&mut prefix, "  ", indent);
    outline_with_prefix(symbols, prefix.as_str())
}

/// The note that names what contains a symbol; nothing where the server named nothing.
pub open spec fn container_note(container: Option<String>) -> Seq<char> {
    match container {
        Some(name) => " (in "@ + name@ + ")"@,
        None => Seq::empty(),
    }
}

/// The line of a listing for one symbol: kind, name, container, and the
/// file and line of its declaration.
pub open spec fn information_line(symbol: SymbolInformation) -> Seq<char> {
    "["@ + symbol.kind.name() + "] "@ + symbol.name@ + container_note(symbol.container_name)
        + " - "@ + shown_path(symbol.location.uri@) + ":"@ + decimal(
        (symbol.location.range.start.line + 1) as nat,
    ) + "\n"@
}

/// The lines of a listing of symbols, in order.
pub open spec fn information_lines(symbols: Seq<SymbolInformation>) -> Seq<char>
    decreases symbols.len(),
{
    if symbols.len() == 0 {
        Seq::empty()
    } else {
        information_lines(symbols.drop_last()) + information_line(symbols.last())
    }
}

fn push_information_line(out: &mut String, symbol: &SymbolInformation)
    ensures
        final(out)@ == old(out)@ + information_line(*symbol),
{
    out.append("[");
    out.append(symbol_kind_to_string(symbol.kind));
    out.append("] ");
    out.append(symbol.name.as_str());
    match &symbol.container_name {
        Some(name) => {
            out.append(" (in ");
            out.append(name.as_str());
            out.append(")");
        },
        None => {},
    }
    out.append(" - ");
    out.append(uri_display(symbol.location.uri.as_str()).as_str());
    out.append(":");
    push_decimal(out, symbol.location.range.start.line as u64 + 1);
    out.append("\n");
}

fn format_leading_symbols(symbols: &Vec<SymbolInformation>, count: usize) -> (out: String)
    requires
        count <= symbols@.len(),
    ensures
        out@ == information_lines(symbols@.take(count as int)),
{
    let mut out = String::new();
    let mut i: usize = 0;
    while i < count
        invariant
            i <= count <= symbols@.len(),
            out@ == information_lines(symbols@.take(i as int)),
        decreases count - i,
    {
        proof {
            assert(symbols@.take(i + 1).drop_last() =~= symbols@.take(i as int));
        }
        push_information_line(&mut out, &symbols[i]);
        i = i + 1;
    }
    out
}

/// Renders a flat list of symbols, one line each.
pub fn format_symbol_information(symbols: &Vec<SymbolInformation>) -> (out: String)
    ensures
        out@ == information_lines(symbols@),
{
    proof {
        assert(symbols@.take(symbols@.len() as int) =~= symbols@);
    }
    format_leading_symbols(symbols, symbols.len())
}

/// What the symbols of a document come to as text: a sentence where there
/// are none, a listing for a flat answer, an outline for a forest.
pub open spec fn document_symbols_text(response: DocumentSymbolResponse) -> Seq<char> {
    match response {
        DocumentSymbolResponse::Flat(symbols) => if symbols@.len() == 0 {
            "No symbols found in document."@
        } else {
            information_lines(symbols@)
        },
        DocumentSymbolResponse::Nested(symbols) => if symbols@.len() == 0 {
            "No symbols found in document."@
        } else {
            outline(symbols@, Seq::empty())
        },
    }
}

/// Renders the answer to a request for the symbols of a document.
pub fn format_document_symbol_response(response: &DocumentSymbolResponse) -> (out: String)
    ensures
        out@ == document_symbols_text(*response),
{
    match response {
        DocumentSymbolResponse::Flat(symbols) => {
            if symbols.len() == 0 {
                "No symbols found in document.".to_owned()
            } else {
                format_symbol_information(symbols)
            }
        },
        DocumentSymbolResponse::Nested(symbols) => {
            if symbols.len() == 0 {
                "No symbols found in document.".to_owned()
            } else {
                format_document_symbols(symbols, 0)
            }
        },
    }
}

/// How many of `found` symbols are shown under a limit of `max_results`.
pub open spec fn shown_count(found: int, max_results: int) -> int {
    if found <= max_results {
        found
    } else {
        max_results
    }
}

/// What the symbols found for `query` come to as text: the listing of the
/// first `max_results` of them, or a sentence where none is left to show.
pub open spec fn workspace_symbols_text(
    symbols: Seq<SymbolInformation>,
    query: Seq<char>,
    max_results: int,
) -> Seq<char> {
    let count = shown_count(symbols.len() as int, max_results);
    if count == 0 {
        "No symbols found matching '"@ + query + "'."@
    } else {
        information_lines(symbols.take(count))
    }
}

/// Renders the answer to a workspace search. The limit cuts the list that
/// the server returned; the server is not told of it.
pub fn format_workspace_symbols(symbols: &Vec<SymbolInformation>, query: &str, max_results: u32) -> (out:
    String)
    ensures
        out@ == workspace_symbols_text(symbols@, query@, max_results as int),
{
    let count: usize = if symbols.len() <= max_results as usize {
        symbols.len()
    } else {
        max_results as usize
    };
    if count == 0 {
        let mut out = String::new();
        out.append("No symbols found matching '");
        out.append(query);
        out.append("'.");
        out
    } else {
        format_leading_symbols(symbols, count)
    }
}

/// The places of the calls, one line each, line and column counted from one.
pub open spec fn call_sites(ranges: Seq<Range>) -> Seq<char>
    decreases ranges.len(),
{
    if ranges.len() == 0 {
        Seq::empty()
    } else {
        call_sites(ranges.drop_last()) + "  Call site: line "@ + decimal(
            (ranges.last().start.line + 1) as nat,
        ) + ", column "@ + decimal((ranges.last().start.character + 1) as nat) + "\n"@
    }
}

/// The entry for one caller or callee: an empty line, then kind, name, file
/// and line of the function, then the places of the calls.
pub open spec fn call_entry(item: CallHierarchyItem, ranges: Seq<Range>) -> Seq<char> {
    "\n["@ + item.kind.name() + "] "@ + item.name@ + " - "@ + shown_path(item.uri@) + ":"@
        + decimal((item.selection_range.start.line + 1) as nat) + "\n"@ + call_sites(ranges)
}

/// The entries for the callers, in order.
pub open spec fn incoming_entries(calls: Seq<CallHierarchyIncomingCall>) -> Seq<char>
    decreases calls.len(),
{
    if calls.len() == 0 {
        Seq::empty()
    } else {
        incoming_entries(calls.drop_last()) + call_entry(
            calls.last().from,
            calls.last().from_ranges@,
        )
    }
}

/// The entries for the callees, in order.
pub open spec fn outgoing_entries(calls: Seq<CallHierarchyOutgoingCall>) -> Seq<char>
    decreases calls.len(),
{
    if calls.len() == 0 {
        Seq::empty()
    } else {
        outgoing_entries(calls.drop_last()) + call_entry(calls.last().to, calls.last().from_ranges@)
    }
}

fn push_call_entry(out: &mut String, item: &CallHierarchyItem, ranges: &Vec<Range>)
    ensures
        final(out)@ == old(out)@ + call_entry(*item, ranges@),
{
    out.append("\n[");
    out.append(symbol_kind_to_string(item.kind));
    out.append("] ");
    out.append(item.name.as_str());
    out.append(" - ");
    out.append(uri_display(item.uri.as_str()).as_str());
    out.append(":");
    push_decimal(out, item.selection_range.start.line as u64 + 1);
    out.append("\n");
    let ghost head = out@;
    let mut i: usize = 0;
    while i < ranges.len()
        invariant
            i <= ranges@.len(),
            out@ == head + call_sites(ranges@.take(i as int)),
        decreases ranges@.len() - i,
    {
        proof {
            assert(ranges@.take(i + 1).drop_last() =~= ranges@.take(i as int));
        }
        out.append("  Call site: line ");
        push_decimal(out, ranges[i].start.line as u64 + 1);
        out.append(", column ");
        push_decimal(out, ranges[i].start.character as u64 + 1);
        out.append("\n");
        i = i + 1;
    }
    proof {
        assert(ranges@.take(ranges@.len() as int) =~= ranges@);
    }
}

/// What the callers of a function come to as text.
pub open spec fn incoming_calls_text(calls: Seq<CallHierarchyIncomingCall>) -> Seq<char> {
    if calls.len() == 0 {
        "No incoming calls found."@
    } else {
        incoming_entries(calls)
    }
}

/// What the callees of a function come to as text.
pub open spec fn outgoing_calls_text(calls: Seq<CallHierarchyOutgoingCall>) -> Seq<char> {
    if calls.len() == 0 {
        "No outgoing calls found."@
    } else {
        outgoing_entries(calls)
    }
}

/// Renders the callers of a function, each with the places of its calls.
pub fn format_incoming_calls(calls: &Vec<CallHierarchyIncomingCall>) -> (out: String)
    ensures
        out@ == incoming_calls_text(calls@),
{
    if calls.len() == 0 {
        return "No incoming calls found.".to_owned();
    }
    let mut out = String::new();
    let mut i: usize = 0;
    while i < calls.len()
        invariant
            i <= calls@.len(),
            out@ == incoming_entries(calls@.take(i as int)),
        decreases calls@.len() - i,
    {
        proof {
            assert(calls@.take(i + 1).drop_last() =~= calls@.take(i as int));
        }
        push_call_entry(&mut out, &calls[i].from, &calls[i].from_ranges);
        i = i + 1;
    }
    proof {
        assert(calls@.take(calls@.len() as int) =~= calls@);
    }
    out
}

/// Renders the callees of a function, each with the places of the calls to it.
pub fn format_outgoing_calls(calls: &Vec<CallHierarchyOutgoingCall>) -> (out: String)
    ensures
        out@ == outgoing_calls_text(calls@),
{
    if calls.len() == 0 {
        return "No outgoing calls found.".to_owned();
    }
    let mut out = String::new();
    let mut i: usize = 0;
    while i < calls.len()
        invariant
            i <= calls@.len(),
            out@ == outgoing_entries(calls@.take(i as int)),
        decreases calls@.len() - i,
    {
        proof {
            assert(calls@.take(i + 1).drop_last() =~= calls@.take(i as int));
        }
        push_call_entry(&mut out, &calls[i].to, &calls[i].from_ranges);
        i = i + 1;
    }
    proof {
        assert(calls@.take(calls@.len() as int) =~= calls@);
    }
    out
}

/// The tools that are offered.
#[derive(Clone, Copy, Debug, PartialEq, Eq, Structural)]
pub enum Tool {
    GotoDefinition,
    FindReferences,
    Hover,
    DocumentSymbols,
    WorkspaceSymbols,
    IncomingCalls,
    OutgoingCalls,
    Implementations,
    TypeDefinition,
}

impl Tool {
    /// The name of the tool.
    pub open spec fn name_spec(self) -> Seq<char> {
        match self {
            Tool::GotoDefinition => "goto_definition"@,
            Tool::FindReferences => "find_references"@,
            Tool::Hover => "hover"@,
            Tool::DocumentSymbols => "document_symbols"@,
            Tool::WorkspaceSymbols => "workspace_symbols"@,
            Tool::IncomingCalls => "incoming_calls"@,
            Tool::OutgoingCalls => "outgoing_calls"@,
            Tool::Implementations => "implementations"@,
            Tool::TypeDefinition => "type_definition"@,
        }
    }

    /// The name of the tool.
    pub fn name(&self) -> (name: &'static str)
        ensures
            name@ == self.name_spec(),
    {
        match self {
            Tool::GotoDefinition => "goto_definition",
            Tool::FindReferences => "find_references",
            Tool::Hover => "hover",
            Tool::DocumentSymbols => "document_symbols",
            Tool::WorkspaceSymbols => "workspace_symbols",
            Tool::IncomingCalls => "incoming_calls",
            Tool::OutgoingCalls => "outgoing_calls",
            Tool::Implementations => "implementations",
            Tool::TypeDefinition => "type_definition",
        }
    }
}

/// The failure of a tool call whose document could not be opened.
pub fn open_failure(error: &LspError) -> (failure: McpError)
    ensures
        failure matches McpError::InternalError(detail) && detail@ == "failed to open document: "@
            + error.message(),
{
    let mut detail = String::new();
    detail.append("failed to open document: ");
    detail.append(error.to_string().as_str());
    McpError::InternalError(detail)
}

/// The failure of a tool call whose request to the language server failed.
/// Nothing is tried again: the failure ends the call.
pub fn request_failure(tool: Tool, error: &LspError) -> (failure: McpError)
    ensures
        failure matches McpError::InternalError(detail) && detail@ == tool.name_spec()
            + " failed: "@ + error.message(),
{
    let mut detail = String::new();
    detail.append(tool.name());
    detail.append(" failed: ");
    detail.append(error.to_string().as_str());
    McpError::InternalError(detail)
}

/// The failure of a tool call whose symbol could not be found by name.
pub fn resolution_failure(error: ToolError) -> (failure: McpError)
    ensures
        failure == McpError::ToolError(error),
{
    McpError::ToolError(error)
}

} // verus!
