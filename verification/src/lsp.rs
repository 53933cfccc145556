//! Plain-data mirrors of the protocol structures the engine produces:
//! positions, ranges, text edits, locations and completion items, plus the
//! point/range shapes the syntax trees report.

use vstd::prelude::*;

verus! {

/// A zero-based line/character position in a document.
#[derive(Debug, Clone, Copy, PartialEq, Eq, Structural)]
pub struct Position {
    pub line: u32,
    pub character: u32,
}

impl Position {
    pub fn new(line: u32, character: u32) -> (r: Position)
        ensures
            r.line == line && r.character == character,
    {
        Position { line, character }
    }
}

/// A half-open range between two positions.
#[derive(Debug, Clone, Copy, PartialEq, Eq, Structural)]
pub struct LspRange {
    pub start: Position,
    pub end: Position,
}

impl LspRange {
    pub fn new(start: Position, end: Position) -> (r: LspRange)
        ensures
            r.start == start && r.end == end,
    {
        LspRange { start, end }
    }

    /// The empty range at the document start.
    pub fn zero() -> (r: LspRange)
        ensures
            r.start.line == 0 && r.start.character == 0 && r.end.line == 0 && r.end.character == 0,
    {
        LspRange { start: Position { line: 0, character: 0 }, end: Position { line: 0, character: 0 } }
    }
}

/// One replacement of a range by new text.
#[derive(Debug, Clone, PartialEq)]
pub struct TextEdit {
    pub range: LspRange,
    pub new_text: String,
}

impl TextEdit {
    pub fn new(range: LspRange, new_text: String) -> (r: TextEdit)
        ensures
            r.range == range && r.new_text == new_text,
    {
        TextEdit { range, new_text }
    }
}

/// A place in a document, named by its uri.
#[derive(Debug, Clone, PartialEq)]
pub struct Location {
    pub uri: String,
    pub range: LspRange,
}

/// One completion suggestion.
#[derive(Debug, Clone, PartialEq)]
pub struct CompletionItem {
    pub label: String,
    pub detail: Option<String>,
    pub insert_text: Option<String>,
    /// Whether the insert text is a snippet with tab-stop markers.
    pub snippet: bool,
}

/// The mathematical shape of a completion item.
pub struct CompletionItemView {
    pub label: Seq<char>,
    pub detail: Option<Seq<char>>,
    pub insert_text: Option<Seq<char>>,
    pub snippet: bool,
}

impl View for CompletionItem {
    type V = CompletionItemView;

    open spec fn view(&self) -> CompletionItemView {
        CompletionItemView {
            label: self.label@,
            detail: match self.detail {
                Some(d) => Some(d@),
                None => None,
            },
            insert_text: match self.insert_text {
                Some(t) => Some(t@),
                None => None,
            },
            snippet: self.snippet,
        }
    }
}

impl CompletionItem {
    /// A label with documentation and no insert text.
    pub fn new_simple(label: String, detail: String) -> (r: CompletionItem)
        ensures
            r@.label == label@,
            r@.detail == Some(detail@),
            r@.insert_text is None,
            r@.snippet == false,
    {
        CompletionItem { label, detail: Some(detail), insert_text: None, snippet: false }
    }
}

/// A zero-based row/column point in a parsed document, in the syntax tree's
/// own coordinates.
#[derive(Debug, Clone, Copy, PartialEq, Eq, Structural)]
pub struct Point {
    pub row: usize,
    pub column: usize,
}

/// A text range as a syntax tree reports it.
#[derive(Debug, Clone, Copy, PartialEq, Eq, Structural)]
pub struct TsRange {
    pub start_byte: usize,
    pub end_byte: usize,
    pub start_point: Point,
    pub end_point: Point,
}

/// A syntax-tree point as a protocol position; a coordinate above the
/// protocol's range becomes zero.
pub fn to_lsp_position(point: Point) -> (r: Position)
    ensures
        point.row <= u32::MAX ==> r.line == point.row,
        point.row > u32::MAX ==> r.line == 0,
        point.column <= u32::MAX ==> r.character == point.column,
        point.column > u32::MAX ==> r.character == 0,
{
    let line: u32 = if point.row <= u32::MAX as usize {
        (point.row as u32)
    } else {
        0
    };
    let character: u32 = if point.column <= u32::MAX as usize {
        (point.column as u32)
    } else {
        0
    };
    Position { line, character }
}

} // verus!
