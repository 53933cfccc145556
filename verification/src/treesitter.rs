//! Trusted declarations of the tree-sitter parsing machinery.
//!
//! The grammars and the tree they produce are opaque to the analysis: every
//! navigation step goes through one of these wrappers, and the logic above
//! them is verified for every answer the tree can give.

use vstd::prelude::*;

use crate::lsp::Point;
use crate::lsp::TsRange;

verus! {

#[verifier::external_type_specification]
#[verifier::external_body]
pub struct ExLanguage(tree_sitter::Language);

#[verifier::external_type_specification]
#[verifier::external_body]
pub struct ExParser(tree_sitter::Parser);

#[verifier::external_type_specification]
#[verifier::external_body]
pub struct ExTree(tree_sitter::Tree);

#[verifier::external_type_specification]
#[verifier::external_body]
pub struct ExTreeCursor<'a>(tree_sitter::TreeCursor<'a>);

#[verifier::external_type_specification]
#[verifier::external_body]
pub struct ExNode<'a>(tree_sitter::Node<'a>);

/// One node of a parsed tree, as plain values: its grammar kind, the
/// position of its parent in the arena (negative at the root), its
/// children's positions in order, and its byte and row/column spans.
pub struct NodeModel {
    pub kind: Seq<char>,
    pub parent: int,
    pub children: Seq<int>,
    pub start_byte: int,
    pub end_byte: int,
    pub start_row: int,
    pub start_column: int,
    pub end_row: int,
    pub end_column: int,
}

/// What a parsed tree holds: its nodes, as one arena with the root first.
pub uninterp spec fn spec_tree_nodes(t: tree_sitter::Tree) -> Seq<NodeModel>;

/// The arena the bundled HTML grammar parses a text to. Parsing here is a
/// function of the text alone: the grammar is fixed and the parser is
/// configured with no timeout, no cancellation flag and no old tree.
pub uninterp spec fn spec_html_parse(content: Seq<char>) -> Seq<NodeModel>;

/// The arena the bundled Java grammar parses a text to; a function of the
/// text alone, for the same reasons as the HTML parse.
pub uninterp spec fn spec_java_parse(content: Seq<char>) -> Seq<NodeModel>;

/// Relies on tree_sitter::Parser::{new, set_language, parse} with the
/// bundled HTML grammar; the three calls share one wrapper so the contract
/// can speak of the grammar this body sets. The parse succeeds on every
/// input: the grammar's ABI version (14, sitters/tree-sitter-html/src/
/// parser.c) lies in the linked library's supported range (13..=14), and
/// neither a timeout nor a cancellation flag is configured, which are the
/// three causes of `None` that `Parser::parse` documents. The tree is a
/// function of the text alone.
#[verifier::external_body]
pub fn parse_html(content: &str) -> (r: Option<tree_sitter::Tree>)
    ensures
        r is Some,
        r matches Some(t) ==> spec_tree_nodes(t) == spec_html_parse(content@),
{
    let mut parser = tree_sitter::Parser::new();
    if parser.set_language(pepegsitter::html::language()).is_err() {
        return None;
    }
    parser.parse(content, None)
}

/// Relies on tree_sitter::Parser::{new, set_language, parse} with the
/// bundled Java grammar, fused and total for the same reasons as the HTML
/// parse (grammar ABI version 14, sitters/tree-sitter-java/src/parser.c).
#[verifier::external_body]
pub fn parse_java(content: &str) -> (r: Option<tree_sitter::Tree>)
    ensures
        r is Some,
        r matches Some(t) ==> spec_tree_nodes(t) == spec_java_parse(content@),
{
    let mut parser = tree_sitter::Parser::new();
    if parser.set_language(pepegsitter::java::language()).is_err() {
        return None;
    }
    parser.parse(content, None)
}

/// Relies on pepegsitter::html::language: the bundled HTML grammar.
#[verifier::external_body]
pub fn html_language() -> tree_sitter::Language {
    pepegsitter::html::language()
}

/// Relies on tree_sitter::Parser::new.
#[verifier::external_body]
pub fn parser_new() -> tree_sitter::Parser {
    tree_sitter::Parser::new()
}

/// Relies on tree_sitter::Parser::set_language; only tells success from
/// failure.
#[verifier::external_body]
pub fn parser_set_language(parser: &mut tree_sitter::Parser, language: tree_sitter::Language) -> bool {
    parser.set_language(language).is_ok()
}

/// Relies on tree_sitter::Parser::parse on fresh input, without an old tree.
#[verifier::external_body]
pub fn parser_parse(parser: &mut tree_sitter::Parser, content: &str) -> Option<tree_sitter::Tree> {
    parser.parse(content, None)
}

/// Relies on tree_sitter::Tree::walk.
#[verifier::external_body]
pub fn tree_walk<'t>(tree: &'t tree_sitter::Tree) -> tree_sitter::TreeCursor<'t> {
    tree.walk()
}

/// Relies on tree_sitter::Tree::root_node.
#[verifier::external_body]
pub fn tree_root_node<'t>(tree: &'t tree_sitter::Tree) -> tree_sitter::Node<'t> {
    tree.root_node()
}

/// Relies on tree_sitter::TreeCursor::node.
#[verifier::external_body]
pub fn cursor_node<'t>(cursor: &tree_sitter::TreeCursor<'t>) -> tree_sitter::Node<'t> {
    cursor.node()
}

/// Relies on tree_sitter::TreeCursor::goto_parent.
#[verifier::external_body]
pub fn cursor_goto_parent(cursor: &mut tree_sitter::TreeCursor<'_>) -> bool {
    cursor.goto_parent()
}

/// Relies on tree_sitter::TreeCursor::goto_next_sibling.
#[verifier::external_body]
pub fn cursor_goto_next_sibling(cursor: &mut tree_sitter::TreeCursor<'_>) -> bool {
    cursor.goto_next_sibling()
}

/// Relies on tree_sitter::TreeCursor::goto_first_child.
#[verifier::external_body]
pub fn cursor_goto_first_child(cursor: &mut tree_sitter::TreeCursor<'_>) -> bool {
    cursor.goto_first_child()
}

/// Relies on tree_sitter::TreeCursor::goto_first_child_for_point, the point
/// given as plain row and column.
#[verifier::external_body]
pub fn cursor_goto_first_child_for_point(
    cursor: &mut tree_sitter::TreeCursor<'_>,
    point: Point,
) -> Option<usize> {
    cursor.goto_first_child_for_point(tree_sitter::Point { row: point.row, column: point.column })
}

/// Relies on tree_sitter::Node::kind.
#[verifier::external_body]
pub fn node_kind(node: &tree_sitter::Node<'_>) -> &'static str {
    node.kind()
}

/// Relies on tree_sitter::Node::utf8_text, which slices `content` at the
/// node's byte range; a node from a tree parsed over other text can point
/// past the end, so the mismatch is refused here instead of panicking.
#[verifier::external_body]
pub fn node_text(node: &tree_sitter::Node<'_>, content: &str) -> Option<String> {
    if node.start_byte() > node.end_byte() || node.end_byte() > content.len() {
        return None;
    }
    match node.utf8_text(content.as_bytes()) {
        Ok(text) => Some(text.to_string()),
        Err(_) => None,
    }
}

/// Relies on tree_sitter::Node::child.
#[verifier::external_body]
pub fn node_child<'t>(node: &tree_sitter::Node<'t>, i: usize) -> Option<tree_sitter::Node<'t>> {
    node.child(i)
}

/// Relies on tree_sitter::Node::child_count.
#[verifier::external_body]
pub fn node_child_count(node: &tree_sitter::Node<'_>) -> usize {
    node.child_count()
}

/// Relies on tree_sitter::Node::parent.
#[verifier::external_body]
pub fn node_parent<'t>(node: &tree_sitter::Node<'t>) -> Option<tree_sitter::Node<'t>> {
    node.parent()
}

/// Relies on tree_sitter::Node::prev_sibling.
#[verifier::external_body]
pub fn node_prev_sibling<'t>(node: &tree_sitter::Node<'t>) -> Option<tree_sitter::Node<'t>> {
    node.prev_sibling()
}

/// Relies on tree_sitter::Node::range, converted to plain values.
#[verifier::external_body]
pub fn node_range(node: &tree_sitter::Node<'_>) -> TsRange {
    let r = node.range();
    TsRange {
        start_byte: r.start_byte,
        end_byte: r.end_byte,
        start_point: Point { row: r.start_point.row, column: r.start_point.column },
        end_point: Point { row: r.end_point.row, column: r.end_point.column },
    }
}

/// Relies on tree_sitter::Node::start_position, converted to plain values.
#[verifier::external_body]
pub fn node_start_position(node: &tree_sitter::Node<'_>) -> Point {
    let p = node.start_position();
    Point { row: p.row, column: p.column }
}

/// Relies on tree_sitter::Query::new and tree_sitter::QueryCursor::captures:
/// the node of every capture the query yields under `node`, in capture
/// order; `None` when the query source does not compile against the
/// grammar. The two calls share one wrapper because the capture stream
/// borrows the locally built query. Predicate evaluation slices `content`
/// at capture ranges, all inside the queried node's range, so a node that
/// points past the end of `content` is refused instead of panicking.
#[verifier::external_body]
pub fn query_capture_nodes<'t>(
    language: tree_sitter::Language,
    node: tree_sitter::Node<'t>,
    content: &str,
    query_src: &str,
) -> Option<Vec<tree_sitter::Node<'t>>> {
    if node.end_byte() > content.len() {
        return None;
    }
    let query = match tree_sitter::Query::new(language, query_src) {
        Ok(q) => q,
        Err(_) => return None,
    };
    let mut cursor = tree_sitter::QueryCursor::new();
    let captures = cursor.captures(&query, node, content.as_bytes());
    Some(captures.into_iter().flat_map(|(m, _)| m.captures).map(|c| c.node).collect())
}

} // verus!
