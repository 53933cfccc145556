//! Element-based extraction refactorings on markup documents: locate the
//! enclosing element at a point and produce one of three multi-file edit
//! transactions, to be applied atomically by the caller.

use vstd::prelude::*;
use vstd::string::StrSliceExecFns;
use vstd::string::StringExecFns;

use crate::fragment::parent_path;
use crate::fragment::spec_parent;
use crate::lsp::to_lsp_position;
use crate::lsp::LspRange;
use crate::lsp::Point;
use crate::lsp::Position;
use crate::lsp::TextEdit;
use crate::lsp::TsRange;
use crate::strutil;
use crate::treesitter::cursor_goto_first_child_for_point;
use crate::treesitter::cursor_node;
use crate::treesitter::html_language;
use crate::treesitter::node_child;
use crate::treesitter::node_child_count;
use crate::treesitter::node_kind;
use crate::treesitter::node_parent;
use crate::treesitter::node_range;
use crate::treesitter::node_text;
use crate::treesitter::parse_html;
use crate::treesitter::parser_new;
use crate::treesitter::parser_parse;
use crate::treesitter::parser_set_language;
use crate::treesitter::query_capture_nodes;
use crate::treesitter::tree_walk;

verus! {

/// What can go wrong while parsing and transforming a document. The first
/// two are parse failures; the middle two are expected control-flow
/// outcomes that availability checks swallow; the last covers text and
/// path construction.
#[derive(Debug, PartialEq, Eq, Structural)]
pub enum TreesitterError {
    UnableToParse,
    NotCorrectDocumentSyntax,
    NoNodeFound,
    NoIdFoundOnElement,
    UnableToGetContent,
}

/// The three extraction actions.
#[derive(Debug, Clone, Copy, PartialEq, Eq, Structural)]
pub enum ExtractionKind {
    AddFragement,
    ExtractAsFile,
    ExtractAsFragment,
}

/// The command identifier of an extraction action.
pub open spec fn spec_extraction_kind_string(k: ExtractionKind) -> Seq<char> {
    match k {
        ExtractionKind::AddFragement => "AddFragement"@,
        ExtractionKind::ExtractAsFile => "ExtractAsFile"@,
        ExtractionKind::ExtractAsFragment => "ExtractAsFragment"@,
    }
}

impl ExtractionKind {
    /// The command identifier of this action.
    pub fn to_string(&self) -> (r: String)
        ensures
            r@ == spec_extraction_kind_string(*self),
    {
        let s = match self {
            ExtractionKind::AddFragement => "AddFragement",
            ExtractionKind::ExtractAsFile => "ExtractAsFile",
            ExtractionKind::ExtractAsFragment => "ExtractAsFragment",
        };
        s.to_owned()
    }

    /// The action a command identifier names; exact, case-sensitive match.
    pub fn from_str(s: &str) -> (r: Result<Self, ()>)
        ensures
            s@ == "AddFragement"@ ==> r == Ok::<ExtractionKind, ()>(ExtractionKind::AddFragement),
            s@ == "ExtractAsFile"@ ==> r == Ok::<ExtractionKind, ()>(ExtractionKind::ExtractAsFile),
            s@ == "ExtractAsFragment"@ ==> r == Ok::<ExtractionKind, ()>(
                ExtractionKind::ExtractAsFragment,
            ),
            s@ != "AddFragement"@ && s@ != "ExtractAsFile"@ && s@ != "ExtractAsFragment"@ ==> r
                is Err,
    {
        proof {
            reveal_strlit("AddFragement");
            reveal_strlit("ExtractAsFile");
            reveal_strlit("ExtractAsFragment");
            assert("AddFragement"@.len() == 12);
            assert("ExtractAsFile"@.len() == 13);
            assert("ExtractAsFragment"@.len() == 17);
        }
        if strutil::str_eq(s, "AddFragement") {
            Ok(ExtractionKind::AddFragement)
        } else if strutil::str_eq(s, "ExtractAsFile") {
            Ok(ExtractionKind::ExtractAsFile)
        } else if strutil::str_eq(s, "ExtractAsFragment") {
            Ok(ExtractionKind::ExtractAsFragment)
        } else {
            Err(())
        }
    }
}

/// Whether `point` lies inside `range`: within the row window, then within
/// the column window, a degenerate window accepting exactly its boundary.
pub open spec fn spec_range_includes_point(range: TsRange, point: Point) -> bool {
    (range.start_point.row <= point.row < range.end_point.row || (range.start_point.row
        == range.end_point.row && range.start_point.row == point.row)) && (range.start_point.column
        <= point.column < range.end_point.column || (range.start_point.column
        == range.end_point.column && range.start_point.column == point.column))
}

/// Whether `point` lies inside `range`.
pub fn range_includes_point(range: TsRange, point: Point) -> (r: bool)
    ensures
        r == spec_range_includes_point(range, point),
{
    let row_in = range.start_point.row <= point.row && point.row < range.end_point.row;
    let row_eq = range.start_point.row == range.end_point.row;
    if row_in || (row_eq && range.start_point.row == point.row) {
        let col_in = range.start_point.column <= point.column && point.column
            < range.end_point.column;
        let col_eq = range.start_point.column == range.end_point.column;
        if col_in || (col_eq && range.start_point.column == point.column) {
            return true;
        }
    }
    false
}

/// The uri of the sibling file an extraction creates: the folder of `url`,
/// a separator, the element id and the markup extension.
pub open spec fn spec_url_with_id(url: Seq<char>, id: Seq<char>) -> Seq<char> {
    spec_parent(url) + "/"@ + id + ".html"@
}

/// The uri of the sibling file named by `id` beside `url`; an empty `url`
/// has no folder to build in.
pub fn get_url_with_id(url: &str, id: &str) -> (r: Option<String>)
    ensures
        url@.len() == 0 ==> r is None,
        url@.len() > 0 ==> (r matches Some(u) && u@ == spec_url_with_id(url@, id@)),
{
    if url.unicode_len() == 0 {
        return None;
    }
    let mut out = parent_path(url);
    out.append("/");
    out.append(id);
    out.append(".html");
    Some(out)
}

/// Parse a whole document with the given grammar: a grammar that cannot
/// be loaded and text the parser gives no tree for are the two failures.
pub fn get_tree(content: &str, language: tree_sitter::Language) -> (r: Result<
    tree_sitter::Tree,
    TreesitterError,
>)
    ensures
        r matches Err(e) ==> e == TreesitterError::UnableToParse || e
            == TreesitterError::NotCorrectDocumentSyntax,
{
    let mut parser = parser_new();
    if !parser_set_language(&mut parser, language) {
        return Err(TreesitterError::UnableToParse);
    }
    match parser_parse(&mut parser, content) {
        Some(tree) => Ok(tree),
        None => Err(TreesitterError::NotCorrectDocumentSyntax),
    }
}

/// Descend from the root by repeated first-child-for-point steps until a
/// leaf holds the point.
pub fn get_node_at_point<'t>(tree: &'t tree_sitter::Tree, point: Point) -> (r: Result<
    tree_sitter::Node<'t>,
    TreesitterError,
>)
    ensures
        r matches Err(e) ==> e == TreesitterError::NoNodeFound,
{
    let mut cursor = tree_walk(tree);
    let mut fuel: usize = usize::MAX;
    loop
        decreases fuel,
    {
        let stepped = cursor_goto_first_child_for_point(&mut cursor, point);
        if stepped.is_none() {
            return Err(TreesitterError::NoNodeFound);
        }
        let node = cursor_node(&cursor);
        // Do not loop forever
        if node_child_count(&node) == 0 {
            break ;
        }
        if fuel == 0 {
            break ;
        }
        fuel = fuel - 1;
    }
    Ok(cursor_node(&cursor))
}

/// Ascend from `node` to the nearest enclosing structural element.
pub fn get_element_node<'t>(node: tree_sitter::Node<'t>) -> (r: Result<
    tree_sitter::Node<'t>,
    TreesitterError,
>)
    ensures
        r matches Err(e) ==> e == TreesitterError::NoNodeFound,
{
    let mut current = node;
    let mut fuel: usize = usize::MAX;
    loop
        decreases fuel,
    {
        if strutil::str_eq(node_kind(&current), "element") {
            return Ok(current);
        }
        match node_parent(&current) {
            Some(parent) => {
                current = parent;
            },
            None => {
                return Err(TreesitterError::NoNodeFound);
            },
        }
        if fuel == 0 {
            return Err(TreesitterError::NoNodeFound);
        }
        fuel = fuel - 1;
    }
}

/// The opening tag of an element: its first child of the tag kind, so a
/// descendant's tag never stands in for the element's own.
fn find_start_tag<'t>(node: tree_sitter::Node<'t>) -> Option<tree_sitter::Node<'t>> {
    let count = node_child_count(&node);
    let mut i: usize = 0;
    while i < count
        decreases count - i,
    {
        match node_child(&node, i) {
            Some(child) => {
                if strutil::str_eq(node_kind(&child), "start_tag") {
                    return Some(child);
                }
            },
            None => {},
        }
        i = i + 1;
    }
    None
}

/// The id attribute on the element's opening tag, found by a structural
/// query against that tag alone and trimmed; absence of the tag or of the
/// attribute is the expected `NoIdFoundOnElement` outcome.
pub fn get_id_of_node<'t>(
    language: tree_sitter::Language,
    node: tree_sitter::Node<'t>,
    content: &str,
) -> (r: Result<String, TreesitterError>)
    ensures
        r matches Ok(id) ==> id@ == strutil::spec_trim(id@),
        r matches Err(e) ==> e == TreesitterError::UnableToParse || e
            == TreesitterError::NoIdFoundOnElement,
{
    let start_tag = match find_start_tag(node) {
        Some(tag) => tag,
        None => {
            return Err(TreesitterError::NoIdFoundOnElement);
        },
    };
    let query = "(start_tag\n  (attribute\n     (attribute_name) @_arrname\n     (quoted_attribute_value\n       (attribute_value) @_value\n       (#eq? @_arrname \"id\")\n     ) \n    )\n  )";
    let nodes = match query_capture_nodes(language, start_tag, content, query) {
        Some(nodes) => nodes,
        None => {
            return Err(TreesitterError::UnableToParse);
        },
    };
    let mut found: Vec<String> = Vec::new();
    let mut i: usize = 0;
    while i < nodes.len()
        decreases nodes@.len() - i,
    {
        let capture = &nodes[i];
        if strutil::str_eq(node_kind(capture), "attribute_value") {
            match node_text(capture, content) {
                Some(text) => found.push(text),
                None => {},
            }
        }
        i = i + 1;
    }
    if found.len() == 0 {
        return Err(TreesitterError::NoIdFoundOnElement);
    }
    let id = strutil::trim(found[0].as_str());
    proof {
        strutil::lemma_trim_idempotent(found@[0]@);
    }
    Ok(id)
}

/// The transient result of locating an element for extraction: its range,
/// its id, its literal text and the sibling-file uri derived from the id.
pub struct BaseExtract {
    pub start: Position,
    pub end: Position,
    pub id: String,
    pub new_url: String,
    pub new_content: String,
}

/// Locate the element at `point` and gather everything the two extract
/// actions need; every failure is surfaced.
pub fn base_extract(content: &str, point: Point, url: String) -> (r: Result<
    BaseExtract,
    TreesitterError,
>)
    ensures
        r matches Ok(b) ==> url@.len() > 0 && b.new_url@ == spec_url_with_id(url@, b.id@)
            && b.id@ == strutil::spec_trim(b.id@),
{
    // parse
    let language = html_language();
    let tree = match parse_html(content) {
        Some(t) => t,
        None => {
            return Err(TreesitterError::NotCorrectDocumentSyntax);
        },
    };
    let node = match get_node_at_point(&tree, point) {
        Ok(n) => n,
        Err(e) => {
            return Err(e);
        },
    };
    let node = match get_element_node(node) {
        Ok(n) => n,
        Err(e) => {
            return Err(e);
        },
    };

    // get edit range
    let inner = node_range(&node);
    let end = to_lsp_position(inner.end_point);
    let start = to_lsp_position(inner.start_point);

    // get content for generation
    let id = match get_id_of_node(language, node, content) {
        Ok(id) => id,
        Err(e) => {
            return Err(e);
        },
    };
    let new_content = match node_text(&node, content) {
        Some(t) => t,
        None => {
            return Err(TreesitterError::UnableToGetContent);
        },
    };
    let new_url = match get_url_with_id(url.as_str(), id.as_str()) {
        Some(u) => u,
        None => {
            return Err(TreesitterError::UnableToGetContent);
        },
    };
    Ok(BaseExtract { start, end, id, new_url, new_content })
}

/// The include reference that replaces an element extracted as a file.
pub open spec fn spec_include_reference(id: Seq<char>) -> Seq<char> {
    "{#include "@ + id + " /}"@
}

/// The include reference that replaces an element extracted as a file.
pub fn include_reference(id: &str) -> (r: String)
    ensures
        r@ == spec_include_reference(id@),
{
    let mut out = String::new();
    out.append("{#include ");
    out.append(id);
    out.append(" /}");
    out
}

/// The fragment-qualified include reference that replaces an element
/// extracted as a fragment.
pub open spec fn spec_include_fragment_reference(id: Seq<char>) -> Seq<char> {
    "{#include "@ + id + "$"@ + id + " /}"@
}

/// The fragment-qualified include reference that replaces an element
/// extracted as a fragment.
pub fn include_fragment_reference(id: &str) -> (r: String)
    ensures
        r@ == spec_include_fragment_reference(id@),
{
    let mut out = String::new();
    out.append("{#include ");
    out.append(id);
    out.append("$");
    out.append(id);
    out.append(" /}");
    out
}

/// The content of the new file an extract-as-fragment creates: the element
/// text wrapped in a fragment-tag pair named by the id.
pub open spec fn spec_fragment_wrap(id: Seq<char>, text: Seq<char>) -> Seq<char> {
    "{#fragment id="@ + id + "}\n"@ + text + "\n{/fragment}"@
}

/// The content of the new file an extract-as-fragment creates.
pub fn fragment_wrap(id: &str, text: &str) -> (r: String)
    ensures
        r@ == spec_fragment_wrap(id@, text@),
{
    let mut out = String::new();
    out.append("{#fragment id=");
    out.append(id);
    out.append("}\n");
    out.append(text);
    out.append("\n{/fragment}");
    out
}

/// A position at the document start.
pub open spec fn spec_zero_position(p: Position) -> bool {
    p.line == 0 && p.character == 0
}

/// Insert an opening fragment tag with a placeholder id before the element
/// at `point` and a closing tag after it; needs no id on the element.
pub fn add_fragment(uri: String, point: Point, content: &str) -> (r: Result<
    Vec<(String, Vec<TextEdit>)>,
    TreesitterError,
>)
    ensures
        r matches Ok(m) ==> m@.len() == 1 && m@[0].0@ == uri@ && m@[0].1@.len() == 2
            && m@[0].1@[0].new_text@ == "\n{/fragment}"@ && m@[0].1@[0].range.start
            == m@[0].1@[0].range.end && m@[0].1@[1].new_text@ == "{#fragment id=NEW_FRAGMENT }\n"@
            && m@[0].1@[1].range.start == m@[0].1@[1].range.end,
        r matches Err(e) ==> e == TreesitterError::NoNodeFound,
{
    // parse: the HTML parse answers on every input
    let tree = match parse_html(content) {
        Some(t) => t,
        None => {
            return Err(TreesitterError::NotCorrectDocumentSyntax);
        },
    };
    let node = match get_node_at_point(&tree, point) {
        Ok(n) => n,
        Err(e) => {
            return Err(e);
        },
    };
    let node = match get_element_node(node) {
        Ok(n) => n,
        Err(e) => {
            return Err(e);
        },
    };

    // get edit range
    let inner = node_range(&node);
    let end = to_lsp_position(inner.end_point);
    let start = to_lsp_position(inner.start_point);

    let mut edits: Vec<TextEdit> = Vec::new();
    edits.push(TextEdit::new(LspRange::new(end, end), "\n{/fragment}".to_owned()));
    edits.push(
        TextEdit::new(LspRange::new(start, start), "{#fragment id=NEW_FRAGMENT }\n".to_owned()),
    );
    let mut out: Vec<(String, Vec<TextEdit>)> = Vec::new();
    out.push((uri, edits));
    Ok(out)
}

/// The shape of an extract-as-file transaction: the element's range in the
/// source file replaced by an include reference, and a sibling file created
/// with the element text.
pub open spec fn spec_extract_as_file_shape(
    m: Seq<(String, Vec<TextEdit>)>,
    url: Seq<char>,
    id: Seq<char>,
    text: Seq<char>,
) -> bool {
    &&& m.len() == 2
    &&& m[0].0@ == url
    &&& m[0].1@.len() == 1
    &&& m[0].1@[0].new_text@ == spec_include_reference(id)
    &&& m[1].0@ == spec_url_with_id(url, id)
    &&& m[1].1@.len() == 1
    &&& m[1].1@[0].new_text@ == text
    &&& spec_zero_position(m[1].1@[0].range.start)
    &&& spec_zero_position(m[1].1@[0].range.end)
}

/// An extract-as-file transaction for some id and element text.
pub open spec fn spec_is_extract_as_file(m: Seq<(String, Vec<TextEdit>)>, url: Seq<char>) -> bool {
    exists|id: Seq<char>, text: Seq<char>| #[trigger] spec_extract_as_file_shape(m, url, id, text)
}

/// Replace the element's range with an include reference by id and create
/// a sibling file holding the element's literal text; needs an id.
pub fn extract_as_file(url: String, point: Point, content: &str) -> (r: Result<
    Vec<(String, Vec<TextEdit>)>,
    TreesitterError,
>)
    ensures
        r matches Ok(m) ==> spec_is_extract_as_file(m@, url@),
{
    let extract = match base_extract(content, point, url.clone()) {
        Ok(b) => b,
        Err(e) => {
            return Err(e);
        },
    };
    let reference = include_reference(extract.id.as_str());
    let mut source_edits: Vec<TextEdit> = Vec::new();
    source_edits.push(TextEdit::new(LspRange::new(extract.start, extract.end), reference));
    let mut new_file_edits: Vec<TextEdit> = Vec::new();
    new_file_edits.push(TextEdit::new(LspRange::zero(), extract.new_content));
    let mut out: Vec<(String, Vec<TextEdit>)> = Vec::new();
    out.push((url, source_edits));
    out.push((extract.new_url, new_file_edits));
    let ghost gid = extract.id@;
    let ghost gtext = new_file_edits@[0].new_text@;
    proof {
        assert(spec_extract_as_file_shape(out@, url@, gid, gtext));
        assert(spec_is_extract_as_file(out@, url@));
    }
    Ok(out)
}

/// The shape of an extract-as-fragment transaction: like extract-as-file,
/// but the reference is fragment-qualified and the new file wraps the text
/// in a fragment-tag pair named by the id.
pub open spec fn spec_extract_as_fragment_shape(
    m: Seq<(String, Vec<TextEdit>)>,
    url: Seq<char>,
    id: Seq<char>,
    text: Seq<char>,
) -> bool {
    &&& m.len() == 2
    &&& m[0].0@ == url
    &&& m[0].1@.len() == 1
    &&& m[0].1@[0].new_text@ == spec_include_fragment_reference(id)
    &&& m[1].0@ == spec_url_with_id(url, id)
    &&& m[1].1@.len() == 1
    &&& m[1].1@[0].new_text@ == spec_fragment_wrap(id, text)
    &&& spec_zero_position(m[1].1@[0].range.start)
    &&& spec_zero_position(m[1].1@[0].range.end)
}

/// An extract-as-fragment transaction for some id and element text.
pub open spec fn spec_is_extract_as_fragment(
    m: Seq<(String, Vec<TextEdit>)>,
    url: Seq<char>,
) -> bool {
    exists|id: Seq<char>, text: Seq<char>|
        #[trigger] spec_extract_as_fragment_shape(m, url, id, text)
}

/// Replace the element's range with a fragment-qualified include reference
/// and create a sibling file wrapping the element text in a fragment-tag
/// pair named by the id; needs an id.
pub fn extract_as_fragment(url: String, point: Point, content: &str) -> (r: Result<
    Vec<(String, Vec<TextEdit>)>,
    TreesitterError,
>)
    ensures
        r matches Ok(m) ==> spec_is_extract_as_fragment(m@, url@),
{
    let extract = match base_extract(content, point, url.clone()) {
        Ok(b) => b,
        Err(e) => {
            return Err(e);
        },
    };
    let reference = include_fragment_reference(extract.id.as_str());
    let wrapped = fragment_wrap(extract.id.as_str(), extract.new_content.as_str());
    let mut source_edits: Vec<TextEdit> = Vec::new();
    source_edits.push(TextEdit::new(LspRange::new(extract.start, extract.end), reference));
    let mut new_file_edits: Vec<TextEdit> = Vec::new();
    new_file_edits.push(TextEdit::new(LspRange::zero(), wrapped));
    let mut out: Vec<(String, Vec<TextEdit>)> = Vec::new();
    out.push((url, source_edits));
    out.push((extract.new_url, new_file_edits));
    let ghost gid = extract.id@;
    let ghost gtext = extract.new_content@;
    proof {
        assert(spec_extract_as_fragment_shape(out@, url@, gid, gtext));
        assert(spec_is_extract_as_fragment(out@, url@));
    }
    Ok(out)
}

/// The availability rule of the extraction actions: no enclosing element
/// offers nothing, an element offers the fragment frame, and only an
/// element with an id offers the two extracts as well.
pub fn extraction_options(has_element: bool, has_id: bool) -> (r: Vec<ExtractionKind>)
    ensures
        !has_element ==> r@ == Seq::<ExtractionKind>::empty(),
        has_element && !has_id ==> r@ == seq![ExtractionKind::AddFragement],
        has_element && has_id ==> r@ == seq![
            ExtractionKind::AddFragement,
            ExtractionKind::ExtractAsFile,
            ExtractionKind::ExtractAsFragment,
        ],
{
    let mut out: Vec<ExtractionKind> = Vec::new();
    if has_element {
        out.push(ExtractionKind::AddFragement);
        if has_id {
            out.push(ExtractionKind::ExtractAsFile);
            out.push(ExtractionKind::ExtractAsFragment);
            proof {
                assert(out@ =~= seq![
                    ExtractionKind::AddFragement,
                    ExtractionKind::ExtractAsFile,
                    ExtractionKind::ExtractAsFragment,
                ]);
            }
        } else {
            proof {
                assert(out@ =~= seq![ExtractionKind::AddFragement]);
            }
        }
    } else {
        proof {
            assert(out@ =~= Seq::<ExtractionKind>::empty());
        }
    }
    out
}

/// The actions available at `point`: the element and id lookups decide,
/// and the list follows `extraction_options` exactly; every lookup failure
/// is swallowed and only omits options.
pub fn check_extract(content: &str, point: Point) -> (r: Vec<ExtractionKind>)
    ensures
        r@ == Seq::<ExtractionKind>::empty() || r@ == seq![ExtractionKind::AddFragement] || r@
            == seq![
            ExtractionKind::AddFragement,
            ExtractionKind::ExtractAsFile,
            ExtractionKind::ExtractAsFragment,
        ],
{
    let mut has_element = false;
    let mut has_id = false;
    let language = html_language();
    match parse_html(content) {
        Some(tree) => {
            match get_node_at_point(&tree, point) {
                Ok(node) => {
                    match get_element_node(node) {
                        Ok(node) => {
                            has_element = true;
                            match get_id_of_node(language, node, content) {
                                Ok(_) => {
                                    has_id = true;
                                },
                                Err(_) => {},
                            }
                        },
                        Err(_) => {},
                    }
                },
                Err(_) => {},
            }
        },
        None => {},
    }
    extraction_options(has_element, has_id)
}

} // verus!
