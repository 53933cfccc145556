//! Parsing a single line of markup: the line is wrapped in a synthetic
//! element so the grammar has valid context, and the tree is always paired
//! with exactly the text it was parsed from.

use vstd::prelude::*;
use vstd::string::StringExecFns;

use crate::treesitter::parse_html;
use crate::treesitter::spec_html_parse;
use crate::treesitter::spec_tree_nodes;

verus! {

/// Parse one line as the attributes of a synthetic element. The call
/// always answers; the returned text is the wrapped content, the returned
/// tree is the HTML parse of exactly that text, and positions in the tree
/// stand eight characters to the right of positions in the line.
pub fn html_inline(line: &str) -> (r: Option<(tree_sitter::Tree, String)>)
    ensures
        r is Some,
        r matches Some(p) ==> p.1@ == "<button "@ + line@ + "></button>"@ && spec_tree_nodes(p.0)
            == spec_html_parse(p.1@),
{
    let mut content = String::new();
    content.append("<button ");
    content.append(line);
    content.append("></button>");
    let tree = match parse_html(content.as_str()) {
        Some(t) => t,
        None => {
            return None;
        },
    };
    Some((tree, content))
}

} // verus!
