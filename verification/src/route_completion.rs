//! Route completion: when the caret stands inside the value of a
//! path-bearing attribute, every indexed route path is offered, the typed
//! prefix trimmed from the insert text and the route summary attached.

use vstd::prelude::*;

use crate::html_utils::html_inline;
use crate::index::route_index_entries;
use crate::index::spec_route_index;
use crate::lsp::CompletionItem;
use crate::lsp::CompletionItemView;
use crate::lsp::Point;
use crate::route::spec_route_string;
use crate::route::Route;
use crate::strutil;
use crate::strutil::spec_trim_start_matches;
use crate::treesitter::cursor_goto_first_child_for_point;
use crate::treesitter::cursor_node;
use crate::treesitter::node_kind;
use crate::treesitter::node_parent;
use crate::treesitter::node_prev_sibling;
use crate::treesitter::node_text;
use crate::treesitter::tree_walk;

verus! {

/// An item the route branch offers for the typed value `written`: an
/// indexed path as the label, that route's summary as documentation, and
/// the path with the typed prefix trimmed as insert text.
pub open spec fn spec_is_offered_route(
    m: &dashmap::DashMap<String, Route>,
    item: CompletionItemView,
    written: Seq<char>,
) -> bool {
    exists|k: Seq<char>|
        #[trigger] spec_route_index(m).contains_key(k) && item.label == k && item.detail == Some(
            spec_route_string(spec_route_index(m)[k]),
        ) && item.insert_text == Some(spec_trim_start_matches(k, written)) && item.snippet == false
}

/// An item the route branch offers for some typed value.
pub open spec fn spec_is_offered_route_any(
    m: &dashmap::DashMap<String, Route>,
    item: CompletionItemView,
) -> bool {
    exists|w: Seq<char>| #[trigger] spec_is_offered_route(m, item, w)
}

/// The items offered for the typed value `already_written`: one per
/// indexed route, in no specified order.
#[verifier::loop_isolation(false)]
pub fn completion_items_for(
    route_map: &dashmap::DashMap<String, Route>,
    already_written: &str,
) -> (r: Vec<CompletionItem>)
    ensures
        forall|i: int|
            0 <= i < r@.len() ==> #[trigger] spec_is_offered_route(
                route_map,
                r@[i]@,
                already_written@,
            ),
        forall|k: Seq<char>|
            spec_route_index(route_map).contains_key(k) ==> exists|i: int|
                0 <= i < r@.len() && (#[trigger] r@[i]@.label) == k,
        forall|i: int, j: int|
            0 <= i < j < r@.len() ==> (#[trigger] r@[i]@.label) != (#[trigger] r@[j]@.label),
{
    let entries = route_index_entries(route_map);
    let mut out: Vec<CompletionItem> = Vec::new();
    let mut i: usize = 0;
    while i < entries.len()
        invariant
            out@.len() == i,
            0 <= i <= entries@.len(),
            forall|j: int| 0 <= j < i ==> (#[trigger] out@[j]@.label) == entries@[j].0@,
            forall|j: int|
                0 <= j < i ==> #[trigger] spec_is_offered_route(
                    route_map,
                    out@[j]@,
                    already_written@,
                ),
        decreases entries@.len() - i,
    {
        let label = entries[i].0.clone();
        let detail = entries[i].1.to_string();
        let insert = strutil::trim_start_matches_str(entries[i].0.as_str(), already_written);
        let item = CompletionItem {
            label,
            detail: Some(detail),
            insert_text: Some(insert),
            snippet: false,
        };
        out.push(item);
        proof {
            assert(spec_route_index(route_map).contains_key(entries@[i as int].0@));
            assert(spec_is_offered_route(route_map, item@, already_written@));
        }
        i = i + 1;
    }
    proof {
        assert forall|k: Seq<char>|
            spec_route_index(route_map).contains_key(k) implies exists|i: int|
            0 <= i < out@.len() && (#[trigger] out@[i]@.label) == k by {
            let j = choose|j: int| 0 <= j < entries@.len() && #[trigger] entries@[j].0@ == k;
            assert(out@[j]@.label == k);
        }
        assert forall|i: int, j: int|
            0 <= i < j < out@.len() implies (#[trigger] out@[i]@.label) != (
        #[trigger] out@[j]@.label) by {
            assert(out@[i]@.label == entries@[i].0@);
            assert(out@[j]@.label == entries@[j].0@);
            assert(entries@[i].0@ != entries@[j].0@);
        }
    }
    out
}

/// Whether `param_name` names an attribute whose value is a path the route
/// index can complete.
pub open spec fn spec_is_path_attribute(s: Seq<char>) -> bool {
    s == "action"@ || s == "hx-get"@ || s == "hx-post"@ || s == "hx-put"@ || s == "hx-path"@ || s
        == "hx-delete"@
}

/// Whether completion may offer route paths inside the attribute named
/// `param_name`.
pub fn can_complete_path_for_param_name(param_name: Option<String>) -> (r: bool)
    ensures
        r == (param_name matches Some(p) && spec_is_path_attribute(p@)),
{
    let p = match param_name {
        Some(p) => p,
        None => {
            return false;
        },
    };
    if strutil::str_eq(p.as_str(), "action") {
        // html
        true
    } else if strutil::str_eq(p.as_str(), "hx-get") {
        // htmx
        true
    } else if strutil::str_eq(p.as_str(), "hx-post") {
        true
    } else if strutil::str_eq(p.as_str(), "hx-put") {
        true
    } else if strutil::str_eq(p.as_str(), "hx-path") {
        true
    } else if strutil::str_eq(p.as_str(), "hx-delete") {
        true
    } else {
        false
    }
}

/// The name of the attribute whose value `node` is, read by walking back
/// over the surrounding attribute nodes.
fn get_param_name(node: tree_sitter::Node<'_>, content: &str) -> Option<String> {
    let n1 = match node_prev_sibling(&node) {
        Some(n) => n,
        None => {
            return None;
        },
    };
    let n2 = match node_parent(&n1) {
        Some(n) => n,
        None => {
            return None;
        },
    };
    let n3 = match node_prev_sibling(&n2) {
        Some(n) => n,
        None => {
            return None;
        },
    };
    let n4 = match node_prev_sibling(&n3) {
        Some(n) => n,
        None => {
            return None;
        },
    };
    node_text(&n4, content)
}

/// The route items for the attribute value `string_node`, when its
/// attribute is path-bearing; the empty list when it is not. A non-empty
/// answer offers every indexed route.
fn get_completion_items(
    string_node: tree_sitter::Node<'_>,
    content: String,
    route_map: &dashmap::DashMap<String, Route>,
) -> (r: Option<Vec<CompletionItem>>)
    ensures
        r is Some,
        r matches Some(v) ==> forall|i: int|
            0 <= i < v@.len() ==> #[trigger] spec_is_offered_route_any(route_map, v@[i]@),
        r matches Some(v) ==> (v@.len() > 0 ==> forall|k: Seq<char>|
            spec_route_index(route_map).contains_key(k) ==> exists|i: int|
                0 <= i < v@.len() && (#[trigger] v@[i]@.label) == k),
        r matches Some(v) ==> forall|i: int, j: int|
            0 <= i < j < v@.len() ==> (#[trigger] v@[i]@.label) != (#[trigger] v@[j]@.label),
{
    let param_name = get_param_name(string_node, content.as_str());
    let already_written = match node_text(&string_node, content.as_str()) {
        Some(s) => s,
        None => String::new(),
    };
    if !can_complete_path_for_param_name(param_name) {
        return Some(Vec::new());
    }
    let items = completion_items_for(route_map, already_written.as_str());
    proof {
        assert forall|i: int|
            0 <= i < items@.len() implies #[trigger] spec_is_offered_route_any(
            route_map,
            items@[i]@,
        ) by {
            assert(spec_is_offered_route(route_map, items@[i]@, already_written@));
        }
    }
    Some(items)
}

/// Route completion at a caret in `line`: active only when the caret is
/// inside the value of a path-bearing attribute. Whether the branch fires
/// depends on the parsed line, but whenever it offers anything it offers
/// every indexed route.
#[verifier::loop_isolation(false)]
pub fn completion(
    route_map: &dashmap::DashMap<String, Route>,
    line: &str,
    char_pos: usize,
) -> (r: Vec<CompletionItem>)
    requires
        char_pos as int + 8 <= usize::MAX as int,
    ensures
        forall|i: int|
            0 <= i < r@.len() ==> #[trigger] spec_is_offered_route_any(route_map, r@[i]@),
        r@.len() > 0 ==> forall|k: Seq<char>|
            spec_route_index(route_map).contains_key(k) ==> exists|i: int|
                0 <= i < r@.len() && (#[trigger] r@[i]@.label) == k,
        forall|i: int, j: int|
            0 <= i < j < r@.len() ==> (#[trigger] r@[i]@.label) != (#[trigger] r@[j]@.label),
{
    let parsed = html_inline(line);
    let (tree, content) = match parsed {
        Some(p) => p,
        None => {
            return Vec::new();
        },
    };
    let mut cursor = tree_walk(&tree);
    let mut i: usize = 0;
    while i < 10
        invariant
            0 <= i <= 10,
        decreases 10 - i,
    {
        cursor_goto_first_child_for_point(&mut cursor, Point { row: 0, column: char_pos + 8 });
        i = i + 1;
    }
    let node = cursor_node(&cursor);
    if !strutil::str_eq(node_kind(&node), "attribute_value") {
        return Vec::new();
    }
    match get_completion_items(node, content, route_map) {
        Some(value) => value,
        None => Vec::new(),
    }
}

} // verus!
