//! Resolving a path typed in a template to the Route it names.
//!
//! Route paths may carry `{name}` placeholders and the paths typed in
//! templates may carry `{expr}` interpolations; neither side knows the
//! other's spelling, so both are normalized by dropping every section
//! between braces before comparison.

use vstd::prelude::*;
use vstd::string::StrSliceExecFns;

use crate::html_utils::html_inline;
use crate::index::route_index_entries;
use crate::index::spec_route_index;
use crate::lsp::Location;
use crate::lsp::Point;
use crate::lsp::Position;
use crate::route::Route;
use crate::strutil;
use crate::treesitter::cursor_goto_first_child_for_point;
use crate::treesitter::cursor_node;
use crate::treesitter::node_kind;
use crate::treesitter::node_text;
use crate::treesitter::tree_walk;

verus! {

/// Characters of `s` that survive normalization when the scan starts with
/// the brace state `inside`: a `{` opens a placeholder, a `}` closes one,
/// and characters seen while one is open are dropped.
pub open spec fn spec_without_vars_from(s: Seq<char>, inside: bool) -> Seq<char>
    decreases s.len(),
{
    if s.len() == 0 {
        Seq::<char>::empty()
    } else {
        let c = s[0];
        let rest = spec_without_vars_from(
            s.drop_first(),
            if c == '{' {
                true
            } else if c == '}' {
                false
            } else {
                inside
            },
        );
        if c == '{' || c == '}' || inside {
            rest
        } else {
            seq![c] + rest
        }
    }
}

/// The comparison key of a path template: every placeholder section and
/// both braces around it are removed, all other characters keep their
/// relative order.
pub open spec fn spec_without_vars(s: Seq<char>) -> Seq<char> {
    spec_without_vars_from(s, false)
}

/// Normalization never leaves a brace in its result; every character it
/// keeps is a non-placeholder character of the input, in input order, as
/// the definition of `spec_without_vars_from` states.
pub proof fn lemma_without_vars_no_braces(s: Seq<char>, inside: bool)
    ensures
        forall|i: int|
            0 <= i < spec_without_vars_from(s, inside).len()
                ==> spec_without_vars_from(s, inside)[i] != '{' && spec_without_vars_from(
                s,
                inside,
            )[i] != '}',
    decreases s.len(),
{
    if s.len() > 0 {
        let c = s[0];
        let next = if c == '{' {
            true
        } else if c == '}' {
            false
        } else {
            inside
        };
        lemma_without_vars_no_braces(s.drop_first(), next);
        let rest = spec_without_vars_from(s.drop_first(), next);
        if !(c == '{' || c == '}' || inside) {
            assert forall|i: int| 0 <= i < (seq![c] + rest).len() implies (seq![c] + rest)[i] != '{'
                && (seq![c] + rest)[i] != '}' by {
                if i > 0 {
                    assert((seq![c] + rest)[i] == rest[i - 1]);
                }
            }
        }
    }
}

/// On a brace-free sequence normalization is the identity.
proof fn lemma_without_vars_of_brace_free(s: Seq<char>)
    requires
        forall|i: int| 0 <= i < s.len() ==> s[i] != '{' && s[i] != '}',
    ensures
        spec_without_vars_from(s, false) == s,
    decreases s.len(),
{
    if s.len() == 0 {
        assert(spec_without_vars_from(s, false) =~= s);
    } else {
        lemma_without_vars_of_brace_free(s.drop_first());
        assert(spec_without_vars_from(s, false) =~= s);
    }
}

/// Normalization is idempotent: normalizing an already normalized path
/// changes nothing.
pub proof fn lemma_without_vars_idempotent(p: Seq<char>)
    ensures
        spec_without_vars(spec_without_vars(p)) == spec_without_vars(p),
{
    lemma_without_vars_no_braces(p, false);
    lemma_without_vars_of_brace_free(spec_without_vars_from(p, false));
}

/// In Qute the route path can be partially filled with variables. We remove
/// these dynamic parts to match route paths against typed urls, and the
/// placeholder-bearing route paths against the typed ones.
pub fn without_vars(url: &str) -> (r: String)
    ensures
        r@ == spec_without_vars(url@),
{
    let n = url.unicode_len();
    let mut out = String::new();
    let mut inside = false;
    let mut i: usize = 0;
    proof {
        assert(url@.skip(0) =~= url@);
    }
    while i < n
        invariant
            n == url@.len(),
            0 <= i <= n,
            spec_without_vars(url@) == out@ + spec_without_vars_from(url@.skip(i as int), inside),
        decreases n - i,
    {
        let c = url.get_char(i);
        proof {
            assert(url@.skip(i as int).drop_first() =~= url@.skip(i as int + 1));
            assert(url@.skip(i as int)[0] == c);
        }
        if c == '{' {
            inside = true;
        } else if c == '}' {
            inside = false;
        } else if !inside {
            let piece = url.substring_char(i, i + 1);
            proof {
                assert(seq![c] + spec_without_vars_from(url@.skip(i as int + 1), inside) =~= piece@
                    + spec_without_vars_from(url@.skip(i as int + 1), inside));
            }
            out.append(piece);
        }
        i = i + 1;
    }
    proof {
        assert(url@.skip(n as int) =~= Seq::<char>::empty());
        assert(out@ + Seq::<char>::empty() =~= out@);
    }
    out
}

/// The position of the first entry whose normalized key is `target` and
/// whose route carries an implementation location; `target` is normalized
/// already. A path-only match without a location is skipped.
fn find_matching_index(entries: &Vec<(String, Route)>, target: &str) -> (r: Option<usize>)
    ensures
        r matches Some(i) ==> i < entries@.len() && spec_without_vars(entries@[i as int].0@)
            == target@ && entries@[i as int].1.implementation is Some,
        r is None ==> forall|j: int|
            0 <= j < entries@.len() ==> !(spec_without_vars((#[trigger] entries@[j].0)@) == target@
                && entries@[j].1.implementation is Some),
{
    let mut i: usize = 0;
    while i < entries.len()
        invariant
            0 <= i <= entries@.len(),
            forall|j: int|
                0 <= j < i ==> !(spec_without_vars((#[trigger] entries@[j].0)@) == target@
                    && entries@[j].1.implementation is Some),
        decreases entries@.len() - i,
    {
        let key_normalized = without_vars(entries[i].0.as_str());
        if strutil::str_eq(key_normalized.as_str(), target) && entries[i].1.implementation.is_some() {
            return Some(i);
        }
        i = i + 1;
    }
    None
}

/// The first indexed route whose normalized path equals the normalized
/// `url` and which has an attached implementation location: a path-only
/// match without a location is not resolvable for goto-definition. Which
/// route answers a tie between located routes that normalize alike is not
/// specified.
#[verifier::loop_isolation(false)]
pub fn get_related_route(route_map: &dashmap::DashMap<String, Route>, url: &str) -> (r: Option<
    Route,
>)
    ensures
        r matches Some(route) ==> exists|k: Seq<char>|
            #[trigger] spec_route_index(route_map).contains_key(k) && spec_route_index(route_map)[k]
                == route && spec_without_vars(k) == spec_without_vars(url@)
                && route.implementation is Some,
        r is None ==> forall|k: Seq<char>|
            #[trigger] spec_route_index(route_map).contains_key(k) ==> !(spec_without_vars(k)
                == spec_without_vars(url@) && spec_route_index(route_map)[k].implementation
                is Some),
{
    let target = without_vars(url);
    let mut entries = route_index_entries(route_map);
    let found = find_matching_index(&entries, target.as_str());
    if let Some(found_at) = found {
        let ghost gk = entries@[found_at as int].0@;
        let ghost gv = entries@[found_at as int].1;
        let pair = entries.remove(found_at);
        proof {
            assert(spec_route_index(route_map).contains_key(gk));
            assert(spec_route_index(route_map)[gk] == gv);
            assert(spec_without_vars(gk) == spec_without_vars(url@));
        }
        Some(pair.1)
    } else {
        proof {
            assert forall|k: Seq<char>|
                #[trigger] spec_route_index(route_map).contains_key(k) implies !(spec_without_vars(
                k,
            ) == spec_without_vars(url@) && spec_route_index(route_map)[k].implementation
                is Some) by {
                let j = choose|j: int|
                    0 <= j < entries@.len() && #[trigger] entries@[j].0@ == k;
                assert(!(spec_without_vars(entries@[j].0@) == spec_without_vars(url@)
                    && entries@[j].1.implementation is Some));
            }
        }
        None
    }
}

/// Resolve the path under the caret to the source location of the route it
/// names: the route's path and the typed path must normalize alike, and a
/// route without a recorded implementation never answers, even on a tie
/// with one that has one.
#[verifier::loop_isolation(false)]
pub fn get_definition(
    route_map: &dashmap::DashMap<String, Route>,
    line: &str,
    position: &Position,
) -> (r: Option<Location>)
    requires
        position.character as int + 8 <= usize::MAX as int,
    ensures
        r matches Some(loc) ==> exists|k: Seq<char>|
            #[trigger] spec_route_index(route_map).contains_key(k) && spec_route_index(route_map)[k]
                .implementation == Some(loc),
{
    let parsed = html_inline(line);
    let (tree, content) = match parsed {
        Some(p) => p,
        None => {
            return None;
        },
    };
    let mut cursor = tree_walk(&tree);
    let mut i: usize = 0;
    while i < 10
        invariant
            0 <= i <= 10,
        decreases 10 - i,
    {
        cursor_goto_first_child_for_point(
            &mut cursor,
            Point { row: 0, column: (position.character as usize) + 8 },
        );
        i = i + 1;
    }
    let node = cursor_node(&cursor);
    if !strutil::str_eq(node_kind(&node), "attribute_value") {
        // When this is not an attribute value then we cannot provide a lookup
        return None;
    }
    let url = match node_text(&node, content.as_str()) {
        Some(u) => u,
        None => {
            // When we are not able to get the path we cannot find the route
            return None;
        },
    };
    match get_related_route(route_map, url.as_str()) {
        Some(route) => match route.implementation {
            Some(loc) => Some(loc),
            None => None,
        },
        None => None,
    }
}

} // verus!
