//! Fragment indexing: scanning template text for fragment declarations and
//! deriving the path-based id prefix of each template file.

use vstd::prelude::*;
use vstd::string::StrSliceExecFns;
use vstd::string::StringExecFns;

use crate::strutil;
use crate::strutil::lemma_find_from_props;
use crate::strutil::spec_find;
use crate::strutil::spec_trim;

verus! {

/// A fragment declaration found in a template, with its prefixed id and
/// the file it came from.
#[derive(Debug, PartialEq)]
pub struct Fragment {
    pub id: String,
    pub source: String,
}

/// A template document with its fragments.
#[derive(Debug, PartialEq)]
pub struct Document {
    pub path: String,
    pub id: String,
    pub fragments: Vec<Fragment>,
}

/// A line without its single trailing carriage return, if it has one.
pub open spec fn spec_strip_cr(l: Seq<char>) -> Seq<char> {
    if l.len() > 0 && l.last() == '\r' {
        l.drop_last()
    } else {
        l
    }
}

/// The lines of `s`: split at every newline, each line stripped of one
/// trailing carriage return, a final line ending producing no empty line.
pub open spec fn spec_lines(s: Seq<char>) -> Seq<Seq<char>>
    decreases s.len(),
    via spec_lines_decreases
{
    if s.len() == 0 {
        Seq::<Seq<char>>::empty()
    } else {
        match spec_find(s, seq!['\n']) {
            None => seq![spec_strip_cr(s)],
            Some(i) => seq![spec_strip_cr(s.take(i))] + spec_lines(s.skip(i + 1)),
        }
    }
}

#[via_fn]
proof fn spec_lines_decreases(s: Seq<char>) {
    if s.len() > 0 {
        match spec_find(s, seq!['\n']) {
            None => {},
            Some(i) => {
                lemma_find_from_props(s, seq!['\n'], 0);
            },
        }
    }
}

fn strip_cr(l: &str) -> (r: String)
    ensures
        r@ == spec_strip_cr(l@),
{
    let n = l.unicode_len();
    if n > 0 && l.get_char(n - 1) == '\r' {
        let out = l.substring_char(0, n - 1);
        proof {
            assert(l@.subrange(0, n as int - 1) =~= l@.drop_last());
        }
        out.to_owned()
    } else {
        l.to_owned()
    }
}

/// The lines of `s`, as `str::lines` yields them.
pub fn lines(s: &str) -> (r: Vec<String>)
    ensures
        r@.map_values(|l: String| l@) == spec_lines(s@),
{
    let n = s.unicode_len();
    let mut out: Vec<String> = Vec::new();
    let mut start: usize = 0;
    proof {
        assert(s@.skip(0) =~= s@);
        assert(out@.map_values(|l: String| l@) =~= Seq::<Seq<char>>::empty());
        reveal_strlit("\n");
        assert("\n"@ =~= seq!['\n']);
    }
    while start < n
        invariant
            n == s@.len(),
            0 <= start <= n,
            spec_lines(s@) == out@.map_values(|l: String| l@) + spec_lines(s@.skip(start as int)),
            "\n"@ == seq!['\n'],
        decreases n - start,
    {
        let rest = s.substring_char(start, n);
        proof {
            assert(rest@ =~= s@.skip(start as int));
        }
        let ghost prev = out@;
        match strutil::find_str(rest, "\n") {
            Some(k) => {
                proof {
                    lemma_find_from_props(rest@, "\n"@, 0);
                }
                let line = rest.substring_char(0, k);
                proof {
                    assert(line@ =~= rest@.take(k as int));
                }
                let stripped = strip_cr(line);
                out.push(stripped);
                proof {
                    assert(out@.map_values(|l: String| l@) =~= prev.map_values(|l: String| l@)
                        + seq![stripped@]);
                    assert(rest@.skip(k as int + 1) =~= s@.skip(start as int + k as int + 1));
                    assert(spec_lines(s@.skip(start as int)) == seq![spec_strip_cr(
                        rest@.take(k as int),
                    )] + spec_lines(rest@.skip(k as int + 1)));
                    assert((prev.map_values(|l: String| l@) + seq![stripped@]) + spec_lines(
                        rest@.skip(k as int + 1),
                    ) =~= prev.map_values(|l: String| l@) + (seq![stripped@] + spec_lines(
                        rest@.skip(k as int + 1),
                    )));
                }
                start = start + k + 1;
            },
            None => {
                let stripped = strip_cr(rest);
                out.push(stripped);
                proof {
                    assert(out@.map_values(|l: String| l@) =~= prev.map_values(|l: String| l@)
                        + seq![stripped@]);
                    assert(spec_lines(s@.skip(start as int)) == seq![spec_strip_cr(rest@)]);
                    assert(prev.map_values(|l: String| l@) + seq![stripped@] + spec_lines(
                        s@.skip(n as int),
                    ) =~= prev.map_values(|l: String| l@) + seq![spec_strip_cr(rest@)]);
                    assert(s@.skip(n as int) =~= Seq::<char>::empty());
                }
                start = n;
            },
        }
    }
    proof {
        assert(s@.skip(n as int) =~= Seq::<char>::empty());
        assert(out@.map_values(|l: String| l@) + Seq::<Seq<char>>::empty() =~= out@.map_values(
            |l: String| l@,
        ));
    }
    out
}

/// The fragment id declared on line `l`, if any: the text between the
/// first `id=` that follows the first fragment-open marker on the trimmed
/// line and the first `}` after it; a declaration missing its closing
/// brace keeps the rest of the line.
pub open spec fn spec_line_fragment_id(l: Seq<char>) -> Option<Seq<char>> {
    let t = spec_trim(l);
    match spec_find(t, "{#fragment"@) {
        None => None,
        Some(k) => {
            let rest = t.skip(k + "{#fragment"@.len());
            match spec_find(rest, "id="@) {
                None => None,
                Some(j) => {
                    let value = rest.skip(j + "id="@.len());
                    match spec_find(value, "}"@) {
                        Some(c) => Some(value.take(c)),
                        None => Some(value),
                    }
                },
            }
        },
    }
}

/// The fragment ids declared on `ls`, one per declaring line, in order.
pub open spec fn spec_fragment_ids(ls: Seq<Seq<char>>) -> Seq<Seq<char>>
    decreases ls.len(),
{
    if ls.len() == 0 {
        Seq::<Seq<char>>::empty()
    } else {
        (match spec_line_fragment_id(ls[0]) {
            Some(id) => seq![id],
            None => Seq::<Seq<char>>::empty(),
        }) + spec_fragment_ids(ls.drop_first())
    }
}

/// Every fragment declared in `content`, each carrying `source` as its
/// origin; ids are not prefixed here.
pub fn scan_fragments(content: String, source: String) -> (r: Vec<Fragment>)
    ensures
        r@.map_values(|f: Fragment| f.id@) == spec_fragment_ids(spec_lines(content@)),
        forall|i: int| 0 <= i < r@.len() ==> r@[i].source@ == source@,
{
    let ls = lines(content.as_str());
    let ghost all = spec_lines(content@);
    let mut out: Vec<Fragment> = Vec::new();
    let mut i: usize = 0;
    proof {
        assert(all.skip(0) =~= all);
        assert(out@.map_values(|f: Fragment| f.id@) =~= Seq::<Seq<char>>::empty());
    }
    while i < ls.len()
        invariant
            ls@.map_values(|l: String| l@) == all,
            0 <= i <= ls@.len(),
            spec_fragment_ids(all) == out@.map_values(|f: Fragment| f.id@) + spec_fragment_ids(
                all.skip(i as int),
            ),
            forall|j: int| 0 <= j < out@.len() ==> out@[j].source@ == source@,
        decreases ls@.len() - i,
    {
        let line = &ls[i];
        proof {
            assert(all.skip(i as int)[0] == line@);
            assert(all.skip(i as int).drop_first() =~= all.skip(i as int + 1));
        }
        let t = strutil::trim(line.as_str());
        match strutil::split_once_str(t.as_str(), "{#fragment") {
            Some((_head, rest)) => {
                match strutil::split_once_str(rest.as_str(), "id=") {
                    Some((_mid, after)) => {
                        let id = match strutil::split_once_str(after.as_str(), "}") {
                            Some((value, _tail)) => value,
                            None => after,
                        };
                        let ghost prev = out@;
                        let f = Fragment { id, source: source.clone() };
                        out.push(f);
                        proof {
                            assert(out@.map_values(|f: Fragment| f.id@) =~= prev.map_values(
                                |f: Fragment| f.id@,
                            ) + seq![f.id@]);
                            assert((prev.map_values(|f: Fragment| f.id@) + seq![f.id@])
                                + spec_fragment_ids(all.skip(i as int + 1)) =~= prev.map_values(
                                |f: Fragment| f.id@,
                            ) + (seq![f.id@] + spec_fragment_ids(all.skip(i as int + 1))));
                        }
                    },
                    None => {},
                }
            },
            None => {},
        }
        i = i + 1;
    }
    proof {
        assert(all.skip(ls@.len() as int) =~= Seq::<Seq<char>>::empty());
        assert(out@.map_values(|f: Fragment| f.id@) + Seq::<Seq<char>>::empty() =~= out@.map_values(
            |f: Fragment| f.id@,
        ));
    }
    out
}

/// Ids prefixed for the index: each id of `ids` behind `prefix` and the
/// fragment separator.
pub open spec fn spec_prefixed_ids(prefix: Seq<char>, ids: Seq<Seq<char>>) -> Seq<Seq<char>> {
    ids.map_values(|id: Seq<char>| prefix + "$"@ + id)
}

/// Every fragment declared in one template file, its id prefixed by the
/// file's path-derived prefix and the fragment separator, the file path
/// kept as its source.
#[verifier::loop_isolation(false)]
pub fn scan_file_fragments(path: String, content: String) -> (r: Vec<Fragment>)
    ensures
        r@.map_values(|f: Fragment| f.id@) == spec_prefixed_ids(
            spec_fragment_prefix(path@),
            spec_fragment_ids(spec_lines(content@)),
        ),
        forall|i: int| 0 <= i < r@.len() ==> r@[i].source@ == path@,
{
    let ghost gids = spec_fragment_ids(spec_lines(content@));
    let raw = scan_fragments(content, path.clone());
    let mut prefix = get_fragment_prefix(path);
    prefix.append("$");
    let mut out: Vec<Fragment> = Vec::new();
    let mut i: usize = 0;
    while i < raw.len()
        invariant
            out@.len() == i,
            0 <= i <= raw@.len(),
            forall|j: int|
                0 <= j < i ==> (#[trigger] out@[j]).id@ == spec_fragment_prefix(path@) + "$"@
                    + gids[j] && out@[j].source@ == path@,
        decreases raw@.len() - i,
    {
        proof {
            assert(raw@.map_values(|f: Fragment| f.id@)[i as int] == raw@[i as int].id@);
        }
        let mut id = prefix.clone();
        id.append(raw[i].id.as_str());
        let source = raw[i].source.clone();
        out.push(Fragment { id, source });
        i = i + 1;
    }
    proof {
        assert forall|j: int|
            0 <= j < out@.len() implies out@.map_values(|f: Fragment| f.id@)[j]
            == spec_prefixed_ids(spec_fragment_prefix(path@), gids)[j] by {
            assert(out@[j].id@ == spec_fragment_prefix(path@) + "$"@ + gids[j]);
        }
        assert(out@.map_values(|f: Fragment| f.id@) =~= spec_prefixed_ids(
            spec_fragment_prefix(path@),
            gids,
        ));
    }
    out
}

/// The last position of `c` in `s`, if any.
pub open spec fn spec_rlast(s: Seq<char>, c: char) -> Option<int>
    decreases s.len(),
{
    if s.len() == 0 {
        None
    } else if s.last() == c {
        Some(s.len() - 1)
    } else {
        spec_rlast(s.drop_last(), c)
    }
}

/// The last position of `c` in `s`, if any.
pub fn rlast_char(s: &str, c: char) -> (r: Option<usize>)
    ensures
        r is Some <==> spec_rlast(s@, c) is Some,
        r matches Some(i) ==> spec_rlast(s@, c) == Some(i as int) && i < s@.len(),
{
    let n = s.unicode_len();
    let mut j: usize = n;
    proof {
        assert(s@.take(n as int) =~= s@);
    }
    while j > 0
        invariant
            n == s@.len(),
            0 <= j <= n,
            spec_rlast(s@, c) == spec_rlast(s@.take(j as int), c),
        decreases j,
    {
        proof {
            assert(s@.take(j as int).last() == s@[j - 1]);
            assert(s@.take(j as int).drop_last() =~= s@.take(j as int - 1));
        }
        if s.get_char(j - 1) == c {
            return Some(j - 1);
        }
        j = j - 1;
    }
    proof {
        assert(s@.take(0) =~= Seq::<char>::empty());
    }
    None
}

/// The component after the last separator of `p` (all of `p` when it has
/// no separator).
pub open spec fn spec_file_name(p: Seq<char>) -> Seq<char> {
    match spec_rlast(p, '/') {
        None => p,
        Some(i) => p.skip(i + 1),
    }
}

/// The name of the file or folder `p` points at, its extension stripped:
/// the last path component, cut at its last dot unless the dot is its
/// first character; `None` when that component is empty.
pub open spec fn spec_get_name(p: Seq<char>) -> Option<Seq<char>> {
    let f = spec_file_name(p);
    if f.len() == 0 {
        None
    } else {
        match spec_rlast(f, '.') {
            Some(d) => if d > 0 {
                Some(f.take(d))
            } else {
                Some(f)
            },
            None => Some(f),
        }
    }
}

/// The name of the file or folder `p` points at, its extension stripped.
pub fn get_name(p: &str) -> (r: Option<String>)
    ensures
        r is Some <==> spec_get_name(p@) is Some,
        r matches Some(name) ==> spec_get_name(p@) == Some(name@),
{
    let n = p.unicode_len();
    let filename = match rlast_char(p, '/') {
        None => p.substring_char(0, n),
        Some(i) => p.substring_char(i + 1, n),
    };
    proof {
        assert(p@.subrange(0, n as int) =~= p@);
        match spec_rlast(p@, '/') {
            None => {},
            Some(i) => {
                assert(p@.subrange(i + 1, n as int) =~= p@.skip(i + 1));
            },
        }
    }
    let m = filename.unicode_len();
    if m == 0 {
        return None;
    }
    match rlast_char(filename, '.') {
        Some(d) => {
            if d > 0 {
                let name = filename.substring_char(0, d);
                proof {
                    assert(filename@.subrange(0, d as int) =~= filename@.take(d as int));
                }
                Some(name.to_owned())
            } else {
                Some(filename.to_owned())
            }
        },
        None => Some(filename.to_owned()),
    }
}

/// The path of the folder holding `p`: `p` cut at its last separator, or
/// empty when it has none.
pub open spec fn spec_parent(p: Seq<char>) -> Seq<char> {
    match spec_rlast(p, '/') {
        None => Seq::<char>::empty(),
        Some(i) => p.take(i),
    }
}

/// The path of the folder holding `p`.
pub fn parent_path(p: &str) -> (r: String)
    ensures
        r@ == spec_parent(p@),
{
    match rlast_char(p, '/') {
        None => String::new(),
        Some(i) => {
            let out = p.substring_char(0, i);
            proof {
                assert(p@.subrange(0, i as int) =~= p@.take(i as int));
            }
            out.to_owned()
        },
    }
}

/// The parts the prefix walk pushes while climbing from folder `p`: for
/// each of up to `fuel` parents, a separator and the folder's name, stopping
/// at an empty path or at the template root folder.
pub open spec fn spec_prefix_parts(p: Seq<char>, fuel: nat) -> Seq<Seq<char>>
    decreases fuel,
{
    if fuel == 0 || p.len() == 0 {
        Seq::<Seq<char>>::empty()
    } else {
        match spec_get_name(p) {
            Some(folder) => if folder == "templates"@ {
                Seq::<Seq<char>>::empty()
            } else {
                seq!["/"@, folder] + spec_prefix_parts(spec_parent(p), (fuel - 1) as nat)
            },
            None => spec_prefix_parts(spec_parent(p), (fuel - 1) as nat),
        }
    }
}

/// The concatenation of `ss` in reverse order.
pub open spec fn spec_concat_rev(ss: Seq<Seq<char>>) -> Seq<char>
    decreases ss.len(),
{
    if ss.len() == 0 {
        Seq::<char>::empty()
    } else {
        ss.last() + spec_concat_rev(ss.drop_last())
    }
}

/// The id prefix of the template file `p`: its extension-stripped name,
/// preceded by up to five of its folders from the template root down,
/// separated by `/`.
pub open spec fn spec_fragment_prefix(p: Seq<char>) -> Seq<char> {
    let base = match spec_get_name(p) {
        Some(f) => seq![f],
        None => Seq::<Seq<char>>::empty(),
    };
    spec_concat_rev(base + spec_prefix_parts(spec_parent(p), 5))
}

/// folder/file$frag
pub fn get_fragment_prefix(p: String) -> (r: String)
    ensures
        r@ == spec_fragment_prefix(p@),
{
    let mut out: Vec<String> = Vec::new();
    if let Some(filename) = get_name(p.as_str()) {
        out.push(filename);
    }
    let mut cur: String = parent_path(p.as_str());
    let ghost base: Seq<Seq<char>> = match spec_get_name(p@) {
        Some(f) => seq![f],
        None => Seq::<Seq<char>>::empty(),
    };
    let ghost full = base + spec_prefix_parts(spec_parent(p@), 5);
    proof {
        assert(out@.map_values(|x: String| x@) =~= base);
    }
    let mut it: usize = 0;
    while it < 5
        invariant
            0 <= it <= 5,
            full == base + spec_prefix_parts(spec_parent(p@), 5),
            full == out@.map_values(|x: String| x@) + spec_prefix_parts(cur@, (5 - it) as nat),
        decreases 5 - it,
    {
        if cur.as_str().unicode_len() == 0 {
            proof {
                assert(spec_prefix_parts(cur@, 0) =~= Seq::<Seq<char>>::empty());
            }
            it = 5;
        } else {
            let ghost prev = out@;
            match get_name(cur.as_str()) {
                Some(folder_name) => {
                    if strutil::str_eq(folder_name.as_str(), "templates") {
                        proof {
                            assert(spec_prefix_parts(cur@, (5 - it) as nat) =~= Seq::<
                                Seq<char>,
                            >::empty());
                            assert(spec_prefix_parts(cur@, 0) =~= Seq::<Seq<char>>::empty());
                        }
                        it = 5;
                    } else {
                        let sep = "/";
                        out.push(sep.to_owned());
                        out.push(folder_name);
                        proof {
                            assert(out@.map_values(|x: String| x@) =~= prev.map_values(
                                |x: String| x@,
                            ) + seq!["/"@, spec_get_name(cur@)->0]);
                            assert((prev.map_values(|x: String| x@) + seq![
                                "/"@,
                                spec_get_name(cur@)->0,
                            ]) + spec_prefix_parts(spec_parent(cur@), (5 - it - 1) as nat)
                                =~= prev.map_values(|x: String| x@) + (seq![
                                "/"@,
                                spec_get_name(cur@)->0,
                            ] + spec_prefix_parts(spec_parent(cur@), (5 - it - 1) as nat)));
                        }
                        cur = parent_path(cur.as_str());
                        it = it + 1;
                    }
                },
                None => {
                    cur = parent_path(cur.as_str());
                    it = it + 1;
                },
            }
        }
    }
    proof {
        assert(spec_prefix_parts(cur@, 0) =~= Seq::<Seq<char>>::empty());
        assert(full =~= out@.map_values(|x: String| x@));
    }
    // reverse and concatenate
    let mut acc = String::new();
    let mut idx: usize = out.len();
    proof {
        assert(out@.take(out@.len() as int) =~= out@);
        assert(full == out@.map_values(|x: String| x@));
        assert(out@.map_values(|x: String| x@).take(idx as int) =~= full);
    }
    while idx > 0
        invariant
            0 <= idx <= out@.len(),
            spec_concat_rev(full) == acc@ + spec_concat_rev(
                out@.map_values(|x: String| x@).take(idx as int),
            ),
        decreases idx,
    {
        proof {
            let vs = out@.map_values(|x: String| x@);
            assert(vs.take(idx as int).last() == vs[idx - 1]);
            assert(vs.take(idx as int).drop_last() =~= vs.take(idx as int - 1));
        }
        let ghost acc_old = acc@;
        acc.append(out[idx - 1].as_str());
        proof {
            let vs = out@.map_values(|x: String| x@);
            assert((acc_old + vs[idx - 1]) + spec_concat_rev(vs.take(idx as int - 1)) =~= acc_old
                + (vs[idx - 1] + spec_concat_rev(vs.take(idx as int - 1))));
        }
        idx = idx - 1;
    }
    proof {
        assert(out@.map_values(|x: String| x@).take(0) =~= Seq::<Seq<char>>::empty());
        assert(acc@ + Seq::<char>::empty() =~= acc@);
        assert(spec_fragment_prefix(p@) == spec_concat_rev(full));
    }
    acc
}

/// The closing marker the fragment branch appends: nothing when the line
/// already closes the include, the closing marker otherwise.
pub open spec fn spec_close(line: Seq<char>) -> Seq<char> {
    if strutil::spec_contains(line, "/}"@) {
        ""@
    } else {
        " /}"@
    }
}

/// A label the fragment branch may offer: some indexed fragment id with
/// the closing marker appended.
pub open spec fn spec_is_offered_fragment(
    m: &dashmap::DashMap<String, Fragment>,
    label: Seq<char>,
    close: Seq<char>,
) -> bool {
    exists|k: Seq<char>|
        #[trigger] crate::index::spec_fragment_index(m).contains_key(k) && label == k + close
}

/// Fragment completion: when the text before the caret holds an include
/// marker, every fragment id of the index is offered, with a closing
/// marker appended when the line has none.
#[verifier::loop_isolation(false)]
pub fn completion(
    fragment_map: &dashmap::DashMap<String, Fragment>,
    line: String,
    char_pos: usize,
) -> (r: Vec<crate::lsp::CompletionItem>)
    requires
        char_pos <= line@.len(),
    ensures
        !strutil::spec_contains(line@.take(char_pos as int), "{#include"@) ==> r@.len() == 0,
        forall|i: int|
            0 <= i < r@.len() ==> #[trigger] spec_is_offered_fragment(
                fragment_map,
                r@[i]@.label,
                spec_close(line@),
            ),
        strutil::spec_contains(line@.take(char_pos as int), "{#include"@) ==> forall|k: Seq<char>|
            crate::index::spec_fragment_index(fragment_map).contains_key(k) ==> exists|i: int|
                0 <= i < r@.len() && (#[trigger] r@[i]@.label) == k + spec_close(line@),
        forall|i: int|
            0 <= i < r@.len() ==> (#[trigger] r@[i]@.detail) == Some("Fragment from project"@)
                && r@[i]@.insert_text is None,
        forall|i: int, j: int|
            0 <= i < j < r@.len() ==> (#[trigger] r@[i]@.label) != (#[trigger] r@[j]@.label),
{
    let last_words = line.as_str().substring_char(0, char_pos);
    proof {
        assert(last_words@ =~= line@.take(char_pos as int));
    }
    if strutil::contains_str(last_words, "{#include") {
        let ghost close: Seq<char> = spec_close(line@);
        let optional_close = get_optional_clonse_statement(line);
        proof {
            assert(optional_close@ == close);
        }
        let keys = crate::index::fragment_index_keys(fragment_map);
        let mut out: Vec<crate::lsp::CompletionItem> = Vec::new();
        let mut i: usize = 0;
        while i < keys.len()
            invariant
                out@.len() == i,
                0 <= i <= keys@.len(),
                forall|j: int|
                    0 <= j < i ==> (#[trigger] out@[j]@.label) == keys@[j]@ + close
                        && out@[j]@.detail == Some("Fragment from project"@)
                        && out@[j]@.insert_text is None,
            decreases keys@.len() - i,
        {
            let label = keys[i].clone().concat(optional_close);
            let item = crate::lsp::CompletionItem::new_simple(
                label,
                "Fragment from project".to_owned(),
            );
            out.push(item);
            i = i + 1;
        }
        proof {
            assert forall|j: int|
                0 <= j < out@.len() implies #[trigger] spec_is_offered_fragment(
                fragment_map,
                out@[j]@.label,
                close,
            ) by {
                assert(crate::index::spec_fragment_index(fragment_map).contains_key(keys@[j]@));
                assert(out@[j]@.label == keys@[j]@ + close);
            }
            assert forall|k: Seq<char>|
                crate::index::spec_fragment_index(fragment_map).contains_key(
                    k,
                ) implies exists|j: int|
                0 <= j < out@.len() && (#[trigger] out@[j]@.label) == k + close by {
                let j = choose|j: int| 0 <= j < keys@.len() && #[trigger] keys@[j]@ == k;
                assert(out@[j]@.label == k + close);
            }
            assert forall|j: int|
                0 <= j < out@.len() implies (#[trigger] out@[j]@.detail) == Some(
                "Fragment from project"@,
            ) && out@[j]@.insert_text is None by {
                assert(out@[j]@.label == keys@[j]@ + close);
            }
            assert forall|i: int, j: int|
                0 <= i < j < out@.len() implies (#[trigger] out@[i]@.label) != (
            #[trigger] out@[j]@.label) by {
                assert(out@[i]@.label == keys@[i]@ + close);
                assert(out@[j]@.label == keys@[j]@ + close);
                assert(keys@[i]@ != keys@[j]@);
                if out@[i]@.label == out@[j]@.label {
                    strutil::lemma_append_right_injective(keys@[i]@, keys@[j]@, close);
                }
            }
        }
        out
    } else {
        Vec::new()
    }
}

/// The closing marker appended to an offered include when the line has
/// none yet.
pub fn get_optional_clonse_statement(line: String) -> (r: &'static str)
    ensures
        strutil::spec_contains(line@, "/}"@) ==> r@ == ""@,
        !strutil::spec_contains(line@, "/}"@) ==> r@ == " /}"@,
{
    if strutil::contains_str(line.as_str(), "/}") {
        ""
    } else {
        " /}"
    }
}

} // verus!
