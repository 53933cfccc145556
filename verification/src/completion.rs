//! Keyword completion: a fixed table of Qute section snippets, filtered by
//! the short window of text just typed before the caret.

use vstd::prelude::*;
use vstd::string::StrSliceExecFns;

use crate::lsp::CompletionItem;
use crate::lsp::CompletionItemView;
use crate::strutil;
use crate::strutil::spec_contains;
use crate::strutil::spec_starts_with;
use crate::strutil::spec_trim;
use crate::strutil::spec_trim_start_lower_or_space;

verus! {

/// The Qute keywords the engine can complete.
#[derive(Debug, Clone, Copy, PartialEq, Eq, Structural)]
pub enum Keyword {
    Comment,
    Variable,
    DoubleVariable,
    ForLoop,
    Each,
    Let,
    If,
    Else,
    When,
    Is,
    IsIn,
    Switch,
    Case,
    With,
    Include,
    Fragment,
    Cached,
}

/// The snippet each keyword completes to.
pub open spec fn spec_keyword_complete(k: Keyword) -> Seq<char> {
    match k {
        Keyword::Comment => "{! $0 !}"@,
        Keyword::Variable => "{ $0 }"@,
        Keyword::DoubleVariable => "{{ $0 }}"@,
        Keyword::ForLoop => "{#for $1 in $2}\n$0\n{/for}"@,
        Keyword::Each => "{#each items}\n$0\n{/each}"@,
        Keyword::Let => "{#let key=value}\n$0\n{/let}"@,
        Keyword::If => "{#if condition}\n$0\n{/if}"@,
        Keyword::Else => "{#else}$0"@,
        Keyword::When => "{#when $1}\n$0\n{/when}"@,
        Keyword::Is => "{#is $1}$0"@,
        Keyword::IsIn => "{#is in $1}$0"@,
        Keyword::Switch => "{#switch $1}\n$0\n{/switch}"@,
        Keyword::Case => "{#case $1}$0"@,
        Keyword::With => "{#with $1}\n$0\n{/with}"@,
        Keyword::Include => "{#include $1 /}$0"@,
        Keyword::Fragment => "{#fragment id=$1} \n${0:<h1>Fragment works</h1>}\n{/fragment}"@,
        Keyword::Cached => "{#cached}$0{/cached}"@,
    }
}

/// The documentation line of each keyword.
pub open spec fn spec_keyword_detail(k: Keyword) -> Seq<char> {
    match k {
        Keyword::Comment => "The content of a comment is completely ignored when rendering the output."@,
        Keyword::Variable => "Render value."@,
        Keyword::DoubleVariable => "Render value."@,
        Keyword::ForLoop => "Go throw array"@,
        Keyword::Each => "Go throw list. The value will be assigned to \"it\""@,
        Keyword::Let => "Define a variable in scope"@,
        Keyword::If => "Condition"@,
        Keyword::Else => "Else"@,
        Keyword::When => "A java switch like scructure"@,
        Keyword::Is => "Condition inside of when"@,
        Keyword::IsIn => "In condition inside of when"@,
        Keyword::Switch => "A java switch like scructure"@,
        Keyword::Case => "A case statement inside of switch"@,
        Keyword::With => "This section can be used to set the current context object"@,
        Keyword::Include => "Include from other templates"@,
        Keyword::Fragment => "A fragment represents a part of the template that can be treated as a separate template, i.e. rendered separately."@,
        Keyword::Cached => "Cashable section"@,
    }
}

impl Keyword {
    /// The snippet inserted for this keyword.
    pub fn complete(&self) -> (r: &'static str)
        ensures
            r@ == spec_keyword_complete(*self),
    {
        match self {
            Keyword::Comment => "{! $0 !}",
            Keyword::Variable => "{ $0 }",
            Keyword::DoubleVariable => "{{ $0 }}",
            Keyword::ForLoop => "{#for $1 in $2}\n$0\n{/for}",
            Keyword::Each => "{#each items}\n$0\n{/each}",
            Keyword::Let => "{#let key=value}\n$0\n{/let}",
            Keyword::If => "{#if condition}\n$0\n{/if}",
            Keyword::Else => "{#else}$0",
            Keyword::When => "{#when $1}\n$0\n{/when}",
            Keyword::Is => "{#is $1}$0",
            Keyword::IsIn => "{#is in $1}$0",
            Keyword::Switch => "{#switch $1}\n$0\n{/switch}",
            Keyword::Case => "{#case $1}$0",
            Keyword::With => "{#with $1}\n$0\n{/with}",
            Keyword::Include => "{#include $1 /}$0",
            Keyword::Fragment => "{#fragment id=$1} \n${0:<h1>Fragment works</h1>}\n{/fragment}",
            Keyword::Cached => "{#cached}$0{/cached}",
        }
    }

    /// The documentation line of this keyword.
    pub fn detail(&self) -> (r: &'static str)
        ensures
            r@ == spec_keyword_detail(*self),
    {
        match self {
            Keyword::Comment => "The content of a comment is completely ignored when rendering the output.",
            Keyword::Variable => "Render value.",
            Keyword::DoubleVariable => "Render value.",
            Keyword::ForLoop => "Go throw array",
            Keyword::Each => "Go throw list. The value will be assigned to \"it\"",
            Keyword::Let => "Define a variable in scope",
            Keyword::If => "Condition",
            Keyword::Else => "Else",
            Keyword::When => "A java switch like scructure",
            Keyword::Is => "Condition inside of when",
            Keyword::IsIn => "In condition inside of when",
            Keyword::Switch => "A java switch like scructure",
            Keyword::Case => "A case statement inside of switch",
            Keyword::With => "This section can be used to set the current context object",
            Keyword::Include => "Include from other templates",
            Keyword::Fragment => "A fragment represents a part of the template that can be treated as a separate template, i.e. rendered separately.",
            Keyword::Cached => "Cashable section",
        }
    }
}

/// All keywords, in the order they are offered.
pub open spec fn spec_keyword_list() -> Seq<Keyword> {
    seq![
        Keyword::Comment,
        Keyword::Variable,
        Keyword::DoubleVariable,
        Keyword::ForLoop,
        Keyword::Each,
        Keyword::Let,
        Keyword::If,
        Keyword::Else,
        Keyword::When,
        Keyword::Is,
        Keyword::IsIn,
        Keyword::Switch,
        Keyword::Case,
        Keyword::With,
        Keyword::Include,
        Keyword::Fragment,
        Keyword::Cached,
    ]
}

fn keyword_list() -> (r: Vec<Keyword>)
    ensures
        r@ == spec_keyword_list(),
{
    let r = vec![
        Keyword::Comment,
        Keyword::Variable,
        Keyword::DoubleVariable,
        Keyword::ForLoop,
        Keyword::Each,
        Keyword::Let,
        Keyword::If,
        Keyword::Else,
        Keyword::When,
        Keyword::Is,
        Keyword::IsIn,
        Keyword::Switch,
        Keyword::Case,
        Keyword::With,
        Keyword::Include,
        Keyword::Fragment,
        Keyword::Cached,
    ];
    proof {
        assert(r@ =~= spec_keyword_list());
    }
    r
}

/// The item offered for keyword `k` when the typed window is `w`: the whole
/// snippet, with the part of it already typed cut from the insert text.
pub open spec fn spec_keyword_item(k: Keyword, w: Seq<char>) -> CompletionItemView {
    let snip = spec_keyword_complete(k);
    CompletionItemView {
        label: snip,
        detail: Some(spec_keyword_detail(k)),
        insert_text: Some(
            if spec_starts_with(snip, w) {
                snip.skip(w.len() as int)
            } else {
                snip
            },
        ),
        snippet: true,
    }
}

/// The items offered from the keywords `ks` for the typed window `w`: one
/// for each keyword whose snippet contains `w`, in table order.
pub open spec fn spec_keyword_items(ks: Seq<Keyword>, w: Seq<char>) -> Seq<CompletionItemView>
    decreases ks.len(),
{
    if ks.len() == 0 {
        Seq::<CompletionItemView>::empty()
    } else {
        let head = if spec_contains(spec_keyword_complete(ks[0]), w) {
            seq![spec_keyword_item(ks[0], w)]
        } else {
            Seq::<CompletionItemView>::empty()
        };
        head + spec_keyword_items(ks.drop_first(), w)
    }
}

/// The trimmed window of at most three characters before the caret.
pub open spec fn spec_chars_before(line: Seq<char>, char_pos: int) -> Seq<char> {
    let p = if char_pos <= line.len() {
        char_pos
    } else {
        line.len() as int
    };
    let start = if p >= 3 {
        p - 3
    } else {
        0
    };
    line.subrange(start, p)
}

/// Up to the three characters before the caret.
pub fn get_characters_before(line: String, char_pos: usize) -> (r: String)
    ensures
        r@ == spec_chars_before(line@, char_pos as int),
{
    let n = line.as_str().unicode_len();
    let p = if char_pos <= n {
        char_pos
    } else {
        n
    };
    let start = if p >= 3 {
        p - 3
    } else {
        0
    };
    line.as_str().substring_char(start, p).to_owned()
}

/// The completion window derived from the caret context: the short trailing
/// window, trimmed, with typed lower-case letters and blanks dropped from
/// its front.
pub open spec fn spec_completion_window(line: Seq<char>, char_pos: int) -> Seq<char> {
    spec_trim_start_lower_or_space(spec_trim(spec_chars_before(line, char_pos)))
}

/// Keyword completion: every snippet containing the trimmed window before
/// the caret, offered in table order, with an already-typed prefix cut from
/// the insert text.
pub fn completion(line: String, char_pos: usize) -> (r: Vec<CompletionItem>)
    ensures
        r@.map_values(|c: CompletionItem| c@) == spec_keyword_items(
            spec_keyword_list(),
            spec_completion_window(line@, char_pos as int),
        ),
{
    let chars = get_characters_before(line, char_pos);
    let t = strutil::trim(chars.as_str());
    let window = strutil::trim_start_lower_or_space(t.as_str());

    let kws = keyword_list();
    let ghost w = spec_completion_window(line@, char_pos as int);
    let mut out: Vec<CompletionItem> = Vec::new();
    let mut i: usize = 0;
    proof {
        assert(spec_keyword_list().skip(0) =~= spec_keyword_list());
        assert(out@.map_values(|c: CompletionItem| c@) =~= Seq::<CompletionItemView>::empty());
    }
    while i < kws.len()
        invariant
            kws@ == spec_keyword_list(),
            window@ == w,
            0 <= i <= kws@.len(),
            spec_keyword_items(spec_keyword_list(), w) == out@.map_values(|c: CompletionItem| c@)
                + spec_keyword_items(spec_keyword_list().skip(i as int), w),
        decreases kws@.len() - i,
    {
        let k = kws[i];
        let snippet = k.complete();
        proof {
            assert(spec_keyword_list().skip(i as int)[0] == k);
            assert(spec_keyword_list().skip(i as int).drop_first() =~= spec_keyword_list().skip(
                i as int + 1,
            ));
        }
        if strutil::contains_str(snippet, window.as_str()) {
            let n = snippet.unicode_len();
            let wl = window.as_str().unicode_len();
            let insert = if strutil::starts_with_str(snippet, window.as_str()) {
                let suffix = snippet.substring_char(wl, n);
                proof {
                    assert(snippet@.subrange(wl as int, n as int) =~= snippet@.skip(wl as int));
                }
                suffix.to_owned()
            } else {
                snippet.to_owned()
            };
            let item = CompletionItem {
                label: snippet.to_owned(),
                detail: Some(k.detail().to_owned()),
                insert_text: Some(insert),
                snippet: true,
            };
            let ghost prev = out@;
            out.push(item);
            proof {
                assert(out@.map_values(|c: CompletionItem| c@) =~= prev.map_values(
                    |c: CompletionItem| c@,
                ) + seq![item@]);
            }
        }
        i = i + 1;
    }
    proof {
        assert(spec_keyword_list().skip(kws@.len() as int) =~= Seq::<Keyword>::empty());
        assert(out@.map_values(|c: CompletionItem| c@) + Seq::<CompletionItemView>::empty()
            =~= out@.map_values(|c: CompletionItem| c@));
    }
    out
}

} // verus!
