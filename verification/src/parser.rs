//! Parsing of Qute include references.
//!
//! An include reference looks like `{#include <template>[$<fragment>]
//! [<attr>=<value> ...][/] }` or bare `{#include <template>}`; parsing is
//! lenient about missing closing markers.

use vstd::prelude::*;

use crate::strutil;
use crate::strutil::spec_find;
use crate::strutil::spec_remove_char;
use crate::strutil::spec_trim;

verus! {

/// An include reference: either a whole template or one fragment of it.
#[derive(Debug, PartialEq)]
pub enum QuteInclude {
    Basic(String),
    Fragment(QuteIncludeFragement),
}

/// A fragment-kind include reference: template name and fragment id.
#[derive(Debug, PartialEq)]
pub struct QuteIncludeFragement {
    pub template: String,
    pub fragment: String,
}

/// The mathematical shape of an include reference.
pub enum IncludeView {
    Basic(Seq<char>),
    Fragment(Seq<char>, Seq<char>),
}

impl View for QuteIncludeFragement {
    type V = IncludeView;

    open spec fn view(&self) -> IncludeView {
        IncludeView::Fragment(self.template@, self.fragment@)
    }
}

impl View for QuteInclude {
    type V = IncludeView;

    open spec fn view(&self) -> IncludeView {
        match self {
            QuteInclude::Basic(name) => IncludeView::Basic(name@),
            QuteInclude::Fragment(f) => f@,
        }
    }
}

/// What `parse_include` returns on the trimmed line `l`: the first token
/// after the first include marker, cut at the first blank; a `$` inside
/// that token splits it into template and fragment, while a `$` later on
/// the line (inside an attribute value) is plain text. Without any blank
/// the token runs to the end of the line, with `}` removed.
pub open spec fn spec_parse_include(l: Seq<char>) -> Option<IncludeView> {
    let t = spec_trim(l);
    let marker = "{#include "@;
    match spec_find(t, marker) {
        None => None,
        Some(k) => {
            let rest = t.skip(k + marker.len());
            match spec_find(rest, " "@) {
                None => Some(IncludeView::Basic(spec_remove_char(rest, '}'))),
                Some(b) => {
                    let template = rest.take(b);
                    match spec_find(template, "$"@) {
                        Some(d) => Some(
                            IncludeView::Fragment(
                                template.take(d),
                                template.skip(d + "$"@.len()),
                            ),
                        ),
                        None => Some(IncludeView::Basic(template)),
                    }
                },
            }
        },
    }
}

/// This will return the template name for an include section.
pub fn parse_include(line: String) -> (r: Option<QuteInclude>)
    ensures
        r is Some <==> spec_parse_include(line@) is Some,
        r matches Some(q) ==> Some(q@) == spec_parse_include(line@),
{
    let trimmed = strutil::trim(line.as_str());
    let Some((_before, rest)) = strutil::split_once_str(trimmed.as_str(), "{#include ") else {
        // Not an include line
        return None;
    };
    match strutil::split_once_str(rest.as_str(), " ") {
        None => {
            // In case of detail. With html params
            let name = strutil::remove_char(rest.as_str(), '}');
            Some(QuteInclude::Basic(name))
        },
        Some((template, _tail)) => {
            // In case of fragment: the separator counts only inside the token
            match strutil::split_once_str(template.as_str(), "$") {
                Some((template2, fragment)) => Some(
                    QuteInclude::Fragment(QuteIncludeFragement { template: template2, fragment }),
                ),
                None => Some(QuteInclude::Basic(template)),
            }
        },
    }
}

} // verus!
