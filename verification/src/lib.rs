//! Structural analysis engine for a Qute-style templating language server:
//! route extraction from annotated Java sources, fragment indexing over
//! template files, placeholder-aware path matching, element-based
//! extraction refactorings, and completion.

use vstd::prelude::*;
use vstd::string::StringExecFns;

pub mod commandargs;
pub mod complete;
pub mod completion;
pub mod config;
pub mod document;
pub mod fragment;
pub mod html_utils;
pub mod index;
pub mod lsp;
pub mod parser;
pub mod route;
pub mod route_completion;
pub mod route_definition;
pub mod strutil;
pub mod treesitter;

verus! {

/// The fixed template root, relative to the workspace.
pub fn get_templates_folder() -> (r: &'static str)
    ensures
        r@ == "./src/main/resources/templates/"@,
{
    "./src/main/resources/templates/"
}

/// The file path a template reference names: the template root, the
/// reference and the markup extension; the caller resolves it on disk.
pub fn template_reverence_candidate(reverence: &str, templates_folder: &str) -> (r: String)
    ensures
        r@ == templates_folder@ + reverence@ + ".html"@,
{
    let mut out = String::new();
    out.append(templates_folder);
    out.append(reverence);
    out.append(".html");
    out
}

} // verus!
