//! Routes extracted from annotated Java resources: the data model, the
//! class/method merge rule, placeholder-derived parameters and the fixed
//! annotation vocabulary.

use vstd::prelude::*;
use vstd::string::StrSliceExecFns;
use vstd::string::StringExecFns;

use crate::lsp::to_lsp_position;
use crate::lsp::Location;
use crate::lsp::LspRange;
use crate::strutil;
use crate::treesitter::cursor_goto_first_child;
use crate::treesitter::cursor_goto_next_sibling;
use crate::treesitter::cursor_goto_parent;
use crate::treesitter::cursor_node;
use crate::treesitter::node_kind;
use crate::treesitter::node_start_position;
use crate::treesitter::node_text;
use crate::treesitter::parse_java;
use crate::treesitter::tree_walk;

verus! {

/// One HTTP endpoint extracted from source annotations.
#[derive(Debug, Clone, PartialEq)]
pub struct Route {
    pub implementation: Option<Location>,
    pub method: HttpMethod,
    /// A full String specification of the path
    pub path: String,
    /// Specifies an array of classpaths that are expected. In generic route elements
    pub parameters: Vec<Parameter>,
    pub produces_type: MediaType,
}

/// The media types of the fixed `Produces` vocabulary.
#[derive(Debug, Clone, Copy, PartialEq, Eq, Structural)]
pub enum MediaType {
    ApplicationAtomXml,
    ApplicationFormUrlencoded,
    ApplicationJson,
    ApplicationJsonPatchJson,
    ApplicationOctetStream,
    ApplicationSvgXml,
    ApplicationXhtmlXml,
    ApplicationXml,
    MultipartFormData,
    ServerSentEvents,
    TextHtml,
    TextPlain,
    TextXml,
}

/// The HTTP verbs of the fixed annotation vocabulary.
#[derive(Debug, Clone, Copy, PartialEq, Eq, Structural)]
pub enum HttpMethod {
    Get,
    Head,
    Post,
    Put,
    Delete,
    Options,
    Trace,
    Patch,
}

/// A path parameter of a route.
#[derive(Debug, Clone, PartialEq)]
pub struct Parameter {
    pub name: String,
    pub java_type: ParameterType,
}

/// The declared type of a path parameter, from a fixed three-entry table,
/// any other spelling kept as it stands.
#[derive(Debug, Clone, PartialEq)]
pub enum ParameterType {
    String,
    Int,
    Long,
    Unknown(String),
}

/// The base path with `other` appended: a trailing slash on the base is
/// trimmed before concatenation.
pub open spec fn spec_append_path(base: Seq<char>, other: Seq<char>) -> Seq<char> {
    if base.len() > 0 && base.last() == '/' {
        base.drop_last() + other
    } else {
        base + other
    }
}

impl Route {
    /// Merge a method-level route onto this class-level base: method and
    /// produces are overridden by the more specific value, the paths are
    /// concatenated, the parameters unioned in order.
    pub fn append_to_base(self, other: Self) -> (r: Self)
        ensures
            r.method == other.method,
            r.produces_type == other.produces_type,
            r.implementation == self.implementation,
            r.path@ == spec_append_path(self.path@, other.path@),
            r.parameters@ == self.parameters@ + other.parameters@,
    {
        let mut merged = self;
        merged.method = other.method;
        if strutil::ends_with_char(merged.path.as_str(), '/') {
            let n = merged.path.as_str().unicode_len();
            let base = merged.path.as_str().substring_char(0, n - 1).to_owned();
            proof {
                assert(base@ =~= merged.path@.drop_last());
            }
            merged.path = base.concat(other.path.as_str());
        } else {
            let joined = merged.path.concat(other.path.as_str());
            merged.path = joined;
        }
        let mut params = other.parameters;
        merged.parameters.append(&mut params);
        merged.produces_type = other.produces_type;
        merged
    }
}

impl Default for Route {
    /// An unannotated route: a GET of the empty path producing plain text.
    fn default() -> (r: Self)
        ensures
            r.implementation is None,
            r.method == HttpMethod::Get,
            r.path@ == Seq::<char>::empty(),
            r.parameters@ == Seq::<Parameter>::empty(),
            r.produces_type == MediaType::TextPlain,
    {
        Self {
            implementation: None,
            method: HttpMethod::Get,
            path: String::new(),
            parameters: Vec::new(),
            produces_type: MediaType::TextPlain,
        }
    }
}

/// The display name of an HTTP verb.
pub open spec fn spec_method_string(m: HttpMethod) -> Seq<char> {
    match m {
        HttpMethod::Get => "GET"@,
        HttpMethod::Head => "HEAD"@,
        HttpMethod::Post => "POST"@,
        HttpMethod::Put => "PUT"@,
        HttpMethod::Delete => "DELETE"@,
        HttpMethod::Options => "OPTIONS"@,
        HttpMethod::Trace => "TRACE"@,
        HttpMethod::Patch => "PATCH"@,
    }
}

impl HttpMethod {
    /// The display name of this verb.
    pub fn to_string(&self) -> (r: String)
        ensures
            r@ == spec_method_string(*self),
    {
        let s = match self {
            HttpMethod::Get => "GET",
            HttpMethod::Head => "HEAD",
            HttpMethod::Post => "POST",
            HttpMethod::Put => "PUT",
            HttpMethod::Delete => "DELETE",
            HttpMethod::Options => "OPTIONS",
            HttpMethod::Trace => "TRACE",
            HttpMethod::Patch => "PATCH",
        };
        s.to_owned()
    }
}

/// The display name of a parameter type.
pub open spec fn spec_param_type_string(t: ParameterType) -> Seq<char> {
    match t {
        ParameterType::String => "String"@,
        ParameterType::Int => "int"@,
        ParameterType::Long => "long"@,
        ParameterType::Unknown(u) => u@,
    }
}

impl ParameterType {
    /// The display name of this type.
    pub fn to_string(&self) -> (r: String)
        ensures
            r@ == spec_param_type_string(*self),
    {
        match self {
            ParameterType::String => "String".to_owned(),
            ParameterType::Int => "int".to_owned(),
            ParameterType::Long => "long".to_owned(),
            ParameterType::Unknown(t) => t.clone(),
        }
    }
}

/// The display form of a parameter: its type, a blank, its name.
pub open spec fn spec_param_string(p: Parameter) -> Seq<char> {
    spec_param_type_string(p.java_type) + " "@ + p.name@
}

impl Parameter {
    /// The display form of this parameter.
    pub fn to_string(&self) -> (r: String)
        ensures
            r@ == spec_param_string(*self),
    {
        let mut out = self.java_type.to_string();
        out.append(" ");
        out.append(self.name.as_str());
        out
    }
}

/// The parameter lines of a route summary, one per parameter, each opened
/// by a newline and a dash.
pub open spec fn spec_params_string(ps: Seq<Parameter>) -> Seq<char>
    decreases ps.len(),
{
    if ps.len() == 0 {
        Seq::<char>::empty()
    } else {
        "\n - "@ + spec_param_string(ps[0]) + spec_params_string(ps.drop_first())
    }
}

/// The summary of a route: verb, path and parameters.
pub open spec fn spec_route_string(r: Route) -> Seq<char> {
    spec_method_string(r.method) + ": "@ + r.path@ + "\n"@ + spec_params_string(r.parameters@)
}

impl Route {
    /// The summary shown as documentation beside a completed path.
    pub fn to_string(&self) -> (r: String)
        ensures
            r@ == spec_route_string(*self),
    {
        let mut params = String::new();
        let mut i: usize = 0;
        proof {
            assert(self.parameters@.skip(0) =~= self.parameters@);
        }
        while i < self.parameters.len()
            invariant
                0 <= i <= self.parameters@.len(),
                spec_params_string(self.parameters@) == params@ + spec_params_string(
                    self.parameters@.skip(i as int),
                ),
            decreases self.parameters@.len() - i,
        {
            proof {
                assert(self.parameters@.skip(i as int)[0] == self.parameters@[i as int]);
                assert(self.parameters@.skip(i as int).drop_first() =~= self.parameters@.skip(
                    i as int + 1,
                ));
            }
            let line = self.parameters[i].to_string();
            params.append("\n - ");
            params.append(line.as_str());
            i = i + 1;
        }
        proof {
            assert(self.parameters@.skip(self.parameters@.len() as int) =~= Seq::<
                Parameter,
            >::empty());
            assert(params@ + Seq::<char>::empty() =~= params@);
        }
        let mut out = self.method.to_string();
        out.append(": ");
        out.append(self.path.as_str());
        out.append("\n");
        out.append(params.as_str());
        out
    }
}

/// The parameter names a path seeds, scanned with the accumulator `name`:
/// a `{` restarts the accumulator, a `}` emits it, any other character
/// extends it.
pub open spec fn spec_init_param_names(s: Seq<char>, name: Seq<char>) -> Seq<Seq<char>>
    decreases s.len(),
{
    if s.len() == 0 {
        Seq::<Seq<char>>::empty()
    } else {
        let c = s[0];
        if c == '{' {
            spec_init_param_names(s.drop_first(), Seq::<char>::empty())
        } else if c == '}' {
            seq![name] + spec_init_param_names(s.drop_first(), name)
        } else {
            spec_init_param_names(s.drop_first(), name.push(c))
        }
    }
}

/// A parameter type that is the unknown type with the empty spelling.
pub open spec fn spec_is_unknown_empty(t: ParameterType) -> bool {
    t matches ParameterType::Unknown(u) && u@ == Seq::<char>::empty()
}

/// The parameters seeded from the `{name}` placeholders of `path`, each
/// with the unknown type.
pub fn initialise_paramters(path: &str) -> (r: Vec<Parameter>)
    ensures
        r@.map_values(|p: Parameter| p.name@) == spec_init_param_names(
            path@,
            Seq::<char>::empty(),
        ),
        forall|i: int| 0 <= i < r@.len() ==> #[trigger] spec_is_unknown_empty(r@[i].java_type),
{
    let n = path.unicode_len();
    let mut out: Vec<Parameter> = Vec::new();
    let mut name = String::new();
    let mut i: usize = 0;
    proof {
        assert(path@.skip(0) =~= path@);
        assert(out@.map_values(|p: Parameter| p.name@) =~= Seq::<Seq<char>>::empty());
    }
    while i < n
        invariant
            n == path@.len(),
            0 <= i <= n,
            spec_init_param_names(path@, Seq::<char>::empty()) == out@.map_values(
                |p: Parameter| p.name@,
            ) + spec_init_param_names(path@.skip(i as int), name@),
            forall|j: int| 0 <= j < out@.len() ==> #[trigger] spec_is_unknown_empty(
                out@[j].java_type,
            ),
        decreases n - i,
    {
        let c = path.get_char(i);
        proof {
            assert(path@.skip(i as int)[0] == c);
            assert(path@.skip(i as int).drop_first() =~= path@.skip(i as int + 1));
        }
        if c == '{' {
            name = String::new();
        } else if c == '}' {
            let ghost prev = out@;
            let p = Parameter { name: name.clone(), java_type: ParameterType::Unknown(String::new()) };
            out.push(p);
            proof {
                assert(out@.map_values(|p: Parameter| p.name@) =~= prev.map_values(
                    |p: Parameter| p.name@,
                ) + seq![name@]);
                assert((prev.map_values(|p: Parameter| p.name@) + seq![name@])
                    + spec_init_param_names(path@.skip(i as int + 1), name@) =~= prev.map_values(
                    |p: Parameter| p.name@,
                ) + (seq![name@] + spec_init_param_names(path@.skip(i as int + 1), name@)));
            }
        } else {
            let piece = path.substring_char(i, i + 1);
            proof {
                assert(name@ + piece@ =~= name@.push(c));
            }
            name.append(piece);
        }
        i = i + 1;
    }
    proof {
        assert(path@.skip(n as int) =~= Seq::<char>::empty());
        assert(out@.map_values(|p: Parameter| p.name@) + Seq::<Seq<char>>::empty()
            =~= out@.map_values(|p: Parameter| p.name@));
    }
    out
}

/// The media type a `Produces` constant names, if it is in the vocabulary.
pub open spec fn spec_parse_media_type(s: Seq<char>) -> Option<MediaType> {
    if s == "APPLICATION_XML"@ {
        Some(MediaType::ApplicationXml)
    } else if s == "APPLICATION_ATOM_XML"@ {
        Some(MediaType::ApplicationAtomXml)
    } else if s == "APPLICATION_XHTML_XML"@ {
        Some(MediaType::ApplicationXhtmlXml)
    } else if s == "APPLICATION_SVG_XML"@ {
        Some(MediaType::ApplicationSvgXml)
    } else if s == "APPLICATION_JSON"@ {
        Some(MediaType::ApplicationJson)
    } else if s == "APPLICATION_FORM_URLENCODED"@ {
        Some(MediaType::ApplicationFormUrlencoded)
    } else if s == "MULTIPART_FORM_DATA"@ {
        Some(MediaType::MultipartFormData)
    } else if s == "APPLICATION_OCTET_STREAM"@ {
        Some(MediaType::ApplicationOctetStream)
    } else if s == "TEXT_PLAIN"@ {
        Some(MediaType::TextPlain)
    } else if s == "TEXT_XML"@ {
        Some(MediaType::TextXml)
    } else if s == "TEXT_HTML"@ {
        Some(MediaType::TextHtml)
    } else if s == "SERVER_SENT_EVENTS"@ {
        Some(MediaType::ServerSentEvents)
    } else if s == "APPLICATION_JSON_PATCH_JSON"@ {
        Some(MediaType::ApplicationJsonPatchJson)
    } else {
        None
    }
}

/// The media type a `Produces` constant names.
pub fn parse_jakarta_media_type(annotation_name: &str) -> (r: Option<MediaType>)
    ensures
        r == spec_parse_media_type(annotation_name@),
{
    if strutil::str_eq(annotation_name, "APPLICATION_XML") {
        Some(MediaType::ApplicationXml)
    } else if strutil::str_eq(annotation_name, "APPLICATION_ATOM_XML") {
        Some(MediaType::ApplicationAtomXml)
    } else if strutil::str_eq(annotation_name, "APPLICATION_XHTML_XML") {
        Some(MediaType::ApplicationXhtmlXml)
    } else if strutil::str_eq(annotation_name, "APPLICATION_SVG_XML") {
        Some(MediaType::ApplicationSvgXml)
    } else if strutil::str_eq(annotation_name, "APPLICATION_JSON") {
        Some(MediaType::ApplicationJson)
    } else if strutil::str_eq(annotation_name, "APPLICATION_FORM_URLENCODED") {
        Some(MediaType::ApplicationFormUrlencoded)
    } else if strutil::str_eq(annotation_name, "MULTIPART_FORM_DATA") {
        Some(MediaType::MultipartFormData)
    } else if strutil::str_eq(annotation_name, "APPLICATION_OCTET_STREAM") {
        Some(MediaType::ApplicationOctetStream)
    } else if strutil::str_eq(annotation_name, "TEXT_PLAIN") {
        Some(MediaType::TextPlain)
    } else if strutil::str_eq(annotation_name, "TEXT_XML") {
        Some(MediaType::TextXml)
    } else if strutil::str_eq(annotation_name, "TEXT_HTML") {
        Some(MediaType::TextHtml)
    } else if strutil::str_eq(annotation_name, "SERVER_SENT_EVENTS") {
        Some(MediaType::ServerSentEvents)
    } else if strutil::str_eq(annotation_name, "APPLICATION_JSON_PATCH_JSON") {
        Some(MediaType::ApplicationJsonPatchJson)
    } else {
        None
    }
}

/// The HTTP verb a marker annotation names, if it is in the vocabulary.
pub open spec fn spec_parse_http_method(s: Seq<char>) -> Option<HttpMethod> {
    if s == "GET"@ {
        Some(HttpMethod::Get)
    } else if s == "HEAD"@ {
        Some(HttpMethod::Head)
    } else if s == "POST"@ {
        Some(HttpMethod::Post)
    } else if s == "PUT"@ {
        Some(HttpMethod::Put)
    } else if s == "DELETE"@ {
        Some(HttpMethod::Delete)
    } else if s == "OPTIONS"@ {
        Some(HttpMethod::Options)
    } else if s == "TRACE"@ {
        Some(HttpMethod::Trace)
    } else if s == "PATCH"@ {
        Some(HttpMethod::Patch)
    } else {
        None
    }
}

/// The HTTP verb a marker annotation names.
pub fn parse_jakarta_http_method_annotation_name(annotation_name: &str) -> (r: Option<HttpMethod>)
    ensures
        r == spec_parse_http_method(annotation_name@),
{
    if strutil::str_eq(annotation_name, "GET") {
        Some(HttpMethod::Get)
    } else if strutil::str_eq(annotation_name, "HEAD") {
        Some(HttpMethod::Head)
    } else if strutil::str_eq(annotation_name, "POST") {
        Some(HttpMethod::Post)
    } else if strutil::str_eq(annotation_name, "PUT") {
        Some(HttpMethod::Put)
    } else if strutil::str_eq(annotation_name, "DELETE") {
        Some(HttpMethod::Delete)
    } else if strutil::str_eq(annotation_name, "OPTIONS") {
        Some(HttpMethod::Options)
    } else if strutil::str_eq(annotation_name, "TRACE") {
        Some(HttpMethod::Trace)
    } else if strutil::str_eq(annotation_name, "PATCH") {
        Some(HttpMethod::Patch)
    } else {
        None
    }
}

/// The parameter type a Java spelling names: the three known types, any
/// other spelling kept as an unknown.
pub fn parse_java_type_for_param(ty: &str) -> (r: Option<ParameterType>)
    ensures
        r is Some,
        ty@ == "String"@ ==> r == Some(ParameterType::String),
        ty@ == "int"@ ==> r == Some(ParameterType::Int),
        ty@ == "long"@ ==> r == Some(ParameterType::Long),
        ty@ != "String"@ && ty@ != "int"@ && ty@ != "long"@ ==> (r matches Some(
            ParameterType::Unknown(u),
        ) && u@ == ty@),
{
    proof {
        reveal_strlit("String");
        reveal_strlit("int");
        reveal_strlit("long");
        assert("String"@.len() == 6);
        assert("int"@.len() == 3);
        assert("long"@.len() == 4);
    }
    if strutil::str_eq(ty, "String") {
        Some(ParameterType::String)
    } else if strutil::str_eq(ty, "int") {
        Some(ParameterType::Int)
    } else if strutil::str_eq(ty, "long") {
        Some(ParameterType::Long)
    } else {
        Some(ParameterType::Unknown(ty.to_owned()))
    }
}


/// Every route of `rs` is without a recorded implementation location.
pub open spec fn spec_all_impl_none(rs: Seq<Route>) -> bool {
    forall|i: int| 0 <= i < rs.len() ==> (#[trigger] rs[i]).implementation is None
}

proof fn lemma_all_impl_none_concat(a: Seq<Route>, b: Seq<Route>)
    requires
        spec_all_impl_none(a),
        spec_all_impl_none(b),
    ensures
        spec_all_impl_none(a + b),
{
    assert forall|i: int| 0 <= i < (a + b).len() implies (#[trigger] (a + b)[i]).implementation
        is None by {
        if i < a.len() {
            assert((a + b)[i] == a[i]);
        } else {
            assert((a + b)[i] == b[i - a.len()]);
        }
    }
}

/// Relies on tower_lsp::lsp_types::Url::from_file_path (the url crate's
/// conversion of a file path to a file uri): it fails on a path that is
/// not absolute, so an empty path never converts.
#[verifier::external_body]
fn url_from_file_path(path: &str) -> (r: Option<String>)
    ensures
        path@.len() == 0 ==> r is None,
{
    match tower_lsp::lsp_types::Url::from_file_path(path) {
        Ok(url) => Some(url.to_string()),
        Err(_) => None,
    }
}

/// Cursor navigation that transparently skips comment nodes interposed
/// between siblings, so comments are never mistaken for declarations.
pub trait CommentSkiper {
    fn parent(&mut self) -> bool;

    fn sibling(&mut self) -> bool;

    fn first_child(&mut self) -> bool;
}

/// Step over consecutive comment nodes at the cursor; false when the
/// siblings end inside a comment run.
pub fn skip_comments(cursor: &mut tree_sitter::TreeCursor<'_>) -> bool {
    let mut fuel: usize = usize::MAX;
    loop
        decreases fuel,
    {
        let node = cursor_node(cursor);
        let kind = node_kind(&node);
        if strutil::str_eq(kind, "block_comment") || strutil::str_eq(kind, "line_comment") {
            if !cursor_goto_next_sibling(cursor) {
                return false;
            }
        } else {
            return true;
        }
        if fuel == 0 {
            return false;
        }
        fuel = fuel - 1;
    }
}

impl CommentSkiper for tree_sitter::TreeCursor<'_> {
    fn parent(&mut self) -> bool {
        if cursor_goto_parent(self) {
            return skip_comments(self);
        }
        false
    }

    fn sibling(&mut self) -> bool {
        if cursor_goto_next_sibling(self) {
            return skip_comments(self);
        }
        false
    }

    fn first_child(&mut self) -> bool {
        if cursor_goto_first_child(self) {
            return skip_comments(self);
        }
        false
    }
}

/// Step over the leading package and import declarations of a file.
pub fn skip_head(cursor: &mut tree_sitter::TreeCursor<'_>) {
    let mut fuel: usize = usize::MAX;
    loop
        decreases fuel,
    {
        let node = cursor_node(cursor);
        let kind = node_kind(&node);
        if strutil::str_eq(kind, "package_declaration") || strutil::str_eq(
            kind,
            "import_declaration",
        ) {
            cursor.sibling();
        } else {
            return ;
        }
        if fuel == 0 {
            return ;
        }
        fuel = fuel - 1;
    }
}

fn clone_param_type(t: &ParameterType) -> (r: ParameterType)
    ensures
        r == *t,
{
    match t {
        ParameterType::String => ParameterType::String,
        ParameterType::Int => ParameterType::Int,
        ParameterType::Long => ParameterType::Long,
        ParameterType::Unknown(s) => ParameterType::Unknown(s.clone()),
    }
}

/// Refine in place every parameter whose name matches `name`: it takes the
/// declared type, every other parameter keeps its own; names, their order
/// and everything else of the route are untouched.
fn update_parameter_types(route: &mut Route, name: &str, java_type: &ParameterType)
    ensures
        final(route).implementation == old(route).implementation,
        final(route).method == old(route).method,
        final(route).path == old(route).path,
        final(route).produces_type == old(route).produces_type,
        final(route).parameters@.len() == old(route).parameters@.len(),
        forall|i: int|
            0 <= i < final(route).parameters@.len() ==> (#[trigger] final(route).parameters@[i]).name@
                == old(route).parameters@[i].name@,
        forall|i: int|
            0 <= i < final(route).parameters@.len() ==> (#[trigger] final(route).parameters@[i]).java_type
                == (if old(route).parameters@[i].name@ == name@ {
                    *java_type
                } else {
                    old(route).parameters@[i].java_type
                }),
{
    let mut updated: Vec<Parameter> = Vec::new();
    let mut j: usize = 0;
    while j < route.parameters.len()
        invariant
            0 <= j <= route.parameters@.len(),
            updated@.len() == j,
            *route == *old(route),
            forall|i: int|
                0 <= i < j ==> (#[trigger] updated@[i]).name@ == route.parameters@[i].name@,
            forall|i: int|
                0 <= i < j ==> (#[trigger] updated@[i]).java_type == (
                if route.parameters@[i].name@ == name@ {
                    *java_type
                } else {
                    route.parameters@[i].java_type
                }),
        decreases route.parameters@.len() - j,
    {
        let p_name = route.parameters[j].name.clone();
        let matches_name = strutil::str_eq(p_name.as_str(), name);
        let new_type = if matches_name {
            clone_param_type(java_type)
        } else {
            clone_param_type(&route.parameters[j].java_type)
        };
        updated.push(Parameter { name: p_name, java_type: new_type });
        j = j + 1;
    }
    route.parameters = updated;
}

/// Inspect one run of modifier siblings, folding every recognized
/// annotation into `route`; true when any annotation changed it, and the
/// route untouched when none did. The recorded implementation location is
/// untouched either way.
pub fn analyse_modifier(
    route: &mut Route,
    content: &str,
    cursor: &mut tree_sitter::TreeCursor<'_>,
) -> (changed: bool)
    ensures
        final(route).implementation == old(route).implementation,
        !changed ==> *final(route) == *old(route),
{
    let mut changed = false;
    let mut fuel: usize = usize::MAX;
    loop
        invariant
            route.implementation == old(route).implementation,
            !changed ==> *route == *old(route),
        decreases fuel,
    {
        let node = cursor_node(cursor);
        let kind = node_kind(&node);
        if strutil::str_eq(kind, "annotation") {
            cursor.first_child();
            cursor.sibling();
            let name_node = cursor_node(cursor);
            match node_text(&name_node, content) {
                Some(name) => {
                    if strutil::str_eq(name.as_str(), "Path") {
                        cursor.sibling();
                        cursor.first_child();
                        cursor.sibling();
                        cursor.first_child();
                        cursor.sibling();
                        let path_node = cursor_node(cursor);
                        if let Some(path) = node_text(&path_node, content) {
                            route.path.append(path.as_str());
                            changed = true;
                            let mut params = initialise_paramters(path.as_str());
                            route.parameters.append(&mut params);
                        }
                        cursor.parent();
                        cursor.parent();
                    } else if strutil::str_eq(name.as_str(), "Produces") {
                        cursor.sibling();
                        cursor.first_child();
                        cursor.sibling();
                        cursor.first_child();
                        cursor.sibling();
                        cursor.sibling();
                        let produces_node = cursor_node(cursor);
                        if let Some(produces) = node_text(&produces_node, content) {
                            if let Some(media_type) = parse_jakarta_media_type(produces.as_str()) {
                                route.produces_type = media_type;
                                changed = true;
                            }
                        }
                        cursor.parent();
                        cursor.parent();
                    }
                },
                None => {},
            }
            cursor.parent();
        } else if strutil::str_eq(kind, "marker_annotation") {
            cursor.first_child();
            cursor.sibling();
            let name_node = cursor_node(cursor);
            if let Some(annotation_name) = node_text(&name_node, content) {
                if let Some(jakarta_method) = parse_jakarta_http_method_annotation_name(
                    annotation_name.as_str(),
                ) {
                    route.method = jakarta_method;
                    changed = true;
                }
            }
            cursor.parent();
        }
        if !cursor.sibling() {
            return changed;
        }
        if fuel == 0 {
            return changed;
        }
        fuel = fuel - 1;
    }
}

/// The route the modifiers at the cursor declare, built from the default:
/// present only when some annotation changed it, and always without an
/// implementation location.
pub fn analyse_modifiers(content: &str, cursor: &mut tree_sitter::TreeCursor<'_>) -> (r: Option<
    Route,
>)
    ensures
        r matches Some(route) ==> route.implementation is None,
{
    let node = cursor_node(cursor);
    if !strutil::str_eq(node_kind(&node), "modifiers") {
        return None;
    }
    cursor.first_child();
    let mut out = Route::default();
    if analyse_modifier(&mut out, content, cursor) {
        return Some(out);
    }
    None
}

/// Walk into the formal parameters at the cursor and refine each route
/// parameter a path-parameter annotation names; the route's verb, path,
/// media type and location, and every parameter name and position, are
/// kept.
pub fn analyse_method_parameters(
    route: &mut Route,
    content: &str,
    cursor: &mut tree_sitter::TreeCursor<'_>,
)
    ensures
        final(route).implementation == old(route).implementation,
        final(route).method == old(route).method,
        final(route).path == old(route).path,
        final(route).produces_type == old(route).produces_type,
        final(route).parameters@.len() == old(route).parameters@.len(),
        forall|i: int|
            0 <= i < final(route).parameters@.len() ==> (#[trigger] final(route).parameters@[i]).name@
                == old(route).parameters@[i].name@,
{
    cursor.first_child();
    let mut fuel: usize = usize::MAX;
    loop
        invariant
            route.implementation == old(route).implementation,
            route.method == old(route).method,
            route.path == old(route).path,
            route.produces_type == old(route).produces_type,
            route.parameters@.len() == old(route).parameters@.len(),
            forall|i: int|
                0 <= i < route.parameters@.len() ==> (#[trigger] route.parameters@[i]).name@
                    == old(route).parameters@[i].name@,
        decreases fuel,
    {
        if !cursor.sibling() {
            break ;
        }
        let mut name: String = String::new();
        let mut java_type = ParameterType::Unknown("".to_owned());
        let node = cursor_node(cursor);
        if strutil::str_eq(node_kind(&node), "formal_parameter") {
            cursor.first_child();
            let modifiers_node = cursor_node(cursor);
            if strutil::str_eq(node_kind(&modifiers_node), "modifiers") {
                cursor.first_child();
                let annotation_node = cursor_node(cursor);
                if strutil::str_eq(node_kind(&annotation_node), "annotation") {
                    cursor.first_child();
                    cursor.sibling();
                    let name_node = cursor_node(cursor);
                    if let Some(annotation_name) = node_text(&name_node, content) {
                        if strutil::str_eq(annotation_name.as_str(), "PathParam") {
                            cursor.sibling();
                            cursor.first_child();
                            cursor.sibling();
                            cursor.first_child();
                            cursor.sibling();
                            let value_node = cursor_node(cursor);
                            if let Some(parameter_name) = node_text(&value_node, content) {
                                name = parameter_name;
                            }
                            cursor.parent();
                            cursor.parent();
                        }
                    }
                    cursor.parent();
                }
                cursor.parent();
                cursor.sibling();
            }
            let type_node = cursor_node(cursor);
            if let Some(ty) = node_text(&type_node, content) {
                if let Some(parsed) = parse_java_type_for_param(ty.as_str()) {
                    java_type = parsed;
                }
            }
            if name.as_str().unicode_len() == 0 {
                cursor.sibling();
                let ident_node = cursor_node(cursor);
                if let Some(parameter_name) = node_text(&ident_node, content) {
                    name = parameter_name;
                }
            }
            update_parameter_types(route, name.as_str(), &java_type);
            cursor.parent();
        }
        if fuel == 0 {
            break ;
        }
        fuel = fuel - 1;
    }
    cursor.parent();
}

/// The route one method declaration contributes: the class base merged
/// with the method's own annotations, the method's position recorded as
/// its implementation; no recorded location when the file has no path.
pub fn analyse_method(
    base_route: &Route,
    file_path: &str,
    content: &str,
    cursor: &mut tree_sitter::TreeCursor<'_>,
) -> (r: Option<Route>)
    ensures
        r matches Some(route) ==> (file_path@.len() == 0 ==> route.implementation is None),
{
    cursor.first_child();
    let method_route = match analyse_modifiers(content, cursor) {
        Some(r) => r,
        None => {
            return None;
        },
    };
    let mut route = base_route.clone().append_to_base(method_route);
    cursor.parent();
    cursor.sibling();
    cursor.sibling();
    let ident_node = cursor_node(cursor);
    let method_position = node_start_position(&ident_node);
    route.implementation = match url_from_file_path(file_path) {
        Some(url) => Some(
            Location {
                uri: url,
                range: LspRange {
                    start: to_lsp_position(method_position),
                    end: to_lsp_position(method_position),
                },
            },
        ),
        None => None,
    };
    cursor.sibling();
    analyse_method_parameters(&mut route, content, cursor);
    cursor.parent();
    Some(route)
}

/// The routes the members of a class body contribute: one per annotated
/// method, fields ignored.
pub fn analyse_fields(
    base_route: Route,
    file_path: &str,
    content: &str,
    cursor: &mut tree_sitter::TreeCursor<'_>,
) -> (out: Vec<Route>)
    ensures
        file_path@.len() == 0 ==> spec_all_impl_none(out@),
{
    let mut out: Vec<Route> = Vec::new();
    let mut fuel: usize = usize::MAX;
    loop
        invariant
            file_path@.len() == 0 ==> spec_all_impl_none(out@),
        decreases fuel,
    {
        let node = cursor_node(cursor);
        let kind = node_kind(&node);
        if strutil::str_eq(kind, "method_declaration") {
            let ghost prev = out@;
            if let Some(r) = analyse_method(&base_route, file_path, content, cursor) {
                out.push(r);
                proof {
                    assert(out@ =~= prev.push(r));
                }
            }
        }
        // field declarations and anything else contribute nothing
        if !cursor.sibling() {
            return out;
        }
        if fuel == 0 {
            return out;
        }
        fuel = fuel - 1;
    }
}

/// The routes one class declaration contributes: nothing without a
/// path-defining annotation at class level, else one route per annotated
/// method, merged onto the class base.
pub fn analyse_class(
    file_path: &str,
    content: &str,
    cursor: &mut tree_sitter::TreeCursor<'_>,
) -> (out: Vec<Route>)
    ensures
        file_path@.len() == 0 ==> spec_all_impl_none(out@),
{
    cursor.first_child();
    // analyse annotations at class level
    let base_route = match analyse_modifiers(content, cursor) {
        Some(r) => r,
        None => {
            return Vec::new();
        },
    };
    cursor.parent();
    cursor.sibling();
    cursor.sibling();
    cursor.sibling();
    let node = cursor_node(cursor);
    if strutil::str_eq(node_kind(&node), "superclass") {
        cursor.sibling();
    }
    let node = cursor_node(cursor);
    if strutil::str_eq(node_kind(&node), "super_interfaces") {
        cursor.sibling();
    }
    cursor.first_child();
    let out = analyse_fields(base_route, file_path, content, cursor);
    cursor.parent();
    cursor.parent();
    out
}

/// The routes of every top-level class of the file, classes separated by
/// comments included.
pub fn handel_classes(
    file_path: &str,
    content: &str,
    cursor: &mut tree_sitter::TreeCursor<'_>,
) -> (out: Vec<Route>)
    ensures
        file_path@.len() == 0 ==> spec_all_impl_none(out@),
{
    let mut out: Vec<Route> = Vec::new();
    let mut fuel: usize = usize::MAX;
    loop
        invariant
            file_path@.len() == 0 ==> spec_all_impl_none(out@),
        decreases fuel,
    {
        skip_comments(cursor);
        let node = cursor_node(cursor);
        if strutil::str_eq(node_kind(&node), "class_declaration") {
            let ghost prev = out@;
            let mut routes = analyse_class(file_path, content, cursor);
            let ghost added = routes@;
            out.append(&mut routes);
            proof {
                if file_path@.len() == 0 {
                    lemma_all_impl_none_concat(prev, added);
                }
            }
            // when there is a sibling then also scan that class
            if !cursor.sibling() {
                return out;
            }
        } else {
            return out;
        }
        if fuel == 0 {
            return out;
        }
        fuel = fuel - 1;
    }
}

/// Extract every route declared in one source file; an unparsable file
/// contributes nothing. A file without a path records no implementation
/// location on its routes.
pub fn analyse_file(file_path: &str, content: &str) -> (out: Vec<Route>)
    ensures
        file_path@.len() == 0 ==> spec_all_impl_none(out@),
{
    let tree = match parse_java(content) {
        Some(t) => t,
        None => {
            return Vec::new();
        },
    };
    let mut cursor = tree_walk(&tree);
    cursor.first_child();
    skip_head(&mut cursor);
    handel_classes(file_path, content, &mut cursor)
}

} // verus!
