//! Loading a schema from the text of a file, of a URL or of a string.
//!
//! The loader is handed the text with the place it was read from. It picks
//! the dialect, sets up where imports are looked for, parses, and resolves
//! the imports as far as the schemas that were handed to its resolver allow.

use crate::document::{sniff_dialect, spec_sniff, Dialect};
use crate::error::{LinkMLError, LinkMLErrorView};
use crate::import_resolver::{
    list_contains, spec_resolve, ImportResolver, Resolution, ResolutionView,
};
use crate::instance_resolver::spec_after_last;
use crate::schema_parser::{load_str, spec_load, spec_loaded};
use crate::text::{
    chars_to_string, eq_ignore_case, spec_eq_ignore_case, str_eq, str_to_chars,
};
use crate::types::{SchemaDefinition, SchemaDefinitionView};
use vstd::prelude::*;
use vstd::string::*;

verus! {

/// The URL that `reference` names when it is resolved against the URL
/// `base`, as the URL standard has it; `None` where either is no URL.
pub uninterp spec fn spec_url_join(base: Seq<char>, reference: Seq<char>) -> Option<Seq<char>>;

/// `Url::parse` and `Url::join` of the crate `url`: the base is parsed as an
/// absolute URL, the reference is parsed with it as the base, and the
/// result is written out. `None` where either of the two fails.
#[verifier::external_body]
fn url_join(base: &str, reference: &str) -> (r: Option<String>)
    ensures
        match spec_url_join(base@, reference@) {
            Some(u) => r matches Some(s) && s@ == u,
            None => r is None,
        },
{
    match url::Url::parse(base) {
        Ok(b) => match b.join(reference) {
            Ok(u) => Some(String::from(u)),
            Err(_) => None,
        },
        Err(_) => None,
    }
}

/// The name of the file that a path leads to: what follows its last slash.
pub open spec fn spec_file_name(path: Seq<char>) -> Seq<char> {
    path.skip(spec_after_last(path, '/', path.len() as int))
}

/// The extension of the file that a path leads to: what follows the last
/// point of the file name. A name without a point has no extension, nor has
/// a name whose only point is its first character.
pub open spec fn spec_extension(path: Seq<char>) -> Option<Seq<char>> {
    let name = spec_file_name(path);
    let dot = spec_after_last(name, '.', name.len() as int);
    if dot <= 1 {
        None
    } else {
        Some(name.skip(dot))
    }
}

/// The directory that holds the file that a path leads to: what stands
/// before its last slash, or nothing.
pub open spec fn spec_parent(path: Seq<char>) -> Seq<char> {
    let cut = spec_after_last(path, '/', path.len() as int);
    if cut <= 1 {
        path.take(cut)
    } else {
        path.take(cut - 1)
    }
}

/// The index after the last `c` in `v`, or 0.
fn after_last(v: &Vec<char>, c: char) -> (r: usize)
    ensures
        r == spec_after_last(v@, c, v.len() as int),
        r <= v.len(),
{
    let mut i: usize = v.len();
    while i > 0 && v[i - 1] != c
        invariant
            i <= v.len(),
            spec_after_last(v@, c, v.len() as int) == spec_after_last(v@, c, i as int),
        decreases i,
    {
        i -= 1;
    }
    i
}

/// The extension of the file that a path leads to.
pub fn extension(path: &str) -> (r: Option<String>)
    ensures
        match spec_extension(path@) {
            Some(e) => r matches Some(s) && s@ == e,
            None => r is None,
        },
{
    let v = str_to_chars(path);
    let cut = after_last(&v, '/');
    let name = str_to_chars(chars_to_string(&v, cut, v.len()).as_str());
    assert(name@ =~= spec_file_name(v@));
    let dot = after_last(&name, '.');
    if dot <= 1 {
        None
    } else {
        let r = chars_to_string(&name, dot, name.len());
        assert(r@ =~= name@.skip(dot as int));
        Some(r)
    }
}

/// The directory that holds the file that a path leads to.
pub fn parent(path: &str) -> (r: String)
    ensures
        r@ == spec_parent(path@),
{
    let v = str_to_chars(path);
    let cut = after_last(&v, '/');
    let to = if cut <= 1 {
        cut
    } else {
        cut - 1
    };
    let r = chars_to_string(&v, 0, to);
    assert(r@ =~= v@.take(to as int));
    r
}

/// The dialect of a document: by the extension of its path, `yaml` and `yml`
/// for the indented dialect and `json` for the braced one; by its content
/// where the extension says nothing.
pub open spec fn spec_detect_dialect(path: Seq<char>, content: Seq<char>) -> Dialect {
    match spec_extension(path) {
        Some(ext) => if ext == "yaml"@ || ext == "yml"@ {
            Dialect::Indented
        } else if ext == "json"@ {
            Dialect::Braced
        } else {
            spec_sniff(content)
        },
        None => spec_sniff(content),
    }
}

/// The dialect of a document, by the extension of its path or else by its
/// content.
pub fn detect_dialect(path: &str, content: &str) -> (d: Dialect)
    ensures
        d == spec_detect_dialect(path@, content@),
{
    match extension(path) {
        Some(ext) => if str_eq(ext.as_str(), "yaml") || str_eq(ext.as_str(), "yml") {
            Dialect::Indented
        } else if str_eq(ext.as_str(), "json") {
            Dialect::Braced
        } else {
            sniff_dialect(content)
        },
        None => sniff_dialect(content),
    }
}

/// What the text of a file loads to. The file must have one of the
/// extensions `json`, `yaml` and `yml`.
pub open spec fn spec_load_file(path: Seq<char>, content: Seq<char>) -> Result<
    SchemaDefinitionView,
    LinkMLErrorView,
> {
    match spec_extension(path) {
        None => Err(
            LinkMLErrorView::ParseError { message: "No file extension found"@, fault: None },
        ),
        Some(ext) => if ext == "json"@ || ext == "yaml"@ || ext == "yml"@ {
            spec_load(content)
        } else {
            Err(
                LinkMLErrorView::ParseError {
                    message: "Unsupported file extension: "@ + ext,
                    fault: None,
                },
            )
        },
    }
}

/// What the text of a string in the format named `format` loads to. The
/// formats are `json`, `yaml` and `yml`.
pub open spec fn spec_load_string(content: Seq<char>, format: Seq<char>) -> Result<
    SchemaDefinitionView,
    LinkMLErrorView,
> {
    if format == "json"@ || format == "yaml"@ || format == "yml"@ {
        spec_load(content)
    } else {
        Err(LinkMLErrorView::ParseError { message: "Unsupported format: "@ + format, fault: None })
    }
}

/// Where resolution stands for a schema that was loaded, or why it was not
/// loaded.
pub open spec fn spec_resolution(
    loaded: Result<SchemaDefinitionView, LinkMLErrorView>,
    resolver: ImportResolver,
) -> ResolutionView {
    match loaded {
        Err(e) => ResolutionView::Failed(e),
        Ok(s) => spec_resolve(s, resolver.max_depth as int, resolver.cache.deep_view()),
    }
}

/// Loads schemas and resolves their imports.
#[derive(Debug)]
pub struct SchemaLoader {
    /// The resolver that merges the imports.
    pub resolver: ImportResolver,
}

impl SchemaLoader {
    /// A loader with a resolver of its own.
    pub fn new() -> (r: Self)
        ensures
            r.resolver.max_depth == 10,
            r.resolver.cache.deep_view() == Seq::<(Seq<char>, SchemaDefinitionView)>::empty(),
    {
        SchemaLoader { resolver: ImportResolver::new() }
    }

    /// A loader that resolves imports with `resolver`.
    pub fn with_resolver(resolver: ImportResolver) -> (r: Self)
        ensures
            r.resolver == resolver,
    {
        SchemaLoader { resolver }
    }

    /// A loader that resolves imports with `resolver`, which may hold what
    /// other loaders handed to it.
    pub fn with_shared_resolver(resolver: ImportResolver) -> (r: Self)
        ensures
            r.resolver == resolver,
    {
        SchemaLoader { resolver }
    }

    /// Resolves the imports of a schema that was loaded.
    fn resolve(&self, loaded: Result<SchemaDefinition, LinkMLError>) -> (r: Resolution)
        ensures
            forall|expected: Result<SchemaDefinitionView, LinkMLErrorView>|
                spec_loaded(loaded, expected) ==> r.deep_view() == spec_resolution(
                    expected,
                    self.resolver,
                ),
    {
        match loaded {
            Err(e) => Resolution::Failed(e),
            Ok(schema) => self.resolver.resolve_imports(&schema),
        }
    }

    /// Loads a schema from the text `content` in the format named `format`.
    pub fn load_string(&self, content: &str, format: &str) -> (r: Resolution)
        ensures
            r.deep_view() == spec_resolution(spec_load_string(content@, format@), self.resolver),
    {
        if str_eq(format, "json") || str_eq(format, "yaml") || str_eq(format, "yml") {
            self.resolve(load_str(content))
        } else {
            let mut message = String::from_str("Unsupported format: ");
            message.append(format);
            Resolution::Failed(LinkMLError::ParseError { message, fault: None })
        }
    }

    /// Loads a schema from the text `content` of the file at `path`. The
    /// directory of the file becomes a search path of the resolver, if it is
    /// none yet, so that imports are found beside the file.
    pub fn load_file(&mut self, path: &str, content: &str) -> (r: Resolution)
        ensures
            final(self).resolver.max_depth == old(self).resolver.max_depth,
            final(self).resolver.cache == old(self).resolver.cache,
            final(self).resolver.prefix_map == old(self).resolver.prefix_map,
            final(self).resolver.base_url == old(self).resolver.base_url,
            final(self).resolver.base_path == old(self).resolver.base_path,
            final(self).resolver.search_paths.deep_view() == (if old(
                self,
            ).resolver.search_paths.deep_view().contains(spec_parent(path@)) {
                old(self).resolver.search_paths.deep_view()
            } else {
                old(self).resolver.search_paths.deep_view().push(spec_parent(path@))
            }),
            r.deep_view() == spec_resolution(spec_load_file(path@, content@), old(self).resolver),
    {
        let dir = parent(path);
        if !list_contains(&self.resolver.search_paths, &dir) {
            let ghost before = self.resolver.search_paths.deep_view();
            self.resolver.search_paths.push(dir);
            assert(self.resolver.search_paths.deep_view() =~= before.push(spec_parent(path@)));
        }
        match extension(path) {
            None => Resolution::Failed(
                LinkMLError::ParseError {
                    message: String::from_str("No file extension found"),
                    fault: None,
                },
            ),
            Some(ext) => {
                if str_eq(ext.as_str(), "json") || str_eq(ext.as_str(), "yaml") || str_eq(
                    ext.as_str(),
                    "yml",
                ) {
                    self.resolve(load_str(content))
                } else {
                    let mut message = String::from_str("Unsupported file extension: ");
                    message.append(ext.as_str());
                    Resolution::Failed(LinkMLError::ParseError { message, fault: None })
                }
            },
        }
    }

    /// The base of the relative imports of a document that was fetched from
    /// `url`: the URL of the directory that holds it.
    pub fn base_of_url(url: &str) -> (r: Option<String>)
        ensures
            match spec_url_join(url@, "./"@) {
                Some(u) => r matches Some(s) && s@ == u,
                None => r is None,
            },
    {
        url_join(url, "./")
    }

    /// Loads a schema from the text `content` that was fetched from `url`.
    /// Where the resolver has no base for relative URL imports, the
    /// directory of `url` becomes that base.
    pub fn load_url(&mut self, url: &str, content: &str) -> (r: Resolution)
        ensures
            final(self).resolver.max_depth == old(self).resolver.max_depth,
            final(self).resolver.cache == old(self).resolver.cache,
            final(self).resolver.prefix_map == old(self).resolver.prefix_map,
            final(self).resolver.search_paths == old(self).resolver.search_paths,
            final(self).resolver.base_path == old(self).resolver.base_path,
            match old(self).resolver.base_url {
                Some(b) => final(self).resolver.base_url == Some(b),
                None => match spec_url_join(url@, "./"@) {
                    Some(u) => final(self).resolver.base_url matches Some(s) && s@ == u,
                    None => final(self).resolver.base_url is None,
                },
            },
            r.deep_view() == spec_resolution(spec_load(content@), old(self).resolver),
    {
        if self.resolver.base_url.is_none() {
            self.resolver.base_url = Self::base_of_url(url);
        }
        self.resolve(load_str(content))
    }

    /// Whether a URL leads to a document in the braced dialect, by its
    /// extension: `json` in any case.
    pub fn url_is_json(url: &str) -> (r: bool)
        ensures
            r == (spec_extension(url@) matches Some(e) && spec_eq_ignore_case(e, "json"@)),
    {
        match extension(url) {
            Some(ext) => eq_ignore_case(ext.as_str(), "json"),
            None => false,
        }
    }
}

/// A loader for development and tests: it resolves imports from the current
/// directory and fetches nothing.
pub fn create_dev_schema_loader() -> (r: SchemaLoader)
    ensures
        r.resolver.max_depth == 10,
{
    SchemaLoader::new()
}

/// A loader that resolves imports with `resolver`, and so shares what was
/// handed to it.
pub fn create_schema_loader_with_shared_resolver(resolver: ImportResolver) -> (r: SchemaLoader)
    ensures
        r.resolver == resolver,
{
    SchemaLoader::with_shared_resolver(resolver)
}

} // verus!
