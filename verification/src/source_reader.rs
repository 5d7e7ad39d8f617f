//! From a logical reference to the places at which a document is looked for.
//!
//! Reading bytes is left to the caller. What is decided here is the form of a
//! reference, the paths at which a document may lie, in the order in which
//! they are tried, and whether a path stays inside the root to which reading
//! is confined.

use crate::instance_resolver::{join_path, spec_join_path};
use crate::ordered::{spec_lookup, OrderedMap};
use crate::pattern::{is_ident_char, is_ident_start, spec_is_ident_char, spec_is_ident_start};
use crate::text::{
    chars_match_at, chars_to_string, find_char, is_whitespace, spec_find_char, spec_is_whitespace,
    str_to_chars,
};
use vstd::prelude::*;
use vstd::string::*;

verus! {

/// The forms that a reference to a document can have.
#[derive(Debug, Clone, Copy, PartialEq, Eq, Structural)]
pub enum ReferenceKind {
    /// A path from the root of the file system.
    AbsolutePath,
    /// A path that is resolved against the search paths.
    RelativePath,
    /// A URL: the document is fetched.
    Url,
    /// A prefix, a colon and a path: the prefix stands for a base.
    Prefixed,
}

/// Whether `s[from..to]` holds only characters of identifiers.
pub open spec fn spec_all_ident(s: Seq<char>, from: int, to: int) -> bool
    decreases to - from,
{
    if !(0 <= from < to <= s.len()) {
        true
    } else {
        spec_is_ident_char(s[from]) && spec_all_ident(s, from + 1, to)
    }
}

/// Whether the characters before `s[c]` form an identifier.
pub open spec fn spec_is_prefix(s: Seq<char>, c: int) -> bool {
    0 < c <= s.len() && spec_is_ident_start(s[0]) && spec_all_ident(s, 1, c)
}

/// The form of a reference. A reference with `://` after its first colon is
/// a URL; one that begins with a slash is an absolute path; one with an
/// identifier before its first colon is prefixed; any other is a relative
/// path.
pub open spec fn spec_reference_kind(s: Seq<char>) -> ReferenceKind {
    let c = spec_find_char(s, 0, ':');
    if 0 <= c && c + 2 < s.len() && s[c + 1] == '/' && s[c + 2] == '/' {
        ReferenceKind::Url
    } else if s.len() > 0 && s[0] == '/' {
        ReferenceKind::AbsolutePath
    } else if 0 <= c < s.len() && spec_is_prefix(s, c) {
        ReferenceKind::Prefixed
    } else {
        ReferenceKind::RelativePath
    }
}

/// Whether `v[from..to]` holds only characters of identifiers.
fn all_ident(v: &Vec<char>, from: usize, to: usize) -> (r: bool)
    requires
        from <= to <= v.len(),
    ensures
        r == spec_all_ident(v@, from as int, to as int),
{
    let mut i: usize = from;
    while i < to
        invariant
            from <= i <= to <= v.len(),
            spec_all_ident(v@, from as int, to as int) == spec_all_ident(v@, i as int, to as int),
        decreases to - i,
    {
        if !is_ident_char(v[i]) {
            return false;
        }
        i += 1;
    }
    true
}

/// The form of a reference.
pub fn reference_kind(reference: &str) -> (k: ReferenceKind)
    ensures
        k == spec_reference_kind(reference@),
{
    let v = str_to_chars(reference);
    let c = find_char(&v, 0, ':');
    if c < v.len() && v.len() - c > 2 && v[c + 1] == '/' && v[c + 2] == '/' {
        ReferenceKind::Url
    } else if v.len() > 0 && v[0] == '/' {
        ReferenceKind::AbsolutePath
    } else if 0 < c && c < v.len() && is_ident_start(v[0]) && all_ident(&v, 1, c) {
        ReferenceKind::Prefixed
    } else {
        ReferenceKind::RelativePath
    }
}

/// What a prefixed reference expands to: the base of its prefix with what
/// follows the colon, if the prefix has a base.
pub open spec fn spec_expand_prefix(prefix_map: Seq<(Seq<char>, Seq<char>)>, s: Seq<char>)
    -> Option<Seq<char>> {
    let c = spec_find_char(s, 0, ':');
    if spec_reference_kind(s) == ReferenceKind::Prefixed && 0 <= c < s.len() {
        match spec_lookup(prefix_map, s.take(c)) {
            Some(base) => Some(spec_join_path(base, s.skip(c + 1))),
            None => None,
        }
    } else {
        None
    }
}

/// What a prefixed reference expands to.
pub fn expand_prefix(prefix_map: &OrderedMap<String>, reference: &str) -> (r: Option<String>)
    ensures
        match spec_expand_prefix(prefix_map.deep_view(), reference@) {
            Some(p) => r matches Some(s) && s@ == p,
            None => r is None,
        },
{
    match reference_kind(reference) {
        ReferenceKind::Prefixed => {
            let v = str_to_chars(reference);
            let c = find_char(&v, 0, ':');
            if c < v.len() {
                let prefix = chars_to_string(&v, 0, c);
                assert(prefix@ =~= v@.take(c as int));
                match prefix_map.find_value(prefix.as_str()) {
                    Some(base) => {
                        let tail = chars_to_string(&v, c + 1, v.len());
                        assert(tail@ =~= v@.skip(c + 1));
                        Some(join_path(base.as_str(), tail.as_str()))
                    },
                    None => None,
                }
            } else {
                None
            }
        },
        _ => None,
    }
}

/// The paths at which the document `stem` may lie: with each of the
/// extensions of the two dialects, and as it is.
pub open spec fn spec_with_extensions(stem: Seq<char>) -> Seq<Seq<char>> {
    seq![stem + ".yaml"@, stem, stem + ".yml"@, stem + ".json"@]
}

/// The paths at which the document `reference` may lie under the search
/// paths `paths[i..]`, after `acc`.
pub open spec fn spec_search(paths: Seq<Seq<char>>, reference: Seq<char>, i: int, acc: Seq<Seq<char>>)
    -> Seq<Seq<char>>
    decreases paths.len() - i,
{
    if !(0 <= i < paths.len()) {
        acc
    } else {
        spec_search(
            paths,
            reference,
            i + 1,
            acc + spec_with_extensions(spec_join_path(paths[i], reference)),
        )
    }
}

/// The paths at which an import is looked for, in the order in which they
/// are tried: the first that exists is the document. A prefixed import whose
/// prefix has a base is looked for under that base; an absolute path as it
/// is; any other import under each search path in turn.
pub open spec fn spec_candidates(
    search_paths: Seq<Seq<char>>,
    prefix_map: Seq<(Seq<char>, Seq<char>)>,
    import: Seq<char>,
) -> Seq<Seq<char>> {
    match spec_expand_prefix(prefix_map, import) {
        Some(path) => spec_with_extensions(path),
        None => if spec_reference_kind(import) == ReferenceKind::AbsolutePath {
            spec_with_extensions(import)
        } else {
            spec_search(search_paths, import, 0, Seq::empty())
        },
    }
}

/// Appends the paths at which the document `stem` may lie.
fn push_with_extensions(out: &mut Vec<String>, stem: &str)
    ensures
        final(out).deep_view() == old(out).deep_view() + spec_with_extensions(stem@),
{
    let ghost before = out.deep_view();
    let mut yaml = String::from_str(stem);
    yaml.append(".yaml");
    let mut yml = String::from_str(stem);
    yml.append(".yml");
    let mut json = String::from_str(stem);
    json.append(".json");
    out.push(yaml);
    out.push(String::from_str(stem));
    out.push(yml);
    out.push(json);
    assert(out.deep_view() =~= before + spec_with_extensions(stem@));
}

/// The paths at which an import is looked for, in the order in which they
/// are tried.
pub fn candidates(search_paths: &Vec<String>, prefix_map: &OrderedMap<String>, import: &str) -> (r:
    Vec<String>)
    ensures
        r.deep_view() == spec_candidates(
            search_paths.deep_view(),
            prefix_map.deep_view(),
            import@,
        ),
{
    let mut out: Vec<String> = Vec::new();
    assert(out.deep_view() =~= Seq::empty());
    match expand_prefix(prefix_map, import) {
        Some(path) => {
            push_with_extensions(&mut out, path.as_str());
            assert(out.deep_view() =~= spec_with_extensions(path@));
            out
        },
        None => {
            match reference_kind(import) {
                ReferenceKind::AbsolutePath => {
                    push_with_extensions(&mut out, import);
                    assert(out.deep_view() =~= spec_with_extensions(import@));
                    out
                },
                _ => {
                    let mut i: usize = 0;
                    while i < search_paths.len()
                        invariant
                            i <= search_paths.len(),
                            spec_search(search_paths.deep_view(), import@, 0, Seq::empty())
                                == spec_search(
                                search_paths.deep_view(),
                                import@,
                                i as int,
                                out.deep_view(),
                            ),
                        decreases search_paths.len() - i,
                    {
                        let path = join_path(search_paths[i].as_str(), import);
                        push_with_extensions(&mut out, path.as_str());
                        i += 1;
                    }
                    out
                },
            }
        },
    }
}

/// Whether a path has a segment `..` from `s[i]` on. `start` is where the
/// segment that holds `s[i]` begins.
pub open spec fn spec_climbs(s: Seq<char>, i: int, start: int) -> bool
    decreases s.len() - i,
{
    if !(0 <= start <= i <= s.len()) {
        false
    } else if i == s.len() || s[i] == '/' {
        (i - start == 2 && s[start] == '.' && s[start + 1] == '.') || (i < s.len() && spec_climbs(
            s,
            i + 1,
            i + 1,
        ))
    } else {
        spec_climbs(s, i + 1, start)
    }
}

/// Whether `path` lies inside `root`, as the two are written: the path begins
/// with the root, goes on with a slash if it is longer, and has no segment
/// `..`. Links in the file system are for the caller to follow before it
/// asks.
pub open spec fn spec_within_root(root: Seq<char>, path: Seq<char>) -> bool {
    &&& root.len() <= path.len()
    &&& path.take(root.len() as int) == root
    &&& (path.len() == root.len() || (root.len() > 0 && root.last() == '/')
        || path[root.len() as int] == '/')
    &&& !spec_climbs(path, 0, 0)
}

/// Whether a path has a segment `..`.
fn climbs(v: &Vec<char>) -> (r: bool)
    ensures
        r == spec_climbs(v@, 0, 0),
{
    let mut i: usize = 0;
    let mut start: usize = 0;
    while i < v.len()
        invariant
            start <= i <= v.len(),
            spec_climbs(v@, 0, 0) == spec_climbs(v@, i as int, start as int),
        decreases v.len() - i,
    {
        if v[i] == '/' {
            if i - start == 2 && v[start] == '.' && v[start + 1] == '.' {
                return true;
            }
            start = i + 1;
        }
        i += 1;
    }
    i - start == 2 && v[start] == '.' && v[start + 1] == '.'
}

/// Whether `path` lies inside `root`, as the two are written.
pub fn within_root(root: &str, path: &str) -> (r: bool)
    ensures
        r == spec_within_root(root@, path@),
{
    let a = str_to_chars(root);
    let b = str_to_chars(path);
    if a.len() > b.len() {
        return false;
    }
    if !chars_match_at(&b, 0, &a) {
        return false;
    }
    assert(b@.take(a.len() as int) =~= b@.subrange(0, 0 + a.len()));
    if !(b.len() == a.len() || (a.len() > 0 && a[a.len() - 1] == '/') || b[a.len()] == '/') {
        return false;
    }
    !climbs(&b)
}

/// Whether `s` is an identifier: a letter or an underscore, then letters,
/// digits and underscores.
pub open spec fn spec_is_identifier(s: Seq<char>) -> bool {
    s.len() > 0 && spec_is_ident_start(s[0]) && spec_all_ident(s, 1, s.len() as int)
}

/// Whether `s` is an identifier.
pub fn is_identifier(s: &str) -> (r: bool)
    ensures
        r == spec_is_identifier(s@),
{
    let v = str_to_chars(s);
    v.len() > 0 && is_ident_start(v[0]) && all_ident(&v, 1, v.len())
}

/// Whether `c` can stand in the scheme of a URI after its first letter: a
/// letter, a digit, `+`, `-` or `.`.
pub open spec fn spec_is_scheme_char(c: char) -> bool {
    ('a' as u32 <= c as u32 <= 'z' as u32) || ('A' as u32 <= c as u32 <= 'Z' as u32) || ('0' as u32
        <= c as u32 <= '9' as u32) || c == '+' || c == '-' || c == '.'
}

/// Whether `s[from..to]` holds only characters of schemes.
pub open spec fn spec_all_scheme(s: Seq<char>, from: int, to: int) -> bool
    decreases to - from,
{
    if !(0 <= from < to <= s.len()) {
        true
    } else {
        spec_is_scheme_char(s[from]) && spec_all_scheme(s, from + 1, to)
    }
}

/// Whether `s[from..]` holds no white space.
pub open spec fn spec_no_space(s: Seq<char>, from: int) -> bool
    decreases s.len() - from,
{
    if !(0 <= from < s.len()) {
        true
    } else {
        !spec_is_whitespace(s[from]) && spec_no_space(s, from + 1)
    }
}

/// Whether `s` is an absolute URI: a scheme, which is a letter followed by
/// letters, digits, `+`, `-` and `.`; a colon; and something after the colon.
/// A URI holds no white space.
pub open spec fn spec_is_absolute_uri(s: Seq<char>) -> bool {
    let c = spec_find_char(s, 0, ':');
    &&& 0 < c
    &&& c + 1 < s.len()
    &&& spec_is_scheme_char(s[0])
    &&& !('0' as u32 <= s[0] as u32 <= '9' as u32)
    &&& s[0] != '+'
    &&& s[0] != '-'
    &&& s[0] != '.'
    &&& spec_all_scheme(s, 1, c)
    &&& spec_no_space(s, 0)
}

/// Whether `c` can stand in the scheme of a URI after its first letter.
fn is_scheme_char(c: char) -> (r: bool)
    ensures
        r == spec_is_scheme_char(c),
{
    let u: u32 = c as u32;
    (97 <= u && u <= 122) || (65 <= u && u <= 90) || (48 <= u && u <= 57) || c == '+' || c == '-'
        || c == '.'
}

/// Whether `s` is an absolute URI.
#[verifier::loop_isolation(false)]
pub fn is_absolute_uri(s: &str) -> (r: bool)
    ensures
        r == spec_is_absolute_uri(s@),
{
    let v = str_to_chars(s);
    let c = find_char(&v, 0, ':');
    if !(0 < c && c < v.len() && v.len() - c > 1) {
        return false;
    }
    let u: u32 = v[0] as u32;
    if !((97 <= u && u <= 122) || (65 <= u && u <= 90)) {
        return false;
    }
    let mut i: usize = 1;
    while i < c
        invariant
            1 <= i <= c,
            spec_all_scheme(v@, 1, c as int) == spec_all_scheme(v@, i as int, c as int),
        decreases c - i,
    {
        if !is_scheme_char(v[i]) {
            return false;
        }
        i += 1;
    }
    let mut k: usize = 0;
    while k < v.len()
        invariant
            k <= v.len(),
            spec_no_space(v@, 0) == spec_no_space(v@, k as int),
        decreases v.len() - k,
    {
        if is_whitespace(v[k]) {
            return false;
        }
        k += 1;
    }
    true
}

} // verus!
