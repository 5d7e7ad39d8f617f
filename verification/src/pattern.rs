//! Expanding the placeholders of structured patterns.
//!
//! A structured pattern may name pattern settings between braces:
//! `{country_code_pattern}`. Expanding puts the setting in the place of its
//! name. A setting may name other settings in its turn.

use crate::error::{LinkMLError, LinkMLErrorView, PatternFailure};
use crate::ordered::{spec_lookup, OrderedMap};
use crate::text::{chars_match_at, chars_to_string, spec_ends_with, str_to_chars};
use crate::types::StructuredPattern;
use vstd::prelude::*;
use vstd::string::*;

verus! {

/// Whether `c` can begin an identifier: a letter or an underscore.
pub open spec fn spec_is_ident_start(c: char) -> bool {
    ('a' as u32 <= c as u32 <= 'z' as u32) || ('A' as u32 <= c as u32 <= 'Z' as u32) || c == '_'
}

/// Whether `c` can stand in an identifier: a letter, a digit or an
/// underscore.
pub open spec fn spec_is_ident_char(c: char) -> bool {
    spec_is_ident_start(c) || ('0' as u32 <= c as u32 <= '9' as u32)
}

/// Whether `c` can begin an identifier.
pub fn is_ident_start(c: char) -> (r: bool)
    ensures
        r == spec_is_ident_start(c),
{
    let u: u32 = c as u32;
    (97 <= u && u <= 122) || (65 <= u && u <= 90) || c == '_'
}

/// Whether `c` can stand in an identifier.
pub fn is_ident_char(c: char) -> (r: bool)
    ensures
        r == spec_is_ident_char(c),
{
    let u: u32 = c as u32;
    is_ident_start(c) || (48 <= u && u <= 57)
}

/// The index of the first character of `s[i..]` that cannot stand in an
/// identifier.
pub open spec fn spec_ident_end(s: Seq<char>, i: int) -> int
    decreases s.len() - i,
{
    if 0 <= i < s.len() && spec_is_ident_char(s[i]) {
        spec_ident_end(s, i + 1)
    } else {
        i
    }
}

/// The index after the placeholder that begins at `s[i]`, if one begins
/// there: an opening brace, an identifier, a closing brace.
pub open spec fn spec_placeholder_end(s: Seq<char>, i: int) -> Option<int> {
    if 0 <= i && i + 1 < s.len() && s[i] == '{' && spec_is_ident_start(s[i + 1]) {
        let e = spec_ident_end(s, i + 1);
        if i + 1 < e < s.len() && s[e] == '}' {
            Some(e + 1)
        } else {
            None
        }
    } else {
        None
    }
}

/// The setting that a placeholder with the name `name` stands for: the name
/// must end in `_pattern` and be the key of a setting.
pub open spec fn spec_setting(settings: Seq<(Seq<char>, Seq<char>)>, name: Seq<char>) -> Option<
    Seq<char>,
> {
    if spec_ends_with(name, "_pattern"@) {
        spec_lookup(settings, name)
    } else {
        None
    }
}

/// `s[i..]` after `acc`, with each placeholder replaced by its setting, and
/// whether a placeholder was replaced; or the name of the first placeholder
/// that stands for no setting.
pub open spec fn spec_expand_once(
    s: Seq<char>,
    settings: Seq<(Seq<char>, Seq<char>)>,
    i: int,
    acc: Seq<char>,
    changed: bool,
) -> Result<(Seq<char>, bool), Seq<char>>
    decreases s.len() - i,
{
    if !(0 <= i < s.len()) {
        Ok((acc, changed))
    } else {
        match spec_placeholder_end(s, i) {
            Some(e) => if i + 2 < e <= s.len() {
                match spec_setting(settings, s.subrange(i + 1, e - 1)) {
                    Some(v) => spec_expand_once(s, settings, e, acc + v, true),
                    None => Err(s.subrange(i + 1, e - 1)),
                }
            } else {
                Ok((acc, changed))
            },
            None => spec_expand_once(s, settings, i + 1, acc.push(s[i]), changed),
        }
    }
}

/// `s` with its placeholders expanded until none is left, in at most
/// `rounds` further rounds. A placeholder that stands for no setting is
/// unresolved; placeholders that are still there when the rounds are used up
/// show that settings name each other in a cycle.
pub open spec fn spec_expand(s: Seq<char>, settings: Seq<(Seq<char>, Seq<char>)>, rounds: nat)
    -> Result<Seq<char>, LinkMLErrorView>
    decreases rounds,
{
    match spec_expand_once(s, settings, 0, Seq::empty(), false) {
        Err(name) => Err(
            LinkMLErrorView::PatternError { name, cause: PatternFailure::Unresolved },
        ),
        Ok((t, changed)) => if !changed {
            Ok(t)
        } else if rounds == 0 {
            Err(LinkMLErrorView::PatternError { name: s, cause: PatternFailure::Cycle })
        } else {
            spec_expand(t, settings, (rounds - 1) as nat)
        },
    }
}

/// The pattern that `syntax` stands for with the settings `settings`: one
/// round for each setting is allowed.
pub open spec fn spec_interpolate(syntax: Seq<char>, settings: Seq<(Seq<char>, Seq<char>)>)
    -> Result<Seq<char>, LinkMLErrorView> {
    spec_expand(syntax, settings, settings.len())
}

/// The index of the first character of `v[from..]` that cannot stand in an
/// identifier.
fn ident_end(v: &Vec<char>, from: usize) -> (r: usize)
    requires
        from <= v.len(),
    ensures
        r == spec_ident_end(v@, from as int),
        from <= r <= v.len(),
{
    let mut i: usize = from;
    while i < v.len() && is_ident_char(v[i])
        invariant
            from <= i <= v.len(),
            spec_ident_end(v@, from as int) == spec_ident_end(v@, i as int),
        decreases v.len() - i,
    {
        i += 1;
    }
    i
}

/// The index after the placeholder that begins at `v[i]`.
fn placeholder_end(v: &Vec<char>, i: usize) -> (r: Option<usize>)
    requires
        i < v.len(),
    ensures
        match spec_placeholder_end(v@, i as int) {
            Some(e) => r == Some(e as usize) && i + 2 < e <= v.len(),
            None => r is None,
        },
{
    if i + 1 < v.len() && v[i] == '{' && is_ident_start(v[i + 1]) {
        let e = ident_end(v, i + 1);
        proof {
            assert(spec_ident_end(v@, i + 1) == spec_ident_end(v@, i + 2));
        }
        if i + 1 < e && e < v.len() && v[e] == '}' {
            Some(e + 1)
        } else {
            None
        }
    } else {
        None
    }
}

/// The setting that a placeholder with the name `name` stands for.
fn setting<'a>(settings: &'a OrderedMap<String>, name: &String) -> (r: Option<&'a String>)
    ensures
        match spec_setting(settings.deep_view(), name@) {
            Some(v) => r matches Some(s) && s@ == v,
            None => r is None,
        },
{
    let n = str_to_chars(name.as_str());
    let suffix = str_to_chars("_pattern");
    let ends = suffix.len() <= n.len() && chars_match_at(&n, n.len() - suffix.len(), &suffix);
    if ends {
        settings.find_value(name.as_str())
    } else {
        None
    }
}

/// One round of expansion.
#[verifier::loop_isolation(false)]
fn expand_once(s: &str, settings: &OrderedMap<String>) -> (r: Result<(String, bool), String>)
    ensures
        match spec_expand_once(s@, settings.deep_view(), 0, Seq::empty(), false) {
            Ok((t, changed)) => r matches Ok((x, c)) && x@ == t && c == changed,
            Err(name) => r matches Err(n) && n@ == name,
        },
{
    let v = str_to_chars(s);
    let mut out = String::new();
    let mut changed = false;
    let mut i: usize = 0;
    while i < v.len()
        invariant
            i <= v.len(),
            spec_expand_once(v@, settings.deep_view(), 0, Seq::empty(), false) == spec_expand_once(
                v@,
                settings.deep_view(),
                i as int,
                out@,
                changed,
            ),
        decreases v.len() - i,
    {
        match placeholder_end(&v, i) {
            Some(e) => {
                let name = chars_to_string(&v, i + 1, e - 1);
                match setting(settings, &name) {
                    Some(value) => {
                        out.append(value.as_str());
                        changed = true;
                        i = e;
                    },
                    None => {
                        return Err(name);
                    },
                }
            },
            None => {
                out.push(v[i]);
                i += 1;
            },
        }
    }
    Ok((out, changed))
}

/// Expands the placeholders of `syntax` with the settings `settings`.
/// Settings that name other settings are expanded in their turn, in at most
/// as many rounds as there are settings.
pub fn interpolate(syntax: &str, settings: &OrderedMap<String>) -> (r: Result<String, LinkMLError>)
    ensures
        match spec_interpolate(syntax@, settings.deep_view()) {
            Ok(t) => r matches Ok(x) && x@ == t,
            Err(e) => r matches Err(x) && x.deep_view() == e,
        },
{
    let mut rounds = settings.len();
    let mut current = String::from_str(syntax);
    loop
        invariant
            spec_interpolate(syntax@, settings.deep_view()) == spec_expand(
                current@,
                settings.deep_view(),
                rounds as nat,
            ),
        decreases rounds,
    {
        match expand_once(current.as_str(), settings) {
            Err(name) => {
                return Err(LinkMLError::PatternError { name, cause: PatternFailure::Unresolved });
            },
            Ok((t, changed)) => {
                if !changed {
                    return Ok(t);
                }
                if rounds == 0 {
                    return Err(
                        LinkMLError::PatternError { name: current, cause: PatternFailure::Cycle },
                    );
                }
                rounds -= 1;
                current = t;
            },
        }
    }
}

/// The regular expression that a structured pattern stands for: its syntax
/// as it is, or with its placeholders expanded if it is interpolated.
pub fn compile_pattern(pattern: &StructuredPattern, settings: &OrderedMap<String>) -> (r: Result<
    String,
    LinkMLError,
>)
    ensures
        match (if pattern.interpolated {
            spec_interpolate(pattern.syntax@, settings.deep_view())
        } else {
            Ok(pattern.syntax@)
        }) {
            Ok(t) => r matches Ok(x) && x@ == t,
            Err(e) => r matches Err(x) && x.deep_view() == e,
        },
{
    if pattern.interpolated {
        interpolate(pattern.syntax.as_str(), settings)
    } else {
        Ok(pattern.syntax.clone())
    }
}

} // verus!
