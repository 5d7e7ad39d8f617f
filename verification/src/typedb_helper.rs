//! Writing instances as TypeQL insert statements.

use crate::error::LinkMLError;
use crate::text::str_to_chars;
use vstd::prelude::*;
use vstd::string::*;

verus! {

/// Whether Unicode gives `c` the property `Uppercase`.
pub uninterp spec fn spec_char_is_uppercase(c: char) -> bool;

/// The lowercase mapping of `c` in Unicode: one character or more.
pub uninterp spec fn spec_char_lowercase(c: char) -> Seq<char>;

/// `char::is_uppercase`: whether the character has the Unicode property
/// `Uppercase`.
#[verifier::external_body]
fn char_is_uppercase(c: char) -> (r: bool)
    ensures
        r == spec_char_is_uppercase(c),
{
    c.is_uppercase()
}

/// `char::to_lowercase`: the characters of the lowercase mapping of the
/// character, of which there is at least one.
#[verifier::external_body]
fn char_to_lowercase(c: char) -> (r: Vec<char>)
    ensures
        r@ == spec_char_lowercase(c),
        r@.len() >= 1,
{
    c.to_lowercase().collect()
}

/// The name in snake case, from character `i` on: each character is replaced
/// by the first character of its lowercase mapping, and an underscore is put
/// before an uppercase character that follows a character that is not
/// uppercase.
pub open spec fn spec_snake_from(s: Seq<char>, i: int, acc: Seq<char>) -> Seq<char>
    decreases s.len() - i,
{
    if !(0 <= i < s.len()) {
        acc
    } else {
        let low = spec_char_lowercase(s[i])[0];
        if spec_char_is_uppercase(s[i]) && i > 0 && !spec_char_is_uppercase(s[i - 1]) {
            spec_snake_from(s, i + 1, acc.push('_').push(low))
        } else {
            spec_snake_from(s, i + 1, acc.push(low))
        }
    }
}

/// The name in snake case.
pub open spec fn spec_snake_case(s: Seq<char>) -> Seq<char> {
    spec_snake_from(s, 0, Seq::empty())
}

/// Converts a name in camel case to snake case: `TangentUnit` becomes
/// `tangent_unit`. A run of uppercase characters stays together.
pub fn to_snake_case(s: &str) -> (r: String)
    ensures
        r@ == spec_snake_case(s@),
{
    let v = str_to_chars(s);
    let mut out = String::new();
    let mut i: usize = 0;
    let mut prev_upper = false;
    while i < v.len()
        invariant
            i <= v.len(),
            i > 0 ==> prev_upper == spec_char_is_uppercase(v@[i - 1]),
            spec_snake_from(v@, 0, Seq::empty()) == spec_snake_from(v@, i as int, out@),
        decreases v.len() - i,
    {
        let c = v[i];
        let upper = char_is_uppercase(c);
        let low = char_to_lowercase(c);
        if upper && i > 0 && !prev_upper {
            out.push('_');
        }
        out.push(low[0]);
        prev_upper = upper;
        i += 1;
    }
    out
}

/// What stands for `c` inside a quoted TypeQL string.
pub open spec fn spec_escaped_char(c: char) -> Seq<char> {
    if c == '\\' {
        seq!['\\', '\\']
    } else if c == '"' {
        seq!['\\', '"']
    } else if c == '\n' {
        seq!['\\', 'n']
    } else if c == '\r' {
        seq!['\\', 'r']
    } else if c == '\t' {
        seq!['\\', 't']
    } else {
        seq![c]
    }
}

/// `s` from character `i` on, escaped, after `acc`.
pub open spec fn spec_escape_from(s: Seq<char>, i: int, acc: Seq<char>) -> Seq<char>
    decreases s.len() - i,
{
    if !(0 <= i < s.len()) {
        acc
    } else {
        spec_escape_from(s, i + 1, acc + spec_escaped_char(s[i]))
    }
}

/// `s` with each backslash, double quote, line feed, carriage return and tab
/// replaced by its escape.
pub open spec fn spec_escape_string(s: Seq<char>) -> Seq<char> {
    spec_escape_from(s, 0, Seq::empty())
}

/// Escapes the characters that cannot stand in a quoted TypeQL string.
pub fn escape_string(s: &str) -> (r: String)
    ensures
        r@ == spec_escape_string(s@),
{
    let v = str_to_chars(s);
    let mut out = String::new();
    let mut i: usize = 0;
    while i < v.len()
        invariant
            i <= v.len(),
            spec_escape_from(v@, 0, Seq::empty()) == spec_escape_from(v@, i as int, out@),
        decreases v.len() - i,
    {
        let c = v[i];
        let ghost before = out@;
        if c == '\\' {
            out.push('\\');
            out.push('\\');
        } else if c == '"' {
            out.push('\\');
            out.push('"');
        } else if c == '\n' {
            out.push('\\');
            out.push('n');
        } else if c == '\r' {
            out.push('\\');
            out.push('r');
        } else if c == '\t' {
            out.push('\\');
            out.push('t');
        } else {
            out.push(c);
        }
        assert(out@ =~= before + spec_escaped_char(c));
        i += 1;
    }
    out
}

/// The value of an attribute of an instance.
#[derive(Debug)]
pub enum AttributeValue {
    /// A string.
    Text(String),
    /// A number, in its decimal form.
    Number(String),
    /// A truth value.
    Bool(bool),
    /// No value.
    Null,
    /// A list or an object, in its JSON form.
    Composite(String),
}

/// One attribute of an instance.
#[derive(Debug)]
pub struct Attribute {
    /// The name of the attribute.
    pub name: String,
    /// Its value.
    pub value: AttributeValue,
}

/// An instance of a class.
#[derive(Debug)]
pub struct DataInstance {
    /// The name of the class.
    pub class_name: String,
    /// The identifier of the instance.
    pub id: Option<String>,
    /// The attributes, in the order in which they are written out.
    pub data: Vec<Attribute>,
}

/// The string that stands for a value.
pub open spec fn spec_value_string(v: AttributeValue) -> Seq<char> {
    match v {
        AttributeValue::Text(s) => s@,
        AttributeValue::Number(s) => s@,
        AttributeValue::Bool(b) => if b {
            "true"@
        } else {
            "false"@
        },
        AttributeValue::Null => Seq::empty(),
        AttributeValue::Composite(s) => s@,
    }
}

/// The string that stands for a value.
pub fn value_to_string(v: &AttributeValue) -> (r: String)
    ensures
        r@ == spec_value_string(*v),
{
    match v {
        AttributeValue::Text(s) => s.clone(),
        AttributeValue::Number(s) => s.clone(),
        AttributeValue::Bool(b) => if *b {
            String::from_str("true")
        } else {
            String::from_str("false")
        },
        AttributeValue::Null => String::new(),
        AttributeValue::Composite(s) => s.clone(),
    }
}

/// The clause that states one attribute: `, has name "value"`.
pub open spec fn spec_has_clause(name: Seq<char>, value: Seq<char>) -> Seq<char> {
    ", has "@ + name + " \""@ + spec_escape_string(value) + "\""@
}

/// The clauses of the attributes from the `i`-th on, after `acc`.
pub open spec fn spec_clauses_from(data: Seq<Attribute>, i: int, acc: Seq<char>) -> Seq<char>
    decreases data.len() - i,
{
    if !(0 <= i < data.len()) {
        acc
    } else {
        spec_clauses_from(
            data,
            i + 1,
            acc + spec_has_clause(
                spec_snake_case(data[i].name@),
                spec_value_string(data[i].value),
            ),
        )
    }
}

/// The insert statement for an instance: the type is the class name in snake
/// case, then the identifier if there is one, then each attribute in order.
pub open spec fn spec_typeql(instance: DataInstance) -> Seq<char> {
    let head = "insert $x isa "@ + spec_snake_case(instance.class_name@);
    let with_id = match instance.id {
        Some(id) => head + spec_has_clause("id"@, id@),
        None => head,
    };
    spec_clauses_from(instance.data@, 0, with_id) + ";"@
}

/// Appends the clause that states one attribute.
fn push_has_clause(out: &mut String, name: &str, value: &str)
    ensures
        final(out)@ == old(out)@ + spec_has_clause(name@, value@),
{
    let escaped = escape_string(value);
    let ghost before = out@;
    out.append(", has ");
    out.append(name);
    out.append(" \"");
    out.append(escaped.as_str());
    out.append("\"");
    assert(out@ =~= before + spec_has_clause(name@, value@));
}

/// Writes an instance as a TypeQL insert statement.
pub fn instance_to_typeql(instance: &DataInstance) -> (r: Result<String, LinkMLError>)
    ensures
        r matches Ok(s) && s@ == spec_typeql(*instance),
{
    let kind = to_snake_case(instance.class_name.as_str());
    let mut out = String::from_str("insert $x isa ");
    out.append(kind.as_str());
    match &instance.id {
        Some(id) => {
            push_has_clause(&mut out, "id", id.as_str());
        },
        None => {},
    }
    let ghost start = out@;
    let mut i: usize = 0;
    while i < instance.data.len()
        invariant
            i <= instance.data.len(),
            spec_clauses_from(instance.data@, 0, start) == spec_clauses_from(
                instance.data@,
                i as int,
                out@,
            ),
        decreases instance.data.len() - i,
    {
        let attribute = &instance.data[i];
        let name = to_snake_case(attribute.name.as_str());
        let value = value_to_string(&attribute.value);
        push_has_clause(&mut out, name.as_str(), value.as_str());
        i += 1;
    }
    out.append(";");
    Ok(out)
}

} // verus!
