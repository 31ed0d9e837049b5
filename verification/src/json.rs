//! JSON text: objects and lists put together from rendered values.

use vstd::prelude::*;
use vstd::string::*;

use crate::text;

verus! {

/// The character that stands for the hexadecimal digit `d`.
pub open spec fn hex_digit(d: int) -> char {
    if d < 10 {
        ('0' as int + d) as char
    } else {
        ('a' as int + d - 10) as char
    }
}

/// How a character is written in a string: quotation marks, backslashes and
/// control characters are escaped, every other character stands for itself.
pub open spec fn escape(c: char) -> Seq<char> {
    if c == '"' || c == '\\' {
        seq!['\\', c]
    } else if c as int == 8 {
        seq!['\\', 'b']
    } else if c == '\t' {
        seq!['\\', 't']
    } else if c == '\n' {
        seq!['\\', 'n']
    } else if c as int == 12 {
        seq!['\\', 'f']
    } else if c == '\r' {
        seq!['\\', 'r']
    } else if (c as int) < 32 {
        seq!['\\', 'u', '0', '0', hex_digit(c as int / 16), hex_digit(c as int % 16)]
    } else {
        seq![c]
    }
}

/// How the characters of a string are written.
pub open spec fn escaped(s: Seq<char>) -> Seq<char>
    decreases s.len(),
{
    if s.len() == 0 {
        Seq::empty()
    } else {
        escape(s[0]) + escaped(s.skip(1))
    }
}

/// The JSON text of a string.
pub open spec fn string_text(s: Seq<char>) -> Seq<char> {
    seq!['"'] + escaped(s) + seq!['"']
}

/// `serde_json::to_string` on a string: the string's characters between
/// quotation marks, each one escaped as [`escape`] says. Rendering a string
/// does not fail.
#[verifier::external_body]
fn render_string(s: &str) -> (r: String)
    ensures
        r@ == string_text(s@),
{
    serde_json::to_string(s).unwrap()
}

/// A name between quotation marks, for names that need no escapes.
pub open spec fn quoted(name: Seq<char>) -> Seq<char> {
    "\""@ + name + "\""@
}

/// One member of an object: the key, a colon and the rendered value.
pub open spec fn member(key: Seq<char>, value: Seq<char>) -> Seq<char> {
    quoted(key) + ":"@ + value
}

/// An object with the given members, in order.
pub open spec fn object(members: Seq<Seq<char>>) -> Seq<char> {
    "{"@ + text::joined(members, ","@) + "}"@
}

/// A list of the given rendered items, in order.
pub open spec fn list(items: Seq<Seq<char>>) -> Seq<char> {
    "["@ + text::joined(items, ","@) + "]"@
}

/// A list of strings.
pub open spec fn string_list(items: Seq<Seq<char>>) -> Seq<char> {
    list(items.map_values(|item: Seq<char>| string_text(item)))
}

/// A string, or `null` in its absence.
pub open spec fn optional_string(s: Option<Seq<char>>) -> Seq<char> {
    match s {
        Some(s) => string_text(s),
        None => "null"@,
    }
}

/// `true` or `false`.
pub open spec fn boolean(b: bool) -> Seq<char> {
    if b {
        "true"@
    } else {
        "false"@
    }
}

/// Puts a name between quotation marks.
pub fn quoted_text(name: &str) -> (r: String)
    ensures
        r@ == quoted(name@),
{
    let mut r = "\"".to_string();
    r.append(name);
    r.append("\"");
    r
}

/// Renders one member of an object from its key and its rendered value.
pub fn member_text(key: &str, value: &str) -> (r: String)
    ensures
        r@ == member(key@, value@),
{
    let mut r = quoted_text(key);
    r.append(":");
    r.append(value);
    r
}

/// Renders an object from its rendered members.
pub fn object_text(members: &Vec<String>) -> (r: String)
    ensures
        r@ == object(members.deep_view()),
{
    let mut r = "{".to_string();
    r.append(text::join(members, ",").as_str());
    r.append("}");
    r
}

/// Renders a list from its rendered items.
pub fn list_text(items: &Vec<String>) -> (r: String)
    ensures
        r@ == list(items.deep_view()),
{
    let mut r = "[".to_string();
    r.append(text::join(items, ",").as_str());
    r.append("]");
    r
}

/// Renders a string.
pub fn string(s: &str) -> (r: String)
    ensures
        r@ == string_text(s@),
{
    render_string(s)
}

/// Renders a list of strings.
pub fn string_list_text(items: &Vec<String>) -> (r: String)
    ensures
        r@ == string_list(items.deep_view()),
{
    let ghost all = items.deep_view().map_values(|item: Seq<char>| string_text(item));
    let mut rendered: Vec<String> = Vec::new();
    let mut i: usize = 0;
    while i < items.len()
        invariant
            i <= items.len(),
            all == items.deep_view().map_values(|item: Seq<char>| string_text(item)),
            rendered.deep_view() == all.take(i as int),
        decreases items.len() - i,
    {
        let ghost before = rendered.deep_view();
        rendered.push(render_string(items[i].as_str()));
        assert(all[i as int] == string_text(items@[i as int]@));
        assert(rendered.deep_view() =~= before.push(all[i as int]));
        assert(all.take(i + 1) =~= all.take(i as int).push(all[i as int]));
        i = i + 1;
    }
    assert(all.take(items.len() as int) =~= all);
    list_text(&rendered)
}

/// Renders a string, or `null` in its absence.
pub fn optional_string_text(s: &Option<String>) -> (r: String)
    ensures
        r@ == optional_string(s.deep_view()),
{
    match s {
        Some(s) => render_string(s.as_str()),
        None => "null".to_string(),
    }
}

/// Renders `true` or `false`.
pub fn boolean_text(b: bool) -> (r: String)
    ensures
        r@ == boolean(b),
{
    if b {
        "true".to_string()
    } else {
        "false".to_string()
    }
}

} // verus!
