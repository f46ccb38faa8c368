//! The calls into serde_json that the wire envelope relies on, and what they
//! are relied on for.

use vstd::prelude::*;
use vstd::utf8::encode_utf8;

use serde_json::Value;

verus! {

#[verifier::external_type_specification]
#[verifier::external_body]
pub struct ExValue(Value);

/// A lowercase hexadecimal digit.
pub open spec fn hex_digit(d: nat) -> char {
    if d < 10 {
        ((d + 48) as u32) as char
    } else {
        ((d + 87) as u32) as char
    }
}

/// How serde_json writes one character inside a JSON string: quote and
/// backslash get a backslash; backspace, tab, line feed, form feed and
/// carriage return get their short escapes; every other character below
/// 0x20 becomes `\u00` and two lowercase hex digits; all else is unchanged.
pub open spec fn escape_char(c: char) -> Seq<char> {
    if c == '"' {
        seq!['\\', '"']
    } else if c == '\\' {
        seq!['\\', '\\']
    } else if c == '\x08' {
        seq!['\\', 'b']
    } else if c == '\t' {
        seq!['\\', 't']
    } else if c == '\n' {
        seq!['\\', 'n']
    } else if c == '\x0c' {
        seq!['\\', 'f']
    } else if c == '\r' {
        seq!['\\', 'r']
    } else if (c as u32) < 0x20 {
        seq!['\\', 'u', '0', '0', hex_digit((c as u32 / 16) as nat), hex_digit((c as u32 % 16) as nat)]
    } else {
        seq![c]
    }
}

/// The characters of a string, each escaped.
pub open spec fn escaped(s: Seq<char>) -> Seq<char>
    decreases s.len(),
{
    if s.len() == 0 {
        Seq::empty()
    } else {
        escaped(s.drop_last()) + escape_char(s.last())
    }
}

/// The JSON string literal that serde_json writes for a string.
pub open spec fn json_string_of(s: Seq<char>) -> Seq<char> {
    seq!['"'] + escaped(s) + seq!['"']
}

/// The JSON string literals of a sequence of strings, separated by commas.
pub open spec fn joined(items: Seq<Seq<char>>) -> Seq<char>
    decreases items.len(),
{
    if items.len() == 0 {
        Seq::empty()
    } else if items.len() == 1 {
        json_string_of(items[0])
    } else {
        joined(items.drop_last()) + seq![','] + json_string_of(items.last())
    }
}

/// What a JSON value holds: a string, an array, an object with its members
/// in the order the map keeps them, or anything else (null, a boolean, a
/// number).
pub enum JsonTree {
    Text(Seq<char>),
    List(Seq<JsonTree>),
    Object(Seq<(Seq<char>, JsonTree)>),
    Other,
}

/// What a `serde_json::Value` holds.
pub uninterp spec fn json_tree(v: Value) -> JsonTree;

/// The JSON value that serde_json reads from bytes, `None` when they are not
/// a JSON document.
pub uninterp spec fn json_parse(b: Seq<u8>) -> Option<JsonTree>;

/// Strict order of texts by their characters' code points, as the ordering of
/// strings compares their UTF-8 bytes.
pub open spec fn text_less(a: Seq<char>, b: Seq<char>) -> bool {
    exists|k: int|
        0 <= k <= a.len() && k <= b.len() && a.take(k) == b.take(k) && ((k == a.len() && k
            < b.len()) || (k < a.len() && k < b.len() && (a[k] as u32) < (b[k] as u32)))
}

/// The compact JSON text of a string or of an array of strings.
pub open spec fn flat_value_text(v: JsonTree) -> Option<Seq<char>> {
    match v {
        JsonTree::Text(s) => Some(json_string_of(s)),
        JsonTree::List(items) => if forall|i: int| 0 <= i < items.len() ==> #[trigger] items[i] is Text {
            Some(seq!['['] + joined(items.map_values(|x: JsonTree| x->Text_0)) + seq![']'])
        } else {
            None
        },
        _ => None,
    }
}

/// The compact JSON text of one member of an object.
pub open spec fn member_text(p: (Seq<char>, JsonTree)) -> Seq<char> {
    json_string_of(p.0) + seq![':'] + flat_value_text(p.1)->0
}

/// The members of an object, separated by commas.
pub open spec fn members_text(ps: Seq<(Seq<char>, JsonTree)>) -> Seq<char>
    decreases ps.len(),
{
    if ps.len() == 0 {
        Seq::empty()
    } else if ps.len() == 1 {
        member_text(ps[0])
    } else {
        members_text(ps.drop_last()) + seq![','] + member_text(ps.last())
    }
}

/// An object whose keys ascend strictly and whose members are strings or
/// arrays of strings.
pub open spec fn flat_object(ps: Seq<(Seq<char>, JsonTree)>) -> bool {
    &&& forall|i: int, j: int| 0 <= i < j < ps.len() ==> text_less(#[trigger] ps[i].0, #[trigger] ps[j].0)
    &&& forall|i: int| 0 <= i < ps.len() ==> (#[trigger] flat_value_text(ps[i].1)) is Some
}

/// The compact JSON text of such an object, as serde_json writes it.
pub open spec fn flat_object_text(ps: Seq<(Seq<char>, JsonTree)>) -> Seq<char> {
    seq!['{'] + members_text(ps) + seq!['}']
}

/// The value of the first member with key `k`.
pub open spec fn lookup(ps: Seq<(Seq<char>, JsonTree)>, k: Seq<char>) -> Option<JsonTree>
    decreases ps.len(),
{
    if ps.len() == 0 {
        None
    } else if ps[0].0 == k {
        Some(ps[0].1)
    } else {
        lookup(ps.drop_first(), k)
    }
}

/// Relies on `serde_json::to_string` applied to a `str` (`format_escaped_str`
/// and its `ESCAPE` table): the JSON string literal of `s`. Serializing a
/// `str` into memory has no failing path, so the default is never taken.
#[verifier::external_body]
pub(crate) fn quote(s: &str) -> (r: String)
    ensures
        r@ == json_string_of(s@),
{
    serde_json::to_string(s).unwrap_or_default()
}

/// Relies on `serde_json::from_slice` into a `Value`: `None` when the bytes
/// are not a JSON document. It reads back what serde_json writes: the compact
/// text of an object with ascending keys whose members are strings or arrays
/// of strings gives that object.
#[verifier::external_body]
pub(crate) fn parse(b: &[u8]) -> (r: Option<Value>)
    ensures
        match r {
            Some(v) => json_parse(b@) == Some(json_tree(v)),
            None => json_parse(b@) is None,
        },
        forall|ps: Seq<(Seq<char>, JsonTree)>|
            flat_object(ps) && b@ == encode_utf8(#[trigger] flat_object_text(ps)) ==> (r is Some
                && json_tree(r->0) == JsonTree::Object(ps)),
{
    serde_json::from_slice(b).ok()
}

/// Relies on `serde_json::Value::get` with a string key: the member of an
/// object under that key; `None` for a missing key or a value that is not an
/// object.
#[verifier::external_body]
pub(crate) fn member<'a>(v: &'a Value, key: &str) -> (r: Option<&'a Value>)
    ensures
        match json_tree(*v) {
            JsonTree::Object(ps) => match lookup(ps, key@) {
                Some(t) => r matches Some(x) && json_tree(*x) == t,
                None => r is None,
            },
            _ => r is None,
        },
{
    v.get(key)
}

/// Relies on `serde_json::Value::as_str`: the text of a JSON string, `None`
/// for any other value.
#[verifier::external_body]
pub(crate) fn as_text<'a>(v: &'a Value) -> (r: Option<&'a str>)
    ensures
        match json_tree(*v) {
            JsonTree::Text(s) => r matches Some(t) && t@ == s,
            _ => r is None,
        },
{
    v.as_str()
}

/// Relies on `serde_json::Value::as_array`: the elements of a JSON array,
/// `None` for any other value.
#[verifier::external_body]
pub(crate) fn as_list<'a>(v: &'a Value) -> (r: Option<&'a Vec<Value>>)
    ensures
        match json_tree(*v) {
            JsonTree::List(items) => r matches Some(l) && l@.map_values(|x: Value| json_tree(x))
                == items,
            _ => r is None,
        },
{
    v.as_array()
}

} // verus!
