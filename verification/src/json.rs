//! JSON values as `serde_json` holds them, and what they mean.
//!
//! The library keeps `serde_json`'s own types. [`json_value`] and [`json_members`] name what a
//! value and an object hold; the items below say what each `serde_json` call does in those terms.
//! Objects are ordered by key (`serde_json` without `preserve_order`), so the text of a value
//! depends on nothing but what the value holds.

use vstd::prelude::*;

verus! {

/// The mathematical model of a JSON value. A number is modelled by its decimal text.
pub enum JsonView {
    Null,
    Bool(bool),
    Number(Seq<char>),
    Text(Seq<char>),
    Array(Seq<JsonView>),
    Object(Map<Seq<char>, JsonView>),
}

impl JsonView {
    /// The member called `key`, where the value is an object that has one.
    pub open spec fn member(self, key: Seq<char>) -> Option<JsonView> {
        match self {
            JsonView::Object(members) => if members.contains_key(key) {
                Some(members[key])
            } else {
                None
            },
            _ => None,
        }
    }

    /// The text of a JSON string.
    pub open spec fn text(self) -> Option<Seq<char>> {
        match self {
            JsonView::Text(text) => Some(text),
            _ => None,
        }
    }

    /// The text of the member called `key`, where that member is a JSON string.
    pub open spec fn text_member(self, key: Seq<char>) -> Option<Seq<char>> {
        match self.member(key) {
            Some(member) => member.text(),
            None => None,
        }
    }
}

/// `serde_json::Value`, carried as an opaque type.
#[verifier::external_type_specification]
#[verifier::external_body]
pub struct ExJsonValue(serde_json::Value);

/// `serde_json::Map`, carried as an opaque type.
#[verifier::external_type_specification]
#[verifier::external_body]
#[verifier::reject_recursive_types(K)]
#[verifier::reject_recursive_types(V)]
pub struct ExJsonMap<K, V>(serde_json::Map<K, V>);

/// `serde_json::Error`, carried as an opaque type.
#[verifier::external_type_specification]
#[verifier::external_body]
pub struct ExJsonError(serde_json::Error);

/// What a `serde_json::Value` holds.
pub uninterp spec fn json_value(value: serde_json::Value) -> JsonView;

/// The members that a `serde_json` object holds, by key.
pub uninterp spec fn json_members(
    object: serde_json::Map<String, serde_json::Value>,
) -> Map<Seq<char>, JsonView>;

/// What `serde_json::from_str` reads from a text: the value, or `None` where it is no JSON.
pub uninterp spec fn json_parsed(text: Seq<char>) -> Option<JsonView>;

/// The compact text that `serde_json::Value` prints for what it holds.
pub uninterp spec fn json_printed(value: JsonView) -> Seq<char>;

/// A hexadecimal digit, in lower case.
pub open spec fn hex_digit(value: int) -> char {
    if value < 10 {
        (48 + value) as char
    } else {
        (87 + value) as char
    }
}

/// How a character stands in a JSON string literal: quotes, backslashes and control characters
/// are escaped, everything else stands for itself.
pub open spec fn json_escaped(c: char) -> Seq<char> {
    let point = c as int;
    if c == '"' || c == '\\' {
        seq!['\\', c]
    } else if point == 0x8 {
        seq!['\\', 'b']
    } else if point == 0x9 {
        seq!['\\', 't']
    } else if point == 0xa {
        seq!['\\', 'n']
    } else if point == 0xc {
        seq!['\\', 'f']
    } else if point == 0xd {
        seq!['\\', 'r']
    } else if point < 0x20 {
        seq!['\\', 'u', '0', '0', hex_digit(point / 16), hex_digit(point % 16)]
    } else {
        seq![c]
    }
}

/// The characters of a text as they stand in a JSON string literal.
pub open spec fn json_escapes(text: Seq<char>) -> Seq<char>
    decreases text.len(),
{
    if text.len() == 0 {
        Seq::empty()
    } else {
        json_escapes(text.drop_last()) + json_escaped(text.last())
    }
}

/// The JSON string literal of a text.
pub open spec fn json_literal(text: Seq<char>) -> Seq<char> {
    seq!['"'] + json_escapes(text) + seq!['"']
}

/// `serde_json::Value::as_str` gives the text of a JSON string, and nothing for any other value.
pub assume_specification[ serde_json::Value::as_str ](value: &serde_json::Value) -> (text: Option<
    &str,
>)
    ensures
        match text {
            Some(text) => json_value(*value).text() == Some(text@),
            None => json_value(*value).text() is None,
        },
;

/// `serde_json::Value::as_object` gives the members of an object, and nothing for any other value.
pub assume_specification[ serde_json::Value::as_object ](value: &serde_json::Value) -> (object:
    Option<&serde_json::Map<String, serde_json::Value>>)
    ensures
        match object {
            Some(object) => json_value(*value) == JsonView::Object(json_members(*object)),
            None => !(json_value(*value) is Object),
        },
;

/// Cloning a `serde_json` object copies its members.
pub assume_specification[ <serde_json::Map<String, serde_json::Value> as Clone>::clone ](
    object: &serde_json::Map<String, serde_json::Value>,
) -> (copy: serde_json::Map<String, serde_json::Value>)
    ensures
        json_members(copy) == json_members(*object),
;

/// `serde_json::Map::insert` sets one member, leaves the others, and returns the value that the
/// member had before, if any.
pub assume_specification[ serde_json::Map::<String, serde_json::Value>::insert ](
    object: &mut serde_json::Map<String, serde_json::Value>,
    k: String,
    v: serde_json::Value,
) -> (replaced: Option<serde_json::Value>)
    ensures
        json_members(*final(object)) == json_members(*old(object)).insert(k@, json_value(v)),
        match replaced {
            Some(before) => json_members(*old(object)).contains_key(k@) && json_members(
                *old(object),
            )[k@] == json_value(before),
            None => !json_members(*old(object)).contains_key(k@),
        },
;

/// `serde_json::Value::get` with a text key gives the member of that name of an object, and
/// nothing where there is no such member or the value is no object.
#[verifier::external_body]
pub(crate) fn member<'a>(value: &'a serde_json::Value, key: &str) -> (member: Option<
    &'a serde_json::Value,
>)
    ensures
        match member {
            Some(member) => json_value(*value).member(key@) == Some(json_value(*member)),
            None => json_value(*value).member(key@) is None,
        },
{
    value.get(key)
}

/// `serde_json::Value::String` makes a JSON string of a text.
#[verifier::external_body]
pub(crate) fn text_value(text: String) -> (value: serde_json::Value)
    ensures
        json_value(value) == JsonView::Text(text@),
{
    serde_json::Value::String(text)
}

/// `serde_json::Value::Object` makes a JSON object of its members.
#[verifier::external_body]
pub(crate) fn object_value(object: serde_json::Map<String, serde_json::Value>) -> (value:
    serde_json::Value)
    ensures
        json_value(value) == JsonView::Object(json_members(object)),
{
    serde_json::Value::Object(object)
}

/// `serde_json::from_str` reads one JSON value from a text. What it reads depends on the text
/// alone.
#[verifier::external_body]
pub(crate) fn parse(text: &str) -> (parsed: Result<serde_json::Value, serde_json::Error>)
    ensures
        match parsed {
            Ok(value) => json_parsed(text@) == Some(json_value(value)),
            Err(_) => json_parsed(text@) is None,
        },
{
    serde_json::from_str(text)
}

/// The `Display` text of a `serde_json::Value`: compact JSON that depends on nothing but what the
/// value holds.
#[verifier::external_body]
pub(crate) fn print(value: &serde_json::Value) -> (text: String)
    ensures
        text@ == json_printed(json_value(*value)),
{
    value.to_string()
}

/// `serde_json::to_string` on a text makes a JSON string literal of it: in quotes, with the
/// escapes that [`json_escaped`] gives. It does not fail on a text.
#[verifier::external_body]
pub(crate) fn literal(text: &str) -> (literal: Result<String, serde_json::Error>)
    ensures
        literal matches Ok(literal) && literal@ == json_literal(text@),
{
    serde_json::to_string(text)
}

/// The text of the member called `key`, or `default` where there is no such JSON string.
pub fn text_member_or(value: &serde_json::Value, key: &str, default: &str) -> (text: String)
    ensures
        text@ == match json_value(*value).text_member(key@) {
            Some(text) => text,
            None => default@,
        },
{
    match member(value, key) {
        Some(found) => match found.as_str() {
            Some(text) => text.to_owned(),
            None => default.to_owned(),
        },
        None => default.to_owned(),
    }
}

} // verus!
