use vstd::prelude::*;

use crate::error::FlyIoError;

verus! {

#[verifier::external_type_specification]
#[verifier::external_body]
pub struct ExValue(serde_json::Value);

/// What the secret listing printed by the CLI holds, read off the raw
/// text: `None` when the text is not valid JSON; otherwise, for each
/// name in the top-level object, the secret's text when its value is a
/// JSON string, and `None` for a value of any other shape. A listing
/// that is valid JSON but not an object holds no names at all.
pub uninterp spec fn json_object_entries(s: Seq<char>) -> Option<Map<Seq<char>, Option<Seq<char>>>>;

/// The same reading of a listing, taken off the parsed value instead of
/// the raw text.
pub uninterp spec fn object_entries(v: serde_json::Value) -> Map<Seq<char>, Option<Seq<char>>>;

/// The characters of a parsed value when it is a JSON string, and
/// `None` when it is a value of any other shape.
pub uninterp spec fn text_of(v: serde_json::Value) -> Option<Seq<char>>;

/// Relies on serde_json::from_str::<Value>: it returns Ok exactly on
/// valid JSON text, and the parse depends on the text alone.
#[verifier::external_body]
fn parse_json(s: &str) -> (r: Option<serde_json::Value>)
    ensures
        r is Some <==> json_object_entries(s@) is Some,
        r matches Some(v) ==> json_object_entries(s@) == Some(object_entries(v)),
{
    serde_json::from_str::<serde_json::Value>(s).ok()
}

/// Relies on serde_json::Value::get: with a string index it returns the
/// value under that key of a JSON object, and None when the key is
/// absent or the value is not an object.
#[verifier::external_body]
fn json_get<'a>(v: &'a serde_json::Value, key: &str) -> (r: Option<&'a serde_json::Value>)
    ensures
        r is Some <==> object_entries(*v).dom().contains(key@),
        r matches Some(w) ==> object_entries(*v).dom().contains(key@) && text_of(*w)
            == object_entries(*v)[key@],
{
    v.get(key)
}

/// Relies on serde_json::Value::as_str: it returns the characters of a
/// JSON string and None for a value of any other shape.
#[verifier::external_body]
fn json_as_str<'a>(v: &'a serde_json::Value) -> (r: Option<&'a str>)
    ensures
        match r {
            Some(s) => text_of(*v) == Some(s@),
            None => text_of(*v) is None,
        },
{
    v.as_str()
}

/// The text handed back for one entry of the listing: the secret's own
/// text when the value was a JSON string, and the empty text otherwise.
pub open spec fn entry_text(e: Option<Seq<char>>) -> Seq<char> {
    match e {
        Some(s) => s,
        None => Seq::empty(),
    }
}

/// What looking a secret up in the raw listing text comes to: `None`
/// when the text does not parse or the name is absent, and otherwise
/// the text of the entry under the name.
pub open spec fn lookup_result(output: Seq<char>, name: Seq<char>) -> Option<Seq<char>> {
    match json_object_entries(output) {
        Some(entries) => if entries.dom().contains(name) {
            Some(entry_text(entries[name]))
        } else {
            None
        },
        None => None,
    }
}

/// Finds the secret called `name` in the JSON listing `output`.
///
/// A listing that does not parse, and one that parses but has no entry
/// under the name, both come back as `SecretNotFound`; an entry whose
/// value is not a JSON string comes back as the empty string.
pub fn lookup_secret(output: &str, name: &str) -> (r: Result<String, FlyIoError>)
    ensures
        match r {
            Ok(value) => lookup_result(output@, name@) == Some(value@),
            Err(e) => lookup_result(output@, name@) is None && (e
                matches FlyIoError::SecretNotFound(n) && n@ == name@),
        },
{
    match parse_json(output) {
        Some(v) => match json_get(&v, name) {
            Some(w) => match json_as_str(w) {
                Some(s) => Ok(s.to_owned()),
                None => Ok(String::new()),
            },
            None => Err(FlyIoError::SecretNotFound(name.to_owned())),
        },
        None => Err(FlyIoError::SecretNotFound(name.to_owned())),
    }
}

} // verus!
