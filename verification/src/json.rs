//! JSON, as `serde_json` reads and writes it. Nothing here is proved: each
//! item says what is taken on trust of one function of that crate.

use vstd::prelude::*;

verus! {

/// `serde_json::Value`, a JSON value of any kind. It is carried from
/// [`read_document`] to [`text_member`] and never looked into.
#[verifier::external_type_specification]
#[verifier::external_body]
pub struct ExValue(serde_json::Value);

/// `serde_json::Error`, the error of reading and of writing. Only its
/// presence is used.
#[verifier::external_type_specification]
#[verifier::external_body]
pub struct ExError(serde_json::Error);

/// The members of a JSON value that are strings, by key. A value that is no
/// object has none. Where the text of an object gave one key twice, the
/// object holds the member that came last.
pub uninterp spec fn text_members(value: serde_json::Value) -> Map<Seq<char>, Seq<char>>;

/// For a text that is a JSON document, the string members of the value it
/// denotes; `None` for any other text.
pub uninterp spec fn document_members(text: Seq<char>) -> Option<Map<Seq<char>, Seq<char>>>;

/// A text as `serde_json` writes it as a JSON string: in quotes, and with
/// escapes for what a JSON string cannot hold as it is.
pub uninterp spec fn quoted(text: Seq<char>) -> Seq<char>;

/// `serde_json::from_str` at the type `serde_json::Value`: reads a whole
/// text as one JSON document. Whether it succeeds, and which string members
/// the value then has, depends on the text alone.
#[verifier::external_body]
pub(crate) fn read_document(text: &str) -> (r: Result<serde_json::Value, serde_json::Error>)
    ensures
        match r {
            Ok(value) => document_members(text@) == Some(text_members(value)),
            Err(_) => document_members(text@) is None,
        },
{
    serde_json::from_str::<serde_json::Value>(text)
}

/// `serde_json::Value::get` with a key: the member of an object under
/// `key`, handed out where it is a string. `None` where the value is no
/// object, has no such member, or has one that is no string.
#[verifier::external_body]
pub(crate) fn text_member(value: &serde_json::Value, key: &str) -> (r: Option<String>)
    ensures
        match r {
            Some(text) => text_members(*value).contains_key(key@) && text_members(*value)[key@]
                == text@,
            None => !text_members(*value).contains_key(key@),
        },
{
    match value.get(key) {
        Some(serde_json::Value::String(text)) => Some(text.clone()),
        _ => None,
    }
}

/// `serde_json::to_string` at the type `str`: writes a text as a JSON
/// string. What it writes depends on the text alone. It does not fail: a
/// text is written into a vector in memory, and the only errors on that
/// way are those of the writer, which a vector does not give.
#[verifier::external_body]
pub(crate) fn quote(text: &str) -> (r: Result<String, serde_json::Error>)
    ensures
        r is Ok,
        match r {
            Ok(written) => written@ == quoted(text@),
            Err(_) => true,
        },
{
    serde_json::to_string(text)
}

} // verus!
