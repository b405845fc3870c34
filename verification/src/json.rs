//! What the library takes for granted about `serde_json`.
//!
//! `serde_json` parses the bodies of replies and quotes the strings of
//! requests. Nothing in this file is proved: each contract states what the
//! named function of `serde_json` does, in terms of three names for what
//! it computes. `members` stands for what a parsed document holds, `parsed`
//! for what parsing makes of a body, `quoted` for the JSON text of a
//! string.

use vstd::prelude::*;

verus! {

/// `serde_json::Value`, a parsed JSON document. Its inside is not visible
/// here: the library reads it through `text_member` and `flag_member`.
#[verifier::external_type_specification]
#[verifier::external_body]
pub struct ExValue(serde_json::Value);

/// `serde_json::Error`, carried from the parser to the caller.
#[verifier::external_type_specification]
#[verifier::external_body]
pub struct ExJsonError(serde_json::Error);

/// What a member of a parsed document holds, as far as the library reads it.
pub enum Item {
    /// A JSON boolean.
    Flag(bool),
    /// A JSON string.
    Text(Seq<char>),
    /// Anything else: null, a number, an array or an object.
    Other,
}

/// The members of a parsed document: those of the object, where the
/// document is one, and none where it is anything else.
pub uninterp spec fn members(doc: serde_json::Value) -> Map<Seq<char>, Item>;

/// What `serde_json::from_slice` makes of a body: the members of the
/// document where the body is JSON text, nothing where it is not.
pub uninterp spec fn parsed(body: Seq<u8>) -> Option<Map<Seq<char>, Item>>;

/// What `serde_json::to_vec` writes for a string: the string as JSON text,
/// between double quotes and with its escapes.
pub uninterp spec fn quoted(text: Seq<char>) -> Option<Seq<u8>>;

/// Parses a body with `serde_json::from_slice`.
///
/// Not proved here: whether the call succeeds and which members the document
/// then has depend on the bytes of the body alone.
#[verifier::external_body]
pub(crate) fn parse(body: &[u8]) -> (doc: Result<serde_json::Value, serde_json::Error>)
    ensures
        match doc {
            Ok(value) => parsed(body@) == Some(members(value)),
            Err(_) => parsed(body@) is None,
        },
{
    serde_json::from_slice::<serde_json::Value>(body)
}

/// The string under a name, where the members hold one there.
pub open spec fn text_at(doc: Map<Seq<char>, Item>, name: Seq<char>) -> Option<Seq<char>> {
    if doc.contains_key(name) && doc[name] is Text {
        Some(doc[name]->Text_0)
    } else {
        None
    }
}

/// The boolean under a name, where the members hold one there.
pub open spec fn flag_at(doc: Map<Seq<char>, Item>, name: Seq<char>) -> Option<bool> {
    if doc.contains_key(name) && doc[name] is Flag {
        Some(doc[name]->Flag_0)
    } else {
        None
    }
}

/// Looks a member up with `serde_json::Value::get` and reads it with
/// `serde_json::Value::as_str`.
///
/// Not proved here: the call gives a string exactly when the document has
/// a member of that name which is a JSON string, and then gives that string.
#[verifier::external_body]
pub(crate) fn text_member(doc: &serde_json::Value, name: &str) -> (found: Option<String>)
    ensures
        match found {
            Some(text) => text_at(members(*doc), name@) == Some(text@),
            None => text_at(members(*doc), name@) is None,
        },
{
    doc.get(name).and_then(serde_json::Value::as_str).map(String::from)
}

/// Looks a member up with `serde_json::Value::get` and reads it with
/// `serde_json::Value::as_bool`.
///
/// Not proved here: the call gives a boolean exactly when the document has
/// a member of that name which is a JSON boolean, and then gives its value.
#[verifier::external_body]
pub(crate) fn flag_member(doc: &serde_json::Value, name: &str) -> (found: Option<bool>)
    ensures
        found == flag_at(members(*doc), name@),
{
    doc.get(name).and_then(serde_json::Value::as_bool)
}

/// Writes a string as JSON text with `serde_json::to_vec`.
///
/// Not proved here: whether the call succeeds and what it writes depend on
/// the string alone.
#[verifier::external_body]
pub(crate) fn quote(text: &str) -> (written: Result<Vec<u8>, serde_json::Error>)
    ensures
        match written {
            Ok(bytes) => quoted(text@) == Some(bytes@),
            Err(_) => quoted(text@) is None,
        },
{
    serde_json::to_vec(text)
}

} // verus!
