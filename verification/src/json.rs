//! Reading the JSON document of a reply.

use vstd::prelude::*;

verus! {

/// `serde_json::Value`, a parsed document, carried through as it is.
#[verifier::external_type_specification]
#[verifier::external_body]
pub struct ExValue(serde_json::Value);

/// `serde_json::Error`, what the parser reports, carried through as it is.
#[verifier::external_type_specification]
#[verifier::external_body]
pub struct ExError(serde_json::Error);

/// What `serde_json::from_slice` makes of `body`: the string members of the
/// document it parses, or the text of the error it reports.
pub uninterp spec fn json_parse(body: Seq<u8>) -> Result<Map<Seq<char>, Seq<char>>, Seq<char>>;

/// The string members of a document: the members of a top-level object
/// whose values are strings, by name. A document that is no object has none.
pub uninterp spec fn json_strings(document: serde_json::Value) -> Map<Seq<char>, Seq<char>>;

/// The text that a parse error displays.
pub uninterp spec fn json_error_text(error: serde_json::Error) -> Seq<char>;

/// Calls `serde_json::from_slice`. The outcome is a function of the bytes
/// alone; nothing more is claimed of it.
#[verifier::external_body]
fn parse_document(body: &[u8]) -> (parsed: Result<serde_json::Value, serde_json::Error>)
    ensures
        match parsed {
            Ok(document) => json_parse(body@) == Ok::<Map<Seq<char>, Seq<char>>, Seq<char>>(
                json_strings(document),
            ),
            Err(error) => json_parse(body@) == Err::<Map<Seq<char>, Seq<char>>, Seq<char>>(
                json_error_text(error),
            ),
        },
{
    serde_json::from_slice(body)
}

/// Indexes the document by `key` and calls `Value::as_str` on what is
/// there. Indexing gives null unless the document is an object with that
/// member, and `as_str` gives a string only for a string value.
#[verifier::external_body]
fn string_member(document: &serde_json::Value, key: &str) -> (member: Option<String>)
    ensures
        match member {
            Some(value) => json_strings(*document).contains_key(key@) && json_strings(
                *document,
            )[key@] == value@,
            None => !json_strings(*document).contains_key(key@),
        },
{
    document[key].as_str().map(str::to_owned)
}

/// Formats the error with its `Display` impl.
#[verifier::external_body]
fn error_text(error: &serde_json::Error) -> (text: String)
    ensures
        text@ == json_error_text(*error),
{
    error.to_string()
}

/// The member `key` of the parsed members, if there is one.
pub open spec fn member_of(members: Map<Seq<char>, Seq<char>>, key: Seq<char>) -> Option<
    Seq<char>,
> {
    if members.contains_key(key) {
        Some(members[key])
    } else {
        None
    }
}

/// What `read_string_member` returns for a parse outcome.
pub open spec fn string_member_of(
    parsed: Result<Map<Seq<char>, Seq<char>>, Seq<char>>,
    key: Seq<char>,
) -> Result<Option<Seq<char>>, Seq<char>> {
    match parsed {
        Ok(members) => Ok(member_of(members, key)),
        Err(detail) => Err(detail),
    }
}

/// Parses `body` as JSON and reads the top-level member `key` if it is a
/// string. `Ok(None)` says that the document has no such member or that
/// the member is no string; `Err` carries the parser's message.
pub fn read_string_member(body: &[u8], key: &str) -> (member: Result<Option<String>, String>)
    ensures
        match string_member_of(json_parse(body@), key@) {
            Ok(Some(value)) => member matches Ok(Some(found)) && found@ == value,
            Ok(None) => member == Ok::<Option<String>, String>(None),
            Err(detail) => member matches Err(message) && message@ == detail,
        },
{
    match parse_document(body) {
        Ok(document) => Ok(string_member(&document, key)),
        Err(error) => Err(error_text(&error)),
    }
}

} // verus!
