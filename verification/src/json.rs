//! The JSON text of a configuration document, as `serde_json` reads it.
//!
//! Parsing is `serde_json`'s work and none of it is proved here. This module
//! holds what the rest of the library believes of it: that a document either
//! is refused or is an object, and what the members of that object are.

use vstd::prelude::*;

verus! {

/// `serde_json::Value`, a parsed JSON value. Nothing is known of what is
/// inside one.
#[verifier::external_type_specification]
#[verifier::external_body]
pub struct ExJsonValue(serde_json::Value);

/// `serde_json::Map`, a parsed JSON object. What one holds is spoken of
/// through [`object_members`] alone.
#[verifier::external_type_specification]
#[verifier::external_body]
#[verifier::reject_recursive_types(K)]
#[verifier::reject_recursive_types(V)]
pub struct ExJsonMap<K, V>(serde_json::Map<K, V>);

/// `serde_json::Error`, the parser's account of a refusal. Nothing is known
/// of what is inside one.
#[verifier::external_type_specification]
#[verifier::external_body]
pub struct ExJsonError(serde_json::Error);

/// Where and in which words the parser refuses a document.
pub struct Refusal {
    pub line: nat,
    pub column: nat,
    pub message: Seq<char>,
}

/// What `serde_json::from_slice` makes of a document that is read as an
/// object: where it refuses the document, what its error says, as
/// [`refusal_of`] gives it; else the members of the object, as
/// [`object_members`] gives them.
pub uninterp spec fn json_object(document: Seq<u8>) -> Result<
    Map<Seq<char>, Option<Seq<char>>>,
    Refusal,
>;

/// The members of a parsed object, by key: the text of a member that is a
/// JSON string, `None` for a member of any other kind.
pub uninterp spec fn object_members(object: serde_json::Map<String, serde_json::Value>) -> Map<
    Seq<char>,
    Option<Seq<char>>,
>;

/// What stands under one key of a document.
#[derive(Clone, Debug, PartialEq, Eq)]
pub enum Member {
    /// The document has no such key.
    Absent,
    /// The key holds a JSON string, with this text.
    Text(String),
    /// The key holds a value that is no string.
    Other,
}

/// The mathematical reading of a [`Member`].
pub enum MemberView {
    Absent,
    Text(Seq<char>),
    Other,
}

impl View for Member {
    type V = MemberView;

    open spec fn view(&self) -> MemberView {
        match self {
            Member::Absent => MemberView::Absent,
            Member::Text(text) => MemberView::Text(text@),
            Member::Other => MemberView::Other,
        }
    }
}

/// What stands under `key` among the members of an object.
pub open spec fn lookup(members: Map<Seq<char>, Option<Seq<char>>>, key: Seq<char>) -> MemberView {
    if !members.contains_key(key) {
        MemberView::Absent
    } else {
        match members[key] {
            Some(text) => MemberView::Text(text),
            None => MemberView::Other,
        }
    }
}

/// Calls `serde_json::from_slice` to read a whole document as an object.
/// Believed: the outcome depends on the bytes alone, so it has the name
/// [`json_object`]; an object is its members there, and a refusal is what
/// the error says.
#[verifier::external_body]
pub(crate) fn parse_object(document: &[u8]) -> (res: Result<
    serde_json::Map<String, serde_json::Value>,
    serde_json::Error,
>)
    ensures
        match res {
            Ok(object) => json_object(document@) == Ok::<
                Map<Seq<char>, Option<Seq<char>>>,
                Refusal,
            >(object_members(object)),
            Err(error) => json_object(document@) == Err::<
                Map<Seq<char>, Option<Seq<char>>>,
                Refusal,
            >(refusal_of(error)),
        },
{
    serde_json::from_slice(document)
}

/// Calls `serde_json::Map::get` and tells a string from any other value.
/// Believed: the answer is what [`object_members`] holds under the key.
#[verifier::external_body]
pub(crate) fn member(object: &serde_json::Map<String, serde_json::Value>, key: &str) -> (res:
    Member)
    ensures
        res@ == lookup(object_members(*object), key@),
{
    match object.get(key) {
        None => Member::Absent,
        Some(serde_json::Value::String(text)) => Member::Text(text.clone()),
        Some(_) => Member::Other,
    }
}

/// The line that `serde_json::Error::line` gives for an error: a number
/// that the error holds.
pub uninterp spec fn refusal_line(error: serde_json::Error) -> usize;

/// The column that `serde_json::Error::column` gives for an error: a number
/// that the error holds.
pub uninterp spec fn refusal_column(error: serde_json::Error) -> usize;

/// The words that the `Display` of `serde_json::Error` writes for an error.
pub uninterp spec fn refusal_message(error: serde_json::Error) -> Seq<char>;

/// What an error of the parser says: its line, its column and its words.
pub open spec fn refusal_of(error: serde_json::Error) -> Refusal {
    Refusal {
        line: refusal_line(error) as nat,
        column: refusal_column(error) as nat,
        message: refusal_message(error),
    }
}

/// Calls `serde_json::Error::line`: the line at which a document was
/// refused. Believed: the number depends on the error alone, so it has the
/// name [`refusal_line`]. Nothing is believed of its size.
#[verifier::external_body]
pub(crate) fn error_line(error: &serde_json::Error) -> (res: usize)
    ensures
        res == refusal_line(*error),
{
    error.line()
}

/// Calls `serde_json::Error::column`: the column at which a document was
/// refused. Believed: the number depends on the error alone, so it has the
/// name [`refusal_column`]. Nothing is believed of its size.
#[verifier::external_body]
pub(crate) fn error_column(error: &serde_json::Error) -> (res: usize)
    ensures
        res == refusal_column(*error),
{
    error.column()
}

/// Formats a `serde_json::Error` with its `Display`: the words in which a
/// document was refused. Believed: the text depends on the error alone, so
/// it has the name [`refusal_message`]. Nothing is believed of what it says.
#[verifier::external_body]
pub(crate) fn error_message(error: &serde_json::Error) -> (res: String)
    ensures
        res@ == refusal_message(*error),
{
    format!("{}", error)
}

} // verus!
