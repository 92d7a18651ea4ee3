//! The parts of a JSON text that the protocol reads, obtained through
//! `serde_json`.

use vstd::prelude::*;

verus! {

#[verifier::external_type_specification]
#[verifier::external_body]
pub struct ExJsonValue(serde_json::Value);

/// What one member of a JSON object holds, as far as the protocol cares.
#[derive(Clone, Debug)]
pub enum JsonMember {
    /// No such member, or the text is not an object.
    Absent,
    Null,
    Text(String),
    /// A number, with its value when it is an integer in `0..=u64::MAX`.
    Number(Option<u64>),
    /// A boolean, an array or an object.
    Other,
}

pub enum MemberView {
    Absent,
    Null,
    Text(Seq<char>),
    Number(Option<u64>),
    Other,
}

impl View for JsonMember {
    type V = MemberView;

    open spec fn view(&self) -> MemberView {
        match self {
            JsonMember::Absent => MemberView::Absent,
            JsonMember::Null => MemberView::Null,
            JsonMember::Text(s) => MemberView::Text(s@),
            JsonMember::Number(n) => MemberView::Number(*n),
            JsonMember::Other => MemberView::Other,
        }
    }
}

/// Whether `serde_json::from_str::<serde_json::Value>` accepts `text`.
pub uninterp spec fn json_parses(text: Seq<char>) -> bool;

/// What `serde_json::Value::get(key)` finds in the value that `text` parses
/// to, in the shape of a `JsonMember`.
pub uninterp spec fn json_member(text: Seq<char>, key: Seq<char>) -> MemberView;

/// A parsed JSON text, kept together with the text it came from.
pub struct JsonDocument {
    value: serde_json::Value,
    text: String,
}

impl JsonDocument {
    /// The text this document was parsed from.
    pub closed spec fn text(&self) -> Seq<char> {
        self.text@
    }
}

/// Relies on `serde_json::from_str::<serde_json::Value>`: it fails exactly on
/// the texts it does not accept; the failure is handed on as its message.
#[verifier::external_body]
pub(crate) fn parse_json(line: &str) -> (r: Result<JsonDocument, String>)
    ensures
        r is Ok <==> json_parses(line@),
        r matches Ok(d) ==> d.text() == line@,
{
    match serde_json::from_str::<serde_json::Value>(line) {
        Ok(value) => Ok(JsonDocument { value, text: line.to_string() }),
        Err(e) => Err(e.to_string()),
    }
}

/// Relies on `serde_json::Value::get` with a string key (a member of an
/// object, `None` for any other value) and on `serde_json::Number::as_u64`.
#[verifier::external_body]
pub(crate) fn member(doc: &JsonDocument, key: &str) -> (r: JsonMember)
    ensures
        r@ == json_member(doc.text(), key@),
{
    match doc.value.get(key) {
        None => JsonMember::Absent,
        Some(serde_json::Value::Null) => JsonMember::Null,
        Some(serde_json::Value::String(s)) => JsonMember::Text(s.clone()),
        Some(serde_json::Value::Number(n)) => JsonMember::Number(n.as_u64()),
        Some(_) => JsonMember::Other,
    }
}

} // verus!
