//! JSON documents as plain data, and the calls into `serde_json` that read and
//! write their text.

use vstd::prelude::*;

verus! {

/// A JSON document.
///
/// A number is held as its decimal text, and an object as its members in the
/// order in which they are written.
#[derive(Debug, PartialEq, Eq)]
pub enum Json {
    Null,
    Bool(bool),
    Number(String),
    Str(String),
    Array(Vec<Json>),
    Object(Vec<Member>),
}

/// A member of a JSON object.
#[derive(Debug, PartialEq, Eq)]
pub struct Member {
    pub name: String,
    pub value: Json,
}

/// A JSON document as a mathematical value.
pub enum JsonView {
    Null,
    Bool(bool),
    Number(Seq<char>),
    Str(Seq<char>),
    Array(Seq<JsonView>),
    Object(Seq<(Seq<char>, JsonView)>),
}

/// The mathematical value of a document.
pub open spec fn json_view(doc: Json) -> JsonView
    decreases doc,
{
    match doc {
        Json::Null => JsonView::Null,
        Json::Bool(b) => JsonView::Bool(b),
        Json::Number(text) => JsonView::Number(text@),
        Json::Str(text) => JsonView::Str(text@),
        Json::Array(items) => JsonView::Array(
            Seq::new(
                items@.len(),
                |i: int|
                    if 0 <= i < items@.len() {
                        json_view(items@[i])
                    } else {
                        JsonView::Null
                    },
            ),
        ),
        Json::Object(members) => JsonView::Object(
            Seq::new(
                members@.len(),
                |i: int|
                    if 0 <= i < members@.len() {
                        (members@[i].name@, json_view(members@[i].value))
                    } else {
                        (Seq::empty(), JsonView::Null)
                    },
            ),
        ),
    }
}

impl View for Json {
    type V = JsonView;

    open spec fn view(&self) -> JsonView {
        json_view(*self)
    }
}

/// The value of the first member of `members` that is called `key`.
pub open spec fn member(members: Seq<(Seq<char>, JsonView)>, key: Seq<char>) -> Option<JsonView>
    decreases members.len(),
{
    if members.len() == 0 {
        None
    } else if members[0].0 == key {
        Some(members[0].1)
    } else {
        member(members.skip(1), key)
    }
}

/// `serde_json`'s tree of a JSON document.
#[verifier::external_type_specification]
#[verifier::external_body]
pub struct ExValue(serde_json::Value);

/// `serde_json`'s error.
#[verifier::external_type_specification]
#[verifier::external_body]
pub struct ExError(serde_json::Error);

/// The document that `serde_json::from_slice` reads from `text`, or `None`
/// where it rejects `text`.
pub uninterp spec fn json_parsed(text: Seq<u8>) -> Option<JsonView>;

/// The text that `serde_json::to_vec` writes for `doc`, or `None` where `doc`
/// holds a number whose text `serde_json` does not read as a number.
pub uninterp spec fn json_printed(doc: JsonView) -> Option<Seq<u8>>;

/// Copies a `serde_json::Value` into a `Json`, variant by variant. A number
/// is copied as the text that `serde_json::Number` displays.
#[verifier::external_body]
fn json_from_value(value: serde_json::Value) -> Json {
    match value {
        serde_json::Value::Null => Json::Null,
        serde_json::Value::Bool(b) => Json::Bool(b),
        serde_json::Value::Number(n) => Json::Number(n.to_string()),
        serde_json::Value::String(s) => Json::Str(s),
        serde_json::Value::Array(a) => Json::Array(a.into_iter().map(json_from_value).collect()),
        serde_json::Value::Object(o) => Json::Object(
            o.into_iter().map(|(k, v)| Member { name: k, value: json_from_value(v) }).collect(),
        ),
    }
}

/// Copies a `Json` into a `serde_json::Value`, variant by variant. A number's
/// text is read by `serde_json::from_str` as a `serde_json::Number`, whose error
/// is handed on.
#[verifier::external_body]
fn value_from_json(doc: &Json) -> Result<serde_json::Value, serde_json::Error> {
    Ok(match doc {
        Json::Null => serde_json::Value::Null,
        Json::Bool(b) => serde_json::Value::Bool(*b),
        Json::Number(text) => serde_json::Value::Number(serde_json::from_str(text)?),
        Json::Str(text) => serde_json::Value::String(text.clone()),
        Json::Array(items) => serde_json::Value::Array(
            items.iter().map(value_from_json).collect::<Result<_, _>>()?,
        ),
        Json::Object(members) => serde_json::Value::Object(
            members.iter().map(|m| Ok((m.name.clone(), value_from_json(&m.value)?))).collect::<Result<_, serde_json::Error>>()?,
        ),
    })
}

/// `serde_json::from_slice` at the type `serde_json::Value`, its result copied
/// into a `Json`. What comes back depends on `text` alone; the contract gives it
/// the name `json_parsed(text)` and claims nothing else of it.
#[verifier::external_body]
fn parse_text(text: &[u8]) -> (res: Result<Json, serde_json::Error>)
    ensures
        match res {
            Ok(doc) => json_parsed(text@) == Some(doc@),
            Err(_) => json_parsed(text@) is None,
        },
{
    serde_json::from_slice::<serde_json::Value>(text).map(json_from_value)
}

/// `serde_json::to_vec` on the `serde_json::Value` that `doc` is copied into.
/// What comes back depends on `doc` alone; the contract gives it the name
/// `json_printed(doc)` and claims nothing else of it.
#[verifier::external_body]
fn print_text(doc: &Json) -> (res: Result<Vec<u8>, serde_json::Error>)
    ensures
        match res {
            Ok(text) => json_printed(doc@) == Some(text@),
            Err(_) => json_printed(doc@) is None,
        },
{
    serde_json::to_vec(&value_from_json(doc)?)
}

/// The `Display` text of a `serde_json::Error`. Nothing is claimed of it.
#[verifier::external_body]
fn complaint(error: &serde_json::Error) -> String {
    error.to_string()
}

/// Reads `text` as a JSON document, or hands back `serde_json`'s complaint.
pub fn parse(text: &[u8]) -> (res: Result<Json, String>)
    ensures
        match res {
            Ok(doc) => json_parsed(text@) == Some(doc@),
            Err(_) => json_parsed(text@) is None,
        },
{
    match parse_text(text) {
        Ok(doc) => Ok(doc),
        Err(e) => Err(complaint(&e)),
    }
}

/// Writes `doc` as JSON text, or hands back `serde_json`'s complaint.
pub fn print(doc: &Json) -> (res: Result<Vec<u8>, String>)
    ensures
        match res {
            Ok(text) => json_printed(doc@) == Some(text@),
            Err(_) => json_printed(doc@) is None,
        },
{
    match print_text(doc) {
        Ok(text) => Ok(text),
        Err(e) => Err(complaint(&e)),
    }
}

} // verus!
