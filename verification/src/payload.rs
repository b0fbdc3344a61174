//! The data handed to the template engine: JSON values built through
//! `serde_json`, and the mathematical model the contracts speak of.

use vstd::prelude::*;

verus! {

/// A JSON value as the contracts see it.
pub enum Json {
    Null,
    Bool(bool),
    /// A number, by the text that `serde_json` writes for it.
    Number(Seq<char>),
    Text(Seq<char>),
    Array(Seq<Json>),
    /// An object, by the value under each of its keys.
    Object(Map<Seq<char>, Json>),
}

/// `serde_json::Value`. The verifier does not look inside one; `json_of` says
/// what it holds.
#[verifier::external_type_specification]
#[verifier::external_body]
pub struct ExValue(serde_json::Value);

/// `serde_json::Map`. The verifier does not look inside one; `members_of`
/// says what it holds.
#[verifier::external_type_specification]
#[verifier::external_body]
#[verifier::reject_recursive_types(K)]
#[verifier::reject_recursive_types(V)]
pub struct ExFields<K, V>(serde_json::Map<K, V>);

/// The JSON value that a `serde_json::Value` holds: variant for variant, a
/// string by its text, an array by its items, an object by its members.
pub uninterp spec fn json_of(value: serde_json::Value) -> Json;

/// The members that a `serde_json::Map` holds, by key.
pub uninterp spec fn members_of(fields: serde_json::Map<String, serde_json::Value>) -> Map<
    Seq<char>,
    Json,
>;

/// The members of an object that has none.
pub open spec fn no_members() -> Map<Seq<char>, Json> {
    Map::empty()
}

/// `serde_json::Value::from` on a string slice: the JSON string of that text.
#[verifier::external_body]
fn json_text(text: &str) -> (value: serde_json::Value)
    ensures
        json_of(value) == Json::Text(text@),
{
    serde_json::Value::from(text)
}

/// `serde_json::Map::new`: a map without members.
#[verifier::external_body]
fn json_fields() -> (fields: serde_json::Map<String, serde_json::Value>)
    ensures
        members_of(fields) == no_members(),
{
    serde_json::Map::new()
}

/// `serde_json::Map::insert`: the map then holds `value` under `key`, in place
/// of what it held there, and its other members as before.
#[verifier::external_body]
fn json_put(
    fields: &mut serde_json::Map<String, serde_json::Value>,
    key: &str,
    value: serde_json::Value,
)
    ensures
        members_of(*final(fields)) == members_of(*old(fields)).insert(key@, json_of(value)),
{
    fields.insert(key.to_owned(), value);
}

/// `serde_json::Value::from` on a map: the JSON object with those members.
#[verifier::external_body]
fn json_object(fields: serde_json::Map<String, serde_json::Value>) -> (value: serde_json::Value)
    ensures
        json_of(value) == Json::Object(members_of(fields)),
{
    serde_json::Value::from(fields)
}

/// The payload of a page that shows a title.
pub open spec fn title_payload(title: Seq<char>) -> Json {
    Json::Object(map!["title"@ => Json::Text(title)])
}

/// Builds the payload of a page that shows `title`.
pub fn page_payload(title: &str) -> (payload: serde_json::Value)
    ensures
        json_of(payload) == title_payload(title@),
{
    let mut fields = json_fields();
    json_put(&mut fields, "title", json_text(title));
    json_object(fields)
}

/// What the layout is rendered over: the name of the page to show inside it,
/// under `page`, and that page's payload, under `data`.
pub open spec fn envelope(page_name: Seq<char>, data: Json) -> Json {
    Json::Object(map!["page"@ => Json::Text(page_name), "data"@ => data])
}

/// Pairs the name of a page with its payload, for the layout.
pub fn template_data(page_name: &str, data: serde_json::Value) -> (template_data:
    serde_json::Value)
    ensures
        json_of(template_data) == envelope(page_name@, json_of(data)),
{
    let mut fields = json_fields();
    json_put(&mut fields, "page", json_text(page_name));
    json_put(&mut fields, "data", data);
    json_object(fields)
}

} // verus!
