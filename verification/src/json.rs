use vstd::prelude::*;

verus! {

/// The mathematical shape of a JSON document: what the decoder's opaque
/// values hold, as plain ghost data. Numbers carry no payload because no
/// part of this library reads one.
pub ghost enum JsonData {
    Null,
    Bool { b: bool },
    Number,
    Text { s: Seq<char> },
    List { items: Seq<JsonData> },
    Object { fields: Map<Seq<char>, JsonData> },
}

/// The field of an object under the given key, if the value is an object
/// that has that key.
pub open spec fn obj_field(j: JsonData, key: Seq<char>) -> Option<JsonData> {
    match j {
        JsonData::Object { fields } => if fields.contains_key(key) {
            Some(fields[key])
        } else {
            None
        },
        _ => None,
    }
}

/// The characters of a JSON string value, if the value is a string.
pub open spec fn str_of(j: JsonData) -> Option<Seq<char>> {
    match j {
        JsonData::Text { s } => Some(s),
        _ => None,
    }
}

/// The boolean of a JSON boolean value, if the value is a boolean.
pub open spec fn bool_of(j: JsonData) -> Option<bool> {
    match j {
        JsonData::Bool { b } => Some(b),
        _ => None,
    }
}

/// The elements of a JSON array value, if the value is an array.
pub open spec fn list_of(j: JsonData) -> Option<Seq<JsonData>> {
    match j {
        JsonData::List { items } => Some(items),
        _ => None,
    }
}

/// The string field of an object under the given key, if the value is an
/// object holding a string there.
pub open spec fn obj_str_field(j: JsonData, key: Seq<char>) -> Option<Seq<char>> {
    match obj_field(j, key) {
        Some(f) => str_of(f),
        None => None,
    }
}

/// The boolean field of an object under the given key, if the value is an
/// object holding a boolean there.
pub open spec fn obj_bool_field(j: JsonData, key: Seq<char>) -> Option<bool> {
    match obj_field(j, key) {
        Some(f) => bool_of(f),
        None => None,
    }
}

/// Declares `serde_json::Value`, the decoder's opaque document tree, so
/// that it can stand in signatures; its shape is read through `json_data`.
#[verifier::external_type_specification]
#[verifier::external_body]
pub struct ExValue(serde_json::Value);

/// Declares `serde_json::Error`, the decoder's parse error, which is
/// carried only for its message.
#[verifier::external_type_specification]
#[verifier::external_body]
pub struct ExError(serde_json::Error);

/// What a decoded JSON value holds, as ghost data. A `serde_json::Value` is
/// a fixed tree, so its shape is a function of the value alone.
pub uninterp spec fn json_data(v: serde_json::Value) -> JsonData;

/// What parsing a document yields: `None` where the text is not valid JSON,
/// else the shape of the parsed value. Parsing is a function of the text
/// alone.
pub uninterp spec fn parsed_json(s: Seq<char>) -> Option<JsonData>;

/// Relies on `serde_json::from_str::<Value>`: parses the text into a JSON
/// value, and fails exactly on text that is not a valid JSON document.
#[verifier::external_body]
pub(crate) fn parse_value(s: &str) -> (r: Result<serde_json::Value, serde_json::Error>)
    ensures
        r matches Ok(v) ==> parsed_json(s@) == Some(json_data(v)),
        r is Err <==> parsed_json(s@) is None,
{
    serde_json::from_str(s)
}

/// Relies on `serde_json::Value::get` with a string index: `Some` exactly on
/// an object that has the key, returning the field stored there.
#[verifier::external_body]
pub(crate) fn value_get<'a>(v: &'a serde_json::Value, key: &str) -> (r: Option<
    &'a serde_json::Value,
>)
    ensures
        r is Some <==> obj_field(json_data(*v), key@) is Some,
        r matches Some(f) ==> obj_field(json_data(*v), key@) == Some(json_data(*f)),
{
    v.get(key)
}

/// Relies on `serde_json::Value::as_str`: `Some` exactly on a string value,
/// returning its characters.
#[verifier::external_body]
pub(crate) fn value_as_str<'a>(v: &'a serde_json::Value) -> (r: Option<&'a str>)
    ensures
        r is Some <==> str_of(json_data(*v)) is Some,
        r matches Some(s) ==> str_of(json_data(*v)) == Some(s@),
{
    v.as_str()
}

/// Relies on `serde_json::Value::as_bool`: `Some` exactly on a boolean
/// value, returning it.
#[verifier::external_body]
pub(crate) fn value_as_bool(v: &serde_json::Value) -> (r: Option<bool>)
    ensures
        r == bool_of(json_data(*v)),
{
    v.as_bool()
}

/// Relies on `serde_json::Value::as_array`: `Some` exactly on an array
/// value, returning its elements in order.
#[verifier::external_body]
pub(crate) fn value_as_array<'a>(v: &'a serde_json::Value) -> (r: Option<&'a Vec<serde_json::Value>>)
    ensures
        r is Some <==> list_of(json_data(*v)) is Some,
        r matches Some(a) ==> ({
            &&& list_of(json_data(*v)) matches Some(items)
            &&& a@.len() == items.len()
            &&& forall|i: int| 0 <= i < items.len() ==> json_data(a@[i]) == items[i]
        }),
{
    v.as_array()
}

/// Relies on the `Display` impl of `serde_json::Error`: renders the parse
/// error as its human-readable message.
#[verifier::external_body]
pub(crate) fn error_message(e: &serde_json::Error) -> (r: String) {
    format!("{}", e)
}

} // verus!
