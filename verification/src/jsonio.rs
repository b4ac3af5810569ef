//! The JSON boundary of the wire protocol.
//!
//! One line of text is the atomic unit of the protocol, and serde_json
//! does the lexical work of turning a line into a value and back.  The
//! verified logic never looks inside a `serde_json::Value` directly:
//! everything it reads of one — whether it is an object, and the string
//! and boolean fields at its top level — comes through the trusted
//! accessors below, whose contracts speak of the uninterpreted model
//! `json_shape`.  The decisions taken on those fields are verified
//! elsewhere, in `protocol`.

use vstd::prelude::*;

verus! {

/// What the protocol reads of one top-level field of a JSON object:
/// a string, a boolean, or a value of some other shape.
pub enum JsonField {
    Str(Seq<char>),
    Bool(bool),
    Other,
}

/// What the protocol reads of a parsed JSON value: either it is not an
/// object, or it is one, with its top-level fields as `JsonField`s.
pub enum JsonShape {
    NotObject,
    Object(Map<Seq<char>, JsonField>),
}

/// The shape of a parsed `serde_json::Value`.  Uninterpreted: the
/// trusted accessors below are its only source of facts.
pub uninterp spec fn json_shape(v: serde_json::Value) -> JsonShape;

/// What `serde_json::from_str::<Value>` makes of a text: `None` when the
/// text is not well-formed JSON, otherwise the shape of the parsed
/// value.  A function of the text alone.
pub uninterp spec fn json_text_shape(s: Seq<char>) -> Option<JsonShape>;

/// The value `serde_json::from_str::<Value>` parses a well-formed text
/// to.  A function of the text alone; it lets a contract say that a
/// parsed value is returned verbatim, beyond what `json_shape` models
/// of it.
pub uninterp spec fn json_value_of(s: Seq<char>) -> serde_json::Value;

/// The message text of the error `serde_json::from_str::<Value>`
/// reports on a malformed text.  A function of the text alone.
pub uninterp spec fn json_err_text(s: Seq<char>) -> Seq<char>;

/// What `serde_json::to_string` renders a value as.  A function of the
/// value alone: object keys are kept in sorted order by serde_json's
/// default map.
pub uninterp spec fn json_text_of(v: serde_json::Value) -> Seq<char>;

#[verifier::external_type_specification]
#[verifier::external_body]
pub struct ExValue(serde_json::Value);

/// The string value of field `key`, if the value is an object and holds
/// that field as a string.
pub open spec fn shape_str(sh: JsonShape, key: Seq<char>) -> Option<Seq<char>> {
    match sh {
        JsonShape::Object(f) => if f.contains_key(key) {
            match f[key] {
                JsonField::Str(s) => Some(s),
                _ => None,
            }
        } else {
            None
        },
        JsonShape::NotObject => None,
    }
}

/// The boolean value of field `key`, if the value is an object and holds
/// that field as a boolean.
pub open spec fn shape_bool(sh: JsonShape, key: Seq<char>) -> Option<bool> {
    match sh {
        JsonShape::Object(f) => if f.contains_key(key) {
            match f[key] {
                JsonField::Bool(b) => Some(b),
                _ => None,
            }
        } else {
            None
        },
        JsonShape::NotObject => None,
    }
}

/// Whether the value is an object holding field `key`, of any shape.
pub open spec fn shape_has(sh: JsonShape, key: Seq<char>) -> bool {
    match sh {
        JsonShape::Object(f) => f.contains_key(key),
        JsonShape::NotObject => false,
    }
}

/// Relies on `serde_json::from_str::<Value>`: parsing is a function of
/// the text alone; `Err` exactly when the text is not well-formed JSON,
/// carrying the parser's own message.
#[verifier::external_body]
pub(crate) fn parse_json(s: &str) -> (r: Result<serde_json::Value, String>)
    ensures
        (match r {
            Ok(v) => json_text_shape(s@) == Some(json_shape(v)) && v == json_value_of(s@),
            Err(d) => json_text_shape(s@) is None && d@ == json_err_text(s@),
        }),
{
    serde_json::from_str::<serde_json::Value>(s).map_err(|e| e.to_string())
}

/// Relies on `serde_json::Value::get` with a string index: `Some` exactly
/// on an object that holds the key; the `String` variant of the found
/// value is told apart from the others.
#[verifier::external_body]
pub(crate) fn get_str_field(v: &serde_json::Value, key: &str) -> (r: Option<String>)
    ensures
        (match r {
            Some(s) => shape_str(json_shape(*v), key@) == Some(s@),
            None => shape_str(json_shape(*v), key@) is None,
        }),
{
    match v.get(key) {
        Some(serde_json::Value::String(s)) => Some(s.clone()),
        _ => None,
    }
}

/// Relies on `serde_json::Value::get` with a string index: the `Bool`
/// variant of the found value is told apart from the others.
#[verifier::external_body]
pub(crate) fn get_bool_field(v: &serde_json::Value, key: &str) -> (r: Option<bool>)
    ensures
        (match r {
            Some(b) => shape_bool(json_shape(*v), key@) == Some(b),
            None => shape_bool(json_shape(*v), key@) is None,
        }),
{
    match v.get(key) {
        Some(serde_json::Value::Bool(b)) => Some(*b),
        _ => None,
    }
}

/// Relies on `serde_json::Value::get` with a string index: `Some` exactly
/// on an object that holds the key.
#[verifier::external_body]
pub(crate) fn has_field(v: &serde_json::Value, key: &str) -> (r: bool)
    ensures
        r == shape_has(json_shape(*v), key@),
{
    v.get(key).is_some()
}

/// Relies on serde_json's `Value::Object`, `Value::String` and
/// `Map::insert`: builds the one-field object `{"error": msg}`.
#[verifier::external_body]
pub(crate) fn make_error_value(msg: &str) -> (r: serde_json::Value)
    ensures
        json_shape(r) == JsonShape::Object(
            Map::<Seq<char>, JsonField>::empty().insert("error"@, JsonField::Str(msg@)),
        ),
{
    let mut m = serde_json::Map::new();
    m.insert("error".to_string(), serde_json::Value::String(msg.to_string()));
    serde_json::Value::Object(m)
}

/// Relies on `serde_json::to_string::<Value>`: serializing a `Value`
/// cannot fail — its object keys are strings and its numbers finite,
/// which are the only failure paths — so the rendering is always
/// produced; it is a function of the value alone, and is one line —
/// JSON strings carry control characters only in escaped form, and the
/// compact rendering adds no whitespace.
#[verifier::external_body]
pub(crate) fn encode_value(v: &serde_json::Value) -> (r: Option<String>)
    ensures
        r matches Some(s) && s@ == json_text_of(*v) && forall|i: int|
            0 <= i < s@.len() ==> s@[i] != '\n' && s@[i] != '\r',
{
    serde_json::to_string(v).ok()
}

} // verus!
