//! JSON values as plain data, and the reading of JSON text.

use serde_json::Value;
use vstd::prelude::*;

verus! {

/// A JSON number, in the first of three forms that can hold it.
#[derive(Debug, Clone, Copy, PartialEq, Eq, Structural)]
pub enum JsonNumber {
    /// An integer that fits in `u64`.
    PosInt(u64),
    /// Another integer that fits in `i64`.
    NegInt(i64),
    /// Any other number, as the bits of a double-precision float (IEEE 754
    /// binary64).
    Float(u64),
}

/// A JSON value. The members of an object are kept in a list, each with its key.
#[derive(Debug, PartialEq)]
pub enum JsonValue {
    Null,
    Bool(bool),
    Number(JsonNumber),
    String(String),
    Array(Vec<JsonValue>),
    Object(Vec<(String, JsonValue)>),
}

/// A JSON value as a mathematical value.
pub enum JsonModel {
    Null,
    Bool(bool),
    Number(JsonNumber),
    String(Seq<char>),
    Array(Seq<JsonModel>),
    Object(Seq<(Seq<char>, JsonModel)>),
}

impl JsonValue {
    /// This value as a mathematical value.
    pub open spec fn model(&self) -> JsonModel
        decreases self,
    {
        match self {
            JsonValue::Null => JsonModel::Null,
            JsonValue::Bool(b) => JsonModel::Bool(*b),
            JsonValue::Number(n) => JsonModel::Number(*n),
            JsonValue::String(s) => JsonModel::String(s@),
            JsonValue::Array(items) => JsonModel::Array(
                Seq::new(
                    items.len() as nat,
                    |i: int|
                        if 0 <= i < items.len() {
                            items[i].model()
                        } else {
                            JsonModel::Null
                        },
                ),
            ),
            JsonValue::Object(members) => JsonModel::Object(
                Seq::new(
                    members.len() as nat,
                    |i: int|
                        if 0 <= i < members.len() {
                            (members[i].0@, members[i].1.model())
                        } else {
                            (Seq::<char>::empty(), JsonModel::Null)
                        },
                ),
            ),
        }
    }
}

impl View for JsonValue {
    type V = JsonModel;

    open spec fn view(&self) -> JsonModel {
        self.model()
    }
}

/// The values of a list, each as a mathematical value.
pub open spec fn views<T: View>(list: Seq<T>) -> Seq<T::V> {
    Seq::new(list.len(), |i: int| list[i]@)
}

/// The members of an object, each as a mathematical value.
pub open spec fn members_model(members: Seq<(String, JsonValue)>) -> Seq<(Seq<char>, JsonModel)> {
    Seq::new(members.len(), |i: int| (members[i].0@, members[i].1@))
}

/// An array is, as a mathematical value, the array of its items.
pub proof fn lemma_array_view(items: Vec<JsonValue>)
    ensures
        JsonValue::Array(items)@ == JsonModel::Array(views(items@)),
{
    assert(JsonValue::Array(items)@->Array_0 =~= views(items@));
}

/// An object is, as a mathematical value, the object of its members.
pub proof fn lemma_object_view(members: Vec<(String, JsonValue)>)
    ensures
        JsonValue::Object(members)@ == JsonModel::Object(members_model(members@)),
{
    assert(JsonValue::Object(members)@->Object_0 =~= members_model(members@));
}

/// Makes `serde_json::Value` known as a type whose values are carried, never
/// looked into: `read_value` produces one and `plain_value` consumes it.
#[verifier::external_type_specification]
#[verifier::external_body]
pub struct ExValue(serde_json::Value);

/// What `serde_json::from_slice` reads from a text as a `serde_json::Value`:
/// the value that the text writes, or nothing where it refuses the text.
pub uninterp spec fn json_of_text(text: Seq<u8>) -> Option<JsonModel>;

/// What a `serde_json::Value` holds.
pub uninterp spec fn value_content(v: Value) -> JsonModel;

/// Calls `serde_json::from_slice` for a `serde_json::Value`. The result depends
/// on the bytes alone: it is the value that `json_of_text` names, or `None`
/// where `serde_json::from_slice` fails and `json_of_text` names none.
#[verifier::external_body]
fn read_value(text: &[u8]) -> (r: Option<Value>)
    ensures
        match r {
            Some(v) => json_of_text(text@) == Some(value_content(v)),
            None => json_of_text(text@) is None,
        },
{
    serde_json::from_slice::<Value>(text).ok()
}

/// Moves what a `serde_json::Value` holds into a `JsonValue`, variant by
/// variant, so that the result holds what `value_content` names: the items of
/// an array in their order, the members of an object in the order in which
/// the value walks them, and a number as `PosInt` where `as_u64` gives one,
/// else as `NegInt` where `as_i64` gives one, else as the bits of what
/// `as_f64` gives.
#[verifier::external_body]
fn plain_value(v: Value) -> (r: JsonValue)
    ensures
        r@ == value_content(v),
{
    match v {
        Value::Null => JsonValue::Null,
        Value::Bool(b) => JsonValue::Bool(b),
        Value::Number(n) => JsonValue::Number(match (n.as_u64(), n.as_i64()) {
            (Some(u), _) => JsonNumber::PosInt(u),
            (_, Some(i)) => JsonNumber::NegInt(i),
            _ => JsonNumber::Float(n.as_f64().map_or(0, |x| x.to_bits())),
        }),
        Value::String(s) => JsonValue::String(s),
        Value::Array(a) => JsonValue::Array(a.into_iter().map(plain_value).collect()),
        Value::Object(o) => JsonValue::Object(o.into_iter().map(|(k, x)| (k, plain_value(x))).collect()),
    }
}

/// Reads a JSON text. Gives the value that the text writes, or `None` where
/// the text is not JSON.
pub fn parse_json(text: &[u8]) -> (r: Option<JsonValue>)
    ensures
        match r {
            Some(j) => json_of_text(text@) == Some(j@),
            None => json_of_text(text@) is None,
        },
{
    match read_value(text) {
        Some(v) => Some(plain_value(v)),
        None => None,
    }
}

} // verus!
