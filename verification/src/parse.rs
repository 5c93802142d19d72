//! Reading a JSON document from the bytes of a response body. The bytes
//! are parsed by `serde_json`; what it returns is turned, value by value,
//! into the library's own `Json`.

use vstd::prelude::*;
use crate::error::DecodeError;
use crate::error::DecodeErrorView;
use crate::error::ErrorKind;
use crate::json::lemma_array_view;
use crate::json::lemma_object_view;
use crate::json::Json;
use crate::json::JsonView;
use crate::json::Number;

verus! {

/// `serde_json::Value`, carried through as it is. Nothing is known of
/// what one holds but through the functions below.
#[verifier::external_type_specification]
#[verifier::external_body]
pub struct ExValue(serde_json::Value);

/// What `serde_json::from_slice` makes of a body, read as a `Value`: the
/// document it holds, or the line and column at which the parser gave up.
pub uninterp spec fn parsed(body: Seq<u8>) -> Result<JsonView, (usize, usize)>;

/// The document that a `serde_json::Value` holds. A float is given by its
/// bit pattern, an object by its members in the order in which the value
/// hands them out.
pub uninterp spec fn value_view(value: serde_json::Value) -> JsonView;

/// What one look at a `serde_json::Value` shows: which kind of value it
/// is, and what it holds directly.
pub enum Shape<'a> {
    Null,
    Bool(bool),
    Number,
    String(&'a str),
    Array(&'a Vec<serde_json::Value>),
    Object(Vec<(&'a String, &'a serde_json::Value)>),
}

/// Calls `serde_json::from_slice` for a `serde_json::Value`. The
/// contract claims only that the outcome is the one that `parsed` names:
/// the value on success, else the position that the error reports.
#[verifier::external_body]
fn parse_value(body: &[u8]) -> (r: Result<serde_json::Value, (usize, usize)>)
    ensures
        match r {
            Ok(v) => parsed(body@) == Ok::<JsonView, (usize, usize)>(value_view(v)),
            Err(at) => parsed(body@) == Err::<JsonView, (usize, usize)>(at),
        },
{
    match serde_json::from_slice::<serde_json::Value>(body) {
        Ok(v) => Ok(v),
        Err(e) => Err((e.line(), e.column())),
    }
}

/// Tells the variants of `serde_json::Value` apart and hands out what
/// the variant holds; the members of an object come from
/// `serde_json::Map::iter`. The contract claims that this is what
/// `value_view` is made of, item by item.
#[verifier::external_body]
fn value_shape<'a>(value: &'a serde_json::Value) -> (s: Shape<'a>)
    ensures
        match s {
            Shape::Null => value_view(*value) == JsonView::Null,
            Shape::Bool(b) => value_view(*value) == JsonView::Bool(b),
            Shape::Number => value_view(*value) is Number,
            Shape::String(t) => value_view(*value) == JsonView::String(t@),
            Shape::Array(items) => {
                &&& value_view(*value) is Array
                &&& value_view(*value)->Array_0.len() == items@.len()
                &&& forall|i: int|
                    0 <= i < items@.len() ==> value_view(*value)->Array_0[i] == value_view(
                        #[trigger] items@[i],
                    )
            },
            Shape::Object(members) => {
                &&& value_view(*value) is Object
                &&& value_view(*value)->Object_0.len() == members@.len()
                &&& forall|i: int|
                    0 <= i < members@.len() ==> value_view(*value)->Object_0[i] == (
                        (#[trigger] members@[i]).0@,
                        value_view(*members@[i].1),
                    )
            },
        },
{
    match value {
        serde_json::Value::Null => Shape::Null,
        serde_json::Value::Bool(b) => Shape::Bool(*b),
        serde_json::Value::Number(_) => Shape::Number,
        serde_json::Value::String(s) => Shape::String(s),
        serde_json::Value::Array(items) => Shape::Array(items),
        serde_json::Value::Object(members) => Shape::Object(members.iter().collect()),
    }
}

/// Calls `serde_json::Value::as_u64`, which gives the number exactly
/// when the value is an integer held without sign.
#[verifier::external_body]
fn value_as_u64(value: &serde_json::Value) -> (r: Option<u64>)
    ensures
        r == match value_view(*value) {
            JsonView::Number(Number::PosInt(n)) => Some(n),
            _ => None,
        },
{
    value.as_u64()
}

/// Calls `serde_json::Value::as_i64`, which gives the number when the
/// value is an integer held with sign, or one held without that is at
/// most `i64::MAX`.
#[verifier::external_body]
fn value_as_i64(value: &serde_json::Value) -> (r: Option<i64>)
    ensures
        r == match value_view(*value) {
            JsonView::Number(Number::PosInt(n)) => if n <= i64::MAX {
                Some(n as i64)
            } else {
                None
            },
            JsonView::Number(Number::NegInt(n)) => Some(n),
            _ => None,
        },
{
    value.as_i64()
}

/// Calls `serde_json::Value::as_f64`, which gives a float for every
/// number, and hands out its bit pattern. Of the pattern the contract
/// speaks only where the value holds a float.
#[verifier::external_body]
fn value_float_bits(value: &serde_json::Value) -> (r: Option<u64>)
    ensures
        r.is_some() == value_view(*value) is Number,
        value_view(*value) matches JsonView::Number(Number::Float(bits)) ==> r == Some(bits),
{
    value.as_f64().map(|f| f.to_bits())
}

/// The number that a numeric `serde_json::Value` holds.
fn lift_number(value: &serde_json::Value) -> (n: Number)
    requires
        value_view(*value) is Number,
    ensures
        JsonView::Number(n) == value_view(*value),
{
    if let Some(n) = value_as_u64(value) {
        Number::PosInt(n)
    } else if let Some(n) = value_as_i64(value) {
        Number::NegInt(n)
    } else {
        match value_float_bits(value) {
            Some(bits) => Number::Float(bits),
            None => vstd::pervasive::unreached(),
        }
    }
}

/// The library's own copy of a `serde_json::Value`.
fn lift(value: &serde_json::Value) -> (json: Json)
    ensures
        json@ == value_view(*value),
    decreases value_view(*value),
{
    match value_shape(value) {
        Shape::Null => Json::Null,
        Shape::Bool(b) => Json::Bool(b),
        Shape::Number => Json::Number(lift_number(value)),
        Shape::String(s) => Json::String(String::from_str(s)),
        Shape::Array(items) => {
            let mut out: Vec<Json> = Vec::new();
            let mut i: usize = 0;
            while i < items.len()
                invariant
                    i <= items@.len(),
                    out@.len() == i,
                    value_view(*value) is Array,
                    value_view(*value)->Array_0.len() == items@.len(),
                    forall|k: int|
                        0 <= k < items@.len() ==> value_view(*value)->Array_0[k] == value_view(
                            #[trigger] items@[k],
                        ),
                    forall|k: int| 0 <= k < i ==> (#[trigger] out@[k])@ == value_view(items@[k]),
                decreases items@.len() - i,
            {
                let item = lift(&items[i]);
                out.push(item);
                i = i + 1;
            }
            let json = Json::Array(out);
            proof {
                lemma_array_view(&json);
                assert(json@->Array_0 =~= value_view(*value)->Array_0);
            }
            json
        },
        Shape::Object(members) => {
            let mut out: Vec<(String, Json)> = Vec::new();
            let mut i: usize = 0;
            while i < members.len()
                invariant
                    i <= members@.len(),
                    out@.len() == i,
                    value_view(*value) is Object,
                    value_view(*value)->Object_0.len() == members@.len(),
                    forall|k: int|
                        0 <= k < members@.len() ==> value_view(*value)->Object_0[k] == (
                            (#[trigger] members@[k]).0@,
                            value_view(*members@[k].1),
                        ),
                    forall|k: int|
                        0 <= k < i ==> (#[trigger] out@[k]).0@ == members@[k].0@ && out@[k].1@
                            == value_view(*members@[k].1),
                decreases members@.len() - i,
            {
                let name = members[i].0.clone();
                proof {
                    let all = value_view(*value)->Object_0;
                    let k = i as int;
                    assert(all[k] == (members@[k].0@, value_view(*members@[k].1)));
                    assert(decreases_to!(all => all[k]));
                    assert(decreases_to!(all[k] => all[k].1));
                }
                let item = lift(members[i].1);
                out.push((name, item));
                i = i + 1;
            }
            let json = Json::Object(out);
            proof {
                lemma_object_view(&json);
                assert(json@->Object_0 =~= value_view(*value)->Object_0);
            }
            json
        },
    }
}

/// The failure that stands for a body which is not JSON.
pub open spec fn syntax_error(at: (usize, usize)) -> DecodeErrorView {
    DecodeErrorView::here(ErrorKind::Syntax { line: at.0, column: at.1 })
}

/// Parses a JSON document.
pub fn parse(body: &[u8]) -> (r: Result<Json, DecodeError>)
    ensures
        match parsed(body@) {
            Ok(document) => r matches Ok(json) && json@ == document,
            Err(at) => r matches Err(e) && e@ == syntax_error(at),
        },
{
    match parse_value(body) {
        Ok(value) => Ok(lift(&value)),
        Err(at) => Err(DecodeError::here(ErrorKind::Syntax { line: at.0, column: at.1 })),
    }
}

} // verus!
