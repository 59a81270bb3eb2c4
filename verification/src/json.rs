//! What the library reads of a JSON value.

use vstd::prelude::*;

verus! {

/// serde_json's `Value`, carried through without a look inside.
#[verifier::external_type_specification]
#[verifier::external_body]
pub struct ExValue(serde_json::Value);

/// What `Value::as_i64` returns for a value: the number it holds, where it
/// holds an integer that fits `i64`.
pub uninterp spec fn json_integer(value: serde_json::Value) -> Option<i64>;

/// What `Value::as_array` returns for a value: its elements in order, where
/// it is an array.
pub uninterp spec fn json_elements(value: serde_json::Value) -> Option<Seq<serde_json::Value>>;

/// `Value::as_i64` of serde_json: the outcome depends on the value alone.
pub assume_specification[ serde_json::Value::as_i64 ](value: &serde_json::Value) -> (r: Option<i64>)
    ensures
        r == json_integer(*value),
;

/// `Value::as_array` of serde_json: the vector inside an array value, and
/// `None` for any other value.
pub assume_specification<'a>[ serde_json::Value::as_array ](value: &'a serde_json::Value) -> (r: Option<&'a Vec<serde_json::Value>>)
    ensures
        match r {
            Some(elements) => json_elements(*value) == Some(elements@),
            None => json_elements(*value).is_none(),
        },
;

/// `Clone::clone` of serde_json's `Value`: a copy equal to the value it was made from.
pub assume_specification[ <serde_json::Value as Clone>::clone ](value: &serde_json::Value) -> (r:
    serde_json::Value)
    ensures
        r == *value,
;

} // verus!
