//! Small readers shared by the operations.

use crate::json::{Json, JsonValue};
use vstd::prelude::*;

verus! {

/// The reason that a response reports under `error`, where that member is a
/// string.
pub open spec fn error_of(value: JsonValue) -> Option<Seq<char>> {
    match value.get("error"@) {
        Some(JsonValue::String(reason)) => Some(reason),
        _ => None,
    }
}

/// The reason that a response reports under `error`, where that member is a
/// string.
pub fn get_error(val: &Json) -> (reason: Option<String>)
    ensures
        reason matches Some(text) ==> error_of(val@) == Some(text@),
        reason is None ==> error_of(val@) is None,
{
    match val.get("error") {
        Some(error) => match error.as_str() {
            Some(text) => Some(text.to_owned()),
            None => None,
        },
        None => None,
    }
}

} // verus!
