//! Reading the members of a JSON object as the fields of a record.
//!
//! A required member that is absent is a missing field; a member whose value
//! cannot be taken for the field is an invalid field. An optional member may
//! be absent or `null`.

use crate::error::{DecodeError, DecodeErrorView};
use crate::json::{Json, JsonNumber, JsonValue, NumberValue};
use crate::time::Timestamp;
use vstd::prelude::*;

verus! {

impl JsonValue {
    /// A required member that must be a string.
    pub open spec fn string_member(self, key: Seq<char>) -> Result<Seq<char>, DecodeErrorView> {
        match self.get(key) {
            None => Err(DecodeErrorView::MissingField(key)),
            Some(JsonValue::String(text)) => Ok(text),
            Some(_) => Err(DecodeErrorView::InvalidField(key)),
        }
    }

    /// An optional member that, where present and not `null`, must be a
    /// string.
    pub open spec fn optional_string_member(self, key: Seq<char>) -> Result<
        Option<Seq<char>>,
        DecodeErrorView,
    > {
        match self.get(key) {
            None => Ok(None),
            Some(JsonValue::Null) => Ok(None),
            Some(JsonValue::String(text)) => Ok(Some(text)),
            Some(_) => Err(DecodeErrorView::InvalidField(key)),
        }
    }

    /// A required member that must be a boolean.
    pub open spec fn bool_member(self, key: Seq<char>) -> Result<bool, DecodeErrorView> {
        match self.get(key) {
            None => Err(DecodeErrorView::MissingField(key)),
            Some(JsonValue::Bool(truth)) => Ok(truth),
            Some(_) => Err(DecodeErrorView::InvalidField(key)),
        }
    }

    /// A required member that must be an unsigned integer.
    pub open spec fn u64_member(self, key: Seq<char>) -> Result<u64, DecodeErrorView> {
        match self.get(key) {
            None => Err(DecodeErrorView::MissingField(key)),
            Some(JsonValue::Number(NumberValue::PosInt(n))) => Ok(n),
            Some(_) => Err(DecodeErrorView::InvalidField(key)),
        }
    }

    /// A required member that must be an unsigned integer of 32 bits.
    pub open spec fn u32_member(self, key: Seq<char>) -> Result<u32, DecodeErrorView> {
        match self.get(key) {
            None => Err(DecodeErrorView::MissingField(key)),
            Some(JsonValue::Number(NumberValue::PosInt(n))) => if n <= u32::MAX {
                Ok(n as u32)
            } else {
                Err(DecodeErrorView::InvalidField(key))
            },
            Some(_) => Err(DecodeErrorView::InvalidField(key)),
        }
    }

    /// A required member that must be a string holding an instant.
    pub open spec fn timestamp_member(self, key: Seq<char>) -> Result<Timestamp, DecodeErrorView> {
        match self.get(key) {
            None => Err(DecodeErrorView::MissingField(key)),
            Some(JsonValue::String(text)) => match Timestamp::read(text) {
                Some(at) => Ok(at),
                None => Err(DecodeErrorView::InvalidField(key)),
            },
            Some(_) => Err(DecodeErrorView::InvalidField(key)),
        }
    }

    /// A required member of any value, `null` too.
    pub open spec fn any_member(self, key: Seq<char>) -> Result<JsonValue, DecodeErrorView> {
        match self.get(key) {
            None => Err(DecodeErrorView::MissingField(key)),
            Some(value) => Ok(value),
        }
    }
}

impl Json {
    /// A required member that must be a string.
    pub fn string_member(&self, key: &str) -> (outcome: Result<String, DecodeError>)
        ensures
            match outcome {
                Ok(text) => self@.string_member(key@) == Ok::<Seq<char>, DecodeErrorView>(text@),
                Err(cause) => self@.string_member(key@) == Err::<Seq<char>, DecodeErrorView>(
                    cause@,
                ),
            },
    {
        match self.get(key) {
            None => Err(DecodeError::MissingField(key.to_owned())),
            Some(Json::String(text)) => Ok(text.clone()),
            Some(_) => Err(DecodeError::InvalidField(key.to_owned())),
        }
    }

    /// An optional member that, where present and not `null`, must be a
    /// string.
    pub fn optional_string_member(&self, key: &str) -> (outcome: Result<
        Option<String>,
        DecodeError,
    >)
        ensures
            match outcome {
                Ok(Some(text)) => self@.optional_string_member(key@) == Ok::<
                    Option<Seq<char>>,
                    DecodeErrorView,
                >(Some(text@)),
                Ok(None) => self@.optional_string_member(key@) == Ok::<
                    Option<Seq<char>>,
                    DecodeErrorView,
                >(None),
                Err(cause) => self@.optional_string_member(key@) == Err::<
                    Option<Seq<char>>,
                    DecodeErrorView,
                >(cause@),
            },
    {
        match self.get(key) {
            None => Ok(None),
            Some(Json::Null) => Ok(None),
            Some(Json::String(text)) => Ok(Some(text.clone())),
            Some(_) => Err(DecodeError::InvalidField(key.to_owned())),
        }
    }

    /// A required member that must be a boolean.
    pub fn bool_member(&self, key: &str) -> (outcome: Result<bool, DecodeError>)
        ensures
            match outcome {
                Ok(truth) => self@.bool_member(key@) == Ok::<bool, DecodeErrorView>(truth),
                Err(cause) => self@.bool_member(key@) == Err::<bool, DecodeErrorView>(cause@),
            },
    {
        match self.get(key) {
            None => Err(DecodeError::MissingField(key.to_owned())),
            Some(Json::Bool(truth)) => Ok(*truth),
            Some(_) => Err(DecodeError::InvalidField(key.to_owned())),
        }
    }

    /// A required member that must be an unsigned integer.
    pub fn u64_member(&self, key: &str) -> (outcome: Result<u64, DecodeError>)
        ensures
            match outcome {
                Ok(n) => self@.u64_member(key@) == Ok::<u64, DecodeErrorView>(n),
                Err(cause) => self@.u64_member(key@) == Err::<u64, DecodeErrorView>(cause@),
            },
    {
        match self.get(key) {
            None => Err(DecodeError::MissingField(key.to_owned())),
            Some(Json::Number(JsonNumber::PosInt(n))) => Ok(*n),
            Some(_) => Err(DecodeError::InvalidField(key.to_owned())),
        }
    }

    /// A required member that must be an unsigned integer of 32 bits.
    pub fn u32_member(&self, key: &str) -> (outcome: Result<u32, DecodeError>)
        ensures
            match outcome {
                Ok(n) => self@.u32_member(key@) == Ok::<u32, DecodeErrorView>(n),
                Err(cause) => self@.u32_member(key@) == Err::<u32, DecodeErrorView>(cause@),
            },
    {
        match self.get(key) {
            None => Err(DecodeError::MissingField(key.to_owned())),
            Some(Json::Number(JsonNumber::PosInt(n))) => if *n <= 0xffff_ffff {
                Ok(*n as u32)
            } else {
                Err(DecodeError::InvalidField(key.to_owned()))
            },
            Some(_) => Err(DecodeError::InvalidField(key.to_owned())),
        }
    }

    /// A required member that must be a string holding an instant.
    pub fn timestamp_member(&self, key: &str) -> (outcome: Result<Timestamp, DecodeError>)
        ensures
            match outcome {
                Ok(at) => at.wf() && self@.timestamp_member(key@) == Ok::<
                    Timestamp,
                    DecodeErrorView,
                >(at),
                Err(cause) => self@.timestamp_member(key@) == Err::<Timestamp, DecodeErrorView>(
                    cause@,
                ),
            },
    {
        match self.get(key) {
            None => Err(DecodeError::MissingField(key.to_owned())),
            Some(Json::String(text)) => match Timestamp::parse(text.as_str()) {
                Some(at) => Ok(at),
                None => Err(DecodeError::InvalidField(key.to_owned())),
            },
            Some(_) => Err(DecodeError::InvalidField(key.to_owned())),
        }
    }

    /// A required member of any value, `null` too.
    pub fn any_member(&self, key: &str) -> (outcome: Result<Json, DecodeError>)
        ensures
            match outcome {
                Ok(value) => self@.any_member(key@) == Ok::<JsonValue, DecodeErrorView>(value@),
                Err(cause) => self@.any_member(key@) == Err::<JsonValue, DecodeErrorView>(cause@),
            },
    {
        match self.get(key) {
            None => Err(DecodeError::MissingField(key.to_owned())),
            Some(value) => Ok(value.clone()),
        }
    }
}

/// Decodes the elements of a list one by one. The first element at fault
/// ends the list and is reported by its index.
pub open spec fn list_of<T>(
    items: Seq<JsonValue>,
    element: spec_fn(JsonValue) -> Result<T, DecodeErrorView>,
) -> Result<Seq<T>, DecodeErrorView>
    decreases items.len(),
{
    if items.len() == 0 {
        Ok(Seq::empty())
    } else {
        match list_of(items.drop_last(), element) {
            Err(cause) => Err(cause),
            Ok(front) => match element(items.last()) {
                Ok(item) => Ok(front.push(item)),
                Err(_) => Err(DecodeErrorView::InvalidElement(items.len() - 1)),
            },
        }
    }
}

/// A list that fails on a prefix fails in the same way on the whole.
pub proof fn lemma_list_of_fails<T>(
    items: Seq<JsonValue>,
    element: spec_fn(JsonValue) -> Result<T, DecodeErrorView>,
    prefix: int,
)
    requires
        0 <= prefix <= items.len(),
        list_of(items.take(prefix), element) is Err,
    ensures
        list_of(items, element) == list_of(items.take(prefix), element),
    decreases items.len(),
{
    if prefix < items.len() {
        assert(items.drop_last().take(prefix) =~= items.take(prefix));
        lemma_list_of_fails(items.drop_last(), element, prefix);
    } else {
        assert(items.take(prefix) =~= items);
    }
}

/// A list decodes to the records that its elements decode to.
pub proof fn lemma_list_of_all<T>(
    items: Seq<JsonValue>,
    element: spec_fn(JsonValue) -> Result<T, DecodeErrorView>,
    records: Seq<T>,
)
    requires
        items.len() == records.len(),
        forall|i: int| 0 <= i < items.len() ==> element(#[trigger] items[i]) == Ok::<
            T,
            DecodeErrorView,
        >(records[i]),
    ensures
        list_of(items, element) == Ok::<Seq<T>, DecodeErrorView>(records),
    decreases items.len(),
{
    if items.len() == 0 {
        assert(records =~= Seq::empty());
    } else {
        let front = items.drop_last();
        assert forall|i: int| 0 <= i < front.len() implies element(#[trigger] front[i]) == Ok::<
            T,
            DecodeErrorView,
        >(records.drop_last()[i]) by {
            assert(front[i] == items[i]);
        }
        lemma_list_of_all(front, element, records.drop_last());
        assert(items.last() == items[items.len() - 1]);
        assert(records.drop_last().push(records.last()) =~= records);
    }
}

} // verus!
