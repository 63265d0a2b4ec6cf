//! A JSON document as plain data, with its mathematical model.

use crate::error::SyntaxError;
use crate::wire::{
    finite_number, json_fault, json_parse, json_text, print_text, read_text,
    reads_as_finite_number,
};
use vstd::prelude::*;

verus! {

/// A JSON number: an unsigned integer, a negative integer, or any other
/// number kept as its decimal text.
#[derive(Debug, PartialEq, Eq, Hash)]
pub enum JsonNumber {
    /// An integer from zero upwards.
    PosInt(u64),
    /// An integer below zero.
    NegInt(i64),
    /// A number with a fraction or an exponent, or an integer beyond the
    /// other two, as the decimal text that prints it. A text that does not
    /// read as a finite number is no JSON number: it prints as `null`.
    Float(String),
}

/// The model of a [`JsonNumber`].
pub ghost enum NumberValue {
    PosInt(u64),
    NegInt(i64),
    Float(Seq<char>),
}

impl View for JsonNumber {
    type V = NumberValue;

    open spec fn view(&self) -> NumberValue {
        match self {
            JsonNumber::PosInt(n) => NumberValue::PosInt(*n),
            JsonNumber::NegInt(n) => NumberValue::NegInt(*n),
            JsonNumber::Float(t) => NumberValue::Float(t@),
        }
    }
}

/// A JSON document. The members of an object are kept in the order given;
/// where a key occurs twice the later member is the one that counts.
#[derive(Debug, PartialEq, Eq, Hash)]
pub enum Json {
    Null,
    Bool(bool),
    Number(JsonNumber),
    String(String),
    Array(Vec<Json>),
    Object(Vec<(String, Json)>),
}

/// The model of a [`Json`] document.
pub ghost enum JsonValue {
    Null,
    Bool(bool),
    Number(NumberValue),
    String(Seq<char>),
    Array(Seq<JsonValue>),
    Object(Seq<(Seq<char>, JsonValue)>),
}

/// The model of a document: scalars by their value, strings by their
/// characters, arrays and objects member by member. The sequences are of
/// the length of the vectors; the bounds inside the closures serve the
/// proof of termination.
pub open spec fn model(json: Json) -> JsonValue
    decreases json,
{
    match json {
        Json::Null => JsonValue::Null,
        Json::Bool(b) => JsonValue::Bool(b),
        Json::Number(n) => JsonValue::Number(n@),
        Json::String(s) => JsonValue::String(s@),
        Json::Array(items) => JsonValue::Array(
            Seq::new(
                items.len() as nat,
                |i: int|
                    if 0 <= i < items.len() {
                        model(items[i])
                    } else {
                        JsonValue::Null
                    },
            ),
        ),
        Json::Object(members) => JsonValue::Object(
            Seq::new(
                members.len() as nat,
                |i: int|
                    if 0 <= i < members.len() {
                        (members[i].0@, model(members[i].1))
                    } else {
                        (Seq::empty(), JsonValue::Null)
                    },
            ),
        ),
    }
}

impl View for Json {
    type V = JsonValue;

    open spec fn view(&self) -> JsonValue {
        model(*self)
    }
}

impl Clone for JsonNumber {
    fn clone(&self) -> (copy: Self)
        ensures
            copy@ == self@,
    {
        match self {
            JsonNumber::PosInt(n) => JsonNumber::PosInt(*n),
            JsonNumber::NegInt(n) => JsonNumber::NegInt(*n),
            JsonNumber::Float(t) => JsonNumber::Float(t.clone()),
        }
    }
}

impl Clone for Json {
    fn clone(&self) -> (copy: Self)
        ensures
            copy@ == self@,
        decreases self,
    {
        match self {
            Json::Null => Json::Null,
            Json::Bool(b) => Json::Bool(*b),
            Json::Number(n) => Json::Number(n.clone()),
            Json::String(s) => Json::String(s.clone()),
            Json::Array(items) => {
                let mut copies: Vec<Json> = Vec::new();
                let mut i: usize = 0;
                while i < items.len()
                    invariant
                        i <= items.len(),
                        copies.len() == i,
                        *self == Json::Array(*items),
                        forall|k: int| 0 <= k < i ==> (#[trigger] copies[k])@ == items[k]@,
                        forall|k: int|
                            0 <= k < items.len() ==> decreases_to!(self => #[trigger] items[k]),
                    decreases items.len() - i,
                {
                    let item = items[i].clone();
                    copies.push(item);
                    i += 1;
                }
                let copy = Json::Array(copies);
                assert(copy@->Array_0 =~= self@->Array_0);
                copy
            },
            Json::Object(members) => {
                let mut copies: Vec<(String, Json)> = Vec::new();
                let mut i: usize = 0;
                while i < members.len()
                    invariant
                        i <= members.len(),
                        copies.len() == i,
                        *self == Json::Object(*members),
                        forall|k: int|
                            0 <= k < i ==> (#[trigger] copies[k]).0@ == members[k].0@
                                && copies[k].1@ == members[k].1@,
                        forall|k: int|
                            0 <= k < members.len() ==> decreases_to!(
                                self => (#[trigger] members[k]).1
                            ),
                    decreases members.len() - i,
                {
                    let key = members[i].0.clone();
                    let value = members[i].1.clone();
                    copies.push((key, value));
                    i += 1;
                }
                let copy = Json::Object(copies);
                assert(copy@->Object_0 =~= self@->Object_0);
                copy
            },
        }
    }
}

/// A document as it is printed: with `null` in the place of every number
/// whose text is no finite number, and every other value as it is.
pub open spec fn printable(value: JsonValue) -> JsonValue
    decreases value,
{
    match value {
        JsonValue::Number(NumberValue::Float(text)) => if finite_number(text) {
            value
        } else {
            JsonValue::Null
        },
        JsonValue::Array(items) => JsonValue::Array(
            Seq::new(
                items.len(),
                |i: int|
                    if 0 <= i < items.len() {
                        printable(items[i])
                    } else {
                        JsonValue::Null
                    },
            ),
        ),
        JsonValue::Object(members) => JsonValue::Object(
            Seq::new(
                members.len(),
                |i: int|
                    if 0 <= i < members.len() {
                        (members[i].0, printable(members[i].1))
                    } else {
                        (Seq::empty(), JsonValue::Null)
                    },
            ),
        ),
        _ => value,
    }
}

/// The compact JSON text of a document.
pub open spec fn printed(value: JsonValue) -> Seq<char> {
    json_text(printable(value))
}

/// The value of the last member with a given key, if there is one.
pub open spec fn lookup(members: Seq<(Seq<char>, JsonValue)>, key: Seq<char>) -> Option<JsonValue>
    decreases members.len(),
{
    if members.len() == 0 {
        None
    } else if members.last().0 == key {
        Some(members.last().1)
    } else {
        lookup(members.drop_last(), key)
    }
}

/// A member with a key that no later member has is the one that `lookup`
/// finds.
pub proof fn lemma_lookup_member(members: Seq<(Seq<char>, JsonValue)>, at: int)
    requires
        0 <= at < members.len(),
        forall|later: int|
            at < later < members.len() ==> (#[trigger] members[later]).0 != members[at].0,
    ensures
        lookup(members, members[at].0) == Some(members[at].1),
    decreases members.len(),
{
    if at < members.len() - 1 {
        let rest = members.drop_last();
        assert(rest[at] == members[at]);
        assert forall|later: int| at < later < rest.len() implies (#[trigger] rest[later]).0
            != rest[at].0 by {
            assert(rest[later] == members[later]);
        }
        lemma_lookup_member(rest, at);
    }
}

impl JsonValue {
    /// The member of an object with the given key; `None` for a key that
    /// the object lacks and for every value that is not an object.
    pub open spec fn get(self, key: Seq<char>) -> Option<JsonValue> {
        match self {
            JsonValue::Object(members) => lookup(members, key),
            _ => None,
        }
    }

    /// The characters of a string; `None` for every other value.
    pub open spec fn as_str(self) -> Option<Seq<char>> {
        match self {
            JsonValue::String(s) => Some(s),
            _ => None,
        }
    }

    /// The truth value of a boolean; `None` for every other value.
    pub open spec fn as_bool(self) -> Option<bool> {
        match self {
            JsonValue::Bool(b) => Some(b),
            _ => None,
        }
    }

    /// The value of an unsigned integer; `None` for every other value.
    pub open spec fn as_u64(self) -> Option<u64> {
        match self {
            JsonValue::Number(NumberValue::PosInt(n)) => Some(n),
            _ => None,
        }
    }

    /// The elements of an array; `None` for every other value.
    pub open spec fn as_array(self) -> Option<Seq<JsonValue>> {
        match self {
            JsonValue::Array(items) => Some(items),
            _ => None,
        }
    }
}

impl Json {
    /// Reads a JSON text. A text that is no JSON document is rejected with
    /// the parser's own error and message.
    pub fn parse(text: &str) -> (outcome: Result<Json, SyntaxError>)
        ensures
            outcome matches Ok(json) ==> json_parse(text@) == Some(json@),
            outcome matches Err(cause) ==> json_parse(text@) is None && cause@ == json_fault(
                text@,
            ),
    {
        match read_text(text) {
            Ok(json) => Ok(json),
            Err(fault) => Err(SyntaxError { error: fault.0, message: fault.1 }),
        }
    }

    /// The document as it is printed: with `null` in the place of every
    /// number whose text is no finite number.
    pub fn printable(&self) -> (copy: Json)
        ensures
            copy@ == printable(self@),
        decreases self,
    {
        match self {
            Json::Null => Json::Null,
            Json::Bool(b) => Json::Bool(*b),
            Json::Number(JsonNumber::Float(text)) => if reads_as_finite_number(text.as_str()) {
                Json::Number(JsonNumber::Float(text.clone()))
            } else {
                Json::Null
            },
            Json::Number(n) => Json::Number(n.clone()),
            Json::String(s) => Json::String(s.clone()),
            Json::Array(items) => {
                let mut copies: Vec<Json> = Vec::new();
                let mut i: usize = 0;
                while i < items.len()
                    invariant
                        i <= items.len(),
                        copies.len() == i,
                        *self == Json::Array(*items),
                        forall|k: int|
                            0 <= k < i ==> (#[trigger] copies[k])@ == printable(items[k]@),
                        forall|k: int|
                            0 <= k < items.len() ==> decreases_to!(self => #[trigger] items[k]),
                    decreases items.len() - i,
                {
                    let item = items[i].printable();
                    copies.push(item);
                    i += 1;
                }
                let copy = Json::Array(copies);
                assert(copy@->Array_0 =~= printable(self@)->Array_0);
                copy
            },
            Json::Object(members) => {
                let mut copies: Vec<(String, Json)> = Vec::new();
                let mut i: usize = 0;
                while i < members.len()
                    invariant
                        i <= members.len(),
                        copies.len() == i,
                        *self == Json::Object(*members),
                        forall|k: int|
                            0 <= k < i ==> (#[trigger] copies[k]).0@ == members[k].0@
                                && copies[k].1@ == printable(members[k].1@),
                        forall|k: int|
                            0 <= k < members.len() ==> decreases_to!(
                                self => (#[trigger] members[k]).1
                            ),
                    decreases members.len() - i,
                {
                    let key = members[i].0.clone();
                    let value = members[i].1.printable();
                    copies.push((key, value));
                    i += 1;
                }
                let copy = Json::Object(copies);
                assert(copy@->Object_0 =~= printable(self@)->Object_0);
                copy
            },
        }
    }

    /// Prints the document as compact JSON text. The members of an object
    /// come out in the order of their keys, the last of equal keys only; a
    /// number whose text is no finite number comes out as `null`.
    pub fn to_text(&self) -> (text: String)
        ensures
            text@ == printed(self@),
    {
        print_text(&self.printable())
    }

    /// The member of an object with the given key.
    pub fn get(&self, key: &str) -> (found: Option<&Json>)
        ensures
            found matches Some(member) ==> self@.get(key@) == Some(member@),
            found is None ==> self@.get(key@) is None,
    {
        match self {
            Json::Object(members) => {
                let wanted: String = key.to_owned();
                let ghost all = self@->Object_0;
                let mut i: usize = members.len();
                assert(all.take(i as int) =~= all);
                while i > 0
                    invariant
                        i <= members.len(),
                        *self == Json::Object(*members),
                        all == self@->Object_0,
                        wanted@ == key@,
                        lookup(all, key@) == lookup(all.take(i as int), key@),
                    decreases i,
                {
                    i -= 1;
                    proof {
                        let front = all.take(i + 1);
                        assert(front.last() == all[i as int]);
                        assert(front.drop_last() =~= all.take(i as int));
                    }
                    if members[i].0 == wanted {
                        return Some(&members[i].1);
                    }
                }
                assert(all.take(0).len() == 0);
                None
            },
            _ => None,
        }
    }

    /// Whether the value is `null`.
    pub fn is_null(&self) -> (null: bool)
        ensures
            null == (self@ is Null),
    {
        match self {
            Json::Null => true,
            _ => false,
        }
    }

    /// Whether the value is an object.
    pub fn is_object(&self) -> (object: bool)
        ensures
            object == (self@ is Object),
    {
        match self {
            Json::Object(_) => true,
            _ => false,
        }
    }

    /// The characters of a string.
    pub fn as_str(&self) -> (text: Option<&str>)
        ensures
            text matches Some(s) ==> self@.as_str() == Some(s@),
            text is None ==> self@.as_str() is None,
    {
        match self {
            Json::String(s) => Some(s.as_str()),
            _ => None,
        }
    }

    /// The truth value of a boolean.
    pub fn as_bool(&self) -> (truth: Option<bool>)
        ensures
            truth == self@.as_bool(),
    {
        match self {
            Json::Bool(b) => Some(*b),
            _ => None,
        }
    }

    /// The value of an unsigned integer.
    pub fn as_u64(&self) -> (number: Option<u64>)
        ensures
            number == self@.as_u64(),
    {
        match self {
            Json::Number(JsonNumber::PosInt(n)) => Some(*n),
            _ => None,
        }
    }

    /// The elements of an array.
    pub fn as_array(&self) -> (elements: Option<&Vec<Json>>)
        ensures
            elements matches Some(items) ==> self@.as_array() == Some(elements_model(items@)),
            elements is None ==> self@.as_array() is None,
    {
        match self {
            Json::Array(items) => {
                assert(self@->Array_0 =~= elements_model(items@));
                Some(items)
            },
            _ => None,
        }
    }
}

/// The models of a sequence of documents, one by one.
pub open spec fn elements_model(items: Seq<Json>) -> Seq<JsonValue> {
    Seq::new(items.len(), |i: int| items[i]@)
}

} // verus!
