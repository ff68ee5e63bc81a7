//! A JSON document as plain values, and the lookups the Instagram responses need.
//!
//! The HTTP layer hands the library a decoded JSON document; `JsonValue` holds it.
//! Numbers keep their textual form, so a document passes through unchanged.
//! Lookups follow the indexing rules of a JSON value: asking an object for a key it
//! does not hold, or asking a non-object for any key, gives `Null`.
use vstd::prelude::*;

verus! {

/// A JSON document.
#[derive(Debug, PartialEq, Eq)]
pub enum JsonValue {
    Null,
    Bool(bool),
    /// A number, in its textual form.
    Number(String),
    String(String),
    Array(Vec<JsonValue>),
    /// The members of an object, in order. A lookup finds the first member with
    /// the key; a document decoded from JSON text holds each key once.
    Object(Vec<(String, JsonValue)>),
}

/// The member of `entries` found by a scan from position `i` for `key`:
/// the first one at or after `i` whose key is `key`, if any.
pub open spec fn lookup_from(entries: Seq<(String, JsonValue)>, key: Seq<char>, i: int) -> Option<
    JsonValue,
>
    decreases entries.len() - i,
{
    if i < 0 || i >= entries.len() {
        None
    } else if entries[i].0@ == key {
        Some(entries[i].1)
    } else {
        lookup_from(entries, key, i + 1)
    }
}

/// Indexing an object by a key none of its members has, or indexing anything
/// that is not an object, gives `Null`.
pub proof fn lemma_missing_key_is_null(v: JsonValue, key: Seq<char>)
    requires
        v matches JsonValue::Object(entries) ==> forall|i: int|
            0 <= i < entries@.len() ==> #[trigger] entries@[i].0@ != key,
    ensures
        v.field(key) == JsonValue::Null,
{
    if let JsonValue::Object(entries) = v {
        lemma_lookup_absent(entries@, key, 0);
    }
}

/// A scan finds nothing when no member from `i` on has the key.
proof fn lemma_lookup_absent(entries: Seq<(String, JsonValue)>, key: Seq<char>, i: int)
    requires
        0 <= i,
        forall|j: int| i <= j < entries.len() ==> #[trigger] entries[j].0@ != key,
    ensures
        lookup_from(entries, key, i) is None,
    decreases entries.len() - i,
{
    if i < entries.len() {
        lemma_lookup_absent(entries, key, i + 1);
    }
}

/// The position of the member named `key` among `entries`: the first one with that key.
fn key_position(entries: &Vec<(String, JsonValue)>, key: &str) -> (r: Option<usize>)
    ensures
        match r {
            Some(i) => i < entries.len() && lookup_from(entries@, key@, 0) == Some(
                entries@[i as int].1,
            ),
            None => lookup_from(entries@, key@, 0) is None,
        },
{
    let wanted = key.to_owned();
    let mut i: usize = 0;
    while i < entries.len()
        invariant
            i <= entries.len(),
            wanted@ == key@,
            lookup_from(entries@, key@, 0) == lookup_from(entries@, key@, i as int),
        decreases entries.len() - i,
    {
        if entries[i].0 == wanted {
            assert(entries@[i as int].0@ == key@);
            return Some(i);
        }
        i = i + 1;
    }
    None
}

impl JsonValue {
    /// The member named `key` of an object; `None` for a missing key or a non-object.
    pub open spec fn get_spec(self, key: Seq<char>) -> Option<JsonValue> {
        match self {
            JsonValue::Object(entries) => lookup_from(entries@, key, 0),
            _ => None,
        }
    }

    /// Indexing by key: the member named `key`, or `Null` where there is none.
    pub open spec fn field(self, key: Seq<char>) -> JsonValue {
        match self.get_spec(key) {
            Some(v) => v,
            None => JsonValue::Null,
        }
    }

    /// The text of a string value.
    pub open spec fn str_spec(self) -> Option<Seq<char>> {
        match self {
            JsonValue::String(s) => Some(s@),
            _ => None,
        }
    }

    /// The elements of an array value.
    pub open spec fn array_spec(self) -> Option<Seq<JsonValue>> {
        match self {
            JsonValue::Array(items) => Some(items@),
            _ => None,
        }
    }

    /// The member named `key` of an object, if there is one.
    pub fn get(&self, key: &str) -> (r: Option<&JsonValue>)
        ensures
            match r {
                Some(v) => self.get_spec(key@) == Some(*v),
                None => self.get_spec(key@) is None,
            },
    {
        match self {
            JsonValue::Object(entries) => match key_position(entries, key) {
                Some(i) => Some(&entries[i].1),
                None => None,
            },
            _ => None,
        }
    }

    /// Takes the document apart and keeps the member named `key`, or `Null` where
    /// there is none (`value[key]`, by value).
    pub fn into_field(self, key: &str) -> (r: JsonValue)
        ensures
            r == self.field(key@),
    {
        match self {
            JsonValue::Object(mut entries) => match key_position(&entries, key) {
                Some(i) => {
                    let (_, v) = entries.remove(i);
                    v
                },
                None => JsonValue::Null,
            },
            _ => JsonValue::Null,
        }
    }

    /// The text of the member named `key`, where that member is a string
    /// (`value[key].as_str()`).
    pub fn field_str(&self, key: &str) -> (r: Option<&String>)
        ensures
            match r {
                Some(s) => self.field(key@).str_spec() == Some(s@),
                None => self.field(key@).str_spec() is None,
            },
    {
        match self.get(key) {
            Some(v) => v.as_str(),
            None => None,
        }
    }

    /// The elements of the member named `key`, where that member is an array
    /// (`value[key].as_array()`).
    pub fn field_array(&self, key: &str) -> (r: Option<&Vec<JsonValue>>)
        ensures
            match r {
                Some(items) => self.field(key@).array_spec() == Some(items@),
                None => self.field(key@).array_spec() is None,
            },
    {
        match self.get(key) {
            Some(v) => v.as_array(),
            None => None,
        }
    }

    /// The text of a string value, or `None` for any other kind of value.
    pub fn as_str(&self) -> (r: Option<&String>)
        ensures
            match r {
                Some(s) => self.str_spec() == Some(s@),
                None => self.str_spec() is None,
            },
    {
        match self {
            JsonValue::String(s) => Some(s),
            _ => None,
        }
    }

    /// The elements of an array value, or `None` for any other kind of value.
    pub fn as_array(&self) -> (r: Option<&Vec<JsonValue>>)
        ensures
            match r {
                Some(items) => self.array_spec() == Some(items@),
                None => self.array_spec() is None,
            },
    {
        match self {
            JsonValue::Array(items) => Some(items),
            _ => None,
        }
    }
}

} // verus!
