//! A JSON document model and the lookups that the service makes in the
//! documents its upstream servers send back. The lookups behave as those of
//! `serde_json::Value`: indexing a non-object or a missing key gives `Null`,
//! and each `as_*` accessor gives `None` on a value of another kind.

use vstd::prelude::*;
use crate::text::str_equal;

verus! {

/// A JSON number, as `serde_json` stores it: a non-negative integer, a
/// negative integer, or a floating-point number (whose value the service never
/// reads).
pub enum JsonNumber {
    PosInt(u64),
    NegInt(i64),
    Float,
}

/// A JSON value. An object keeps its entries in order; a lookup finds the
/// first entry with the key.
pub enum Json {
    Null,
    Bool(bool),
    Number(JsonNumber),
    String(String),
    Array(Vec<Json>),
    Object(Vec<(String, Json)>),
}

/// The value of the first entry of `entries` whose key is `key`.
pub open spec fn object_lookup(entries: Seq<(String, Json)>, key: Seq<char>) -> Option<Json>
    decreases entries.len(),
{
    if entries.len() == 0 {
        None
    } else if entries[0].0@ == key {
        Some(entries[0].1)
    } else {
        object_lookup(entries.drop_first(), key)
    }
}

/// `value[key]`: the member `key` of an object, `Null` when it is missing or
/// `value` is no object.
pub open spec fn json_index(value: Json, key: Seq<char>) -> Json {
    match value {
        Json::Object(entries) => match object_lookup(entries@, key) {
            Some(v) => v,
            None => Json::Null,
        },
        _ => Json::Null,
    }
}

/// `value.as_u64()`.
pub open spec fn json_as_u64(value: Json) -> Option<u64> {
    match value {
        Json::Number(JsonNumber::PosInt(n)) => Some(n),
        _ => None,
    }
}

/// `value.as_i64()`.
pub open spec fn json_as_i64(value: Json) -> Option<i64> {
    match value {
        Json::Number(JsonNumber::PosInt(n)) => if n <= i64::MAX {
            Some(n as i64)
        } else {
            None
        },
        Json::Number(JsonNumber::NegInt(n)) => Some(n),
        _ => None,
    }
}

/// `value.as_str()`, by its characters.
pub open spec fn json_as_str(value: Json) -> Option<Seq<char>> {
    match value {
        Json::String(s) => Some(s@),
        _ => None,
    }
}

/// `value.as_bool()`.
pub open spec fn json_as_bool(value: Json) -> Option<bool> {
    match value {
        Json::Bool(b) => Some(b),
        _ => None,
    }
}

/// `value.as_array()`.
pub open spec fn json_as_array(value: Json) -> Option<Seq<Json>> {
    match value {
        Json::Array(items) => Some(items@),
        _ => None,
    }
}

/// The value of the first entry of `entries` with key `key`.
pub fn lookup_entries<'a>(entries: &'a Vec<(String, Json)>, key: &str) -> (r: Option<&'a Json>)
    ensures
        r == (match object_lookup(entries@, key@) {
            Some(v) => Some(&v),
            None => None::<&Json>,
        }),
{
    let mut i: usize = 0;
    assert(entries@.skip(0) =~= entries@);
    while i < entries.len()
        invariant
            i <= entries.len(),
            object_lookup(entries@, key@) == object_lookup(entries@.skip(i as int), key@),
        decreases entries.len() - i,
    {
        assert(entries@.skip(i as int)[0] == entries@[i as int]);
        if str_equal(entries[i].0.as_str(), key) {
            return Some(&entries[i].1);
        }
        assert(entries@.skip(i as int).drop_first() =~= entries@.skip(i + 1));
        i += 1;
    }
    None
}

impl Json {
    /// `self[key]`, with `None` standing for the `Null` that a missing member
    /// reads as.
    pub fn get(&self, key: &str) -> (r: Option<&Json>)
        ensures
            (match r {
                Some(v) => *v,
                None => Json::Null,
            }) == json_index(*self, key@),
    {
        match self {
            Json::Object(entries) => lookup_entries(entries, key),
            _ => None,
        }
    }

    /// `self.as_u64()`.
    pub fn as_u64(&self) -> (r: Option<u64>)
        ensures
            r == json_as_u64(*self),
    {
        match self {
            Json::Number(JsonNumber::PosInt(n)) => Some(*n),
            _ => None,
        }
    }

    /// `self.as_i64()`.
    pub fn as_i64(&self) -> (r: Option<i64>)
        ensures
            r == json_as_i64(*self),
    {
        match self {
            Json::Number(JsonNumber::PosInt(n)) => if *n <= i64::MAX as u64 {
                Some(*n as i64)
            } else {
                None
            },
            Json::Number(JsonNumber::NegInt(n)) => Some(*n),
            _ => None,
        }
    }

    /// `self.as_str()`.
    pub fn as_str(&self) -> (r: Option<&str>)
        ensures
            (match r {
                Some(s) => Some(s@),
                None => None,
            }) == json_as_str(*self),
    {
        match self {
            Json::String(s) => Some(s.as_str()),
            _ => None,
        }
    }

    /// `self.as_bool()`.
    pub fn as_bool(&self) -> (r: Option<bool>)
        ensures
            r == json_as_bool(*self),
    {
        match self {
            Json::Bool(b) => Some(*b),
            _ => None,
        }
    }

    /// `self.as_array()`.
    pub fn as_array(&self) -> (r: Option<&Vec<Json>>)
        ensures
            (match r {
                Some(items) => Some(items@),
                None => None,
            }) == json_as_array(*self),
    {
        match self {
            Json::Array(items) => Some(items),
            _ => None,
        }
    }
}

/// `value[key]` read through an optional value, where `None` stands for
/// `Null`.
pub fn get_opt<'a>(value: Option<&'a Json>, key: &str) -> (r: Option<&'a Json>)
    ensures
        (match r {
            Some(v) => *v,
            None => Json::Null,
        }) == json_index(
            match value {
                Some(v) => *v,
                None => Json::Null,
            },
            key@,
        ),
{
    match value {
        Some(v) => v.get(key),
        None => None,
    }
}

/// The value that an optional value stands for, `None` standing for `Null`.
pub open spec fn or_null(value: Option<&Json>) -> Json {
    match value {
        Some(v) => *v,
        None => Json::Null,
    }
}

} // verus!
