//! A JSON document as plain values, with the lookups the protocol reads:
//! member by key, string, boolean, 64-bit integer and array views.

use vstd::prelude::*;

verus! {

/// A parsed JSON value.
///
/// Objects keep their members in document order; a lookup finds a key's
/// first member (a parsed document holds each key once). A number holds its value
/// when it is an integer that fits `i64`, and `None` otherwise (the only
/// numeric reading the protocol makes).
#[derive(Debug)]
pub enum JsonValue {
    Null,
    Bool(bool),
    Number(Option<i64>),
    Str(String),
    Array(Vec<JsonValue>),
    Object(Vec<(String, JsonValue)>),
}

/// The value of the first member named `key` among `entries`.
pub open spec fn lookup_member(entries: Seq<(String, JsonValue)>, key: Seq<char>) -> Option<
    JsonValue,
>
    decreases entries.len(),
{
    if entries.len() == 0 {
        None
    } else if entries[0].0@ == key {
        Some(entries[0].1)
    } else {
        lookup_member(entries.drop_first(), key)
    }
}

/// Member `key` of an object; `None` for a missing key or a value that is not
/// an object (the behaviour of indexing a JSON value by a string key).
pub open spec fn json_get(v: JsonValue, key: Seq<char>) -> Option<JsonValue> {
    match v {
        JsonValue::Object(entries) => lookup_member(entries@, key),
        _ => None,
    }
}

/// The string held by a value, if it is a string.
pub open spec fn json_str(v: JsonValue) -> Option<Seq<char>> {
    match v {
        JsonValue::Str(s) => Some(s@),
        _ => None,
    }
}

/// The boolean held by a value, if it is a boolean.
pub open spec fn json_bool(v: JsonValue) -> Option<bool> {
    match v {
        JsonValue::Bool(b) => Some(b),
        _ => None,
    }
}

/// The integer held by a value, if it is a number that fits `i64`.
pub open spec fn json_i64(v: JsonValue) -> Option<i64> {
    match v {
        JsonValue::Number(n) => n,
        _ => None,
    }
}

/// The elements of a value, if it is an array.
pub open spec fn json_array(v: JsonValue) -> Option<Seq<JsonValue>> {
    match v {
        JsonValue::Array(items) => Some(items@),
        _ => None,
    }
}

/// Member lookup lifted to an optional value (`None` stays `None`).
pub open spec fn json_path(v: Option<JsonValue>, key: Seq<char>) -> Option<JsonValue> {
    match v {
        Some(x) => json_get(x, key),
        None => None,
    }
}

/// A scalar JSON value as the documents the client writes use them.
pub enum Scalar {
    Int(i64),
    Text(Seq<char>),
    Flag(bool),
}

/// `v` is the scalar `a`.
pub open spec fn scalar_is(v: JsonValue, a: Scalar) -> bool {
    match a {
        Scalar::Int(n) => v == JsonValue::Number(Some(n)),
        Scalar::Text(t) => v matches JsonValue::Str(s) && s@ == t,
        Scalar::Flag(b) => v == JsonValue::Bool(b),
    }
}

/// `v` is an object whose members are named `keys`, in this order.
pub open spec fn object_keys_are(v: JsonValue, keys: Seq<Seq<char>>) -> bool {
    match v {
        JsonValue::Object(entries) => {
            &&& entries@.len() == keys.len()
            &&& forall|i: int| 0 <= i < keys.len() ==> (#[trigger] entries@[i]).0@ == keys[i]
        },
        _ => false,
    }
}

/// The value of member number `i` of an object (`Null` for anything else).
pub open spec fn member_value(v: JsonValue, i: int) -> JsonValue {
    match v {
        JsonValue::Object(entries) => entries@[i].1,
        _ => JsonValue::Null,
    }
}

/// `v` is an object whose members are exactly `fields`, in this order,
/// each a scalar.
pub open spec fn flat_object_is(v: JsonValue, fields: Seq<(Seq<char>, Scalar)>) -> bool {
    &&& object_keys_are(v, fields.map_values(|f: (Seq<char>, Scalar)| f.0))
    &&& forall|i: int| 0 <= i < fields.len() ==> scalar_is(#[trigger] member_value(v, i), fields[i].1)
}

/// A member holding an integer.
pub fn int_member(key: &str, n: i64) -> (r: (String, JsonValue))
    ensures
        r.0@ == key@,
        r.1 == JsonValue::Number(Some(n)),
{
    (key.to_owned(), JsonValue::Number(Some(n)))
}

/// A member holding a string.
pub fn text_member(key: &str, t: &str) -> (r: (String, JsonValue))
    ensures
        r.0@ == key@,
        scalar_is(r.1, Scalar::Text(t@)),
{
    (key.to_owned(), JsonValue::Str(t.to_owned()))
}

/// A member holding a boolean.
pub fn flag_member(key: &str, b: bool) -> (r: (String, JsonValue))
    ensures
        r.0@ == key@,
        r.1 == JsonValue::Bool(b),
{
    (key.to_owned(), JsonValue::Bool(b))
}

/// A member holding any value.
pub fn value_member(key: &str, v: JsonValue) -> (r: (String, JsonValue))
    ensures
        r.0@ == key@,
        r.1 == v,
{
    (key.to_owned(), v)
}

impl JsonValue {
    /// Member `key` of this value, when it is an object that has one.
    pub fn get(&self, key: &str) -> (r: Option<&JsonValue>)
        ensures
            match r {
                Some(x) => json_get(*self, key@) == Some(*x),
                None => json_get(*self, key@) is None,
            },
    {
        match self {
            JsonValue::Object(entries) => {
                let k = key.to_owned();
                let n = entries.len();
                let mut i: usize = 0;
                assert(entries@.skip(0) == entries@);
                while i < n
                    invariant
                        n == entries@.len(),
                        i <= n,
                        k@ == key@,
                        json_get(*self, key@) == lookup_member(entries@, key@),
                        lookup_member(entries@, key@) == lookup_member(
                            entries@.skip(i as int),
                            key@,
                        ),
                    decreases n - i,
                {
                    assert(entries@.skip(i as int).drop_first() == entries@.skip(i + 1));
                    assert(entries@.skip(i as int)[0] == entries@[i as int]);
                    if entries[i].0 == k {
                        return Some(&entries[i].1);
                    }
                    i = i + 1;
                }
                None
            },
            _ => None,
        }
    }

    /// The string, when this value is a string.
    pub fn as_str(&self) -> (r: Option<&str>)
        ensures
            match r {
                Some(s) => json_str(*self) == Some(s@),
                None => json_str(*self) is None,
            },
    {
        match self {
            JsonValue::Str(s) => Some(s.as_str()),
            _ => None,
        }
    }

    /// The boolean, when this value is a boolean.
    pub fn as_bool(&self) -> (r: Option<bool>)
        ensures
            r == json_bool(*self),
    {
        match self {
            JsonValue::Bool(b) => Some(*b),
            _ => None,
        }
    }

    /// The integer, when this value is a number that fits `i64`.
    pub fn as_i64(&self) -> (r: Option<i64>)
        ensures
            r == json_i64(*self),
    {
        match self {
            JsonValue::Number(n) => *n,
            _ => None,
        }
    }

    /// The elements, when this value is an array.
    pub fn as_array(&self) -> (r: Option<&Vec<JsonValue>>)
        ensures
            match r {
                Some(items) => json_array(*self) == Some(items@),
                None => json_array(*self) is None,
            },
    {
        match self {
            JsonValue::Array(items) => Some(items),
            _ => None,
        }
    }
}

} // verus!
