//! A JSON document as plain values, with the accessors the strategy reader uses.
use vstd::prelude::*;

verus! {

/// A JSON number.
pub enum JsonNumber {
    /// A non-negative integer.
    PosInt(u64),
    /// An integer below zero.
    NegInt(i64),
    /// A floating-point number, kept as its IEEE 754 bit pattern.
    Float(u64),
}

/// A JSON value. An object keeps its members in order; looking a name up finds
/// the first member of that name.
pub enum JsonValue {
    Null,
    Bool(bool),
    Number(JsonNumber),
    String(String),
    Array(Vec<JsonValue>),
    Object(Vec<(String, JsonValue)>),
}

/// The value as an unsigned 64-bit integer, where it is one.
pub open spec fn spec_as_u64(v: JsonValue) -> Option<u64> {
    match v {
        JsonValue::Number(JsonNumber::PosInt(n)) => Some(n),
        _ => None,
    }
}

/// The value bound to `key` among the members `entries` (the first one so named).
pub open spec fn spec_lookup(entries: Seq<(String, JsonValue)>, key: Seq<char>) -> Option<JsonValue>
    decreases entries.len(),
{
    if entries.len() == 0 {
        None
    } else if entries[0].0@ == key {
        Some(entries[0].1)
    } else {
        spec_lookup(entries.drop_first(), key)
    }
}

impl JsonValue {
    pub fn as_u64(&self) -> (r: Option<u64>)
        ensures
            r == spec_as_u64(*self),
    {
        match self {
            JsonValue::Number(JsonNumber::PosInt(n)) => Some(*n),
            _ => None,
        }
    }

    pub fn as_object(&self) -> (r: Option<&Vec<(String, JsonValue)>>)
        ensures
            match *self {
                JsonValue::Object(entries) => r matches Some(e) && *e == entries,
                _ => r is None,
            },
    {
        match self {
            JsonValue::Object(entries) => Some(entries),
            _ => None,
        }
    }

    pub fn as_array(&self) -> (r: Option<&Vec<JsonValue>>)
        ensures
            match *self {
                JsonValue::Array(items) => r matches Some(a) && *a == items,
                _ => r is None,
            },
    {
        match self {
            JsonValue::Array(items) => Some(items),
            _ => None,
        }
    }

    pub fn as_str(&self) -> (r: Option<&String>)
        ensures
            match *self {
                JsonValue::String(s) => r matches Some(t) && *t == s,
                _ => r is None,
            },
    {
        match self {
            JsonValue::String(s) => Some(s),
            _ => None,
        }
    }
}

/// Looks `key` up among the members of an object.
pub fn lookup<'a>(entries: &'a Vec<(String, JsonValue)>, key: &String) -> (r: Option<&'a JsonValue>)
    ensures
        r is None <==> spec_lookup(entries@, key@) is None,
        r matches Some(v) ==> spec_lookup(entries@, key@) == Some(*v),
{
    let mut i: usize = 0;
    assert(entries@.skip(0) =~= entries@);
    while i < entries.len()
        invariant
            0 <= i <= entries.len(),
            spec_lookup(entries@, key@) == spec_lookup(entries@.skip(i as int), key@),
        decreases entries.len() - i,
    {
        if entries[i].0 == *key {
            return Some(&entries[i].1);
        }
        assert(entries@.skip(i as int).drop_first() =~= entries@.skip(i + 1));
        i = i + 1;
    }
    None
}

/// Looking `key` up finds the first member named `key`, and nothing exactly
/// when no member has that name.
pub proof fn lemma_lookup_finds_first(entries: Seq<(String, JsonValue)>, key: Seq<char>)
    ensures
        spec_lookup(entries, key) is None <==> forall|i: int|
            0 <= i < entries.len() ==> (#[trigger] entries[i]).0@ != key,
        spec_lookup(entries, key) matches Some(v) ==> exists|i: int|
            0 <= i < entries.len() && (#[trigger] entries[i]).0@ == key && entries[i].1 == v && forall|
                j: int,
            | 0 <= j < i ==> (#[trigger] entries[j]).0@ != key,
    decreases entries.len(),
{
    if entries.len() > 0 {
        let rest = entries.drop_first();
        lemma_lookup_finds_first(rest, key);
        if entries[0].0@ == key {
        } else {
            assert forall|i: int| 0 < i < entries.len() implies #[trigger] entries[i] == rest[i - 1] by {}
            if spec_lookup(rest, key) is None {
                assert forall|i: int| 0 <= i < entries.len() implies (#[trigger] entries[i]).0@ != key by {
                    if i > 0 {
                        assert(rest[i - 1] == entries[i]);
                    }
                }
            } else {
                let v = spec_lookup(rest, key)->0;
                let k = choose|k: int|
                    0 <= k < rest.len() && (#[trigger] rest[k]).0@ == key && rest[k].1 == v && forall|
                        j: int,
                    | 0 <= j < k ==> (#[trigger] rest[j]).0@ != key;
                assert(entries[k + 1] == rest[k]);
                assert forall|j: int| 0 <= j < k + 1 implies (#[trigger] entries[j]).0@ != key by {
                    if j > 0 {
                        assert(entries[j] == rest[j - 1]);
                    }
                }
            }
        }
    }
}

} // verus!
