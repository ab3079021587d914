//! A JSON document as the signaling codec sees it: a tree of values whose
//! objects keep their members in order.

use vstd::prelude::*;

verus! {

/// A JSON value. Integers that fit in `i64` are kept exactly; any other
/// number (fractional, or too large) is `OtherNumber`, which no field of the
/// protocol accepts.
#[derive(Debug, PartialEq)]
pub enum JsonValue {
    Null,
    Bool(bool),
    Number(i64),
    OtherNumber,
    Str(String),
    Array(Vec<JsonValue>),
    Object(Vec<JsonMember>),
}

/// One `"key": value` member of a JSON object.
#[derive(Debug, PartialEq)]
pub struct JsonMember {
    pub key: String,
    pub value: JsonValue,
}

/// The value of the first member named `key`, if any.
pub open spec fn lookup(ms: Seq<JsonMember>, key: Seq<char>) -> Option<JsonValue>
    decreases ms.len(),
{
    if ms.len() == 0 {
        None
    } else if ms[0].key@ == key {
        Some(ms[0].value)
    } else {
        lookup(ms.drop_first(), key)
    }
}

/// A member found at index `i`, with no earlier member of the same name, is
/// the one that `lookup` returns.
pub proof fn lemma_lookup_first(ms: Seq<JsonMember>, i: int, key: Seq<char>)
    requires
        0 <= i < ms.len(),
        ms[i].key@ == key,
        forall|j: int| 0 <= j < i ==> (#[trigger] ms[j]).key@ != key,
    ensures
        lookup(ms, key) == Some(ms[i].value),
    decreases i,
{
    if i > 0 {
        assert forall|j: int| 0 <= j < i - 1 implies (#[trigger] ms.drop_first()[j]).key@ != key by {
            assert(ms.drop_first()[j] == ms[j + 1]);
        }
        lemma_lookup_first(ms.drop_first(), i - 1, key);
    }
}

/// The member `key` as a string.
pub open spec fn str_field(ms: Seq<JsonMember>, key: Seq<char>) -> Option<String> {
    match lookup(ms, key) {
        Some(JsonValue::Str(s)) => Some(s),
        _ => None,
    }
}

/// The member `key` as a signed 32-bit integer.
pub open spec fn i32_field(ms: Seq<JsonMember>, key: Seq<char>) -> Option<i32> {
    match lookup(ms, key) {
        Some(JsonValue::Number(n)) => if i32::MIN <= n <= i32::MAX {
            Some(n as i32)
        } else {
            None
        },
        _ => None,
    }
}

/// The member `key` as an unsigned 32-bit integer.
pub open spec fn u32_field(ms: Seq<JsonMember>, key: Seq<char>) -> Option<u32> {
    match lookup(ms, key) {
        Some(JsonValue::Number(n)) => if 0 <= n <= u32::MAX {
            Some(n as u32)
        } else {
            None
        },
        _ => None,
    }
}

/// The member `key` as an optional string: missing or `null` is `Some(None)`,
/// a string is `Some(Some(..))`, anything else is `None`.
pub open spec fn opt_str_field(ms: Seq<JsonMember>, key: Seq<char>) -> Option<Option<String>> {
    match lookup(ms, key) {
        None => Some(None),
        Some(JsonValue::Null) => Some(None),
        Some(JsonValue::Str(s)) => Some(Some(s)),
        _ => None,
    }
}

/// The member `key` as an optional unsigned 32-bit integer, read as
/// `opt_str_field` reads a string.
pub open spec fn opt_u32_field(ms: Seq<JsonMember>, key: Seq<char>) -> Option<Option<u32>> {
    match lookup(ms, key) {
        None => Some(None),
        Some(JsonValue::Null) => Some(None),
        Some(JsonValue::Number(n)) => if 0 <= n <= u32::MAX {
            Some(Some(n as u32))
        } else {
            None
        },
        _ => None,
    }
}

/// The member `key` as an object's members.
pub open spec fn object_field(ms: Seq<JsonMember>, key: Seq<char>) -> Option<Seq<JsonMember>> {
    match lookup(ms, key) {
        Some(JsonValue::Object(inner)) => Some(inner@),
        _ => None,
    }
}

/// The index of the first member named `key`.
pub fn find_member(ms: &Vec<JsonMember>, key: &String) -> (r: Option<usize>)
    ensures
        match r {
            Some(i) => i < ms@.len() && lookup(ms@, key@) == Some(ms@[i as int].value),
            None => lookup(ms@, key@) is None,
        },
{
    let mut i: usize = 0;
    assert(ms@.subrange(0, ms@.len() as int) =~= ms@);
    while i < ms.len()
        invariant
            i <= ms@.len(),
            lookup(ms@, key@) == lookup(ms@.subrange(i as int, ms@.len() as int), key@),
        decreases ms@.len() - i,
    {
        assert(ms@.subrange(i as int, ms@.len() as int).drop_first() =~= ms@.subrange(
            i + 1,
            ms@.len() as int,
        ));
        if ms[i].key == *key {
            return Some(i);
        }
        i = i + 1;
    }
    None
}

/// Reads the member `key` as a string.
pub fn get_str(ms: &Vec<JsonMember>, key: &String) -> (r: Option<String>)
    ensures
        r == str_field(ms@, key@),
{
    match find_member(ms, key) {
        Some(i) => match &ms[i].value {
            JsonValue::Str(s) => Some(s.clone()),
            _ => None,
        },
        None => None,
    }
}

/// Reads the member `key` as a signed 32-bit integer.
pub fn get_i32(ms: &Vec<JsonMember>, key: &String) -> (r: Option<i32>)
    ensures
        r == i32_field(ms@, key@),
{
    match find_member(ms, key) {
        Some(i) => match &ms[i].value {
            JsonValue::Number(n) => if i32::MIN as i64 <= *n && *n <= i32::MAX as i64 {
                Some(*n as i32)
            } else {
                None
            },
            _ => None,
        },
        None => None,
    }
}

/// Reads the member `key` as an unsigned 32-bit integer.
pub fn get_u32(ms: &Vec<JsonMember>, key: &String) -> (r: Option<u32>)
    ensures
        r == u32_field(ms@, key@),
{
    match find_member(ms, key) {
        Some(i) => match &ms[i].value {
            JsonValue::Number(n) => if 0 <= *n && *n <= u32::MAX as i64 {
                Some(*n as u32)
            } else {
                None
            },
            _ => None,
        },
        None => None,
    }
}

/// Reads the member `key` as an optional string.
pub fn get_opt_str(ms: &Vec<JsonMember>, key: &String) -> (r: Option<Option<String>>)
    ensures
        r == opt_str_field(ms@, key@),
{
    match find_member(ms, key) {
        Some(i) => match &ms[i].value {
            JsonValue::Null => Some(None),
            JsonValue::Str(s) => Some(Some(s.clone())),
            _ => None,
        },
        None => Some(None),
    }
}

/// Reads the member `key` as an optional unsigned 32-bit integer.
pub fn get_opt_u32(ms: &Vec<JsonMember>, key: &String) -> (r: Option<Option<u32>>)
    ensures
        r == opt_u32_field(ms@, key@),
{
    match find_member(ms, key) {
        Some(i) => match &ms[i].value {
            JsonValue::Null => Some(None),
            JsonValue::Number(n) => if 0 <= *n && *n <= u32::MAX as i64 {
                Some(Some(*n as u32))
            } else {
                None
            },
            _ => None,
        },
        None => Some(None),
    }
}

/// Finds the member `key` and returns its index when it holds an object.
pub fn find_object(ms: &Vec<JsonMember>, key: &String) -> (r: Option<usize>)
    ensures
        match r {
            Some(i) => i < ms@.len() && ms@[i as int].value is Object && object_field(ms@, key@)
                == Some(ms@[i as int].value->Object_0@),
            None => object_field(ms@, key@) is None,
        },
{
    match find_member(ms, key) {
        Some(i) => match &ms[i].value {
            JsonValue::Object(_) => Some(i),
            _ => None,
        },
        None => None,
    }
}

} // verus!
