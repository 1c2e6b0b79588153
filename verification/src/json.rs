//! A JSON document as the upstream API sends it, and the lenient readers
//! of its fields: text, optional text, flags and integers, each with the
//! fallback that the upstream's loose typing calls for.

use vstd::prelude::*;

use crate::number::{parse_i32, parse_i64, parsed_i32, parsed_i64};
use crate::text::same_text;

verus! {

/// A JSON number: a non-negative integer, a negative integer, or a number
/// with a fraction or exponent (whose value the readers here never use).
#[derive(Debug, Clone, PartialEq)]
pub enum JsonNumber {
    PosInt(u64),
    NegInt(i64),
    Float,
}

/// A JSON value. An object keeps its members in order, each key once.
#[derive(Debug, PartialEq)]
pub enum JsonValue {
    Null,
    Bool(bool),
    Number(JsonNumber),
    Str(String),
    Array(Vec<JsonValue>),
    Object(Vec<(String, JsonValue)>),
}

/// The value of the first member named `key` among `entries`.
pub open spec fn entry_value(entries: Seq<(String, JsonValue)>, key: Seq<char>) -> Option<
    JsonValue,
>
    decreases entries.len(),
{
    if entries.len() == 0 {
        None
    } else if entries[0].0@ == key {
        Some(entries[0].1)
    } else {
        entry_value(entries.drop_first(), key)
    }
}

/// The member `key` of `v` where `v` is an object that has it (`Value::get`).
pub open spec fn field(v: JsonValue, key: Seq<char>) -> Option<JsonValue> {
    match v {
        JsonValue::Object(entries) => entry_value(entries@, key),
        _ => None,
    }
}

/// The member `key` of `v`, or `null` (`v[key]`).
pub open spec fn member(v: JsonValue, key: Seq<char>) -> JsonValue {
    match field(v, key) {
        Some(x) => x,
        None => JsonValue::Null,
    }
}

/// The text of a JSON string (`Value::as_str`).
pub open spec fn text_of(v: JsonValue) -> Option<Seq<char>> {
    match v {
        JsonValue::Str(s) => Some(s@),
        _ => None,
    }
}

/// The integer of a JSON number that fits `i64` (`Value::as_i64`).
pub open spec fn int_of(v: JsonValue) -> Option<i64> {
    match v {
        JsonValue::Number(JsonNumber::PosInt(n)) => if n <= i64::MAX {
            Some(n as i64)
        } else {
            None
        },
        JsonValue::Number(JsonNumber::NegInt(n)) => Some(n),
        _ => None,
    }
}

/// The elements of a JSON array (`Value::as_array`).
pub open spec fn items_of(v: JsonValue) -> Option<Seq<JsonValue>> {
    match v {
        JsonValue::Array(items) => Some(items@),
        _ => None,
    }
}

/// The text of `v`, or empty text where `v` is not a string.
pub open spec fn text_or_empty(v: JsonValue) -> Seq<char> {
    match text_of(v) {
        Some(s) => s,
        None => Seq::empty(),
    }
}

/// The text of `v` where `v` is a non-empty string.
pub open spec fn nonempty_text(v: JsonValue) -> Option<Seq<char>> {
    match text_of(v) {
        Some(s) => if s.len() > 0 {
            Some(s)
        } else {
            None
        },
        None => None,
    }
}

/// `v` reads as true: the string `1` or `true`, the boolean `true`, or the
/// number 1.
pub open spec fn flag_of(v: JsonValue) -> bool {
    ||| text_of(v) == Some("1"@)
    ||| text_of(v) == Some("true"@)
    ||| v == JsonValue::Bool(true)
    ||| int_of(v) == Some(1i64)
}

/// An `i64` read from a string that spells it, or from a number.
pub open spec fn optional_int(v: JsonValue) -> Option<i64> {
    match v {
        JsonValue::Str(s) => parsed_i64(s@),
        _ => int_of(v),
    }
}

/// An `i32` read from a string that spells it, or else 0; or from a number,
/// truncated to 32 bits, or else 0.
pub open spec fn int32_or_zero(v: JsonValue) -> i32 {
    match v {
        JsonValue::Str(s) => match parsed_i32(s@) {
            Some(x) => x,
            None => 0,
        },
        _ => match int_of(v) {
            Some(x) => x as i32,
            None => 0,
        },
    }
}

/// The member `key` of `v` where `v` is an object that has it (`Value::get`).
pub fn get<'a>(v: &'a JsonValue, key: &str) -> (r: Option<&'a JsonValue>)
    ensures
        match r {
            Some(x) => field(*v, key@) == Some(*x),
            None => field(*v, key@) is None,
        },
{
    match v {
        JsonValue::Object(entries) => {
            let mut i: usize = 0;
            assert(entries@.skip(0) =~= entries@);
            while i < entries.len()
                invariant
                    i <= entries@.len(),
                    field(*v, key@) == entry_value(entries@, key@),
                    entry_value(entries@, key@) == entry_value(entries@.skip(i as int), key@),
                decreases entries@.len() - i,
            {
                assert(entries@.skip(i as int).drop_first() =~= entries@.skip(i + 1));
                assert(entries@.skip(i as int)[0] == entries@[i as int]);
                if same_text(entries[i].0.as_str(), key) {
                    return Some(&entries[i].1);
                }
                i = i + 1;
            }
            None
        },
        _ => None,
    }
}

/// The `null` that a missing member reads as.
pub const NULL: JsonValue = JsonValue::Null;

/// The member `key` of `v`, or `null` (`v[key]`).
pub fn member_of<'a>(v: &'a JsonValue, key: &str) -> (r: &'a JsonValue)
    ensures
        *r == member(*v, key@),
{
    match get(v, key) {
        Some(x) => x,
        None => &NULL,
    }
}

/// The elements of `v` where it is an array (`Value::as_array`).
pub fn items<'a>(v: &'a JsonValue) -> (r: Option<&'a Vec<JsonValue>>)
    ensures
        match r {
            Some(a) => items_of(*v) == Some(a@),
            None => items_of(*v) is None,
        },
{
    match v {
        JsonValue::Array(a) => Some(a),
        _ => None,
    }
}

/// The text of `v` where it is a string (`Value::as_str`).
pub fn as_text<'a>(v: &'a JsonValue) -> (r: Option<&'a String>)
    ensures
        match r {
            Some(s) => text_of(*v) == Some(s@),
            None => text_of(*v) is None,
        },
{
    match v {
        JsonValue::Str(s) => Some(s),
        _ => None,
    }
}

/// The integer of `v` where it is a number that fits `i64` (`Value::as_i64`).
pub fn as_int(v: &JsonValue) -> (r: Option<i64>)
    ensures
        r == int_of(*v),
{
    match v {
        JsonValue::Number(JsonNumber::PosInt(n)) => if *n <= 0x7fff_ffff_ffff_ffffu64 {
            Some(*n as i64)
        } else {
            None
        },
        JsonValue::Number(JsonNumber::NegInt(n)) => Some(*n),
        _ => None,
    }
}

/// The text of `v`, or empty text where it is not a string.
pub fn str_val(v: &JsonValue) -> (r: String)
    ensures
        r@ == text_or_empty(*v),
{
    match as_text(v) {
        Some(s) => s.clone(),
        None => String::new(),
    }
}

/// The text of `v` where it is a non-empty string.
pub fn opt_str_val(v: &JsonValue) -> (r: Option<String>)
    ensures
        match r {
            Some(s) => nonempty_text(*v) == Some(s@),
            None => nonempty_text(*v) is None,
        },
{
    match as_text(v) {
        Some(s) => if s.as_str().unicode_len() > 0 {
            Some(s.clone())
        } else {
            None
        },
        None => None,
    }
}

/// Whether `v` reads as true.
pub fn bool_val(v: &JsonValue) -> (r: bool)
    ensures
        r == flag_of(*v),
{
    proof {
        reveal_strlit("1");
        reveal_strlit("true");
    }
    let from_text = match as_text(v) {
        Some(s) => same_text(s.as_str(), "1") || same_text(s.as_str(), "true"),
        None => false,
    };
    let from_bool = match v {
        JsonValue::Bool(b) => *b,
        _ => false,
    };
    let from_number = match as_int(v) {
        Some(x) => x == 1,
        None => false,
    };
    from_text || from_bool || from_number
}

/// An `i64` read from a string that spells it, or from a number.
pub fn i64_val(v: &JsonValue) -> (r: Option<i64>)
    ensures
        r == optional_int(*v),
{
    match v {
        JsonValue::Str(s) => parse_i64(s.as_str()),
        _ => as_int(v),
    }
}

/// An `i32` read from a string (0 where it does not spell one) or from a
/// number (truncated to 32 bits; 0 where there is none).
pub fn i32_val(v: &JsonValue) -> (r: i32)
    ensures
        r == int32_or_zero(*v),
{
    match v {
        JsonValue::Str(s) => match parse_i32(s.as_str()) {
            Some(x) => x,
            None => 0,
        },
        _ => match as_int(v) {
            Some(x) => #[verifier::truncate]
            (x as i32),
            None => 0,
        },
    }
}

} // verus!
