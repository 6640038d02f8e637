//! The JSON encoding and decoding of the counter.
//!
//! The wire form of the counter is the compact JSON document `{"value":N}`.
//! Encoding is specified exactly, character for character, by `json_count`;
//! decoding a request body is named by `json_value_field`, since the JSON
//! grammar is the JSON library's business, not this crate's.

use vstd::prelude::*;

verus! {

/// The character for the decimal digit `d`.
pub open spec fn digit_char(d: nat) -> char {
    if d == 0 {
        '0'
    } else if d == 1 {
        '1'
    } else if d == 2 {
        '2'
    } else if d == 3 {
        '3'
    } else if d == 4 {
        '4'
    } else if d == 5 {
        '5'
    } else if d == 6 {
        '6'
    } else if d == 7 {
        '7'
    } else if d == 8 {
        '8'
    } else {
        '9'
    }
}

/// The decimal digits of `n`, most significant first.
pub open spec fn dec_rep(n: nat) -> Seq<char>
    decreases n,
{
    if n < 10 {
        seq![digit_char(n)]
    } else {
        dec_rep(n / 10).push(digit_char(n % 10))
    }
}

/// The decimal representation of `n`, with a leading minus sign when negative.
pub open spec fn int_rep(n: int) -> Seq<char> {
    if n < 0 {
        seq!['-'] + dec_rep((-n) as nat)
    } else {
        dec_rep(n as nat)
    }
}

/// The JSON document `{"value":N}`, with N the decimal representation of `n`.
pub open spec fn json_count(n: int) -> Seq<char> {
    seq!['{', '"', 'v', 'a', 'l', 'u', 'e', '"', ':'] + int_rep(n) + seq!['}']
}

/// What the bytes `b` yield when read as a JSON object with an integer member
/// named "value": the member's value, or nothing when `b` is not such an
/// object. The result is a function of the bytes alone.
pub uninterp spec fn json_value_field(b: Seq<u8>) -> Option<i64>;

/// Relies on serde_json::to_string over a one-entry object map: it returns
/// the compact document `{"value":N}` with N in decimal, and on such an
/// input it cannot fail.
#[verifier::external_body]
pub(crate) fn encode_count(n: i32) -> (r: String)
    ensures
        r@ == json_count(n as int),
{
    let mut fields = serde_json::Map::new();
    fields.insert(String::from("value"), serde_json::Value::from(n));
    serde_json::to_string(&serde_json::Value::Object(fields)).unwrap()
}

/// Relies on serde_json::from_slice into serde_json::Value, Value::get and
/// Value::as_i64: together they read the bytes as a JSON object and yield its
/// integer member "value", a function of the bytes alone.
#[verifier::external_body]
pub(crate) fn parse_value_field(body: &[u8]) -> (r: Option<i64>)
    ensures
        r == json_value_field(body@),
{
    match serde_json::from_slice::<serde_json::Value>(body) {
        Ok(doc) => match doc.get("value") {
            Some(member) => member.as_i64(),
            None => None,
        },
        Err(_) => None,
    }
}

} // verus!
