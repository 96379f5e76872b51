//! Decoding of a remote desired-state payload.
//!
//! A payload is trimmed of surrounding whitespace and read as a JSON integer.
//! Anything that is not one within the range of `i64` (empty text, text that
//! is not JSON, a JSON value that is not an integer, an integer out of that
//! range) is undecodable and leaves the relay as it was.
use vstd::prelude::*;

verus! {

/// The text that `str::trim` leaves of `s`.
pub uninterp spec fn trimmed(s: Seq<char>) -> Seq<char>;

/// The integer that serde_json reads from the JSON text `s`, if `s` is one.
pub uninterp spec fn json_integer(s: Seq<char>) -> Option<i64>;

/// Relies on `str::trim`: drops leading and trailing whitespace; the result
/// depends on the characters alone, and empty text stays empty.
#[verifier::external_body]
fn trim_whitespace(s: &str) -> (r: &str)
    ensures
        r@ == trimmed(s@),
        s@.len() == 0 ==> r@.len() == 0,
{
    s.trim()
}

/// Relies on `serde_json::from_str::<i64>`: reads the whole text as one JSON
/// value that must be an integer in range of `i64`; text that is empty, is not
/// JSON, or holds another kind of value is an error (mapped to `None`).
#[verifier::external_body]
fn parse_json_integer(s: &str) -> (r: Option<i64>)
    ensures
        r == json_integer(s@),
        s@.len() == 0 ==> r is None,
{
    serde_json::from_str::<i64>(s).ok()
}

/// What a decoded integer asks for: ON exactly when it equals 1.
pub open spec fn desired_on(v: i64) -> bool {
    v == 1
}

/// What a parse outcome asks for: a decision for an integer, none otherwise.
pub open spec fn decision(parsed: Option<i64>) -> Option<bool> {
    match parsed {
        Some(v) => Some(desired_on(v)),
        None => None,
    }
}

/// What the payload text `p` asks for, under the decoding policy.
pub open spec fn decoded(p: Seq<char>) -> Option<bool> {
    decision(json_integer(trimmed(p)))
}

/// Maps a remote integer to a logical state: ON for 1, OFF for any other value.
pub fn desired_from_integer(v: i64) -> (r: bool)
    ensures
        r == desired_on(v),
        r <==> v == 1,
{
    v == 1
}

/// Maps the result of reading a payload as an integer to a logical state;
/// `None` (nothing decodable) stays `None`.
pub fn decide(parsed: Option<i64>) -> (r: Option<bool>)
    ensures
        r == decision(parsed),
        r is None <==> parsed is None,
        parsed is Some ==> r == Some(parsed->0 == 1),
{
    match parsed {
        Some(v) => Some(desired_from_integer(v)),
        None => None,
    }
}

/// Decodes a raw payload: `Some(on)` for a JSON integer (ON exactly for 1),
/// `None` for anything undecodable.
pub fn decode_desired(payload: &str) -> (r: Option<bool>)
    ensures
        r == decoded(payload@),
        trimmed(payload@).len() == 0 ==> r is None,
{
    let text = trim_whitespace(payload);
    decide(parse_json_integer(text))
}

/// Every integer decodes by the single test `v == 1`: 1 is ON, every other
/// value (0, negative, 2 or more) is OFF.
pub proof fn lemma_integer_polarity(v: i64)
    ensures
        decision(Some(v)) == Some(v == 1),
        v != 1 ==> decision(Some(v)) == Some(false),
{
}

} // verus!
