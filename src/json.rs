use vstd::prelude::*;

verus! {

#[verifier::external_type_specification]
#[verifier::external_body]
pub struct ExJsonValue(serde_json::Value);

/// The document that a byte string parses to as JSON, if it parses.
pub uninterp spec fn json_from_bytes(b: Seq<u8>) -> Option<serde_json::Value>;

/// The value that a JSON pointer addresses inside a document, if any.
pub uninterp spec fn json_at(v: serde_json::Value, pointer: Seq<char>) -> Option<serde_json::Value>;

/// The text of a JSON string value; none for any other kind of value.
pub uninterp spec fn json_str(v: serde_json::Value) -> Option<Seq<char>>;

/// The integer of a JSON number that fits in an `i64`; none otherwise.
pub uninterp spec fn json_i64(v: serde_json::Value) -> Option<i64>;

/// The JSON text of an object holding an integer member and a string member.
pub uninterp spec fn json_pair_bytes(
    int_key: Seq<char>,
    n: i64,
    str_key: Seq<char>,
    s: Seq<char>,
) -> Seq<u8>;

/// Relies on `serde_json::from_slice` into a `serde_json::Value`: the parsed
/// document, or none where the bytes are not JSON.
#[verifier::external_body]
pub(crate) fn parse_json(bytes: &[u8]) -> (r: Option<serde_json::Value>)
    ensures
        r == json_from_bytes(bytes@),
{
    serde_json::from_slice::<serde_json::Value>(bytes).ok()
}

/// Relies on `serde_json::Value::pointer`: looks a value up by JSON pointer.
pub assume_specification<'a, 'b>[ serde_json::Value::pointer ](
    v: &'a serde_json::Value,
    pointer: &'b str,
) -> (r: Option<&'a serde_json::Value>)
    ensures
        match r {
            Some(x) => json_at(*v, pointer@) == Some(*x),
            None => json_at(*v, pointer@) is None,
        },
;

/// Relies on `serde_json::Value::as_str`: the text of a string value.
pub assume_specification[ serde_json::Value::as_str ](v: &serde_json::Value) -> (r: Option<&str>)
    ensures
        match r {
            Some(s) => json_str(*v) == Some(s@),
            None => json_str(*v) is None,
        },
;

/// Relies on `serde_json::Value::as_i64`: the integer of a number that fits in `i64`.
pub assume_specification[ serde_json::Value::as_i64 ](v: &serde_json::Value) -> (r: Option<i64>)
    ensures
        r == json_i64(*v),
;

/// Relies on `serde_json::to_vec` of a `serde_json::Value` object with two
/// members, an integer under `int_key` and a string under `str_key`. Writing
/// a `Value` cannot fail: its map keys are strings.
#[verifier::external_body]
pub(crate) fn pair_to_json(int_key: &str, n: i64, str_key: &str, s: &str) -> (r: Vec<u8>)
    ensures
        r@ == json_pair_bytes(int_key@, n, str_key@, s@),
{
    let mut object = serde_json::Map::new();
    object.insert(int_key.to_owned(), serde_json::Value::from(n));
    object.insert(str_key.to_owned(), serde_json::Value::from(s));
    serde_json::to_vec(&serde_json::Value::Object(object)).unwrap_or_default()
}

} // verus!
