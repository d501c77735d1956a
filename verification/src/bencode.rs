//! The trusted boundary to the outside bencode decoder.  A decoded value
//! is opaque here: the library navigates it through these wrappers and
//! validates everything it extracts.
use vstd::prelude::*;

verus! {

/// The outside decoder's value type, declared so it can appear in
/// signatures.  Nothing about its contents is visible to the verifier.
#[verifier::external_type_specification]
#[verifier::external_body]
pub struct ExBencodeValue(serde_bencode::value::Value);

/// Relies on `serde_bencode::from_bytes`: decodes one bencoded value, or
/// nothing when the bytes are not well-formed bencode.
#[verifier::external_body]
pub fn bencode_decode(bytes: &[u8]) -> (r: Option<serde_bencode::value::Value>) {
    serde_bencode::from_bytes::<serde_bencode::value::Value>(bytes).ok()
}

/// Relies on `serde_bencode::value::Value`: tells whether the value is a
/// dictionary.
#[verifier::external_body]
pub fn bval_is_dict(v: &serde_bencode::value::Value) -> (r: bool) {
    matches!(v, serde_bencode::value::Value::Dict(_))
}

/// Relies on `std::collections::HashMap::get`: looks up `key` in a
/// dictionary value; nothing when the value is no dictionary or has no
/// such entry.
#[verifier::external_body]
pub fn bval_dict_get<'a>(v: &'a serde_bencode::value::Value, key: &[u8]) -> (r: Option<
    &'a serde_bencode::value::Value,
>) {
    match v {
        serde_bencode::value::Value::Dict(entries) => entries.get(key),
        _ => None,
    }
}

/// Relies on `serde_bencode::value::Value`: the byte-string contents of
/// the value, when it is one.
#[verifier::external_body]
pub fn bval_bytes(v: &serde_bencode::value::Value) -> (r: Option<Vec<u8>>) {
    match v {
        serde_bencode::value::Value::Bytes(b) => Some(b.clone()),
        _ => None,
    }
}

/// Relies on `serde_bencode::value::Value`: the integer contents of the
/// value, when it is one.
#[verifier::external_body]
pub fn bval_int(v: &serde_bencode::value::Value) -> (r: Option<i64>) {
    match v {
        serde_bencode::value::Value::Int(i) => Some(*i),
        _ => None,
    }
}

/// Relies on `serde_bencode::value::Value`: the number of elements of a
/// list value, when it is one.
#[verifier::external_body]
pub fn bval_list_len(v: &serde_bencode::value::Value) -> (r: Option<usize>) {
    match v {
        serde_bencode::value::Value::List(items) => Some(items.len()),
        _ => None,
    }
}

/// Relies on `<[T]>::get`: the `i`-th element of a list value, when the
/// value is a list and has one.
#[verifier::external_body]
pub fn bval_list_get<'a>(v: &'a serde_bencode::value::Value, i: usize) -> (r: Option<
    &'a serde_bencode::value::Value,
>) {
    match v {
        serde_bencode::value::Value::List(items) => items.get(i),
        _ => None,
    }
}

} // verus!
