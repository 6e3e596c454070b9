//! Serialization of string values for the storage backends.
//!
//! The filesystem and browser backends store values as JSON text; the
//! embedded-database backend stores them as MessagePack bytes. Both encoders
//! are outside crates; their results are given names here
//! (`json_string_repr`, `msgpack_str_bytes`), the decoders' success domains
//! too (`json_decodes_as_string`, `msgpack_decodes_as_string`), and the
//! decoders are trusted to invert the encoders, which is what the round-trip
//! contracts of the stores rest on.

use vstd::prelude::*;

verus! {

/// The JSON text that `serde_json::to_string` produces for a string value.
pub uninterp spec fn json_string_repr(s: Seq<char>) -> Seq<char>;

/// Whether `serde_json::from_str::<String>` succeeds on this text.
pub uninterp spec fn json_decodes_as_string(data: Seq<char>) -> bool;

/// The MessagePack bytes that `rmp_serde::to_vec` produces for a string value.
pub uninterp spec fn msgpack_str_bytes(s: Seq<char>) -> Seq<u8>;

/// Whether `rmp_serde::from_slice::<String>` succeeds on these bytes.
pub uninterp spec fn msgpack_decodes_as_string(data: Seq<u8>) -> bool;

/// Whether a string is short enough that its MessagePack encoding keeps its
/// exact length: the format's string header holds the byte length in 32
/// bits, and a character takes at most four bytes, so longer strings do not
/// round-trip.
pub open spec fn fits_msgpack_str(s: Seq<char>) -> bool {
    s.len() < 0x4000_0000
}

#[verifier::external_type_specification]
#[verifier::external_body]
pub struct ExJsonError(serde_json::Error);

#[verifier::external_type_specification]
#[verifier::external_body]
pub struct ExRmpEncodeError(rmp_serde::encode::Error);

#[verifier::external_type_specification]
#[verifier::external_body]
pub struct ExRmpDecodeError(rmp_serde::decode::Error);

/// Relies on `serde_json::to_string`: the JSON text for a string value is a
/// function of its characters alone, and writing a string into a byte buffer
/// has no failure path.
#[verifier::external_body]
pub(crate) fn json_encode_str(value: &str) -> (r: Result<String, serde_json::Error>)
    ensures
        r is Ok,
        r->Ok_0@ == json_string_repr(value@),
{
    serde_json::to_string(value)
}

/// Relies on `serde_json::from_str::<String>`: whether the text decodes is a
/// function of its characters alone, and decoding inverts
/// `serde_json::to_string` on string values.
#[verifier::external_body]
pub(crate) fn json_decode_string(data: &str) -> (r: Result<String, serde_json::Error>)
    ensures
        r is Ok <==> json_decodes_as_string(data@),
        forall|s: Seq<char>| data@ == json_string_repr(s) ==> r is Ok && r->Ok_0@ == s,
{
    serde_json::from_str(data)
}

/// Relies on `rmp_serde::to_vec`: the MessagePack bytes for a string value
/// are a function of its characters alone, and writing into a byte buffer
/// has no failure path.
#[verifier::external_body]
pub(crate) fn msgpack_encode_str(value: &str) -> (r: Result<Vec<u8>, rmp_serde::encode::Error>)
    ensures
        r is Ok,
        r->Ok_0@ == msgpack_str_bytes(value@),
{
    rmp_serde::to_vec(value)
}

/// Relies on `rmp_serde::from_slice::<String>`: whether the bytes decode is
/// a function of the bytes alone, and decoding inverts `rmp_serde::to_vec`
/// on string values short enough for the format's 32-bit length header (an
/// oversized string is encoded with a truncated header, so its bytes do not
/// decode back to it).
#[verifier::external_body]
pub(crate) fn msgpack_decode_string(data: &[u8]) -> (r: Result<String, rmp_serde::decode::Error>)
    ensures
        r is Ok <==> msgpack_decodes_as_string(data@),
        forall|s: Seq<char>|
            data@ == msgpack_str_bytes(s) && fits_msgpack_str(s)
                ==> r is Ok && r->Ok_0@ == s,
{
    rmp_serde::from_slice(data)
}

} // verus!
