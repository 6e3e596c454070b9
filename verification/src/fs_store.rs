//! Store that keeps one file per key inside a configured directory.
//!
//! A key `k` is stored at `<dir>/<k>`, serialized as JSON text. The file
//! reads and writes themselves happen outside this crate; here live the
//! store's path handling and the JSON encoding and decoding of string
//! values, with the backend's error categories.

use vstd::prelude::*;

use vstd::string::StringExecFns;

use crate::codec::{json_decode_string, json_decodes_as_string, json_encode_str, json_string_repr};

verus! {

#[verifier::external_type_specification]
#[verifier::external_body]
pub struct ExIoError(std::io::Error);

/// Errors that can occur while reading from the store.
#[derive(Debug)]
pub enum GetError {
    /// No value found for the given key.
    NotFound,
    /// Error deserializing JSON.
    Json(serde_json::Error),
    /// Error opening a file.
    File(std::io::Error),
}

/// Errors that can occur while writing to the store.
#[derive(Debug)]
pub enum SetError {
    /// Error serializing as JSON.
    Json(serde_json::Error),
    /// Error opening a file.
    File(std::io::Error),
}

/// A key-value store that keeps one file per key in one directory.
#[derive(Debug, Default)]
pub struct FSStore {
    path: String,
}

impl View for FSStore {
    type V = Seq<char>;

    /// The directory path that each key's file lives under.
    closed spec fn view(&self) -> Seq<char> {
        self.path@
    }
}

impl FSStore {
    /// Makes a store over `path`, an existing directory.
    pub fn new(path: String) -> (s: Self)
        ensures
            s@ == path@,
    {
        FSStore { path }
    }

    /// The file path for `key`: the store's directory, a slash, the key.
    pub fn format_key(&self, key: &str) -> (r: String)
        ensures
            r@ == self@ + seq!['/'] + key@,
    {
        proof {
            reveal_strlit("/");
        }
        let r = self.path.clone().concat("/").concat(key);
        proof {
            assert(r@ =~= self@ + seq!['/'] + key@);
        }
        r
    }

    /// Encodes the string `value` as the JSON text that is written to the
    /// key's file. Always succeeds: encoding a string cannot fail.
    pub fn encode_value(value: &str) -> (r: Result<String, SetError>)
        ensures
            r is Ok,
            r->Ok_0@ == json_string_repr(value@),
    {
        match json_encode_str(value) {
            Ok(text) => Ok(text),
            Err(e) => Err(SetError::Json(e)),
        }
    }

    /// Decodes the JSON text read from a key's file back into the string
    /// value. Succeeds exactly when the text decodes as a JSON string; in
    /// particular, when `data` is the encoding of a string `s`, the result
    /// is `Ok(s)`. Any failure is a deserialization error.
    pub fn decode_value(data: &str) -> (r: Result<String, GetError>)
        ensures
            r is Ok <==> json_decodes_as_string(data@),
            forall|s: Seq<char>| data@ == json_string_repr(s) ==> r is Ok && r->Ok_0@ == s,
            r is Err ==> r->Err_0 is Json,
    {
        match json_decode_string(data) {
            Ok(value) => Ok(value),
            Err(e) => Err(GetError::Json(e)),
        }
    }
}

} // verus!
