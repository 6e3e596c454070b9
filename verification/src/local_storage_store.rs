//! Store backed by a browser's persistent local-storage API.
//!
//! Keys are namespaced by a prefix derived from the application identity:
//! `<qualifier>.<organization>.<application>` when a qualifier is given,
//! `<organization>.<application>` otherwise, with the key appended directly.
//! The host API calls themselves are only available on a web target and
//! happen outside this crate; here live the prefix computation and key
//! formatting.

use vstd::prelude::*;

use vstd::string::StringExecFns;

use crate::codec::{json_decode_string, json_decodes_as_string, json_encode_str, json_string_repr};
use crate::StoreConfig;

verus! {

/// A key-value store over a browser's local storage, namespaced by prefix.
#[derive(Debug, Default)]
pub struct LocalStorageStore {
    prefix: String,
}

impl View for LocalStorageStore {
    type V = Seq<char>;

    /// The namespace prefix put in front of every key.
    closed spec fn view(&self) -> Seq<char> {
        self.prefix@
    }
}

impl LocalStorageStore {
    /// Makes a store whose prefix is the application identity:
    /// qualifier, organization and application joined by dots, or only the
    /// latter two when no qualifier is given.
    pub fn new(config: &StoreConfig) -> (s: Self)
        ensures
            config.qualifier matches Some(q)
                ==> s@ == q@ + seq!['.'] + config.organization@ + seq!['.']
                    + config.application@,
            config.qualifier is None
                ==> s@ == config.organization@ + seq!['.'] + config.application@,
    {
        proof {
            reveal_strlit(".");
        }
        let mut prefix = match &config.qualifier {
            Some(qualifier) => {
                let mut p = qualifier.clone();
                p.append(".");
                p.append(config.organization.as_str());
                p
            },
            None => config.organization.clone(),
        };
        prefix.append(".");
        prefix.append(config.application.as_str());
        let s = LocalStorageStore { prefix };
        proof {
            if config.qualifier is Some {
                assert(s@ =~= config.qualifier->0@ + seq!['.'] + config.organization@
                    + seq!['.'] + config.application@);
            }
        }
        s
    }

    /// The storage key for `key`: the namespace prefix with the key
    /// appended directly.
    pub fn format_key(&self, key: &str) -> (r: String)
        ensures
            r@ == self@ + key@,
    {
        self.prefix.clone().concat(key)
    }

    /// Encodes the string `value` as the JSON text that is handed to the
    /// host's storage. Always succeeds: encoding a string cannot fail.
    pub fn encode_value(value: &str) -> (r: Result<String, serde_json::Error>)
        ensures
            r is Ok,
            r->Ok_0@ == json_string_repr(value@),
    {
        json_encode_str(value)
    }

    /// Decodes the JSON text read from the host's storage back into the
    /// string value. Succeeds exactly when the text decodes as a JSON
    /// string; in particular, when `data` is the encoding of a string `s`,
    /// the result is `Ok(s)`.
    pub fn decode_value(data: &str) -> (r: Result<String, serde_json::Error>)
        ensures
            r is Ok <==> json_decodes_as_string(data@),
            forall|s: Seq<char>| data@ == json_string_repr(s) ==> r is Ok && r->Ok_0@ == s,
    {
        json_decode_string(data)
    }
}

} // verus!
