//! A key-value persistence layer with interchangeable storage backends:
//! a filesystem store (one JSON file per key), an embedded transactional
//! database store, and a browser local-storage store.

use vstd::prelude::*;

pub mod codec;
pub mod fs_store;
pub mod local_storage_store;
pub mod redb_store;

verus! {

/// Application identity used to derive a storage namespace or directory.
pub struct StoreConfig {
    /// Optional reverse-domain qualifier, e.g. `"com"`.
    pub qualifier: Option<String>,
    /// Organization name.
    pub organization: String,
    /// Application name.
    pub application: String,
}

} // verus!
