//! Store backed by an embedded transactional database (`redb`).
//!
//! All keys live in a single named table of one database file. Every
//! operation runs in its own transaction, so each is atomic and
//! crash-consistent (a property of the engine, trusted here through the
//! wrappers below). Values are MessagePack bytes.
//!
//! The table is modeled by `table_contents`: a map from key characters to
//! stored bytes. The view of a `ReDbStore` is that map, and every wrapper
//! contract states how the engine call reads or changes it.

use vstd::prelude::*;

use vstd::string::StringExecFns;

use redb::ReadableDatabase;
use redb::ReadableTable;

use crate::codec::{
    fits_msgpack_str, msgpack_decode_string, msgpack_decodes_as_string, msgpack_encode_str,
    msgpack_str_bytes,
};

verus! {

#[verifier::external_type_specification]
#[verifier::external_body]
pub struct ExDatabase(redb::Database);

#[verifier::external_type_specification]
#[verifier::external_body]
pub struct ExStorageError(redb::StorageError);

#[verifier::external_type_specification]
#[verifier::external_body]
pub struct ExTransactionError(redb::TransactionError);

#[verifier::external_type_specification]
#[verifier::external_body]
pub struct ExTableError(redb::TableError);

#[verifier::external_type_specification]
#[verifier::external_body]
pub struct ExCommitError(redb::CommitError);

#[verifier::external_type_specification]
#[verifier::external_body]
pub struct ExDatabaseError(redb::DatabaseError);

/// What the store's table inside the database holds: each stored key,
/// as its characters, mapped to its stored value bytes.
pub uninterp spec fn table_contents(db: redb::Database) -> Map<Seq<char>, Seq<u8>>;

/// The view of a store with no entries.
pub open spec fn empty_contents() -> Map<Seq<char>, Seq<u8>> {
    Map::empty()
}

/// Errors that can occur while reading from the store.
#[derive(Debug)]
pub enum GetError {
    /// An internal storage error from the `redb` crate.
    ReDbStorageError(redb::StorageError),
    /// An internal transaction error from the `redb` crate.
    ReDbTransactionError(redb::TransactionError),
    /// An internal table error from the `redb` crate.
    ReDbTableError(redb::TableError),
    /// The value for the given key was not found.
    NotFound,
    /// Error when deserializing the value.
    MessagePack(rmp_serde::decode::Error),
}

/// Errors that can occur while writing to the store.
#[derive(Debug)]
pub enum SetError {
    /// An internal commit error from the `redb` crate.
    ReDbCommitError(redb::CommitError),
    /// An internal storage error from the `redb` crate.
    ReDbStorageError(redb::StorageError),
    /// An internal transaction error from the `redb` crate.
    ReDbTransactionError(redb::TransactionError),
    /// An internal table error from the `redb` crate.
    ReDbTableError(redb::TableError),
    /// An error from the `redb` crate while opening the database file.
    ReDbDatabaseError(redb::DatabaseError),
    /// Error when serializing the value.
    MessagePack(rmp_serde::encode::Error),
    /// The key to remove was not present.
    KeyConversion,
}

/// A key-value store kept in one table of an embedded database file.
pub struct ReDbStore {
    db: redb::Database,
}

impl View for ReDbStore {
    type V = Map<Seq<char>, Seq<u8>>;

    /// The contents of the table: each stored key mapped to its value bytes.
    closed spec fn view(&self) -> Map<Seq<char>, Seq<u8>> {
        table_contents(self.db)
    }
}

impl ReDbStore {
    /// Relies on `redb::Database::create` and `WriteTransaction::open_table`:
    /// opens (creating if absent) the database file and makes sure the table
    /// exists. The table keeps whatever entries the file already held, so
    /// nothing is known of the new store's contents. Only engine errors are
    /// ever returned.
    #[verifier::external_body]
    fn open_database(db_path: &str) -> (r: Result<ReDbStore, SetError>)
        ensures
            r is Err ==> !(r->Err_0 is MessagePack) && !(r->Err_0 is KeyConversion),
    {
        let table: redb::TableDefinition<&str, &[u8]> = redb::TableDefinition::new("redb");
        let db = redb::Database::create(db_path).map_err(SetError::ReDbDatabaseError)?;
        let write_txn = db.begin_write().map_err(SetError::ReDbTransactionError)?;
        write_txn.open_table(table).map_err(SetError::ReDbTableError)?;
        write_txn.commit().map_err(SetError::ReDbCommitError)?;
        Ok(ReDbStore { db })
    }

    /// Relies on `redb::Table::insert` run inside one committed write
    /// transaction: on success the table maps `key` to `value`, replacing any
    /// prior value. A transaction that fails before the commit is rolled
    /// back and changes nothing; the engine documents that a failed commit
    /// must not be assumed rolled back, so on a commit error the table holds
    /// either the old contents or the insertion.
    #[verifier::external_body]
    fn table_insert(&mut self, key: &str, value: &[u8]) -> (r: Result<(), SetError>)
        ensures
            r is Ok ==> table_contents(final(self).db)
                == table_contents(old(self).db).insert(key@, value@),
            r is Err && !(r->Err_0 is ReDbCommitError) ==> table_contents(final(self).db)
                == table_contents(old(self).db),
            r matches Err(e) && e is ReDbCommitError ==> table_contents(final(self).db)
                == table_contents(old(self).db)
                || table_contents(final(self).db)
                == table_contents(old(self).db).insert(key@, value@),
            r is Err ==> !(r->Err_0 is MessagePack) && !(r->Err_0 is KeyConversion),
    {
        let table_def: redb::TableDefinition<&str, &[u8]> = redb::TableDefinition::new("redb");
        let write_txn = self.db.begin_write().map_err(SetError::ReDbTransactionError)?;
        {
            let mut table = write_txn.open_table(table_def).map_err(SetError::ReDbTableError)?;
            table.insert(key, value).map_err(SetError::ReDbStorageError)?;
        }
        write_txn.commit().map_err(SetError::ReDbCommitError)?;
        Ok(())
    }

    /// Relies on `redb::ReadOnlyTable::get` in a read transaction: returns
    /// the bytes stored under `key`, or `None` when the key is absent.
    #[verifier::external_body]
    fn table_get(&self, key: &str) -> (r: Result<Option<Vec<u8>>, GetError>)
        ensures
            r is Ok && r->Ok_0 is Some ==> table_contents(self.db).contains_key(key@)
                && r->Ok_0->Some_0@ == table_contents(self.db)[key@],
            r is Ok && r->Ok_0 is None ==> !table_contents(self.db).contains_key(key@),
            r is Err ==> !(r->Err_0 is NotFound) && !(r->Err_0 is MessagePack),
    {
        let table_def: redb::TableDefinition<&str, &[u8]> = redb::TableDefinition::new("redb");
        let read_txn = self.db.begin_read().map_err(GetError::ReDbTransactionError)?;
        let table = read_txn.open_table(table_def).map_err(GetError::ReDbTableError)?;
        let guard = table.get(key).map_err(GetError::ReDbStorageError)?;
        Ok(guard.map(|g| g.value().to_vec()))
    }

    /// Relies on `redb::Table::remove` run inside one committed write
    /// transaction: on success the key is gone from the table, and the
    /// returned flag says whether it had been present. A transaction that
    /// fails before the commit is rolled back and changes nothing; the
    /// engine documents that a failed commit must not be assumed rolled
    /// back, so on a commit error the table holds either the old contents or
    /// the removal.
    #[verifier::external_body]
    fn table_remove(&mut self, key: &str) -> (r: Result<bool, SetError>)
        ensures
            r is Ok ==> table_contents(final(self).db)
                == table_contents(old(self).db).remove(key@),
            r is Ok ==> (r->Ok_0 <==> table_contents(old(self).db).contains_key(key@)),
            r is Err && !(r->Err_0 is ReDbCommitError) ==> table_contents(final(self).db)
                == table_contents(old(self).db),
            r matches Err(e) && e is ReDbCommitError ==> table_contents(final(self).db)
                == table_contents(old(self).db)
                || table_contents(final(self).db)
                == table_contents(old(self).db).remove(key@),
            r is Err ==> !(r->Err_0 is MessagePack) && !(r->Err_0 is KeyConversion),
    {
        let table_def: redb::TableDefinition<&str, &[u8]> = redb::TableDefinition::new("redb");
        let write_txn = self.db.begin_write().map_err(SetError::ReDbTransactionError)?;
        let existed = {
            let mut table = write_txn.open_table(table_def).map_err(SetError::ReDbTableError)?;
            let prior = table.remove(key).map_err(SetError::ReDbStorageError)?.is_some();
            prior
        };
        write_txn.commit().map_err(SetError::ReDbCommitError)?;
        Ok(existed)
    }

    /// Relies on `redb::WriteTransaction::delete_table` and `open_table` in
    /// one committed transaction: the table is dropped and recreated empty.
    /// A transaction that fails before the commit is rolled back and changes
    /// nothing; the engine documents that a failed commit must not be
    /// assumed rolled back, so on a commit error the table holds either the
    /// old contents or nothing.
    #[verifier::external_body]
    fn table_clear(&mut self) -> (r: Result<(), SetError>)
        ensures
            r is Ok ==> table_contents(final(self).db) == empty_contents(),
            r is Err && !(r->Err_0 is ReDbCommitError) ==> table_contents(final(self).db)
                == table_contents(old(self).db),
            r matches Err(e) && e is ReDbCommitError ==> table_contents(final(self).db)
                == table_contents(old(self).db)
                || table_contents(final(self).db) == empty_contents(),
            r is Err ==> !(r->Err_0 is MessagePack) && !(r->Err_0 is KeyConversion),
    {
        let table_def: redb::TableDefinition<&str, &[u8]> = redb::TableDefinition::new("redb");
        let write_txn = self.db.begin_write().map_err(SetError::ReDbTransactionError)?;
        write_txn.delete_table(table_def).map_err(SetError::ReDbTableError)?;
        write_txn.open_table(table_def).map_err(SetError::ReDbTableError)?;
        write_txn.commit().map_err(SetError::ReDbCommitError)?;
        Ok(())
    }

    /// Relies on `redb::ReadableTable::iter` in a read transaction: hands out
    /// every key of the table, each exactly once.
    #[verifier::external_body]
    fn table_keys(&self) -> (r: Result<Vec<String>, GetError>)
        ensures
            r is Ok ==> r->Ok_0@.map_values(|s: String| s@).to_set()
                == table_contents(self.db).dom(),
            r is Ok ==> r->Ok_0@.map_values(|s: String| s@).no_duplicates(),
            r is Err ==> !(r->Err_0 is NotFound) && !(r->Err_0 is MessagePack),
    {
        let table_def: redb::TableDefinition<&str, &[u8]> = redb::TableDefinition::new("redb");
        let read_txn = self.db.begin_read().map_err(GetError::ReDbTransactionError)?;
        let table = read_txn.open_table(table_def).map_err(GetError::ReDbTableError)?;
        let range = table.iter().map_err(GetError::ReDbStorageError)?;
        let mut keys: Vec<String> = Vec::new();
        for entry in range {
            let (key, _value) = entry.map_err(GetError::ReDbStorageError)?;
            keys.push(key.value().to_string());
        }
        Ok(keys)
    }

    /// The path of the database file kept inside `dir`: the directory, a
    /// slash, the fixed file name.
    pub fn format_db_path(dir: &str) -> (r: String)
        ensures
            r@ == dir@ + seq!['/'] + "bevy_pkv.redb"@,
    {
        proof {
            reveal_strlit("/");
        }
        let r = dir.to_owned().concat("/").concat("bevy_pkv.redb");
        proof {
            assert(r@ =~= dir@ + seq!['/'] + "bevy_pkv.redb"@);
        }
        r
    }

    /// Opens (creating if absent) the database file at `format_db_path(dir)`;
    /// `dir` must already exist. Makes sure the table exists. The view of
    /// the new store is whatever the file already held; only engine errors
    /// are ever returned.
    pub fn new(dir: &str) -> (r: Result<ReDbStore, SetError>)
        ensures
            r is Err ==> !(r->Err_0 is MessagePack) && !(r->Err_0 is KeyConversion),
    {
        let db_path = ReDbStore::format_db_path(dir);
        ReDbStore::open_database(db_path.as_str())
    }

    /// Opens (creating if absent) the database file at `db_path` and makes
    /// sure the table exists. The view of the new store is whatever the file
    /// already held; only engine errors are ever returned.
    pub fn open(db_path: &str) -> (r: Result<ReDbStore, SetError>)
        ensures
            r is Err ==> !(r->Err_0 is MessagePack) && !(r->Err_0 is KeyConversion),
    {
        ReDbStore::open_database(db_path)
    }

    /// Stores `value` under `key`, replacing any prior value. A failure
    /// before the engine's commit leaves the store unchanged; a failed
    /// commit leaves it either unchanged or with the write applied.
    pub fn set_raw(&mut self, key: &str, value: &[u8]) -> (r: Result<(), SetError>)
        ensures
            r is Ok ==> final(self)@ == old(self)@.insert(key@, value@),
            r is Err && !(r->Err_0 is ReDbCommitError) ==> final(self)@ == old(self)@,
            r matches Err(e) && e is ReDbCommitError ==> final(self)@ == old(self)@
                || final(self)@ == old(self)@.insert(key@, value@),
            r is Err ==> !(r->Err_0 is MessagePack) && !(r->Err_0 is KeyConversion),
    {
        self.table_insert(key, value)
    }

    /// Serializes the string `value` as MessagePack and stores it under
    /// `key`, replacing any prior value. A failure before the engine's
    /// commit leaves the store unchanged; a failed commit leaves it either
    /// unchanged or with the write applied. Only engine errors are ever
    /// returned: encoding a string cannot fail.
    pub fn set_string(&mut self, key: &str, value: &str) -> (r: Result<(), SetError>)
        ensures
            r is Ok ==> final(self)@ == old(self)@.insert(key@, msgpack_str_bytes(value@)),
            r is Err && !(r->Err_0 is ReDbCommitError) ==> final(self)@ == old(self)@,
            r matches Err(e) && e is ReDbCommitError ==> final(self)@ == old(self)@
                || final(self)@ == old(self)@.insert(key@, msgpack_str_bytes(value@)),
            r is Err ==> !(r->Err_0 is MessagePack) && !(r->Err_0 is KeyConversion),
    {
        let bytes = match msgpack_encode_str(value) {
            Ok(bytes) => bytes,
            Err(e) => {
                return Err(SetError::MessagePack(e));
            },
        };
        self.table_insert(key, bytes.as_slice())
    }

    /// Returns the bytes stored under `key`. Returns `NotFound` exactly when
    /// the key is absent and the engine's read itself succeeded; an absent
    /// key never yields `Ok`.
    pub fn get_raw(&self, key: &str) -> (r: Result<Vec<u8>, GetError>)
        ensures
            r is Ok ==> self@.contains_key(key@) && r->Ok_0@ == self@[key@],
            r matches Err(e) && e is NotFound ==> !self@.contains_key(key@),
            !self@.contains_key(key@) ==> !(r is Ok),
            r is Err ==> !(r->Err_0 is MessagePack),
    {
        match self.table_get(key) {
            Ok(Some(bytes)) => Ok(bytes),
            Ok(None) => Err(GetError::NotFound),
            Err(e) => Err(e),
        }
    }

    /// Returns the string stored under `key`, decoded from MessagePack.
    /// Returns `NotFound` exactly when the key is absent and the engine's
    /// read itself succeeded; succeeds exactly when the key is present, its
    /// bytes decode as a string, and the engine's read succeeded; and when
    /// the stored bytes are the encoding of a string `s` short enough for
    /// the format, any result read out is `s`, never a decode error.
    pub fn get_string(&self, key: &str) -> (r: Result<String, GetError>)
        ensures
            r is Ok ==> self@.contains_key(key@) && msgpack_decodes_as_string(self@[key@]),
            forall|s: Seq<char>|
                self@.contains_key(key@) && self@[key@] == msgpack_str_bytes(s)
                    && fits_msgpack_str(s) && r is Ok ==> r->Ok_0@ == s,
            r matches Err(e) && e is NotFound ==> !self@.contains_key(key@),
            !self@.contains_key(key@) ==> !(r is Ok),
            r matches Err(e) && e is MessagePack ==> self@.contains_key(key@)
                && !msgpack_decodes_as_string(self@[key@]),
            forall|s: Seq<char>|
                self@.contains_key(key@) && self@[key@] == msgpack_str_bytes(s)
                    && fits_msgpack_str(s)
                    ==> !(r matches Err(e) && e is MessagePack),
    {
        let bytes = match self.table_get(key) {
            Ok(Some(bytes)) => bytes,
            Ok(None) => {
                return Err(GetError::NotFound);
            },
            Err(e) => {
                return Err(e);
            },
        };
        match msgpack_decode_string(bytes.as_slice()) {
            Ok(value) => Ok(value),
            Err(e) => Err(GetError::MessagePack(e)),
        }
    }

    /// Deletes the entry for `key`. Fails with `KeyConversion` exactly when
    /// the key is not present and the engine's own work succeeded. A failure
    /// before the engine's commit leaves the store unchanged; a failed
    /// commit leaves it either unchanged or with the removal applied.
    pub fn remove(&mut self, key: &str) -> (r: Result<(), SetError>)
        ensures
            r is Ok ==> old(self)@.contains_key(key@)
                && final(self)@ == old(self)@.remove(key@),
            r is Err && !(r->Err_0 is ReDbCommitError) ==> final(self)@ == old(self)@,
            r matches Err(e) && e is ReDbCommitError ==> final(self)@ == old(self)@
                || final(self)@ == old(self)@.remove(key@),
            r matches Err(e) && e is KeyConversion ==> !old(self)@.contains_key(key@),
            !old(self)@.contains_key(key@) ==> !(r is Ok),
            r is Err ==> !(r->Err_0 is MessagePack),
    {
        match self.table_remove(key) {
            Ok(true) => Ok(()),
            Ok(false) => {
                proof {
                    assert(old(self)@.remove(key@) =~= old(self)@);
                }
                Err(SetError::KeyConversion)
            },
            Err(e) => Err(e),
        }
    }

    /// Removes all entries: on success the store's view is the empty map.
    /// A failure before the engine's commit leaves the store unchanged; a
    /// failed commit leaves it either unchanged or empty. Only engine errors
    /// are ever returned.
    pub fn clear(&mut self) -> (r: Result<(), SetError>)
        ensures
            r is Ok ==> final(self)@ == empty_contents(),
            r is Err && !(r->Err_0 is ReDbCommitError) ==> final(self)@ == old(self)@,
            r matches Err(e) && e is ReDbCommitError ==> final(self)@ == old(self)@
                || final(self)@ == empty_contents(),
            r is Err ==> !(r->Err_0 is MessagePack) && !(r->Err_0 is KeyConversion),
    {
        self.table_clear()
    }

    /// Returns every stored key, each exactly once: the returned keys are
    /// exactly the domain of the store's view.
    pub fn keys(&self) -> (r: Result<Vec<String>, GetError>)
        ensures
            r is Ok ==> r->Ok_0@.map_values(|s: String| s@).to_set() == self@.dom(),
            r is Ok ==> r->Ok_0@.map_values(|s: String| s@).no_duplicates(),
            r is Err ==> !(r->Err_0 is NotFound) && !(r->Err_0 is MessagePack),
    {
        self.table_keys()
    }
}

/// Round-trip law: a successful `set_string(k, v)` makes the store's view
/// map `k` to the encoding of `v`, so by `get_string`'s contract any
/// successful `get_string(k)` that follows returns a value equal to `v`.
pub proof fn lemma_set_then_get(m: Map<Seq<char>, Seq<u8>>, k: Seq<char>, v: Seq<char>)
    ensures
        m.insert(k, msgpack_str_bytes(v)).contains_key(k),
        m.insert(k, msgpack_str_bytes(v))[k] == msgpack_str_bytes(v),
{
}

/// A key never written is absent: it is absent from the empty store, and
/// writing or removing any other key leaves it absent, so by their contracts
/// `get_raw` and `get_string` on it cannot succeed, and report it not found
/// whenever the engine's read itself went through.
pub proof fn lemma_unwritten_key_absent(
    m: Map<Seq<char>, Seq<u8>>,
    k: Seq<char>,
    k2: Seq<char>,
    v: Seq<u8>,
)
    requires
        k != k2,
    ensures
        !empty_contents().contains_key(k),
        m.insert(k2, v).contains_key(k) == m.contains_key(k),
        m.remove(k2).contains_key(k) == m.contains_key(k),
{
}

/// Remove-then-get law: after a successful `remove(k)` the view no longer
/// contains `k`, so by their contracts `get_raw` and `get_string` on `k`
/// cannot succeed, and report it not found whenever the engine's read itself
/// went through.
pub proof fn lemma_remove_then_get(m: Map<Seq<char>, Seq<u8>>, k: Seq<char>)
    ensures
        !m.remove(k).contains_key(k),
{
}

/// Clear-then-keys law: after a successful `clear` the view is the empty
/// map, whose domain is empty, so by `keys`'s contract any successful `keys`
/// that follows returns no keys at all.
pub proof fn lemma_clear_then_keys(ks: Seq<Seq<char>>)
    ensures
        empty_contents().dom() == Set::<Seq<char>>::empty(),
        ks.to_set() == empty_contents().dom() ==> ks == Seq::<Seq<char>>::empty(),
{
    assert(empty_contents().dom() =~= Set::<Seq<char>>::empty());
    if ks.to_set() == empty_contents().dom() {
        if ks.len() > 0 {
            assert(ks.to_set().contains(ks[0]));
        }
        assert(ks =~= Seq::<Seq<char>>::empty());
    }
}

/// Overwrite law: writing a key twice leaves the store as if only the
/// second write had happened, so only the second value stays retrievable.
pub proof fn lemma_overwrite(m: Map<Seq<char>, Seq<u8>>, k: Seq<char>, v1: Seq<u8>, v2: Seq<u8>)
    ensures
        m.insert(k, v1).insert(k, v2) == m.insert(k, v2),
        m.insert(k, v1).insert(k, v2)[k] == v2,
{
    assert(m.insert(k, v1).insert(k, v2) =~= m.insert(k, v2));
}

} // verus!
