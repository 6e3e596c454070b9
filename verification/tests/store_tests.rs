use bevy_pkv::fs_store::FSStore;
use bevy_pkv::local_storage_store::LocalStorageStore;
use bevy_pkv::redb_store::{GetError, ReDbStore, SetError};
use bevy_pkv::StoreConfig;

#[test]
fn round_trip_string() {
    let mut store = ReDbStore::open("/tmp/bevy_pkv_round_trip.redb").unwrap();
    store.set_string("hello", "goodbye").unwrap();
    let value = store.get_string("hello").unwrap();
    assert_eq!(value, "goodbye");
}

#[test]
fn round_trip_bytes() {
    let mut store = ReDbStore::open("/tmp/bevy_pkv_round_trip_bytes.redb").unwrap();
    let bytes: Vec<u8> = vec![0, 1, 2, 250, 255];
    store.set_raw("blob", bytes.as_slice()).unwrap();
    let value = store.get_raw("blob").unwrap();
    assert_eq!(value, bytes);
}

#[test]
fn get_never_written_is_not_found() {
    let store = ReDbStore::open("/tmp/bevy_pkv_never_written.redb").unwrap();
    let err = store.get_string("never_written_key").unwrap_err();
    assert!(matches!(err, GetError::NotFound));
    let err = store.get_raw("never_written_key").unwrap_err();
    assert!(matches!(err, GetError::NotFound));
}

#[test]
fn remove_then_get_is_not_found() {
    let mut store = ReDbStore::open("/tmp/bevy_pkv_remove.redb").unwrap();
    store.set_string("doomed", "soon gone").unwrap();
    assert_eq!(store.get_string("doomed").unwrap(), "soon gone");
    store.remove("doomed").unwrap();
    let err = store.get_string("doomed").unwrap_err();
    assert!(matches!(err, GetError::NotFound));
}

#[test]
fn remove_missing_key_is_an_error() {
    let mut store = ReDbStore::open("/tmp/bevy_pkv_remove_missing.redb").unwrap();
    let err = store.remove("never_written_key").unwrap_err();
    assert!(matches!(err, SetError::KeyConversion));
}

#[test]
fn clear_then_keys_is_empty() {
    let mut store = ReDbStore::open("/tmp/bevy_pkv_clear.redb").unwrap();
    store.set_string("one", "1").unwrap();
    store.set_string("two", "2").unwrap();
    store.clear().unwrap();
    let keys = store.keys().unwrap();
    assert_eq!(keys.len(), 0);
}

#[test]
fn clear_then_get_is_not_found() {
    let mut store = ReDbStore::open("/tmp/bevy_pkv_clear_get.redb").unwrap();
    store.set_string("gone", "all of it").unwrap();
    store.clear().unwrap();
    let err = store.get_string("gone").unwrap_err();
    assert!(matches!(err, GetError::NotFound));
}

#[test]
fn keys_lists_every_stored_key_once() {
    let mut store = ReDbStore::open("/tmp/bevy_pkv_keys.redb").unwrap();
    store.clear().unwrap();
    store.set_string("alpha", "a").unwrap();
    store.set_string("beta", "b").unwrap();
    store.set_string("gamma", "c").unwrap();
    let mut keys = store.keys().unwrap();
    keys.sort();
    assert_eq!(keys, vec!["alpha", "beta", "gamma"]);
}

#[test]
fn overwrite_keeps_only_second_value() {
    let mut store = ReDbStore::open("/tmp/bevy_pkv_overwrite.redb").unwrap();
    store.set_string("key", "first").unwrap();
    store.set_string("key", "second").unwrap();
    assert_eq!(store.get_string("key").unwrap(), "second");
}

#[test]
fn score_then_overwritten_with_string() {
    let mut store = ReDbStore::open("/tmp/bevy_pkv_score.redb").unwrap();
    let encoded = rmp_serde::to_vec(&42i32).unwrap();
    store.set_raw("score", encoded.as_slice()).unwrap();
    let stored = store.get_raw("score").unwrap();
    let score: i32 = rmp_serde::from_slice(stored.as_slice()).unwrap();
    assert_eq!(score, 42);
    store.set_string("score", "hi").unwrap();
    assert_eq!(store.get_string("score").unwrap(), "hi");
    let stored = store.get_raw("score").unwrap();
    assert!(rmp_serde::from_slice::<i32>(stored.as_slice()).is_err());
}

#[test]
fn stored_string_bytes_are_messagepack() {
    let mut store = ReDbStore::open("/tmp/bevy_pkv_msgpack_bytes.redb").unwrap();
    store.set_string("key", "hi").unwrap();
    let bytes = store.get_raw("key").unwrap();
    assert_eq!(bytes, vec![0xa2, 0x68, 0x69]);
}

#[test]
fn get_string_on_non_string_bytes_fails_to_decode() {
    let mut store = ReDbStore::open("/tmp/bevy_pkv_bad_decode.redb").unwrap();
    let encoded = rmp_serde::to_vec(&7i32).unwrap();
    store.set_raw("number", encoded.as_slice()).unwrap();
    let err = store.get_string("number").unwrap_err();
    assert!(matches!(err, GetError::MessagePack(_)));
}

#[test]
fn new_store_in_directory() {
    let mut store = ReDbStore::new("/tmp").unwrap();
    store.set_string("dir_key", "dir_value").unwrap();
    assert_eq!(store.get_string("dir_key").unwrap(), "dir_value");
}

#[test]
fn fs_format_key_joins_with_slash() {
    let store = FSStore::new(String::from("/tmp/pkv"));
    assert_eq!(store.format_key("settings"), "/tmp/pkv/settings");
}

#[test]
fn fs_encode_is_json_text() {
    let text = FSStore::encode_value("hello").unwrap();
    assert_eq!(text, "\"hello\"");
}

#[test]
fn fs_encode_decode_round_trip() {
    let text = FSStore::encode_value("some value with \"quotes\"").unwrap();
    let value = FSStore::decode_value(text.as_str()).unwrap();
    assert_eq!(value, "some value with \"quotes\"");
}

#[test]
fn fs_decode_rejects_bad_json() {
    let err = FSStore::decode_value("not json at all").unwrap_err();
    assert!(matches!(err, bevy_pkv::fs_store::GetError::Json(_)));
}

#[test]
fn db_path_joins_directory_and_file_name() {
    assert_eq!(
        ReDbStore::format_db_path("/tmp/some_dir"),
        "/tmp/some_dir/bevy_pkv.redb"
    );
}

#[test]
fn local_storage_encode_is_json_text() {
    let text = LocalStorageStore::encode_value("hello").unwrap();
    assert_eq!(text, "\"hello\"");
}

#[test]
fn local_storage_encode_decode_round_trip() {
    let text = LocalStorageStore::encode_value("browser \"value\"").unwrap();
    let value = LocalStorageStore::decode_value(text.as_str()).unwrap();
    assert_eq!(value, "browser \"value\"");
}

#[test]
fn local_storage_decode_rejects_bad_json() {
    assert!(LocalStorageStore::decode_value("{broken").is_err());
}

#[test]
fn local_storage_prefix_with_qualifier() {
    let config = StoreConfig {
        qualifier: Some(String::from("com")),
        organization: String::from("example"),
        application: String::from("game"),
    };
    let store = LocalStorageStore::new(&config);
    assert_eq!(store.format_key("level"), "com.example.gamelevel");
}

#[test]
fn local_storage_prefix_without_qualifier() {
    let config = StoreConfig {
        qualifier: None,
        organization: String::from("example"),
        application: String::from("game"),
    };
    let store = LocalStorageStore::new(&config);
    assert_eq!(store.format_key("level"), "example.gamelevel");
}
