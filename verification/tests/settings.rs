use paymanager::error::{ErrorKind, NOT_FOUND_MESSAGE};
use paymanager::store::SettingsStore;
use std::path::PathBuf;

fn memory_store() -> SettingsStore {
    let mut store = SettingsStore::open(&PathBuf::from(":memory:")).expect("open");
    store.init_db().expect("init");
    store
}

fn text(s: &str) -> String {
    s.to_string()
}

fn sorted(mut pairs: Vec<(String, String)>) -> Vec<(String, String)> {
    pairs.sort();
    pairs
}

#[test]
fn init_twice_keeps_schema_and_rows() {
    let mut store = SettingsStore::open(&PathBuf::from(":memory:")).expect("open");
    assert_eq!(store.init_db(), Ok(()));
    store.save_settings(text("theme"), text("dark")).expect("save");
    assert_eq!(store.init_db(), Ok(()));
    assert_eq!(store.init_db(), Ok(()));
    assert_eq!(store.get_setting(text("theme")), Ok(text("dark")));
    assert_eq!(store.get_all_settings(), Ok(vec![(text("theme"), text("dark"))]));
    assert_eq!(store.create_new_setting(text("lang"), text("en")), Ok(()));
}

#[test]
fn upsert_overwrites() {
    let mut store = memory_store();
    assert_eq!(store.save_settings(text("a"), text("1")), Ok(()));
    assert_eq!(store.save_settings(text("a"), text("2")), Ok(()));
    assert_eq!(store.get_setting(text("a")), Ok(text("2")));
    assert_eq!(store.get_all_settings(), Ok(vec![(text("a"), text("2"))]));
}

#[test]
fn strict_insert_rejects_duplicates() {
    let mut store = memory_store();
    assert_eq!(store.create_new_setting(text("a"), text("1")), Ok(()));
    let second = store.create_new_setting(text("a"), text("2"));
    let error = second.unwrap_err();
    assert_eq!(error.kind, ErrorKind::ConstraintViolation);
    assert_eq!(error.message, "UNIQUE constraint failed: settings.key");
    assert_eq!(store.get_setting(text("a")), Ok(text("1")));
    assert_eq!(store.get_all_settings(), Ok(vec![(text("a"), text("1"))]));
}

#[test]
fn strict_insert_after_upsert_is_rejected() {
    let mut store = memory_store();
    store.save_settings(text("a"), text("1")).expect("save");
    let error = store.create_new_setting(text("a"), text("2")).unwrap_err();
    assert_eq!(error.kind(), ErrorKind::ConstraintViolation);
    assert_eq!(store.get_setting(text("a")), Ok(text("1")));
}

#[test]
fn read_of_absent_key_is_not_found() {
    let mut store = memory_store();
    let never = store.get_setting(text("never")).unwrap_err();
    assert_eq!(never.kind, ErrorKind::NotFound);
    assert_eq!(never.message, NOT_FOUND_MESSAGE);
    assert_eq!(never.message(), "Query returned no rows");

    store.save_settings(text("gone"), text("x")).expect("save");
    assert_eq!(store.delete_setting(text("gone")), Ok(()));
    let deleted = store.get_setting(text("gone")).unwrap_err();
    assert_eq!(deleted.kind, ErrorKind::NotFound);
}

#[test]
fn update_of_absent_key_succeeds_and_adds_nothing() {
    let mut store = memory_store();
    assert_eq!(store.update_settings(text("ghost"), text("x")), Ok(()));
    assert_eq!(store.get_setting(text("ghost")).unwrap_err().kind, ErrorKind::NotFound);
    assert_eq!(store.get_all_settings(), Ok(vec![]));
}

#[test]
fn update_of_present_key_replaces_value() {
    let mut store = memory_store();
    store.create_new_setting(text("volume"), text("3")).expect("add");
    store.create_new_setting(text("other"), text("keep")).expect("add");
    assert_eq!(store.update_settings(text("volume"), text("11")), Ok(()));
    assert_eq!(store.get_setting(text("volume")), Ok(text("11")));
    assert_eq!(store.get_setting(text("other")), Ok(text("keep")));
}

#[test]
fn update_binds_value_and_key_in_that_order() {
    let mut store = memory_store();
    store.save_settings(text("k"), text("v")).expect("save");
    store.save_settings(text("v"), text("k")).expect("save");
    assert_eq!(store.update_settings(text("k"), text("new")), Ok(()));
    assert_eq!(store.get_setting(text("k")), Ok(text("new")));
    assert_eq!(store.get_setting(text("v")), Ok(text("k")));
}

#[test]
fn delete_removes_one_row_only() {
    let mut store = memory_store();
    store.save_settings(text("a"), text("1")).expect("save");
    store.save_settings(text("b"), text("2")).expect("save");
    assert_eq!(store.delete_setting(text("a")), Ok(()));
    assert_eq!(store.get_setting(text("a")).unwrap_err().kind, ErrorKind::NotFound);
    assert_eq!(store.get_setting(text("b")), Ok(text("2")));
    assert_eq!(store.get_all_settings(), Ok(vec![(text("b"), text("2"))]));
}

#[test]
fn delete_of_absent_key_is_no_op() {
    let mut store = memory_store();
    store.save_settings(text("a"), text("1")).expect("save");
    assert_eq!(store.delete_setting(text("missing")), Ok(()));
    assert_eq!(store.get_all_settings(), Ok(vec![(text("a"), text("1"))]));
}

#[test]
fn delete_all_empties_the_table() {
    let mut store = memory_store();
    for n in 0..5 {
        store.save_settings(format!("key{n}"), format!("value{n}")).expect("save");
    }
    assert_eq!(store.get_all_settings().expect("list").len(), 5);
    assert_eq!(store.delete_all_settings(), Ok(()));
    assert_eq!(store.get_all_settings(), Ok(vec![]));
    assert_eq!(store.get_setting(text("key0")).unwrap_err().kind, ErrorKind::NotFound);
}

#[test]
fn delete_all_on_empty_table_succeeds() {
    let mut store = memory_store();
    assert_eq!(store.delete_all_settings(), Ok(()));
    assert_eq!(store.get_all_settings(), Ok(vec![]));
}

#[test]
fn round_trip_is_exact() {
    let mut store = memory_store();
    let cases = [
        ("plain", "value"),
        ("", ""),
        ("empty value", ""),
        ("spaces  and\ttabs", "  leading and trailing  "),
        ("json", "{\"a\": [1, 2, 3], \"b\": null}"),
        ("quote'key", "it's; DROP TABLE settings; --"),
        ("number", "007"),
        ("float", "1.50"),
        ("unicode \u{00e9}\u{4e2d}\u{1f600}", "\u{03b1}\u{03b2}\u{03b3} \u{1f680}"),
        ("nul\0inside", "before\0after"),
        ("line\nbreak", "first\r\nsecond"),
    ];
    for (key, value) in cases {
        assert_eq!(store.save_settings(text(key), text(value)), Ok(()));
        assert_eq!(store.get_setting(text(key)), Ok(text(value)));
    }
    for (key, value) in cases {
        assert_eq!(store.get_setting(text(key)), Ok(text(value)));
    }
}

#[test]
fn keys_differ_by_case_and_space() {
    let mut store = memory_store();
    store.create_new_setting(text("Key"), text("upper")).expect("add");
    store.create_new_setting(text("key"), text("lower")).expect("add");
    store.create_new_setting(text("key "), text("spaced")).expect("add");
    assert_eq!(store.get_setting(text("Key")), Ok(text("upper")));
    assert_eq!(store.get_setting(text("key")), Ok(text("lower")));
    assert_eq!(store.get_setting(text("key ")), Ok(text("spaced")));
    assert_eq!(store.get_all_settings().expect("list").len(), 3);
}

#[test]
fn bulk_read_is_complete() {
    let mut store = memory_store();
    let mut expected = Vec::new();
    for n in 0..20 {
        let key = format!("key-{n:02}");
        let value = format!("value {}", n * n);
        if n % 2 == 0 {
            store.save_settings(key.clone(), value.clone()).expect("save");
        } else {
            store.create_new_setting(key.clone(), value.clone()).expect("add");
        }
        expected.push((key, value));
    }
    let listing = store.get_all_settings().expect("list");
    assert_eq!(listing.len(), 20);
    assert_eq!(sorted(listing), sorted(expected));
}

#[test]
fn bulk_read_lists_each_key_once_after_overwrites() {
    let mut store = memory_store();
    store.save_settings(text("a"), text("1")).expect("save");
    store.save_settings(text("b"), text("2")).expect("save");
    store.save_settings(text("a"), text("3")).expect("save");
    store.update_settings(text("b"), text("4")).expect("update");
    let listing = store.get_all_settings().expect("list");
    assert_eq!(sorted(listing), vec![(text("a"), text("3")), (text("b"), text("4"))]);
}

#[test]
fn bulk_read_comes_in_storage_order() {
    let mut store = memory_store();
    store.create_new_setting(text("zebra"), text("1")).expect("add");
    store.create_new_setting(text("apple"), text("2")).expect("add");
    store.create_new_setting(text("mango"), text("3")).expect("add");
    assert_eq!(
        store.get_all_settings(),
        Ok(vec![(text("zebra"), text("1")), (text("apple"), text("2")), (text("mango"), text("3"))])
    );
}

#[test]
fn rows_outlive_the_handle() {
    let dir = tempfile::tempdir().expect("temp dir");
    let path = dir.path().join("settings.db");
    {
        let mut store = SettingsStore::open(&path).expect("open");
        store.init_db().expect("init");
        store.save_settings(text("kept"), text("yes")).expect("save");
    }
    let mut store = SettingsStore::open(&path).expect("open again");
    assert_eq!(store.get_setting(text("kept")), Ok(text("yes")));
    assert_eq!(store.init_db(), Ok(()));
    assert_eq!(store.get_all_settings(), Ok(vec![(text("kept"), text("yes"))]));
}

#[test]
fn each_operation_may_use_a_handle_of_its_own() {
    let dir = tempfile::tempdir().expect("temp dir");
    let path = dir.path().join("settings.db");
    SettingsStore::open(&path).expect("open").init_db().expect("init");
    SettingsStore::open(&path)
        .expect("open")
        .create_new_setting(text("a"), text("1"))
        .expect("add");
    SettingsStore::open(&path).expect("open").update_settings(text("a"), text("2")).expect("update");
    assert_eq!(SettingsStore::open(&path).expect("open").get_setting(text("a")), Ok(text("2")));
    SettingsStore::open(&path).expect("open").delete_all_settings().expect("clear");
    assert_eq!(SettingsStore::open(&path).expect("open").get_all_settings(), Ok(vec![]));
}
