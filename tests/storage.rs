use command_bridge::{
    create_dir_error, data_dir_error, load_result, storage_file_name, write_error, ReadOutcome,
    STORAGE_DIR,
};

#[test]
fn save_then_load_same_file() {
    let saved = storage_file_name("a").unwrap();
    let loaded = storage_file_name("a").unwrap();
    assert_eq!(saved, "a.txt");
    assert_eq!(saved, loaded);
    assert_eq!(load_result(ReadOutcome::Contents("hello".to_string())), Ok("hello".to_string()));
    assert_eq!(STORAGE_DIR, "storage");
}

#[test]
fn load_missing_is_not_found() {
    assert_eq!(storage_file_name("missing").unwrap(), "missing.txt");
    assert_eq!(load_result(ReadOutcome::Missing), Err("file not found".to_string()));
}

#[test]
fn load_read_failure() {
    assert_eq!(
        load_result(ReadOutcome::Failed("denied".to_string())),
        Err("failed to read file: denied".to_string())
    );
}

#[test]
fn printable_keys_are_accepted() {
    let keys = ["", " ", "..", "a.b", "key with spaces", "~!@#$%^&*()_+{}|:<>?"];
    for k in keys {
        assert_eq!(storage_file_name(k).unwrap(), format!("{}.txt", k));
    }
}

#[test]
fn keys_with_separators_are_refused() {
    assert_eq!(
        storage_file_name("../etc/passwd"),
        Err("invalid storage key: ../etc/passwd".to_string())
    );
    assert!(storage_file_name("a/b").is_err());
    assert!(storage_file_name("a\\b").is_err());
    assert!(storage_file_name("a\0b").is_err());
}

#[test]
fn distinct_keys_distinct_files() {
    assert_ne!(storage_file_name("a").unwrap(), storage_file_name("a.txt").unwrap());
    assert_ne!(storage_file_name("ab").unwrap(), storage_file_name("a").unwrap());
}

#[test]
fn round_trip_keeps_exact_text() {
    let value = "line one\nline two\u{e9}\t";
    assert_eq!(load_result(ReadOutcome::Contents(value.to_string())), Ok(value.to_string()));
}

#[test]
fn storage_write_messages() {
    assert_eq!(data_dir_error(), "cannot resolve application data directory");
    assert_eq!(create_dir_error("denied"), "failed to create storage directory: denied");
    assert_eq!(write_error("disk full"), "failed to write file: disk full");
}
