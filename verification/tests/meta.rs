use names2stats::meta::{FileMeta, FileType, Row};

fn plain_meta() -> FileMeta {
    FileMeta::new(
        FileType::File,
        false,
        Some(0o644),
        Some(1),
        42,
        Some(1000),
        Some(1000),
        Some(1_700_000_000),
    )
}

#[test]
fn file_type_names() {
    assert_eq!(FileType::Dir.name(), "dir");
    assert_eq!(FileType::File.name(), "file");
    assert_eq!(FileType::Symlink.name(), "symlink");
    assert_eq!(FileType::Unspecified.name(), "unspecified");
}

#[test]
fn classification_precedence() {
    assert_eq!(FileType::from_flags(true, false, false), FileType::Dir);
    assert_eq!(FileType::from_flags(true, true, true), FileType::Dir);
    assert_eq!(FileType::from_flags(false, true, true), FileType::Symlink);
    assert_eq!(FileType::from_flags(false, false, true), FileType::File);
    assert_eq!(FileType::from_flags(false, false, false), FileType::Unspecified);
}

#[test]
fn mtime_pre_epoch_is_null() {
    let m = FileMeta::new(FileType::File, false, None, None, 0, None, None, None);
    assert_eq!(m.mtime, None);
}

#[test]
fn mtime_normal_seconds_kept() {
    let m = FileMeta::new(
        FileType::File,
        false,
        None,
        None,
        0,
        None,
        None,
        Some(1_700_000_000),
    );
    assert_eq!(m.mtime, Some(1_700_000_000_i64));
}

#[test]
fn mtime_unrepresentable_is_null() {
    let m = FileMeta::new(FileType::File, false, None, None, 0, None, None, Some(u64::MAX));
    assert_eq!(m.mtime, None);
}

#[test]
fn meta_getters_return_fields() {
    let m = plain_meta();
    assert_eq!(m.file_type(), FileType::File);
    assert!(!m.read_only());
    assert_eq!(m.mode(), Some(0o644));
    assert_eq!(m.nlink(), Some(1));
    assert_eq!(m.uid(), Some(1000));
    assert_eq!(m.gid(), Some(1000));
    assert_eq!(m.len, 42);
}

#[test]
fn row_carries_path_and_meta() {
    let r = Row { path: String::from("/tmp/x"), meta: plain_meta() };
    assert_eq!(r.path, "/tmp/x");
    assert_eq!(r.meta.len, 42);
}
