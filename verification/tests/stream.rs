use arrow::array::{Array, BooleanArray, StringArray, TimestampSecondArray, UInt32Array, UInt64Array};
use names2stats::builder::Builder;
use names2stats::columns::{schema, Batch};
use names2stats::meta::{FileMeta, FileType, Row};
use names2stats::stream::{batches_from_rows, lines2batch, lines2batch_iter};

fn meta_for(ft: FileType, len: u64, mtime: Option<i64>) -> FileMeta {
    FileMeta {
        file_type: ft,
        read_only: false,
        mode: Some(0o755),
        nlink: Some(2),
        len,
        uid: Some(10),
        gid: Some(20),
        mtime,
    }
}

fn row_for(path: &str, ft: FileType, len: u64) -> Row {
    Row { path: String::from(path), meta: meta_for(ft, len, Some(100)) }
}

fn path_col(b: &Batch) -> &StringArray {
    b.rb.column(0).as_any().downcast_ref::<StringArray>().unwrap()
}

fn type_col(b: &Batch) -> &StringArray {
    b.rb.column(1).as_any().downcast_ref::<StringArray>().unwrap()
}

#[test]
fn schema_has_nine_columns_in_order() {
    let s = schema();
    let names: Vec<&str> = s.fields().iter().map(|f| f.name().as_str()).collect();
    assert_eq!(
        names,
        vec!["path", "type", "read_only", "mode", "nlink", "len", "uid", "gid", "mtime"]
    );
    assert!(!s.field(0).is_nullable());
    assert!(!s.field(1).is_nullable());
    assert!(!s.field(2).is_nullable());
    assert!(s.field(3).is_nullable());
    assert!(s.field(4).is_nullable());
    assert!(!s.field(5).is_nullable());
    assert!(s.field(6).is_nullable());
    assert!(s.field(7).is_nullable());
    assert!(s.field(8).is_nullable());
}

#[test]
fn builder_accumulates_and_resets() {
    let mut b = Builder::new();
    assert!(b.is_empty());
    b.append_path(String::from("/a"));
    b.append_type("file");
    b.append_read_only(true);
    b.append_mode(Some(1));
    b.append_nlink(None);
    b.append_len(7);
    b.append_uid(None);
    b.append_gid(None);
    b.append_mtime(Some(3));
    assert!(!b.is_empty());
    let paths = b.finish_path();
    assert_eq!(paths.arr.len(), 1);
    assert_eq!(paths.arr.value(0), "/a");
    assert!(b.is_empty());
    let types = b.finish_type();
    assert_eq!(types.arr.value(0), "file");
    assert_eq!(b.finish_read_only().arr.value(0), true);
    assert_eq!(b.finish_mode().arr.value(0), 1);
    assert!(b.finish_nlink().arr.is_null(0));
    assert_eq!(b.finish_len().arr.value(0), 7);
    assert!(b.finish_uid().arr.is_null(0));
    assert!(b.finish_gid().arr.is_null(0));
    assert_eq!(b.finish_mtime().arr.value(0), 3);
}

#[test]
fn empty_input_yields_end_of_sequence() {
    let s = schema();
    let mut bldr = Builder::new();
    let r = lines2batch(Vec::new(), None, &s, &mut bldr);
    assert!(matches!(r, Ok(None)));
}

#[test]
fn one_row_yields_one_batch() {
    let s = schema();
    let mut bldr = Builder::new();
    let rows = vec![row_for("/etc", FileType::Dir, 0)];
    let r = lines2batch(rows, None, &s, &mut bldr);
    let b = r.unwrap().unwrap();
    assert_eq!(b.rb.num_rows(), 1);
    assert_eq!(path_col(&b).value(0), "/etc");
    assert_eq!(type_col(&b).value(0), "dir");
}

#[test]
fn line_error_is_surfaced_not_a_batch() {
    let s = schema();
    let mut it = lines2batch_iter(s, 4).unwrap();
    let e = std::io::Error::new(std::io::ErrorKind::NotFound, "no such path");
    let r = it.next_with(vec![row_for("/a", FileType::File, 1)], Some(e));
    match r {
        Some(Err(err)) => {
            assert_eq!(err.kind(), std::io::ErrorKind::NotFound);
            assert_eq!(format!("{}", err), "no such path");
        },
        _ => panic!("expected the error to be yielded"),
    }
}

#[test]
fn exactly_batch_size_rows_make_one_batch_then_end() {
    let s = schema();
    let mut it = lines2batch_iter(s, 3).unwrap();
    let rows = vec![
        row_for("/a", FileType::File, 1),
        row_for("/b", FileType::Dir, 2),
        row_for("/c", FileType::Symlink, 3),
    ];
    let b = it.next_with(rows, None).unwrap().unwrap();
    assert_eq!(b.rb.num_rows(), 3);
    assert!(it.next_with(Vec::new(), None).is_none());
}

#[test]
fn batch_size_plus_one_rows_make_two_batches() {
    let rows = vec![
        row_for("/a", FileType::File, 1),
        row_for("/b", FileType::File, 2),
        row_for("/c", FileType::File, 3),
        row_for("/d", FileType::File, 4),
    ];
    let bs = batches_from_rows(rows, schema(), 3);
    assert_eq!(bs.len(), 2);
    assert_eq!(bs[0].rb.num_rows(), 3);
    assert_eq!(bs[1].rb.num_rows(), 1);
}

#[test]
fn rows_concatenate_in_order_across_batches() {
    let rows = vec![
        row_for("/p0", FileType::File, 0),
        row_for("/p1", FileType::Dir, 1),
        row_for("/p2", FileType::Symlink, 2),
        row_for("/p3", FileType::Unspecified, 3),
        row_for("/p4", FileType::File, 4),
    ];
    let bs = batches_from_rows(rows, schema(), 2);
    assert_eq!(bs.len(), 3);
    let mut paths: Vec<String> = Vec::new();
    let mut types: Vec<String> = Vec::new();
    let mut lens: Vec<u64> = Vec::new();
    for b in &bs {
        assert!(b.rb.num_rows() >= 1 && b.rb.num_rows() <= 2);
        let lcol = b.rb.column(5).as_any().downcast_ref::<UInt64Array>().unwrap();
        for i in 0..b.rb.num_rows() {
            paths.push(path_col(b).value(i).to_string());
            types.push(type_col(b).value(i).to_string());
            lens.push(lcol.value(i));
        }
    }
    assert_eq!(paths, vec!["/p0", "/p1", "/p2", "/p3", "/p4"]);
    assert_eq!(types, vec!["file", "dir", "symlink", "unspecified", "file"]);
    assert_eq!(lens, vec![0, 1, 2, 3, 4]);
    assert_eq!(bs[0].rb.num_rows(), 2);
    assert_eq!(bs[1].rb.num_rows(), 2);
    assert_eq!(bs[2].rb.num_rows(), 1);
}

#[test]
fn all_columns_share_the_batch_row_count() {
    let rows = vec![row_for("/a", FileType::File, 1), row_for("/b", FileType::Dir, 2)];
    let bs = batches_from_rows(rows, schema(), 8);
    assert_eq!(bs.len(), 1);
    let rb = &bs[0].rb;
    assert_eq!(rb.num_columns(), 9);
    for c in rb.columns() {
        assert_eq!(c.len(), rb.num_rows());
    }
}

#[test]
fn zero_rows_make_zero_batches() {
    let bs = batches_from_rows(Vec::new(), schema(), 4);
    assert_eq!(bs.len(), 0);
}

#[test]
fn platform_fields_absent_make_null_columns() {
    let meta = FileMeta {
        file_type: FileType::File,
        read_only: true,
        mode: None,
        nlink: None,
        len: 9,
        uid: None,
        gid: None,
        mtime: Some(7),
    };
    let rows = vec![Row { path: String::from("/x"), meta }];
    let bs = batches_from_rows(rows, schema(), 1);
    let rb = &bs[0].rb;
    assert!(rb.column(3).is_null(0));
    assert!(rb.column(4).is_null(0));
    assert!(rb.column(6).is_null(0));
    assert!(rb.column(7).is_null(0));
    assert_eq!(path_col(&bs[0]).value(0), "/x");
    assert_eq!(type_col(&bs[0]).value(0), "file");
    let ro = rb.column(2).as_any().downcast_ref::<BooleanArray>().unwrap();
    assert_eq!(ro.value(0), true);
    let lens = rb.column(5).as_any().downcast_ref::<UInt64Array>().unwrap();
    assert_eq!(lens.value(0), 9);
    let mt = rb.column(8).as_any().downcast_ref::<TimestampSecondArray>().unwrap();
    assert_eq!(mt.value(0), 7);
}

#[test]
fn pre_epoch_mtime_is_null_in_the_batch() {
    let rows = vec![Row {
        path: String::from("/old"),
        meta: meta_for(FileType::File, 1, None),
    }];
    let bs = batches_from_rows(rows, schema(), 4);
    let rb = &bs[0].rb;
    assert!(rb.column(8).is_null(0));
    let modes = rb.column(3).as_any().downcast_ref::<UInt32Array>().unwrap();
    assert_eq!(modes.value(0), 0o755);
}

#[test]
fn rows_pulled_by_a_failing_call_are_discarded() {
    let s = schema();
    let mut it = lines2batch_iter(s, 4).unwrap();
    let e = std::io::Error::new(std::io::ErrorKind::PermissionDenied, "denied");
    let r = it.next_with(vec![row_for("/dropped", FileType::File, 1)], Some(e));
    assert!(matches!(r, Some(Err(_))));
    assert!(it.bldr.is_empty());
}

#[test]
fn failing_call_keeps_rows_pending_from_earlier_calls() {
    let s = schema();
    let mut bldr = Builder::new();
    bldr.append_path(String::from("/pending"));
    bldr.append_type("file");
    bldr.append_read_only(false);
    bldr.append_mode(None);
    bldr.append_nlink(None);
    bldr.append_len(1);
    bldr.append_uid(None);
    bldr.append_gid(None);
    bldr.append_mtime(None);
    let e = std::io::Error::new(std::io::ErrorKind::PermissionDenied, "denied");
    let r = lines2batch(vec![row_for("/dropped", FileType::File, 2)], Some(e), &s, &mut bldr);
    assert!(matches!(r, Err(_)));
    assert!(!bldr.is_empty());
    let b = lines2batch(Vec::new(), None, &s, &mut bldr).unwrap().unwrap();
    assert_eq!(b.rb.num_rows(), 1);
    assert_eq!(path_col(&b).value(0), "/pending");
}

#[test]
fn yielded_batch_carries_the_stream_schema() {
    let s = schema();
    let mut bldr = Builder::new();
    let r = lines2batch(vec![row_for("/a", FileType::File, 1)], None, &s, &mut bldr);
    let b = r.unwrap().unwrap();
    assert_eq!(*b.rb.schema(), *s);
}

#[test]
fn error_with_nothing_pulled_is_still_an_error() {
    let s = schema();
    let mut it = lines2batch_iter(s, 2).unwrap();
    let e = std::io::Error::new(std::io::ErrorKind::Interrupted, "read failed");
    let r = it.next_with(Vec::new(), Some(e));
    assert!(matches!(r, Some(Err(_))));
}

#[test]
fn batch_size_one_makes_single_row_batches() {
    let rows = vec![
        row_for("/a", FileType::File, 1),
        row_for("/b", FileType::Dir, 2),
        row_for("/c", FileType::File, 3),
    ];
    let bs = batches_from_rows(rows, schema(), 1);
    assert_eq!(bs.len(), 3);
    for b in &bs {
        assert_eq!(b.rb.num_rows(), 1);
    }
    assert_eq!(path_col(&bs[2]).value(0), "/c");
}
