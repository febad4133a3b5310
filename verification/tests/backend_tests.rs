use pgshim::backend::BackendAdapter;
use pgshim::model::{BackendError, CellValue};
use pgshim::session::{Session, SessionOutcome};
use pgshim::wire::ClientMessage;

/// Splits a server byte stream into (tag, payload) frames.
fn parse_frames(mut bytes: &[u8]) -> Vec<(u8, Vec<u8>)> {
    let mut frames = Vec::new();
    while !bytes.is_empty() {
        assert!(bytes.len() >= 5, "truncated frame");
        let tag = bytes[0];
        let len = u32::from_be_bytes([bytes[1], bytes[2], bytes[3], bytes[4]]) as usize;
        assert!(len >= 4 && bytes.len() >= 1 + len, "bad frame length");
        frames.push((tag, bytes[5..1 + len].to_vec()));
        bytes = &bytes[1 + len..];
    }
    frames
}

// The in-memory engine gives every connection a fresh, empty database,
// which suits the adapter's open-per-query design: queries that carry
// their own rows exercise the pipeline without a storage file on disk.
const TWO_ROW_QUERY: &str = "SELECT 'x' AS a, 'y' AS b UNION ALL SELECT NULL, 'z'";

#[test]
fn read_query_preserves_rows_columns_and_nulls() {
    let adapter = BackendAdapter::new(":memory:".to_string());
    let rs = adapter.execute(&TWO_ROW_QUERY.as_bytes().to_vec()).unwrap();
    assert_eq!(rs.columns.len(), 2);
    assert_eq!(rs.columns[0].name, b"a".to_vec());
    assert_eq!(rs.columns[1].name, b"b".to_vec());
    assert!(rs.columns.iter().all(|c| c.type_oid == 25));
    assert_eq!(rs.rows.len(), 2);
    assert!(rs.rows.iter().all(|r| r.len() == 2));
    assert!(matches!(&rs.rows[0][0], CellValue::Text(t) if t == &b"x".to_vec()));
    assert!(matches!(&rs.rows[0][1], CellValue::Text(t) if t == &b"y".to_vec()));
    assert!(matches!(&rs.rows[1][0], CellValue::Null));
    assert!(matches!(&rs.rows[1][1], CellValue::Text(t) if t == &b"z".to_vec()));
}

#[test]
fn read_query_emits_null_marker_on_the_wire() {
    let adapter = BackendAdapter::new(":memory:".to_string());
    let mut s = Session::new();
    s.on_startup();
    let query = s.on_message(ClientMessage::Query(TWO_ROW_QUERY.as_bytes().to_vec()));
    let bytes = match query {
        SessionOutcome::RunQuery(q) => s.on_backend(adapter.execute(&q)),
        _ => panic!("read statement must be delegated"),
    };
    let frames = parse_frames(&bytes);
    assert_eq!(frames.len(), 5); // description, 2 rows, completion, ready
    assert_eq!(frames[0].0, 84);
    assert_eq!(&frames[0].1[0..2], &[0, 2]); // two columns
    let second_row = &frames[2].1;
    assert_eq!(frames[2].0, 68);
    assert_eq!(&second_row[0..2], &[0, 2]); // two values
    // First value of row two: the null marker, not an empty string.
    assert_eq!(&second_row[2..6], &[255, 255, 255, 255]);
    // Second value: "z".
    assert_eq!(&second_row[6..10], &[0, 0, 0, 1]);
    assert_eq!(second_row[10], b'z');
    assert_eq!(frames[3].1.as_slice(), b"SELECT 2\0");
}

#[test]
fn zero_row_result_completes_with_zero_count() {
    let adapter = BackendAdapter::new(":memory:".to_string());
    let mut s = Session::new();
    s.on_startup();
    let out = s.on_message(ClientMessage::Query(b"SELECT 'x' AS a WHERE 0".to_vec()));
    let bytes = match out {
        SessionOutcome::RunQuery(q) => s.on_backend(adapter.execute(&q)),
        _ => panic!("read statement must be delegated"),
    };
    let frames = parse_frames(&bytes);
    assert_eq!(frames.len(), 3); // description, completion, ready — no data rows
    assert_eq!(frames[0].0, 84);
    assert_eq!(&frames[0].1[0..2], &[0, 1]);
    assert_eq!(frames[1].0, 67);
    assert_eq!(frames[1].1.as_slice(), b"SELECT 0\0");
    assert_eq!(frames[2].0, 90);
}

#[test]
fn non_text_values_degrade_to_null() {
    // Values the engine does not expose as text — integers, reals, blobs —
    // map to the null marker, not an error.
    let adapter = BackendAdapter::new(":memory:".to_string());
    let rs = adapter
        .execute(&b"SELECT 2 AS n, 1.5 AS r, x'00ff' AS b, 'ok' AS t".to_vec())
        .unwrap();
    assert_eq!(rs.rows.len(), 1);
    assert!(matches!(&rs.rows[0][0], CellValue::Null));
    assert!(matches!(&rs.rows[0][1], CellValue::Null));
    assert!(matches!(&rs.rows[0][2], CellValue::Null));
    assert!(matches!(&rs.rows[0][3], CellValue::Text(t) if t == &b"ok".to_vec()));
}

#[test]
fn non_utf8_text_value_is_carried_as_its_bytes() {
    // A text value whose bytes are not valid UTF-8 comes through
    // unchanged, not degraded to null and not rewritten.
    let adapter = BackendAdapter::new(":memory:".to_string());
    let rs = adapter.execute(&b"SELECT CAST(x'ff' AS TEXT) AS a".to_vec()).unwrap();
    assert_eq!(rs.rows.len(), 1);
    assert!(matches!(&rs.rows[0][0], CellValue::Text(t) if t == &vec![0xffu8]));
}

#[test]
fn non_utf8_query_bytes_fold_to_execute_failure() {
    // Query bytes that are not valid UTF-8 are rewritten by the lossy
    // conversion before the engine sees them; the altered statement fails
    // to parse and the failure is reported, not a panic.
    let adapter = BackendAdapter::new(":memory:".to_string());
    let r = adapter.execute(&b"SELECT \xff".to_vec());
    assert!(matches!(r, Err(BackendError::ExecuteFailed)));
}

#[test]
fn missing_table_folds_to_execute_failure() {
    let adapter = BackendAdapter::new(":memory:".to_string());
    let r = adapter.execute(&b"SELECT a FROM no_such_table".to_vec());
    assert!(matches!(r, Err(BackendError::ExecuteFailed)));
}

#[test]
fn unopenable_path_folds_to_open_failure() {
    let adapter = BackendAdapter::new("/nonexistent-dir/unreachable.db".to_string());
    let r = adapter.execute(&b"SELECT 2".to_vec());
    assert!(matches!(r, Err(BackendError::OpenFailed)));
}

#[test]
fn backend_failure_then_backend_success_on_one_session() {
    let adapter = BackendAdapter::new(":memory:".to_string());
    let mut s = Session::new();
    s.on_startup();
    let out = s.on_message(ClientMessage::Query(b"SELECT a FROM no_such_table".to_vec()));
    let bytes = match out {
        SessionOutcome::RunQuery(q) => s.on_backend(adapter.execute(&q)),
        _ => panic!("read statement must be delegated"),
    };
    let frames = parse_frames(&bytes);
    assert_eq!(frames.iter().filter(|(t, _)| *t == 69).count(), 1);
    assert_eq!(frames.last().unwrap().0, 90);
    // The same session then completes a real query.
    let out = s.on_message(ClientMessage::Query(b"SELECT 'ok' AS c".to_vec()));
    let bytes = match out {
        SessionOutcome::RunQuery(q) => s.on_backend(adapter.execute(&q)),
        _ => panic!("read statement must be delegated"),
    };
    let frames = parse_frames(&bytes);
    assert_eq!(frames.len(), 4);
    assert_eq!(frames[1].0, 68);
    assert_eq!(&frames[1].1[4..6], &[0, 2]);
    assert_eq!(&frames[1].1[6..8], b"ok");
}
