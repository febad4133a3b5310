use pgshim::backend::BackendAdapter;
use pgshim::mapper::{assemble_result_set, probe_result};
use pgshim::model::{BackendError, CellValue};
use pgshim::router::{classify, RouteDecision};
use pgshim::session::{build_query_response, Session, SessionOutcome, SessionPhase};
use pgshim::wire::{
    encode_auth_ok, encode_command_complete, encode_data_row, encode_error_response,
    encode_ready, encode_row_description, ClientMessage,
};

/// Splits a server byte stream into (tag, payload) frames.
fn parse_frames(mut bytes: &[u8]) -> Vec<(u8, Vec<u8>)> {
    let mut frames = Vec::new();
    while !bytes.is_empty() {
        assert!(bytes.len() >= 5, "truncated frame");
        let tag = bytes[0];
        let len = u32::from_be_bytes([bytes[1], bytes[2], bytes[3], bytes[4]]) as usize;
        assert!(len >= 4 && bytes.len() >= 1 + len, "bad frame length");
        frames.push((tag, bytes[5..1 + len].to_vec()));
        bytes = &bytes[1 + len..];
    }
    frames
}

fn ready_session() -> Session {
    let mut s = Session::new();
    assert_eq!(s.phase, SessionPhase::Connecting);
    let greeting = s.on_startup();
    let frames = parse_frames(&greeting);
    assert_eq!(frames.len(), 2);
    assert_eq!(frames[0].0, 82); // authentication-ok
    assert_eq!(frames[0].1, vec![0, 0, 0, 0]);
    assert_eq!(frames[1].0, 90); // ready-for-query
    assert_eq!(frames[1].1, vec![73]);
    assert_eq!(s.phase, SessionPhase::Ready);
    s
}

#[test]
fn classify_probe_in_any_case_and_padding() {
    for q in ["SELECT 1", "select 1", "SeLeCt 1", "  SELECT 1 \t\n", "\nselect 1"] {
        assert_eq!(classify(&q.as_bytes().to_vec()), RouteDecision::FixedProbe, "{:?}", q);
    }
}

#[test]
fn classify_read_statements() {
    for q in ["SELECT a FROM t", "select * from t where x = 1", "  sElEcT 2", "SELECT1"] {
        assert_eq!(classify(&q.as_bytes().to_vec()), RouteDecision::ReadQuery, "{:?}", q);
    }
}

#[test]
fn classify_everything_else_as_noop() {
    for q in ["FROB something", "INSERT INTO t VALUES (1)", "DROP TABLE t", "", "  ", "SELEC 1"] {
        assert_eq!(classify(&q.as_bytes().to_vec()), RouteDecision::NoOpAck, "{:?}", q);
    }
}

#[test]
fn probe_returns_one_row_one_column_value_one() {
    let mut s = ready_session();
    let out = s.on_message(ClientMessage::Query(b"Select 1".to_vec()));
    let bytes = match out {
        SessionOutcome::Send(b) => b,
        // Anything else would mean the probe reached the backend or
        // closed the session.
        _ => panic!("probe must be answered directly"),
    };
    assert_eq!(s.phase, SessionPhase::Ready);
    let frames = parse_frames(&bytes);
    assert_eq!(frames.len(), 4);
    let (t_tag, t_payload) = &frames[0];
    assert_eq!(*t_tag, 84); // row description
    assert_eq!(t_payload[0..2], [0, 1]); // exactly one column
    assert_eq!(&t_payload[2..6], b"int4");
    let (d_tag, d_payload) = &frames[1];
    assert_eq!(*d_tag, 68); // data row
    assert_eq!(d_payload[0..2], [0, 1]); // exactly one value
    assert_eq!(d_payload[2..6], [0, 0, 0, 1]); // one byte long
    assert_eq!(d_payload[6], b'1');
    assert_eq!(d_payload.len(), 7);
    let (c_tag, c_payload) = &frames[2];
    assert_eq!(*c_tag, 67);
    assert_eq!(c_payload.as_slice(), b"SELECT 1\0");
    assert_eq!(frames[3].0, 90);
}

#[test]
fn probe_never_touches_the_backend() {
    // A backend stub that fails if consulted: an adapter on an
    // unopenable path. The probe must succeed without ever producing
    // a RunQuery outcome, so the stub is never invoked.
    let stub = BackendAdapter::new("/nonexistent-dir/unreachable.db".to_string());
    let mut s = ready_session();
    let out = s.on_message(ClientMessage::Query(b"  SELECT 1  ".to_vec()));
    match out {
        SessionOutcome::Send(_) => {}
        SessionOutcome::RunQuery(q) => {
            // Would be the only path to the backend, and it fails.
            let r = stub.execute(&q);
            panic!("probe routed to backend, result {:?}", r.is_ok());
        }
        SessionOutcome::Close => panic!("probe closed the session"),
    }
}

#[test]
fn unrecognized_statement_is_acknowledged_not_executed() {
    let mut s = ready_session();
    let out = s.on_message(ClientMessage::Query(b"FROB something".to_vec()));
    let bytes = match out {
        SessionOutcome::Send(b) => b,
        _ => panic!("unrecognized statement must be acknowledged directly"),
    };
    assert_eq!(s.phase, SessionPhase::Ready);
    let frames = parse_frames(&bytes);
    assert_eq!(frames.len(), 2);
    assert_eq!(frames[0].0, 67); // command complete, no error, no rows
    assert_eq!(frames[0].1.as_slice(), b"OK\0");
    assert_eq!(frames[1].0, 90);
    // No row description, no data row, no error frame anywhere.
    assert!(frames.iter().all(|(t, _)| *t != 84 && *t != 68 && *t != 69));
}

#[test]
fn read_statement_is_routed_to_backend() {
    let mut s = ready_session();
    let out = s.on_message(ClientMessage::Query(b"SELECT a FROM t".to_vec()));
    match out {
        SessionOutcome::RunQuery(q) => assert_eq!(q, b"SELECT a FROM t".to_vec()),
        _ => panic!("read statement must be delegated"),
    }
    assert_eq!(s.phase, SessionPhase::Executing);
}

#[test]
fn backend_failure_yields_one_error_and_session_stays_usable() {
    let mut s = ready_session();
    let out = s.on_message(ClientMessage::Query(b"SELECT a FROM missing".to_vec()));
    assert!(matches!(out, SessionOutcome::RunQuery(_)));
    let bytes = s.on_backend(Err(BackendError::ExecuteFailed));
    let frames = parse_frames(&bytes);
    let errors: Vec<_> = frames.iter().filter(|(t, _)| *t == 69).collect();
    assert_eq!(errors.len(), 1, "exactly one error record");
    let payload = &errors[0].1;
    assert!(payload.starts_with(b"SERROR\0CXX000\0M"));
    assert_eq!(frames.last().unwrap().0, 90); // ready again
    assert_eq!(s.phase, SessionPhase::Ready);
    // The session accepts and answers a further query.
    let out = s.on_message(ClientMessage::Query(b"select 1".to_vec()));
    match out {
        SessionOutcome::Send(b) => {
            let frames = parse_frames(&b);
            assert_eq!(frames.len(), 4);
            assert_eq!(frames[0].0, 84);
        }
        _ => panic!("session unusable after backend failure"),
    }
}

#[test]
fn terminate_closes_quietly() {
    let mut s = ready_session();
    let out = s.on_message(ClientMessage::Terminate);
    assert!(matches!(out, SessionOutcome::Close));
    assert_eq!(s.phase, SessionPhase::Closed);
}

#[test]
fn protocol_error_is_fatal() {
    let mut s = ready_session();
    let bytes = s.on_protocol_error();
    assert_eq!(s.phase, SessionPhase::Closed);
    let frames = parse_frames(&bytes);
    assert_eq!(frames.len(), 1);
    assert_eq!(frames[0].0, 69);
    assert!(frames[0].1.starts_with(b"SFATAL\0C08P01\0M"));
}

#[test]
fn extended_protocol_gets_placeholder_acknowledgments() {
    let mut s = ready_session();
    let expect = [
        (ClientMessage::Parse, 49u8),
        (ClientMessage::Bind, 50),
        (ClientMessage::Describe, 110),
        (ClientMessage::Execute, 73),
        (ClientMessage::ClosePortal, 51),
        (ClientMessage::Sync, 90),
    ];
    for (m, tag) in expect {
        let out = s.on_message(m);
        match out {
            SessionOutcome::Send(b) => {
                let frames = parse_frames(&b);
                assert_eq!(frames.len(), 1);
                assert_eq!(frames[0].0, tag);
            }
            _ => panic!("placeholder expected"),
        }
        assert_eq!(s.phase, SessionPhase::Ready);
    }
    match s.on_message(ClientMessage::Flush) {
        SessionOutcome::Send(b) => assert!(b.is_empty()),
        _ => panic!("flush sends nothing"),
    }
}

#[test]
fn encode_fixed_messages_byte_for_byte() {
    assert_eq!(encode_auth_ok(), vec![82, 0, 0, 0, 8, 0, 0, 0, 0]);
    assert_eq!(encode_ready(), vec![90, 0, 0, 0, 5, 73]);
    let cc = encode_command_complete(&b"OK".to_vec()).unwrap();
    assert_eq!(cc, vec![67, 0, 0, 0, 7, 79, 75, 0]);
}

#[test]
fn encode_row_description_layout() {
    let cols = assemble_result_set(&vec![b"a".to_vec()], &Vec::new()).columns;
    let bytes = encode_row_description(&cols).unwrap();
    // tag, length 26, count 1, name "a" NUL, table 0, attribute 0,
    // type 25, size -1, modifier -1, format 0.
    assert_eq!(
        bytes,
        vec![
            84, 0, 0, 0, 26, 0, 1, 97, 0, 0, 0, 0, 0, 0, 0, 0, 0, 0, 25, 255, 255, 255, 255,
            255, 255, 0, 0
        ]
    );
}

#[test]
fn null_marker_is_not_empty_string() {
    let null_row = encode_data_row(&vec![CellValue::Null]).unwrap();
    let empty_row = encode_data_row(&vec![CellValue::Text(Vec::new())]).unwrap();
    assert_ne!(null_row, empty_row);
    assert_eq!(&null_row[7..11], &[255, 255, 255, 255]); // null marker
    assert_eq!(&empty_row[7..11], &[0, 0, 0, 0]); // zero-length value
}

#[test]
fn error_record_fields_are_framed() {
    let rec = pgshim::model::backend_error_record(&BackendError::OpenFailed);
    let bytes = encode_error_response(&rec).unwrap();
    let frames = parse_frames(&bytes);
    assert_eq!(frames.len(), 1);
    assert_eq!(frames[0].0, 69);
    assert_eq!(
        frames[0].1.as_slice(),
        b"SERROR\0CXX000\0Mcould not open backend database\0\0"
    );
}

#[test]
fn row_count_appears_in_command_tag() {
    let names = vec![b"a".to_vec()];
    let raw: Vec<Vec<Option<Vec<u8>>>> =
        (0..12).map(|i| vec![Some(format!("v{}", i).into_bytes())]).collect();
    let rs = assemble_result_set(&names, &raw);
    let bytes = build_query_response(&rs).unwrap();
    let frames = parse_frames(&bytes);
    assert_eq!(frames.len(), 15); // description, 12 rows, completion, ready
    let (tag, payload) = &frames[13];
    assert_eq!(*tag, 67);
    assert_eq!(payload.as_slice(), b"SELECT 12\0");
}

#[test]
fn probe_result_shape() {
    let rs = probe_result();
    assert_eq!(rs.columns.len(), 1);
    assert_eq!(rs.columns[0].name, b"int4".to_vec());
    assert_eq!(rs.columns[0].type_oid, 23);
    assert_eq!(rs.rows.len(), 1);
    assert_eq!(rs.rows[0].len(), 1);
    assert!(matches!(&rs.rows[0][0], CellValue::Text(t) if t == &b"1".to_vec()));
}
