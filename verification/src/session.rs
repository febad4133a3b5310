//! The session handler: a per-connection state machine from decoded
//! client messages to complete response byte strings.
//!
//! Phases run `Connecting → Ready → Executing → Ready → … → Closed`.
//! Queries are strictly sequential: a read statement moves the session to
//! `Executing`, and only the backend's outcome — success or failure —
//! moves it back to `Ready`, so no two statements are ever in flight on
//! one session. A backend failure is recoverable: it becomes one error
//! response followed by ready-for-query. A malformed frame is fatal: the
//! session sends a final error response and closes. Extended-protocol
//! messages are answered with inert placeholder acknowledgments only.

use vstd::prelude::*;
use crate::bytes::{be16, be32, dec_rep, extend_bytes, push_dec};
use crate::model::{
    spec_backend_error_record, spec_oversize_record, spec_protocol_error_record,
    backend_error_record, oversize_record, protocol_error_record, BackendError, ResultSet,
    OID_INT4,
};
use crate::router::{classify, is_probe, is_read, RouteDecision};
use crate::mapper::probe_result;
use crate::wire::{
    all_rows_fit, auth_ok_msg, command_complete_msg, data_row_msg, empty_frame_msg, error_msg,
    msg_frame, ready_msg, row_desc_fits, row_desc_msg, rows_bytes, cols_bytes, cells_bytes,
    col_desc_bytes, cell_bytes, data_row_fits, data_row_payload, row_desc_payload,
    encode_command_complete, encode_data_rows, encode_error_response, encode_ready,
    encode_row_description, encode_auth_ok, ClientMessage, TAG_BIND_COMPLETE, TAG_CLOSE_COMPLETE,
    TAG_DATA_ROW, TAG_EMPTY_QUERY, TAG_NO_DATA, TAG_PARSE_COMPLETE, TAG_ROW_DESC,
};

verus! {

/// Where a session stands in its lifecycle.
#[derive(PartialEq, Eq, Structural, Clone, Copy, Debug)]
pub enum SessionPhase {
    /// Accepted, startup not finished.
    Connecting,
    /// Waiting for the next client message.
    Ready,
    /// A read statement is with the backend; its outcome is awaited.
    Executing,
    /// Finished; the connection is to be dropped.
    Closed,
}

/// What the caller must do after handing the session one message.
pub enum SessionOutcome {
    /// Write these bytes to the client.
    Send(Vec<u8>),
    /// Run this query through the backend adapter, then hand the outcome
    /// to [`Session::on_backend`].
    RunQuery(Vec<u8>),
    /// Drop the connection without writing anything.
    Close,
}

/// One client connection's protocol state.
pub struct Session {
    pub phase: SessionPhase,
}

/// The command tag acknowledging a query whose row count is `n`:
/// `SELECT n`.
pub open spec fn select_tag(n: nat) -> Seq<u8> {
    seq![83u8, 69u8, 76u8, 69u8, 67u8, 84u8, 32u8] + dec_rep(n)
}

/// The command tag acknowledging an unrecognized statement as a no-op:
/// `OK`.
pub open spec fn ok_tag() -> Seq<u8> {
    seq![79u8, 75u8]
}

/// The response to an unrecognized statement: a successful empty
/// acknowledgment — no rows and no error — followed by ready-for-query.
pub open spec fn noop_ack_bytes() -> Seq<u8> {
    command_complete_msg(ok_tag()) + ready_msg()
}

/// Whether a result set fits the wire frames: the column list, every
/// row, and the command tag each fit their length fields.
pub open spec fn response_fits(rs: ResultSet) -> bool {
    &&& row_desc_fits(rs.columns@)
    &&& all_rows_fit(rs.rows@)
    &&& select_tag(rs.rows@.len()).len() + 5 <= 0xFFFFFFFF
}

/// The full response to a successful read statement: row description,
/// one data row per result row in order, command completion with the row
/// count, ready-for-query.
pub open spec fn query_response(rs: ResultSet) -> Seq<u8> {
    row_desc_msg(rs.columns@) + rows_bytes(rs.rows@) + command_complete_msg(
        select_tag(rs.rows@.len()),
    ) + ready_msg()
}

/// The wire description of the probe result's single integer column,
/// named `int4`.
pub open spec fn probe_col_bytes() -> Seq<u8> {
    seq![105u8, 110u8, 116u8, 52u8] + seq![0u8] + be32(0) + be16(0) + be32(OID_INT4) + be16(0xFFFF)
        + be32(0xFFFFFFFF) + be16(0)
}

/// The fixed response to the diagnostic probe: one column, one row, the
/// single value `1`, completion tag `SELECT 1`, ready-for-query.
pub open spec fn probe_response() -> Seq<u8> {
    msg_frame(TAG_ROW_DESC, be16(1) + probe_col_bytes()) + msg_frame(
        TAG_DATA_ROW,
        be16(1) + be32(1) + seq![49u8],
    ) + command_complete_msg(seq![83u8, 69u8, 76u8, 69u8, 67u8, 84u8, 32u8, 49u8]) + ready_msg()
}

/// Encodes the full response to a successful read statement, unless the
/// result set does not fit the wire frames.
pub fn build_query_response(rs: &ResultSet) -> (r: Option<Vec<u8>>)
    ensures
        r is Some <==> response_fits(*rs),
        r matches Some(b) ==> b@ == query_response(*rs),
{
    let head = match encode_row_description(&rs.columns) {
        Option::Some(h) => h,
        Option::None => {
            return Option::None;
        },
    };
    let body = match encode_data_rows(&rs.rows) {
        Option::Some(b) => b,
        Option::None => {
            return Option::None;
        },
    };
    let mut tag: Vec<u8> = Vec::new();
    tag.push(83);
    tag.push(69);
    tag.push(76);
    tag.push(69);
    tag.push(67);
    tag.push(84);
    tag.push(32);
    proof {
        assert(tag@ =~= seq![83u8, 69u8, 76u8, 69u8, 67u8, 84u8, 32u8]);
    }
    let nrows: usize = rs.rows.len();
    push_dec(&mut tag, nrows as u64);
    proof {
        assert(tag@ == select_tag(rs.rows@.len()));
    }
    let tail = match encode_command_complete(&tag) {
        Option::Some(t) => t,
        Option::None => {
            return Option::None;
        },
    };
    let rdy = encode_ready();
    let mut out = head;
    extend_bytes(&mut out, &body);
    extend_bytes(&mut out, &tail);
    extend_bytes(&mut out, &rdy);
    proof {
        assert(out@ =~= query_response(*rs));
    }
    Option::Some(out)
}

impl Session {
    /// A fresh session for one accepted connection.
    pub fn new() -> (r: Session)
        ensures
            r.phase == SessionPhase::Connecting,
    {
        Session { phase: SessionPhase::Connecting }
    }

    /// Accepts the startup frame — no credential verification — and
    /// greets the client: authentication-ok, then ready-for-query.
    pub fn on_startup(&mut self) -> (r: Vec<u8>)
        requires
            old(self).phase == SessionPhase::Connecting,
        ensures
            final(self).phase == SessionPhase::Ready,
            r@ == auth_ok_msg() + ready_msg(),
    {
        self.phase = SessionPhase::Ready;
        let mut out = encode_auth_ok();
        let rdy = encode_ready();
        extend_bytes(&mut out, &rdy);
        out
    }

    /// Handles one decoded client message while ready. A probe query is
    /// answered from the fixed result and an unrecognized statement with
    /// the no-op acknowledgment, neither reaching the backend; only a
    /// read statement moves the session to `Executing` and hands the
    /// query out to be run.
    pub fn on_message(&mut self, m: ClientMessage) -> (r: SessionOutcome)
        requires
            old(self).phase == SessionPhase::Ready,
        ensures
            m matches ClientMessage::Query(q) ==> ({
                &&& is_probe(q@) ==> final(self).phase == SessionPhase::Ready && (
                r matches SessionOutcome::Send(b) && b@ == probe_response())
                &&& !is_probe(q@) && is_read(q@) ==> final(self).phase == SessionPhase::Executing
                    && (r matches SessionOutcome::RunQuery(b) && b@ == q@)
                &&& !is_probe(q@) && !is_read(q@) ==> final(self).phase == SessionPhase::Ready && (
                r matches SessionOutcome::Send(b) && b@ == noop_ack_bytes())
            }),
            m matches ClientMessage::Terminate ==> final(self).phase == SessionPhase::Closed
                && r is Close,
            m matches ClientMessage::Parse ==> final(self).phase == SessionPhase::Ready && (
            r matches SessionOutcome::Send(b) && b@ == empty_frame_msg(TAG_PARSE_COMPLETE)),
            m matches ClientMessage::Bind ==> final(self).phase == SessionPhase::Ready && (
            r matches SessionOutcome::Send(b) && b@ == empty_frame_msg(TAG_BIND_COMPLETE)),
            m matches ClientMessage::Describe ==> final(self).phase == SessionPhase::Ready && (
            r matches SessionOutcome::Send(b) && b@ == empty_frame_msg(TAG_NO_DATA)),
            m matches ClientMessage::Execute ==> final(self).phase == SessionPhase::Ready && (
            r matches SessionOutcome::Send(b) && b@ == empty_frame_msg(TAG_EMPTY_QUERY)),
            m matches ClientMessage::ClosePortal ==> final(self).phase == SessionPhase::Ready && (
            r matches SessionOutcome::Send(b) && b@ == empty_frame_msg(TAG_CLOSE_COMPLETE)),
            m matches ClientMessage::Sync ==> final(self).phase == SessionPhase::Ready && (
            r matches SessionOutcome::Send(b) && b@ == ready_msg()),
            m matches ClientMessage::Flush ==> final(self).phase == SessionPhase::Ready && (
            r matches SessionOutcome::Send(b) && b@ == Seq::<u8>::empty()),
    {
        match m {
            ClientMessage::Query(q) => {
                let decision = classify(&q);
                match decision {
                    RouteDecision::FixedProbe => {
                        let rs = probe_result();
                        proof {
                            lemma_probe_result_fits(rs);
                        }
                        let b = build_query_response(&rs).unwrap();
                        proof {
                            lemma_probe_response_bytes(rs);
                        }
                        SessionOutcome::Send(b)
                    },
                    RouteDecision::ReadQuery => {
                        self.phase = SessionPhase::Executing;
                        SessionOutcome::RunQuery(q)
                    },
                    RouteDecision::NoOpAck => {
                        let mut tag: Vec<u8> = Vec::new();
                        tag.push(79);
                        tag.push(75);
                        proof {
                            assert(tag@ =~= ok_tag());
                        }
                        let mut out = encode_command_complete(&tag).unwrap();
                        let rdy = encode_ready();
                        extend_bytes(&mut out, &rdy);
                        SessionOutcome::Send(out)
                    },
                }
            },
            ClientMessage::Terminate => {
                self.phase = SessionPhase::Closed;
                SessionOutcome::Close
            },
            ClientMessage::Parse => SessionOutcome::Send(
                crate::wire::encode_empty_frame(TAG_PARSE_COMPLETE),
            ),
            ClientMessage::Bind => SessionOutcome::Send(
                crate::wire::encode_empty_frame(TAG_BIND_COMPLETE),
            ),
            ClientMessage::Describe => SessionOutcome::Send(
                crate::wire::encode_empty_frame(TAG_NO_DATA),
            ),
            ClientMessage::Execute => SessionOutcome::Send(
                crate::wire::encode_empty_frame(TAG_EMPTY_QUERY),
            ),
            ClientMessage::ClosePortal => SessionOutcome::Send(
                crate::wire::encode_empty_frame(TAG_CLOSE_COMPLETE),
            ),
            ClientMessage::Sync => SessionOutcome::Send(encode_ready()),
            ClientMessage::Flush => SessionOutcome::Send(Vec::new()),
        }
    }

    /// Folds the backend's outcome into the response for the query that
    /// moved the session to `Executing`. Success streams the result set;
    /// a backend failure becomes exactly one error response. Either way
    /// the response ends with ready-for-query and the session returns to
    /// `Ready`: one bad query never kills the connection.
    pub fn on_backend(&mut self, res: Result<ResultSet, BackendError>) -> (r: Vec<u8>)
        requires
            old(self).phase == SessionPhase::Executing,
            res matches Ok(rs) ==> rs.wf(),
        ensures
            final(self).phase == SessionPhase::Ready,
            res matches Err(e) ==> r@ == error_msg(spec_backend_error_record(e)) + ready_msg(),
            res matches Ok(rs) ==> (if response_fits(rs) {
                r@ == query_response(rs)
            } else {
                r@ == error_msg(spec_oversize_record()) + ready_msg()
            }),
    {
        self.phase = SessionPhase::Ready;
        match res {
            Result::Ok(rs) => {
                match build_query_response(&rs) {
                    Option::Some(b) => b,
                    Option::None => {
                        let rec = oversize_record();
                        proof {
                            reveal_strlit("ERROR");
                            reveal_strlit("54000");
                            reveal_strlit("result set does not fit protocol frames");
                        }
                        let mut out = encode_error_response(&rec).unwrap();
                        let rdy = encode_ready();
                        extend_bytes(&mut out, &rdy);
                        out
                    },
                }
            },
            Result::Err(e) => {
                let rec = backend_error_record(&e);
                proof {
                    reveal_strlit("ERROR");
                    reveal_strlit("XX000");
                    reveal_strlit("could not open backend database");
                    reveal_strlit("backend execution failed");
                }
                let mut out = encode_error_response(&rec).unwrap();
                let rdy = encode_ready();
                extend_bytes(&mut out, &rdy);
                out
            },
        }
    }

    /// Reports a malformed frame or failed startup: one final error
    /// response, and the session closes — there is no recovery into a
    /// corrupted byte stream.
    pub fn on_protocol_error(&mut self) -> (r: Vec<u8>)
        ensures
            final(self).phase == SessionPhase::Closed,
            r@ == error_msg(spec_protocol_error_record()),
    {
        self.phase = SessionPhase::Closed;
        let rec = protocol_error_record();
        proof {
            reveal_strlit("FATAL");
            reveal_strlit("08P01");
            reveal_strlit("malformed protocol message");
        }
        encode_error_response(&rec).unwrap()
    }
}

/// The fixed probe result fits the wire frames.
proof fn lemma_probe_result_fits(rs: ResultSet)
    requires
        rs.columns@.len() == 1,
        rs.columns@[0].name@ == seq![105u8, 110u8, 116u8, 52u8],
        rs.rows@.len() == 1,
        rs.rows@[0]@.len() == 1,
        rs.rows@[0]@[0] matches crate::model::CellValue::Text(t) && t@ == seq![49u8],
    ensures
        response_fits(rs),
{
    reveal_with_fuel(cols_bytes, 3);
    reveal_with_fuel(cells_bytes, 3);
    reveal_with_fuel(dec_rep, 2);
    assert(rs.columns@.drop_last() =~= Seq::<crate::model::ColumnDescriptor>::empty());
    assert(cols_bytes(rs.columns@).len() == 23);
    assert(row_desc_payload(rs.columns@).len() == 25);
    let row0 = rs.rows@[0];
    assert(rs.rows@[0]@.drop_last() =~= Seq::<crate::model::CellValue>::empty());
    assert(cells_bytes(rs.rows@[0]@).len() == 5);
    assert(data_row_payload(rs.rows@[0]@).len() == 7);
    assert(forall|i: int| 0 <= i < rs.rows@.len() ==> data_row_fits((#[trigger] rs.rows@[i])@));
    assert(select_tag(1).len() == 8);
}

/// The generic query response on the fixed probe result is exactly the
/// fixed probe response.
proof fn lemma_probe_response_bytes(rs: ResultSet)
    requires
        rs.columns@.len() == 1,
        rs.columns@[0].name@ == seq![105u8, 110u8, 116u8, 52u8],
        rs.columns@[0].type_oid == OID_INT4,
        rs.rows@.len() == 1,
        rs.rows@[0]@.len() == 1,
        rs.rows@[0]@[0] matches crate::model::CellValue::Text(t) && t@ == seq![49u8],
    ensures
        query_response(rs) == probe_response(),
{
    reveal_with_fuel(cols_bytes, 3);
    reveal_with_fuel(cells_bytes, 3);
    reveal_with_fuel(rows_bytes, 3);
    reveal_with_fuel(dec_rep, 2);
    assert(rs.columns@.drop_last() =~= Seq::<crate::model::ColumnDescriptor>::empty());
    assert(col_desc_bytes(rs.columns@[0]) =~= probe_col_bytes());
    assert(cols_bytes(rs.columns@) =~= probe_col_bytes());
    assert(row_desc_payload(rs.columns@) =~= be16(1) + probe_col_bytes());
    assert(rs.rows@.drop_last() =~= Seq::<Vec<crate::model::CellValue>>::empty());
    assert(rs.rows@[0]@.drop_last() =~= Seq::<crate::model::CellValue>::empty());
    assert(cell_bytes(rs.rows@[0]@[0]) =~= be32(1) + seq![49u8]);
    assert(cells_bytes(rs.rows@[0]@) =~= be32(1) + seq![49u8]);
    assert(data_row_payload(rs.rows@[0]@) =~= be16(1) + be32(1) + seq![49u8]);
    assert(rows_bytes(rs.rows@) =~= data_row_msg(rs.rows@[0]@));
    assert(select_tag(1) =~= seq![83u8, 69u8, 76u8, 69u8, 67u8, 84u8, 32u8, 49u8]);
    assert(query_response(rs) =~= probe_response());
}

} // verus!
