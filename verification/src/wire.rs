//! The wire codec: length-prefixed frame decoding for client messages and
//! byte-exact encoding of server messages.
//!
//! A regular frame is one tag byte followed by a 32-bit big-endian length
//! that counts itself and the payload, so a frame occupies `1 + length`
//! bytes and its payload is `length - 4` bytes. The startup exchange uses
//! an untagged frame whose length field counts the whole frame. Bytes read
//! from the socket are fed into a [`FrameBuffer`], which hands out one
//! decoded message per complete frame; a malformed length or an unknown
//! leading tag is reported as [`DecodeOutcome::Malformed`] and never
//! consumed, since the session closes the connection at that point.

use vstd::prelude::*;
use crate::bytes::{be16, be32, be32_val, extend_bytes, push_be16, push_be32, read_be32};
use crate::model::{CellValue, ColumnDescriptor, ErrorRecord, ErrorRecordModel};

verus! {

/// Frame tag of a simple-query message.
pub const TAG_QUERY: u8 = 81;

/// Frame tag of a termination message.
pub const TAG_TERMINATE: u8 = 88;

/// Frame tag of an extended-protocol parse message.
pub const TAG_PARSE: u8 = 80;

/// Frame tag of an extended-protocol bind message.
pub const TAG_BIND: u8 = 66;

/// Frame tag of an extended-protocol describe message.
pub const TAG_DESCRIBE: u8 = 68;

/// Frame tag of an extended-protocol execute message.
pub const TAG_EXECUTE: u8 = 69;

/// Frame tag of an extended-protocol close message.
pub const TAG_CLOSE: u8 = 67;

/// Frame tag of an extended-protocol sync message.
pub const TAG_SYNC: u8 = 83;

/// Frame tag of an extended-protocol flush message.
pub const TAG_FLUSH: u8 = 72;

/// A decoded client message. Extended-protocol messages are recognized so
/// the session can answer them with inert placeholder acknowledgments;
/// their payloads carry no meaning for this gateway and are dropped.
pub enum ClientMessage {
    /// A simple-query message carrying the query text bytes.
    Query(Vec<u8>),
    Terminate,
    Parse,
    Bind,
    Describe,
    Execute,
    ClosePortal,
    Sync,
    Flush,
}

/// The mathematical shape of a client message.
pub enum ClientMessageModel {
    Query(Seq<u8>),
    Terminate,
    Parse,
    Bind,
    Describe,
    Execute,
    ClosePortal,
    Sync,
    Flush,
}

impl ClientMessage {
    /// The message with its payload as a byte sequence.
    pub open spec fn model(self) -> ClientMessageModel {
        match self {
            ClientMessage::Query(q) => ClientMessageModel::Query(q@),
            ClientMessage::Terminate => ClientMessageModel::Terminate,
            ClientMessage::Parse => ClientMessageModel::Parse,
            ClientMessage::Bind => ClientMessageModel::Bind,
            ClientMessage::Describe => ClientMessageModel::Describe,
            ClientMessage::Execute => ClientMessageModel::Execute,
            ClientMessage::ClosePortal => ClientMessageModel::ClosePortal,
            ClientMessage::Sync => ClientMessageModel::Sync,
            ClientMessage::Flush => ClientMessageModel::Flush,
        }
    }
}

/// What one decoding step produced.
pub enum DecodeOutcome {
    /// No complete frame is buffered yet; more bytes are needed.
    Incomplete,
    /// The buffered bytes cannot be a valid frame; the session must send an
    /// error and close.
    Malformed,
    /// One complete frame was consumed and decoded.
    Message(ClientMessage),
}

/// The mathematical shape of a decoding step's outcome.
pub enum DecodeOutcomeModel {
    Incomplete,
    Malformed,
    Message(ClientMessageModel),
}

impl DecodeOutcome {
    /// The outcome with its message as a model value.
    pub open spec fn model(self) -> DecodeOutcomeModel {
        match self {
            DecodeOutcome::Incomplete => DecodeOutcomeModel::Incomplete,
            DecodeOutcome::Malformed => DecodeOutcomeModel::Malformed,
            DecodeOutcome::Message(m) => DecodeOutcomeModel::Message(m.model()),
        }
    }
}

/// Whether `t` is a leading tag this gateway accepts.
pub open spec fn tag_known(t: u8) -> bool {
    ||| t == TAG_QUERY
    ||| t == TAG_TERMINATE
    ||| t == TAG_PARSE
    ||| t == TAG_BIND
    ||| t == TAG_DESCRIBE
    ||| t == TAG_EXECUTE
    ||| t == TAG_CLOSE
    ||| t == TAG_SYNC
    ||| t == TAG_FLUSH
}

/// The value of the length field of the frame at the head of `s`.
pub open spec fn declared_len(s: Seq<u8>) -> nat
    recommends
        s.len() >= 5,
{
    be32_val(s[1], s[2], s[3], s[4]) as nat
}

/// Whether the buffered bytes can no longer be the prefix of a valid
/// frame: an unknown leading tag, or a length field below the four bytes
/// that the length itself occupies.
pub open spec fn buf_malformed(s: Seq<u8>) -> bool {
    ||| (s.len() >= 1 && !tag_known(s[0]))
    ||| (s.len() >= 5 && declared_len(s) < 4)
}

/// Whether a whole well-formed frame is buffered at the head of `s`.
pub open spec fn frame_complete(s: Seq<u8>) -> bool {
    &&& !buf_malformed(s)
    &&& s.len() >= 5
    &&& s.len() >= 1 + declared_len(s)
}

/// The payload of the complete frame at the head of `s`.
pub open spec fn frame_payload(s: Seq<u8>) -> Seq<u8>
    recommends
        frame_complete(s),
{
    s.subrange(5, 1 + declared_len(s) as int)
}

/// The bytes left after consuming the complete frame at the head of `s`.
pub open spec fn frame_rest(s: Seq<u8>) -> Seq<u8>
    recommends
        frame_complete(s),
{
    s.subrange(1 + declared_len(s) as int, s.len() as int)
}

/// Whether `p` is a single NUL-terminated string: at least the terminator,
/// and no interior NUL.
pub open spec fn cstring_ok(p: Seq<u8>) -> bool {
    &&& p.len() >= 1
    &&& p[p.len() - 1] == 0
    &&& forall|i: int| 0 <= i < p.len() - 1 ==> p[i] != 0
}

/// The text of a NUL-terminated string, without the terminator.
pub open spec fn cstring_text(p: Seq<u8>) -> Seq<u8>
    recommends
        cstring_ok(p),
{
    p.subrange(0, p.len() - 1)
}

/// The message a payload-free tag decodes to.
pub open spec fn tag_message(t: u8) -> ClientMessageModel
    recommends
        tag_known(t),
        t != TAG_QUERY,
{
    if t == TAG_TERMINATE {
        ClientMessageModel::Terminate
    } else if t == TAG_PARSE {
        ClientMessageModel::Parse
    } else if t == TAG_BIND {
        ClientMessageModel::Bind
    } else if t == TAG_DESCRIBE {
        ClientMessageModel::Describe
    } else if t == TAG_EXECUTE {
        ClientMessageModel::Execute
    } else if t == TAG_CLOSE {
        ClientMessageModel::ClosePortal
    } else if t == TAG_SYNC {
        ClientMessageModel::Sync
    } else {
        ClientMessageModel::Flush
    }
}

/// One decoding step on buffer contents `s`: the outcome, and the bytes
/// left in the buffer. A frame is consumed exactly when a message is
/// produced, so the outcome is a function of the bytes alone, independent
/// of how they arrived.
pub open spec fn spec_step(s: Seq<u8>) -> (DecodeOutcomeModel, Seq<u8>) {
    if buf_malformed(s) {
        (DecodeOutcomeModel::Malformed, s)
    } else if !frame_complete(s) {
        (DecodeOutcomeModel::Incomplete, s)
    } else if s[0] == TAG_QUERY {
        if cstring_ok(frame_payload(s)) {
            (
                DecodeOutcomeModel::Message(
                    ClientMessageModel::Query(cstring_text(frame_payload(s))),
                ),
                frame_rest(s),
            )
        } else {
            (DecodeOutcomeModel::Malformed, s)
        }
    } else {
        (DecodeOutcomeModel::Message(tag_message(s[0])), frame_rest(s))
    }
}

/// What one step of the startup exchange produced.
#[derive(PartialEq, Eq, Structural)]
pub enum StartupOutcome {
    /// The startup frame is not complete yet.
    Incomplete,
    /// The bytes cannot be a valid startup frame.
    Malformed,
    /// The client asked for TLS; the caller answers with the refusal byte
    /// and reads the next startup frame.
    SslRequest,
    /// A protocol-version startup frame was consumed; the session is
    /// accepted without credential verification.
    Accepted,
}

/// Frame code of a TLS negotiation request.
pub const SSL_REQUEST_CODE: u32 = 80877103;

/// The protocol version this gateway accepts in a startup frame.
pub const PROTOCOL_VERSION: u32 = 196608;

/// One startup decoding step on buffer contents `s`: the outcome and the
/// bytes left. The untagged startup frame's length field counts the whole
/// frame, which must hold at least the length and a 32-bit code.
pub open spec fn spec_startup_step(s: Seq<u8>) -> (StartupOutcome, Seq<u8>) {
    if s.len() < 4 {
        (StartupOutcome::Incomplete, s)
    } else if (be32_val(s[0], s[1], s[2], s[3]) as nat) < 8 {
        (StartupOutcome::Malformed, s)
    } else if s.len() < be32_val(s[0], s[1], s[2], s[3]) as nat {
        (StartupOutcome::Incomplete, s)
    } else if be32_val(s[4], s[5], s[6], s[7]) == SSL_REQUEST_CODE {
        if be32_val(s[0], s[1], s[2], s[3]) == 8 {
            (StartupOutcome::SslRequest, s.subrange(8, s.len() as int))
        } else {
            (StartupOutcome::Malformed, s)
        }
    } else if be32_val(s[4], s[5], s[6], s[7]) == PROTOCOL_VERSION {
        (
            StartupOutcome::Accepted,
            s.subrange(be32_val(s[0], s[1], s[2], s[3]) as int, s.len() as int),
        )
    } else {
        (StartupOutcome::Malformed, s)
    }
}

/// Buffers socket bytes until complete frames are available. Feeding
/// appends bytes; decoding consumes exactly one complete frame per
/// produced message. The decoded message stream is therefore a function of
/// the concatenation of everything fed, never of read boundaries.
pub struct FrameBuffer {
    data: Vec<u8>,
}

impl View for FrameBuffer {
    type V = Seq<u8>;

    closed spec fn view(&self) -> Seq<u8> {
        self.data@
    }
}

/// Copies `src[from..to]` into a fresh vector.
pub fn copy_range(src: &Vec<u8>, from: usize, to: usize) -> (r: Vec<u8>)
    requires
        from <= to <= src@.len(),
    ensures
        r@ == src@.subrange(from as int, to as int),
{
    let mut r: Vec<u8> = Vec::new();
    let mut i: usize = from;
    while i < to
        invariant
            from <= i <= to <= src@.len(),
            r@ == src@.subrange(from as int, i as int),
        decreases to - i,
    {
        r.push(src[i]);
        i = i + 1;
        proof {
            assert(r@ =~= src@.subrange(from as int, i as int));
        }
    }
    r
}

/// Whether `p` is a single NUL-terminated string.
fn check_cstring(p: &Vec<u8>) -> (b: bool)
    ensures
        b == cstring_ok(p@),
{
    let n: usize = p.len();
    if n == 0 {
        return false;
    }
    if p[n - 1] != 0 {
        return false;
    }
    let mut i: usize = 0;
    while i < n - 1
        invariant
            0 <= i <= n - 1,
            n == p@.len(),
            n >= 1,
            p@[n - 1] == 0,
            forall|j: int| 0 <= j < i ==> p@[j] != 0,
        decreases n - 1 - i,
    {
        if p[i] == 0 {
            return false;
        }
        i = i + 1;
    }
    true
}

impl FrameBuffer {
    /// A fresh, empty buffer.
    pub fn new() -> (r: FrameBuffer)
        ensures
            r@ == Seq::<u8>::empty(),
    {
        FrameBuffer { data: Vec::new() }
    }

    /// Appends one chunk of socket bytes. The buffer afterwards holds
    /// exactly the old bytes followed by the chunk, so any chunking of the
    /// same byte stream leaves the same buffer.
    pub fn feed(&mut self, chunk: &Vec<u8>)
        ensures
            final(self)@ == old(self)@ + chunk@,
    {
        let mut i: usize = 0;
        let n: usize = chunk.len();
        while i < n
            invariant
                i <= n,
                n == chunk@.len(),
                self.data@ == old(self)@ + chunk@.subrange(0, i as int),
            decreases n - i,
        {
            self.data.push(chunk[i]);
            i = i + 1;
            proof {
                assert(self.data@ =~= old(self)@ + chunk@.subrange(0, i as int));
            }
        }
        proof {
            assert(chunk@.subrange(0, n as int) =~= chunk@);
        }
    }

    /// Decodes at most one frame from the buffered bytes, consuming it
    /// exactly when a message is produced.
    pub fn next_message(&mut self) -> (r: DecodeOutcome)
        ensures
            r.model() == spec_step(old(self)@).0,
            final(self)@ == spec_step(old(self)@).1,
    {
        let n: usize = self.data.len();
        if n == 0 {
            return DecodeOutcome::Incomplete;
        }
        let tag: u8 = self.data[0];
        if !(tag == TAG_QUERY || tag == TAG_TERMINATE || tag == TAG_PARSE || tag == TAG_BIND
            || tag == TAG_DESCRIBE || tag == TAG_EXECUTE || tag == TAG_CLOSE || tag == TAG_SYNC
            || tag == TAG_FLUSH) {
            return DecodeOutcome::Malformed;
        }
        if n < 5 {
            return DecodeOutcome::Incomplete;
        }
        let flen32: u32 = read_be32(&self.data, 1);
        if flen32 < 4 {
            return DecodeOutcome::Malformed;
        }
        let flen: usize = flen32 as usize;
        if n - 1 < flen {
            return DecodeOutcome::Incomplete;
        }
        let payload: Vec<u8> = copy_range(&self.data, 5, 1 + flen);
        if tag == TAG_QUERY {
            if !check_cstring(&payload) {
                return DecodeOutcome::Malformed;
            }
            let text: Vec<u8> = copy_range(&payload, 0, payload.len() - 1);
            let rest: Vec<u8> = copy_range(&self.data, 1 + flen, n);
            self.data = rest;
            proof {
                assert(text@ =~= cstring_text(frame_payload(old(self)@)));
            }
            return DecodeOutcome::Message(ClientMessage::Query(text));
        }
        let rest: Vec<u8> = copy_range(&self.data, 1 + flen, n);
        self.data = rest;
        if tag == TAG_TERMINATE {
            DecodeOutcome::Message(ClientMessage::Terminate)
        } else if tag == TAG_PARSE {
            DecodeOutcome::Message(ClientMessage::Parse)
        } else if tag == TAG_BIND {
            DecodeOutcome::Message(ClientMessage::Bind)
        } else if tag == TAG_DESCRIBE {
            DecodeOutcome::Message(ClientMessage::Describe)
        } else if tag == TAG_EXECUTE {
            DecodeOutcome::Message(ClientMessage::Execute)
        } else if tag == TAG_CLOSE {
            DecodeOutcome::Message(ClientMessage::ClosePortal)
        } else if tag == TAG_SYNC {
            DecodeOutcome::Message(ClientMessage::Sync)
        } else {
            DecodeOutcome::Message(ClientMessage::Flush)
        }
    }

    /// Decodes at most one startup frame from the buffered bytes.
    pub fn next_startup(&mut self) -> (r: StartupOutcome)
        ensures
            r == spec_startup_step(old(self)@).0,
            final(self)@ == spec_startup_step(old(self)@).1,
    {
        let n: usize = self.data.len();
        if n < 4 {
            return StartupOutcome::Incomplete;
        }
        let flen32: u32 = read_be32(&self.data, 0);
        if flen32 < 8 {
            return StartupOutcome::Malformed;
        }
        let flen: usize = flen32 as usize;
        if n < flen {
            return StartupOutcome::Incomplete;
        }
        let code: u32 = read_be32(&self.data, 4);
        if code == SSL_REQUEST_CODE {
            if flen32 == 8 {
                let rest: Vec<u8> = copy_range(&self.data, 8, n);
                self.data = rest;
                StartupOutcome::SslRequest
            } else {
                StartupOutcome::Malformed
            }
        } else if code == PROTOCOL_VERSION {
            let rest: Vec<u8> = copy_range(&self.data, flen, n);
            self.data = rest;
            StartupOutcome::Accepted
        } else {
            StartupOutcome::Malformed
        }
    }
}

/// Splitting a byte stream at any point and feeding the two halves
/// separately hands the decoder the same buffer contents as feeding the
/// stream whole: [`FrameBuffer::feed`] appends exactly its chunk, and
/// [`FrameBuffer::next_message`] is a function of the buffer contents
/// alone ([`spec_step`]). Frame reassembly is therefore invariant under
/// read boundaries.
pub proof fn lemma_reassembly_boundary_invariant(buffered: Seq<u8>, stream: Seq<u8>, cut: int)
    requires
        0 <= cut <= stream.len(),
    ensures
        (buffered + stream.subrange(0, cut)) + stream.subrange(cut, stream.len() as int)
            == buffered + stream,
        spec_step((buffered + stream.subrange(0, cut)) + stream.subrange(cut, stream.len() as int))
            == spec_step(buffered + stream),
{
    assert((buffered + stream.subrange(0, cut)) + stream.subrange(cut, stream.len() as int)
        =~= buffered + stream);
}

/// Frame tag of an authentication response.
pub const TAG_AUTH: u8 = 82;

/// Frame tag of a ready-for-query message.
pub const TAG_READY: u8 = 90;

/// Frame tag of a row-description message.
pub const TAG_ROW_DESC: u8 = 84;

/// Frame tag of a data-row message.
pub const TAG_DATA_ROW: u8 = 68;

/// Frame tag of a command-complete message.
pub const TAG_COMMAND_COMPLETE: u8 = 67;

/// Frame tag of an error-response message.
pub const TAG_ERROR: u8 = 69;

/// Frame tag of a parse-complete message.
pub const TAG_PARSE_COMPLETE: u8 = 49;

/// Frame tag of a bind-complete message.
pub const TAG_BIND_COMPLETE: u8 = 50;

/// Frame tag of a close-complete message.
pub const TAG_CLOSE_COMPLETE: u8 = 51;

/// Frame tag of a no-data message.
pub const TAG_NO_DATA: u8 = 110;

/// Frame tag of an empty-query-response message.
pub const TAG_EMPTY_QUERY: u8 = 73;

/// The single byte refusing a TLS negotiation request.
pub const SSL_REFUSAL: u8 = 78;

/// A server frame: tag, then a length field counting itself and the
/// payload, then the payload.
pub open spec fn msg_frame(tag: u8, payload: Seq<u8>) -> Seq<u8>
    recommends
        payload.len() + 4 <= 0xFFFFFFFF,
{
    seq![tag] + be32((payload.len() + 4) as u32) + payload
}

/// The authentication-ok message: the handshake accepts every client.
pub open spec fn auth_ok_msg() -> Seq<u8> {
    msg_frame(TAG_AUTH, be32(0))
}

/// The ready-for-query message, always with the idle status byte: this
/// gateway runs every query outside an explicit transaction.
pub open spec fn ready_msg() -> Seq<u8> {
    msg_frame(TAG_READY, seq![73u8])
}

/// A payload-free server frame.
pub open spec fn empty_frame_msg(tag: u8) -> Seq<u8> {
    msg_frame(tag, Seq::<u8>::empty())
}

/// The command-complete message for a command tag.
pub open spec fn command_complete_msg(tag: Seq<u8>) -> Seq<u8> {
    msg_frame(TAG_COMMAND_COMPLETE, tag + seq![0u8])
}

/// The error-response payload: severity, code and message fields, each
/// NUL-terminated and introduced by its field-type byte, then the
/// terminator of the field list.
pub open spec fn error_payload(rec: ErrorRecordModel) -> Seq<u8> {
    seq![83u8] + rec.severity + seq![0u8] + seq![67u8] + rec.code + seq![0u8] + seq![77u8]
        + rec.message + seq![0u8, 0u8]
}

/// The error-response message for an error record.
pub open spec fn error_msg(rec: ErrorRecordModel) -> Seq<u8> {
    msg_frame(TAG_ERROR, error_payload(rec))
}

/// The bytes describing one column: name, table and attribute origin
/// (zero: not a table column), type tag, variable size, no type modifier,
/// text format.
pub open spec fn col_desc_bytes(c: ColumnDescriptor) -> Seq<u8> {
    c.name@ + seq![0u8] + be32(0) + be16(0) + be32(c.type_oid) + be16(0xFFFF) + be32(0xFFFFFFFF)
        + be16(0)
}

/// The concatenated descriptions of a column list.
pub open spec fn cols_bytes(cols: Seq<ColumnDescriptor>) -> Seq<u8>
    decreases cols.len(),
{
    if cols.len() == 0 {
        Seq::<u8>::empty()
    } else {
        cols_bytes(cols.drop_last()) + col_desc_bytes(cols.last())
    }
}

/// The row-description payload: column count, then the descriptions.
pub open spec fn row_desc_payload(cols: Seq<ColumnDescriptor>) -> Seq<u8>
    recommends
        cols.len() <= 0xFFFF,
{
    be16(cols.len() as u16) + cols_bytes(cols)
}

/// Whether a column list fits the row-description frame: the count fits
/// its 16-bit field and the payload its 32-bit length field.
pub open spec fn row_desc_fits(cols: Seq<ColumnDescriptor>) -> bool {
    &&& cols.len() <= 0xFFFF
    &&& row_desc_payload(cols).len() + 4 <= 0xFFFFFFFF
}

/// The row-description message for a column list.
pub open spec fn row_desc_msg(cols: Seq<ColumnDescriptor>) -> Seq<u8> {
    msg_frame(TAG_ROW_DESC, row_desc_payload(cols))
}

/// The bytes of one value in a data row: the null marker (length minus
/// one) for an absent value — never an empty string — or the value length
/// and bytes.
pub open spec fn cell_bytes(v: CellValue) -> Seq<u8> {
    match v {
        CellValue::Null => be32(0xFFFFFFFF),
        CellValue::Text(t) => be32(t@.len() as u32) + t@,
    }
}

/// The concatenated encodings of a row's values.
pub open spec fn cells_bytes(row: Seq<CellValue>) -> Seq<u8>
    decreases row.len(),
{
    if row.len() == 0 {
        Seq::<u8>::empty()
    } else {
        cells_bytes(row.drop_last()) + cell_bytes(row.last())
    }
}

/// The data-row payload: value count, then the value encodings.
pub open spec fn data_row_payload(row: Seq<CellValue>) -> Seq<u8>
    recommends
        row.len() <= 0xFFFF,
{
    be16(row.len() as u16) + cells_bytes(row)
}

/// Whether a row fits the data-row frame: the count fits its 16-bit field
/// and the payload its 32-bit length field.
pub open spec fn data_row_fits(row: Seq<CellValue>) -> bool {
    &&& row.len() <= 0xFFFF
    &&& data_row_payload(row).len() + 4 <= 0xFFFFFFFF
}

/// The data-row message for one row.
pub open spec fn data_row_msg(row: Seq<CellValue>) -> Seq<u8> {
    msg_frame(TAG_DATA_ROW, data_row_payload(row))
}

/// The concatenated data-row messages of a row list.
pub open spec fn rows_bytes(rows: Seq<Vec<CellValue>>) -> Seq<u8>
    decreases rows.len(),
{
    if rows.len() == 0 {
        Seq::<u8>::empty()
    } else {
        rows_bytes(rows.drop_last()) + data_row_msg(rows.last()@)
    }
}

/// Whether every row of a list fits its data-row frame.
pub open spec fn all_rows_fit(rows: Seq<Vec<CellValue>>) -> bool {
    forall|i: int| 0 <= i < rows.len() ==> data_row_fits((#[trigger] rows[i])@)
}

/// Frames a payload under a tag, unless the payload overflows the 32-bit
/// length field.
fn frame_with_payload(tag: u8, payload: Vec<u8>) -> (r: Option<Vec<u8>>)
    ensures
        r is Some <==> payload@.len() + 4 <= 0xFFFFFFFF,
        r matches Some(b) ==> b@ == msg_frame(tag, payload@),
{
    let ghost p: Seq<u8> = payload@;
    let mut payload = payload;
    let plen: usize = payload.len();
    if plen as u64 > 0xFFFFFFFFu64 - 4 {
        return None;
    }
    let mut out: Vec<u8> = Vec::new();
    out.push(tag);
    push_be32(&mut out, (plen as u32) + 4);
    out.append(&mut payload);
    proof {
        assert(out@ =~= msg_frame(tag, p));
    }
    Some(out)
}

/// Encodes the authentication-ok message.
pub fn encode_auth_ok() -> (r: Vec<u8>)
    ensures
        r@ == auth_ok_msg(),
{
    let mut out: Vec<u8> = Vec::new();
    out.push(TAG_AUTH);
    push_be32(&mut out, 8);
    push_be32(&mut out, 0);
    proof {
        assert(out@ =~= auth_ok_msg());
    }
    out
}

/// Encodes the ready-for-query message.
pub fn encode_ready() -> (r: Vec<u8>)
    ensures
        r@ == ready_msg(),
{
    let mut out: Vec<u8> = Vec::new();
    out.push(TAG_READY);
    push_be32(&mut out, 5);
    out.push(73);
    proof {
        assert(out@ =~= ready_msg());
    }
    out
}

/// Encodes a payload-free server frame.
pub fn encode_empty_frame(tag: u8) -> (r: Vec<u8>)
    ensures
        r@ == empty_frame_msg(tag),
{
    let mut out: Vec<u8> = Vec::new();
    out.push(tag);
    push_be32(&mut out, 4);
    proof {
        assert(out@ =~= empty_frame_msg(tag));
    }
    out
}

/// Encodes the single byte refusing a TLS negotiation request.
pub fn encode_ssl_refusal() -> (r: Vec<u8>)
    ensures
        r@ == seq![SSL_REFUSAL],
{
    let mut out: Vec<u8> = Vec::new();
    out.push(SSL_REFUSAL);
    proof {
        assert(out@ =~= seq![SSL_REFUSAL]);
    }
    out
}

/// Encodes the command-complete message for a command tag, unless the tag
/// overflows the frame's length field.
pub fn encode_command_complete(tag: &Vec<u8>) -> (r: Option<Vec<u8>>)
    ensures
        r is Some <==> tag@.len() + 5 <= 0xFFFFFFFF,
        r matches Some(b) ==> b@ == command_complete_msg(tag@),
{
    let mut payload: Vec<u8> = Vec::new();
    extend_bytes(&mut payload, tag);
    payload.push(0);
    proof {
        assert(payload@ =~= tag@ + seq![0u8]);
    }
    frame_with_payload(TAG_COMMAND_COMPLETE, payload)
}

/// Encodes the error-response message for an error record, unless its
/// fields overflow the frame's length field.
pub fn encode_error_response(rec: &ErrorRecord) -> (r: Option<Vec<u8>>)
    ensures
        r is Some <==> error_payload(rec.model()).len() + 4 <= 0xFFFFFFFF,
        r matches Some(b) ==> b@ == error_msg(rec.model()),
{
    let mut payload: Vec<u8> = Vec::new();
    payload.push(83);
    extend_bytes(&mut payload, &rec.severity);
    payload.push(0);
    payload.push(67);
    extend_bytes(&mut payload, &rec.code);
    payload.push(0);
    payload.push(77);
    extend_bytes(&mut payload, &rec.message);
    payload.push(0);
    payload.push(0);
    proof {
        assert(payload@ =~= error_payload(rec.model()));
    }
    frame_with_payload(TAG_ERROR, payload)
}

/// Encodes the row-description message for a column list, unless the list
/// does not fit the frame.
pub fn encode_row_description(cols: &Vec<ColumnDescriptor>) -> (r: Option<Vec<u8>>)
    ensures
        r is Some <==> row_desc_fits(cols@),
        r matches Some(b) ==> b@ == row_desc_msg(cols@),
{
    let ncols: usize = cols.len();
    if ncols > 0xFFFF {
        return None;
    }
    let mut payload: Vec<u8> = Vec::new();
    push_be16(&mut payload, ncols as u16);
    let mut i: usize = 0;
    while i < ncols
        invariant
            i <= ncols,
            ncols == cols@.len(),
            ncols <= 0xFFFF,
            payload@ == be16(ncols as u16) + cols_bytes(cols@.subrange(0, i as int)),
        decreases ncols - i,
    {
        let c = &cols[i];
        extend_bytes(&mut payload, &c.name);
        payload.push(0);
        push_be32(&mut payload, 0);
        push_be16(&mut payload, 0);
        push_be32(&mut payload, c.type_oid);
        push_be16(&mut payload, 0xFFFF);
        push_be32(&mut payload, 0xFFFFFFFF);
        push_be16(&mut payload, 0);
        i = i + 1;
        proof {
            let done = cols@.subrange(0, i as int);
            assert(done.drop_last() =~= cols@.subrange(0, i - 1));
            assert(payload@ =~= be16(ncols as u16) + cols_bytes(done));
        }
    }
    proof {
        assert(cols@.subrange(0, ncols as int) =~= cols@);
    }
    frame_with_payload(TAG_ROW_DESC, payload)
}

/// Encodes the data-row message for one row, unless the row does not fit
/// the frame.
pub fn encode_data_row(row: &Vec<CellValue>) -> (r: Option<Vec<u8>>)
    ensures
        r is Some <==> data_row_fits(row@),
        r matches Some(b) ==> b@ == data_row_msg(row@),
{
    let nvals: usize = row.len();
    if nvals > 0xFFFF {
        return None;
    }
    let mut payload: Vec<u8> = Vec::new();
    push_be16(&mut payload, nvals as u16);
    let mut i: usize = 0;
    while i < nvals
        invariant
            i <= nvals,
            nvals == row@.len(),
            nvals <= 0xFFFF,
            payload@ == be16(nvals as u16) + cells_bytes(row@.subrange(0, i as int)),
        decreases nvals - i,
    {
        match &row[i] {
            CellValue::Null => {
                push_be32(&mut payload, 0xFFFFFFFF);
            },
            CellValue::Text(t) => {
                push_be32(&mut payload, #[verifier::truncate] (t.len() as u32));
                extend_bytes(&mut payload, t);
            },
        }
        i = i + 1;
        proof {
            let done = row@.subrange(0, i as int);
            assert(done.drop_last() =~= row@.subrange(0, i - 1));
            assert(payload@ =~= be16(nvals as u16) + cells_bytes(done));
        }
    }
    proof {
        assert(row@.subrange(0, nvals as int) =~= row@);
    }
    frame_with_payload(TAG_DATA_ROW, payload)
}

/// Encodes the data-row messages of a row list in order, unless some row
/// does not fit its frame.
pub fn encode_data_rows(rows: &Vec<Vec<CellValue>>) -> (r: Option<Vec<u8>>)
    ensures
        r is Some <==> all_rows_fit(rows@),
        r matches Some(b) ==> b@ == rows_bytes(rows@),
{
    let nrows: usize = rows.len();
    let mut out: Vec<u8> = Vec::new();
    let mut i: usize = 0;
    while i < nrows
        invariant
            i <= nrows,
            nrows == rows@.len(),
            out@ == rows_bytes(rows@.subrange(0, i as int)),
            forall|j: int| 0 <= j < i ==> data_row_fits((#[trigger] rows@[j])@),
        decreases nrows - i,
    {
        match encode_data_row(&rows[i]) {
            Option::Some(b) => {
                extend_bytes(&mut out, &b);
            },
            Option::None => {
                return None;
            },
        }
        i = i + 1;
        proof {
            let done = rows@.subrange(0, i as int);
            assert(done.drop_last() =~= rows@.subrange(0, i - 1));
            assert(out@ =~= rows_bytes(done));
        }
    }
    proof {
        assert(rows@.subrange(0, nrows as int) =~= rows@);
    }
    Some(out)
}

/// An absent value and a present value never share a wire encoding — in
/// particular the empty string is still four zero length bytes, not the
/// null marker — so the null distinction survives encoding end-to-end.
pub proof fn lemma_null_marker_unambiguous(t: Vec<u8>)
    ensures
        cell_bytes(CellValue::Text(t)) != cell_bytes(CellValue::Null),
{
    if t@.len() == 0 {
        assert(cell_bytes(CellValue::Text(t))[0] == 0);
        assert(cell_bytes(CellValue::Null)[0] == 255);
    } else {
        assert(cell_bytes(CellValue::Text(t)).len() > 4);
        assert(cell_bytes(CellValue::Null).len() == 4);
    }
}

/// Decoding is exact on encoded frames: a buffer holding a framed query
/// message — the tag, a length field counting itself, the NUL-terminated
/// query text — followed by anything decodes to exactly that query text
/// and leaves exactly the rest.
pub proof fn lemma_query_frame_roundtrip(text: Seq<u8>, rest: Seq<u8>)
    requires
        text.len() + 5 <= 0xFFFFFFFF,
        forall|i: int| 0 <= i < text.len() ==> text[i] != 0,
    ensures
        ({
            let s = seq![TAG_QUERY] + be32((text.len() + 5) as u32) + text + seq![0u8] + rest;
            spec_step(s) == (
                DecodeOutcomeModel::Message(ClientMessageModel::Query(text)),
                rest,
            )
        }),
{
    let s = seq![TAG_QUERY] + be32((text.len() + 5) as u32) + text + seq![0u8] + rest;
    let flen: u32 = (text.len() + 5) as u32;
    crate::bytes::lemma_be32_roundtrip(flen);
    assert(s[1] == be32(flen)[0]);
    assert(s[2] == be32(flen)[1]);
    assert(s[3] == be32(flen)[2]);
    assert(s[4] == be32(flen)[3]);
    assert(declared_len(s) == flen as nat);
    assert(!buf_malformed(s));
    assert(frame_complete(s));
    assert(frame_payload(s) =~= text + seq![0u8]);
    assert(cstring_ok(frame_payload(s)));
    assert(cstring_text(frame_payload(s)) =~= text);
    assert(frame_rest(s) =~= rest);
}

} // verus!
