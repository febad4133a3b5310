//! The data model shared by the pipeline: backend cell values, column
//! descriptors, result sets, and the error record surfaced to clients.
//!
//! Column values are carried as raw bytes of their text rendering; an absent
//! value is a distinct `Null` variant, never an empty byte string, so the
//! wire encoder can emit the protocol's null marker for it.

use vstd::prelude::*;
use crate::bytes::ascii;

verus! {

/// Wire type tag (object identifier) for text columns.
pub const OID_TEXT: u32 = 25;

/// Wire type tag (object identifier) for four-byte integer columns.
pub const OID_INT4: u32 = 23;

/// One backend column value: absent, or the bytes of its text rendering.
pub enum CellValue {
    Null,
    Text(Vec<u8>),
}

/// One column of a result set: its name and its declared wire type tag.
/// Only the text transfer format is used, so no format field is carried.
pub struct ColumnDescriptor {
    pub name: Vec<u8>,
    pub type_oid: u32,
}

/// Column descriptors paired with rows of values aligned to them by
/// position.
pub struct ResultSet {
    pub columns: Vec<ColumnDescriptor>,
    pub rows: Vec<Vec<CellValue>>,
}

impl ResultSet {
    /// Every row holds exactly one value per column descriptor.
    pub open spec fn wf(self) -> bool {
        forall|i: int| 0 <= i < self.rows@.len() ==> (#[trigger] self.rows@[i])@.len()
            == self.columns@.len()
    }
}

/// A protocol-level error: severity, five-character code, message.
pub struct ErrorRecord {
    pub severity: Vec<u8>,
    pub code: Vec<u8>,
    pub message: Vec<u8>,
}

/// A failure reported by the backend adapter. The engine's own error value
/// is deliberately not carried: its text could leak internal paths, and the
/// record sent to clients is fixed per failure kind.
#[derive(Debug)]
pub enum BackendError {
    /// The storage file could not be opened.
    OpenFailed,
    /// The statement failed to prepare or execute.
    ExecuteFailed,
}

/// The error record that a backend failure surfaces to the client.
pub open spec fn spec_backend_error_record(e: BackendError) -> ErrorRecordModel {
    match e {
        BackendError::OpenFailed => ErrorRecordModel {
            severity: ascii("ERROR"),
            code: ascii("XX000"),
            message: ascii("could not open backend database"),
        },
        BackendError::ExecuteFailed => ErrorRecordModel {
            severity: ascii("ERROR"),
            code: ascii("XX000"),
            message: ascii("backend execution failed"),
        },
    }
}

/// The mathematical shape of an error record: the three fields as byte
/// sequences.
pub struct ErrorRecordModel {
    pub severity: Seq<u8>,
    pub code: Seq<u8>,
    pub message: Seq<u8>,
}

impl ErrorRecord {
    /// The record's fields as byte sequences.
    pub open spec fn model(self) -> ErrorRecordModel {
        ErrorRecordModel { severity: self.severity@, code: self.code@, message: self.message@ }
    }
}

/// Builds the error record for a backend failure.
pub fn backend_error_record(e: &BackendError) -> (r: ErrorRecord)
    ensures
        r.model() == spec_backend_error_record(*e),
{
    proof {
        reveal_strlit("ERROR");
        reveal_strlit("XX000");
        reveal_strlit("could not open backend database");
        reveal_strlit("backend execution failed");
    }
    match e {
        BackendError::OpenFailed => ErrorRecord {
            severity: crate::bytes::ascii_bytes("ERROR"),
            code: crate::bytes::ascii_bytes("XX000"),
            message: crate::bytes::ascii_bytes("could not open backend database"),
        },
        BackendError::ExecuteFailed => ErrorRecord {
            severity: crate::bytes::ascii_bytes("ERROR"),
            code: crate::bytes::ascii_bytes("XX000"),
            message: crate::bytes::ascii_bytes("backend execution failed"),
        },
    }
}

/// The record sent for a malformed frame or an unsupported startup: fatal
/// to the session.
pub open spec fn spec_protocol_error_record() -> ErrorRecordModel {
    ErrorRecordModel {
        severity: ascii("FATAL"),
        code: ascii("08P01"),
        message: ascii("malformed protocol message"),
    }
}

/// Builds the protocol-violation error record.
pub fn protocol_error_record() -> (r: ErrorRecord)
    ensures
        r.model() == spec_protocol_error_record(),
{
    proof {
        reveal_strlit("FATAL");
        reveal_strlit("08P01");
        reveal_strlit("malformed protocol message");
    }
    ErrorRecord {
        severity: crate::bytes::ascii_bytes("FATAL"),
        code: crate::bytes::ascii_bytes("08P01"),
        message: crate::bytes::ascii_bytes("malformed protocol message"),
    }
}

/// The record sent when a result set overflows the wire frames' length
/// fields: the session recovers and stays usable.
pub open spec fn spec_oversize_record() -> ErrorRecordModel {
    ErrorRecordModel {
        severity: ascii("ERROR"),
        code: ascii("54000"),
        message: ascii("result set does not fit protocol frames"),
    }
}

/// Builds the oversized-result error record.
pub fn oversize_record() -> (r: ErrorRecord)
    ensures
        r.model() == spec_oversize_record(),
{
    proof {
        reveal_strlit("ERROR");
        reveal_strlit("54000");
        reveal_strlit("result set does not fit protocol frames");
    }
    ErrorRecord {
        severity: crate::bytes::ascii_bytes("ERROR"),
        code: crate::bytes::ascii_bytes("54000"),
        message: crate::bytes::ascii_bytes("result set does not fit protocol frames"),
    }
}

} // verus!
