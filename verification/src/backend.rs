//! The backend adapter: executes a statement against the embedded storage
//! engine and yields column names and rows as plain optional-text values.
//!
//! The engine is an external collaborator reached through the trusted
//! wrappers below; everything after the calls — alignment, cell
//! rendering, result-set assembly — is verified in [`crate::mapper`]. A
//! connection is opened per query, and each adapter value is owned by one
//! session, so no engine connection is ever shared between concurrent
//! statements. Engine failures are folded into [`BackendError`]; the
//! engine's own error text is dropped rather than forwarded, so internal
//! paths never leak to clients.
//!
//! One limit of the no-panic promise: the engine crate's safe interface
//! cannot supply column names for an arbitrary statement without a
//! conversion that panics on a non-UTF-8 name, so [`BackendAdapter::execute`]
//! inherits that panic on a storage file whose schema carries such a name
//! (see the statement wrapper below); everything else returns.

use vstd::prelude::*;
use rusqlite::types::ValueRef;
use crate::mapper::{assemble_result_set, cell_matches};
use crate::model::{BackendError, ResultSet, OID_TEXT};

verus! {

#[verifier::external_type_specification]
#[verifier::external_body]
pub struct ExConnection(rusqlite::Connection);

#[verifier::external_type_specification]
#[verifier::external_body]
pub struct ExEngineError(rusqlite::Error);

/// Relies on rusqlite::Connection::open: opens the storage file at
/// `path`, returning a connection handle or the engine's error. Nothing
/// is promised of the outcome — it depends on what is on disk.
#[verifier::external_body]
fn open_db(path: &str) -> (r: Result<rusqlite::Connection, rusqlite::Error>) {
    rusqlite::Connection::open(path)
}

/// Relies on rusqlite's Connection::prepare, Statement::column_names,
/// Statement::query, Rows::next and Row::get_ref: prepares `sql`, then
/// yields the column names in declaration order and the rows in cursor
/// order, each value read by position — the bytes of a text value, kept
/// as they are, and absent for a null or for a value the engine does not
/// expose as text (graceful degradation over failure). These calls share
/// one body because statement, cursor and row each borrow their
/// predecessor, so the cursor cannot cross a wrapper boundary. Rows are
/// read with exactly one value per column, which is the one fact stated
/// here; everything else about the outcome depends on the storage file.
///
/// Two caveats of the engine crate that verification does not cover.
/// Query bytes that are not valid UTF-8 are rewritten by the lossy
/// conversion before the engine sees them, so such a query reaches the
/// engine altered (and in practice fails to parse there). And
/// `column_names` panics on a schema whose column name is not valid
/// UTF-8 — every name accessor of the engine crate converts names with a
/// panicking `expect` — so on such a storage file this call, and
/// [`BackendAdapter::execute`] above it, panic instead of returning; no
/// `requires` can exclude that file, since the connection is opaque. A
/// caller that must survive such a file runs the call on a task of its
/// own and folds the task's failure to an error, as the bundled acceptor
/// does.
#[verifier::external_body]
fn fetch_all(conn: &rusqlite::Connection, sql: &Vec<u8>) -> (r: Result<
    (Vec<Vec<u8>>, Vec<Vec<Option<Vec<u8>>>>),
    rusqlite::Error,
>)
    ensures
        r matches Ok(t) ==> forall|i: int|
            0 <= i < t.1@.len() ==> (#[trigger] t.1@[i])@.len() == t.0@.len(),
{
    let mut stmt = conn.prepare(&String::from_utf8_lossy(sql))?;
    let names: Vec<Vec<u8>> = stmt.column_names().iter().map(|s| s.as_bytes().to_vec()).collect();
    let mut rows = stmt.query([])?;
    let mut out = Vec::new();
    while let Some(row) = rows.next()? {
        let mut rec = Vec::new();
        for i in 0..names.len() {
            rec.push(match row.get_ref(i) {
                Ok(ValueRef::Text(t)) => Some(t.to_vec()),
                _ => None,
            });
        }
        out.push(rec);
    }
    Ok((names, out))
}

/// Executes read statements against one storage file. Owned exclusively
/// by its session; a fresh engine connection is opened per query, so no
/// connection outlives a statement or is shared across statements.
pub struct BackendAdapter {
    pub db_path: String,
}

impl BackendAdapter {
    /// An adapter over the storage file at `db_path`.
    pub fn new(db_path: String) -> (r: BackendAdapter)
        ensures
            r.db_path@ == db_path@,
    {
        BackendAdapter { db_path }
    }

    /// Runs one statement. On success the result set is well formed —
    /// every row aligned to the text-typed columns — with names in
    /// declaration order and rows in cursor order; which names and rows
    /// come back depends on the storage file, so nothing more is promised
    /// of them. An engine failure folds to [`BackendError`]: the file
    /// could not be opened, or the statement failed. On a storage file
    /// whose schema carries a non-UTF-8 column name this call panics
    /// inside the engine crate instead of returning (see the statement
    /// wrapper); run it on a task of its own where that must be survived.
    pub fn execute(&self, query: &Vec<u8>) -> (r: Result<ResultSet, BackendError>)
        ensures
            r matches Ok(rs) ==> rs.wf() && forall|i: int|
                0 <= i < rs.columns@.len() ==> (#[trigger] rs.columns@[i]).type_oid == OID_TEXT,
    {
        let conn = match open_db(self.db_path.as_str()) {
            Result::Ok(c) => c,
            Result::Err(_) => {
                return Result::Err(BackendError::OpenFailed);
            },
        };
        match fetch_all(&conn, query) {
            Result::Ok((names, raw)) => Result::Ok(assemble_result_set(&names, &raw)),
            Result::Err(_) => Result::Err(BackendError::ExecuteFailed),
        }
    }
}

} // verus!
