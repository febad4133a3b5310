//! The type mapper: turns backend column names and optional-text values
//! into the library's column descriptors and cell values.
//!
//! Every backend column is given the default text type tag; only the
//! fixed diagnostic probe result uses the integer tag. An absent backend
//! value maps to [`CellValue::Null`], never to an empty byte string, so
//! the wire encoder emits the protocol's null marker for it.

use vstd::prelude::*;
use crate::bytes::clone_bytes;
use crate::model::{CellValue, ColumnDescriptor, ResultSet, OID_INT4, OID_TEXT};

verus! {

/// Whether cell `c` renders backend value `o`: absent becomes `Null`, a
/// value becomes `Text` with the same bytes.
pub open spec fn cell_matches(c: CellValue, o: Option<Vec<u8>>) -> bool {
    match o {
        Option::None => c is Null,
        Option::Some(v) => c matches CellValue::Text(t) && t@ == v@,
    }
}

/// Maps backend column names, in declaration order, to text-typed column
/// descriptors.
pub fn text_columns(names: &Vec<Vec<u8>>) -> (r: Vec<ColumnDescriptor>)
    ensures
        r@.len() == names@.len(),
        forall|i: int| 0 <= i < names@.len() ==> (#[trigger] r@[i]).name@ == names@[i]@
            && r@[i].type_oid == OID_TEXT,
{
    let n: usize = names.len();
    let mut r: Vec<ColumnDescriptor> = Vec::new();
    let mut i: usize = 0;
    while i < n
        invariant
            i <= n,
            n == names@.len(),
            r@.len() == i,
            forall|j: int| 0 <= j < i ==> (#[trigger] r@[j]).name@ == names@[j]@
                && r@[j].type_oid == OID_TEXT,
        decreases n - i,
    {
        r.push(ColumnDescriptor { name: clone_bytes(&names[i]), type_oid: OID_TEXT });
        i = i + 1;
    }
    r
}

/// Maps one backend row to cell values, position by position.
pub fn cells_of_raw(raw: &Vec<Option<Vec<u8>>>) -> (r: Vec<CellValue>)
    ensures
        r@.len() == raw@.len(),
        forall|j: int| 0 <= j < raw@.len() ==> cell_matches(#[trigger] r@[j], raw@[j]),
{
    let n: usize = raw.len();
    let mut r: Vec<CellValue> = Vec::new();
    let mut i: usize = 0;
    while i < n
        invariant
            i <= n,
            n == raw@.len(),
            r@.len() == i,
            forall|j: int| 0 <= j < i ==> cell_matches(#[trigger] r@[j], raw@[j]),
        decreases n - i,
    {
        match &raw[i] {
            Option::None => {
                r.push(CellValue::Null);
            },
            Option::Some(v) => {
                r.push(CellValue::Text(clone_bytes(v)));
            },
        }
        i = i + 1;
    }
    r
}

/// Assembles a result set from backend output: column names in
/// declaration order, rows in cursor order, every value rendered by
/// [`cell_matches`]. The result is well formed because every raw row is
/// required to carry one value per column, which the backend adapter
/// guarantees by construction.
pub fn assemble_result_set(names: &Vec<Vec<u8>>, raw: &Vec<Vec<Option<Vec<u8>>>>) -> (r: ResultSet)
    requires
        forall|i: int| 0 <= i < raw@.len() ==> (#[trigger] raw@[i])@.len() == names@.len(),
    ensures
        r.wf(),
        r.columns@.len() == names@.len(),
        forall|i: int| 0 <= i < names@.len() ==> (#[trigger] r.columns@[i]).name@ == names@[i]@
            && r.columns@[i].type_oid == OID_TEXT,
        r.rows@.len() == raw@.len(),
        forall|i: int, j: int| 0 <= i < raw@.len() && 0 <= j < raw@[i]@.len()
            ==> cell_matches(#[trigger] r.rows@[i]@[j], raw@[i]@[j]),
{
    let columns = text_columns(names);
    let n: usize = raw.len();
    let mut rows: Vec<Vec<CellValue>> = Vec::new();
    let mut i: usize = 0;
    while i < n
        invariant
            i <= n,
            n == raw@.len(),
            rows@.len() == i,
            forall|k: int| 0 <= k < raw@.len() ==> (#[trigger] raw@[k])@.len() == names@.len(),
            forall|k: int| 0 <= k < i ==> (#[trigger] rows@[k])@.len() == raw@[k]@.len(),
            forall|k: int, j: int| 0 <= k < i && 0 <= j < raw@[k]@.len()
                ==> cell_matches(#[trigger] rows@[k]@[j], raw@[k]@[j]),
        decreases n - i,
    {
        rows.push(cells_of_raw(&raw[i]));
        i = i + 1;
    }
    ResultSet { columns, rows }
}

/// The fixed result answering the diagnostic probe: one integer-typed
/// column, one row, the single value `1` in text form. The backend is not
/// involved.
pub fn probe_result() -> (r: ResultSet)
    ensures
        r.wf(),
        r.columns@.len() == 1,
        r.columns@[0].name@ == seq![105u8, 110u8, 116u8, 52u8],
        r.columns@[0].type_oid == OID_INT4,
        r.rows@.len() == 1,
        r.rows@[0]@.len() == 1,
        r.rows@[0]@[0] matches CellValue::Text(t) && t@ == seq![49u8],
{
    let mut name: Vec<u8> = Vec::new();
    name.push(105);
    name.push(110);
    name.push(116);
    name.push(52);
    proof {
        assert(name@ =~= seq![105u8, 110u8, 116u8, 52u8]);
    }
    let mut columns: Vec<ColumnDescriptor> = Vec::new();
    columns.push(ColumnDescriptor { name, type_oid: OID_INT4 });
    let mut value: Vec<u8> = Vec::new();
    value.push(49);
    proof {
        assert(value@ =~= seq![49u8]);
    }
    let mut row: Vec<CellValue> = Vec::new();
    row.push(CellValue::Text(value));
    let mut rows: Vec<Vec<CellValue>> = Vec::new();
    rows.push(row);
    ResultSet { columns, rows }
}

} // verus!
