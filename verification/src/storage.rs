//! The store as the handlers see it: a table of rows that takes one row at a
//! time and says whether it took it.

use crate::record::RecordView;
use vstd::prelude::*;

verus! {

/// Why the store did not take a row. The handlers treat every cause alike;
/// the cause is kept for whoever reads the log.
#[derive(Clone, Copy, Debug, PartialEq, Eq, Structural)]
pub enum StorageError {
    /// The row breaks a constraint of the table, such as a key already there.
    ConstraintViolation,
    /// The store could not be reached, or did not answer in time.
    Connectivity,
    /// Anything else that the store reports.
    Other,
}

/// The rows of the table, oldest first.
pub type Rows = Seq<RecordView>;

/// The table after the store has answered an insert of `record` with `reply`.
/// The insert is one statement: the row is there afterwards, or the table is
/// as it was.
pub open spec fn rows_after_insert(rows: Rows, record: RecordView, reply: Result<(), StorageError>) -> Rows {
    match reply {
        Ok(_) => rows.push(record),
        Err(_) => rows,
    }
}

} // verus!
