use vstd::prelude::*;

use crate::value::Value;

verus! {

/// An ordered tuple of cell values.
#[derive(Debug, Clone)]
pub struct Row {
    pub values: Vec<Value>,
}

/// One physical version of a logical row.
#[derive(Debug, Clone)]
pub struct RowVersion {
    /// The logical row this version belongs to; shared by all its versions.
    pub id: u64,
    /// The row's values as of this version.
    pub row: Row,
    /// The transaction that wrote this version.
    pub t_created: u64,
    /// The transaction that superseded this version, if any.
    pub t_deleted: Option<u64>,
}

/// Why a version could not be marked deleted.
#[derive(Debug, Clone, Copy, PartialEq, Eq, Structural)]
pub enum VersionError {
    /// The version was already deleted, by the transaction given.
    AlreadyDeleted(u64),
}

impl Row {
    /// A row holding `values`, in order.
    pub fn new(values: Vec<Value>) -> (r: Row)
        ensures
            r.values@ == values@,
    {
        Row { values }
    }
}

impl RowVersion {
    /// A version of row `id` with payload `row`, written by `t_created` and not deleted.
    pub fn new(id: u64, row: Row, t_created: u64) -> (r: RowVersion)
        ensures
            r.id == id,
            r.row == row,
            r.t_created == t_created,
            r.t_deleted == None::<u64>,
    {
        RowVersion { id, row, t_created, t_deleted: None }
    }

    /// Marks this version deleted by transaction `tx`. A version is deleted at
    /// most once: a second delete is refused and leaves the version as it was.
    pub fn mark_deleted(&mut self, tx: u64) -> (r: Result<(), VersionError>)
        ensures
            match old(self).t_deleted {
                None => r == Ok::<(), VersionError>(()) && final(self).t_deleted == Some(tx),
                Some(d) => r == Err::<(), VersionError>(VersionError::AlreadyDeleted(d))
                    && final(self).t_deleted == Some(d),
            },
            final(self).id == old(self).id,
            final(self).row == old(self).row,
            final(self).t_created == old(self).t_created,
    {
        match self.t_deleted {
            Some(d) => Err(VersionError::AlreadyDeleted(d)),
            None => {
                self.t_deleted = Some(tx);
                Ok(())
            },
        }
    }
}

} // verus!
