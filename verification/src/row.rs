//! The row mapper: one result row of the `lists` table becomes one
//! `TodoData` record, or fails on the first expected column that is absent
//! or null.  Nothing is defaulted: a single bad column aborts the whole
//! row.

use vstd::prelude::*;
use crate::item::TodoData;
use crate::uuidfmt::is_uuid_seq;
use crate::uuidfmt::lemma_uuid_seq_wf;
use crate::uuidfmt::uuid_seq;
use crate::uuidfmt::uuid_string;

verus! {

/// State of one named column in a result row: the accessor can fail to
/// find the column, find it null, or hand back its typed value.
pub enum Column<T> {
    Missing,
    Null,
    Present(T),
}

/// The five columns a row of the `lists` table must carry.
#[derive(PartialEq, Eq, Structural, Clone, Copy, Debug)]
pub enum ColumnName {
    Id,
    Title,
    Description,
    InsertionTime,
    Status,
}

/// Why a row could not be mapped: the named column was absent, or present
/// but null.
#[derive(PartialEq, Eq, Structural, Clone, Copy, Debug)]
pub enum RowError {
    MissingColumn(ColumnName),
    NullColumn(ColumnName),
}

/// One result row, as the driver hands it over: each expected column in
/// one of its three states.  The row key arrives in its raw 128-bit form.
pub struct DbRow {
    pub id: Column<u128>,
    pub title: Column<String>,
    pub description: Column<String>,
    pub insertion_time: Column<i64>,
    pub status: Column<bool>,
}

impl DbRow {
    /// All five expected columns are present and non-null.
    pub open spec fn complete(self) -> bool {
        &&& self.id is Present
        &&& self.title is Present
        &&& self.description is Present
        &&& self.insertion_time is Present
        &&& self.status is Present
    }

    /// The first fault, in the order the mapper examines the columns:
    /// id, title, description, insertion_time, status.
    pub open spec fn fault(self) -> RowError {
        if self.id is Missing {
            RowError::MissingColumn(ColumnName::Id)
        } else if self.id is Null {
            RowError::NullColumn(ColumnName::Id)
        } else if self.title is Missing {
            RowError::MissingColumn(ColumnName::Title)
        } else if self.title is Null {
            RowError::NullColumn(ColumnName::Title)
        } else if self.description is Missing {
            RowError::MissingColumn(ColumnName::Description)
        } else if self.description is Null {
            RowError::NullColumn(ColumnName::Description)
        } else if self.insertion_time is Missing {
            RowError::MissingColumn(ColumnName::InsertionTime)
        } else if self.insertion_time is Null {
            RowError::NullColumn(ColumnName::InsertionTime)
        } else if self.status is Missing {
            RowError::MissingColumn(ColumnName::Status)
        } else {
            RowError::NullColumn(ColumnName::Status)
        }
    }
}

impl TodoData {
    /// Maps one result row to a record.  Succeeds exactly when every
    /// expected column is present and non-null; the id comes out in its
    /// canonical hyphenated string form.  On any fault the whole row is
    /// rejected with the first fault found, never defaulted.
    pub fn try_from_row(row: DbRow) -> (r: Result<TodoData, RowError>)
        ensures
            r is Ok <==> row.complete(),
            r matches Ok(t) ==> {
                &&& t.id@ == uuid_seq(row.id->Present_0)
                &&& is_uuid_seq(t.id@)
                &&& t.title@ == row.title->Present_0@
                &&& t.description@ == row.description->Present_0@
                &&& t.timestamp == row.insertion_time->Present_0
                &&& t.status == row.status->Present_0
            },
            r matches Err(e) ==> e == row.fault(),
    {
        let key: u128 = match row.id {
            Column::Missing => {
                return Err(RowError::MissingColumn(ColumnName::Id));
            },
            Column::Null => {
                return Err(RowError::NullColumn(ColumnName::Id));
            },
            Column::Present(v) => v,
        };
        let title: String = match row.title {
            Column::Missing => {
                return Err(RowError::MissingColumn(ColumnName::Title));
            },
            Column::Null => {
                return Err(RowError::NullColumn(ColumnName::Title));
            },
            Column::Present(v) => v,
        };
        let description: String = match row.description {
            Column::Missing => {
                return Err(RowError::MissingColumn(ColumnName::Description));
            },
            Column::Null => {
                return Err(RowError::NullColumn(ColumnName::Description));
            },
            Column::Present(v) => v,
        };
        let timestamp: i64 = match row.insertion_time {
            Column::Missing => {
                return Err(RowError::MissingColumn(ColumnName::InsertionTime));
            },
            Column::Null => {
                return Err(RowError::NullColumn(ColumnName::InsertionTime));
            },
            Column::Present(v) => v,
        };
        let status: bool = match row.status {
            Column::Missing => {
                return Err(RowError::MissingColumn(ColumnName::Status));
            },
            Column::Null => {
                return Err(RowError::NullColumn(ColumnName::Status));
            },
            Column::Present(v) => v,
        };
        let id = uuid_string(key);
        proof {
            lemma_uuid_seq_wf(key);
        }
        Ok(TodoData { id, title, description, timestamp, status })
    }
}

} // verus!
