//! What the datastore answers, as the handlers read it.

use vstd::prelude::*;
use crate::model::{notes_view, NoteModel, NoteView};

verus! {

/// A failure of the datastore, reduced to what the handlers read of it.
#[derive(Clone, Debug, PartialEq, Eq)]
pub struct DbError {
    /// The query expected a row and the datastore had none.
    pub row_not_found: bool,
    /// The error as it describes itself to a user.
    pub display: String,
    /// The error as it describes itself to a developer.
    pub debug: String,
}

/// The mathematical value of a [`DbError`].
pub struct DbErrorView {
    pub row_not_found: bool,
    pub display: Seq<char>,
    pub debug: Seq<char>,
}

impl View for DbError {
    type V = DbErrorView;

    open spec fn view(&self) -> DbErrorView {
        DbErrorView {
            row_not_found: self.row_not_found,
            display: self.display@,
            debug: self.debug@,
        }
    }
}

/// The value of the answer to a query for one row.
pub open spec fn row_view(answer: Result<NoteModel, DbError>) -> Result<NoteView, DbErrorView> {
    match answer {
        Ok(note) => Ok(note@),
        Err(error) => Err(error@),
    }
}

/// The value of the answer to a query for several rows.
pub open spec fn rows_view(answer: Result<Vec<NoteModel>, DbError>) -> Result<
    Seq<NoteView>,
    DbErrorView,
> {
    match answer {
        Ok(notes) => Ok(notes_view(notes@)),
        Err(error) => Err(error@),
    }
}

/// The value of the answer to a statement: the number of rows it affected.
pub open spec fn affected_view(answer: Result<u64, DbError>) -> Result<u64, DbErrorView> {
    match answer {
        Ok(rows) => Ok(rows),
        Err(error) => Err(error@),
    }
}

} // verus!
