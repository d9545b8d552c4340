//! Deleting a session.
use vstd::prelude::*;

use crate::error::{database_error, seen, StoreError, StoreErrorView};
use crate::names::SessionId;
use crate::statement::{Statement, StatementView};

verus! {

/// The statement that removes a session and its events.
pub fn delete_session(id: &SessionId) -> (statement: Statement)
    ensures
        statement@ == (StatementView::DeleteSession { id: id@ }),
{
    Statement::DeleteSession { id: id.to_string() }
}

/// What a caller is told when the database has said how many sessions it removed.
pub open spec fn deletion_outcome(id: Seq<char>, answer: Result<u64, Seq<char>>) -> Result<
    (),
    StoreErrorView,
> {
    match answer {
        Ok(affected) => if affected == 0 {
            Err(StoreErrorView::NotFound(id))
        } else {
            Ok(())
        },
        Err(error) => Err(StoreErrorView::Database(error)),
    }
}

/// The view of a number of rows, or of the words of the database.
pub open spec fn affected_answer(answer: Result<u64, String>) -> Result<u64, Seq<char>> {
    match answer {
        Ok(affected) => Ok(affected),
        Err(error) => Err(error@),
    }
}

/// What to tell the caller when the database has said how many sessions it removed.
pub fn deleted_session(id: &SessionId, answer: Result<u64, String>) -> (outcome: Result<
    (),
    StoreError,
>)
    ensures
        seen(outcome) == deletion_outcome(id@, affected_answer(answer)),
{
    match answer {
        Ok(affected) => {
            if affected == 0 {
                Err(StoreError::NotFound(id.clone()))
            } else {
                Ok(())
            }
        },
        Err(error) => Err(database_error(error)),
    }
}

} // verus!
