//! What can go wrong when sessions are stored and read.
use vstd::prelude::*;
use vstd::string::StringExecFns;

use crate::names::{SessionId, SessionVersion};
use crate::text::{decimal, join};

verus! {

#[derive(Debug)]
pub enum StoreError {
    NotFound(SessionId),
    AlreadyExists(SessionId),
    Conflict { expected: SessionVersion, actual: SessionVersion },
    InvalidInput(String),
    InvalidData(String),
    Database(String),
}

/// A [`StoreError`] with its texts as sequences of characters.
pub enum StoreErrorView {
    NotFound(Seq<char>),
    AlreadyExists(Seq<char>),
    Conflict { expected: SessionVersion, actual: SessionVersion },
    InvalidInput(Seq<char>),
    InvalidData(Seq<char>),
    Database(Seq<char>),
}

impl View for StoreError {
    type V = StoreErrorView;

    open spec fn view(&self) -> StoreErrorView {
        match *self {
            StoreError::NotFound(id) => StoreErrorView::NotFound(id@),
            StoreError::AlreadyExists(id) => StoreErrorView::AlreadyExists(id@),
            StoreError::Conflict { expected, actual } => StoreErrorView::Conflict {
                expected,
                actual,
            },
            StoreError::InvalidInput(message) => StoreErrorView::InvalidInput(message@),
            StoreError::InvalidData(message) => StoreErrorView::InvalidData(message@),
            StoreError::Database(message) => StoreErrorView::Database(message@),
        }
    }
}

/// The views of what a fallible operation returned.
pub open spec fn seen<T: View>(result: Result<T, StoreError>) -> Result<T::V, StoreErrorView> {
    match result {
        Ok(value) => Ok(value@),
        Err(error) => Err(error@),
    }
}

impl StoreErrorView {
    /// The sentence that tells a user what went wrong.
    pub open spec fn message(self) -> Seq<char> {
        match self {
            StoreErrorView::NotFound(id) => "session `"@ + id + "` was not found"@,
            StoreErrorView::AlreadyExists(id) => "session `"@ + id + "` already exists"@,
            StoreErrorView::Conflict { expected, actual } => {
                "session version conflict: expected version "@ + decimal(expected.0 as nat)
                    + ", but current version is "@ + decimal(actual.0 as nat)
            },
            StoreErrorView::InvalidInput(text) => "invalid store input: "@ + text,
            StoreErrorView::InvalidData(text) => "stored data is invalid: "@ + text,
            StoreErrorView::Database(text) => "database error: "@ + text,
        }
    }
}

impl StoreError {
    /// The sentence that tells a user what went wrong.
    pub fn to_string(&self) -> (message: String)
        ensures
            message@ == self@.message(),
    {
        match self {
            StoreError::NotFound(id) => {
                let mut message: String = join("session `", id.as_str());
                message.append("` was not found");
                message
            },
            StoreError::AlreadyExists(id) => {
                let mut message: String = join("session `", id.as_str());
                message.append("` already exists");
                message
            },
            StoreError::Conflict { expected, actual } => {
                let mut message: String = join(
                    "session version conflict: expected version ",
                    expected.to_string().as_str(),
                );
                message.append(", but current version is ");
                message.append(actual.to_string().as_str());
                message
            },
            StoreError::InvalidInput(text) => join("invalid store input: ", text.as_str()),
            StoreError::InvalidData(text) => join("stored data is invalid: ", text.as_str()),
            StoreError::Database(text) => join("database error: ", text.as_str()),
        }
    }
}

/// The error for a failure that the database reported in the given words.
pub fn database_error(error: String) -> (failure: StoreError)
    ensures
        failure@ == StoreErrorView::Database(error@),
{
    StoreError::Database(error)
}

} // verus!
