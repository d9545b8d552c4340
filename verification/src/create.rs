//! Creating a session.
use vstd::prelude::*;

use crate::checks::validate_non_empty;
use crate::database::Database;
use crate::error::{database_error, seen, StoreError, StoreErrorView};
use crate::json::{encode_json, json_fits, json_text};
use crate::laws::sessions::{database_with, find};
use crate::names::SessionVersion;
use crate::session::{CreateSession, CreateSessionView, Session, SessionView};
use crate::statement::{Statement, StatementView};
use crate::text::is_blank;
use crate::time::{encode_timestamp, Timestamp};

verus! {

/// A session that is about to be added to the database.
pub struct PendingSession {
    session: Session,
    metadata: String,
    now: String,
}

/// How the database answered to the insertion of a session.
#[derive(Debug)]
pub enum Insertion {
    Inserted,
    /// There is a row with the same identifier.
    UniqueViolation,
    Failed(String),
}

/// An [`Insertion`] with its text as a sequence of characters.
pub enum InsertionView {
    Inserted,
    UniqueViolation,
    Failed(Seq<char>),
}

impl View for Insertion {
    type V = InsertionView;

    open spec fn view(&self) -> InsertionView {
        match *self {
            Insertion::Inserted => InsertionView::Inserted,
            Insertion::UniqueViolation => InsertionView::UniqueViolation,
            Insertion::Failed(error) => InsertionView::Failed(error@),
        }
    }
}

impl View for PendingSession {
    type V = SessionView;

    closed spec fn view(&self) -> SessionView {
        self.session@
    }
}

/// The session that a request asks for, made at a point in time.
pub open spec fn new_session(input: CreateSessionView, now: Timestamp) -> SessionView {
    SessionView {
        id: input.id,
        root_agent: input.root_agent,
        title: input.title,
        metadata: input.metadata,
        version: SessionVersion(0),
        created_at: now,
        updated_at: now,
    }
}

/// Why a request is refused, if it is. The identifier is looked at first.
pub open spec fn creation_refusal(input: CreateSessionView) -> Option<StoreErrorView> {
    if is_blank(input.id) {
        Some(StoreErrorView::InvalidInput("session id"@ + " cannot be empty"@))
    } else if is_blank(input.root_agent) {
        Some(StoreErrorView::InvalidInput("root agent"@ + " cannot be empty"@))
    } else {
        None
    }
}

/// The session that a request asks for, or why the request is refused.
pub open spec fn session_to_create(input: CreateSessionView, now: Timestamp) -> Result<
    SessionView,
    StoreErrorView,
> {
    match creation_refusal(input) {
        Some(error) => Err(error),
        None => Ok(new_session(input, now)),
    }
}

/// The statement that adds a session.
pub open spec fn insertion_of(session: SessionView) -> StatementView {
    StatementView::InsertSession {
        id: session.id,
        root_agent: session.root_agent,
        title: session.title,
        metadata: json_text(session.metadata),
        created_at: session.created_at.text(),
        updated_at: session.updated_at.text(),
    }
}

/// What a caller is told when the database has answered.
pub open spec fn creation_outcome(session: SessionView, answer: InsertionView) -> Result<
    SessionView,
    StoreErrorView,
> {
    match answer {
        InsertionView::Inserted => Ok(session),
        InsertionView::UniqueViolation => Err(StoreErrorView::AlreadyExists(session.id)),
        InsertionView::Failed(error) => Err(StoreErrorView::Database(error)),
    }
}

/// Whether a session that was added to a database is found as it is, as long as nobody writes to
/// it. Its metadata are taken to be nested no deeper than the limit.
pub open spec fn is_found_again(session: SessionView, database: Database, later: Database) -> bool {
    json_fits(session.metadata) && !database.sessions.contains_key(session.id) && database_with(
        database,
        session,
    ).keeps(later, session.id) ==> find(later, session.id) == Ok::<
        Option<SessionView>,
        StoreErrorView,
    >(Some(session))
}

/// Starts to create a session now. The clock is read once the request has been looked at.
///
/// A session that is added to a database is found there as it was returned, down to the nanosecond,
/// until somebody writes to it. That holds of metadata that are nested no deeper than
/// [`crate::nesting::NESTING_LIMIT`], and in the years up to 9999, which chrono reads back from
/// their text.
pub fn create_session(input: CreateSession) -> (started: Result<PendingSession, StoreError>)
    ensures
        match creation_refusal(input@) {
            Some(error) => seen(started) == Err::<SessionView, StoreErrorView>(error),
            None => exists|now: Timestamp|
                {
                    &&& #[trigger] call_ensures(Timestamp::now, (), now)
                    &&& seen(started) == Ok::<SessionView, StoreErrorView>(
                        new_session(input@, now),
                    )
                },
        },
        started is Ok && started->Ok_0@.created_at.has_plain_year() ==> forall|
            database: Database,
            later: Database,
        | #[trigger]
            is_found_again(started->Ok_0@, database, later),
{
    check_request(&input)?;
    let now: Timestamp = Timestamp::now();
    pending_session(input, now)
}

/// Starts to create a session at a point in time.
///
/// A session that is added to a database is found there as it was returned, down to the nanosecond,
/// until somebody writes to it. That holds of metadata that are nested no deeper than
/// [`crate::nesting::NESTING_LIMIT`], and in the years from 0 to 9999, which chrono reads back from
/// their text.
pub fn create_session_at(input: CreateSession, now: Timestamp) -> (started: Result<
    PendingSession,
    StoreError,
>)
    requires
        now.valid(),
    ensures
        seen(started) == session_to_create(input@, now),
        started is Ok && now.has_plain_year() ==> forall|database: Database, later: Database|
            #[trigger] is_found_again(started->Ok_0@, database, later),
{
    check_request(&input)?;
    pending_session(input, now)
}

fn check_request(input: &CreateSession) -> (checked: Result<(), StoreError>)
    ensures
        match creation_refusal(input@) {
            Some(error) => checked matches Err(refusal) && refusal@ == error,
            None => checked is Ok,
        },
{
    validate_non_empty("session id", input.id.as_str())?;
    validate_non_empty("root agent", input.root_agent.as_str())
}

fn pending_session(input: CreateSession, now: Timestamp) -> (started: Result<
    PendingSession,
    StoreError,
>)
    requires
        now.valid(),
    ensures
        seen(started) == Ok::<SessionView, StoreErrorView>(new_session(input@, now)),
        now.has_plain_year() ==> forall|database: Database, later: Database| #[trigger]
            is_found_again(started->Ok_0@, database, later),
{
    let metadata: String = encode_json(
        "session metadata could not be serialized: ",
        &input.metadata,
    )?;
    let encoded_now: String = encode_timestamp(now);
    let ghost session = new_session(input@, now);
    proof {
        assert(now.has_plain_year() ==> forall|database: Database, later: Database| #[trigger]
            is_found_again(session, database, later));
    }
    Ok(
        PendingSession {
            session: Session {
                id: input.id,
                root_agent: input.root_agent,
                title: input.title,
                metadata: input.metadata,
                version: SessionVersion::initial(),
                created_at: now,
                updated_at: now,
            },
            metadata,
            now: encoded_now,
        },
    )
}

impl PendingSession {
    /// Whether the texts for the database belong to the session.
    #[verifier::type_invariant]
    spec fn ready(self) -> bool {
        &&& self.metadata@ == json_text(self.session.metadata)
        &&& self.now@ == self.session.created_at.text()
        &&& self.now@ == self.session.updated_at.text()
    }

    /// The statement to execute.
    pub fn statement(&self) -> (statement: Statement)
        ensures
            statement@ == insertion_of(self@),
    {
        proof {
            use_type_invariant(self);
        }
        Statement::InsertSession {
            id: self.session.id.to_string(),
            root_agent: self.session.root_agent.to_string(),
            title: self.session.title.clone(),
            metadata: self.metadata.clone(),
            created_at: self.now.clone(),
            updated_at: self.now.clone(),
        }
    }

    /// What to tell the caller when the database has answered.
    pub fn finish(self, answer: Insertion) -> (outcome: Result<Session, StoreError>)
        ensures
            seen(outcome) == creation_outcome(self@, answer@),
    {
        match answer {
            Insertion::Inserted => Ok(self.session),
            Insertion::UniqueViolation => Err(StoreError::AlreadyExists(self.session.id)),
            Insertion::Failed(error) => Err(database_error(error)),
        }
    }
}

} // verus!
