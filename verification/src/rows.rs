//! Rows that the database hands out, and what they mean.
//!
//! A column of a row holds its value, or the words in which the database refused to give it.
use serde_json::Value;
use vstd::prelude::*;

use crate::checks::{number_from_sql, sql_to_integer};
use crate::error::{database_error, seen, StoreError, StoreErrorView};
use crate::json::{decode_json, json_from};
use crate::names::{AgentName, EventKind, EventSequence, SessionId, SessionVersion};
use crate::session::{
    optional_text, Session, SessionSummary, SessionSummaryView, SessionView, StoredEvent,
    StoredEventView,
};
use crate::time::{decode_timestamp, timestamp_from, Timestamp};

verus! {

/// A row of the sessions table.
#[derive(Debug)]
pub struct SessionRow {
    pub id: Result<String, String>,
    pub root_agent: Result<String, String>,
    pub title: Result<Option<String>, String>,
    pub metadata: Result<String, String>,
    pub version: Result<i64, String>,
    pub created_at: Result<String, String>,
    pub updated_at: Result<String, String>,
}

/// A row of the sessions table without the metadata.
#[derive(Debug)]
pub struct SummaryRow {
    pub id: Result<String, String>,
    pub root_agent: Result<String, String>,
    pub title: Result<Option<String>, String>,
    pub version: Result<i64, String>,
    pub created_at: Result<String, String>,
    pub updated_at: Result<String, String>,
}

/// A row of the events table without the session.
#[derive(Debug)]
pub struct EventRow {
    pub sequence: Result<i64, String>,
    pub kind: Result<String, String>,
    pub payload: Result<String, String>,
    pub created_at: Result<String, String>,
}

/// A [`SessionRow`] with its texts as sequences of characters.
pub struct SessionRowView {
    pub id: Result<Seq<char>, Seq<char>>,
    pub root_agent: Result<Seq<char>, Seq<char>>,
    pub title: Result<Option<Seq<char>>, Seq<char>>,
    pub metadata: Result<Seq<char>, Seq<char>>,
    pub version: Result<i64, Seq<char>>,
    pub created_at: Result<Seq<char>, Seq<char>>,
    pub updated_at: Result<Seq<char>, Seq<char>>,
}

/// A [`SummaryRow`] with its texts as sequences of characters.
pub struct SummaryRowView {
    pub id: Result<Seq<char>, Seq<char>>,
    pub root_agent: Result<Seq<char>, Seq<char>>,
    pub title: Result<Option<Seq<char>>, Seq<char>>,
    pub version: Result<i64, Seq<char>>,
    pub created_at: Result<Seq<char>, Seq<char>>,
    pub updated_at: Result<Seq<char>, Seq<char>>,
}

/// An [`EventRow`] with its texts as sequences of characters.
pub struct EventRowView {
    pub sequence: Result<i64, Seq<char>>,
    pub kind: Result<Seq<char>, Seq<char>>,
    pub payload: Result<Seq<char>, Seq<char>>,
    pub created_at: Result<Seq<char>, Seq<char>>,
}

/// The characters of a text column.
pub open spec fn text_column(column: Result<String, String>) -> Result<Seq<char>, Seq<char>> {
    match column {
        Ok(text) => Ok(text@),
        Err(error) => Err(error@),
    }
}

/// The characters of a text column that may be null.
pub open spec fn optional_column(column: Result<Option<String>, String>) -> Result<
    Option<Seq<char>>,
    Seq<char>,
> {
    match column {
        Ok(text) => Ok(optional_text(text)),
        Err(error) => Err(error@),
    }
}

/// The number of an integer column.
pub open spec fn integer_column(column: Result<i64, String>) -> Result<i64, Seq<char>> {
    match column {
        Ok(number) => Ok(number),
        Err(error) => Err(error@),
    }
}

impl View for SessionRow {
    type V = SessionRowView;

    open spec fn view(&self) -> SessionRowView {
        SessionRowView {
            id: text_column(self.id),
            root_agent: text_column(self.root_agent),
            title: optional_column(self.title),
            metadata: text_column(self.metadata),
            version: integer_column(self.version),
            created_at: text_column(self.created_at),
            updated_at: text_column(self.updated_at),
        }
    }
}

impl View for SummaryRow {
    type V = SummaryRowView;

    open spec fn view(&self) -> SummaryRowView {
        SummaryRowView {
            id: text_column(self.id),
            root_agent: text_column(self.root_agent),
            title: optional_column(self.title),
            version: integer_column(self.version),
            created_at: text_column(self.created_at),
            updated_at: text_column(self.updated_at),
        }
    }
}

impl View for EventRow {
    type V = EventRowView;

    open spec fn view(&self) -> EventRowView {
        EventRowView {
            sequence: integer_column(self.sequence),
            kind: text_column(self.kind),
            payload: text_column(self.payload),
            created_at: text_column(self.created_at),
        }
    }
}

impl SessionRowView {
    /// The row without the metadata.
    pub open spec fn summary(self) -> SummaryRowView {
        SummaryRowView {
            id: self.id,
            root_agent: self.root_agent,
            title: self.title,
            version: self.version,
            created_at: self.created_at,
            updated_at: self.updated_at,
        }
    }
}

/// What a column holds, or the error for what the database said of it.
pub open spec fn held<T>(column: Result<T, Seq<char>>) -> Result<T, StoreErrorView> {
    match column {
        Ok(value) => Ok(value),
        Err(error) => Err(StoreErrorView::Database(error)),
    }
}

/// The number that a column stands for.
pub open spec fn number_held(field: Seq<char>, column: Result<i64, Seq<char>>) -> Result<
    u64,
    StoreErrorView,
> {
    match column {
        Ok(value) => number_from_sql(field, value),
        Err(error) => Err(StoreErrorView::Database(error)),
    }
}

/// The point in time that a column stands for.
pub open spec fn timestamp_held(
    field: Seq<char>,
    column: Result<Seq<char>, Seq<char>>,
) -> Result<Timestamp, StoreErrorView> {
    match column {
        Ok(value) => timestamp_from(field, value),
        Err(error) => Err(StoreErrorView::Database(error)),
    }
}

/// The JSON value that a column stands for.
pub open spec fn json_held(field: Seq<char>, column: Result<Seq<char>, Seq<char>>) -> Result<
    Value,
    StoreErrorView,
> {
    match column {
        Ok(value) => json_from(field, value),
        Err(error) => Err(StoreErrorView::Database(error)),
    }
}

/// The error of the first result, if it is one, and else the error of the second.
pub open spec fn or_error<T>(
    first: Result<T, StoreErrorView>,
    second: Option<StoreErrorView>,
) -> Option<StoreErrorView> {
    match first {
        Ok(_) => second,
        Err(error) => Some(error),
    }
}

/// The session that a row stands for, or the error of its first faulty column. The metadata come
/// first.
pub open spec fn session_in(row: SessionRowView) -> Result<SessionView, StoreErrorView> {
    let metadata = json_held("session metadata"@, row.metadata);
    let id = held(row.id);
    let root_agent = held(row.root_agent);
    let title = held(row.title);
    let version = number_held("session version"@, row.version);
    let created_at = timestamp_held("session created_at"@, row.created_at);
    let updated_at = timestamp_held("session updated_at"@, row.updated_at);
    let fault = or_error(
        metadata,
        or_error(
            id,
            or_error(
                root_agent,
                or_error(
                    title,
                    or_error(version, or_error(created_at, or_error(updated_at, None))),
                ),
            ),
        ),
    );
    match fault {
        Some(error) => Err(error),
        None => Ok(
            SessionView {
                id: id->Ok_0,
                root_agent: root_agent->Ok_0,
                title: title->Ok_0,
                metadata: metadata->Ok_0,
                version: SessionVersion(version->Ok_0),
                created_at: created_at->Ok_0,
                updated_at: updated_at->Ok_0,
            },
        ),
    }
}

/// The summary that a row stands for, or the error of its first faulty column.
pub open spec fn summary_in(row: SummaryRowView) -> Result<SessionSummaryView, StoreErrorView> {
    let id = held(row.id);
    let root_agent = held(row.root_agent);
    let title = held(row.title);
    let version = number_held("session version"@, row.version);
    let created_at = timestamp_held("session created_at"@, row.created_at);
    let updated_at = timestamp_held("session updated_at"@, row.updated_at);
    let fault = or_error(
        id,
        or_error(
            root_agent,
            or_error(title, or_error(version, or_error(created_at, or_error(updated_at, None)))),
        ),
    );
    match fault {
        Some(error) => Err(error),
        None => Ok(
            SessionSummaryView {
                id: id->Ok_0,
                root_agent: root_agent->Ok_0,
                title: title->Ok_0,
                version: SessionVersion(version->Ok_0),
                created_at: created_at->Ok_0,
                updated_at: updated_at->Ok_0,
            },
        ),
    }
}

/// The event that a row stands for, or the error of its first faulty column. The payload comes
/// first.
pub open spec fn event_in(session_id: Seq<char>, row: EventRowView) -> Result<
    StoredEventView,
    StoreErrorView,
> {
    let payload = json_held("event payload"@, row.payload);
    let sequence = number_held("event sequence"@, row.sequence);
    let kind = held(row.kind);
    let created_at = timestamp_held("event created_at"@, row.created_at);
    let fault = or_error(
        payload,
        or_error(sequence, or_error(kind, or_error(created_at, None))),
    );
    match fault {
        Some(error) => Err(error),
        None => Ok(
            StoredEventView {
                session_id,
                sequence: EventSequence(sequence->Ok_0),
                kind: kind->Ok_0,
                payload: payload->Ok_0,
                created_at: created_at->Ok_0,
            },
        ),
    }
}

fn take<T>(column: Result<T, String>) -> (value: Result<T, StoreError>)
    ensures
        match column {
            Ok(held) => value == Ok::<T, StoreError>(held),
            Err(error) => value matches Err(failure) && failure@ == StoreErrorView::Database(
                error@,
            ),
        },
{
    match column {
        Ok(value) => Ok(value),
        Err(error) => Err(database_error(error)),
    }
}

fn take_number(field: &str, column: Result<i64, String>) -> (number: Result<u64, StoreError>)
    ensures
        seen(number) == number_held(field@, integer_column(column)),
{
    sql_to_integer(field, take(column)?)
}

fn take_timestamp(field: &str, column: Result<String, String>) -> (timestamp: Result<
    Timestamp,
    StoreError,
>)
    ensures
        seen(timestamp) == timestamp_held(field@, text_column(column)),
        timestamp matches Ok(point) ==> point.valid(),
{
    decode_timestamp(field, take(column)?.as_str())
}

fn take_json(field: &str, column: Result<String, String>) -> (json: Result<Value, StoreError>)
    ensures
        match json {
            Ok(value) => json_held(field@, text_column(column)) == Ok::<Value, StoreErrorView>(
                value,
            ),
            Err(error) => json_held(field@, text_column(column)) == Err::<Value, StoreErrorView>(
                error@,
            ),
        },
{
    decode_json(field, take(column)?.as_str())
}

/// The session that a row stands for.
pub fn session_from_row(row: SessionRow) -> (session: Result<Session, StoreError>)
    ensures
        seen(session) == session_in(row@),
        session matches Ok(found) ==> found.created_at.valid() && found.updated_at.valid(),
{
    let metadata: Value = take_json("session metadata", row.metadata)?;
    Ok(
        Session {
            id: SessionId::from(take(row.id)?),
            root_agent: AgentName::from(take(row.root_agent)?),
            title: take(row.title)?,
            metadata,
            version: SessionVersion(take_number("session version", row.version)?),
            created_at: take_timestamp("session created_at", row.created_at)?,
            updated_at: take_timestamp("session updated_at", row.updated_at)?,
        },
    )
}

/// The summary that a row stands for.
pub fn session_summary_from_row(row: SummaryRow) -> (summary: Result<SessionSummary, StoreError>)
    ensures
        seen(summary) == summary_in(row@),
        summary matches Ok(found) ==> found.created_at.valid() && found.updated_at.valid(),
{
    Ok(
        SessionSummary {
            id: SessionId::from(take(row.id)?),
            root_agent: AgentName::from(take(row.root_agent)?),
            title: take(row.title)?,
            version: SessionVersion(take_number("session version", row.version)?),
            created_at: take_timestamp("session created_at", row.created_at)?,
            updated_at: take_timestamp("session updated_at", row.updated_at)?,
        },
    )
}

/// The event of the session that a row stands for.
pub fn event_from_row(session_id: &SessionId, row: EventRow) -> (event: Result<
    StoredEvent,
    StoreError,
>)
    ensures
        seen(event) == event_in(session_id@, row@),
        event matches Ok(found) ==> found.created_at.valid(),
{
    let payload: Value = take_json("event payload", row.payload)?;
    Ok(
        StoredEvent {
            session_id: session_id.clone(),
            sequence: EventSequence(take_number("event sequence", row.sequence)?),
            kind: EventKind::from(take(row.kind)?),
            payload,
            created_at: take_timestamp("event created_at", row.created_at)?,
        },
    )
}

} // verus!
