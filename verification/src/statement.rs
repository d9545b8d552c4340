//! The SQL statements of the store, with the values that are bound to them.
use vstd::prelude::*;

use crate::session::optional_text;

verus! {

/// The tables of the store. Removing a session removes its events.
pub const SCHEMA: &'static str = "
CREATE TABLE sessions (
    id TEXT PRIMARY KEY NOT NULL,
    root_agent TEXT NOT NULL,
    title TEXT,
    metadata TEXT NOT NULL,
    version INTEGER NOT NULL,
    created_at TEXT NOT NULL,
    updated_at TEXT NOT NULL
);

CREATE TABLE events (
    session_id TEXT NOT NULL REFERENCES sessions (id) ON DELETE CASCADE,
    sequence INTEGER NOT NULL,
    kind TEXT NOT NULL,
    payload TEXT NOT NULL,
    created_at TEXT NOT NULL,
    PRIMARY KEY (session_id, sequence)
);
";

pub const INSERT_SESSION: &'static str = "
INSERT INTO sessions (
    id, root_agent, title, metadata, version, created_at, updated_at
)
VALUES (?, ?, ?, ?, 0, ?, ?)
";

pub const SELECT_SESSION: &'static str = "
SELECT id, root_agent, title, metadata, version, created_at, updated_at
FROM sessions
WHERE id = ?
";

pub const SELECT_LATEST_SESSION: &'static str = "
SELECT id, root_agent, title, metadata, version, created_at, updated_at
FROM sessions
WHERE root_agent = ?
ORDER BY updated_at DESC, id DESC
LIMIT 1
";

pub const SELECT_SUMMARIES_OF_AGENT: &'static str = "
SELECT id, root_agent, title, version, created_at, updated_at
FROM sessions
WHERE root_agent = ?
ORDER BY updated_at DESC, id DESC
LIMIT ?
";

pub const SELECT_SUMMARIES: &'static str = "
SELECT id, root_agent, title, version, created_at, updated_at
FROM sessions
ORDER BY updated_at DESC, id DESC
LIMIT ?
";

pub const SELECT_SESSION_EXISTS: &'static str = "SELECT 1 FROM sessions WHERE id = ?";

pub const SELECT_EVENTS: &'static str = "
SELECT sequence, kind, payload, created_at
FROM events
WHERE session_id = ? AND sequence > ?
ORDER BY sequence ASC
";

pub const UPDATE_SESSION: &'static str = "
UPDATE sessions
SET version = ?, updated_at = ?
WHERE id = ? AND version = ?
";

pub const SELECT_VERSION: &'static str = "SELECT version FROM sessions WHERE id = ?";

pub const INSERT_EVENT: &'static str = "
INSERT INTO events (session_id, sequence, kind, payload, created_at)
VALUES (?, ?, ?, ?, ?)
";

pub const DELETE_SESSION: &'static str = "DELETE FROM sessions WHERE id = ?";

/// A statement with its values.
#[derive(Debug)]
pub enum Statement {
    /// Adds a session without events.
    InsertSession {
        id: String,
        root_agent: String,
        title: Option<String>,
        metadata: String,
        created_at: String,
        updated_at: String,
    },
    /// Finds a session.
    SelectSession { id: String },
    /// Finds the session of an agent that was updated last.
    SelectLatestSession { root_agent: String },
    /// Lists sessions of an agent, the ones that were updated last first.
    SelectSummariesOfAgent { root_agent: String, limit: i64 },
    /// Lists sessions, the ones that were updated last first.
    SelectSummaries { limit: i64 },
    /// Finds out whether there is a session.
    SelectSessionExists { id: String },
    /// Lists the events of a session past a sequence number.
    SelectEvents { session_id: String, after: i64 },
    /// Moves a session from one version to another.
    UpdateSession { version: i64, updated_at: String, id: String, expected: i64 },
    /// Finds the version of a session.
    SelectVersion { id: String },
    /// Adds an event.
    InsertEvent {
        session_id: String,
        sequence: i64,
        kind: String,
        payload: String,
        created_at: String,
    },
    /// Removes a session, and its events with it.
    DeleteSession { id: String },
}

/// A [`Statement`] with its texts as sequences of characters.
pub enum StatementView {
    InsertSession {
        id: Seq<char>,
        root_agent: Seq<char>,
        title: Option<Seq<char>>,
        metadata: Seq<char>,
        created_at: Seq<char>,
        updated_at: Seq<char>,
    },
    SelectSession { id: Seq<char> },
    SelectLatestSession { root_agent: Seq<char> },
    SelectSummariesOfAgent { root_agent: Seq<char>, limit: i64 },
    SelectSummaries { limit: i64 },
    SelectSessionExists { id: Seq<char> },
    SelectEvents { session_id: Seq<char>, after: i64 },
    UpdateSession { version: i64, updated_at: Seq<char>, id: Seq<char>, expected: i64 },
    SelectVersion { id: Seq<char> },
    InsertEvent {
        session_id: Seq<char>,
        sequence: i64,
        kind: Seq<char>,
        payload: Seq<char>,
        created_at: Seq<char>,
    },
    DeleteSession { id: Seq<char> },
}

impl View for Statement {
    type V = StatementView;

    open spec fn view(&self) -> StatementView {
        match *self {
            Statement::InsertSession {
                id,
                root_agent,
                title,
                metadata,
                created_at,
                updated_at,
            } => StatementView::InsertSession {
                id: id@,
                root_agent: root_agent@,
                title: optional_text(title),
                metadata: metadata@,
                created_at: created_at@,
                updated_at: updated_at@,
            },
            Statement::SelectSession { id } => StatementView::SelectSession { id: id@ },
            Statement::SelectLatestSession { root_agent } => StatementView::SelectLatestSession {
                root_agent: root_agent@,
            },
            Statement::SelectSummariesOfAgent { root_agent, limit } => {
                StatementView::SelectSummariesOfAgent { root_agent: root_agent@, limit }
            },
            Statement::SelectSummaries { limit } => StatementView::SelectSummaries { limit },
            Statement::SelectSessionExists { id } => StatementView::SelectSessionExists {
                id: id@,
            },
            Statement::SelectEvents { session_id, after } => StatementView::SelectEvents {
                session_id: session_id@,
                after,
            },
            Statement::UpdateSession { version, updated_at, id, expected } => {
                StatementView::UpdateSession {
                    version,
                    updated_at: updated_at@,
                    id: id@,
                    expected,
                }
            },
            Statement::SelectVersion { id } => StatementView::SelectVersion { id: id@ },
            Statement::InsertEvent { session_id, sequence, kind, payload, created_at } => {
                StatementView::InsertEvent {
                    session_id: session_id@,
                    sequence,
                    kind: kind@,
                    payload: payload@,
                    created_at: created_at@,
                }
            },
            Statement::DeleteSession { id } => StatementView::DeleteSession { id: id@ },
        }
    }
}

/// A value that takes the place of a question mark in a statement.
#[derive(Debug)]
pub enum Parameter {
    Text(String),
    OptionalText(Option<String>),
    Integer(i64),
}

/// A [`Parameter`] with its text as a sequence of characters.
pub enum ParameterView {
    Text(Seq<char>),
    OptionalText(Option<Seq<char>>),
    Integer(i64),
}

impl View for Parameter {
    type V = ParameterView;

    open spec fn view(&self) -> ParameterView {
        match *self {
            Parameter::Text(text) => ParameterView::Text(text@),
            Parameter::OptionalText(text) => ParameterView::OptionalText(optional_text(text)),
            Parameter::Integer(number) => ParameterView::Integer(number),
        }
    }
}

impl StatementView {
    /// The SQL text.
    pub open spec fn sql(self) -> Seq<char> {
        match self {
            StatementView::InsertSession { .. } => INSERT_SESSION@,
            StatementView::SelectSession { .. } => SELECT_SESSION@,
            StatementView::SelectLatestSession { .. } => SELECT_LATEST_SESSION@,
            StatementView::SelectSummariesOfAgent { .. } => SELECT_SUMMARIES_OF_AGENT@,
            StatementView::SelectSummaries { .. } => SELECT_SUMMARIES@,
            StatementView::SelectSessionExists { .. } => SELECT_SESSION_EXISTS@,
            StatementView::SelectEvents { .. } => SELECT_EVENTS@,
            StatementView::UpdateSession { .. } => UPDATE_SESSION@,
            StatementView::SelectVersion { .. } => SELECT_VERSION@,
            StatementView::InsertEvent { .. } => INSERT_EVENT@,
            StatementView::DeleteSession { .. } => DELETE_SESSION@,
        }
    }

    /// The values for the question marks, from the first to the last.
    pub open spec fn parameters(self) -> Seq<ParameterView> {
        match self {
            StatementView::InsertSession {
                id,
                root_agent,
                title,
                metadata,
                created_at,
                updated_at,
            } => seq![
                ParameterView::Text(id),
                ParameterView::Text(root_agent),
                ParameterView::OptionalText(title),
                ParameterView::Text(metadata),
                ParameterView::Text(created_at),
                ParameterView::Text(updated_at),
            ],
            StatementView::SelectSession { id } => seq![ParameterView::Text(id)],
            StatementView::SelectLatestSession { root_agent } => seq![
                ParameterView::Text(root_agent),
            ],
            StatementView::SelectSummariesOfAgent { root_agent, limit } => seq![
                ParameterView::Text(root_agent),
                ParameterView::Integer(limit),
            ],
            StatementView::SelectSummaries { limit } => seq![ParameterView::Integer(limit)],
            StatementView::SelectSessionExists { id } => seq![ParameterView::Text(id)],
            StatementView::SelectEvents { session_id, after } => seq![
                ParameterView::Text(session_id),
                ParameterView::Integer(after),
            ],
            StatementView::UpdateSession { version, updated_at, id, expected } => seq![
                ParameterView::Integer(version),
                ParameterView::Text(updated_at),
                ParameterView::Text(id),
                ParameterView::Integer(expected),
            ],
            StatementView::SelectVersion { id } => seq![ParameterView::Text(id)],
            StatementView::InsertEvent { session_id, sequence, kind, payload, created_at } => seq![
                ParameterView::Text(session_id),
                ParameterView::Integer(sequence),
                ParameterView::Text(kind),
                ParameterView::Text(payload),
                ParameterView::Text(created_at),
            ],
            StatementView::DeleteSession { id } => seq![ParameterView::Text(id)],
        }
    }
}

impl Statement {
    /// The SQL text.
    pub fn sql(&self) -> (sql: &'static str)
        ensures
            sql@ == self@.sql(),
    {
        match self {
            Statement::InsertSession { .. } => INSERT_SESSION,
            Statement::SelectSession { .. } => SELECT_SESSION,
            Statement::SelectLatestSession { .. } => SELECT_LATEST_SESSION,
            Statement::SelectSummariesOfAgent { .. } => SELECT_SUMMARIES_OF_AGENT,
            Statement::SelectSummaries { .. } => SELECT_SUMMARIES,
            Statement::SelectSessionExists { .. } => SELECT_SESSION_EXISTS,
            Statement::SelectEvents { .. } => SELECT_EVENTS,
            Statement::UpdateSession { .. } => UPDATE_SESSION,
            Statement::SelectVersion { .. } => SELECT_VERSION,
            Statement::InsertEvent { .. } => INSERT_EVENT,
            Statement::DeleteSession { .. } => DELETE_SESSION,
        }
    }

    /// The values for the question marks, from the first to the last.
    pub fn parameters(self) -> (parameters: Vec<Parameter>)
        ensures
            parameters@.map_values(|parameter: Parameter| parameter@) == self@.parameters(),
    {
        let parameters: Vec<Parameter> = match self {
            Statement::InsertSession {
                id,
                root_agent,
                title,
                metadata,
                created_at,
                updated_at,
            } => vec![
                Parameter::Text(id),
                Parameter::Text(root_agent),
                Parameter::OptionalText(title),
                Parameter::Text(metadata),
                Parameter::Text(created_at),
                Parameter::Text(updated_at),
            ],
            Statement::SelectSession { id } => vec![Parameter::Text(id)],
            Statement::SelectLatestSession { root_agent } => vec![Parameter::Text(root_agent)],
            Statement::SelectSummariesOfAgent { root_agent, limit } => vec![
                Parameter::Text(root_agent),
                Parameter::Integer(limit),
            ],
            Statement::SelectSummaries { limit } => vec![Parameter::Integer(limit)],
            Statement::SelectSessionExists { id } => vec![Parameter::Text(id)],
            Statement::SelectEvents { session_id, after } => vec![
                Parameter::Text(session_id),
                Parameter::Integer(after),
            ],
            Statement::UpdateSession { version, updated_at, id, expected } => vec![
                Parameter::Integer(version),
                Parameter::Text(updated_at),
                Parameter::Text(id),
                Parameter::Integer(expected),
            ],
            Statement::SelectVersion { id } => vec![Parameter::Text(id)],
            Statement::InsertEvent { session_id, sequence, kind, payload, created_at } => vec![
                Parameter::Text(session_id),
                Parameter::Integer(sequence),
                Parameter::Text(kind),
                Parameter::Text(payload),
                Parameter::Text(created_at),
            ],
            Statement::DeleteSession { id } => vec![Parameter::Text(id)],
        };
        assert(parameters@.map_values(|parameter: Parameter| parameter@) =~= self@.parameters());
        parameters
    }
}

} // verus!
