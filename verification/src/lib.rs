//! Conversation sessions kept in SQLite.
//!
//! A session belongs to an agent and holds events, numbered from one. Its version is the number of
//! its last event. Events are appended in batches: a writer names the version that it expects the
//! session to be at, and the batch is appended whole, or, if the session is at another version, not
//! at all.
//!
//! The library decides, and leaves the talking to the database to its caller. An operation starts
//! with a function that checks what it was given and says which [`statement::Statement`] to
//! execute; another function takes what the database answered and says what the operation returns.
//! Operations with several steps are values with an `action`, which says what to do next, and an
//! `advance`, which takes the answer: [`connection::OpenStore`] and [`append::AppendEvents`].
//!
//! | Operation | Starts with | Goes on with |
//! |---|---|---|
//! | opening a database | [`connection::open`], [`connection::in_memory`] | [`connection::OpenStore::advance`] |
//! | creating a session | [`create::create_session`] | [`create::PendingSession::finish`] |
//! | finding a session | [`lookup::get_session`], [`lookup::latest_session`] | [`lookup::found_session`] |
//! | listing sessions | [`lookup::list_sessions`] | [`lookup::found_summaries`] |
//! | reading events | [`events::read_events`] | [`events::events_after`], [`events::found_events`] |
//! | appending events | [`append::append_events`] | [`append::AppendEvents::advance`] |
//! | deleting a session | [`delete::delete_session`] | [`delete::deleted_session`] |
//!
//! What the statements do to the tables is modelled in [`database`], and what follows for the
//! operations together is stated and proved in [`laws`].
pub mod append;
pub mod checks;
pub mod connection;
pub mod create;
pub mod database;
pub mod delete;
pub mod error;
pub mod events;
pub mod identifiers;
pub mod json;
pub mod laws;
pub mod lookup;
pub mod names;
pub mod nesting;
pub mod order;
pub mod rows;
pub mod session;
pub mod statement;
pub mod text;
pub mod time;

pub use error::StoreError;
pub use names::{AgentName, EventKind, EventSequence, SessionId, SessionVersion};
pub use session::{CreateSession, NewEvent, Session, SessionQuery, SessionSummary, StoredEvent};
pub use time::Timestamp;
