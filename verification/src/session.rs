//! Sessions and their events.
use serde_json::Value;
use vstd::prelude::*;

use crate::identifiers::{is_drawn, session_id_text};
use crate::json::{empty_object, json_reads_as, json_survives, json_text};
use crate::names::{AgentName, EventKind, EventSequence, SessionId, SessionVersion};
use crate::nesting::scanned;
use crate::time::Timestamp;

verus! {

/// The characters of a text that may be missing.
pub open spec fn optional_text(text: Option<String>) -> Option<Seq<char>> {
    match text {
        Some(text) => Some(text@),
        None => None,
    }
}

#[derive(Debug, PartialEq)]
pub struct Session {
    pub id: SessionId,
    pub root_agent: AgentName,
    pub title: Option<String>,
    /// A runtime-owned snapshot of configuration needed to resume the session.
    pub metadata: Value,
    pub version: SessionVersion,
    pub created_at: Timestamp,
    pub updated_at: Timestamp,
}

/// A [`Session`] with its texts as sequences of characters.
pub struct SessionView {
    pub id: Seq<char>,
    pub root_agent: Seq<char>,
    pub title: Option<Seq<char>>,
    pub metadata: Value,
    pub version: SessionVersion,
    pub created_at: Timestamp,
    pub updated_at: Timestamp,
}

impl View for Session {
    type V = SessionView;

    open spec fn view(&self) -> SessionView {
        SessionView {
            id: self.id@,
            root_agent: self.root_agent@,
            title: optional_text(self.title),
            metadata: self.metadata,
            version: self.version,
            created_at: self.created_at,
            updated_at: self.updated_at,
        }
    }
}

impl Clone for Session {
    fn clone(&self) -> (copy: Self)
        ensures
            copy@ == self@,
    {
        Session {
            id: self.id.clone(),
            root_agent: self.root_agent.clone(),
            title: self.title.clone(),
            metadata: self.metadata.clone(),
            version: self.version,
            created_at: self.created_at,
            updated_at: self.updated_at,
        }
    }
}

#[derive(Debug, PartialEq)]
pub struct SessionSummary {
    pub id: SessionId,
    pub root_agent: AgentName,
    pub title: Option<String>,
    pub version: SessionVersion,
    pub created_at: Timestamp,
    pub updated_at: Timestamp,
}

/// A [`SessionSummary`] with its texts as sequences of characters.
pub struct SessionSummaryView {
    pub id: Seq<char>,
    pub root_agent: Seq<char>,
    pub title: Option<Seq<char>>,
    pub version: SessionVersion,
    pub created_at: Timestamp,
    pub updated_at: Timestamp,
}

impl View for SessionSummary {
    type V = SessionSummaryView;

    open spec fn view(&self) -> SessionSummaryView {
        SessionSummaryView {
            id: self.id@,
            root_agent: self.root_agent@,
            title: optional_text(self.title),
            version: self.version,
            created_at: self.created_at,
            updated_at: self.updated_at,
        }
    }
}

impl Clone for SessionSummary {
    fn clone(&self) -> (copy: Self)
        ensures
            copy@ == self@,
    {
        SessionSummary {
            id: self.id.clone(),
            root_agent: self.root_agent.clone(),
            title: self.title.clone(),
            version: self.version,
            created_at: self.created_at,
            updated_at: self.updated_at,
        }
    }
}

impl SessionView {
    /// The session without its metadata.
    pub open spec fn summary(self) -> SessionSummaryView {
        SessionSummaryView {
            id: self.id,
            root_agent: self.root_agent,
            title: self.title,
            version: self.version,
            created_at: self.created_at,
            updated_at: self.updated_at,
        }
    }
}

#[derive(Debug, PartialEq)]
pub struct CreateSession {
    pub id: SessionId,
    pub root_agent: AgentName,
    pub title: Option<String>,
    pub metadata: Value,
}

/// A [`CreateSession`] with its texts as sequences of characters.
pub struct CreateSessionView {
    pub id: Seq<char>,
    pub root_agent: Seq<char>,
    pub title: Option<Seq<char>>,
    pub metadata: Value,
}

impl View for CreateSession {
    type V = CreateSessionView;

    open spec fn view(&self) -> CreateSessionView {
        CreateSessionView {
            id: self.id@,
            root_agent: self.root_agent@,
            title: optional_text(self.title),
            metadata: self.metadata,
        }
    }
}

impl Clone for CreateSession {
    fn clone(&self) -> (copy: Self)
        ensures
            copy@ == self@,
    {
        CreateSession {
            id: self.id.clone(),
            root_agent: self.root_agent.clone(),
            title: self.title.clone(),
            metadata: self.metadata.clone(),
        }
    }
}

impl CreateSession {
    /// A request for a session of the agent, with a fresh identifier, no title and an empty
    /// object for metadata.
    pub fn new<A: Into<AgentName>>(root_agent: A) -> (input: Self)
        ensures
            call_ensures(SessionId::new, (), input.id),
            exists|ulid: u128| is_drawn(ulid) && input.id@ == #[trigger] session_id_text(ulid),
            call_ensures(<A as Into<AgentName>>::into, (root_agent,), input.root_agent),
            input.title is None,
            json_text(input.metadata) == "{}"@,
            json_reads_as("{}"@, input.metadata),
            json_survives(input.metadata),
    {
        proof {
            reveal_strlit("{}");
            reveal_with_fuel(scanned, 3);
            assert("{}"@.drop_last().drop_last() =~= Seq::empty());
        }
        CreateSession {
            id: SessionId::new(),
            root_agent: root_agent.into(),
            title: None,
            metadata: empty_object(),
        }
    }

    pub fn with_id<I: Into<SessionId>>(self, id: I) -> (input: Self)
        ensures
            call_ensures(<I as Into<SessionId>>::into, (id,), input.id),
            input == (CreateSession { id: input.id, ..self }),
    {
        let mut input: CreateSession = self;
        input.id = id.into();
        input
    }

    pub fn with_title<T: Into<String>>(self, title: T) -> (input: Self)
        ensures
            input.title is Some,
            call_ensures(<T as Into<String>>::into, (title,), input.title->Some_0),
            input == (CreateSession { title: input.title, ..self }),
    {
        let mut input: CreateSession = self;
        input.title = Some(title.into());
        input
    }

    pub fn with_metadata(self, metadata: Value) -> (input: Self)
        ensures
            input == (CreateSession { metadata, ..self }),
    {
        let mut input: CreateSession = self;
        input.metadata = metadata;
        input
    }
}

#[derive(Debug, PartialEq, Eq)]
pub struct SessionQuery {
    pub root_agent: Option<AgentName>,
    pub limit: usize,
}

/// A [`SessionQuery`] with its text as a sequence of characters.
pub struct SessionQueryView {
    pub root_agent: Option<Seq<char>>,
    pub limit: usize,
}

impl View for SessionQuery {
    type V = SessionQueryView;

    open spec fn view(&self) -> SessionQueryView {
        SessionQueryView {
            root_agent: match self.root_agent {
                Some(name) => Some(name@),
                None => None,
            },
            limit: self.limit,
        }
    }
}

impl Clone for SessionQuery {
    fn clone(&self) -> (copy: Self)
        ensures
            copy@ == self@,
    {
        SessionQuery {
            root_agent: self.root_agent.clone(),
            limit: self.limit,
        }
    }
}

impl Default for SessionQuery {
    /// Asks for at most fifty sessions of any agent.
    fn default() -> (query: Self)
        ensures
            query == (SessionQuery { root_agent: None, limit: 50 }),
    {
        SessionQuery { root_agent: None, limit: 50 }
    }
}

/// An event before the store assigns its sequence and timestamp.
///
/// The envelope is intentionally generic. Runtime and plugin crates own the
/// schemas of their payloads, while every store can persist them unchanged. What is nested deeper
/// than [`crate::nesting::NESTING_LIMIT`] is stored too, but not read again.
#[derive(Debug, PartialEq)]
pub struct NewEvent {
    pub kind: EventKind,
    pub payload: Value,
}

/// A [`NewEvent`] with its text as a sequence of characters.
pub struct NewEventView {
    pub kind: Seq<char>,
    pub payload: Value,
}

impl View for NewEvent {
    type V = NewEventView;

    open spec fn view(&self) -> NewEventView {
        NewEventView { kind: self.kind@, payload: self.payload }
    }
}

impl Clone for NewEvent {
    fn clone(&self) -> (copy: Self)
        ensures
            copy@ == self@,
    {
        NewEvent {
            kind: self.kind.clone(),
            payload: self.payload.clone(),
        }
    }
}

/// The views of a batch of events.
pub open spec fn new_events(events: Seq<NewEvent>) -> Seq<NewEventView> {
    events.map_values(|event: NewEvent| event@)
}

impl NewEvent {
    pub fn new<K: Into<EventKind>>(kind: K, payload: Value) -> (event: Self)
        ensures
            call_ensures(<K as Into<EventKind>>::into, (kind,), event.kind),
            event.payload == payload,
    {
        NewEvent { kind: kind.into(), payload }
    }

    /// The event whose payload comes from turning a value into JSON, or the error of that.
    pub fn from_serializable<K: Into<EventKind>, E>(kind: K, payload: Result<Value, E>) -> (event:
        Result<Self, E>)
        ensures
            match payload {
                Ok(value) => event matches Ok(event) && event.payload == value && call_ensures(
                    <K as Into<EventKind>>::into,
                    (kind,),
                    event.kind,
                ),
                Err(error) => event == Err::<NewEvent, E>(error),
            },
    {
        match payload {
            Ok(payload) => Ok(Self::new(kind, payload)),
            Err(error) => Err(error),
        }
    }
}

#[derive(Debug, PartialEq)]
pub struct StoredEvent {
    pub session_id: SessionId,
    pub sequence: EventSequence,
    pub kind: EventKind,
    pub payload: Value,
    pub created_at: Timestamp,
}

/// A [`StoredEvent`] with its texts as sequences of characters.
pub struct StoredEventView {
    pub session_id: Seq<char>,
    pub sequence: EventSequence,
    pub kind: Seq<char>,
    pub payload: Value,
    pub created_at: Timestamp,
}

impl View for StoredEvent {
    type V = StoredEventView;

    open spec fn view(&self) -> StoredEventView {
        StoredEventView {
            session_id: self.session_id@,
            sequence: self.sequence,
            kind: self.kind@,
            payload: self.payload,
            created_at: self.created_at,
        }
    }
}

impl Clone for StoredEvent {
    fn clone(&self) -> (copy: Self)
        ensures
            copy@ == self@,
    {
        StoredEvent {
            session_id: self.session_id.clone(),
            sequence: self.sequence,
            kind: self.kind.clone(),
            payload: self.payload.clone(),
            created_at: self.created_at,
        }
    }
}

} // verus!
