//! What the operations return when they are called, in terms of what they were given.
use serde_json::Value;
use vstd::prelude::*;

use crate::append::{
    append_events, append_events_at, AppendAction, AppendEvents, AppendReply, AppendStep,
    AppendStepView, PhaseView,
};
use crate::connection::{
    in_memory, open, ConnectOptions, JournalMode, OpenAction, OpenStep, OpenStore, Synchronous,
};
use crate::create::{create_session, create_session_at, Insertion, PendingSession};
use crate::database::Database;
use crate::delete::{delete_session, deleted_session};
use crate::error::{seen, StoreError, StoreErrorView};
use crate::events::{
    ensure_session_exists, event_answer, events_after, events_in, existence_answer, found_events,
    read_events,
};
use crate::json::{json_guarded, json_parsed, json_text};
use crate::laws::reading::law_events_carry_their_numbers;
use crate::laws::views::is_same_text;
use crate::lookup::{
    found_session, found_summaries, get_session, latest_session, list_sessions, listing_for,
    summaries_in, summary_answer,
};
use crate::names::{AgentName, EventKind, EventSequence, SessionId, SessionVersion};
use crate::nesting::nesting;
use crate::rows::{
    event_from_row, event_in, session_from_row, session_summary_from_row, summary_in, EventRow,
    EventRowView, SessionRow, SummaryRow, SummaryRowView,
};
use crate::session::{
    new_events, CreateSession, NewEvent, Session, SessionQuery, SessionSummary, SessionSummaryView,
    StoredEvent, StoredEventView,
};
use crate::statement::{
    Parameter, Statement, StatementView, DELETE_SESSION, INSERT_EVENT, INSERT_SESSION,
    SELECT_EVENTS, SELECT_LATEST_SESSION, SELECT_SESSION, SELECT_SESSION_EXISTS, SELECT_SUMMARIES,
    SELECT_SUMMARIES_OF_AGENT, SELECT_VERSION, UPDATE_SESSION,
};
use crate::text::is_blank;
use crate::time::{rfc3339_parsed, Timestamp};

verus! {

/// Whether a text is bound.
pub open spec fn binds_text(parameter: Parameter, text: Seq<char>) -> bool {
    parameter matches Parameter::Text(bound) && bound@ == text
}

/// Whether a text, or a null, is bound.
pub open spec fn binds_nullable(parameter: Parameter, text: Option<String>) -> bool {
    match (parameter, text) {
        (Parameter::OptionalText(Some(bound)), Some(text)) => bound@ == text@,
        (Parameter::OptionalText(None), None) => true,
        _ => false,
    }
}

/// Whether a number is bound.
pub open spec fn binds_integer(parameter: Parameter, number: i64) -> bool {
    parameter matches Parameter::Integer(bound) && bound == number
}

/// A statement has the SQL text of its kind, and its values are bound to the question marks of that
/// text, all of them, unchanged and in their order.
pub proof fn law_statements_bind_their_values(
    statement: Statement,
    sql: &'static str,
    values: Vec<Parameter>,
)
    requires
        call_ensures(Statement::sql, (&statement,), sql),
        call_ensures(Statement::parameters, (statement,), values),
    ensures
        match statement {
            Statement::InsertSession {
                id,
                root_agent,
                title,
                metadata,
                created_at,
                updated_at,
            } => {
                &&& sql@ == INSERT_SESSION@
                &&& values@.len() == 6
                &&& binds_text(values@[0], id@)
                &&& binds_text(values@[1], root_agent@)
                &&& binds_nullable(values@[2], title)
                &&& binds_text(values@[3], metadata@)
                &&& binds_text(values@[4], created_at@)
                &&& binds_text(values@[5], updated_at@)
            },
            Statement::SelectSession { id } => {
                &&& sql@ == SELECT_SESSION@
                &&& values@.len() == 1
                &&& binds_text(values@[0], id@)
            },
            Statement::SelectLatestSession { root_agent } => {
                &&& sql@ == SELECT_LATEST_SESSION@
                &&& values@.len() == 1
                &&& binds_text(values@[0], root_agent@)
            },
            Statement::SelectSummariesOfAgent { root_agent, limit } => {
                &&& sql@ == SELECT_SUMMARIES_OF_AGENT@
                &&& values@.len() == 2
                &&& binds_text(values@[0], root_agent@)
                &&& binds_integer(values@[1], limit)
            },
            Statement::SelectSummaries { limit } => {
                &&& sql@ == SELECT_SUMMARIES@
                &&& values@.len() == 1
                &&& binds_integer(values@[0], limit)
            },
            Statement::SelectSessionExists { id } => {
                &&& sql@ == SELECT_SESSION_EXISTS@
                &&& values@.len() == 1
                &&& binds_text(values@[0], id@)
            },
            Statement::SelectEvents { session_id, after } => {
                &&& sql@ == SELECT_EVENTS@
                &&& values@.len() == 2
                &&& binds_text(values@[0], session_id@)
                &&& binds_integer(values@[1], after)
            },
            Statement::UpdateSession { version, updated_at, id, expected } => {
                &&& sql@ == UPDATE_SESSION@
                &&& values@.len() == 4
                &&& binds_integer(values@[0], version)
                &&& binds_text(values@[1], updated_at@)
                &&& binds_text(values@[2], id@)
                &&& binds_integer(values@[3], expected)
            },
            Statement::SelectVersion { id } => {
                &&& sql@ == SELECT_VERSION@
                &&& values@.len() == 1
                &&& binds_text(values@[0], id@)
            },
            Statement::InsertEvent { session_id, sequence, kind, payload, created_at } => {
                &&& sql@ == INSERT_EVENT@
                &&& values@.len() == 5
                &&& binds_text(values@[0], session_id@)
                &&& binds_integer(values@[1], sequence)
                &&& binds_text(values@[2], kind@)
                &&& binds_text(values@[3], payload@)
                &&& binds_text(values@[4], created_at@)
            },
            Statement::DeleteSession { id } => {
                &&& sql@ == DELETE_SESSION@
                &&& values@.len() == 1
                &&& binds_text(values@[0], id@)
            },
        },
{
    let views = values@.map_values(|parameter: Parameter| parameter@);
    assert(views == statement@.parameters());
    assert(views.len() == values@.len());
    assert forall|i: int| 0 <= i < values@.len() implies views[i] == (#[trigger] values@[i])@ by {}
}

/// A request is built as it is asked for: what is set is set as it is, and the rest stays.
pub proof fn law_requests_are_built_as_asked(
    agent: AgentName,
    id: SessionId,
    title: String,
    metadata: Value,
    fresh: CreateSession,
    with_id: CreateSession,
    with_title: CreateSession,
    with_metadata: CreateSession,
    query: SessionQuery,
)
    requires
        call_ensures(CreateSession::new::<AgentName>, (agent,), fresh),
        call_ensures(CreateSession::with_id::<SessionId>, (fresh, id), with_id),
        call_ensures(CreateSession::with_title::<String>, (with_id, title), with_title),
        call_ensures(CreateSession::with_metadata, (with_title, metadata), with_metadata),
        call_ensures(<SessionQuery as Default>::default, (), query),
    ensures
        fresh.root_agent == agent,
        fresh.title is None,
        json_text(fresh.metadata) == "{}"@,
        call_ensures(SessionId::new, (), fresh.id),
        with_id == (CreateSession { id, ..fresh }),
        with_title == (CreateSession { title: Some(title), ..with_id }),
        with_metadata == (CreateSession { metadata, ..with_title }),
        query.root_agent is None,
        query.limit == 50,
{
}

/// An event is built with its kind and its payload, or not at all where the payload has an error.
pub proof fn law_events_are_built_as_asked<E>(
    kind: EventKind,
    payload: Value,
    event: NewEvent,
    converted: Result<Value, E>,
    made: Result<NewEvent, E>,
)
    requires
        call_ensures(NewEvent::new::<EventKind>, (kind, payload), event),
        call_ensures(NewEvent::from_serializable::<EventKind, E>, (kind, converted), made),
    ensures
        event == (NewEvent { kind, payload }),
        match converted {
            Ok(value) => made == Ok::<NewEvent, E>(NewEvent { kind, payload: value }),
            Err(error) => made == Err::<NewEvent, E>(error),
        },
{
}

/// Copies hold what was copied.
pub proof fn law_copies_are_whole(
    session: Session,
    session_copy: Session,
    summary: SessionSummary,
    summary_copy: SessionSummary,
    input: CreateSession,
    input_copy: CreateSession,
    query: SessionQuery,
    query_copy: SessionQuery,
    event: NewEvent,
    event_copy: NewEvent,
    stored: StoredEvent,
    stored_copy: StoredEvent,
)
    requires
        call_ensures(<Session as Clone>::clone, (&session,), session_copy),
        call_ensures(<SessionSummary as Clone>::clone, (&summary,), summary_copy),
        call_ensures(<CreateSession as Clone>::clone, (&input,), input_copy),
        call_ensures(<SessionQuery as Clone>::clone, (&query,), query_copy),
        call_ensures(<NewEvent as Clone>::clone, (&event,), event_copy),
        call_ensures(<StoredEvent as Clone>::clone, (&stored,), stored_copy),
    ensures
        session_copy@ == session@,
        summary_copy@ == summary@,
        input_copy@ == input@,
        query_copy@ == query@,
        event_copy@ == event@,
        stored_copy@ == stored@,
{
}

/// Whether a session is the one that a request asks for, at version zero and with one time.
pub open spec fn is_asked_for(session: Session, input: CreateSession, now: Timestamp) -> bool {
    &&& session.id@ == input.id@
    &&& session.root_agent@ == input.root_agent@
    &&& match (session.title, input.title) {
        (Some(title), Some(asked)) => title@ == asked@,
        (None, None) => true,
        _ => false,
    }
    &&& session.metadata == input.metadata
    &&& session.version.0 == 0
    &&& session.created_at == now
    &&& session.updated_at == now
}

/// Creating a session is refused exactly if its identifier or its agent is blank. Otherwise one row
/// with all that was asked for is to be inserted, and the caller is told the session, or that its
/// identifier is taken, or what the database said.
pub proof fn law_sessions_are_created_as_asked(
    input: CreateSession,
    now: Timestamp,
    started: Result<PendingSession, StoreError>,
    statement: Statement,
    answer: Insertion,
    outcome: Result<Session, StoreError>,
)
    requires
        call_ensures(create_session_at, (input, now), started),
        started is Ok ==> call_ensures(PendingSession::statement, (&started->Ok_0,), statement),
        started is Ok ==> call_ensures(PendingSession::finish, (started->Ok_0, answer), outcome),
    ensures
        started is Err <==> is_blank(input.id@) || is_blank(input.root_agent@),
        is_blank(input.id@) ==> started is Err && started->Err_0@ == StoreErrorView::InvalidInput(
            "session id cannot be empty"@,
        ),
        !is_blank(input.id@) && is_blank(input.root_agent@) ==> started is Err
            && started->Err_0@ == StoreErrorView::InvalidInput("root agent cannot be empty"@),
        started is Ok ==> {
            &&& statement matches Statement::InsertSession {
                id,
                root_agent,
                title,
                metadata,
                created_at,
                updated_at,
            } && {
                &&& id@ == input.id@
                &&& root_agent@ == input.root_agent@
                &&& is_same_text(title, input@.title) && is_same_text(input.title, input@.title)
                &&& metadata@ == json_text(input.metadata)
                &&& created_at@ == now.text()
                &&& updated_at@ == now.text()
            }
            &&& match answer {
                Insertion::Inserted => outcome is Ok && is_asked_for(outcome->Ok_0, input, now),
                Insertion::UniqueViolation => outcome is Err && outcome->Err_0@
                    == StoreErrorView::AlreadyExists(input.id@),
                Insertion::Failed(words) => outcome is Err && outcome->Err_0@
                    == StoreErrorView::Database(words@),
            }
        },
{
    lemma_empty_names();
    assert(seen(started) is Ok <==> started is Ok);
    assert(seen(outcome) is Ok <==> outcome is Ok);
}

proof fn lemma_empty_names()
    ensures
        "session id"@ + " cannot be empty"@ == "session id cannot be empty"@,
        "root agent"@ + " cannot be empty"@ == "root agent cannot be empty"@,
        "event sequence"@ + " exceeds SQLite's integer range"@
            == "event sequence exceeds SQLite's integer range"@,
{
    reveal_strlit("session id");
    reveal_strlit("root agent");
    reveal_strlit(" cannot be empty");
    reveal_strlit("session id cannot be empty");
    reveal_strlit("root agent cannot be empty");
    reveal_strlit("event sequence");
    reveal_strlit(" exceeds SQLite's integer range");
    reveal_strlit("event sequence exceeds SQLite's integer range");
    assert("session id"@ + " cannot be empty"@ =~= "session id cannot be empty"@);
    assert("root agent"@ + " cannot be empty"@ =~= "root agent cannot be empty"@);
    assert("event sequence"@ + " exceeds SQLite's integer range"@
        =~= "event sequence exceeds SQLite's integer range"@);
}

/// A session that is created now is the one that was asked for, and its times are a reading of the
/// clock, as they are.
pub proof fn law_sessions_are_created_now(
    input: CreateSession,
    started: Result<PendingSession, StoreError>,
    statement: Statement,
    outcome: Result<Session, StoreError>,
)
    requires
        call_ensures(create_session, (input,), started),
        started is Ok ==> call_ensures(PendingSession::statement, (&started->Ok_0,), statement),
        started is Ok ==> call_ensures(
            PendingSession::finish,
            (started->Ok_0, Insertion::Inserted),
            outcome,
        ),
    ensures
        started is Err <==> is_blank(input.id@) || is_blank(input.root_agent@),
        is_blank(input.id@) ==> started is Err && started->Err_0@ == StoreErrorView::InvalidInput(
            "session id cannot be empty"@,
        ),
        !is_blank(input.id@) && is_blank(input.root_agent@) ==> started is Err
            && started->Err_0@ == StoreErrorView::InvalidInput("root agent cannot be empty"@),
        started is Ok ==> exists|now: Timestamp|
            {
                &&& #[trigger] call_ensures(Timestamp::now, (), now)
                &&& outcome is Ok && is_asked_for(outcome->Ok_0, input, now)
                &&& statement matches Statement::InsertSession { created_at, updated_at, .. }
                    && created_at@ == now.text() && updated_at@ == now.text()
            },
{
    lemma_empty_names();
    assert(seen(started) is Ok <==> started is Ok);
    assert(seen(outcome) is Ok <==> outcome is Ok);
    if started is Ok {
        let now = choose|now: Timestamp|
            {
                &&& #[trigger] call_ensures(Timestamp::now, (), now)
                &&& started->Ok_0@ == crate::create::new_session(input@, now)
            };
        assert(is_asked_for(outcome->Ok_0, input, now));
    }
}

/// The fault of a text column: what the database said.
pub open spec fn column_fault<T>(column: Result<T, String>) -> Option<StoreErrorView> {
    match column {
        Ok(_) => None,
        Err(words) => Some(StoreErrorView::Database(words@)),
    }
}

/// The fault of a column with a number: what the database said, or a number below zero.
pub open spec fn number_fault(field: Seq<char>, column: Result<i64, String>) -> Option<
    StoreErrorView,
> {
    match column {
        Ok(number) => if number < 0 {
            Some(StoreErrorView::InvalidData(field + " cannot be negative"@))
        } else {
            None
        },
        Err(words) => Some(StoreErrorView::Database(words@)),
    }
}

/// The fault of a column with a point in time: what the database said, or a text that chrono does
/// not read.
pub open spec fn time_fault(field: Seq<char>, column: Result<String, String>) -> Option<
    StoreErrorView,
> {
    match column {
        Ok(text) => match rfc3339_parsed(text@) {
            Ok(_) => None,
            Err(words) => Some(
                StoreErrorView::InvalidData(
                    field + " contains invalid timestamp `"@ + text@ + "`: "@ + words,
                ),
            ),
        },
        Err(words) => Some(StoreErrorView::Database(words@)),
    }
}

/// What `serde_json` reads of a text.
pub open spec fn json_of(text: Seq<char>) -> Result<Value, Seq<char>> {
    if nesting(text) <= 256 {
        json_parsed(text)
    } else {
        json_guarded(text)
    }
}

/// The fault of a column with JSON: what the database said, or a text that `serde_json` does not
/// read.
pub open spec fn json_fault(field: Seq<char>, column: Result<String, String>) -> Option<
    StoreErrorView,
> {
    match column {
        Ok(text) => match json_of(text@) {
            Ok(_) => None,
            Err(words) => Some(
                StoreErrorView::InvalidData(field + " contains invalid JSON: "@ + words),
            ),
        },
        Err(words) => Some(StoreErrorView::Database(words@)),
    }
}

/// Whether an error is the first of several faults, and there is one exactly if there is a fault.
pub open spec fn is_first_fault(
    error: Option<StoreErrorView>,
    faults: Seq<Option<StoreErrorView>>,
) -> bool {
    match error {
        Some(_) => exists|k: int|
            {
                &&& 0 <= k < faults.len()
                &&& #[trigger] faults[k] == error
                &&& forall|j: int| 0 <= j < k ==> (#[trigger] faults[j]) is None
            },
        None => forall|j: int| 0 <= j < faults.len() ==> (#[trigger] faults[j]) is None,
    }
}

/// The error of a result, if it is one.
pub open spec fn error_of<T>(result: Result<T, StoreError>) -> Option<StoreErrorView> {
    match result {
        Ok(_) => None,
        Err(error) => Some(error@),
    }
}

/// A row is read as the session whose columns it holds. Where a column is faulty, the first one is
/// reported, the metadata first.
pub proof fn law_session_rows_are_read(row: SessionRow, read: Result<Session, StoreError>)
    requires
        call_ensures(session_from_row, (row,), read),
    ensures
        is_first_fault(
            error_of(read),
            seq![
                json_fault("session metadata"@, row.metadata),
                column_fault(row.id),
                column_fault(row.root_agent),
                column_fault(row.title),
                number_fault("session version"@, row.version),
                time_fault("session created_at"@, row.created_at),
                time_fault("session updated_at"@, row.updated_at),
            ],
        ),
        read matches Ok(session) ==> {
            &&& session.id@ == row.id->Ok_0@
            &&& session.root_agent@ == row.root_agent->Ok_0@
            &&& match (session.title, row.title->Ok_0) {
                (Some(title), Some(held)) => title@ == held@,
                (None, None) => true,
                _ => false,
            }
            &&& json_of(row.metadata->Ok_0@) == Ok::<Value, Seq<char>>(session.metadata)
            &&& session.version.0 == row.version->Ok_0
            &&& rfc3339_parsed(row.created_at->Ok_0@) == Ok::<Timestamp, Seq<char>>(
                session.created_at,
            )
            &&& rfc3339_parsed(row.updated_at->Ok_0@) == Ok::<Timestamp, Seq<char>>(
                session.updated_at,
            )
        },
{
    let faults = seq![
        json_fault("session metadata"@, row.metadata),
        column_fault(row.id),
        column_fault(row.root_agent),
        column_fault(row.title),
        number_fault("session version"@, row.version),
        time_fault("session created_at"@, row.created_at),
        time_fault("session updated_at"@, row.updated_at),
    ];
    assert(seen(read) is Ok <==> read is Ok);
    lemma_first_of_seven(faults);
    if let Err(error) = read {
        let k = first_of(faults);
        assert(faults[k] == Some(error@));
    }
}

/// The index of the first fault of seven.
spec fn first_of(faults: Seq<Option<StoreErrorView>>) -> int {
    if faults[0] is Some {
        0
    } else if faults[1] is Some {
        1
    } else if faults[2] is Some {
        2
    } else if faults[3] is Some {
        3
    } else if faults[4] is Some {
        4
    } else if faults[5] is Some {
        5
    } else {
        6
    }
}

proof fn lemma_first_of_seven(faults: Seq<Option<StoreErrorView>>)
    ensures
        0 <= first_of(faults) <= 6,
        forall|j: int| 0 <= j < first_of(faults) ==> (#[trigger] faults[j]) is None,
{
}

/// A row is read as the summary whose columns it holds. Where a column is faulty, the first one is
/// reported.
pub proof fn law_summary_rows_are_read(row: SummaryRow, read: Result<SessionSummary, StoreError>)
    requires
        call_ensures(session_summary_from_row, (row,), read),
    ensures
        is_first_fault(
            error_of(read),
            seq![
                column_fault(row.id),
                column_fault(row.root_agent),
                column_fault(row.title),
                number_fault("session version"@, row.version),
                time_fault("session created_at"@, row.created_at),
                time_fault("session updated_at"@, row.updated_at),
            ],
        ),
        read matches Ok(summary) ==> {
            &&& summary.id@ == row.id->Ok_0@
            &&& summary.root_agent@ == row.root_agent->Ok_0@
            &&& match (summary.title, row.title->Ok_0) {
                (Some(title), Some(held)) => title@ == held@,
                (None, None) => true,
                _ => false,
            }
            &&& summary.version.0 == row.version->Ok_0
            &&& rfc3339_parsed(row.created_at->Ok_0@) == Ok::<Timestamp, Seq<char>>(
                summary.created_at,
            )
            &&& rfc3339_parsed(row.updated_at->Ok_0@) == Ok::<Timestamp, Seq<char>>(
                summary.updated_at,
            )
        },
{
    let faults = seq![
        column_fault(row.id),
        column_fault(row.root_agent),
        column_fault(row.title),
        number_fault("session version"@, row.version),
        time_fault("session created_at"@, row.created_at),
        time_fault("session updated_at"@, row.updated_at),
    ];
    assert(seen(read) is Ok <==> read is Ok);
    lemma_first_of_seven(faults);
    if let Err(error) = read {
        let k = first_of(faults);
        assert(faults[k] == Some(error@));
    }
}

/// A row is read as the event of the session whose columns it holds. Where a column is faulty, the
/// first one is reported, the payload first.
pub proof fn law_event_rows_are_read(
    id: SessionId,
    row: EventRow,
    read: Result<StoredEvent, StoreError>,
)
    requires
        call_ensures(event_from_row, (&id, row), read),
    ensures
        is_first_fault(
            error_of(read),
            seq![
                json_fault("event payload"@, row.payload),
                number_fault("event sequence"@, row.sequence),
                column_fault(row.kind),
                time_fault("event created_at"@, row.created_at),
            ],
        ),
        read matches Ok(event) ==> {
            &&& event.session_id@ == id@
            &&& event.sequence.0 == row.sequence->Ok_0
            &&& event.kind@ == row.kind->Ok_0@
            &&& json_of(row.payload->Ok_0@) == Ok::<Value, Seq<char>>(event.payload)
            &&& rfc3339_parsed(row.created_at->Ok_0@) == Ok::<Timestamp, Seq<char>>(
                event.created_at,
            )
        },
{
    let faults = seq![
        json_fault("event payload"@, row.payload),
        number_fault("event sequence"@, row.sequence),
        column_fault(row.kind),
        time_fault("event created_at"@, row.created_at),
    ];
    assert(seen(read) is Ok <==> read is Ok);
    lemma_first_of_seven(faults);
    if let Err(error) = read {
        let k = first_of(faults);
        assert(faults[k] == Some(error@));
    }
}

/// A session is looked up by its whole identifier, and the latest one by the whole name of its
/// agent. What was found is read as its row is, nothing is found where there is no row, and what
/// the database said is told.
pub proof fn law_sessions_are_looked_up(
    id: SessionId,
    agent: AgentName,
    one: Statement,
    latest: Statement,
    answer: Result<Option<SessionRow>, String>,
    found: Result<Option<Session>, StoreError>,
    read: Result<Session, StoreError>,
)
    requires
        call_ensures(get_session, (&id,), one),
        call_ensures(latest_session, (&agent,), latest),
        call_ensures(found_session, (answer,), found),
        answer matches Ok(Some(row)) ==> call_ensures(session_from_row, (row,), read),
    ensures
        one matches Statement::SelectSession { id: asked } && asked@ == id@,
        latest matches Statement::SelectLatestSession { root_agent } && root_agent@ == agent@,
        match answer {
            Ok(Some(_)) => match read {
                Ok(session) => found is Ok && found->Ok_0 is Some && found->Ok_0->Some_0@
                    == session@,
                Err(error) => found is Err && found->Err_0@ == error@,
            },
            Ok(None) => found is Ok && found->Ok_0 is None,
            Err(words) => found is Err && found->Err_0@ == StoreErrorView::Database(words@),
        },
{
    assert(seen(read) is Ok <==> read is Ok);
}

/// A query is refused exactly if its limit is more than SQLite can count. A query for no sessions
/// takes no statement. Every other query takes one, for its agent or for all, with its limit as it
/// is.
pub proof fn law_queries_are_put_as_asked(
    query: SessionQuery,
    put: Result<Option<Statement>, StoreError>,
)
    requires
        call_ensures(list_sessions, (query,), put),
    ensures
        put is Err <==> query.limit > i64::MAX,
        put is Err ==> put->Err_0@ == StoreErrorView::InvalidInput("session limit is too large"@),
        put matches Ok(None) <==> query.limit == 0,
        1 <= query.limit <= i64::MAX ==> {
            &&& put is Ok
            &&& put->Ok_0 is Some
            &&& match query.root_agent {
                Some(agent) => put->Ok_0->Some_0 matches Statement::SelectSummariesOfAgent {
                    root_agent,
                    limit,
                } && root_agent@ == agent@ && limit == query.limit,
                None => put->Ok_0->Some_0 matches Statement::SelectSummaries { limit } && limit
                    == query.limit,
            }
        },
{
    assert(listing_for(query@) is Err <==> put is Err);
}

proof fn lemma_summaries_first(rows: Seq<SummaryRowView>)
    ensures
        match summaries_in(rows) {
            Ok(summaries) => {
                &&& summaries.len() == rows.len()
                &&& forall|i: int|
                    0 <= i < rows.len() ==> summary_in(#[trigger] rows[i]) is Ok && summary_in(
                        rows[i],
                    )->Ok_0 == summaries[i]
            },
            Err(error) => exists|k: int|
                {
                    &&& 0 <= k < rows.len()
                    &&& summary_in(#[trigger] rows[k]) is Err
                    &&& summary_in(rows[k])->Err_0 == error
                    &&& forall|j: int| 0 <= j < k ==> summary_in(#[trigger] rows[j]) is Ok
                },
        },
    decreases rows.len(),
{
    if rows.len() > 0 {
        let head = rows.drop_last();
        lemma_summaries_first(head);
        assert forall|i: int| 0 <= i < head.len() implies head[i] == #[trigger] rows[i] by {}
        match summaries_in(head) {
            Ok(summaries) => {
                assert(rows.last() == rows[rows.len() - 1]);
                assert forall|j: int| 0 <= j < rows.len() - 1 implies summary_in(
                    #[trigger] rows[j],
                ) is Ok by {
                    assert(summary_in(head[j]) is Ok);
                }
                if let Ok(all) = summaries_in(rows) {
                    assert forall|i: int| 0 <= i < rows.len() implies summary_in(
                        #[trigger] rows[i],
                    ) is Ok && summary_in(rows[i])->Ok_0 == all[i] by {
                        if i < head.len() {
                            assert(summary_in(head[i])->Ok_0 == summaries[i]);
                        }
                    }
                }
            },
            Err(error) => {
                let k = choose|k: int|
                    {
                        &&& 0 <= k < head.len()
                        &&& summary_in(#[trigger] head[k]) is Err
                        &&& summary_in(head[k])->Err_0 == error
                        &&& forall|j: int| 0 <= j < k ==> summary_in(#[trigger] head[j]) is Ok
                    };
                assert(rows[k] == head[k]);
                assert forall|j: int| 0 <= j < k implies summary_in(#[trigger] rows[j]) is Ok by {
                    assert(summary_in(head[j]) is Ok);
                }
            },
        }
    }
}

proof fn lemma_events_first(session_id: Seq<char>, rows: Seq<EventRowView>)
    ensures
        match events_in(session_id, rows) {
            Ok(events) => {
                &&& events.len() == rows.len()
                &&& forall|i: int|
                    0 <= i < rows.len() ==> event_in(session_id, #[trigger] rows[i]) is Ok
                        && event_in(session_id, rows[i])->Ok_0 == events[i]
            },
            Err(error) => exists|k: int|
                {
                    &&& 0 <= k < rows.len()
                    &&& event_in(session_id, #[trigger] rows[k]) is Err
                    &&& event_in(session_id, rows[k])->Err_0 == error
                    &&& forall|j: int|
                        0 <= j < k ==> event_in(session_id, #[trigger] rows[j]) is Ok
                },
        },
    decreases rows.len(),
{
    if rows.len() > 0 {
        let head = rows.drop_last();
        lemma_events_first(session_id, head);
        assert forall|i: int| 0 <= i < head.len() implies head[i] == #[trigger] rows[i] by {}
        match events_in(session_id, head) {
            Ok(events) => {
                assert(rows.last() == rows[rows.len() - 1]);
                assert forall|j: int| 0 <= j < rows.len() - 1 implies event_in(
                    session_id,
                    #[trigger] rows[j],
                ) is Ok by {
                    assert(event_in(session_id, head[j]) is Ok);
                }
                if let Ok(all) = events_in(session_id, rows) {
                    assert forall|i: int| 0 <= i < rows.len() implies event_in(
                        session_id,
                        #[trigger] rows[i],
                    ) is Ok && event_in(session_id, rows[i])->Ok_0 == all[i] by {
                        if i < head.len() {
                            assert(event_in(session_id, head[i])->Ok_0 == events[i]);
                        }
                    }
                }
            },
            Err(error) => {
                let k = choose|k: int|
                    {
                        &&& 0 <= k < head.len()
                        &&& event_in(session_id, #[trigger] head[k]) is Err
                        &&& event_in(session_id, head[k])->Err_0 == error
                        &&& forall|j: int|
                            0 <= j < k ==> event_in(session_id, #[trigger] head[j]) is Ok
                    };
                assert(rows[k] == head[k]);
                assert forall|j: int| 0 <= j < k implies event_in(
                    session_id,
                    #[trigger] rows[j],
                ) is Ok by {
                    assert(event_in(session_id, head[j]) is Ok);
                }
            },
        }
    }
}

/// What each of the rows that were listed is read as is told, in their order and none left out. The
/// first faulty row is reported in place of all, and what the database said is told.
pub proof fn law_listed_rows_are_told(
    answer: Result<Vec<SummaryRow>, String>,
    found: Result<Vec<SessionSummary>, StoreError>,
    i: int,
    read: Result<SessionSummary, StoreError>,
)
    requires
        call_ensures(found_summaries, (answer,), found),
        answer is Ok && 0 <= i < answer->Ok_0@.len() ==> call_ensures(
            session_summary_from_row,
            (answer->Ok_0@[i],),
            read,
        ),
    ensures
        answer matches Err(words) ==> found is Err && found->Err_0@ == StoreErrorView::Database(
            words@,
        ),
        answer is Ok && found is Ok ==> found->Ok_0@.len() == answer->Ok_0@.len(),
        answer is Ok && found is Ok && 0 <= i < answer->Ok_0@.len() ==> read is Ok && read->Ok_0@
            == found->Ok_0@[i]@,
        answer is Ok && found is Err ==> exists|k: int|
            {
                &&& 0 <= k < answer->Ok_0@.len()
                &&& #[trigger] summary_in(answer->Ok_0@[k]@) == Err::<
                    SessionSummaryView,
                    StoreErrorView,
                >(
                    found->Err_0@,
                )
                &&& forall|j: int|
                    0 <= j < k ==> (#[trigger] summary_in(answer->Ok_0@[j]@)) is Ok
            },
{
    assert(seen(read) is Ok <==> read is Ok);
    if let Ok(rows) = answer {
        let views = rows@.map_values(|row: SummaryRow| row@);
        assert(summary_answer(answer) == Ok::<Seq<SummaryRowView>, Seq<char>>(views));
        lemma_summaries_first(views);
        assert forall|j: int| 0 <= j < rows@.len() implies views[j] == (#[trigger] rows@[j])@ by {}
        if found is Ok {
            if 0 <= i < rows@.len() {
                assert(summary_in(views[i])->Ok_0 == found->Ok_0@[i]@);
            }
        } else {
            let k = choose|k: int|
                {
                    &&& 0 <= k < views.len()
                    &&& summary_in(#[trigger] views[k]) is Err
                    &&& summary_in(views[k])->Err_0 == found->Err_0@
                    &&& forall|j: int| 0 <= j < k ==> summary_in(#[trigger] views[j]) is Ok
                };
            assert(views[k] == rows@[k]@);
            assert forall|j: int| 0 <= j < k implies (#[trigger] summary_in(rows@[j]@)) is Ok by {
                assert(summary_in(views[j]) is Ok);
            }
        }
    }
}

/// Reading events starts with the question whether there is the session. A missing session is
/// reported, and what the database said is told. Otherwise the events past the number that was
/// given are asked for, that number and no other, and past zero where none was given. A number that
/// SQLite cannot count is refused.
pub proof fn law_events_are_asked_for_past_a_number(
    id: SessionId,
    question: Statement,
    answer: Result<bool, String>,
    checked: Result<(), StoreError>,
    after: Option<EventSequence>,
    put: Result<Statement, StoreError>,
)
    requires
        call_ensures(read_events, (&id,), question),
        call_ensures(ensure_session_exists, (&id, answer), checked),
        call_ensures(events_after, (&id, after, answer), put),
    ensures
        question matches Statement::SelectSessionExists { id: asked } && asked@ == id@,
        match answer {
            Ok(true) => {
                &&& checked is Ok
                &&& match after {
                    None => put is Ok && (put->Ok_0 matches Statement::SelectEvents {
                        session_id,
                        after: past,
                    } && session_id@ == id@ && past == 0),
                    Some(EventSequence(n)) => if n <= i64::MAX {
                        put is Ok && (put->Ok_0 matches Statement::SelectEvents {
                            session_id,
                            after: past,
                        } && session_id@ == id@ && past == n)
                    } else {
                        put is Err && put->Err_0@ == StoreErrorView::InvalidInput(
                            "event sequence exceeds SQLite's integer range"@,
                        )
                    },
                }
            },
            Ok(false) => {
                &&& checked is Err && checked->Err_0@ == StoreErrorView::NotFound(id@)
                &&& put is Err && put->Err_0@ == StoreErrorView::NotFound(id@)
            },
            Err(words) => {
                &&& checked is Err && checked->Err_0@ == StoreErrorView::Database(words@)
                &&& put is Err && put->Err_0@ == StoreErrorView::Database(words@)
            },
        },
{
    lemma_empty_names();
    assert(seen(checked) is Ok <==> checked is Ok);
    assert(seen(put) is Ok <==> put is Ok);
}

/// What each of the rows that were listed is read as is told, in their order and none left out. The
/// first faulty row is reported in place of all, and what the database said is told.
pub proof fn law_read_rows_are_told(
    id: SessionId,
    answer: Result<Vec<EventRow>, String>,
    found: Result<Vec<StoredEvent>, StoreError>,
    i: int,
    read: Result<StoredEvent, StoreError>,
)
    requires
        call_ensures(found_events, (&id, answer), found),
        answer is Ok && 0 <= i < answer->Ok_0@.len() ==> call_ensures(
            event_from_row,
            (&id, answer->Ok_0@[i]),
            read,
        ),
    ensures
        answer matches Err(words) ==> found is Err && found->Err_0@ == StoreErrorView::Database(
            words@,
        ),
        answer is Ok && found is Ok ==> found->Ok_0@.len() == answer->Ok_0@.len(),
        answer is Ok && found is Ok && 0 <= i < answer->Ok_0@.len() ==> read is Ok && read->Ok_0@
            == found->Ok_0@[i]@,
        answer is Ok && found is Err ==> exists|k: int|
            {
                &&& 0 <= k < answer->Ok_0@.len()
                &&& #[trigger] event_in(id@, answer->Ok_0@[k]@) == Err::<
                    StoredEventView,
                    StoreErrorView,
                >(
                    found->Err_0@,
                )
                &&& forall|j: int|
                    0 <= j < k ==> (#[trigger] event_in(id@, answer->Ok_0@[j]@)) is Ok
            },
{
    assert(seen(read) is Ok <==> read is Ok);
    if let Ok(rows) = answer {
        let views = rows@.map_values(|row: EventRow| row@);
        assert(event_answer(answer) == Ok::<Seq<EventRowView>, Seq<char>>(views));
        lemma_events_first(id@, views);
        assert forall|j: int| 0 <= j < rows@.len() implies views[j] == (#[trigger] rows@[j])@ by {}
        if found is Ok {
            if 0 <= i < rows@.len() {
                assert(event_in(id@, views[i])->Ok_0 == found->Ok_0@[i]@);
            }
        } else {
            let k = choose|k: int|
                {
                    &&& 0 <= k < views.len()
                    &&& event_in(id@, #[trigger] views[k]) is Err
                    &&& event_in(id@, views[k])->Err_0 == found->Err_0@
                    &&& forall|j: int| 0 <= j < k ==> event_in(id@, #[trigger] views[j]) is Ok
                };
            assert(views[k] == rows@[k]@);
            assert forall|j: int| 0 <= j < k implies (
            #[trigger] event_in(id@, rows@[j]@)) is Ok by {
                assert(event_in(id@, views[j]) is Ok);
            }
        }
    }
}

/// The events that are read past a number are those strictly past it: the first has the next
/// number, each other one the number after that of the one before it, and the last the session's
/// version.
pub proof fn law_events_are_read_strictly_past_a_number(
    database: Database,
    id: SessionId,
    after: Option<EventSequence>,
    put: Result<Statement, StoreError>,
    answer: Result<Vec<EventRow>, String>,
    found: Result<Vec<StoredEvent>, StoreError>,
)
    requires
        database.wf(),
        database.sessions.contains_key(id@),
        call_ensures(events_after, (&id, after, Ok(true)), put),
        after matches Some(EventSequence(n)) ==> n <= i64::MAX,
        put is Ok ==> event_answer(answer) is Ok && database.selects_events(
            put->Ok_0@,
            event_answer(answer)->Ok_0,
        ),
        call_ensures(found_events, (&id, answer), found),
    ensures
        put is Ok,
        found is Ok ==> {
            let n: int = match after {
                Some(EventSequence(n)) => n as int,
                None => 0,
            };
            let events = found->Ok_0@;
            &&& events.len() == if database.sessions[id@].version > n {
                database.sessions[id@].version - n
            } else {
                0
            }
            &&& forall|i: int|
                0 <= i < events.len() ==> (#[trigger] events[i]).sequence.0 == n + 1 + i
                    && events[i].sequence.0 > n && events[i].session_id@ == id@
        },
{
    law_events_are_asked_for_past_a_number_of(id, after, put);
    assert(seen(put) is Ok <==> put is Ok);
    if let Ok(events) = found {
        let n: i64 = match after {
            Some(EventSequence(n)) => n as i64,
            None => 0,
        };
        let views = events@.map_values(|event: StoredEvent| event@);
        law_events_carry_their_numbers(
            database,
            id@,
            n,
            event_answer(answer)->Ok_0,
            views,
        );
        assert forall|i: int| 0 <= i < events@.len() implies (#[trigger] events@[i]).sequence.0 == n
            + 1 + i && events@[i].session_id@ == id@ by {
            assert(views[i] == events@[i]@);
        }
    }
}

proof fn law_events_are_asked_for_past_a_number_of(
    id: SessionId,
    after: Option<EventSequence>,
    put: Result<Statement, StoreError>,
)
    requires
        call_ensures(events_after, (&id, after, Ok(true)), put),
        after matches Some(EventSequence(n)) ==> n <= i64::MAX,
    ensures
        put is Ok,
        put->Ok_0@ == (StatementView::SelectEvents {
            session_id: id@,
            after: match after {
                Some(EventSequence(n)) => n as i64,
                None => 0,
            },
        }),
{
    let yes: Result<bool, String> = Ok(true);
    assert(existence_answer(yes) == Ok::<bool, Seq<char>>(true));
    assert(seen(put) is Ok <==> put is Ok);
}

/// A session is deleted by its whole identifier. The caller is told that it is done where a row was
/// removed, that there is no such session where none was, and what the database said.
pub proof fn law_deletions_are_told(
    id: SessionId,
    put: Statement,
    answer: Result<u64, String>,
    outcome: Result<(), StoreError>,
)
    requires
        call_ensures(delete_session, (&id,), put),
        call_ensures(deleted_session, (&id, answer), outcome),
    ensures
        put matches Statement::DeleteSession { id: asked } && asked@ == id@,
        match answer {
            Ok(rows) => if rows > 0 {
                outcome is Ok
            } else {
                outcome is Err && outcome->Err_0@ == StoreErrorView::NotFound(id@)
            },
            Err(words) => outcome is Err && outcome->Err_0@ == StoreErrorView::Database(words@),
        },
{
    assert(seen(outcome) is Ok <==> outcome is Ok);
}

/// Whether a batch is one that is put to the database: it is not empty, no kind is blank, and the
/// version after it is one that SQLite can count.
pub open spec fn is_acceptable(expected: u64, events: Seq<NewEvent>) -> bool {
    &&& events.len() > 0
    &&& forall|i: int| 0 <= i < events.len() ==> !is_blank((#[trigger] events[i]).kind@)
    &&& expected + events.len() <= i64::MAX
}

/// Whether a refusal tells what is wrong with a batch: that it is empty, else that a kind is blank,
/// else that the version after it is too large.
pub open spec fn is_told(error: StoreErrorView, expected: u64, events: Seq<NewEvent>) -> bool {
    error == StoreErrorView::InvalidInput(
        if events.len() == 0 {
            "an event batch cannot be empty"@
        } else if exists|i: int| 0 <= i < events.len() && is_blank((#[trigger] events[i]).kind@) {
            "event kind cannot be empty"@
        } else if expected + events.len() > u64::MAX {
            "session version overflow"@
        } else {
            "session version exceeds SQLite's integer range"@
        },
    )
}

/// Whether an append that has started is to append this batch to this session.
pub open spec fn is_to_append(
    append: AppendEvents,
    id: SessionId,
    expected: u64,
    events: Seq<NewEvent>,
    now: Timestamp,
) -> bool {
    &&& append@.phase is Beginning
    &&& append@.session_id == id@
    &&& append@.expected == expected
    &&& append@.now == now.text()
    &&& append@.events.len() == events.len()
    &&& forall|i: int|
        0 <= i < events.len() ==> (#[trigger] append@.events[i]).kind == events[i].kind@
            && append@.events[i].payload == json_text(events[i].payload)
}

proof fn lemma_batch_seen(events: Seq<NewEvent>)
    ensures
        new_events(events).len() == events.len(),
        crate::append::has_blank_kind(new_events(events)) <==> exists|i: int|
            0 <= i < events.len() && is_blank((#[trigger] events[i]).kind@),
{
    let views = new_events(events);
    assert forall|i: int| 0 <= i < events.len() implies views[i].kind == (
    #[trigger] events[i]).kind@ by {}
    if exists|i: int| 0 <= i < events.len() && is_blank((#[trigger] events[i]).kind@) {
        let i = choose|i: int| 0 <= i < events.len() && is_blank((#[trigger] events[i]).kind@);
        assert(is_blank(views[i].kind));
    }
    if crate::append::has_blank_kind(views) {
        let i = choose|i: int| 0 <= i < views.len() && is_blank(#[trigger] views[i].kind);
        assert(is_blank(events[i].kind@));
    }
}

/// A batch is refused before the database is asked if and only if it is empty, or one of its kinds
/// is blank, or the version after it is more than SQLite can count. Every other batch, however many
/// events it has, is appended as it is: every event in its place, to the session, from the version
/// and at the time that were given.
pub proof fn law_batches_are_put_as_asked(
    id: SessionId,
    expected: SessionVersion,
    events: Vec<NewEvent>,
    now: Timestamp,
    started: Result<AppendEvents, StoreError>,
)
    requires
        call_ensures(append_events_at, (&id, expected, events, now), started),
    ensures
        started is Ok <==> is_acceptable(expected.0, events@),
        started is Err ==> is_told(started->Err_0@, expected.0, events@),
        started is Ok ==> is_to_append(started->Ok_0, id, expected.0, events@, now),
        started is Ok ==> started->Ok_0@.wf(),
{
    lemma_batch_seen(events@);
    assert(seen(started) is Ok <==> started is Ok);
}

/// A batch that is appended now is refused or put like one that is appended at a point in time, and
/// its time is a reading of the clock, as it is.
pub proof fn law_batches_are_put_now(
    id: SessionId,
    expected: SessionVersion,
    events: Vec<NewEvent>,
    started: Result<AppendEvents, StoreError>,
)
    requires
        call_ensures(append_events, (&id, expected, events), started),
    ensures
        started is Ok <==> is_acceptable(expected.0, events@),
        started is Err ==> is_told(started->Err_0@, expected.0, events@),
        started is Ok ==> exists|now: Timestamp| #[trigger]
            call_ensures(Timestamp::now, (), now) && is_to_append(
                started->Ok_0,
                id,
                expected.0,
                events@,
                now,
            ),
        started is Ok ==> started->Ok_0@.wf(),
{
    lemma_batch_seen(events@);
    assert(seen(started) is Ok <==> started is Ok);
    if started is Ok {
        let now = choose|now: Timestamp|
            {
                &&& #[trigger] call_ensures(Timestamp::now, (), now)
                &&& started->Ok_0@ == crate::append::new_append(
                    id@,
                    expected.0,
                    new_events(events@),
                    now,
                )
            };
        assert(is_to_append(started->Ok_0, id, expected.0, events@, now));
    }
}

/// What an append asks of the database: to begin, to move the session from the expected version to
/// the one after the batch, to add each event under the next number, and to commit; or to find out
/// the version and to roll back.
pub proof fn law_appends_ask_in_turn(append: AppendEvents, action: AppendAction)
    requires
        call_ensures(AppendEvents::action, (&append,), action),
    ensures
        match append@.phase {
            PhaseView::Beginning => action is Begin,
            PhaseView::Claiming => action is Update && {
                let statement = action->Update_0@;
                &&& statement is UpdateSession
                &&& statement->UpdateSession_id == append@.session_id
                &&& statement->UpdateSession_expected == append@.expected as i64
                &&& statement->UpdateSession_version == (append@.expected
                    + append@.events.len()) as i64
                &&& statement->UpdateSession_updated_at == append@.now
            },
            PhaseView::Inspecting => action is FindVersion && action->FindVersion_0@ == (
            StatementView::SelectVersion { id: append@.session_id }),
            PhaseView::Abandoning(_) => action is Rollback,
            PhaseView::Inserting(next) => action is Insert && action->Insert_0@ == (
            StatementView::InsertEvent {
                session_id: append@.session_id,
                sequence: (append@.expected + next + 1) as i64,
                kind: append@.events[next].kind,
                payload: append@.events[next].payload,
                created_at: append@.now,
            }),
            PhaseView::Committing => action is Commit,
        },
{
}

/// Where an append stands after a reply. A failure ends it in the words of the database. Where the
/// update affected no row, the session was not at the expected version: the caller is told, once
/// the transaction is rolled back, that there is no session, or which version it is at. Otherwise
/// the events are added one by one, and the caller is told the version after the last one, once
/// they are committed. Nothing else of the append changes.
pub proof fn law_appends_go_on_in_turn(append: AppendEvents, reply: AppendReply, step: AppendStep)
    requires
        append@.wf(),
        append@.action().admits(reply@),
        call_ensures(AppendEvents::advance, (append, reply), step),
    ensures
        step matches AppendStep::Continue(next) ==> {
            &&& next@.session_id == append@.session_id
            &&& next@.expected == append@.expected
            &&& next@.events == append@.events
            &&& next@.now == append@.now
        },
        match reply {
            AppendReply::Failed(words) => step is Finished && error_of(step->Finished_0) == Some(
                StoreErrorView::Database(words@),
            ),
            AppendReply::Affected(rows) => step is Continue && step->Continue_0@.phase == (
            if rows == 0 {
                PhaseView::Inspecting
            } else {
                PhaseView::Inserting(0)
            }),
            AppendReply::Version(found) => step is Continue && match found {
                None => step->Continue_0@.phase == PhaseView::Abandoning(None),
                Some(Ok(number)) => step->Continue_0@.phase == PhaseView::Abandoning(
                    Some(Ok(number)),
                ),
                Some(Err(words)) => step->Continue_0@.phase == PhaseView::Abandoning(
                    Some(Err(words@)),
                ),
            },
            AppendReply::Done => match append@.phase {
                PhaseView::Beginning => step is Continue && step->Continue_0@.phase is Claiming,
                PhaseView::Inserting(next) => step is Continue && step->Continue_0@.phase == (
                if next + 1 < append@.events.len() {
                    PhaseView::Inserting(next + 1)
                } else {
                    PhaseView::Committing
                }),
                PhaseView::Committing => step is Finished && step->Finished_0 is Ok
                    && step->Finished_0->Ok_0.0 == append@.expected + append@.events.len(),
                PhaseView::Abandoning(found) => step is Finished && error_of(step->Finished_0)
                    == Some(
                    match found {
                        None => StoreErrorView::NotFound(append@.session_id),
                        Some(Err(words)) => StoreErrorView::Database(words),
                        Some(Ok(number)) => if number < 0 {
                            StoreErrorView::InvalidData(
                                "session version"@ + " cannot be negative"@,
                            )
                        } else {
                            StoreErrorView::Conflict {
                                expected: SessionVersion(append@.expected),
                                actual: SessionVersion(number as u64),
                            }
                        },
                    },
                ),
                _ => true,
            },
        },
{
    let view = step@;
    assert(view == append@.next(reply@));
    match step {
        AppendStep::Continue(next) => {
            assert(view == AppendStepView::Continue(next@));
        },
        AppendStep::Finished(Ok(version)) => {
            assert(view == AppendStepView::Finished(Ok(version)));
        },
        AppendStep::Finished(Err(error)) => {
            assert(view == AppendStepView::Finished(Err(error@)));
        },
    }
    if let AppendReply::Version(found) = reply {
        assert(reply@ is Version);
    }
}

/// A database in a file is opened with its directory made first, where its path names one, and with
/// one set of options; one in memory with a single connection. Foreign keys are enforced in both.
pub proof fn law_databases_are_opened_as_asked(
    parent: Option<&str>,
    opening: OpenStore,
    memory: OpenStore,
    action: &OpenAction,
)
    requires
        call_ensures(open, (parent,), opening),
        call_ensures(in_memory, (), memory),
        call_ensures(OpenStore::action, (&opening,), action),
    ensures
        *action is CreateDirectory <==> parent is Some && parent->Some_0@.len() > 0,
        !(*action is CreateDirectory) ==> *action == OpenAction::Connect(opening@.options),
        *action is CreateDirectory ==> opening@.directory == parent->Some_0@,
        opening@.action == *action,
        opening@.options == (ConnectOptions {
            in_memory: false,
            create_if_missing: true,
            foreign_keys: true,
            busy_timeout_seconds: 5,
            journal_mode: JournalMode::Wal,
            synchronous: Synchronous::Normal,
            max_connections: 5,
        }),
        memory@.action == OpenAction::Connect(memory@.options),
        memory@.options == (ConnectOptions {
            in_memory: true,
            create_if_missing: false,
            foreign_keys: true,
            busy_timeout_seconds: 5,
            journal_mode: JournalMode::Usual,
            synchronous: Synchronous::Usual,
            max_connections: 1,
        }),
{
}

/// An opening goes from its directory to its connections, with its own options, and on to its
/// tables, and is then done. Where a step fails, the caller is told which one, with the name of the
/// directory, and in what words.
pub proof fn law_openings_go_on_in_turn(
    opening: OpenStore,
    answer: Result<(), String>,
    step: OpenStep,
)
    requires
        call_ensures(OpenStore::advance, (opening, answer), step),
    ensures
        match answer {
            Err(words) => step is Finished && error_of(step->Finished_0) == Some(
                StoreErrorView::Database(
                    match opening@.action {
                        OpenAction::CreateDirectory => "could not create database directory `"@
                            + opening@.directory + "`: "@ + words@,
                        OpenAction::Connect(_) => words@,
                        OpenAction::Migrate => "could not migrate SQLite database: "@ + words@,
                    },
                ),
            ),
            Ok(()) => match opening@.action {
                OpenAction::CreateDirectory => step is Continue && step->Continue_0@.action
                    == OpenAction::Connect(opening@.options) && step->Continue_0@.options
                    == opening@.options,
                OpenAction::Connect(_) => step is Continue && step->Continue_0@.action is Migrate
                    && step->Continue_0@.options == opening@.options,
                OpenAction::Migrate => step is Finished && step->Finished_0 is Ok,
            },
        },
{
    match step {
        OpenStep::Continue(next) => {},
        OpenStep::Finished(outcome) => {
            assert(seen(outcome) is Ok <==> outcome is Ok);
        },
    }
}

} // verus!
