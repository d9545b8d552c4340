//! Reading the events of a session.
use vstd::prelude::*;

use crate::checks::{integer_to_sql, sql_integer};
use crate::error::{database_error, seen, StoreError, StoreErrorView};
use crate::names::{EventSequence, SessionId};
use crate::rows::{event_from_row, event_in, EventRow, EventRowView};
use crate::session::{StoredEvent, StoredEventView};
use crate::statement::{Statement, StatementView};

verus! {

/// The statement with which reading events starts: it finds out whether there is the session.
pub fn read_events(session_id: &SessionId) -> (statement: Statement)
    ensures
        statement@ == (StatementView::SelectSessionExists { id: session_id@ }),
{
    Statement::SelectSessionExists { id: session_id.to_string() }
}

/// What [`ensure_session_exists`] returns.
pub open spec fn existence(session_id: Seq<char>, answer: Result<bool, Seq<char>>) -> Result<
    (),
    StoreErrorView,
> {
    match answer {
        Ok(true) => Ok(()),
        Ok(false) => Err(StoreErrorView::NotFound(session_id)),
        Err(error) => Err(StoreErrorView::Database(error)),
    }
}

/// The view of whether a row was found, or of the words of the database.
pub open spec fn existence_answer(answer: Result<bool, String>) -> Result<bool, Seq<char>> {
    match answer {
        Ok(exists) => Ok(exists),
        Err(error) => Err(error@),
    }
}

/// Refuses to go on without the session, going by whether the database found its row.
pub fn ensure_session_exists(session_id: &SessionId, answer: Result<bool, String>) -> (checked:
    Result<(), StoreError>)
    ensures
        seen(checked) == existence(session_id@, existence_answer(answer)),
{
    match answer {
        Ok(true) => Ok(()),
        Ok(false) => Err(StoreError::NotFound(session_id.clone())),
        Err(error) => Err(database_error(error)),
    }
}

/// The sequence number past which events are read. Without one, events are read from the first.
pub open spec fn start_of(after: Option<EventSequence>) -> u64 {
    match after {
        Some(sequence) => sequence.0,
        None => 0,
    }
}

/// The statement that lists events, or why they are not listed. A missing session is reported
/// before an impossible sequence number.
pub open spec fn events_listing(
    session_id: Seq<char>,
    after: Option<EventSequence>,
    answer: Result<bool, Seq<char>>,
) -> Result<StatementView, StoreErrorView> {
    match existence(session_id, answer) {
        Ok(()) => match sql_integer("event sequence"@, start_of(after)) {
            Ok(after) => Ok(StatementView::SelectEvents { session_id, after }),
            Err(error) => Err(error),
        },
        Err(error) => Err(error),
    }
}

/// The statement that lists the events of the session strictly past `after`, ordered by sequence,
/// going by whether the database found the session.
pub fn events_after(
    session_id: &SessionId,
    after: Option<EventSequence>,
    answer: Result<bool, String>,
) -> (statement: Result<Statement, StoreError>)
    ensures
        seen(statement) == events_listing(session_id@, after, existence_answer(answer)),
{
    ensure_session_exists(session_id, answer)?;
    let after: EventSequence = after.unwrap_or(EventSequence(0));
    let after: i64 = integer_to_sql("event sequence", after.0)?;
    Ok(Statement::SelectEvents { session_id: session_id.to_string(), after })
}

/// The events that rows stand for, or the error of the first faulty row.
pub open spec fn events_in(session_id: Seq<char>, rows: Seq<EventRowView>) -> Result<
    Seq<StoredEventView>,
    StoreErrorView,
>
    decreases rows.len(),
{
    if rows.len() == 0 {
        Ok(Seq::empty())
    } else {
        match events_in(session_id, rows.drop_last()) {
            Ok(events) => match event_in(session_id, rows.last()) {
                Ok(event) => Ok(events.push(event)),
                Err(error) => Err(error),
            },
            Err(error) => Err(error),
        }
    }
}

/// What [`found_events`] returns for the rows that the database found.
pub open spec fn events_found(
    session_id: Seq<char>,
    answer: Result<Seq<EventRowView>, Seq<char>>,
) -> Result<Seq<StoredEventView>, StoreErrorView> {
    match answer {
        Ok(rows) => events_in(session_id, rows),
        Err(error) => Err(StoreErrorView::Database(error)),
    }
}

/// The views of rows, or of the words of the database.
pub open spec fn event_answer(answer: Result<Vec<EventRow>, String>) -> Result<
    Seq<EventRowView>,
    Seq<char>,
> {
    match answer {
        Ok(rows) => Ok(rows@.map_values(|row: EventRow| row@)),
        Err(error) => Err(error@),
    }
}

proof fn lemma_events_prefix(session_id: Seq<char>, rows: Seq<EventRowView>, n: int)
    requires
        0 <= n <= rows.len(),
    ensures
        events_in(session_id, rows.take(n)) is Err ==> events_in(session_id, rows) == events_in(
            session_id,
            rows.take(n),
        ),
    decreases rows.len(),
{
    if n == rows.len() {
        assert(rows.take(n) =~= rows);
    } else {
        assert(rows.drop_last().take(n) =~= rows.take(n));
        lemma_events_prefix(session_id, rows.drop_last(), n);
    }
}

/// The events of the session that the database listed.
pub fn found_events(session_id: &SessionId, answer: Result<Vec<EventRow>, String>) -> (found:
    Result<Vec<StoredEvent>, StoreError>)
    ensures
        match found {
            Ok(events) => events_found(session_id@, event_answer(answer)) == Ok::<
                Seq<StoredEventView>,
                StoreErrorView,
            >(events@.map_values(|event: StoredEvent| event@)),
            Err(error) => events_found(session_id@, event_answer(answer)) == Err::<
                Seq<StoredEventView>,
                StoreErrorView,
            >(error@),
        },
{
    let rows: Vec<EventRow> = match answer {
        Ok(rows) => rows,
        Err(error) => {
            return Err(database_error(error));
        },
    };
    let ghost all = rows@;
    let ghost views = all.map_values(|row: EventRow| row@);
    let mut events: Vec<StoredEvent> = Vec::new();
    assert(events@.map_values(|event: StoredEvent| event@) =~= Seq::empty());
    for row in iter: rows
        invariant
            iter.seq() == all,
            views == all.map_values(|row: EventRow| row@),
            event_answer(answer) == Ok::<Seq<EventRowView>, Seq<char>>(views),
            events_in(session_id@, views.take(iter.index() as int)) == Ok::<
                Seq<StoredEventView>,
                StoreErrorView,
            >(events@.map_values(|event: StoredEvent| event@)),
    {
        let ghost n = iter.index() as int;
        let ghost before = events@.map_values(|event: StoredEvent| event@);
        assert(views.take(n + 1).drop_last() =~= views.take(n));
        assert(views.take(n + 1).last() == row@);
        match event_from_row(session_id, row) {
            Ok(event) => {
                events.push(event);
                assert(events@.map_values(|event: StoredEvent| event@) =~= before.push(event@));
            },
            Err(error) => {
                proof {
                    lemma_events_prefix(session_id@, views, n + 1);
                }
                return Err(error);
            },
        }
    }
    assert(views.take(views.len() as int) =~= views);
    Ok(events)
}

} // verus!
