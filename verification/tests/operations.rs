use mamcli::append::{
    append_events_at, AppendAction, AppendEvents, AppendReply, AppendStep,
};
use mamcli::create::{create_session, create_session_at, Insertion};
use mamcli::delete::{delete_session, deleted_session};
use mamcli::events::{ensure_session_exists, events_after, found_events, read_events};
use mamcli::lookup::{
    found_session, found_summaries, get_session, latest_session, list_sessions,
};
use mamcli::rows::{
    event_from_row, session_from_row, session_summary_from_row, EventRow, SessionRow, SummaryRow,
};
use mamcli::statement::{Parameter, Statement};
use mamcli::{
    AgentName, CreateSession, EventSequence, NewEvent, SessionId, SessionQuery, SessionVersion,
    StoreError, Timestamp,
};
use serde_json::Value;

const NOON: Timestamp = Timestamp {
    year: 2024,
    month: 7,
    day: 9,
    hour: 12,
    minute: 0,
    second: 0,
    nanosecond: 0,
};

const NOON_TEXT: &str = "2024-07-09T12:00:00.000000000Z";

fn message<T>(result: Result<T, StoreError>) -> String {
    match result {
        Ok(_) => panic!("an error was expected"),
        Err(error) => error.to_string(),
    }
}

fn no<T>() -> Result<T, String> {
    Err(String::from("no"))
}

/// The values of a statement, one after the other.
fn values(statement: Statement) -> Vec<String> {
    let mut values: Vec<String> = Vec::new();
    for parameter in statement.parameters() {
        values.push(match parameter {
            Parameter::Text(text) => text,
            Parameter::OptionalText(Some(text)) => format!("some {text}"),
            Parameter::OptionalText(None) => String::from("none"),
            Parameter::Integer(number) => format!("{number}"),
        });
    }
    values
}

/// The words of the SQL text.
fn sql(statement: &Statement) -> String {
    let words: Vec<&str> = statement.sql().split_whitespace().collect();
    words.join(" ")
}

fn text(value: &str) -> Result<String, String> {
    Ok(String::from(value))
}

fn summary_row(id: &str) -> SummaryRow {
    SummaryRow {
        id: text(id),
        root_agent: text("a"),
        title: Ok(None),
        version: Ok(3),
        created_at: text(NOON_TEXT),
        updated_at: text(NOON_TEXT),
    }
}

fn session_row(id: &str) -> SessionRow {
    SessionRow {
        id: text(id),
        root_agent: text("a"),
        title: Ok(Some(String::from("T"))),
        metadata: text("{\"m\":1}"),
        version: Ok(3),
        created_at: text(NOON_TEXT),
        updated_at: text("2024-07-09T13:00:00+01:00"),
    }
}

fn event_row(sequence: i64) -> EventRow {
    EventRow {
        sequence: Ok(sequence),
        kind: text("k"),
        payload: text("[true]"),
        created_at: text(NOON_TEXT),
    }
}

#[test]
fn a_session_is_created_with_one_statement() {
    let input = CreateSession::new("a").with_id("s").with_title("T");
    let pending = create_session_at(input, NOON).unwrap();
    let statement = pending.statement();
    assert_eq!(
        sql(&statement),
        "INSERT INTO sessions ( id, root_agent, title, metadata, version, created_at, updated_at ) \
         VALUES (?, ?, ?, ?, 0, ?, ?)"
    );
    assert_eq!(
        values(statement),
        vec!["s", "a", "some T", "{}", NOON_TEXT, NOON_TEXT]
    );
    let session = pending.finish(Insertion::Inserted).unwrap();
    assert_eq!(session.id.as_str(), "s");
    assert_eq!(session.title.as_deref(), Some("T"));
    assert_eq!(session.version, SessionVersion(0));
    assert_eq!((session.created_at, session.updated_at), (NOON, NOON));
}

#[test]
fn a_creation_can_fail() {
    let input = || CreateSession::new("a").with_id("s");
    let taken = create_session_at(input(), NOON).unwrap();
    assert_eq!(
        message(taken.finish(Insertion::UniqueViolation)),
        "session `s` already exists"
    );
    let failed = create_session(input()).unwrap();
    assert_eq!(
        message(failed.finish(Insertion::Failed(String::from("no")))),
        "database error: no"
    );
}

#[test]
fn blank_requests_are_refused() {
    assert_eq!(
        message(create_session(CreateSession::new("").with_id(" "))),
        "invalid store input: session id cannot be empty"
    );
    assert_eq!(
        message(create_session(CreateSession::new("\t").with_id("s"))),
        "invalid store input: root agent cannot be empty"
    );
}

#[test]
fn sessions_are_found_by_statements() {
    let columns = "SELECT id, root_agent, title, metadata, version, created_at, updated_at";
    let one = get_session(&SessionId::from("s"));
    assert_eq!(sql(&one), format!("{columns} FROM sessions WHERE id = ?"));
    assert_eq!(values(one), vec!["s"]);
    let latest = latest_session(&AgentName::from("a"));
    assert_eq!(
        sql(&latest),
        format!(
            "{columns} FROM sessions WHERE root_agent = ? \
             ORDER BY updated_at DESC, id DESC LIMIT 1"
        )
    );
    assert_eq!(values(latest), vec!["a"]);
    assert_eq!(found_session(Ok(None)).unwrap(), None);
    assert_eq!(message(found_session(no())), "database error: no");
    let session = found_session(Ok(Some(session_row("s")))).unwrap().unwrap();
    assert_eq!(session.id.as_str(), "s");
    assert_eq!(session.updated_at, NOON);
    assert_eq!(session.metadata["m"], 1);
    assert_eq!(session.version, SessionVersion(3));
}

#[test]
fn the_first_faulty_column_is_reported() {
    let good = session_from_row(session_row("s")).unwrap();
    assert_eq!(good.title.as_deref(), Some("T"));

    let mut row = session_row("s");
    row.metadata = text("{");
    row.id = no();
    assert_eq!(
        message(session_from_row(row)),
        "stored data is invalid: session metadata contains invalid JSON: \
         EOF while parsing an object at line 1 column 1"
    );
    let mut row = session_row("s");
    row.metadata = no();
    assert_eq!(message(session_from_row(row)), "database error: no");
    let mut row = session_row("s");
    row.root_agent = no();
    row.version = Ok(-1);
    assert_eq!(message(session_from_row(row)), "database error: no");
    let mut row = session_row("s");
    row.version = Ok(-1);
    row.created_at = no();
    assert_eq!(
        message(session_from_row(row)),
        "stored data is invalid: session version cannot be negative"
    );
    let mut row = summary_row("s");
    row.title = no();
    assert_eq!(message(session_summary_from_row(row)), "database error: no");
    let mut row = summary_row("s");
    row.created_at = text("");
    row.updated_at = no();
    assert_eq!(
        message(session_summary_from_row(row)),
        "stored data is invalid: session created_at contains invalid timestamp ``: \
         premature end of input"
    );
    let id = SessionId::from("s");
    let event = event_from_row(&id, event_row(7)).unwrap();
    assert_eq!(event.sequence, EventSequence(7));
    assert_eq!(event.payload, Value::Array(vec![Value::Bool(true)]));
    let mut row = event_row(-7);
    row.kind = no();
    assert_eq!(
        message(event_from_row(&id, row)),
        "stored data is invalid: event sequence cannot be negative"
    );
    let mut row = event_row(7);
    row.created_at = no();
    assert_eq!(message(event_from_row(&id, row)), "database error: no");
}

#[test]
fn sessions_are_listed_by_statements() {
    let columns = "SELECT id, root_agent, title, version, created_at, updated_at FROM sessions";
    let all = list_sessions(SessionQuery::default()).unwrap().unwrap();
    assert_eq!(
        sql(&all),
        format!("{columns} ORDER BY updated_at DESC, id DESC LIMIT ?")
    );
    assert_eq!(values(all), vec!["50"]);
    let of_agent = list_sessions(SessionQuery {
        root_agent: Some(AgentName::from("a")),
        limit: i64::MAX as usize,
    })
    .unwrap()
    .unwrap();
    assert_eq!(
        sql(&of_agent),
        format!("{columns} WHERE root_agent = ? ORDER BY updated_at DESC, id DESC LIMIT ?")
    );
    assert_eq!(values(of_agent), vec!["a", "9223372036854775807"]);
    let none = SessionQuery {
        root_agent: None,
        limit: 0,
    };
    assert!(list_sessions(none).unwrap().is_none());
    let large = SessionQuery {
        root_agent: None,
        limit: i64::MAX as usize + 1,
    };
    assert_eq!(
        message(list_sessions(large)),
        "invalid store input: session limit is too large"
    );
}

#[test]
fn a_listing_is_faulty_where_a_row_is() {
    assert_eq!(message(found_summaries(no())), "database error: no");
    assert!(found_summaries(Ok(Vec::new())).unwrap().is_empty());
    let found = found_summaries(Ok(vec![summary_row("b"), summary_row("a")])).unwrap();
    assert_eq!(found[0].id.as_str(), "b");
    assert_eq!(found[1].id.as_str(), "a");
    let mut second = summary_row("b");
    second.version = Ok(-2);
    let mut third = summary_row("c");
    third.id = no();
    assert_eq!(
        message(found_summaries(Ok(vec![summary_row("a"), second, third]))),
        "stored data is invalid: session version cannot be negative"
    );
}

#[test]
fn events_are_read_past_a_number() {
    let id = SessionId::from("s");
    let first = read_events(&id);
    assert_eq!(sql(&first), "SELECT 1 FROM sessions WHERE id = ?");
    assert_eq!(values(first), vec!["s"]);
    let all = events_after(&id, None, Ok(true)).unwrap();
    assert_eq!(
        sql(&all),
        "SELECT sequence, kind, payload, created_at FROM events \
         WHERE session_id = ? AND sequence > ? ORDER BY sequence ASC"
    );
    assert_eq!(values(all), vec!["s", "0"]);
    let rest = events_after(&id, Some(EventSequence(4)), Ok(true)).unwrap();
    assert_eq!(values(rest), vec!["s", "4"]);
    assert_eq!(
        message(events_after(&id, None, Ok(false))),
        "session `s` was not found"
    );
    assert_eq!(message(events_after(&id, None, no())), "database error: no");
    assert!(ensure_session_exists(&id, Ok(true)).is_ok());
    assert_eq!(
        message(ensure_session_exists(&id, Ok(false))),
        "session `s` was not found"
    );
    assert_eq!(message(found_events(&id, no())), "database error: no");
    let found = found_events(&id, Ok(vec![event_row(5), event_row(6)])).unwrap();
    assert_eq!(found[1].sequence, EventSequence(6));
    assert_eq!(found[1].session_id, id);
    let faulty = found_events(&id, Ok(vec![event_row(5), event_row(-6)]));
    assert_eq!(
        message(faulty),
        "stored data is invalid: event sequence cannot be negative"
    );
}

#[test]
fn a_session_is_deleted_with_one_statement() {
    let id = SessionId::from("s");
    let statement = delete_session(&id);
    assert_eq!(sql(&statement), "DELETE FROM sessions WHERE id = ?");
    assert_eq!(values(statement), vec!["s"]);
    assert!(deleted_session(&id, Ok(1)).is_ok());
    assert_eq!(
        message(deleted_session(&id, Ok(0))),
        "session `s` was not found"
    );
    assert_eq!(message(deleted_session(&id, no())), "database error: no");
}

fn batch(kinds: &[&str]) -> Vec<NewEvent> {
    kinds
        .iter()
        .map(|kind| NewEvent::new(*kind, Value::Null))
        .collect()
}

fn started(version: u64, kinds: &[&str]) -> Result<AppendEvents, StoreError> {
    append_events_at(
        &SessionId::from("s"),
        SessionVersion(version),
        batch(kinds),
        NOON,
    )
}

fn next(append: AppendEvents, reply: AppendReply) -> AppendEvents {
    match append.advance(reply) {
        AppendStep::Continue(next) => next,
        AppendStep::Finished(_) => panic!("there is more to do"),
    }
}

fn end(append: AppendEvents, reply: AppendReply) -> Result<SessionVersion, StoreError> {
    match append.advance(reply) {
        AppendStep::Continue(_) => panic!("there is nothing more to do"),
        AppendStep::Finished(outcome) => outcome,
    }
}

fn failed() -> AppendReply {
    AppendReply::Failed(String::from("no"))
}

#[test]
fn a_batch_is_appended_in_one_transaction() {
    let append = started(7, &["k1", "k2"]).unwrap();
    assert!(matches!(append.action(), AppendAction::Begin));
    let append = next(append, AppendReply::Done);
    match append.action() {
        AppendAction::Update(statement) => {
            assert_eq!(
                sql(&statement),
                "UPDATE sessions SET version = ?, updated_at = ? WHERE id = ? AND version = ?"
            );
            assert_eq!(values(statement), vec!["9", NOON_TEXT, "s", "7"]);
        }
        action => panic!("{action:?}"),
    }
    let append = next(append, AppendReply::Affected(1));
    match append.action() {
        AppendAction::Insert(statement) => {
            assert_eq!(
                sql(&statement),
                "INSERT INTO events (session_id, sequence, kind, payload, created_at) \
                 VALUES (?, ?, ?, ?, ?)"
            );
            assert_eq!(values(statement), vec!["s", "8", "k1", "null", NOON_TEXT]);
        }
        action => panic!("{action:?}"),
    }
    let append = next(append, AppendReply::Done);
    match append.action() {
        AppendAction::Insert(statement) => {
            assert_eq!(values(statement), vec!["s", "9", "k2", "null", NOON_TEXT]);
        }
        action => panic!("{action:?}"),
    }
    let append = next(append, AppendReply::Done);
    assert!(matches!(append.action(), AppendAction::Commit));
    assert_eq!(end(append, AppendReply::Done).unwrap(), SessionVersion(9));
}

#[test]
fn a_session_at_another_version_is_left_alone() {
    for (found, expected) in [
        (None, "session `s` was not found"),
        (
            Some(Ok(8)),
            "session version conflict: expected version 7, but current version is 8",
        ),
        (
            Some(Ok(-1)),
            "stored data is invalid: session version cannot be negative",
        ),
        (Some(no()), "database error: no"),
    ] {
        let append = next(started(7, &["k"]).unwrap(), AppendReply::Done);
        let append = next(append, AppendReply::Affected(0));
        match append.action() {
            AppendAction::FindVersion(statement) => {
                assert_eq!(sql(&statement), "SELECT version FROM sessions WHERE id = ?");
                assert_eq!(values(statement), vec!["s"]);
            }
            action => panic!("{action:?}"),
        }
        let append = next(append, AppendReply::Version(found));
        assert!(matches!(append.action(), AppendAction::Rollback));
        assert_eq!(message(end(append, AppendReply::Done)), expected);
    }
}

#[test]
fn a_failure_of_the_database_ends_an_append() {
    let begin = || started(0, &["k"]).unwrap();
    let claim = || next(begin(), AppendReply::Done);
    let inspect = || next(claim(), AppendReply::Affected(0));
    let abandon = || next(inspect(), AppendReply::Version(None));
    let insert = || next(claim(), AppendReply::Affected(1));
    let commit = || next(insert(), AppendReply::Done);
    for append in [begin(), claim(), inspect(), abandon(), insert(), commit()] {
        assert_eq!(message(end(append, failed())), "database error: no");
    }
}

#[test]
fn faulty_batches_are_refused() {
    assert_eq!(
        message(started(0, &[])),
        "invalid store input: an event batch cannot be empty"
    );
    assert_eq!(
        message(started(u64::MAX, &["k", " "])),
        "invalid store input: event kind cannot be empty"
    );
    assert_eq!(
        message(started(u64::MAX, &["k"])),
        "invalid store input: session version overflow"
    );
    let range = "invalid store input: session version exceeds SQLite's integer range";
    assert_eq!(message(started(u64::MAX - 1, &["k"])), range);
    assert_eq!(message(started(i64::MAX as u64, &["k"])), range);
    let largest = started(i64::MAX as u64 - 1, &["k"]).unwrap();
    let insert = next(next(largest, AppendReply::Done), AppendReply::Affected(1));
    match insert.action() {
        AppendAction::Insert(statement) => {
            assert_eq!(values(statement)[1], "9223372036854775807");
        }
        action => panic!("{action:?}"),
    }
}
