use std::borrow::Cow;
use std::future::Future;
use std::path::Path;
use std::time::Duration;

use mamcli::append::{append_events, AppendAction, AppendEvents, AppendReply, AppendStep};
use mamcli::connection::{
    self, ConnectOptions, JournalMode, OpenAction, OpenStep, OpenStore, Synchronous,
};
use mamcli::create::{create_session, create_session_at, Insertion, PendingSession};
use mamcli::delete::{delete_session, deleted_session};
use mamcli::events::{events_after, found_events, read_events};
use mamcli::lookup::{
    found_session, found_summaries, get_session, latest_session, list_sessions,
};
use mamcli::rows::{EventRow, SessionRow, SummaryRow};
use mamcli::statement::{Parameter, Statement, SCHEMA};
use mamcli::{
    AgentName, CreateSession, EventSequence, NewEvent, Session, SessionId, SessionQuery,
    SessionSummary, SessionVersion, StoreError, StoredEvent, Timestamp,
};
use serde_json::Value;
use sqlx::migrate::{Migration, MigrationType, Migrator};
use sqlx::query::Query;
use sqlx::sqlite::{
    SqliteArguments, SqliteConnectOptions, SqliteJournalMode, SqlitePoolOptions, SqliteRow,
    SqliteSynchronous,
};
use sqlx::{Row, Sqlite, SqlitePool};

/// A store on a real database.
struct Store {
    pool: SqlitePool,
}

fn run<F: Future>(future: F) -> F::Output {
    tokio::runtime::Builder::new_current_thread()
        .enable_all()
        .build()
        .unwrap()
        .block_on(future)
}

fn json(text: &str) -> Value {
    serde_json::from_str(text).unwrap()
}

fn words<T>(result: Result<T, sqlx::Error>) -> Result<T, String> {
    result.map_err(|error| error.to_string())
}

fn bound(statement: Statement) -> Query<'static, Sqlite, SqliteArguments<'static>> {
    let mut query = sqlx::query(statement.sql());
    for parameter in statement.parameters() {
        query = match parameter {
            Parameter::Text(text) => query.bind(text),
            Parameter::OptionalText(text) => query.bind(text),
            Parameter::Integer(number) => query.bind(number),
        };
    }
    query
}

fn session_row(row: &SqliteRow) -> SessionRow {
    SessionRow {
        id: words(row.try_get("id")),
        root_agent: words(row.try_get("root_agent")),
        title: words(row.try_get("title")),
        metadata: words(row.try_get("metadata")),
        version: words(row.try_get("version")),
        created_at: words(row.try_get("created_at")),
        updated_at: words(row.try_get("updated_at")),
    }
}

fn summary_row(row: &SqliteRow) -> SummaryRow {
    SummaryRow {
        id: words(row.try_get("id")),
        root_agent: words(row.try_get("root_agent")),
        title: words(row.try_get("title")),
        version: words(row.try_get("version")),
        created_at: words(row.try_get("created_at")),
        updated_at: words(row.try_get("updated_at")),
    }
}

fn event_row(row: &SqliteRow) -> EventRow {
    EventRow {
        sequence: words(row.try_get("sequence")),
        kind: words(row.try_get("kind")),
        payload: words(row.try_get("payload")),
        created_at: words(row.try_get("created_at")),
    }
}

async fn connect(path: Option<&Path>, options: ConnectOptions) -> Result<SqlitePool, sqlx::Error> {
    let mut settings = SqliteConnectOptions::new()
        .foreign_keys(options.foreign_keys)
        .busy_timeout(Duration::from_secs(options.busy_timeout_seconds));
    if options.in_memory {
        settings = settings.in_memory(true);
    } else {
        settings = settings
            .filename(path.unwrap())
            .create_if_missing(options.create_if_missing);
    }
    if options.journal_mode == JournalMode::Wal {
        settings = settings.journal_mode(SqliteJournalMode::Wal);
    }
    if options.synchronous == Synchronous::Normal {
        settings = settings.synchronous(SqliteSynchronous::Normal);
    }
    SqlitePoolOptions::new()
        .max_connections(options.max_connections)
        .connect_with(settings)
        .await
}

async fn opened(path: Option<&Path>, start: OpenStore) -> Result<Store, StoreError> {
    let mut opening = start;
    let mut pool: Option<SqlitePool> = None;
    loop {
        let answer: Result<(), String> = match opening.action() {
            // The tests open databases in directories that are there.
            OpenAction::CreateDirectory => Ok(()),
            OpenAction::Connect(options) => match connect(path, *options).await {
                Ok(connected) => {
                    pool = Some(connected);
                    Ok(())
                }
                Err(error) => Err(error.to_string()),
            },
            OpenAction::Migrate => {
                let migrator = Migrator {
                    migrations: Cow::Owned(vec![Migration::new(
                        1,
                        Cow::Borrowed("sessions"),
                        MigrationType::Simple,
                        Cow::Borrowed(SCHEMA),
                        false,
                    )]),
                    ..Migrator::DEFAULT
                };
                migrator
                    .run(pool.as_ref().unwrap())
                    .await
                    .map_err(|error| error.to_string())
            }
        };
        match opening.advance(answer) {
            OpenStep::Continue(next) => opening = next,
            OpenStep::Finished(Ok(())) => {
                return Ok(Store {
                    pool: pool.unwrap(),
                })
            }
            OpenStep::Finished(Err(error)) => return Err(error),
        }
    }
}

impl Store {
    async fn open(path: &Path) -> Result<Store, StoreError> {
        let parent = path.parent().map(|parent| parent.display().to_string());
        opened(Some(path), connection::open(parent.as_deref())).await
    }

    async fn in_memory() -> Result<Store, StoreError> {
        opened(None, connection::in_memory()).await
    }

    async fn insert(&self, pending: PendingSession) -> Result<Session, StoreError> {
        let answer = match bound(pending.statement()).execute(&self.pool).await {
            Ok(_) => Insertion::Inserted,
            Err(sqlx::Error::Database(error)) if error.is_unique_violation() => {
                Insertion::UniqueViolation
            }
            Err(error) => Insertion::Failed(error.to_string()),
        };
        pending.finish(answer)
    }

    async fn create_session(&self, input: CreateSession) -> Result<Session, StoreError> {
        self.insert(create_session(input)?).await
    }

    async fn create_session_at(
        &self,
        input: CreateSession,
        now: Timestamp,
    ) -> Result<Session, StoreError> {
        self.insert(create_session_at(input, now)?).await
    }

    async fn get_session(&self, id: &SessionId) -> Result<Option<Session>, StoreError> {
        let row = bound(get_session(id)).fetch_optional(&self.pool).await;
        found_session(words(row).map(|row| row.as_ref().map(session_row)))
    }

    async fn latest_session(&self, agent: &AgentName) -> Result<Option<Session>, StoreError> {
        let row = bound(latest_session(agent)).fetch_optional(&self.pool).await;
        found_session(words(row).map(|row| row.as_ref().map(session_row)))
    }

    async fn list_sessions(&self, query: SessionQuery) -> Result<Vec<SessionSummary>, StoreError> {
        let rows = match list_sessions(query)? {
            None => Ok(Vec::new()),
            Some(statement) => bound(statement).fetch_all(&self.pool).await,
        };
        found_summaries(words(rows).map(|rows| rows.iter().map(summary_row).collect()))
    }

    async fn read_events(
        &self,
        id: &SessionId,
        after: Option<EventSequence>,
    ) -> Result<Vec<StoredEvent>, StoreError> {
        let row = bound(read_events(id)).fetch_optional(&self.pool).await;
        let statement = events_after(id, after, words(row).map(|row| row.is_some()))?;
        let rows = bound(statement).fetch_all(&self.pool).await;
        found_events(
            id,
            words(rows).map(|rows| rows.iter().map(event_row).collect()),
        )
    }

    async fn append_events(
        &self,
        id: &SessionId,
        expected: SessionVersion,
        events: Vec<NewEvent>,
    ) -> Result<SessionVersion, StoreError> {
        let append = append_events(id, expected, events)?;
        self.finish_append(append, None).await
    }

    async fn finish_append(
        &self,
        started: AppendEvents,
        begun: Option<sqlx::Transaction<'static, Sqlite>>,
    ) -> Result<SessionVersion, StoreError> {
        let mut append = started;
        let mut transaction = begun;
        loop {
            let reply = match append.action() {
                AppendAction::Begin => match self.pool.begin().await {
                    Ok(begun) => {
                        transaction = Some(begun);
                        AppendReply::Done
                    }
                    Err(error) => AppendReply::Failed(error.to_string()),
                },
                AppendAction::Update(statement) => {
                    let begun = transaction.as_mut().unwrap();
                    match bound(statement).execute(&mut **begun).await {
                        Ok(result) => AppendReply::Affected(result.rows_affected()),
                        Err(error) => AppendReply::Failed(error.to_string()),
                    }
                }
                AppendAction::FindVersion(statement) => {
                    let begun = transaction.as_mut().unwrap();
                    match bound(statement).fetch_optional(&mut **begun).await {
                        Ok(row) => AppendReply::Version(
                            row.map(|row| words(row.try_get::<i64, _>("version"))),
                        ),
                        Err(error) => AppendReply::Failed(error.to_string()),
                    }
                }
                AppendAction::Insert(statement) => {
                    let begun = transaction.as_mut().unwrap();
                    match bound(statement).execute(&mut **begun).await {
                        Ok(_) => AppendReply::Done,
                        Err(error) => AppendReply::Failed(error.to_string()),
                    }
                }
                AppendAction::Rollback => match transaction.take().unwrap().rollback().await {
                    Ok(()) => AppendReply::Done,
                    Err(error) => AppendReply::Failed(error.to_string()),
                },
                AppendAction::Commit => match transaction.take().unwrap().commit().await {
                    Ok(()) => AppendReply::Done,
                    Err(error) => AppendReply::Failed(error.to_string()),
                },
            };
            match append.advance(reply) {
                AppendStep::Continue(next) => append = next,
                AppendStep::Finished(outcome) => return outcome,
            }
        }
    }

    async fn delete_session(&self, id: &SessionId) -> Result<(), StoreError> {
        let result = bound(delete_session(id)).execute(&self.pool).await;
        deleted_session(id, words(result).map(|result| result.rows_affected()))
    }

    async fn execute(&self, sql: &'static str) {
        sqlx::query(sql).execute(&self.pool).await.unwrap();
    }
}

fn day(day: u32) -> Timestamp {
    Timestamp {
        year: 2024,
        month: 1,
        day,
        hour: 0,
        minute: 0,
        second: 0,
        nanosecond: 0,
    }
}

fn ids(summaries: Vec<SessionSummary>) -> Vec<String> {
    summaries
        .iter()
        .map(|summary| summary.id.to_string())
        .collect()
}

fn query(root_agent: Option<&str>, limit: usize) -> SessionQuery {
    SessionQuery {
        root_agent: root_agent.map(AgentName::from),
        limit,
    }
}

#[test]
fn persists_sessions_and_versioned_events() {
    run(async {
        let directory = tempfile::tempdir().unwrap();
        let database = directory.path().join("mamcli.db");
        let session_id = SessionId::from("ses_test");

        {
            let store = Store::open(&database).await.unwrap();
            let created = store
                .create_session(
                    CreateSession::new("architect")
                        .with_id(session_id.clone())
                        .with_title("Authentication API")
                        .with_metadata(json(r#"{"model": "openai/example"}"#)),
                )
                .await
                .unwrap();

            assert_eq!(created.version, SessionVersion::initial());
            assert_eq!(created.root_agent, AgentName::from("architect"));

            let version = store
                .append_events(
                    &session_id,
                    SessionVersion::initial(),
                    vec![
                        NewEvent::new(
                            "message_added",
                            json(r#"{"role": "user", "text": "Hello"}"#),
                        ),
                        NewEvent::new(
                            "message_added",
                            json(r#"{"role": "assistant", "text": "Hi"}"#),
                        ),
                    ],
                )
                .await
                .unwrap();

            assert_eq!(version, SessionVersion(2));

            let events = store
                .read_events(&session_id, Some(EventSequence(1)))
                .await
                .unwrap();
            assert_eq!(events.len(), 1);
            assert_eq!(events[0].sequence, EventSequence(2));
            assert_eq!(events[0].kind.as_str(), "message_added");
            assert_eq!(events[0].payload["text"], "Hi");
        }

        let reopened = Store::open(&database).await.unwrap();
        let session = reopened.get_session(&session_id).await.unwrap().unwrap();
        assert_eq!(session.version, SessionVersion(2));
        assert_eq!(session.metadata["model"], "openai/example");

        let latest = reopened
            .latest_session(&AgentName::from("architect"))
            .await
            .unwrap()
            .unwrap();
        assert_eq!(latest.id, session_id);

        let listed = reopened
            .list_sessions(SessionQuery {
                root_agent: Some(AgentName::from("architect")),
                limit: 10,
            })
            .await
            .unwrap();
        assert_eq!(listed.len(), 1);
        assert_eq!(listed[0].version, SessionVersion(2));
    });
}

#[test]
fn rejects_stale_writes_without_appending_events() {
    run(async {
        let store = Store::in_memory().await.unwrap();
        let session = store
            .create_session(CreateSession::new("architect"))
            .await
            .unwrap();

        store
            .append_events(
                &session.id,
                SessionVersion::initial(),
                vec![NewEvent::new("first", json(r#"{"value": 1}"#))],
            )
            .await
            .unwrap();

        let error = store
            .append_events(
                &session.id,
                SessionVersion::initial(),
                vec![NewEvent::new("stale", json(r#"{"value": 2}"#))],
            )
            .await
            .unwrap_err();

        assert!(matches!(
            error,
            StoreError::Conflict {
                expected: SessionVersion(0),
                actual: SessionVersion(1),
            }
        ));

        let events = store.read_events(&session.id, None).await.unwrap();
        assert_eq!(events.len(), 1);
        assert_eq!(events[0].kind.as_str(), "first");
    });
}

#[test]
fn deletion_cascades_events_and_missing_sessions_are_reported() {
    run(async {
        let store = Store::in_memory().await.unwrap();
        let session = store
            .create_session(CreateSession::new("critic"))
            .await
            .unwrap();

        store
            .append_events(
                &session.id,
                SessionVersion::initial(),
                vec![NewEvent::new("message_added", json(r#"{"text": "Review"}"#))],
            )
            .await
            .unwrap();

        store.delete_session(&session.id).await.unwrap();
        assert!(store.get_session(&session.id).await.unwrap().is_none());

        let error = store.read_events(&session.id, None).await.unwrap_err();
        assert!(matches!(error, StoreError::NotFound(id) if id == session.id));
    });
}

#[test]
fn a_created_session_is_found_as_it_was_returned() {
    run(async {
        let store = Store::in_memory().await.unwrap();
        let created = store
            .create_session(
                CreateSession::new("a b")
                    .with_id("x")
                    .with_title("T")
                    .with_metadata(json(r#"{"n": [1, null, "q"], "f": 1.5}"#)),
            )
            .await
            .unwrap();
        let found = store.get_session(&SessionId::from("x")).await.unwrap();
        assert_eq!(found, Some(created.clone()));
        assert_eq!(created.created_at, created.updated_at);
        assert_eq!(
            store.read_events(&created.id, None).await.unwrap(),
            Vec::new()
        );
        assert_eq!(store.get_session(&SessionId::from("y")).await.unwrap(), None);
    });
}

#[test]
fn a_taken_identifier_is_refused_and_changes_nothing() {
    run(async {
        let store = Store::in_memory().await.unwrap();
        let first = store
            .create_session(CreateSession::new("one").with_id("same"))
            .await
            .unwrap();
        let error = store
            .create_session(CreateSession::new("two").with_id("same"))
            .await
            .unwrap_err();
        assert!(matches!(error, StoreError::AlreadyExists(id) if id.as_str() == "same"));
        let found = store.get_session(&SessionId::from("same")).await.unwrap();
        assert_eq!(found, Some(first));
    });
}

#[test]
fn appended_events_are_read_back_in_order() {
    run(async {
        let store = Store::in_memory().await.unwrap();
        let id = SessionId::from("s");
        store
            .create_session(CreateSession::new("a").with_id("s"))
            .await
            .unwrap();
        let first = store
            .append_events(
                &id,
                SessionVersion(0),
                vec![
                    NewEvent::new("k1", json("1")),
                    NewEvent::new("k2", json("[]")),
                ],
            )
            .await
            .unwrap();
        let second = store
            .append_events(&id, first, vec![NewEvent::new("k3", json("\"\\u00e9\""))])
            .await
            .unwrap();
        assert_eq!((first, second), (SessionVersion(2), SessionVersion(3)));

        let all = store.read_events(&id, None).await.unwrap();
        let numbers: Vec<u64> = all.iter().map(|event| event.sequence.0).collect();
        let kinds: Vec<&str> = all.iter().map(|event| event.kind.as_str()).collect();
        assert_eq!(numbers, vec![1, 2, 3]);
        assert_eq!(kinds, vec!["k1", "k2", "k3"]);
        assert_eq!(all[0].payload, json("1"));
        assert_eq!(all[2].payload, json("\"\u{e9}\""));
        assert!(all.iter().all(|event| event.session_id == id));
        assert_eq!(all[0].created_at, all[1].created_at);

        let rest = store
            .read_events(&id, Some(EventSequence(1)))
            .await
            .unwrap();
        assert_eq!(rest[..], all[1..]);
        let none = store
            .read_events(&id, Some(EventSequence(3)))
            .await
            .unwrap();
        assert!(none.is_empty());

        let session = store.get_session(&id).await.unwrap().unwrap();
        assert_eq!(session.version, second);
        assert_eq!(session.updated_at, all[2].created_at);
    });
}

#[test]
fn appending_to_a_missing_session_is_reported() {
    run(async {
        let store = Store::in_memory().await.unwrap();
        let error = store
            .append_events(
                &SessionId::from("gone"),
                SessionVersion(0),
                vec![NewEvent::new("k", json("0"))],
            )
            .await
            .unwrap_err();
        assert!(matches!(error, StoreError::NotFound(id) if id.as_str() == "gone"));
    });
}

#[test]
fn a_failed_insertion_takes_the_whole_batch_with_it() {
    run(async {
        let store = Store::in_memory().await.unwrap();
        let id = SessionId::from("s");
        let created = store
            .create_session(CreateSession::new("a").with_id("s"))
            .await
            .unwrap();
        store
            .execute("INSERT INTO events VALUES ('s', 2, 'k', '0', '2024-01-01T00:00:00Z')")
            .await;
        let error = store
            .append_events(
                &id,
                SessionVersion(0),
                vec![
                    NewEvent::new("first", json("1")),
                    NewEvent::new("second", json("2")),
                ],
            )
            .await
            .unwrap_err();
        assert!(
            matches!(&error, StoreError::Database(message) if message.contains("UNIQUE")),
            "{error:?}"
        );
        assert_eq!(store.get_session(&id).await.unwrap(), Some(created));
        let events = store.read_events(&id, None).await.unwrap();
        assert_eq!(events.len(), 1);
        assert_eq!(events[0].sequence, EventSequence(2));
    });
}

#[test]
fn deletion_leaves_other_sessions_and_frees_the_identifier() {
    run(async {
        let store = Store::in_memory().await.unwrap();
        let (one, two) = (SessionId::from("one"), SessionId::from("two"));
        for id in [&one, &two] {
            store
                .create_session(CreateSession::new("a").with_id(id.clone()))
                .await
                .unwrap();
            store
                .append_events(id, SessionVersion(0), vec![NewEvent::new("k", json("0"))])
                .await
                .unwrap();
        }
        store.delete_session(&one).await.unwrap();
        assert_eq!(store.read_events(&two, None).await.unwrap().len(), 1);

        let error = store.delete_session(&one).await.unwrap_err();
        assert!(matches!(error, StoreError::NotFound(id) if id == one));

        let again = store
            .create_session(CreateSession::new("a").with_id(one.clone()))
            .await
            .unwrap();
        assert_eq!(again.version, SessionVersion(0));
        assert!(store.read_events(&one, None).await.unwrap().is_empty());
    });
}

#[test]
fn listings_start_with_the_latest_update() {
    run(async {
        let store = Store::in_memory().await.unwrap();
        for (id, agent, when) in [
            ("a", "x", 2),
            ("b", "x", 3),
            ("c", "y", 4),
            ("d", "x", 3),
            ("e", "y", 1),
        ] {
            store
                .create_session_at(CreateSession::new(agent).with_id(id), day(when))
                .await
                .unwrap();
        }
        let all = store.list_sessions(SessionQuery::default()).await.unwrap();
        assert_eq!(ids(all), vec!["c", "d", "b", "a", "e"]);
        let some = store.list_sessions(query(None, 2)).await.unwrap();
        assert_eq!(ids(some), vec!["c", "d"]);
        let of_x = store.list_sessions(query(Some("x"), 50)).await.unwrap();
        assert_eq!(ids(of_x), vec!["d", "b", "a"]);
        let none = store.list_sessions(query(Some("x"), 0)).await.unwrap();
        assert!(none.is_empty());
        let nobody = store.list_sessions(query(Some("z"), 5)).await.unwrap();
        assert!(nobody.is_empty());

        let latest = store.latest_session(&AgentName::from("x")).await.unwrap();
        assert_eq!(latest.unwrap().id.as_str(), "d");
        let missing = store.latest_session(&AgentName::from("z")).await.unwrap();
        assert_eq!(missing, None);

        store
            .append_events(
                &SessionId::from("a"),
                SessionVersion(0),
                vec![NewEvent::new("k", json("0"))],
            )
            .await
            .unwrap();
        let latest = store.latest_session(&AgentName::from("x")).await.unwrap();
        assert_eq!(latest.unwrap().id.as_str(), "a");
        let of_x = store.list_sessions(query(Some("x"), 50)).await.unwrap();
        assert_eq!(ids(of_x), vec!["a", "d", "b"]);
    });
}

#[test]
fn a_summary_agrees_with_its_session() {
    run(async {
        let store = Store::in_memory().await.unwrap();
        let session = store
            .create_session(CreateSession::new("a").with_id("s").with_title("T"))
            .await
            .unwrap();
        let listed = store.list_sessions(query(None, 1)).await.unwrap();
        assert_eq!(
            listed,
            vec![SessionSummary {
                id: session.id,
                root_agent: session.root_agent,
                title: session.title,
                version: session.version,
                created_at: session.created_at,
                updated_at: session.updated_at,
            }]
        );
    });
}

#[test]
fn a_session_is_missing_before_a_number_is_too_large() {
    run(async {
        let store = Store::in_memory().await.unwrap();
        let id = SessionId::from("s");
        let error = store
            .read_events(&id, Some(EventSequence(u64::MAX)))
            .await
            .unwrap_err();
        assert!(matches!(error, StoreError::NotFound(_)));
        store
            .create_session(CreateSession::new("a").with_id("s"))
            .await
            .unwrap();
        let error = store
            .read_events(&id, Some(EventSequence(1 << 63)))
            .await
            .unwrap_err();
        assert_eq!(
            error.to_string(),
            "invalid store input: event sequence exceeds SQLite's integer range"
        );
        let largest = store
            .read_events(&id, Some(EventSequence((1 << 63) - 1)))
            .await
            .unwrap();
        assert!(largest.is_empty());
    });
}

#[test]
fn damaged_rows_are_reported() {
    run(async {
        let store = Store::in_memory().await.unwrap();
        let id = SessionId::from("s");
        store
            .create_session(CreateSession::new("a").with_id("s"))
            .await
            .unwrap();
        store
            .append_events(&id, SessionVersion(0), vec![NewEvent::new("k", json("0"))])
            .await
            .unwrap();

        store.execute("UPDATE events SET payload = '{'").await;
        let error = store.read_events(&id, None).await.unwrap_err();
        assert_eq!(
            error.to_string(),
            "stored data is invalid: event payload contains invalid JSON: \
             EOF while parsing an object at line 1 column 1"
        );

        store.execute("UPDATE sessions SET updated_at = 'noon'").await;
        let error = store.get_session(&id).await.unwrap_err();
        assert_eq!(
            error.to_string(),
            "stored data is invalid: session updated_at contains invalid timestamp `noon`: \
             premature end of input"
        );

        store.execute("UPDATE sessions SET version = -1").await;
        let error = store.list_sessions(query(None, 5)).await.unwrap_err();
        assert_eq!(
            error.to_string(),
            "stored data is invalid: session version cannot be negative"
        );
        let error = store
            .append_events(&id, SessionVersion(1), vec![NewEvent::new("k", json("0"))])
            .await
            .unwrap_err();
        assert_eq!(
            error.to_string(),
            "stored data is invalid: session version cannot be negative"
        );

        store.execute("UPDATE sessions SET metadata = x'00ff'").await;
        let error = store.get_session(&id).await.unwrap_err();
        assert!(matches!(error, StoreError::Database(_)));
    });
}

#[test]
fn a_database_that_cannot_be_opened_is_reported() {
    run(async {
        let directory = tempfile::tempdir().unwrap();
        let error = match Store::open(directory.path()).await {
            Ok(_) => panic!("a directory is no database"),
            Err(error) => error,
        };
        assert!(matches!(error, StoreError::Database(_)));
    });
}

#[test]
fn removed_tables_are_reported() {
    run(async {
        let store = Store::in_memory().await.unwrap();
        store.execute("DROP TABLE events").await;
        store.execute("DROP TABLE sessions").await;
        let id = SessionId::from("s");
        let missing = "database error: error returned from database: \
                       (code: 1) no such table: sessions";
        let errors = vec![
            store
                .create_session(CreateSession::new("a"))
                .await
                .unwrap_err(),
            store.get_session(&id).await.unwrap_err(),
            store
                .latest_session(&AgentName::from("a"))
                .await
                .unwrap_err(),
            store
                .list_sessions(SessionQuery::default())
                .await
                .unwrap_err(),
            store.read_events(&id, None).await.unwrap_err(),
            store
                .append_events(&id, SessionVersion(0), vec![NewEvent::new("k", json("0"))])
                .await
                .unwrap_err(),
            store.delete_session(&id).await.unwrap_err(),
        ];
        for error in errors {
            assert_eq!(error.to_string(), missing);
        }
    });
}

#[test]
fn accepted_values_are_read_back_unchanged() {
    run(async {
        let store = Store::in_memory().await.unwrap();
        let deep = (0..200).fold(Value::Null, |inner, _| Value::Array(vec![inner]));
        let float = Value::from(31.245270191439438);
        let created = store
            .create_session(
                CreateSession::new("a")
                    .with_id("s1")
                    .with_title("")
                    .with_metadata(deep.clone()),
            )
            .await
            .unwrap();
        let id = SessionId::from("s1");
        assert_eq!(store.get_session(&id).await.unwrap(), Some(created));
        let version = store
            .append_events(
                &id,
                SessionVersion(0),
                vec![
                    NewEvent::new("k", deep.clone()),
                    NewEvent::new("k", float.clone()),
                ],
            )
            .await
            .unwrap();
        assert_eq!(version, SessionVersion(2));
        let events = store.read_events(&id, None).await.unwrap();
        assert_eq!(events.len(), 2);
        assert_eq!(events[0].payload, deep);
        assert_eq!(events[1].payload, float);
    });
}

#[test]
fn a_writer_who_began_first_can_be_refused() {
    run(async {
        let directory = tempfile::tempdir().unwrap();
        let store = Store::open(&directory.path().join("mamcli.db"))
            .await
            .unwrap();
        let id = SessionId::from("s");
        store
            .create_session(CreateSession::new("a").with_id("s"))
            .await
            .unwrap();

        let batch = || vec![NewEvent::new("k", json("0"))];
        let slow = append_events(&id, SessionVersion(0), batch()).unwrap();
        assert!(matches!(slow.action(), AppendAction::Begin));
        let begun = store.pool.begin().await.unwrap();
        let slow = match slow.advance(AppendReply::Done) {
            AppendStep::Continue(next) => next,
            AppendStep::Finished(_) => panic!("there is more to do"),
        };

        let quick = store.append_events(&id, SessionVersion(0), batch()).await;
        assert_eq!(quick.unwrap(), SessionVersion(1));

        let error = store.finish_append(slow, Some(begun)).await.unwrap_err();
        assert!(matches!(
            error,
            StoreError::Conflict {
                expected: SessionVersion(0),
                actual: SessionVersion(1),
            }
        ));
        assert_eq!(store.read_events(&id, None).await.unwrap().len(), 1);
    });
}

#[test]
fn rows_that_are_nested_too_deep_are_reported() {
    run(async {
        let store = Store::in_memory().await.unwrap();
        let id = SessionId::from("s");
        store
            .create_session(CreateSession::new("a").with_id("s"))
            .await
            .unwrap();
        sqlx::query("UPDATE sessions SET metadata = ?")
            .bind("[".repeat(100_000))
            .execute(&store.pool)
            .await
            .unwrap();
        assert_eq!(
            store.get_session(&id).await.unwrap_err().to_string(),
            "stored data is invalid: session metadata contains invalid JSON: \
             recursion limit exceeded at line 1 column 128"
        );
    });
}
