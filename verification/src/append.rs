//! Appending events to a session.
//!
//! A batch is appended in one transaction. The transaction moves the session from the version
//! that the caller expects to the version after the batch, and then adds the events. Where the
//! session is not at the expected version, the transaction is rolled back.
use vstd::prelude::*;
use vstd::string::StringExecFns;

use crate::checks::{integer_to_sql, number_from_sql, sql_to_integer, validate_non_empty};
use crate::database::Database;
use crate::error::{database_error, seen, StoreError, StoreErrorView};
use crate::events::events_found;
use crate::json::{encode_json, json_fits, json_survives, json_text};
use crate::laws::append::{database_after, is_current};
use crate::laws::reading::{
    law_append_is_read_back, law_kept_events_are_read, stored_events,
};
use crate::names::{EventKind, SessionId, SessionVersion};
use crate::rows::{integer_column, EventRowView};
use crate::session::{new_events, NewEvent, NewEventView, StoredEventView};
use crate::statement::{Statement, StatementView};
use crate::text::{is_blank, join};
use crate::time::{encode_timestamp, Timestamp};

verus! {

/// An event with its payload as text.
struct EncodedEvent {
    kind: EventKind,
    payload: String,
}

/// An event with its payload as text, as sequences of characters.
pub struct EncodedEventView {
    pub kind: Seq<char>,
    pub payload: Seq<char>,
}

impl View for EncodedEvent {
    type V = EncodedEventView;

    closed spec fn view(&self) -> EncodedEventView {
        EncodedEventView { kind: self.kind@, payload: self.payload@ }
    }
}

/// How far an append has come.
enum Phase {
    Beginning,
    Claiming,
    Inspecting,
    Abandoning(Option<Result<i64, String>>),
    Inserting(usize),
    Committing,
}

/// How far an append has come: what it waits for the database to do.
pub enum PhaseView {
    /// The transaction is to begin.
    Beginning,
    /// The session is to move from the expected version to the new one.
    Claiming,
    /// The session did not move. Its version is to be found out.
    Inspecting,
    /// The session did not move, and this was found of its version. The transaction is to be
    /// rolled back.
    Abandoning(Option<Result<i64, Seq<char>>>),
    /// The session has moved. The event with this index is to be added.
    Inserting(int),
    /// All events were added. The transaction is to be committed.
    Committing,
}

/// What was found of a session's version, as sequences of characters.
pub open spec fn version_found(found: Option<Result<i64, String>>) -> Option<
    Result<i64, Seq<char>>,
> {
    match found {
        Some(column) => Some(integer_column(column)),
        None => None,
    }
}

impl View for Phase {
    type V = PhaseView;

    closed spec fn view(&self) -> PhaseView {
        match *self {
            Phase::Beginning => PhaseView::Beginning,
            Phase::Claiming => PhaseView::Claiming,
            Phase::Inspecting => PhaseView::Inspecting,
            Phase::Abandoning(found) => PhaseView::Abandoning(version_found(found)),
            Phase::Inserting(next) => PhaseView::Inserting(next as int),
            Phase::Committing => PhaseView::Committing,
        }
    }
}

/// An append in progress.
pub struct AppendEvents {
    session_id: SessionId,
    expected: SessionVersion,
    events: Vec<EncodedEvent>,
    now: String,
    phase: Phase,
}

/// An [`AppendEvents`] with its texts as sequences of characters.
pub struct AppendEventsView {
    pub session_id: Seq<char>,
    pub expected: u64,
    pub events: Seq<EncodedEventView>,
    pub now: Seq<char>,
    pub phase: PhaseView,
}

impl View for AppendEvents {
    type V = AppendEventsView;

    closed spec fn view(&self) -> AppendEventsView {
        AppendEventsView {
            session_id: self.session_id@,
            expected: self.expected.0,
            events: self.events@.map_values(|event: EncodedEvent| event@),
            now: self.now@,
            phase: self.phase@,
        }
    }
}

/// What the database is to do next for an append.
#[derive(Debug)]
pub enum AppendAction {
    /// Begin a transaction.
    Begin,
    /// Execute the statement, and count the rows it affected.
    Update(Statement),
    /// Find the row of the statement, if there is one, and its version.
    FindVersion(Statement),
    /// Execute the statement.
    Insert(Statement),
    /// Roll the transaction back.
    Rollback,
    /// Commit the transaction.
    Commit,
}

/// An [`AppendAction`] with the view of its statement.
pub enum AppendActionView {
    Begin,
    Update(StatementView),
    FindVersion(StatementView),
    Insert(StatementView),
    Rollback,
    Commit,
}

impl View for AppendAction {
    type V = AppendActionView;

    open spec fn view(&self) -> AppendActionView {
        match *self {
            AppendAction::Begin => AppendActionView::Begin,
            AppendAction::Update(statement) => AppendActionView::Update(statement@),
            AppendAction::FindVersion(statement) => AppendActionView::FindVersion(statement@),
            AppendAction::Insert(statement) => AppendActionView::Insert(statement@),
            AppendAction::Rollback => AppendActionView::Rollback,
            AppendAction::Commit => AppendActionView::Commit,
        }
    }
}

/// What the database did.
#[derive(Debug)]
pub enum AppendReply {
    /// It failed, and said this.
    Failed(String),
    /// It began, executed, rolled back or committed.
    Done,
    /// It affected this many rows.
    Affected(u64),
    /// It found this in the version column of the session's row, if it found the row.
    Version(Option<Result<i64, String>>),
}

/// An [`AppendReply`] with its texts as sequences of characters.
pub enum AppendReplyView {
    Failed(Seq<char>),
    Done,
    Affected(u64),
    Version(Option<Result<i64, Seq<char>>>),
}

impl View for AppendReply {
    type V = AppendReplyView;

    open spec fn view(&self) -> AppendReplyView {
        match *self {
            AppendReply::Failed(error) => AppendReplyView::Failed(error@),
            AppendReply::Done => AppendReplyView::Done,
            AppendReply::Affected(rows) => AppendReplyView::Affected(rows),
            AppendReply::Version(found) => AppendReplyView::Version(version_found(found)),
        }
    }
}

impl AppendActionView {
    /// Whether the reply is one that the action can have.
    pub open spec fn admits(self, reply: AppendReplyView) -> bool {
        match reply {
            AppendReplyView::Failed(_) => true,
            AppendReplyView::Done => !(self is Update) && !(self is FindVersion),
            AppendReplyView::Affected(_) => self is Update,
            AppendReplyView::Version(_) => self is FindVersion,
        }
    }
}

/// Where an append stands after a reply.
pub enum AppendStep {
    /// There is more for the database to do.
    Continue(AppendEvents),
    /// The caller is told this. A transaction that has begun and was neither rolled back nor
    /// committed is dropped.
    Finished(Result<SessionVersion, StoreError>),
}

/// An [`AppendStep`] with its texts as sequences of characters.
pub enum AppendStepView {
    Continue(AppendEventsView),
    Finished(Result<SessionVersion, StoreErrorView>),
}

impl View for AppendStep {
    type V = AppendStepView;

    open spec fn view(&self) -> AppendStepView {
        match *self {
            AppendStep::Continue(append) => AppendStepView::Continue(append@),
            AppendStep::Finished(Ok(version)) => AppendStepView::Finished(Ok(version)),
            AppendStep::Finished(Err(error)) => AppendStepView::Finished(Err(error@)),
        }
    }
}

impl AppendEventsView {
    /// Whether the version after the batch is one that SQLite can keep, and the phase one of
    /// this batch.
    pub open spec fn wf(self) -> bool {
        &&& self.events.len() > 0
        &&& self.expected + self.events.len() <= i64::MAX
        &&& self.phase matches PhaseView::Inserting(next) ==> 0 <= next < self.events.len()
    }

    /// The version after the batch.
    pub open spec fn new_version(self) -> int {
        self.expected + self.events.len()
    }

    /// The statement that moves the session from the expected version to the new one.
    pub open spec fn claim(self) -> StatementView {
        StatementView::UpdateSession {
            version: self.new_version() as i64,
            updated_at: self.now,
            id: self.session_id,
            expected: self.expected as i64,
        }
    }

    /// The statement that adds an event. The events are numbered on from the expected version.
    pub open spec fn insertion(self, index: int) -> StatementView {
        StatementView::InsertEvent {
            session_id: self.session_id,
            sequence: (self.expected + index + 1) as i64,
            kind: self.events[index].kind,
            payload: self.events[index].payload,
            created_at: self.now,
        }
    }

    /// What the database is to do next.
    pub open spec fn action(self) -> AppendActionView {
        match self.phase {
            PhaseView::Beginning => AppendActionView::Begin,
            PhaseView::Claiming => AppendActionView::Update(self.claim()),
            PhaseView::Inspecting => AppendActionView::FindVersion(
                StatementView::SelectVersion { id: self.session_id },
            ),
            PhaseView::Abandoning(_) => AppendActionView::Rollback,
            PhaseView::Inserting(next) => AppendActionView::Insert(self.insertion(next)),
            PhaseView::Committing => AppendActionView::Commit,
        }
    }

    /// The append in another phase.
    pub open spec fn at(self, phase: PhaseView) -> AppendEventsView {
        AppendEventsView { phase, ..self }
    }

    /// Why the session was not at the expected version.
    pub open spec fn refusal(self, found: Option<Result<i64, Seq<char>>>) -> StoreErrorView {
        match found {
            None => StoreErrorView::NotFound(self.session_id),
            Some(Err(error)) => StoreErrorView::Database(error),
            Some(Ok(version)) => match number_from_sql("session version"@, version) {
                Ok(actual) => StoreErrorView::Conflict {
                    expected: SessionVersion(self.expected),
                    actual: SessionVersion(actual),
                },
                Err(error) => error,
            },
        }
    }

    /// Where the append stands after a reply that its action admits.
    pub open spec fn next(self, reply: AppendReplyView) -> AppendStepView {
        match reply {
            AppendReplyView::Failed(error) => AppendStepView::Finished(
                Err(StoreErrorView::Database(error)),
            ),
            AppendReplyView::Affected(rows) => AppendStepView::Continue(
                self.at(
                    if rows == 0 {
                        PhaseView::Inspecting
                    } else {
                        PhaseView::Inserting(0)
                    },
                ),
            ),
            AppendReplyView::Version(found) => AppendStepView::Continue(
                self.at(PhaseView::Abandoning(found)),
            ),
            AppendReplyView::Done => match self.phase {
                PhaseView::Abandoning(found) => AppendStepView::Finished(
                    Err(self.refusal(found)),
                ),
                PhaseView::Inserting(next) => AppendStepView::Continue(
                    self.at(
                        if next + 1 < self.events.len() {
                            PhaseView::Inserting(next + 1)
                        } else {
                            PhaseView::Committing
                        },
                    ),
                ),
                PhaseView::Committing => AppendStepView::Finished(
                    Ok(SessionVersion(self.new_version() as u64)),
                ),
                _ => AppendStepView::Continue(self.at(PhaseView::Claiming)),
            },
        }
    }
}

/// Whether an event of the batch has a blank kind.
pub open spec fn has_blank_kind(events: Seq<NewEventView>) -> bool {
    exists|i: int| 0 <= i < events.len() && is_blank(#[trigger] events[i].kind)
}

/// Why a batch is refused before the database is asked, if it is.
pub open spec fn batch_refusal(expected: u64, events: Seq<NewEventView>) -> Option<
    StoreErrorView,
> {
    if events.len() == 0 {
        Some(StoreErrorView::InvalidInput("an event batch cannot be empty"@))
    } else if has_blank_kind(events) {
        Some(StoreErrorView::InvalidInput("event kind cannot be empty"@))
    } else if expected + events.len() > u64::MAX {
        Some(StoreErrorView::InvalidInput("session version overflow"@))
    } else if expected + events.len() > i64::MAX {
        Some(
            StoreErrorView::InvalidInput("session version exceeds SQLite's integer range"@),
        )
    } else {
        None
    }
}

/// The events with their payloads as texts.
pub open spec fn encoded(events: Seq<NewEventView>) -> Seq<EncodedEventView> {
    events.map_values(
        |event: NewEventView|
            EncodedEventView { kind: event.kind, payload: json_text(event.payload) },
    )
}

/// The append with which a batch starts at a point in time.
pub open spec fn new_append(
    session_id: Seq<char>,
    expected: u64,
    events: Seq<NewEventView>,
    now: Timestamp,
) -> AppendEventsView {
    AppendEventsView {
        session_id,
        expected,
        events: encoded(events),
        now: now.text(),
        phase: PhaseView::Beginning,
    }
}

/// The append with which a batch starts, or why it is refused.
pub open spec fn append_to_start(
    session_id: Seq<char>,
    expected: u64,
    events: Seq<NewEventView>,
    now: Timestamp,
) -> Result<AppendEventsView, StoreErrorView> {
    match batch_refusal(expected, events) {
        Some(error) => Err(error),
        None => Ok(new_append(session_id, expected, events, now)),
    }
}

/// Whether no payload is nested deeper than the limit.
pub open spec fn payloads_fit(events: Seq<NewEventView>) -> bool {
    forall|i: int| 0 <= i < events.len() ==> json_fits(#[trigger] events[i].payload)
}

/// Whether a batch that was appended in a database is read as it is, as long as nobody writes to
/// its session. Its payloads are taken to be nested no deeper than the limit.
pub open spec fn is_read_again(
    append: AppendEventsView,
    events: Seq<NewEventView>,
    now: Timestamp,
    database: Database,
    later: Database,
    rows: Seq<EventRowView>,
) -> bool {
    payloads_fit(events) && database.wf() && is_current(database, append) && database_after(
        database,
        append,
    ).keeps(later, append.session_id) && later.selects_events(
        StatementView::SelectEvents {
            session_id: append.session_id,
            after: append.expected as i64,
        },
        rows,
    ) ==> events_found(append.session_id, Ok(rows)) == Ok::<Seq<StoredEventView>, StoreErrorView>(
        stored_events(append.session_id, append.expected, events, now),
    )
}

/// Starts to append a batch of events now. The clock is read once the batch has been looked at.
///
/// `expected_version` must equal the session's current version. The version that comes out in the
/// end is the sequence assigned to the final event in the batch.
///
/// Events that were appended are read back unchanged, down to the nanosecond of their time, until
/// somebody writes to their session. That holds of payloads that are nested no deeper than
/// [`crate::nesting::NESTING_LIMIT`], and in the years up to 9999, which chrono reads back from
/// their text.
pub fn append_events(
    session_id: &SessionId,
    expected_version: SessionVersion,
    events: Vec<NewEvent>,
) -> (started: Result<AppendEvents, StoreError>)
    ensures
        match batch_refusal(expected_version.0, new_events(events@)) {
            Some(error) => seen(started) == Err::<AppendEventsView, StoreErrorView>(error),
            None => exists|now: Timestamp|
                {
                    &&& #[trigger] call_ensures(Timestamp::now, (), now)
                    &&& seen(started) == Ok::<AppendEventsView, StoreErrorView>(
                        new_append(session_id@, expected_version.0, new_events(events@), now),
                    )
                    &&& now.has_plain_year() ==> forall|
                        database: Database,
                        later: Database,
                        rows: Seq<EventRowView>,
                    | #[trigger]
                        is_read_again(
                            started->Ok_0@,
                            new_events(events@),
                            now,
                            database,
                            later,
                            rows,
                        )
                },
        },
        started matches Ok(append) ==> append@.wf(),
{
    let encoded_events: Vec<EncodedEvent> = checked_batch(expected_version, events)?;
    let now: Timestamp = Timestamp::now();
    let append = new_append_events(session_id, expected_version, encoded_events, now);
    proof {
        lemma_read_again(append@, new_events(events@), now);
    }
    Ok(append)
}

/// Starts to append a batch of events at a point in time.
///
/// Events that were appended are read back unchanged, down to the nanosecond of their time, until
/// somebody writes to their session. That holds of payloads that are nested no deeper than
/// [`crate::nesting::NESTING_LIMIT`], and in the years from 0 to 9999, which chrono reads back from
/// their text.
pub fn append_events_at(
    session_id: &SessionId,
    expected_version: SessionVersion,
    events: Vec<NewEvent>,
    now: Timestamp,
) -> (started: Result<AppendEvents, StoreError>)
    requires
        now.valid(),
    ensures
        seen(started) == append_to_start(
            session_id@,
            expected_version.0,
            new_events(events@),
            now,
        ),
        started matches Ok(append) ==> append@.wf(),
        started is Ok && now.has_plain_year() ==> forall|
            database: Database,
            later: Database,
            rows: Seq<EventRowView>,
        | #[trigger]
            is_read_again(started->Ok_0@, new_events(events@), now, database, later, rows),
{
    let encoded_events: Vec<EncodedEvent> = checked_batch(expected_version, events)?;
    let append = new_append_events(session_id, expected_version, encoded_events, now);
    proof {
        lemma_read_again(append@, new_events(events@), now);
    }
    Ok(append)
}

/// Whether every payload within the limit is read back from its own text.
spec fn payloads_survive(events: Seq<NewEventView>) -> bool {
    forall|i: int|
        0 <= i < events.len() && json_fits(events[i].payload) ==> json_survives(
            #[trigger] events[i].payload,
        )
}

proof fn lemma_read_again(append: AppendEventsView, events: Seq<NewEventView>, now: Timestamp)
    requires
        append == new_append(append.session_id, append.expected, events, now),
        batch_refusal(append.expected, events) is None,
        payloads_survive(events),
        now.has_plain_year() ==> now.survives(),
    ensures
        now.has_plain_year() ==> forall|
            database: Database,
            later: Database,
            rows: Seq<EventRowView>,
        | #[trigger]
            is_read_again(append, events, now, database, later, rows),
{
    if now.has_plain_year() {
        let (id, expected) = (append.session_id, append.expected);
        let selection = StatementView::SelectEvents { session_id: id, after: expected as i64 };
        assert forall|database: Database, later: Database, rows: Seq<EventRowView>| #[trigger]
            is_read_again(append, events, now, database, later, rows) by {
            let after = database_after(database, append);
            if payloads_fit(events) && database.wf() && is_current(database, append)
                && after.keeps(later, id) && later.selects_events(selection, rows) {
                law_kept_events_are_read(after, later, id, expected as i64, rows);
                law_append_is_read_back(database, id, expected, events, now, append, rows);
            }
        }
    }
}

fn validate_kinds(events: &Vec<NewEvent>) -> (checked: Result<(), StoreError>)
    ensures
        seen(checked) == if has_blank_kind(new_events(events@)) {
            Err::<(), StoreErrorView>(
                StoreErrorView::InvalidInput("event kind"@ + " cannot be empty"@),
            )
        } else {
            Ok::<(), StoreErrorView>(())
        },
{
    let ghost views = new_events(events@);
    let mut i: usize = 0;
    while i < events.len()
        invariant
            i <= events@.len(),
            views == new_events(events@),
            forall|j: int| 0 <= j < i ==> !is_blank(#[trigger] views[j].kind),
        decreases events@.len() - i,
    {
        assert(views[i as int].kind == events@[i as int].kind@);
        match validate_non_empty("event kind", events[i].kind.as_str()) {
            Ok(()) => {},
            Err(error) => {
                return Err(error);
            },
        }
        i += 1;
    }
    Ok(())
}

fn encode_event(event: NewEvent) -> (encoded: Result<EncodedEvent, StoreError>)
    ensures
        encoded matches Ok(text) && text.kind@ == event@.kind && text.payload@ == json_text(
            event@.payload,
        ),
        json_fits(event@.payload) ==> json_survives(event@.payload),
{
    let mut failure: String = join("event `", event.kind.as_str());
    failure.append("` could not be serialized: ");
    let payload: String = encode_json(failure.as_str(), &event.payload)?;
    Ok(EncodedEvent { kind: event.kind, payload })
}

fn encode_batch(events: Vec<NewEvent>) -> (batch: Result<Vec<EncodedEvent>, StoreError>)
    ensures
        batch matches Ok(texts) && texts@.len() == events@.len() && texts@.map_values(
            |event: EncodedEvent| event@,
        ) == encoded(new_events(events@)),
        payloads_survive(new_events(events@)),
{
    let ghost all = events@;
    let mut texts: Vec<EncodedEvent> = Vec::new();
    for event in iter: events
        invariant
            iter.seq() == all,
            texts@.len() == iter.index(),
            forall|j: int|
                0 <= j < texts@.len() ==> #[trigger] texts@[j]@ == encoded(new_events(all))[j],
            payloads_survive(new_events(all).take(iter.index() as int)),
    {
        let ghost n = iter.index() as int;
        texts.push(encode_event(event)?);
        proof {
            let (before, after) = (new_events(all).take(n), new_events(all).take(n + 1));
            assert forall|j: int|
                0 <= j < after.len() && json_fits(after[j].payload) implies json_survives(
                #[trigger] after[j].payload,
            ) by {
                if j < n {
                    assert(after[j] == before[j]);
                }
            }
        }
    }
    assert(new_events(all).take(all.len() as int) =~= new_events(all));
    assert(texts@.map_values(|event: EncodedEvent| event@) =~= encoded(new_events(all)));
    Ok(texts)
}

/// Looks at a batch, and writes its payloads as texts.
fn checked_batch(expected_version: SessionVersion, events: Vec<NewEvent>) -> (checked: Result<
    Vec<EncodedEvent>,
    StoreError,
>)
    ensures
        match batch_refusal(expected_version.0, new_events(events@)) {
            Some(error) => checked matches Err(refusal) && refusal@ == error,
            None => {
                &&& checked is Ok
                &&& checked->Ok_0@.len() == events@.len()
                &&& checked->Ok_0@.map_values(|event: EncodedEvent| event@) == encoded(
                    new_events(events@),
                )
                &&& payloads_survive(new_events(events@))
            },
        },
{
    proof {
        reveal_strlit("event kind");
        reveal_strlit(" cannot be empty");
        reveal_strlit("event kind cannot be empty");
        reveal_strlit("session version");
        reveal_strlit(" exceeds SQLite's integer range");
        reveal_strlit("session version exceeds SQLite's integer range");
        assert("event kind"@ + " cannot be empty"@ =~= "event kind cannot be empty"@);
        assert("session version"@ + " exceeds SQLite's integer range"@
            =~= "session version exceeds SQLite's integer range"@);
    }
    if events.len() == 0 {
        return Err(StoreError::InvalidInput(String::from("an event batch cannot be empty")));
    }
    validate_kinds(&events)?;
    let new_version: u64 = match expected_version.0.checked_add(events.len() as u64) {
        Some(version) => version,
        None => {
            return Err(StoreError::InvalidInput(String::from("session version overflow")));
        },
    };
    integer_to_sql("session version", expected_version.0)?;
    integer_to_sql("session version", new_version)?;
    encode_batch(events)
}

fn new_append_events(
    session_id: &SessionId,
    expected: SessionVersion,
    events: Vec<EncodedEvent>,
    now: Timestamp,
) -> (append: AppendEvents)
    requires
        events@.len() > 0,
        expected.0 + events@.len() <= i64::MAX,
        now.valid(),
    ensures
        append@ == (AppendEventsView {
            session_id: session_id@,
            expected: expected.0,
            events: events@.map_values(|event: EncodedEvent| event@),
            now: now.text(),
            phase: PhaseView::Beginning,
        }),
        now.has_plain_year() ==> now.survives(),
{
    AppendEvents {
        session_id: session_id.clone(),
        expected,
        events,
        now: encode_timestamp(now),
        phase: Phase::Beginning,
    }
}

impl AppendEvents {
    #[verifier::type_invariant]
    spec fn inv(self) -> bool {
        self@.wf()
    }

    /// What the database is to do next.
    pub fn action(&self) -> (action: AppendAction)
        ensures
            action@ == self@.action(),
    {
        proof {
            use_type_invariant(self);
        }
        match &self.phase {
            Phase::Beginning => AppendAction::Begin,
            Phase::Claiming => AppendAction::Update(
                Statement::UpdateSession {
                    version: (self.expected.0 + self.events.len() as u64) as i64,
                    updated_at: self.now.clone(),
                    id: self.session_id.to_string(),
                    expected: self.expected.0 as i64,
                },
            ),
            Phase::Inspecting => AppendAction::FindVersion(
                Statement::SelectVersion { id: self.session_id.to_string() },
            ),
            Phase::Abandoning(_) => AppendAction::Rollback,
            Phase::Inserting(next) => AppendAction::Insert(
                Statement::InsertEvent {
                    session_id: self.session_id.to_string(),
                    sequence: (self.expected.0 + *next as u64 + 1) as i64,
                    kind: self.events[*next].kind.to_string(),
                    payload: self.events[*next].payload.clone(),
                    created_at: self.now.clone(),
                },
            ),
            Phase::Committing => AppendAction::Commit,
        }
    }

    /// Where the append stands after the database has done what it was to do.
    pub fn advance(self, reply: AppendReply) -> (step: AppendStep)
        requires
            self@.action().admits(reply@),
        ensures
            step@ == self@.next(reply@),
            step matches AppendStep::Continue(append) ==> append@.wf(),
    {
        proof {
            use_type_invariant(&self);
        }
        let count: usize = self.events.len();
        let mut append: AppendEvents = self;
        match reply {
            AppendReply::Failed(error) => {
                return AppendStep::Finished(Err(database_error(error)));
            },
            AppendReply::Affected(rows) => {
                append.phase = if rows == 0 {
                    Phase::Inspecting
                } else {
                    Phase::Inserting(0)
                };
            },
            AppendReply::Version(found) => {
                append.phase = Phase::Abandoning(found);
            },
            AppendReply::Done => match append.phase {
                Phase::Abandoning(found) => {
                    return AppendStep::Finished(
                        Err(refuse(append.session_id, append.expected, found)),
                    );
                },
                Phase::Inserting(next) => {
                    append.phase = if next + 1 < count {
                        Phase::Inserting(next + 1)
                    } else {
                        Phase::Committing
                    };
                },
                Phase::Committing => {
                    return AppendStep::Finished(
                        Ok(SessionVersion(append.expected.0 + count as u64)),
                    );
                },
                _ => {
                    append.phase = Phase::Claiming;
                },
            },
        }
        AppendStep::Continue(append)
    }
}

/// Why the session was not at the expected version.
fn refuse(
    session_id: SessionId,
    expected: SessionVersion,
    found: Option<Result<i64, String>>,
) -> (refusal: StoreError)
    ensures
        forall|append: AppendEventsView|
            append.session_id == session_id@ && append.expected == expected.0 ==> refusal@
                == #[trigger] append.refusal(version_found(found)),
{
    match found {
        None => StoreError::NotFound(session_id),
        Some(Err(error)) => database_error(error),
        Some(Ok(version)) => match sql_to_integer("session version", version) {
            Ok(actual) => StoreError::Conflict { expected, actual: SessionVersion(actual) },
            Err(error) => error,
        },
    }
}

} // verus!
