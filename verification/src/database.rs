//! What the statements of the store do to its tables.
//!
//! SQLite executes the statements. This is how it is taken to do so: a statement changes the tables
//! of [`crate::statement::SCHEMA`] and finds rows in them as its SQL text says, with the values
//! that are bound to it and with foreign keys enforced. The laws of the store are stated over these
//! tables.
use vstd::prelude::*;

use crate::append::{AppendActionView, AppendEventsView, AppendReplyView, AppendStepView};
use crate::create::InsertionView;
use crate::order::precedes;
use crate::rows::{EventRowView, SessionRowView, SummaryRowView};
use crate::statement::{
    ParameterView, StatementView, DELETE_SESSION, INSERT_EVENT, INSERT_SESSION, SELECT_EVENTS,
    SELECT_LATEST_SESSION, SELECT_SESSION, SELECT_SESSION_EXISTS, SELECT_SUMMARIES,
    SELECT_SUMMARIES_OF_AGENT, SELECT_VERSION, UPDATE_SESSION,
};

verus! {

/// What the sessions table holds for an identifier.
pub struct SessionRecord {
    pub root_agent: Seq<char>,
    pub title: Option<Seq<char>>,
    pub metadata: Seq<char>,
    pub version: i64,
    pub created_at: Seq<char>,
    pub updated_at: Seq<char>,
}

/// What the events table holds for a session and a sequence number.
pub struct EventRecord {
    pub kind: Seq<char>,
    pub payload: Seq<char>,
    pub created_at: Seq<char>,
}

/// The tables of the store, by their primary keys.
#[verifier::ext_equal]
pub struct Database {
    pub sessions: Map<Seq<char>, SessionRecord>,
    pub events: Map<(Seq<char>, i64), EventRecord>,
}

/// Whether numbers stand in strictly ascending order.
pub open spec fn is_ascending(numbers: Seq<i64>) -> bool {
    forall|i: int, j: int| 0 <= i < j < numbers.len() ==> numbers[i] < numbers[j]
}

/// The text that is bound to a question mark.
pub open spec fn text_at(values: Seq<ParameterView>, i: int) -> Seq<char> {
    match values[i] {
        ParameterView::Text(text) => text,
        _ => arbitrary(),
    }
}

/// The text, or the null, that is bound to a question mark.
pub open spec fn nullable_at(values: Seq<ParameterView>, i: int) -> Option<Seq<char>> {
    match values[i] {
        ParameterView::Text(text) => Some(text),
        ParameterView::OptionalText(text) => text,
        ParameterView::Integer(_) => arbitrary(),
    }
}

/// The number that is bound to a question mark.
pub open spec fn integer_at(values: Seq<ParameterView>, i: int) -> i64 {
    match values[i] {
        ParameterView::Integer(number) => number,
        _ => arbitrary(),
    }
}

impl Database {
    /// The tables of a new database.
    pub open spec fn empty() -> Database {
        Database { sessions: Map::empty(), events: Map::empty() }
    }

    /// Whether the version of each session is the number of its events, which are numbered from
    /// one, and each event belongs to a session.
    pub open spec fn wf(self) -> bool {
        &&& forall|id: Seq<char>| #[trigger]
            self.sessions.contains_key(id) ==> self.sessions[id].version >= 0
        &&& forall|id: Seq<char>, n: i64| #[trigger]
            self.events.contains_key((id, n)) <==> self.sessions.contains_key(id) && 1 <= n
                <= self.sessions[id].version
    }

    /// Whether a later database holds of a session, and of its events, what this one does.
    pub open spec fn keeps(self, later: Database, id: Seq<char>) -> bool {
        &&& later.sessions.contains_key(id) == self.sessions.contains_key(id)
        &&& self.sessions.contains_key(id) ==> later.sessions[id] == self.sessions[id]
        &&& forall|n: i64|
            #![trigger self.events.contains_key((id, n))]
            #![trigger later.events.contains_key((id, n))]
            {
                &&& later.events.contains_key((id, n)) == self.events.contains_key((id, n))
                &&& self.events.contains_key((id, n)) ==> later.events[(id, n)] == self.events[(
                    id,
                    n,
                )]
            }
    }

    /// The row of a session.
    pub open spec fn session_row(self, id: Seq<char>) -> SessionRowView {
        let record = self.sessions[id];
        SessionRowView {
            id: Ok(id),
            root_agent: Ok(record.root_agent),
            title: Ok(record.title),
            metadata: Ok(record.metadata),
            version: Ok(record.version),
            created_at: Ok(record.created_at),
            updated_at: Ok(record.updated_at),
        }
    }

    /// The row of an event.
    pub open spec fn event_row(self, session_id: Seq<char>, sequence: i64) -> EventRowView {
        let record = self.events[(session_id, sequence)];
        EventRowView {
            sequence: Ok(sequence),
            kind: Ok(record.kind),
            payload: Ok(record.payload),
            created_at: Ok(record.created_at),
        }
    }

    /// The text of `InsertSession` adds a row of its values with version zero, unless there is one
    /// with the identifier.
    pub open spec fn insert_session(self, statement: StatementView) -> (Database, InsertionView) {
        let values = statement.parameters();
        if statement.sql() == INSERT_SESSION@ && values.len() == 6 {
            let id = text_at(values, 0);
            if self.sessions.contains_key(id) {
                (self, InsertionView::UniqueViolation)
            } else {
                let record = SessionRecord {
                    root_agent: text_at(values, 1),
                    title: nullable_at(values, 2),
                    metadata: text_at(values, 3),
                    version: 0,
                    created_at: text_at(values, 4),
                    updated_at: text_at(values, 5),
                };
                (
                    Database { sessions: self.sessions.insert(id, record), ..self },
                    InsertionView::Inserted,
                )
            }
        } else {
            arbitrary()
        }
    }

    /// The text of `SelectSession` finds the row with the identifier.
    pub open spec fn select_session(self, statement: StatementView) -> Option<SessionRowView> {
        let values = statement.parameters();
        if statement.sql() == SELECT_SESSION@ && values.len() == 1 {
            if self.sessions.contains_key(text_at(values, 0)) {
                Some(self.session_row(text_at(values, 0)))
            } else {
                None
            }
        } else {
            arbitrary()
        }
    }

    /// The text of `SelectSessionExists` finds a row where there is one with the identifier.
    pub open spec fn select_session_exists(self, statement: StatementView) -> bool {
        let values = statement.parameters();
        if statement.sql() == SELECT_SESSION_EXISTS@ && values.len() == 1 {
            self.sessions.contains_key(text_at(values, 0))
        } else {
            arbitrary()
        }
    }

    /// The text of `SelectVersion` finds the version of the row with the identifier.
    pub open spec fn select_version(self, statement: StatementView) -> Option<
        Result<i64, Seq<char>>,
    > {
        let values = statement.parameters();
        if statement.sql() == SELECT_VERSION@ && values.len() == 1 {
            if self.sessions.contains_key(text_at(values, 0)) {
                Some(Ok(self.sessions[text_at(values, 0)].version))
            } else {
                None
            }
        } else {
            arbitrary()
        }
    }

    /// The text of `UpdateSession` changes the version and the time of the row with the identifier
    /// and the expected version, and affects no row where there is none.
    pub open spec fn update_session(self, statement: StatementView) -> (Database, u64) {
        let values = statement.parameters();
        if statement.sql() == UPDATE_SESSION@ && values.len() == 4 {
            let id = text_at(values, 2);
            if self.sessions.contains_key(id) && self.sessions[id].version == integer_at(
                values,
                3,
            ) {
                let record = SessionRecord {
                    version: integer_at(values, 0),
                    updated_at: text_at(values, 1),
                    ..self.sessions[id]
                };
                (Database { sessions: self.sessions.insert(id, record), ..self }, 1)
            } else {
                (self, 0)
            }
        } else {
            arbitrary()
        }
    }

    /// The text of `InsertEvent` adds a row of its values. It fails where there is no such session,
    /// and where there is a row with the session and the sequence number.
    pub open spec fn insert_event(self, statement: StatementView) -> Option<Database> {
        let values = statement.parameters();
        if statement.sql() == INSERT_EVENT@ && values.len() == 5 {
            let key = (text_at(values, 0), integer_at(values, 1));
            if self.sessions.contains_key(key.0) && !self.events.contains_key(key) {
                let record = EventRecord {
                    kind: text_at(values, 2),
                    payload: text_at(values, 3),
                    created_at: text_at(values, 4),
                };
                Some(Database { events: self.events.insert(key, record), ..self })
            } else {
                None
            }
        } else {
            arbitrary()
        }
    }

    /// The text of `DeleteSession` removes the row with the identifier, and the events of that
    /// session.
    pub open spec fn delete_session(self, statement: StatementView) -> (Database, u64) {
        let values = statement.parameters();
        if statement.sql() == DELETE_SESSION@ && values.len() == 1 {
            let id = text_at(values, 0);
            if self.sessions.contains_key(id) {
                (
                    Database {
                        sessions: self.sessions.remove(id),
                        events: self.events.remove_keys(
                            Set::new(|key: (Seq<char>, i64)| key.0 == id),
                        ),
                    },
                    1,
                )
            } else {
                (self, 0)
            }
        } else {
            arbitrary()
        }
    }

    /// Whether `numbers` are the sequence numbers of the session past `after`, in ascending order.
    pub open spec fn numbers_after(
        self,
        session_id: Seq<char>,
        after: i64,
        numbers: Seq<i64>,
    ) -> bool {
        &&& is_ascending(numbers)
        &&& forall|n: i64| #[trigger]
            numbers.contains(n) <==> n > after && self.events.contains_key((session_id, n))
    }

    /// The rows of events by their sequence numbers.
    pub open spec fn event_rows(self, session_id: Seq<char>, numbers: Seq<i64>) -> Seq<
        EventRowView,
    > {
        numbers.map_values(|n: i64| self.event_row(session_id, n))
    }

    /// The text of `SelectEvents` lists the rows of the session past the sequence number, in
    /// ascending order.
    pub open spec fn selects_events(
        self,
        statement: StatementView,
        rows: Seq<EventRowView>,
    ) -> bool {
        let values = statement.parameters();
        if statement.sql() == SELECT_EVENTS@ && values.len() == 2 {
            exists|numbers: Seq<i64>|
                {
                    &&& #[trigger] self.numbers_after(
                        text_at(values, 0),
                        integer_at(values, 1),
                        numbers,
                    )
                    &&& rows == self.event_rows(text_at(values, 0), numbers)
                }
        } else {
            arbitrary()
        }
    }

    /// Whether a session comes before another one in a listing: it was updated later, or at the
    /// same time and has the greater identifier.
    pub open spec fn listed_before(self, id: Seq<char>, other: Seq<char>) -> bool {
        let (time, other_time) = (self.sessions[id].updated_at, self.sessions[other].updated_at);
        precedes(other_time, time) || (time == other_time && precedes(other, id))
    }

    /// Whether there is the session, and it is one of the agent, if an agent is given.
    pub open spec fn is_listed(self, root_agent: Option<Seq<char>>, id: Seq<char>) -> bool {
        &&& self.sessions.contains_key(id)
        &&& root_agent matches Some(name) ==> self.sessions[id].root_agent == name
    }

    /// Whether `ids` are the first sessions, `limit` at most, of the listing of an agent's sessions
    /// or of all sessions.
    pub open spec fn lists(
        self,
        root_agent: Option<Seq<char>>,
        limit: i64,
        ids: Seq<Seq<char>>,
    ) -> bool {
        &&& ids.len() <= limit
        &&& forall|i: int| 0 <= i < ids.len() ==> self.is_listed(root_agent, #[trigger] ids[i])
        &&& forall|i: int, j: int|
            0 <= i < j < ids.len() ==> self.listed_before(#[trigger] ids[i], #[trigger] ids[j])
        &&& forall|id: Seq<char>| #[trigger]
            self.is_listed(root_agent, id) && !ids.contains(id) ==> ids.len() == limit && (
            forall|i: int| 0 <= i < ids.len() ==> self.listed_before(#[trigger] ids[i], id))
    }

    /// The rows of sessions without metadata.
    pub open spec fn summary_rows(self, ids: Seq<Seq<char>>) -> Seq<SummaryRowView> {
        ids.map_values(|id: Seq<char>| self.session_row(id).summary())
    }

    /// The text of `SelectSummariesOfAgent` lists the first rows of the agent, and that of
    /// `SelectSummaries` the first rows of all.
    pub open spec fn selects_summaries(
        self,
        statement: StatementView,
        rows: Seq<SummaryRowView>,
    ) -> bool {
        let values = statement.parameters();
        if statement.sql() == SELECT_SUMMARIES_OF_AGENT@ && values.len() == 2 {
            exists|ids: Seq<Seq<char>>| #[trigger]
                self.lists(Some(text_at(values, 0)), integer_at(values, 1), ids) && rows
                    == self.summary_rows(ids)
        } else if statement.sql() == SELECT_SUMMARIES@ && values.len() == 1 {
            exists|ids: Seq<Seq<char>>| #[trigger]
                self.lists(None, integer_at(values, 0), ids) && rows == self.summary_rows(ids)
        } else {
            arbitrary()
        }
    }

    /// The text of `SelectLatestSession` finds the first row of the agent.
    pub open spec fn selects_latest(
        self,
        statement: StatementView,
        row: Option<SessionRowView>,
    ) -> bool {
        let values = statement.parameters();
        if statement.sql() == SELECT_LATEST_SESSION@ && values.len() == 1 {
            exists|ids: Seq<Seq<char>>|
                {
                    &&& #[trigger] self.lists(Some(text_at(values, 0)), 1, ids)
                    &&& row == if ids.len() == 0 {
                        None::<SessionRowView>
                    } else {
                        Some(self.session_row(ids[0]))
                    }
                }
        } else {
            arbitrary()
        }
    }
}

/// A database as an append finds it: what is committed, and its own working copy, once it has one.
pub struct Transaction {
    pub committed: Database,
    pub working: Option<Database>,
}

/// Whether a database can answer an action of an append with a reply, and stand as `after` then.
///
/// A transaction takes its working copy at the update, which is its first statement, and nobody
/// else writes from then on until it ends. The database can fail at any action. What was committed
/// stays, but for a commit that fails, which may have taken effect.
pub open spec fn serves(
    before: Transaction,
    action: AppendActionView,
    reply: AppendReplyView,
    after: Transaction,
) -> bool {
    if reply is Failed {
        ||| after.committed == before.committed
        ||| action is Commit && before.working == Some(after.committed)
    } else {
        match action {
            AppendActionView::Begin => {
                &&& reply is Done
                &&& before.working is None
                &&& after == before
            },
            AppendActionView::Update(statement) => {
                &&& before.working is None
                &&& reply == AppendReplyView::Affected(
                    before.committed.update_session(statement).1,
                )
                &&& after.committed == before.committed
                &&& after.working == Some(before.committed.update_session(statement).0)
            },
            AppendActionView::FindVersion(statement) => {
                &&& before.working is Some
                &&& reply == AppendReplyView::Version(
                    before.working->Some_0.select_version(statement),
                )
                &&& after == before
            },
            AppendActionView::Insert(statement) => {
                &&& before.working is Some
                &&& reply is Done
                &&& after.committed == before.committed
                &&& before.working->Some_0.insert_event(statement) is Some
                &&& after.working == before.working->Some_0.insert_event(statement)
            },
            AppendActionView::Rollback => {
                &&& reply is Done
                &&& after.committed == before.committed
                &&& after.working is None
            },
            AppendActionView::Commit => {
                &&& reply is Done
                &&& before.working == Some(after.committed)
                &&& after.working is None
            },
        }
    }
}

/// Whether others can have brought the database from one state to another between two steps of an
/// append. They can write whatever keeps the tables in order, as long as the append has no working
/// copy, and nothing once it has one.
pub open spec fn others_write(earlier: Transaction, later: Transaction) -> bool {
    if earlier.working is Some {
        later == earlier
    } else {
        later.working is None && (earlier.committed.wf() ==> later.committed.wf())
    }
}

/// Whether a reply is a failure without a cause in the tables.
pub open spec fn is_fault(
    before: Transaction,
    action: AppendActionView,
    reply: AppendReplyView,
) -> bool {
    reply is Failed && !(action matches AppendActionView::Insert(statement) && before.working
        is Some && before.working->Some_0.insert_event(statement) is None)
}

/// The first steps of an append, or all of them: the append before each reply, the replies, and
/// the database right before and right after each step.
pub struct AppendRun {
    pub appends: Seq<AppendEventsView>,
    pub replies: Seq<AppendReplyView>,
    pub befores: Seq<Transaction>,
    pub afters: Seq<Transaction>,
}

impl AppendRun {
    /// Whether the append went on as it does, the database answered as it can, and others wrote
    /// only where they can.
    pub open spec fn is_run(self, append: AppendEventsView) -> bool {
        &&& self.replies.len() > 0
        &&& self.appends.len() == self.replies.len()
        &&& self.befores.len() == self.replies.len()
        &&& self.afters.len() == self.replies.len()
        &&& self.appends[0] == append
        &&& self.befores[0].working is None
        &&& forall|i: int| 0 <= i < self.replies.len() ==> #[trigger] self.is_answered(i)
        &&& forall|i: int| 0 <= i < self.replies.len() - 1 ==> #[trigger] self.goes_on(i)
    }

    /// Whether the reply with this index is one that the database can give.
    pub open spec fn is_answered(self, i: int) -> bool {
        &&& self.appends[i].action().admits(self.replies[i])
        &&& serves(
            self.befores[i],
            self.appends[i].action(),
            self.replies[i],
            self.afters[i],
        )
    }

    /// Whether the reply with this index leads to the next append.
    pub open spec fn goes_on(self, i: int) -> bool {
        &&& self.appends[i].next(self.replies[i]) == AppendStepView::Continue(self.appends[i + 1])
        &&& others_write(self.afters[i], self.befores[i + 1])
    }

    /// Whether the database failed only where a constraint of the tables forbade an insertion.
    pub open spec fn is_faultless(self) -> bool {
        forall|i: int|
            0 <= i < self.replies.len() ==> !is_fault(
                self.befores[i],
                self.appends[i].action(),
                #[trigger] self.replies[i],
            )
    }

    /// What the database held when the append came to move its session. The transaction has begun
    /// by then, and others may have written since.
    pub open spec fn claimed(self) -> Database {
        self.befores[1].committed
    }

    /// Where the append stands in the end.
    pub open spec fn last_step(self) -> AppendStepView {
        self.appends.last().next(self.replies.last())
    }

    /// What the database holds in the end.
    pub open spec fn result(self) -> Database {
        self.afters.last().committed
    }
}

} // verus!
