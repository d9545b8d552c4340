//! What holds of appending events.
use vstd::prelude::*;

use crate::append::{
    append_to_start, batch_refusal, AppendActionView, AppendEventsView, AppendReplyView,
    AppendStepView, PhaseView,
};
use crate::database::{
    is_fault, others_write, serves, AppendRun, Database, EventRecord, SessionRecord, Transaction,
};
use crate::error::StoreErrorView;
use crate::json::json_text;
use crate::names::SessionVersion;
use crate::session::NewEventView;
use crate::statement::StatementView;
use crate::text::is_blank;
use crate::time::Timestamp;

verus! {

/// Whether the session of an append is at the version that the append expects.
pub open spec fn is_current(database: Database, append: AppendEventsView) -> bool {
    &&& database.sessions.contains_key(append.session_id)
    &&& database.sessions[append.session_id].version == append.expected
}

/// The key of an event of the batch.
pub open spec fn is_new_key(append: AppendEventsView, count: int, key: (Seq<char>, i64)) -> bool {
    key.0 == append.session_id && append.expected < key.1 <= append.expected + count
}

/// The database with the session at the new version and the first events of the batch added.
pub open spec fn with_events(
    database: Database,
    append: AppendEventsView,
    count: int,
) -> Database {
    Database {
        sessions: database.sessions.insert(
            append.session_id,
            SessionRecord {
                version: append.new_version() as i64,
                updated_at: append.now,
                ..database.sessions[append.session_id]
            },
        ),
        events: Map::new(
            |key: (Seq<char>, i64)|
                database.events.contains_key(key) || is_new_key(append, count, key),
            |key: (Seq<char>, i64)|
                if is_new_key(append, count, key) {
                    let event = append.events[key.1 - append.expected - 1];
                    EventRecord {
                        kind: event.kind,
                        payload: event.payload,
                        created_at: append.now,
                    }
                } else {
                    database.events[key]
                },
        ),
    }
}

/// The database after an append: with the whole batch, or unchanged.
pub open spec fn database_after(database: Database, append: AppendEventsView) -> Database {
    if is_current(database, append) {
        with_events(database, append, append.events.len() as int)
    } else {
        database
    }
}

/// What a caller is told of an append.
pub open spec fn append_outcome(database: Database, append: AppendEventsView) -> Result<
    SessionVersion,
    StoreErrorView,
> {
    if is_current(database, append) {
        Ok(SessionVersion(append.new_version() as u64))
    } else {
        Err(
            append.refusal(
                database.select_version(StatementView::SelectVersion { id: append.session_id }),
            ),
        )
    }
}

/// How many replies an append has had when it is in a phase.
spec fn position(append: AppendEventsView) -> int {
    match append.phase {
        PhaseView::Beginning => 0,
        PhaseView::Claiming => 1,
        PhaseView::Inspecting => 2,
        PhaseView::Abandoning(_) => 3,
        PhaseView::Inserting(next) => 2 + next,
        PhaseView::Committing => 2 + append.events.len() as int,
    }
}

/// What holds of an append and of the database before a step. `base` is what the database holds
/// when the session is to move.
spec fn is_on_course(
    base: Database,
    start: AppendEventsView,
    append: AppendEventsView,
    store: Transaction,
) -> bool {
    &&& start.wf()
    &&& append.wf()
    &&& append == start.at(append.phase)
    &&& append.phase is Beginning || store.committed == base
    &&& match append.phase {
        PhaseView::Beginning => store.working is None,
        PhaseView::Claiming => store.working is None,
        PhaseView::Inspecting => !is_current(base, start) && store.working == Some(base),
        PhaseView::Abandoning(found) => !is_current(base, start) && store.working == Some(base)
            && found == base.select_version(
            StatementView::SelectVersion { id: start.session_id },
        ),
        PhaseView::Inserting(next) => is_current(base, start) && store.working == Some(
            with_events(base, start, next),
        ),
        PhaseView::Committing => is_current(base, start) && store.working == Some(
            with_events(base, start, start.events.len() as int),
        ),
    }
}

proof fn lemma_insert_event(database: Database, append: AppendEventsView, next: int)
    requires
        append.wf(),
        is_current(database, append),
        0 <= next < append.events.len(),
    ensures
        with_events(database, append, next).insert_event(append.insertion(next)) matches Some(after)
            ==> after == with_events(database, append, next + 1),
        database.wf() ==> with_events(database, append, next).insert_event(append.insertion(next))
            is Some,
{
    let before = with_events(database, append, next);
    let statement = append.insertion(next);
    if before.insert_event(statement) is Some {
        let after = before.insert_event(statement)->Some_0;
        assert(after.events =~= with_events(database, append, next + 1).events);
    }
}

proof fn lemma_step(
    base: Database,
    start: AppendEventsView,
    append: AppendEventsView,
    before: Transaction,
    reply: AppendReplyView,
    after: Transaction,
)
    requires
        is_on_course(base, start, append, before),
        append.action().admits(reply),
        serves(before, append.action(), reply, after),
    ensures
        match append.next(reply) {
            AppendStepView::Continue(next) => {
                &&& position(next) == position(append) + 1
                &&& after.committed == before.committed
                &&& next.wf()
                &&& next == start.at(next.phase)
                &&& if next.phase is Claiming {
                    append.phase is Beginning && after.working is None
                } else {
                    is_on_course(base, start, next, after) && after.working is Some
                }
            },
            AppendStepView::Finished(Ok(version)) => {
                &&& append.phase is Committing
                &&& append_outcome(base, start) == Ok::<SessionVersion, StoreErrorView>(version)
                &&& after.committed == database_after(base, start)
            },
            AppendStepView::Finished(Err(error)) => {
                ||| append.phase is Abandoning && append_outcome(base, start) == Err::<
                    SessionVersion,
                    StoreErrorView,
                >(error) && after.committed == before.committed && !(reply is Failed)
                ||| reply is Failed && error == StoreErrorView::Database(reply->Failed_0) && (
                after.committed == before.committed || append.phase is Committing
                    && after.committed == database_after(base, start))
            },
        },
        base.wf() && reply is Failed ==> is_fault(before, append.action(), reply),
{
    match append.phase {
        PhaseView::Claiming => {
            let statement = append.claim();
            if is_current(base, start) {
                let claimed = base.update_session(statement).0;
                assert(claimed.sessions =~= with_events(base, start, 0).sessions);
                assert(claimed.events =~= with_events(base, start, 0).events);
            }
        },
        PhaseView::Inserting(next) => {
            lemma_insert_event(base, start, next);
            assert(append.insertion(next) == start.insertion(next));
        },
        _ => {},
    }
}

proof fn lemma_run(run: AppendRun, append: AppendEventsView, i: int)
    requires
        append.wf(),
        append.phase is Beginning,
        run.is_run(append),
        0 <= i < run.replies.len(),
    ensures
        is_on_course(run.claimed(), append, run.appends[i], run.befores[i]),
        run.is_answered(i),
        position(run.appends[i]) == i,
        run.befores[0].committed.wf() ==> run.befores[i].committed.wf(),
    decreases i,
{
    if i > 0 {
        lemma_run(run, append, i - 1);
        assert(run.is_answered(i - 1));
        assert(run.goes_on(i - 1));
        lemma_step(
            run.claimed(),
            append,
            run.appends[i - 1],
            run.befores[i - 1],
            run.replies[i - 1],
            run.afters[i - 1],
        );
    }
}

/// An append is atomic: none of its steps changes what is committed, however the database fails on
/// the way, but for the commit, which adds the whole batch or, where it fails, possibly nothing of
/// it. It adds the batch to the tables as they were when the session moved, and nobody else has
/// changed them since.
pub proof fn law_append_is_atomic(run: AppendRun, append: AppendEventsView, i: int)
    requires
        append.wf(),
        append.phase is Beginning,
        run.is_run(append),
        0 <= i < run.replies.len(),
    ensures
        i > 0 ==> run.befores[i].committed == run.claimed(),
        run.afters[i].committed != run.befores[i].committed ==> {
            &&& i == run.replies.len() - 1
            &&& run.appends[i].action() is Commit
            &&& run.afters[i].committed == database_after(run.claimed(), append)
        },
{
    lemma_run(run, append, i);
    lemma_step(
        run.claimed(),
        append,
        run.appends[i],
        run.befores[i],
        run.replies[i],
        run.afters[i],
    );
    if i < run.replies.len() - 1 {
        assert(run.goes_on(i));
    }
}

/// A caller who is told of success finds the whole batch in the database, added to what it held
/// when the session moved. A caller who is told of anything but a failure of the database finds the
/// database as it was. A failure of the database is told in its own words.
pub proof fn law_append_tells_the_truth(run: AppendRun, append: AppendEventsView)
    requires
        append.wf(),
        append.phase is Beginning,
        run.is_run(append),
    ensures
        match run.last_step() {
            AppendStepView::Continue(_) => true,
            AppendStepView::Finished(Ok(version)) => {
                &&& append_outcome(run.claimed(), append) == Ok::<SessionVersion, StoreErrorView>(
                    version,
                )
                &&& run.befores.last().committed == run.claimed()
                &&& run.result() == database_after(run.claimed(), append)
            },
            AppendStepView::Finished(Err(error)) => {
                ||| append_outcome(run.claimed(), append) == Err::<SessionVersion, StoreErrorView>(
                    error,
                ) && run.befores.last().committed == run.claimed() && run.result()
                    == run.claimed()
                ||| run.replies.last() is Failed && error == StoreErrorView::Database(
                    run.replies.last()->Failed_0,
                )
            },
        },
{
    let i = run.replies.len() - 1;
    lemma_run(run, append, i);
    lemma_step(
        run.claimed(),
        append,
        run.appends[i],
        run.befores[i],
        run.replies[i],
        run.afters[i],
    );
}

/// Where the database does not fail of itself, an append comes to an end after three replies more
/// than it has events at the latest. Its caller is told the one outcome there is for what the
/// database held when the session was to move, whatever others wrote until then, and the database
/// holds the batch exactly if that is a success.
pub proof fn law_append_without_faults(run: AppendRun, append: AppendEventsView)
    requires
        run.is_run(append),
        run.befores[0].committed.wf(),
        append.wf(),
        append.phase is Beginning,
        run.is_faultless(),
    ensures
        run.replies.len() <= append.events.len() + 3,
        match run.last_step() {
            AppendStepView::Continue(_) => run.replies.len() < append.events.len() + 3
                && run.result() == run.befores.last().committed,
            AppendStepView::Finished(outcome) => {
                &&& run.replies.len() > 1
                &&& run.befores.last().committed == run.claimed()
                &&& outcome == append_outcome(run.claimed(), append)
                &&& run.result() == database_after(run.claimed(), append)
            },
        },
{
    let i = run.replies.len() - 1;
    lemma_run(run, append, i);
    if i > 0 {
        lemma_run(run, append, 1);
    }
    lemma_step(
        run.claimed(),
        append,
        run.appends[i],
        run.befores[i],
        run.replies[i],
        run.afters[i],
    );
    assert(!is_fault(run.befores[i], run.appends[i].action(), run.replies[i]));
}

/// The reply of a database that does not fail, and the database after it.
spec fn faultless_answer(before: Transaction, action: AppendActionView) -> (
    AppendReplyView,
    Transaction,
) {
    let working = before.working->Some_0;
    match action {
        AppendActionView::Begin => (AppendReplyView::Done, before),
        AppendActionView::Update(statement) => (
            AppendReplyView::Affected(before.committed.update_session(statement).1),
            Transaction {
                working: Some(before.committed.update_session(statement).0),
                ..before
            },
        ),
        AppendActionView::FindVersion(statement) => (
            AppendReplyView::Version(working.select_version(statement)),
            before,
        ),
        AppendActionView::Insert(statement) => (
            AppendReplyView::Done,
            Transaction { working: working.insert_event(statement), ..before },
        ),
        AppendActionView::Rollback => (
            AppendReplyView::Done,
            Transaction { working: None, ..before },
        ),
        AppendActionView::Commit => (
            AppendReplyView::Done,
            Transaction { committed: working, working: None },
        ),
    }
}

/// An append never gets stuck: as long as it has not come to an end, the database has an answer to
/// what it is to do next, in whatever state `store` others have brought it to.
proof fn lemma_run_goes_on(run: AppendRun, append: AppendEventsView, store: Transaction) -> (longer:
    AppendRun)
    requires
        run.is_run(append),
        run.befores[0].committed.wf(),
        append.wf(),
        append.phase is Beginning,
        run.is_faultless(),
        run.last_step() is Continue,
        others_write(run.afters.last(), store),
    ensures
        longer.is_run(append),
        longer.is_faultless(),
        longer.befores == run.befores.push(store),
        longer.replies.len() == run.replies.len() + 1,
{
    let n = run.replies.len() as int;
    lemma_run(run, append, n - 1);
    if n > 1 {
        lemma_run(run, append, 1);
    }
    lemma_step(
        run.claimed(),
        append,
        run.appends[n - 1],
        run.befores[n - 1],
        run.replies[n - 1],
        run.afters[n - 1],
    );
    let next = run.last_step()->Continue_0;
    let (reply, after) = faultless_answer(store, next.action());
    let longer = AppendRun {
        appends: run.appends.push(next),
        replies: run.replies.push(reply),
        befores: run.befores.push(store),
        afters: run.afters.push(after),
    };
    assert(next.action().admits(reply) && serves(store, next.action(), reply, after)) by {
        if let PhaseView::Inserting(index) = next.phase {
            lemma_insert_event(run.claimed(), append, index);
            assert(next.insertion(index) == append.insertion(index));
        }
    }
    assert forall|i: int| 0 <= i < longer.replies.len() implies #[trigger] longer.is_answered(
        i,
    ) by {
        if i < n {
            assert(run.is_answered(i));
        }
    }
    assert forall|i: int| 0 <= i < longer.replies.len() - 1 implies #[trigger] longer.goes_on(
        i,
    ) by {
        if i < n - 1 {
            assert(run.goes_on(i));
        }
    }
    assert forall|i: int| 0 <= i < longer.replies.len() implies !is_fault(
        longer.befores[i],
        longer.appends[i].action(),
        #[trigger] longer.replies[i],
    ) by {
        if i < n {
            assert(!is_fault(run.befores[i], run.appends[i].action(), run.replies[i]));
        }
    }
    longer
}

proof fn lemma_run_ends(run: AppendRun, append: AppendEventsView) -> (complete: AppendRun)
    requires
        run.is_run(append),
        run.befores[0].committed.wf(),
        append.wf(),
        append.phase is Beginning,
        run.is_faultless(),
        run.replies.len() > 1,
    ensures
        complete.is_run(append),
        complete.is_faultless(),
        complete.befores[0] == run.befores[0],
        complete.befores[1] == run.befores[1],
        complete.last_step() is Finished,
    decreases append.events.len() + 3 - run.replies.len(),
{
    law_append_without_faults(run, append);
    if run.last_step() is Continue {
        let i = run.replies.len() - 1;
        lemma_run(run, append, i);
        lemma_step(
            run.claimed(),
            append,
            run.appends[i],
            run.befores[i],
            run.replies[i],
            run.afters[i],
        );
        let longer = lemma_run_goes_on(run, append, run.afters.last());
        lemma_run_ends(longer, append)
    } else {
        run
    }
}

/// An append can come to its end: a database that does not fail of itself answers every action, up
/// to the outcome there is, whatever tables others have left when the session is to move.
pub proof fn law_append_comes_to_an_end(
    database: Database,
    claimed: Database,
    append: AppendEventsView,
)
    requires
        database.wf(),
        claimed.wf(),
        append.wf(),
        append.phase is Beginning,
    ensures
        exists|run: AppendRun|
            {
                &&& #[trigger] run.is_run(append)
                &&& run.is_faultless()
                &&& run.befores[0].committed == database
                &&& run.claimed() == claimed
                &&& run.last_step() == AppendStepView::Finished(append_outcome(claimed, append))
                &&& run.result() == database_after(claimed, append)
            },
{
    let store = Transaction { committed: database, working: None };
    let (reply, after) = faultless_answer(store, append.action());
    let first = AppendRun {
        appends: seq![append],
        replies: seq![reply],
        befores: seq![store],
        afters: seq![after],
    };
    assert(first.is_answered(0));
    let second = lemma_run_goes_on(
        first,
        append,
        Transaction { committed: claimed, working: None },
    );
    let run = lemma_run_ends(second, append);
    law_append_without_faults(run, append);
}

/// Of two writers who expect the same version of a session, at the same time or one after the
/// other, one is refused: where the first has committed before the second comes to move the
/// session, the second is told the version that it finds, and changes nothing.
pub proof fn law_one_of_two_writers_is_refused(
    first: AppendEventsView,
    first_run: AppendRun,
    second: AppendEventsView,
    second_run: AppendRun,
)
    requires
        first.wf(),
        first.phase is Beginning,
        first_run.is_run(first),
        first_run.last_step() matches AppendStepView::Finished(Ok(_)),
        second.wf(),
        second.phase is Beginning,
        second_run.is_run(second),
        second_run.is_faultless(),
        second_run.befores[0].committed.wf(),
        second_run.last_step() is Finished,
        second.session_id == first.session_id,
        second.expected == first.expected,
        second_run.claimed().sessions.contains_key(first.session_id),
        second_run.claimed().sessions[first.session_id].version
            >= first_run.result().sessions[first.session_id].version,
    ensures
        second_run.last_step() == AppendStepView::Finished(
            Err(
                StoreErrorView::Conflict {
                    expected: SessionVersion(second.expected),
                    actual: SessionVersion(
                        second_run.claimed().sessions[first.session_id].version as u64,
                    ),
                },
            ),
        ),
        second_run.result() == second_run.claimed(),
{
    law_append_tells_the_truth(first_run, first);
    law_append_without_faults(second_run, second);
}

/// A session that is not at the expected version is left alone, and the caller is told the version
/// it is at. A missing session is reported as such. Nothing is appended either way.
pub proof fn law_refused_append_changes_nothing(database: Database, append: AppendEventsView)
    requires
        database.wf(),
        !is_current(database, append),
    ensures
        database_after(database, append) == database,
        !database.sessions.contains_key(append.session_id) ==> append_outcome(database, append)
            == Err::<SessionVersion, StoreErrorView>(StoreErrorView::NotFound(append.session_id)),
        database.sessions.contains_key(append.session_id) ==> append_outcome(database, append)
            == Err::<SessionVersion, StoreErrorView>(
            StoreErrorView::Conflict {
                expected: SessionVersion(append.expected),
                actual: SessionVersion(database.sessions[append.session_id].version as u64),
            },
        ),
{
}

/// A batch is refused before the database is asked if and only if it is empty, or one of its kinds
/// is blank, or the version after it is more than SQLite can count. Every other batch, however many
/// events it has, is put to the database as it is.
pub proof fn law_batches_are_refused_or_started(
    session_id: Seq<char>,
    expected: u64,
    events: Seq<NewEventView>,
    now: Timestamp,
)
    ensures
        batch_refusal(expected, events) is None <==> {
            &&& events.len() > 0
            &&& forall|i: int| 0 <= i < events.len() ==> !is_blank(#[trigger] events[i].kind)
            &&& expected + events.len() <= i64::MAX
        },
        match append_to_start(session_id, expected, events, now) {
            Ok(append) => {
                &&& batch_refusal(expected, events) is None
                &&& append.wf()
                &&& append.phase is Beginning
                &&& append.session_id == session_id
                &&& append.expected == expected
                &&& append.now == now.text()
                &&& append.events.len() == events.len()
                &&& forall|i: int|
                    0 <= i < events.len() ==> (#[trigger] append.events[i]).kind == events[i].kind
                        && append.events[i].payload == json_text(events[i].payload)
            },
            Err(error) => error is InvalidInput && batch_refusal(expected, events) == Some(error),
        },
{
}

/// The version that an append returns is the expected one and one more for each event, and it is
/// the version that the session is at afterwards.
pub proof fn law_versions_count_events(database: Database, append: AppendEventsView)
    requires
        append.wf(),
        is_current(database, append),
    ensures
        append_outcome(database, append) is Ok,
        append_outcome(database, append)->Ok_0.0 == append.expected + append.events.len(),
        database_after(database, append).sessions[append.session_id].version == append.expected
            + append.events.len(),
        database_after(database, append).sessions[append.session_id].updated_at == append.now,
{
}

/// After an append the version of each session is still the number of its events.
pub proof fn law_append_keeps_wf(database: Database, append: AppendEventsView)
    requires
        database.wf(),
        append.wf(),
    ensures
        database_after(database, append).wf(),
{
    if is_current(database, append) {
        let after = database_after(database, append);
        assert forall|id: Seq<char>, n: i64| #[trigger]
            after.events.contains_key((id, n)) <==> after.sessions.contains_key(id) && 1 <= n
                <= after.sessions[id].version by {
            assert(database.events.contains_key((id, n)) <==> database.sessions.contains_key(id)
                && 1 <= n <= database.sessions[id].version);
        }
    }
}

/// An append changes nothing but the version and the time of its session, and the events past the
/// expected version: other sessions, and events that were there before, stay as they are.
pub proof fn law_append_leaves_the_rest(
    database: Database,
    append: AppendEventsView,
    id: Seq<char>,
    n: i64,
)
    requires
        database.wf(),
        append.wf(),
    ensures
        ({
            let after = database_after(database, append);
            &&& after.sessions.dom() == database.sessions.dom()
            &&& id != append.session_id && database.sessions.contains_key(id) ==> after.sessions[id]
                == database.sessions[id]
            &&& database.sessions.contains_key(id) ==> {
                &&& after.sessions[id].root_agent == database.sessions[id].root_agent
                &&& after.sessions[id].title == database.sessions[id].title
                &&& after.sessions[id].metadata == database.sessions[id].metadata
                &&& after.sessions[id].created_at == database.sessions[id].created_at
            }
            &&& database.events.contains_key((id, n)) ==> after.events.contains_key((id, n))
                && after.events[(id, n)] == database.events[(id, n)]
        }),
{
    let after = database_after(database, append);
    assert(after.sessions.dom() =~= database.sessions.dom());
    if database.events.contains_key((id, n)) {
        assert(database.sessions.contains_key(id) && 1 <= n <= database.sessions[id].version);
    }
}

/// Of two appends that expect the same version of a session, the second is refused: it is told
/// the version that the first one made, and changes nothing.
pub proof fn law_second_writer_is_refused(
    database: Database,
    first: AppendEventsView,
    second: AppendEventsView,
)
    requires
        database.wf(),
        first.wf(),
        is_current(database, first),
        second.session_id == first.session_id,
        second.expected == first.expected,
    ensures
        ({
            let after = database_after(database, first);
            &&& database_after(after, second) == after
            &&& append_outcome(after, second) == Err::<SessionVersion, StoreErrorView>(
                StoreErrorView::Conflict {
                    expected: SessionVersion(second.expected),
                    actual: SessionVersion(first.new_version() as u64),
                },
            )
        }),
{
}

/// A writer who goes on from the version that an append returned is let in, and its version is
/// counted on from there.
pub proof fn law_appends_go_on(
    database: Database,
    first: AppendEventsView,
    second: AppendEventsView,
)
    requires
        first.wf(),
        second.wf(),
        is_current(database, first),
        second.session_id == first.session_id,
        append_outcome(database, first) == Ok::<SessionVersion, StoreErrorView>(
            SessionVersion(second.expected),
        ),
    ensures
        is_current(database_after(database, first), second),
        append_outcome(database_after(database, first), second) == Ok::<
            SessionVersion,
            StoreErrorView,
        >(SessionVersion((first.expected + first.events.len() + second.events.len()) as u64)),
{
}

} // verus!
