//! What holds of creating, finding and deleting sessions.
use vstd::prelude::*;

use crate::append::AppendEventsView;
use crate::create::{creation_outcome, insertion_of, new_session, session_to_create};
use crate::database::Database;
use crate::delete::deletion_outcome;
use crate::error::StoreErrorView;
use crate::json::json_survives;
use crate::laws::append::{append_outcome, database_after, is_current};
use crate::lookup::session_found;
use crate::names::SessionVersion;
use crate::rows::{session_in, summary_in, EventRowView, SessionRowView};
use crate::session::{CreateSessionView, SessionSummaryView, SessionView};
use crate::statement::StatementView;
use crate::text::is_blank;
use crate::time::Timestamp;

verus! {

/// The database after a request for a session.
pub open spec fn database_with(database: Database, session: SessionView) -> Database {
    database.insert_session(insertion_of(session)).0
}

/// The database without a session.
pub open spec fn database_without(database: Database, id: Seq<char>) -> Database {
    database.delete_session(StatementView::DeleteSession { id }).0
}

/// What finding a session gives.
pub open spec fn find(database: Database, id: Seq<char>) -> Result<
    Option<SessionView>,
    StoreErrorView,
> {
    session_found(Ok(database.select_session(StatementView::SelectSession { id })))
}

/// A new database is in order.
pub proof fn law_empty_database_is_wf()
    ensures
        Database::empty().wf(),
{
}

/// A request is refused if and only if its identifier or its agent is blank.
pub proof fn law_blank_requests_are_refused(input: CreateSessionView, now: Timestamp)
    ensures
        session_to_create(input, now) is Err <==> is_blank(input.id) || is_blank(
            input.root_agent,
        ),
        session_to_create(input, now) matches Err(error) ==> error is InvalidInput,
        session_to_create(input, now) matches Ok(session) ==> session == new_session(input, now),
{
}

/// A session that was created is found as it was returned to its creator: with the identifier, the
/// agent, the title and the metadata of the request, at version zero.
///
/// [`crate::create::create_session`] ensures of its metadata, where they are nested no deeper than
/// the limit, and of its time in the years up to 9999, that they are read back from their texts.
pub proof fn law_created_session_is_found(
    database: Database,
    input: CreateSessionView,
    now: Timestamp,
)
    requires
        session_to_create(input, now) is Ok,
        !database.sessions.contains_key(input.id),
        json_survives(input.metadata),
        now.survives(),
    ensures
        ({
            let session = new_session(input, now);
            &&& creation_outcome(session, database.insert_session(insertion_of(session)).1) == Ok::<
                SessionView,
                StoreErrorView,
            >(session)
            &&& find(database_with(database, session), input.id) == Ok::<
                Option<SessionView>,
                StoreErrorView,
            >(Some(session))
            &&& session.id == input.id
            &&& session.root_agent == input.root_agent
            &&& session.title == input.title
            &&& session.metadata == input.metadata
            &&& session.version == SessionVersion(0)
            &&& session.created_at == now
            &&& session.updated_at == now
        }),
{
}

/// An identifier is given once: creating a session with the identifier of another one is refused,
/// and changes nothing.
pub proof fn law_identifiers_are_unique(database: Database, session: SessionView)
    requires
        database.sessions.contains_key(session.id),
    ensures
        creation_outcome(session, database.insert_session(insertion_of(session)).1) == Err::<
            SessionView,
            StoreErrorView,
        >(StoreErrorView::AlreadyExists(session.id)),
        database_with(database, session) == database,
{
}

/// Creating a session keeps the database in order and leaves the other sessions and all events as
/// they are.
pub proof fn law_create_leaves_the_rest(database: Database, session: SessionView, id: Seq<char>)
    requires
        database.wf(),
    ensures
        database_with(database, session).wf(),
        database_with(database, session).events == database.events,
        database.sessions.contains_key(id) ==> database_with(
            database,
            session,
        ).sessions.contains_key(id) && database_with(database, session).sessions[id]
            == database.sessions[id],
{
    let after = database_with(database, session);
    assert forall|id: Seq<char>, n: i64| #[trigger]
        after.events.contains_key((id, n)) <==> after.sessions.contains_key(id) && 1 <= n
            <= after.sessions[id].version by {
        assert(database.events.contains_key((id, n)) <==> database.sessions.contains_key(id) && 1
            <= n <= database.sessions[id].version);
    }
}

/// A new session has no events.
pub proof fn law_new_session_has_no_events(
    database: Database,
    session: SessionView,
    rows: Seq<EventRowView>,
)
    requires
        database.wf(),
        !database.sessions.contains_key(session.id),
        database_with(database, session).selects_events(
            StatementView::SelectEvents { session_id: session.id, after: 0 },
            rows,
        ),
    ensures
        rows.len() == 0,
{
    law_create_leaves_the_rest(database, session, session.id);
    crate::laws::reading::law_events_are_read_in_order(
        database_with(database, session),
        session.id,
        0,
        rows,
    );
}

/// An append is seen in its session: the session is found at the version that the append returned
/// and with the time of the append, and is otherwise as it was.
///
/// Times are taken that chrono reads back from their own text.
pub proof fn law_append_is_seen_in_the_session(
    database: Database,
    append: AppendEventsView,
    session: SessionView,
    now: Timestamp,
)
    requires
        append.wf(),
        is_current(database, append),
        append.now == now.text(),
        now.survives(),
        find(database, append.session_id) == Ok::<Option<SessionView>, StoreErrorView>(
            Some(session),
        ),
    ensures
        find(database_after(database, append), append.session_id) == Ok::<
            Option<SessionView>,
            StoreErrorView,
        >(
            Some(
                SessionView {
                    version: append_outcome(database, append)->Ok_0,
                    updated_at: now,
                    ..session
                },
            ),
        ),
{
}

/// A session that was deleted is gone, and its events with it. The other sessions and their events
/// stay, and the database stays in order.
pub proof fn law_deletion_cascades(database: Database, id: Seq<char>, other: Seq<char>, n: i64)
    requires
        database.wf(),
        database.sessions.contains_key(id),
    ensures
        ({
            let after = database_without(database, id);
            &&& deletion_outcome(
                id,
                Ok(database.delete_session(StatementView::DeleteSession { id }).1),
            ) == Ok::<(), StoreErrorView>(())
            &&& after.wf()
            &&& find(after, id) == Ok::<Option<SessionView>, StoreErrorView>(None)
            &&& !after.select_session_exists(StatementView::SelectSessionExists { id })
            &&& !after.events.contains_key((id, n))
            &&& other != id ==> {
                &&& find(after, other) == find(database, other)
                &&& after.events.contains_key((other, n)) == database.events.contains_key(
                    (other, n),
                )
                &&& database.events.contains_key((other, n)) ==> after.events[(other, n)]
                    == database.events[(other, n)]
            }
        }),
{
    let after = database_without(database, id);
    assert forall|key: Seq<char>, m: i64| #[trigger]
        after.events.contains_key((key, m)) <==> after.sessions.contains_key(key) && 1 <= m
            <= after.sessions[key].version by {
        assert(database.events.contains_key((key, m)) <==> database.sessions.contains_key(key)
            && 1 <= m <= database.sessions[key].version);
    }
}

/// Deleting a missing session is reported, and changes nothing.
pub proof fn law_deleting_nothing_is_reported(database: Database, id: Seq<char>)
    requires
        !database.sessions.contains_key(id),
    ensures
        deletion_outcome(
            id,
            Ok(database.delete_session(StatementView::DeleteSession { id }).1),
        ) == Err::<(), StoreErrorView>(StoreErrorView::NotFound(id)),
        database_without(database, id) == database,
{
}

/// Deleting a session that was just created undoes its creation.
pub proof fn law_deletion_undoes_creation(database: Database, session: SessionView)
    requires
        database.wf(),
        !database.sessions.contains_key(session.id),
    ensures
        database_without(database_with(database, session), session.id) == database,
{
    let after = database_without(database_with(database, session), session.id);
    assert(after.sessions =~= database.sessions);
    assert forall|key: (Seq<char>, i64)| database.events.contains_key(key) implies key.0
        != session.id by {
        assert(database.events.contains_key((key.0, key.1)));
    }
    assert(after.events =~= database.events);
}

/// A deleted session takes no events.
pub proof fn law_deleted_session_takes_no_events(
    database: Database,
    append: AppendEventsView,
)
    ensures
        append_outcome(database_without(database, append.session_id), append) == Err::<
            SessionVersion,
            StoreErrorView,
        >(StoreErrorView::NotFound(append.session_id)),
        database_after(database_without(database, append.session_id), append)
            == database_without(database, append.session_id),
{
}

/// Creating, appending to and deleting other sessions leaves a session and its events as they are.
pub proof fn law_other_sessions_are_left_alone(
    database: Database,
    id: Seq<char>,
    session: SessionView,
    append: AppendEventsView,
    other: Seq<char>,
)
    requires
        session.id != id,
        append.session_id != id,
        other != id,
    ensures
        database.keeps(database_with(database, session), id),
        database.keeps(database_after(database, append), id),
        database.keeps(database_without(database, other), id),
{
}

/// A listing shows of a session what finding it shows, but for the metadata.
pub proof fn law_summaries_agree_with_sessions(row: SessionRowView)
    ensures
        session_in(row) matches Ok(session) ==> summary_in(row.summary()) == Ok::<
            SessionSummaryView,
            StoreErrorView,
        >(session.summary()),
{
}

} // verus!
