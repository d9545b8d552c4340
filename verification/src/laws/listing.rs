//! What holds of listing sessions.
use vstd::prelude::*;

use crate::append::AppendEventsView;
use crate::database::Database;
use crate::error::StoreErrorView;
use crate::laws::append::{database_after, is_current};
use crate::laws::sessions::{find, law_summaries_agree_with_sessions};
use crate::lookup::{listing_for, summaries_found, summaries_in};
use crate::order::{
    lemma_precedes_asymmetric, lemma_precedes_total, lemma_precedes_transitive, precedes,
};
use crate::rows::{summary_in, SessionRowView, SummaryRowView};
use crate::session::{SessionQueryView, SessionSummaryView};
use crate::statement::StatementView;
use crate::time::{law_timestamps_sort_as_text, reads_as, Timestamp};

verus! {

proof fn lemma_listed_before_asymmetric(database: Database, id: Seq<char>, other: Seq<char>)
    ensures
        database.listed_before(id, other) ==> !database.listed_before(other, id),
        database.listed_before(id, other) ==> id != other,
{
    let (time, other_time) = (
        database.sessions[id].updated_at,
        database.sessions[other].updated_at,
    );
    lemma_precedes_asymmetric(time, other_time);
    lemma_precedes_asymmetric(other_time, time);
    lemma_precedes_asymmetric(id, other);
    lemma_precedes_asymmetric(other, id);
}

/// Of two sessions one is listed before the other: a listing has one order.
pub proof fn law_listing_order_is_total(
    database: Database,
    a: Seq<char>,
    b: Seq<char>,
    c: Seq<char>,
)
    ensures
        a == b || database.listed_before(a, b) || database.listed_before(b, a),
        database.listed_before(a, b) ==> !database.listed_before(b, a) && a != b,
        database.listed_before(a, b) && database.listed_before(b, c) ==> database.listed_before(
            a,
            c,
        ),
{
    let (s, t, u) = (
        database.sessions[a].updated_at,
        database.sessions[b].updated_at,
        database.sessions[c].updated_at,
    );
    lemma_listed_before_asymmetric(database, a, b);
    lemma_precedes_total(s, t);
    lemma_precedes_total(a, b);
    if precedes(t, s) && precedes(u, t) {
        lemma_precedes_transitive(u, t, s);
    }
    if precedes(b, a) && precedes(c, b) {
        lemma_precedes_transitive(c, b, a);
    }
}

proof fn lemma_listings_agree(
    database: Database,
    root_agent: Option<Seq<char>>,
    m: i64,
    ids: Seq<Seq<char>>,
    n: i64,
    others: Seq<Seq<char>>,
    i: int,
)
    requires
        database.lists(root_agent, m, ids),
        database.lists(root_agent, n, others),
        m <= n,
        0 <= i < ids.len(),
    ensures
        i < others.len(),
        ids[i] == others[i],
    decreases i,
{
    assert forall|k: int| 0 <= k < i implies k < others.len() && ids[k] == others[k] by {
        lemma_listings_agree(database, root_agent, m, ids, n, others, k);
    }
    let x = ids[i];
    assert(database.is_listed(root_agent, x));
    assert forall|k: int| 0 <= k < i && k < others.len() implies others[k] != x by {
        lemma_listed_before_asymmetric(database, ids[k], x);
    }
    if i >= others.len() {
        assert(!others.contains(x));
    } else if x != others[i] {
        let y = others[i];
        assert(database.is_listed(root_agent, y));
        assert(database.listed_before(y, x)) by {
            if others.contains(x) {
                let j = choose|j: int| 0 <= j < others.len() && others[j] == x;
                assert(j > i);
            }
        }
        assert(database.listed_before(x, y)) by {
            if ids.contains(y) {
                let k = choose|k: int| 0 <= k < ids.len() && ids[k] == y;
                if k < i {
                    lemma_listed_before_asymmetric(database, others[k], y);
                }
                assert(k > i);
            }
        }
        lemma_listed_before_asymmetric(database, x, y);
    }
}

/// A shorter listing is the beginning of a longer one, so a query has one answer.
pub proof fn law_listings_agree(
    database: Database,
    root_agent: Option<Seq<char>>,
    m: i64,
    ids: Seq<Seq<char>>,
    n: i64,
    others: Seq<Seq<char>>,
)
    requires
        database.lists(root_agent, m, ids),
        database.lists(root_agent, n, others),
        m <= n,
    ensures
        ids == others.take(
            if m < others.len() {
                m as int
            } else {
                others.len() as int
            },
        ),
{
    if ids.len() > 0 {
        lemma_listings_agree(database, root_agent, m, ids, n, others, ids.len() - 1);
    }
    assert forall|i: int| 0 <= i < ids.len() implies ids[i] == others[i] by {
        lemma_listings_agree(database, root_agent, m, ids, n, others, i);
    }
    if ids.len() < others.len() {
        let x = others[ids.len() as int];
        assert(database.is_listed(root_agent, x));
        assert forall|k: int| 0 <= k < ids.len() implies ids[k] != x by {
            lemma_listed_before_asymmetric(database, others[k], x);
        }
        assert(!ids.contains(x));
    }
    assert(ids =~= others.take(ids.len() as int));
}

/// The latest session of an agent is the first one in each listing of the agent, and there is none
/// exactly if the listing is empty.
pub proof fn law_latest_is_listed_first(
    database: Database,
    root_agent: Seq<char>,
    limit: i64,
    row: Option<SessionRowView>,
    rows: Seq<SummaryRowView>,
)
    requires
        limit > 0,
        database.selects_latest(StatementView::SelectLatestSession { root_agent }, row),
        database.selects_summaries(
            StatementView::SelectSummariesOfAgent { root_agent, limit },
            rows,
        ),
    ensures
        row is None <==> rows.len() == 0,
        row matches Some(found) ==> rows[0] == found.summary(),
{
    let latest = choose|ids: Seq<Seq<char>>|
        {
            &&& #[trigger] database.lists(Some(root_agent), 1, ids)
            &&& row == if ids.len() == 0 {
                None::<SessionRowView>
            } else {
                Some(database.session_row(ids[0]))
            }
        };
    let ids = choose|ids: Seq<Seq<char>>| #[trigger]
        database.lists(Some(root_agent), limit, ids) && rows == database.summary_rows(ids);
    law_listings_agree(database, Some(root_agent), 1, latest, limit, ids);
}

/// The latest session of an agent is the session of that agent that comes before all its others: it
/// was updated last, and of those that were updated at the same time it has the greatest
/// identifier. There is none exactly if the agent has no session.
pub proof fn law_latest_session_is_latest(
    database: Database,
    root_agent: Seq<char>,
    row: Option<SessionRowView>,
)
    requires
        database.selects_latest(StatementView::SelectLatestSession { root_agent }, row),
    ensures
        match row {
            Some(found) => {
                &&& found.id is Ok
                &&& database.is_listed(Some(root_agent), found.id->Ok_0)
                &&& found == database.session_row(found.id->Ok_0)
                &&& forall|other: Seq<char>| #[trigger]
                    database.is_listed(Some(root_agent), other) ==> other == found.id->Ok_0
                        || database.listed_before(found.id->Ok_0, other)
            },
            None => forall|id: Seq<char>| !#[trigger] database.is_listed(Some(root_agent), id),
        },
{
    let ids = choose|ids: Seq<Seq<char>>|
        {
            &&& #[trigger] database.lists(Some(root_agent), 1, ids)
            &&& row == if ids.len() == 0 {
                None::<SessionRowView>
            } else {
                Some(database.session_row(ids[0]))
            }
        };
    if ids.len() > 0 {
        assert(database.is_listed(Some(root_agent), ids[0]));
        assert forall|other: Seq<char>| #[trigger]
            database.is_listed(Some(root_agent), other) implies other == ids[0]
            || database.listed_before(ids[0], other) by {
            if !ids.contains(other) {
                assert(database.listed_before(ids[0], other));
            }
        }
    } else {
        assert forall|id: Seq<char>| !#[trigger] database.is_listed(Some(root_agent), id) by {
            assert(!ids.contains(id));
        }
    }
}

/// A session that was appended to later than all others of its agent were updated is the latest
/// one of its agent.
pub proof fn law_appended_session_is_latest(
    database: Database,
    append: AppendEventsView,
    row: Option<SessionRowView>,
)
    requires
        append.wf(),
        is_current(database, append),
        forall|id: Seq<char>|
            id != append.session_id && #[trigger] database.is_listed(
                Some(database.sessions[append.session_id].root_agent),
                id,
            ) ==> precedes(database.sessions[id].updated_at, append.now),
        database_after(database, append).selects_latest(
            StatementView::SelectLatestSession {
                root_agent: database.sessions[append.session_id].root_agent,
            },
            row,
        ),
    ensures
        row == Some(database_after(database, append).session_row(append.session_id)),
{
    let after = database_after(database, append);
    let id = append.session_id;
    let agent = database.sessions[id].root_agent;
    law_latest_session_is_latest(after, agent, row);
    assert(after.is_listed(Some(agent), id));
    let found = row->Some_0.id->Ok_0;
    if found != id {
        assert(database.is_listed(Some(agent), found));
        lemma_precedes_asymmetric(database.sessions[found].updated_at, append.now);
    }
}

proof fn lemma_summaries_in(rows: Seq<SummaryRowView>, summaries: Seq<SessionSummaryView>)
    requires
        summaries_in(rows) == Ok::<Seq<SessionSummaryView>, StoreErrorView>(summaries),
    ensures
        rows.len() == summaries.len(),
        forall|i: int|
            0 <= i < rows.len() ==> summary_in(#[trigger] rows[i]) == Ok::<
                SessionSummaryView,
                StoreErrorView,
            >(summaries[i]),
    decreases rows.len(),
{
    if rows.len() > 0 {
        let firsts = summaries_in(rows.drop_last())->Ok_0;
        assert(summaries.drop_last() =~= firsts);
        lemma_summaries_in(rows.drop_last(), firsts);
        assert forall|i: int| 0 <= i < rows.len() implies summary_in(#[trigger] rows[i]) == Ok::<
            SessionSummaryView,
            StoreErrorView,
        >(summaries[i]) by {
            if i < rows.len() - 1 {
                assert(rows.drop_last()[i] == rows[i]);
            }
        }
    }
}

/// Whether a session is among those that were listed.
pub open spec fn is_among(summaries: Seq<SessionSummaryView>, id: Seq<char>) -> bool {
    exists|i: int| 0 <= i < summaries.len() && (#[trigger] summaries[i]).id == id
}

/// Whether a summary shows what the database holds of its session, and what finding it gives.
pub open spec fn shows(database: Database, summary: SessionSummaryView) -> bool {
    let record = database.sessions[summary.id];
    &&& summary.root_agent == record.root_agent
    &&& summary.title == record.title
    &&& summary.version.0 == record.version
    &&& reads_as(record.created_at, summary.created_at)
    &&& reads_as(record.updated_at, summary.updated_at)
    &&& find(database, summary.id) matches Ok(Some(session)) ==> summary == session.summary()
}

/// A query lists sessions of its agent only, each once, no more than its limit, and shows of each
/// what the database holds of it. Where it lists fewer than its limit, it lists all sessions of its
/// agent. A session of its agent that it leaves out comes after all that it lists.
pub proof fn law_listing_answers_the_query(
    database: Database,
    query: SessionQueryView,
    statement: StatementView,
    rows: Seq<SummaryRowView>,
    summaries: Seq<SessionSummaryView>,
)
    requires
        listing_for(query) == Ok::<Option<StatementView>, StoreErrorView>(Some(statement)),
        database.selects_summaries(statement, rows),
        summaries_found(Ok(rows)) == Ok::<Seq<SessionSummaryView>, StoreErrorView>(summaries),
    ensures
        summaries.len() <= query.limit,
        forall|i: int|
            0 <= i < summaries.len() ==> database.is_listed(
                query.root_agent,
                (#[trigger] summaries[i]).id,
            ),
        forall|i: int|
            0 <= i < summaries.len() ==> shows(database, #[trigger] summaries[i]),
        forall|i: int, j: int|
            0 <= i < j < summaries.len() ==> database.listed_before(
                (#[trigger] summaries[i]).id,
                (#[trigger] summaries[j]).id,
            ),
        forall|id: Seq<char>| #[trigger]
            database.is_listed(query.root_agent, id) ==> is_among(summaries, id) || (
            summaries.len() == query.limit && forall|i: int|
                0 <= i < summaries.len() ==> database.listed_before(
                    (#[trigger] summaries[i]).id,
                    id,
                )),
{
    let ids = choose|ids: Seq<Seq<char>>| #[trigger]
        database.lists(query.root_agent, query.limit as i64, ids) && rows == database.summary_rows(
            ids,
        );
    lemma_summaries_in(rows, summaries);
    assert forall|i: int| 0 <= i < summaries.len() implies (#[trigger] summaries[i]).id == ids[i]
        && database.is_listed(query.root_agent, summaries[i].id) && shows(
        database,
        summaries[i],
    ) by {
        assert(summary_in(rows[i]) == Ok::<SessionSummaryView, StoreErrorView>(summaries[i]));
        assert(rows[i] == database.session_row(ids[i]).summary());
        assert(database.is_listed(query.root_agent, ids[i]));
        law_summaries_agree_with_sessions(database.session_row(ids[i]));
    }
    assert forall|id: Seq<char>| #[trigger]
        database.is_listed(query.root_agent, id) && !is_among(summaries, id) implies summaries.len()
        == query.limit && forall|i: int|
        0 <= i < summaries.len() ==> database.listed_before((#[trigger] summaries[i]).id, id) by {
        if ids.contains(id) {
            let i = choose|i: int| 0 <= i < ids.len() && ids[i] == id;
            assert(summaries[i].id == id);
        }
        assert forall|i: int| 0 <= i < summaries.len() implies database.listed_before(
            (#[trigger] summaries[i]).id,
            id,
        ) by {
            assert(database.listed_before(ids[i], id));
        }
    }
}

/// A query is refused if and only if its limit is more than SQLite can count. A query for no
/// sessions takes no statement, and it is the only one that takes none. Every other query takes
/// one, with its agent, if it has one, and with its limit.
pub proof fn law_queries_are_refused_or_put(query: SessionQueryView)
    ensures
        listing_for(query) is Err <==> query.limit > i64::MAX,
        listing_for(query) == Ok::<Option<StatementView>, StoreErrorView>(None) <==> query.limit
            == 0,
        1 <= query.limit <= i64::MAX ==> listing_for(query) == Ok::<
            Option<StatementView>,
            StoreErrorView,
        >(
            Some(
                match query.root_agent {
                    Some(root_agent) => StatementView::SelectSummariesOfAgent {
                        root_agent,
                        limit: query.limit as i64,
                    },
                    None => StatementView::SelectSummaries { limit: query.limit as i64 },
                },
            ),
        ),
{
}

/// The answer to a query for no sessions is the empty list: what a listing of no sessions holds,
/// and what is made of no rows. No other query takes no statement.
pub proof fn law_query_for_nothing_lists_nothing(
    database: Database,
    query: SessionQueryView,
    ids: Seq<Seq<char>>,
)
    ensures
        listing_for(query) == Ok::<Option<StatementView>, StoreErrorView>(None) <==> query.limit
            == 0,
        query.limit == 0 && database.lists(query.root_agent, query.limit as i64, ids) ==> ids.len()
            == 0,
        summaries_found(Ok(Seq::empty())) == Ok::<Seq<SessionSummaryView>, StoreErrorView>(
            Seq::empty(),
        ),
{
}

/// A listing starts with the sessions that were updated last, by the times that it shows.
///
/// Times are taken with years from 0 to 9999, which chrono reads back from their own text.
pub proof fn law_listing_shows_the_latest_first(
    database: Database,
    query: SessionQueryView,
    statement: StatementView,
    rows: Seq<SummaryRowView>,
    summaries: Seq<SessionSummaryView>,
    times: Map<Seq<char>, Timestamp>,
)
    requires
        listing_for(query) == Ok::<Option<StatementView>, StoreErrorView>(Some(statement)),
        database.selects_summaries(statement, rows),
        summaries_found(Ok(rows)) == Ok::<Seq<SessionSummaryView>, StoreErrorView>(summaries),
        forall|id: Seq<char>| #[trigger]
            database.sessions.contains_key(id) ==> {
                &&& database.sessions[id].updated_at == times[id].text()
                &&& times[id].valid()
                &&& times[id].has_plain_year()
                &&& times[id].survives()
            },
    ensures
        forall|i: int|
            0 <= i < summaries.len() ==> (#[trigger] summaries[i]).updated_at
                == times[summaries[i].id],
        forall|i: int, j: int|
            0 <= i < j < summaries.len() ==> !(#[trigger] summaries[i]).updated_at.before(
                (#[trigger] summaries[j]).updated_at,
            ),
{
    let ids = choose|ids: Seq<Seq<char>>| #[trigger]
        database.lists(query.root_agent, query.limit as i64, ids) && rows == database.summary_rows(
            ids,
        );
    lemma_summaries_in(rows, summaries);
    assert forall|i: int| 0 <= i < summaries.len() implies (#[trigger] summaries[i]).id == ids[i]
        && summaries[i].updated_at == times[ids[i]] && database.sessions.contains_key(ids[i]) by {
        assert(summary_in(rows[i]) == Ok::<SessionSummaryView, StoreErrorView>(summaries[i]));
        assert(rows[i] == database.session_row(ids[i]).summary());
        assert(database.is_listed(query.root_agent, ids[i]));
    }
    assert forall|i: int, j: int| 0 <= i < j < summaries.len() implies !(
    #[trigger] summaries[i]).updated_at.before((#[trigger] summaries[j]).updated_at) by {
        assert(database.listed_before(ids[i], ids[j]));
        let (t, u) = (times[ids[i]], times[ids[j]]);
        assert(summaries[i].updated_at == t && summaries[j].updated_at == u);
        law_timestamps_sort_as_text(t, u);
        lemma_precedes_asymmetric(u.text(), t.text());
    }
}

} // verus!
