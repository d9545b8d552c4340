//! Finding and listing sessions.
use vstd::prelude::*;

use crate::error::{database_error, StoreError, StoreErrorView};
use crate::names::{AgentName, SessionId};
use crate::rows::{
    session_from_row, session_in, session_summary_from_row, summary_in, SessionRow, SessionRowView,
    SummaryRow, SummaryRowView,
};
use crate::session::{
    Session, SessionQuery, SessionQueryView, SessionSummary, SessionSummaryView, SessionView,
};
use crate::statement::{Statement, StatementView};

verus! {

/// The statement that finds a session.
pub fn get_session(id: &SessionId) -> (statement: Statement)
    ensures
        statement@ == (StatementView::SelectSession { id: id@ }),
{
    Statement::SelectSession { id: id.to_string() }
}

/// The statement that finds the session of the agent that was updated last.
pub fn latest_session(root_agent: &AgentName) -> (statement: Statement)
    ensures
        statement@ == (StatementView::SelectLatestSession { root_agent: root_agent@ }),
{
    Statement::SelectLatestSession { root_agent: root_agent.to_string() }
}

/// What [`found_session`] returns for the row that the database found, if it found one.
pub open spec fn session_found(answer: Result<Option<SessionRowView>, Seq<char>>) -> Result<
    Option<SessionView>,
    StoreErrorView,
> {
    match answer {
        Ok(Some(row)) => match session_in(row) {
            Ok(session) => Ok(Some(session)),
            Err(error) => Err(error),
        },
        Ok(None) => Ok(None),
        Err(error) => Err(StoreErrorView::Database(error)),
    }
}

/// The view of a row that may be missing, or of the words of the database.
pub open spec fn row_answer(answer: Result<Option<SessionRow>, String>) -> Result<
    Option<SessionRowView>,
    Seq<char>,
> {
    match answer {
        Ok(Some(row)) => Ok(Some(row@)),
        Ok(None) => Ok(None),
        Err(error) => Err(error@),
    }
}

/// The session that the database found, if it found one.
pub fn found_session(answer: Result<Option<SessionRow>, String>) -> (found: Result<
    Option<Session>,
    StoreError,
>)
    ensures
        match found {
            Ok(Some(session)) => session_found(row_answer(answer)) == Ok::<
                Option<SessionView>,
                StoreErrorView,
            >(Some(session@)),
            Ok(None) => session_found(row_answer(answer)) == Ok::<
                Option<SessionView>,
                StoreErrorView,
            >(None),
            Err(error) => session_found(row_answer(answer)) == Err::<
                Option<SessionView>,
                StoreErrorView,
            >(error@),
        },
{
    match answer {
        Ok(Some(row)) => match session_from_row(row) {
            Ok(session) => Ok(Some(session)),
            Err(error) => Err(error),
        },
        Ok(None) => Ok(None),
        Err(error) => Err(database_error(error)),
    }
}

/// The statement that a query takes, if it takes one, or why the query is refused.
pub open spec fn listing_for(query: SessionQueryView) -> Result<
    Option<StatementView>,
    StoreErrorView,
> {
    if query.limit == 0 {
        Ok(None)
    } else if query.limit > i64::MAX {
        Err(StoreErrorView::InvalidInput("session limit is too large"@))
    } else {
        match query.root_agent {
            Some(root_agent) => Ok(
                Some(
                    StatementView::SelectSummariesOfAgent {
                        root_agent,
                        limit: query.limit as i64,
                    },
                ),
            ),
            None => Ok(Some(StatementView::SelectSummaries { limit: query.limit as i64 })),
        }
    }
}

/// The statement that lists sessions. A query for no sessions takes none: it lists nothing.
pub fn list_sessions(query: SessionQuery) -> (statement: Result<Option<Statement>, StoreError>)
    ensures
        match statement {
            Ok(Some(statement)) => listing_for(query@) == Ok::<
                Option<StatementView>,
                StoreErrorView,
            >(Some(statement@)),
            Ok(None) => listing_for(query@) == Ok::<Option<StatementView>, StoreErrorView>(None),
            Err(error) => listing_for(query@) == Err::<Option<StatementView>, StoreErrorView>(
                error@,
            ),
        },
{
    if query.limit == 0 {
        return Ok(None);
    }
    let limit: i64 = match i64::try_from(query.limit) {
        Ok(limit) => limit,
        Err(_) => {
            return Err(StoreError::InvalidInput(String::from("session limit is too large")));
        },
    };
    match query.root_agent {
        Some(root_agent) => Ok(
            Some(
                Statement::SelectSummariesOfAgent { root_agent: root_agent.to_string(), limit },
            ),
        ),
        None => Ok(Some(Statement::SelectSummaries { limit })),
    }
}

/// The summaries that rows stand for, or the error of the first faulty row.
pub open spec fn summaries_in(rows: Seq<SummaryRowView>) -> Result<
    Seq<SessionSummaryView>,
    StoreErrorView,
>
    decreases rows.len(),
{
    if rows.len() == 0 {
        Ok(Seq::empty())
    } else {
        match summaries_in(rows.drop_last()) {
            Ok(summaries) => match summary_in(rows.last()) {
                Ok(summary) => Ok(summaries.push(summary)),
                Err(error) => Err(error),
            },
            Err(error) => Err(error),
        }
    }
}

/// What [`found_summaries`] returns for the rows that the database found.
pub open spec fn summaries_found(answer: Result<Seq<SummaryRowView>, Seq<char>>) -> Result<
    Seq<SessionSummaryView>,
    StoreErrorView,
> {
    match answer {
        Ok(rows) => summaries_in(rows),
        Err(error) => Err(StoreErrorView::Database(error)),
    }
}

/// The views of rows, or of the words of the database.
pub open spec fn summary_answer(answer: Result<Vec<SummaryRow>, String>) -> Result<
    Seq<SummaryRowView>,
    Seq<char>,
> {
    match answer {
        Ok(rows) => Ok(rows@.map_values(|row: SummaryRow| row@)),
        Err(error) => Err(error@),
    }
}

proof fn lemma_summaries_prefix(rows: Seq<SummaryRowView>, n: int)
    requires
        0 <= n <= rows.len(),
    ensures
        summaries_in(rows.take(n)) is Err ==> summaries_in(rows) == summaries_in(rows.take(n)),
    decreases rows.len(),
{
    if n == rows.len() {
        assert(rows.take(n) =~= rows);
    } else {
        assert(rows.drop_last().take(n) =~= rows.take(n));
        lemma_summaries_prefix(rows.drop_last(), n);
    }
}

/// The sessions that the database listed.
pub fn found_summaries(answer: Result<Vec<SummaryRow>, String>) -> (found: Result<
    Vec<SessionSummary>,
    StoreError,
>)
    ensures
        match found {
            Ok(summaries) => summaries_found(summary_answer(answer)) == Ok::<
                Seq<SessionSummaryView>,
                StoreErrorView,
            >(summaries@.map_values(|summary: SessionSummary| summary@)),
            Err(error) => summaries_found(summary_answer(answer)) == Err::<
                Seq<SessionSummaryView>,
                StoreErrorView,
            >(error@),
        },
{
    let rows: Vec<SummaryRow> = match answer {
        Ok(rows) => rows,
        Err(error) => {
            return Err(database_error(error));
        },
    };
    let ghost views = rows@.map_values(|row: SummaryRow| row@);
    let ghost all = rows@;
    let mut summaries: Vec<SessionSummary> = Vec::new();
    assert(summaries@.map_values(|summary: SessionSummary| summary@) =~= Seq::empty());
    for row in iter: rows
        invariant
            iter.seq() == all,
            views == all.map_values(|row: SummaryRow| row@),
            summary_answer(answer) == Ok::<Seq<SummaryRowView>, Seq<char>>(views),
            summaries_in(views.take(iter.index() as int)) == Ok::<
                Seq<SessionSummaryView>,
                StoreErrorView,
            >(summaries@.map_values(|summary: SessionSummary| summary@)),
    {
        let ghost n = iter.index() as int;
        let ghost before = summaries@.map_values(|summary: SessionSummary| summary@);
        assert(views.take(n + 1).drop_last() =~= views.take(n));
        assert(views.take(n + 1).last() == row@);
        match session_summary_from_row(row) {
            Ok(summary) => {
                summaries.push(summary);
                assert(summaries@.map_values(|summary: SessionSummary| summary@) =~= before.push(
                    summary@,
                ));
            },
            Err(error) => {
                proof {
                    lemma_summaries_prefix(views, n + 1);
                }
                return Err(error);
            },
        }
    }
    assert(views.take(views.len() as int) =~= views);
    Ok(summaries)
}

} // verus!
