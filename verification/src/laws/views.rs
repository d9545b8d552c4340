//! What holds of the views that contracts speak of: they leave nothing out.
use vstd::prelude::*;

use crate::append::{
    version_found, AppendAction, AppendActionView, AppendReply, AppendReplyView, AppendStep,
    AppendStepView,
};
use crate::connection::{directory_name, step_answer, OpenStep, OpenStepView};
use crate::create::{Insertion, InsertionView};
use crate::delete::affected_answer;
use crate::events::{event_answer, existence_answer};
use crate::lookup::{row_answer, summary_answer};
use crate::rows::{
    EventRow, EventRowView, SessionRow, SessionRowView, SummaryRow, SummaryRowView,
};
use crate::session::{
    new_events, optional_text, CreateSession, NewEvent, Session, SessionQuery, SessionSummary,
    StoredEvent,
};
use crate::statement::{Parameter, ParameterView, Statement, StatementView};

verus! {

/// Whether a text that may be missing is seen as it is.
pub open spec fn is_same_text(text: Option<String>, view: Option<Seq<char>>) -> bool {
    match (text, view) {
        (Some(text), Some(view)) => text@ == view,
        (None, None) => true,
        _ => false,
    }
}

/// A text that may be missing is seen whole, however long it is.
pub proof fn law_optional_texts_are_seen_whole(text: Option<String>)
    ensures
        is_same_text(text, optional_text(text)),
{
}

/// A session is seen with all its fields.
pub proof fn law_sessions_are_seen_whole(session: Session)
    ensures
        session@.id == session.id@,
        session@.root_agent == session.root_agent@,
        is_same_text(session.title, session@.title),
        session@.metadata == session.metadata,
        session@.version == session.version,
        session@.created_at == session.created_at,
        session@.updated_at == session.updated_at,
{
}

/// A summary is seen with all its fields.
pub proof fn law_summaries_are_seen_whole(summary: SessionSummary)
    ensures
        summary@.id == summary.id@,
        summary@.root_agent == summary.root_agent@,
        is_same_text(summary.title, summary@.title),
        summary@.version == summary.version,
        summary@.created_at == summary.created_at,
        summary@.updated_at == summary.updated_at,
{
}

/// A request is seen with all its fields.
pub proof fn law_requests_are_seen_whole(input: CreateSession)
    ensures
        input@.id == input.id@,
        input@.root_agent == input.root_agent@,
        is_same_text(input.title, input@.title),
        input@.metadata == input.metadata,
{
}

/// A query is seen with its agent and its limit.
pub proof fn law_queries_are_seen_whole(query: SessionQuery)
    ensures
        query@.limit == query.limit,
        query.root_agent is Some <==> query@.root_agent is Some,
        query.root_agent is Some ==> query@.root_agent->Some_0 == query.root_agent->Some_0@,
{
}

/// Events are seen with all their fields, and a batch with all its events in their order.
pub proof fn law_events_are_seen_whole(event: StoredEvent, batch: Seq<NewEvent>)
    ensures
        event@.session_id == event.session_id@,
        event@.sequence == event.sequence,
        event@.kind == event.kind@,
        event@.payload == event.payload,
        event@.created_at == event.created_at,
        new_events(batch).len() == batch.len(),
        forall|i: int|
            0 <= i < batch.len() ==> (#[trigger] new_events(batch)[i]).kind == batch[i].kind@
                && new_events(batch)[i].payload == batch[i].payload,
{
}

/// Whether a column is seen as it is: its value, or the words of the database.
pub open spec fn is_same_column<T: View>(
    column: Result<T, String>,
    view: Result<T::V, Seq<char>>,
) -> bool {
    match (column, view) {
        (Ok(value), Ok(seen)) => value@ == seen,
        (Err(words), Err(seen)) => words@ == seen,
        _ => false,
    }
}

/// Whether a column that may be null is seen as it is.
pub open spec fn is_same_nullable(
    column: Result<Option<String>, String>,
    view: Result<Option<Seq<char>>, Seq<char>>,
) -> bool {
    match (column, view) {
        (Ok(value), Ok(seen)) => is_same_text(value, seen),
        (Err(words), Err(seen)) => words@ == seen,
        _ => false,
    }
}

/// A row is seen with all its columns.
pub proof fn law_rows_are_seen_whole(row: SessionRow, summary: SummaryRow, event: EventRow)
    ensures
        is_same_column(row.id, row@.id),
        is_same_column(row.root_agent, row@.root_agent),
        is_same_nullable(row.title, row@.title),
        is_same_column(row.metadata, row@.metadata),
        is_same_column(row.version, row@.version),
        is_same_column(row.created_at, row@.created_at),
        is_same_column(row.updated_at, row@.updated_at),
        is_same_column(summary.id, summary@.id),
        is_same_column(summary.root_agent, summary@.root_agent),
        is_same_nullable(summary.title, summary@.title),
        is_same_column(summary.version, summary@.version),
        is_same_column(summary.created_at, summary@.created_at),
        is_same_column(summary.updated_at, summary@.updated_at),
        is_same_column(event.sequence, event@.sequence),
        is_same_column(event.kind, event@.kind),
        is_same_column(event.payload, event@.payload),
        is_same_column(event.created_at, event@.created_at),
{
}

/// What the database answered is seen as it is: every row in its place, every number, and its words
/// where it failed.
pub proof fn law_answers_are_seen_whole(
    words: String,
    row: SessionRow,
    summaries: Vec<SummaryRow>,
    events: Vec<EventRow>,
    affected: u64,
    exists_row: bool,
)
    ensures
        row_answer(Ok(Some(row))) == Ok::<Option<SessionRowView>, Seq<char>>(Some(row@)),
        row_answer(Ok(None)) == Ok::<Option<SessionRowView>, Seq<char>>(None),
        row_answer(Err(words)) == Err::<Option<SessionRowView>, Seq<char>>(words@),
        summary_answer(Ok(summaries)) is Ok,
        summary_answer(Ok(summaries))->Ok_0.len() == summaries@.len(),
        forall|i: int|
            0 <= i < summaries@.len() ==> #[trigger] summary_answer(Ok(summaries))->Ok_0[i]
                == summaries@[i]@,
        summary_answer(Err(words)) == Err::<Seq<SummaryRowView>, Seq<char>>(words@),
        event_answer(Ok(events)) is Ok,
        event_answer(Ok(events))->Ok_0.len() == events@.len(),
        forall|i: int|
            0 <= i < events@.len() ==> #[trigger] event_answer(Ok(events))->Ok_0[i]
                == events@[i]@,
        event_answer(Err(words)) == Err::<Seq<EventRowView>, Seq<char>>(words@),
        affected_answer(Ok(affected)) == Ok::<u64, Seq<char>>(affected),
        affected_answer(Err(words)) == Err::<u64, Seq<char>>(words@),
        existence_answer(Ok(exists_row)) == Ok::<bool, Seq<char>>(exists_row),
        existence_answer(Err(words)) == Err::<bool, Seq<char>>(words@),
        step_answer(Ok(())) == Ok::<(), Seq<char>>(()),
        step_answer(Err(words)) == Err::<(), Seq<char>>(words@),
{
}

/// A statement is seen with its kind and all its values.
pub proof fn law_statements_are_seen_whole(statement: Statement)
    ensures
        match (statement, statement@) {
            (
                Statement::InsertSession {
                    id,
                    root_agent,
                    title,
                    metadata,
                    created_at,
                    updated_at,
                },
                StatementView::InsertSession {
                    id: id_seen,
                    root_agent: agent_seen,
                    title: title_seen,
                    metadata: metadata_seen,
                    created_at: created_seen,
                    updated_at: updated_seen,
                },
            ) => {
                &&& id@ == id_seen
                &&& root_agent@ == agent_seen
                &&& is_same_text(title, title_seen)
                &&& metadata@ == metadata_seen
                &&& created_at@ == created_seen
                &&& updated_at@ == updated_seen
            },
            (Statement::SelectSession { id }, StatementView::SelectSession { id: id_seen }) => id@
                == id_seen,
            (
                Statement::SelectLatestSession { root_agent },
                StatementView::SelectLatestSession { root_agent: agent_seen },
            ) => root_agent@ == agent_seen,
            (
                Statement::SelectSummariesOfAgent { root_agent, limit },
                StatementView::SelectSummariesOfAgent {
                    root_agent: agent_seen,
                    limit: limit_seen,
                },
            ) => root_agent@ == agent_seen && limit == limit_seen,
            (
                Statement::SelectSummaries { limit },
                StatementView::SelectSummaries { limit: limit_seen },
            ) => limit == limit_seen,
            (
                Statement::SelectSessionExists { id },
                StatementView::SelectSessionExists { id: id_seen },
            ) => id@ == id_seen,
            (
                Statement::SelectEvents { session_id, after },
                StatementView::SelectEvents { session_id: id_seen, after: after_seen },
            ) => session_id@ == id_seen && after == after_seen,
            (
                Statement::UpdateSession { version, updated_at, id, expected },
                StatementView::UpdateSession {
                    version: version_seen,
                    updated_at: updated_seen,
                    id: id_seen,
                    expected: expected_seen,
                },
            ) => version == version_seen && updated_at@ == updated_seen && id@ == id_seen
                && expected == expected_seen,
            (Statement::SelectVersion { id }, StatementView::SelectVersion { id: id_seen }) => id@
                == id_seen,
            (
                Statement::InsertEvent { session_id, sequence, kind, payload, created_at },
                StatementView::InsertEvent {
                    session_id: id_seen,
                    sequence: sequence_seen,
                    kind: kind_seen,
                    payload: payload_seen,
                    created_at: created_seen,
                },
            ) => session_id@ == id_seen && sequence == sequence_seen && kind@ == kind_seen
                && payload@ == payload_seen && created_at@ == created_seen,
            (Statement::DeleteSession { id }, StatementView::DeleteSession { id: id_seen }) => id@
                == id_seen,
            _ => false,
        },
{
}

/// A bound value is seen as it is.
pub proof fn law_parameters_are_seen_whole(parameter: Parameter)
    ensures
        match (parameter, parameter@) {
            (Parameter::Text(text), ParameterView::Text(seen)) => text@ == seen,
            (Parameter::OptionalText(text), ParameterView::OptionalText(seen)) => is_same_text(
                text,
                seen,
            ),
            (Parameter::Integer(number), ParameterView::Integer(seen)) => number == seen,
            _ => false,
        },
{
}

/// What an append asks for, what the database replies and where the append stands then are seen
/// whole.
pub proof fn law_append_steps_are_seen_whole(
    action: AppendAction,
    reply: AppendReply,
    step: AppendStep,
)
    ensures
        match (action, action@) {
            (AppendAction::Begin, AppendActionView::Begin) => true,
            (AppendAction::Update(statement), AppendActionView::Update(seen)) => statement@ == seen,
            (AppendAction::FindVersion(statement), AppendActionView::FindVersion(seen)) => {
                statement@ == seen
            },
            (AppendAction::Insert(statement), AppendActionView::Insert(seen)) => statement@ == seen,
            (AppendAction::Rollback, AppendActionView::Rollback) => true,
            (AppendAction::Commit, AppendActionView::Commit) => true,
            _ => false,
        },
        match (reply, reply@) {
            (AppendReply::Failed(words), AppendReplyView::Failed(seen)) => words@ == seen,
            (AppendReply::Done, AppendReplyView::Done) => true,
            (AppendReply::Affected(rows), AppendReplyView::Affected(seen)) => rows == seen,
            (AppendReply::Version(found), AppendReplyView::Version(seen)) => seen == version_found(
                found,
            ) && match (found, seen) {
                (Some(Ok(number)), Some(Ok(number_seen))) => number == number_seen,
                (Some(Err(words)), Some(Err(words_seen))) => words@ == words_seen,
                (None, None) => true,
                _ => false,
            },
            _ => false,
        },
        match (step, step@) {
            (AppendStep::Continue(append), AppendStepView::Continue(seen)) => append@ == seen,
            (AppendStep::Finished(Ok(version)), AppendStepView::Finished(Ok(seen))) => version
                == seen,
            (AppendStep::Finished(Err(error)), AppendStepView::Finished(Err(seen))) => error@
                == seen,
            _ => false,
        },
{
}

/// How an insertion went, where an opening stands and the name of a directory are seen whole.
pub proof fn law_creation_and_opening_steps_are_seen_whole(
    answer: Insertion,
    step: OpenStep,
    parent: &str,
)
    ensures
        match (answer, answer@) {
            (Insertion::Inserted, InsertionView::Inserted) => true,
            (Insertion::UniqueViolation, InsertionView::UniqueViolation) => true,
            (Insertion::Failed(words), InsertionView::Failed(seen)) => words@ == seen,
            _ => false,
        },
        match (step, step@) {
            (OpenStep::Continue(opening), OpenStepView::Continue(seen)) => opening@ == seen,
            (OpenStep::Finished(Ok(())), OpenStepView::Finished(Ok(()))) => true,
            (OpenStep::Finished(Err(error)), OpenStepView::Finished(Err(seen))) => error@ == seen,
            _ => false,
        },
        directory_name(Some(parent)) == Some(parent@),
        directory_name(None) is None,
{
}

} // verus!
