//! What holds of reading events.
use vstd::prelude::*;

use crate::append::{append_to_start, AppendEventsView};
use crate::database::{is_ascending, Database};
use crate::error::StoreErrorView;
use crate::events::{events_found, events_in, events_listing};
use crate::json::json_survives;
use crate::laws::append::{database_after, is_current};
use crate::names::EventSequence;
use crate::rows::{event_in, EventRowView};
use crate::session::{NewEventView, StoredEventView};
use crate::statement::StatementView;
use crate::time::Timestamp;

verus! {

/// The numbers from the one past `after` to `last`.
pub open spec fn numbers_between(after: i64, last: i64) -> Seq<i64> {
    Seq::new(
        if after < last {
            (last - after) as nat
        } else {
            0
        },
        |i: int| (after + 1 + i) as i64,
    )
}

proof fn lemma_ascending_gap(numbers: Seq<i64>, i: int)
    requires
        is_ascending(numbers),
        0 <= i < numbers.len(),
    ensures
        numbers[i] >= numbers[0] + i,
    decreases i,
{
    if i > 0 {
        lemma_ascending_gap(numbers, i - 1);
    }
}

proof fn lemma_number_at(
    database: Database,
    session_id: Seq<char>,
    after: i64,
    numbers: Seq<i64>,
    i: int,
)
    requires
        database.wf(),
        database.sessions.contains_key(session_id),
        0 <= after,
        database.numbers_after(session_id, after, numbers),
        0 <= i < numbers.len(),
    ensures
        numbers[i] == after + 1 + i,
        numbers[i] <= database.sessions[session_id].version,
    decreases i,
{
    assert(numbers.contains(numbers[i]));
    assert(numbers.contains(numbers[0]));
    assert(database.events.contains_key((session_id, numbers[i])));
    lemma_ascending_gap(numbers, i);
    let n = (after + 1 + i) as i64;
    assert(database.events.contains_key((session_id, n)));
    assert(numbers.contains(n));
    let j = choose|j: int| 0 <= j < numbers.len() && numbers[j] == n;
    if j < i {
        lemma_number_at(database, session_id, after, numbers, j);
    }
}

/// The sequence numbers of a session past one of them are all the numbers up to its version.
proof fn lemma_numbers(
    database: Database,
    session_id: Seq<char>,
    after: i64,
    numbers: Seq<i64>,
)
    requires
        database.wf(),
        database.sessions.contains_key(session_id),
        0 <= after,
        database.numbers_after(session_id, after, numbers),
    ensures
        numbers == numbers_between(after, database.sessions[session_id].version),
{
    let last = database.sessions[session_id].version;
    assert forall|i: int| 0 <= i < numbers.len() implies numbers[i] == after + 1 + i by {
        lemma_number_at(database, session_id, after, numbers, i);
    }
    if numbers.len() > 0 {
        lemma_number_at(database, session_id, after, numbers, numbers.len() - 1);
    }
    if after < last {
        assert(database.events.contains_key((session_id, last)));
        assert(numbers.contains(last));
        let j = choose|j: int| 0 <= j < numbers.len() && numbers[j] == last;
    }
    assert(numbers =~= numbers_between(after, last));
}

/// Events are read in full and in order: the rows past a sequence number are those of the numbers
/// from the next one up to the session's version.
pub proof fn law_events_are_read_in_order(
    database: Database,
    session_id: Seq<char>,
    after: i64,
    rows: Seq<EventRowView>,
)
    requires
        database.wf(),
        database.sessions.contains_key(session_id),
        0 <= after,
        database.selects_events(StatementView::SelectEvents { session_id, after }, rows),
    ensures
        rows == database.event_rows(
            session_id,
            numbers_between(after, database.sessions[session_id].version),
        ),
{
    let numbers = choose|numbers: Seq<i64>|
        {
            &&& #[trigger] database.numbers_after(session_id, after, numbers)
            &&& rows == database.event_rows(session_id, numbers)
        };
    lemma_numbers(database, session_id, after, numbers);
}

proof fn lemma_events_in(
    session_id: Seq<char>,
    rows: Seq<EventRowView>,
    events: Seq<StoredEventView>,
)
    requires
        rows.len() == events.len(),
        forall|i: int|
            0 <= i < rows.len() ==> event_in(session_id, #[trigger] rows[i]) == Ok::<
                StoredEventView,
                StoreErrorView,
            >(events[i]),
    ensures
        events_in(session_id, rows) == Ok::<Seq<StoredEventView>, StoreErrorView>(events),
    decreases rows.len(),
{
    if rows.len() == 0 {
        assert(events =~= Seq::empty());
    } else {
        lemma_events_in(session_id, rows.drop_last(), events.drop_last());
        assert(events =~= events.drop_last().push(events.last()));
        assert(rows.last() == rows[rows.len() - 1]);
    }
}

proof fn lemma_events_out(
    session_id: Seq<char>,
    rows: Seq<EventRowView>,
    events: Seq<StoredEventView>,
)
    requires
        events_in(session_id, rows) == Ok::<Seq<StoredEventView>, StoreErrorView>(events),
    ensures
        rows.len() == events.len(),
        forall|i: int|
            0 <= i < rows.len() ==> event_in(session_id, #[trigger] rows[i]) == Ok::<
                StoredEventView,
                StoreErrorView,
            >(events[i]),
    decreases rows.len(),
{
    if rows.len() > 0 {
        let firsts = events_in(session_id, rows.drop_last())->Ok_0;
        assert(events.drop_last() =~= firsts);
        lemma_events_out(session_id, rows.drop_last(), firsts);
        assert forall|i: int| 0 <= i < rows.len() implies event_in(session_id, #[trigger] rows[i])
            == Ok::<StoredEventView, StoreErrorView>(events[i]) by {
            if i < rows.len() - 1 {
                assert(rows.drop_last()[i] == rows[i]);
            }
        }
    }
}

/// The events that come out of a read carry the numbers past `after` one by one, up to the
/// session's version, and belong to the session.
pub proof fn law_events_carry_their_numbers(
    database: Database,
    session_id: Seq<char>,
    after: i64,
    rows: Seq<EventRowView>,
    events: Seq<StoredEventView>,
)
    requires
        database.wf(),
        database.sessions.contains_key(session_id),
        0 <= after,
        database.selects_events(StatementView::SelectEvents { session_id, after }, rows),
        events_found(session_id, Ok(rows)) == Ok::<Seq<StoredEventView>, StoreErrorView>(events),
    ensures
        events.len() == numbers_between(after, database.sessions[session_id].version).len(),
        forall|i: int|
            0 <= i < events.len() ==> (#[trigger] events[i]).sequence == EventSequence(
                (after + 1 + i) as u64,
            ) && events[i].session_id == session_id,
{
    law_events_are_read_in_order(database, session_id, after, rows);
    lemma_events_out(session_id, rows, events);
    assert forall|i: int| 0 <= i < events.len() implies (#[trigger] events[i]).sequence
        == EventSequence((after + 1 + i) as u64) && events[i].session_id == session_id by {
        assert(event_in(session_id, rows[i]) == Ok::<StoredEventView, StoreErrorView>(events[i]));
        assert(rows[i].sequence == Ok::<i64, Seq<char>>((after + 1 + i) as i64));
    }
}

/// What is read of a session is what was read before, as long as nobody writes to it.
pub proof fn law_kept_events_are_read(
    earlier: Database,
    later: Database,
    session_id: Seq<char>,
    after: i64,
    rows: Seq<EventRowView>,
)
    requires
        earlier.keeps(later, session_id),
        later.selects_events(StatementView::SelectEvents { session_id, after }, rows),
    ensures
        earlier.selects_events(StatementView::SelectEvents { session_id, after }, rows),
{
    let numbers = choose|numbers: Seq<i64>|
        {
            &&& #[trigger] later.numbers_after(session_id, after, numbers)
            &&& rows == later.event_rows(session_id, numbers)
        };
    assert(earlier.numbers_after(session_id, after, numbers));
    assert forall|i: int| 0 <= i < numbers.len() implies earlier.event_row(session_id, numbers[i])
        == #[trigger] later.event_row(session_id, numbers[i]) by {
        assert(numbers.contains(numbers[i]));
        assert(earlier.events.contains_key((session_id, numbers[i])));
    }
    assert(rows =~= earlier.event_rows(session_id, numbers));
}

/// The events of a batch as they are read.
pub open spec fn stored_events(
    session_id: Seq<char>,
    expected: u64,
    events: Seq<NewEventView>,
    now: Timestamp,
) -> Seq<StoredEventView> {
    Seq::new(
        events.len(),
        |i: int|
            StoredEventView {
                session_id,
                sequence: EventSequence((expected + 1 + i) as u64),
                kind: events[i].kind,
                payload: events[i].payload,
                created_at: now,
            },
    )
}

/// What was appended is read back: reading past the expected version gives the events of the batch,
/// in their order, unchanged, numbered on from the expected version and with the time of the
/// append. The last of them has the number that the append returned.
///
/// [`crate::append::append_events`] ensures of its payloads, where they are nested no deeper than
/// the limit, and of its time in the years up to 9999, that they are read back from their texts.
pub proof fn law_append_is_read_back(
    database: Database,
    session_id: Seq<char>,
    expected: u64,
    events: Seq<NewEventView>,
    now: Timestamp,
    append: AppendEventsView,
    rows: Seq<EventRowView>,
)
    requires
        database.wf(),
        append_to_start(session_id, expected, events, now) == Ok::<
            AppendEventsView,
            StoreErrorView,
        >(append),
        is_current(database, append),
        now.survives(),
        forall|i: int| 0 <= i < events.len() ==> json_survives(#[trigger] events[i].payload),
        database_after(database, append).selects_events(
            StatementView::SelectEvents { session_id, after: expected as i64 },
            rows,
        ),
    ensures
        events_found(session_id, Ok(rows)) == Ok::<Seq<StoredEventView>, StoreErrorView>(
            stored_events(session_id, expected, events, now),
        ),
        stored_events(session_id, expected, events, now).last().sequence.0
            == append.new_version(),
        events_found(session_id, Ok(rows)) is Ok,
        events_found(session_id, Ok(rows))->Ok_0.len() == events.len(),
        forall|i: int|
            0 <= i < events.len() ==> {
                let event = #[trigger] events_found(session_id, Ok(rows))->Ok_0[i];
                &&& event.session_id == session_id
                &&& event.sequence.0 == expected + 1 + i
                &&& event.kind == events[i].kind
                &&& event.payload == events[i].payload
                &&& event.created_at == now
            },
{
    let after = database_after(database, append);
    crate::laws::append::law_append_keeps_wf(database, append);
    law_events_are_read_in_order(after, session_id, expected as i64, rows);
    let stored = stored_events(session_id, expected, events, now);
    assert forall|i: int| 0 <= i < rows.len() implies event_in(session_id, #[trigger] rows[i])
        == Ok::<StoredEventView, StoreErrorView>(stored[i]) by {
        let n = (expected + 1 + i) as i64;
        assert(rows[i] == after.event_row(session_id, n));
        assert(crate::laws::append::is_new_key(
            append,
            append.events.len() as int,
            (session_id, n),
        ));
        assert(json_survives(events[i].payload));
    }
    lemma_events_in(session_id, rows, stored);
}

/// An append adds to what is read: reading past a number gives after the append what it gave
/// before, and then the rows past the expected version.
pub proof fn law_append_extends_the_events(
    database: Database,
    append: AppendEventsView,
    after: i64,
    rows_before: Seq<EventRowView>,
    rows_added: Seq<EventRowView>,
    rows_after: Seq<EventRowView>,
)
    requires
        database.wf(),
        append.wf(),
        is_current(database, append),
        0 <= after <= append.expected,
        database.selects_events(
            StatementView::SelectEvents { session_id: append.session_id, after },
            rows_before,
        ),
        database_after(database, append).selects_events(
            StatementView::SelectEvents {
                session_id: append.session_id,
                after: append.expected as i64,
            },
            rows_added,
        ),
        database_after(database, append).selects_events(
            StatementView::SelectEvents { session_id: append.session_id, after },
            rows_after,
        ),
    ensures
        rows_after == rows_before + rows_added,
{
    let id = append.session_id;
    let later = database_after(database, append);
    crate::laws::append::law_append_keeps_wf(database, append);
    law_events_are_read_in_order(database, id, after, rows_before);
    law_events_are_read_in_order(later, id, append.expected as i64, rows_added);
    law_events_are_read_in_order(later, id, after, rows_after);
    assert forall|n: i64| 1 <= n <= append.expected implies #[trigger] later.event_row(id, n)
        == database.event_row(id, n) by {
        assert(database.events.contains_key((id, n)));
    }
    assert(rows_after =~= rows_before + rows_added);
}

/// Reading can be resumed: what is read past a number is what is read up to a later one, and then
/// what is read past that.
pub proof fn law_reading_can_be_resumed(
    database: Database,
    session_id: Seq<char>,
    after: i64,
    later: i64,
    rows: Seq<EventRowView>,
    later_rows: Seq<EventRowView>,
)
    requires
        database.wf(),
        database.sessions.contains_key(session_id),
        0 <= after <= later <= database.sessions[session_id].version,
        database.selects_events(StatementView::SelectEvents { session_id, after }, rows),
        database.selects_events(
            StatementView::SelectEvents { session_id, after: later },
            later_rows,
        ),
    ensures
        rows == rows.take(later - after) + later_rows,
{
    law_events_are_read_in_order(database, session_id, after, rows);
    law_events_are_read_in_order(database, session_id, later, later_rows);
    assert(rows =~= rows.take(later - after) + later_rows);
}

/// Reading the events of a missing session is refused as such, whatever number it starts from.
pub proof fn law_missing_sessions_are_reported(
    database: Database,
    session_id: Seq<char>,
    after: Option<EventSequence>,
)
    requires
        !database.sessions.contains_key(session_id),
    ensures
        events_listing(
            session_id,
            after,
            Ok(
                database.select_session_exists(
                    StatementView::SelectSessionExists { id: session_id },
                ),
            ),
        ) == Err::<StatementView, StoreErrorView>(StoreErrorView::NotFound(session_id)),
{
}

/// Events of a session are listed past the number that is asked for, that number and no other, and
/// without one past zero, as long as the number is one that SQLite can keep. A larger number is
/// refused.
pub proof fn law_present_sessions_are_listed(
    database: Database,
    session_id: Seq<char>,
    after: Option<EventSequence>,
    n: u64,
)
    requires
        database.sessions.contains_key(session_id),
        after == Some(EventSequence(n)) || (after is None && n == 0),
    ensures
        events_listing(
            session_id,
            after,
            Ok(
                database.select_session_exists(
                    StatementView::SelectSessionExists { id: session_id },
                ),
            ),
        ) == if n <= i64::MAX {
            Ok::<StatementView, StoreErrorView>(
                StatementView::SelectEvents { session_id, after: n as i64 },
            )
        } else {
            Err::<StatementView, StoreErrorView>(
                StoreErrorView::InvalidInput(
                    "event sequence"@ + " exceeds SQLite's integer range"@,
                ),
            )
        },
{
}

/// Every event that is read past a number has a greater number, and the first one has the next,
/// where there is one.
pub proof fn law_events_lie_past_the_number(
    database: Database,
    session_id: Seq<char>,
    after: Option<EventSequence>,
    n: u64,
    statement: StatementView,
    rows: Seq<EventRowView>,
    events: Seq<StoredEventView>,
)
    requires
        database.wf(),
        database.sessions.contains_key(session_id),
        after == Some(EventSequence(n)) || (after is None && n == 0),
        events_listing(session_id, after, Ok(true)) == Ok::<StatementView, StoreErrorView>(
            statement,
        ),
        database.selects_events(statement, rows),
        events_found(session_id, Ok(rows)) == Ok::<Seq<StoredEventView>, StoreErrorView>(events),
    ensures
        forall|i: int| 0 <= i < events.len() ==> (#[trigger] events[i]).sequence.0 > n,
        events.len() > 0 <==> database.sessions[session_id].version > n,
        events.len() > 0 ==> events[0].sequence.0 == n + 1 && events.last().sequence.0
            == database.sessions[session_id].version,
{
    law_events_carry_their_numbers(database, session_id, n as i64, rows, events);
}

} // verus!
