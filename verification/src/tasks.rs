//! Tasks and calendar events, and how their repeat dates are brought up to
//! date when they are listed.
//!
//! A listed repeating item whose pending date has passed gets a new pending
//! date: the first date of its series after the present moment, written back
//! as `YYYY-MM-DD HH:MM:SS`. Finished tasks and items that do not repeat are
//! left as they are.

use vstd::prelude::*;
use crate::datetime::{
    chrono_format_datetime, chrono_parse_datetime, format_datetime, is_after, parse_datetime,
    valid_datetime, DateTime, MAX_TIMESTAMP,
};
use crate::recurrence::{
    is_next_occurrence, lemma_next_occurrence_unique, next_occurrence, occurrence,
    recurrence_named, step_reach, steps_stay_in_range, Recurrence,
};
use crate::text::str_eq;

verus! {

/// A task.
pub struct Todo {
    pub id: i64,
    pub title: String,
    pub note: String,
    pub done: bool,
    pub due_date: Option<String>,
    pub recurrence: String,
    pub recurrence_next: Option<String>,
    pub project_id: Option<i64>,
    pub category: String,
    pub priority: i64,
    pub created_at: String,
}

/// A calendar event.
pub struct Event {
    pub id: i64,
    pub title: String,
    pub start_at: String,
    pub end_at: Option<String>,
    pub recurrence: String,
    pub recurrence_next: Option<String>,
    pub todo_id: Option<i64>,
    pub category: String,
    pub created_at: String,
}

impl Todo {
    /// A task from a row of the task list; the done column is an integer flag.
    pub fn from_row(
        id: i64,
        title: String,
        note: String,
        done: i64,
        due_date: Option<String>,
        recurrence: String,
        recurrence_next: Option<String>,
        project_id: Option<i64>,
        category: String,
        priority: i64,
        created_at: String,
    ) -> (res: Todo)
        ensures
            res == (Todo {
                id,
                title,
                note,
                done: done != 0,
                due_date,
                recurrence,
                recurrence_next,
                project_id,
                category,
                priority,
                created_at,
            }),
    {
        Todo {
            id,
            title,
            note,
            done: done != 0,
            due_date,
            recurrence,
            recurrence_next,
            project_id,
            category,
            priority,
            created_at,
        }
    }
}

/// A new pending date to write back for the item with this id.
pub struct RecurrenceUpdate {
    pub id: i64,
    pub next: String,
}

/// The view of an optional string.
pub open spec fn opt_text(s: Option<String>) -> Option<Seq<char>> {
    match s {
        Some(t) => Some(t@),
        None => None,
    }
}

/// The present moment leaves room for one step of the rule named
/// `recurrence` (a day, a week, or the thirty days that a monthly step may
/// fall back on) before the last date `chrono` can represent, so that no step
/// from a date that is not after it overflows.
pub open spec fn room_for_step(recurrence: Seq<char>, now: DateTime) -> bool {
    valid_datetime(now) && now.secs + step_reach(recurrence_named(recurrence)) <= MAX_TIMESTAMP
}

/// The present moment leaves room for the steps that listing the task may
/// take; a finished task takes none.
pub open spec fn todo_room(t: Todo, now: DateTime) -> bool {
    valid_datetime(now) && (!t.done ==> room_for_step(t.recurrence@, now))
}

/// The present moment leaves room for the steps that listing the event may
/// take.
pub open spec fn event_room(e: Event, now: DateTime) -> bool {
    room_for_step(e.recurrence@, now)
}

/// The new pending date, as text, of an item that repeats by the rule named
/// `recurrence` and whose pending date reads `pending`; `None` when nothing
/// changes. Nothing changes when there is no readable pending date, when it
/// is not yet past, or when the rule does not repeat.
pub open spec fn rescheduled(recurrence: Seq<char>, pending: Option<Seq<char>>, now: DateTime) -> Option<Seq<char>> {
    match pending {
        None => None,
        Some(text) => match chrono_parse_datetime(text) {
            None => None,
            Some(p) => {
                let from = DateTime { secs: p.0, nanos: p.1 };
                let rule = recurrence_named(recurrence);
                if is_after(now, from) && rule != Recurrence::Never {
                    let next = choose|next: DateTime| is_next_occurrence(rule, from, now, next);
                    Some(chrono_format_datetime(next.secs, next.nanos))
                } else {
                    None
                }
            },
        },
    }
}

/// The text reads (with `chrono`) as a date strictly after `now`.
pub open spec fn reads_after(s: Seq<char>, now: DateTime) -> bool {
    chrono_parse_datetime(s) matches Some(p) && is_after(DateTime { secs: p.0, nanos: p.1 }, now)
}

/// Works out the new pending date of one item from its rule name and its
/// pending date text.
fn reschedule(recurrence: &str, pending: Option<&str>, now: DateTime) -> (res: Option<String>)
    requires
        room_for_step(recurrence@, now),
    ensures
        opt_text(res) == rescheduled(
            recurrence@,
            match pending {
                Some(t) => Some(t@),
                None => None,
            },
            now,
        ),
        res matches Some(s) ==> rescheduled(recurrence@, Some(s@), now) is None,
        res matches Some(s) ==> reads_after(s@, now),
{
    let text = match pending {
        Some(t) => t,
        None => return None,
    };
    let from = match parse_datetime(text) {
        Some(f) => f,
        None => return None,
    };
    proof {
        let p = chrono_parse_datetime(text@)->0;
        assert(from == (DateTime { secs: p.0, nanos: p.1 }));
    }
    if !now.later_than(&from) {
        return None;
    }
    let rule = Recurrence::from_str(recurrence);
    if rule == Recurrence::Never {
        return None;
    }
    assert(steps_stay_in_range(rule, from, now)) by {
        assert forall|n: nat| !is_after(#[trigger] occurrence(rule, from, n), now) implies occurrence(rule, from, n).secs
            + step_reach(rule) <= MAX_TIMESTAMP by {
        }
    }
    match next_occurrence(from, &rule, now) {
        Some(next) => {
            proof {
                let chosen = choose|n: DateTime| is_next_occurrence(rule, from, now, n);
                lemma_next_occurrence_unique(rule, from, now, next, chosen);
            }
            let text = format_datetime(next);
            proof {
                assert(is_after(next, now));
                assert(chrono_parse_datetime(text@) == Some((next.secs, next.nanos)));
            }
            Some(text)
        },
        None => None,
    }
}

/// The pending date of a task: its stored next date, else its due date.
pub open spec fn todo_pending(t: Todo) -> Option<Seq<char>> {
    match t.recurrence_next {
        Some(s) => Some(s@),
        None => opt_text(t.due_date),
    }
}

/// The pending date of an event: its stored next date, else its start.
pub open spec fn event_pending(e: Event) -> Option<Seq<char>> {
    match e.recurrence_next {
        Some(s) => Some(s@),
        None => Some(e.start_at@),
    }
}

/// The new pending date of a task, if listing it changes one: unfinished
/// tasks whose rule is not `"none"` are rescheduled.
pub open spec fn todo_update(t: Todo, now: DateTime) -> Option<Seq<char>> {
    if t.done || t.recurrence@ == "none"@ {
        None
    } else {
        rescheduled(t.recurrence@, todo_pending(t), now)
    }
}

/// The new pending date of an event, if listing it changes one: events whose
/// rule is not `"none"` are rescheduled.
pub open spec fn event_update(e: Event, now: DateTime) -> Option<Seq<char>> {
    if e.recurrence@ == "none"@ {
        None
    } else {
        rescheduled(e.recurrence@, event_pending(e), now)
    }
}

/// Brings the pending date of one task up to date; returns the task and, when
/// its date changed, the new date text.
pub fn refresh_todo(todo: Todo, now: DateTime) -> (res: (Todo, Option<String>))
    requires
        todo_room(todo, now),
    ensures
        opt_text(res.1) == todo_update(todo, now),
        res.1 is None ==> res.0 == todo,
        res.1 matches Some(s) ==> res.0 == (Todo { recurrence_next: Some(s), ..todo }),
        res.1 matches Some(s) ==> reads_after(s@, now),
        todo_update(res.0, now) is None,
{
    if todo.done || str_eq(todo.recurrence.as_str(), "none") {
        return (todo, None);
    }
    let pending: Option<&str> = match &todo.recurrence_next {
        Some(s) => Some(s.as_str()),
        None => match &todo.due_date {
            Some(d) => Some(d.as_str()),
            None => None,
        },
    };
    let update = reschedule(todo.recurrence.as_str(), pending, now);
    match update {
        Some(s) => {
            let next_copy = copy_string(&s);
            let mut t = todo;
            t.recurrence_next = Some(next_copy);
            (t, Some(s))
        },
        None => (todo, None),
    }
}

/// Brings the pending date of one event up to date; returns the event and,
/// when its date changed, the new date text.
pub fn refresh_event(event: Event, now: DateTime) -> (res: (Event, Option<String>))
    requires
        event_room(event, now),
    ensures
        opt_text(res.1) == event_update(event, now),
        res.1 is None ==> res.0 == event,
        res.1 matches Some(s) ==> res.0 == (Event { recurrence_next: Some(s), ..event }),
        res.1 matches Some(s) ==> reads_after(s@, now),
        event_update(res.0, now) is None,
{
    if str_eq(event.recurrence.as_str(), "none") {
        return (event, None);
    }
    let pending: Option<&str> = match &event.recurrence_next {
        Some(s) => Some(s.as_str()),
        None => Some(event.start_at.as_str()),
    };
    let update = reschedule(event.recurrence.as_str(), pending, now);
    match update {
        Some(s) => {
            let next_copy = copy_string(&s);
            let mut e = event;
            e.recurrence_next = Some(next_copy);
            (e, Some(s))
        },
        None => (event, None),
    }
}

/// The write-backs that listing `items` produces, in list order.
pub open spec fn todo_updates(items: Seq<Todo>, now: DateTime) -> Seq<(i64, Seq<char>)>
    decreases items.len(),
{
    if items.len() == 0 {
        Seq::empty()
    } else {
        let rest = todo_updates(items.drop_last(), now);
        match todo_update(items.last(), now) {
            Some(s) => rest.push((items.last().id, s)),
            None => rest,
        }
    }
}

/// The write-backs that listing `items` produces, in list order.
pub open spec fn event_updates(items: Seq<Event>, now: DateTime) -> Seq<(i64, Seq<char>)>
    decreases items.len(),
{
    if items.len() == 0 {
        Seq::empty()
    } else {
        let rest = event_updates(items.drop_last(), now);
        match event_update(items.last(), now) {
            Some(s) => rest.push((items.last().id, s)),
            None => rest,
        }
    }
}

/// The view of a list of write-backs.
pub open spec fn update_views(us: Seq<RecurrenceUpdate>) -> Seq<(i64, Seq<char>)> {
    us.map_values(|u: RecurrenceUpdate| (u.id, u.next@))
}

/// Brings the pending dates of listed tasks up to date (the listing step of
/// the task screen). Returns the tasks, changed where their date moved, and
/// the new dates to write back to the store.
pub fn refresh_todos(todos: Vec<Todo>, now: DateTime) -> (res: (Vec<Todo>, Vec<RecurrenceUpdate>))
    requires
        forall|i: int| 0 <= i < todos@.len() ==> todo_room(#[trigger] todos@[i], now),
    ensures
        res.0@.len() == todos@.len(),
        forall|i: int|
            0 <= i < todos@.len() ==> {
                let before = #[trigger] todos@[i];
                let after = res.0@[i];
                match todo_update(before, now) {
                    None => after == before,
                    Some(s) => after.recurrence_next.is_some() && opt_text(after.recurrence_next)
                        == Some(s) && after == (Todo { recurrence_next: after.recurrence_next, ..before })
                        && reads_after(s, now),
                }
            },
        update_views(res.1@) == todo_updates(todos@, now),
        forall|i: int| 0 <= i < res.0@.len() ==> todo_update(#[trigger] res.0@[i], now) is None,
        todos_refreshed(todos@, now, res.0@, update_views(res.1@)),
{
    let ghost input = todos@;
    let mut out: Vec<Todo> = Vec::new();
    let mut updates: Vec<RecurrenceUpdate> = Vec::new();
    for t in it: todos
        invariant
            input == it.seq(),
            out@.len() == it.index(),
            forall|i: int| 0 <= i < input.len() ==> todo_room(#[trigger] input[i], now),
            forall|i: int|
                0 <= i < it.index() ==> {
                    let before = #[trigger] input[i];
                    let after = out@[i];
                    match todo_update(before, now) {
                        None => after == before,
                        Some(s) => after.recurrence_next.is_some() && opt_text(after.recurrence_next)
                            == Some(s) && after == (Todo { recurrence_next: after.recurrence_next, ..before })
                        && reads_after(s, now),
                    }
                },
            update_views(updates@) == todo_updates(input.take(it.index() as int), now),
            forall|i: int| 0 <= i < out@.len() ==> todo_update(#[trigger] out@[i], now) is None,
    {
        let ghost k = it.index();
        let ghost before = t;
        let id = t.id;
        let (after, update) = refresh_todo(t, now);
        out.push(after);
        match update {
            Some(s) => {
                updates.push(RecurrenceUpdate { id, next: s });
            },
            None => {},
        }
        proof {
            assert(input.take(k + 1).drop_last() == input.take(k as int));
            assert(input.take(k + 1).last() == before);
            assert(update_views(updates@) == todo_updates(input.take(k + 1), now));
        }
    }
    proof {
        assert(input.take(input.len() as int) == input);
    }
    (out, updates)
}

/// Brings the pending dates of listed events up to date (the listing step
/// of the calendar). Returns the events, changed where their date moved, and
/// the new dates to write back to the store.
pub fn refresh_events(events: Vec<Event>, now: DateTime) -> (res: (Vec<Event>, Vec<RecurrenceUpdate>))
    requires
        forall|i: int| 0 <= i < events@.len() ==> event_room(#[trigger] events@[i], now),
    ensures
        res.0@.len() == events@.len(),
        forall|i: int|
            0 <= i < events@.len() ==> {
                let before = #[trigger] events@[i];
                let after = res.0@[i];
                match event_update(before, now) {
                    None => after == before,
                    Some(s) => after.recurrence_next.is_some() && opt_text(after.recurrence_next)
                        == Some(s) && after == (Event { recurrence_next: after.recurrence_next, ..before })
                        && reads_after(s, now),
                }
            },
        update_views(res.1@) == event_updates(events@, now),
        forall|i: int| 0 <= i < res.0@.len() ==> event_update(#[trigger] res.0@[i], now) is None,
        events_refreshed(events@, now, res.0@, update_views(res.1@)),
{
    let ghost input = events@;
    let mut out: Vec<Event> = Vec::new();
    let mut updates: Vec<RecurrenceUpdate> = Vec::new();
    for t in it: events
        invariant
            input == it.seq(),
            out@.len() == it.index(),
            forall|i: int| 0 <= i < input.len() ==> event_room(#[trigger] input[i], now),
            forall|i: int|
                0 <= i < it.index() ==> {
                    let before = #[trigger] input[i];
                    let after = out@[i];
                    match event_update(before, now) {
                        None => after == before,
                        Some(s) => after.recurrence_next.is_some() && opt_text(after.recurrence_next)
                            == Some(s) && after == (Event { recurrence_next: after.recurrence_next, ..before })
                        && reads_after(s, now),
                    }
                },
            update_views(updates@) == event_updates(input.take(it.index() as int), now),
            forall|i: int| 0 <= i < out@.len() ==> event_update(#[trigger] out@[i], now) is None,
    {
        let ghost k = it.index();
        let ghost before = t;
        let id = t.id;
        let (after, update) = refresh_event(t, now);
        out.push(after);
        match update {
            Some(s) => {
                updates.push(RecurrenceUpdate { id, next: s });
            },
            None => {},
        }
        proof {
            assert(input.take(k + 1).drop_last() == input.take(k as int));
            assert(input.take(k + 1).last() == before);
            assert(update_views(updates@) == event_updates(input.take(k + 1), now));
        }
    }
    proof {
        assert(input.take(input.len() as int) == input);
    }
    (out, updates)
}

/// Law: every past pending date is moved. An unfinished task that repeats,
/// whose pending date reads as a date strictly before `now` (by any amount,
/// however small), gets a new pending date when it is listed.
pub proof fn lemma_past_todo_is_rescheduled(t: Todo, now: DateTime, p: (i64, u32))
    requires
        !t.done,
        recurrence_named(t.recurrence@) != Recurrence::Never,
        todo_pending(t) matches Some(text) && chrono_parse_datetime(text) == Some(p),
        is_after(now, DateTime { secs: p.0, nanos: p.1 }),
    ensures
        todo_update(t, now) is Some,
{
    reveal_strlit("none");
    reveal_strlit("daily");
    reveal_strlit("weekly");
    reveal_strlit("monthly");
    assert("none"@.len() == 4 && "daily"@.len() == 5 && "weekly"@.len() == 6);
    assert("none"@[0] != "monthly"@[0]);
    assert(recurrence_named("none"@) == Recurrence::Never);
    assert(t.recurrence@ != "none"@);
}

/// Law: every past pending date is moved. An event that repeats, whose
/// pending date reads as a date strictly before `now` (by any amount, however
/// small), gets a new pending date when it is listed.
pub proof fn lemma_past_event_is_rescheduled(e: Event, now: DateTime, p: (i64, u32))
    requires
        recurrence_named(e.recurrence@) != Recurrence::Never,
        event_pending(e) matches Some(text) && chrono_parse_datetime(text) == Some(p),
        is_after(now, DateTime { secs: p.0, nanos: p.1 }),
    ensures
        event_update(e, now) is Some,
{
    reveal_strlit("none");
    reveal_strlit("daily");
    reveal_strlit("weekly");
    reveal_strlit("monthly");
    assert("none"@.len() == 4 && "daily"@.len() == 5 && "weekly"@.len() == 6);
    assert("none"@[0] != "monthly"@[0]);
    assert(recurrence_named("none"@) == Recurrence::Never);
    assert(e.recurrence@ != "none"@);
}

/// Law: a pending date that is not yet past is kept: listing moves nothing
/// whose pending date reads as `now` or later.
pub proof fn lemma_future_todo_is_kept(t: Todo, now: DateTime, p: (i64, u32))
    requires
        todo_pending(t) matches Some(text) && chrono_parse_datetime(text) == Some(p),
        !is_after(now, DateTime { secs: p.0, nanos: p.1 }),
    ensures
        todo_update(t, now) is None,
{
}

/// Law: listing is stable. Tasks that a listing at `now` returned (each of
/// which that listing leaves without an update) are, when listed again at the
/// same moment, all kept as they are, and nothing is written back.
pub proof fn lemma_todo_listing_stable(items: Seq<Todo>, now: DateTime)
    requires
        forall|i: int| 0 <= i < items.len() ==> todo_update(#[trigger] items[i], now) is None,
    ensures
        todo_updates(items, now) == Seq::<(i64, Seq<char>)>::empty(),
    decreases items.len(),
{
    if items.len() > 0 {
        let rest = items.drop_last();
        assert forall|i: int| 0 <= i < rest.len() implies todo_update(#[trigger] rest[i], now) is None by {
            assert(rest[i] == items[i]);
        }
        lemma_todo_listing_stable(rest, now);
        assert(todo_update(items[items.len() - 1], now) is None);
    }
}

/// Law: listing is stable. Events that a listing at `now` returned are, when
/// listed again at the same moment, all kept as they are, and nothing is
/// written back.
pub proof fn lemma_event_listing_stable(items: Seq<Event>, now: DateTime)
    requires
        forall|i: int| 0 <= i < items.len() ==> event_update(#[trigger] items[i], now) is None,
    ensures
        event_updates(items, now) == Seq::<(i64, Seq<char>)>::empty(),
    decreases items.len(),
{
    if items.len() > 0 {
        let rest = items.drop_last();
        assert forall|i: int| 0 <= i < rest.len() implies event_update(#[trigger] rest[i], now) is None by {
            assert(rest[i] == items[i]);
        }
        lemma_event_listing_stable(rest, now);
        assert(event_update(items[items.len() - 1], now) is None);
    }
}

/// `after` and the write-backs `writes` are what listing `before` at `now`
/// gives: each item kept, or moved to a new pending date that reads after
/// `now`; none left to move; one write-back per moved item, in order.
pub open spec fn todos_refreshed(
    before: Seq<Todo>,
    now: DateTime,
    after: Seq<Todo>,
    writes: Seq<(i64, Seq<char>)>,
) -> bool {
    &&& after.len() == before.len()
    &&& forall|i: int|
        0 <= i < before.len() ==> match todo_update(#[trigger] before[i], now) {
            None => after[i] == before[i],
            Some(s) => after[i].recurrence_next.is_some() && opt_text(after[i].recurrence_next)
                == Some(s) && after[i] == (Todo { recurrence_next: after[i].recurrence_next, ..before[i] })
                && reads_after(s, now),
        }
    &&& forall|i: int| 0 <= i < after.len() ==> todo_update(#[trigger] after[i], now) is None
    &&& writes == todo_updates(before, now)
}

/// Law: listing again changes nothing. Listing at `now` what a listing at
/// `now` returned gives the same items back and writes nothing.
pub proof fn lemma_todo_relisting_changes_nothing(
    first: Seq<Todo>,
    now: DateTime,
    listed: Seq<Todo>,
    writes: Seq<(i64, Seq<char>)>,
    relisted: Seq<Todo>,
    rewrites: Seq<(i64, Seq<char>)>,
)
    requires
        todos_refreshed(first, now, listed, writes),
        todos_refreshed(listed, now, relisted, rewrites),
    ensures
        relisted == listed,
        rewrites == Seq::<(i64, Seq<char>)>::empty(),
{
    lemma_todo_listing_stable(listed, now);
    assert forall|i: int| 0 <= i < listed.len() implies relisted[i] == listed[i] by {
        assert(todo_update(listed[i], now) is None);
    }
    assert(relisted =~= listed);
}

/// `after` and the write-backs `writes` are what listing `before` at `now`
/// gives: each item kept, or moved to a new pending date that reads after
/// `now`; none left to move; one write-back per moved item, in order.
pub open spec fn events_refreshed(
    before: Seq<Event>,
    now: DateTime,
    after: Seq<Event>,
    writes: Seq<(i64, Seq<char>)>,
) -> bool {
    &&& after.len() == before.len()
    &&& forall|i: int|
        0 <= i < before.len() ==> match event_update(#[trigger] before[i], now) {
            None => after[i] == before[i],
            Some(s) => after[i].recurrence_next.is_some() && opt_text(after[i].recurrence_next)
                == Some(s) && after[i] == (Event { recurrence_next: after[i].recurrence_next, ..before[i] })
                && reads_after(s, now),
        }
    &&& forall|i: int| 0 <= i < after.len() ==> event_update(#[trigger] after[i], now) is None
    &&& writes == event_updates(before, now)
}

/// Law: listing again changes nothing. Listing at `now` what a listing at
/// `now` returned gives the same items back and writes nothing.
pub proof fn lemma_event_relisting_changes_nothing(
    first: Seq<Event>,
    now: DateTime,
    listed: Seq<Event>,
    writes: Seq<(i64, Seq<char>)>,
    relisted: Seq<Event>,
    rewrites: Seq<(i64, Seq<char>)>,
)
    requires
        events_refreshed(first, now, listed, writes),
        events_refreshed(listed, now, relisted, rewrites),
    ensures
        relisted == listed,
        rewrites == Seq::<(i64, Seq<char>)>::empty(),
{
    lemma_event_listing_stable(listed, now);
    assert forall|i: int| 0 <= i < listed.len() implies relisted[i] == listed[i] by {
        assert(event_update(listed[i], now) is None);
    }
    assert(relisted =~= listed);
}

/// A copy of a string.
fn copy_string(s: &String) -> (res: String)
    ensures
        res == *s,
{
    s.clone()
}

} // verus!
