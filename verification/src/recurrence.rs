//! Repeat rules of tasks and events, and the date of their next occurrence.
//!
//! A repeating item keeps one pending date. When that date has passed, the
//! missed occurrences are dropped rather than piled up: the item moves to the
//! first date of its series that lies strictly after the present moment.

use vstd::prelude::*;
use crate::datetime::{
    add_days, add_one_month, chrono_add_one_month, is_after, plus_days, valid_datetime, DateTime,
    MAX_TIMESTAMP, NANOS_PER_SEC, SECS_PER_DAY,
};
use crate::text::str_eq;

verus! {

/// How an item repeats.
#[derive(Debug, Clone, Copy, PartialEq, Eq, Structural)]
pub enum Recurrence {
    Never,
    Daily,
    Weekly,
    Monthly,
}

/// The rule that a stored name stands for: `"daily"`, `"weekly"` and
/// `"monthly"` repeat; any other text means no repetition.
pub open spec fn recurrence_named(name: Seq<char>) -> Recurrence {
    if name == "daily"@ {
        Recurrence::Daily
    } else if name == "weekly"@ {
        Recurrence::Weekly
    } else if name == "monthly"@ {
        Recurrence::Monthly
    } else {
        Recurrence::Never
    }
}

impl Recurrence {
    /// Reads a stored rule name; unknown names mean no repetition.
    pub fn from_str(s: &str) -> (res: Self)
        ensures
            res == recurrence_named(s@),
    {
        if str_eq(s, "daily") {
            Recurrence::Daily
        } else if str_eq(s, "weekly") {
            Recurrence::Weekly
        } else if str_eq(s, "monthly") {
            Recurrence::Monthly
        } else {
            Recurrence::Never
        }
    }
}

/// One step along the series of `rule`: a day, a week (seven days), or a
/// calendar month. Where `chrono` cannot move a date by a month, the step is
/// thirty days.
pub open spec fn advance(rule: Recurrence, t: DateTime) -> DateTime {
    match rule {
        Recurrence::Daily => plus_days(t, 1),
        Recurrence::Weekly => plus_days(t, 7),
        Recurrence::Monthly => match chrono_add_one_month(t.secs, t.nanos) {
            Some(p) => DateTime { secs: p.0, nanos: p.1 },
            None => plus_days(t, 30),
        },
        Recurrence::Never => t,
    }
}

/// The `n`-th date of the series of `rule` that starts at `from`.
pub open spec fn occurrence(rule: Recurrence, from: DateTime, n: nat) -> DateTime
    decreases n,
{
    if n == 0 {
        from
    } else {
        advance(rule, occurrence(rule, from, (n - 1) as nat))
    }
}

/// `next` is the first date of the series from `from` that lies strictly
/// after `now`.
pub open spec fn is_next_occurrence(
    rule: Recurrence,
    from: DateTime,
    now: DateTime,
    next: DateTime,
) -> bool {
    exists|n: nat|
        #![trigger occurrence(rule, from, n)]
        occurrence(rule, from, n) == next && is_after(next, now) && forall|m: nat|
            m < n ==> !is_after(#[trigger] occurrence(rule, from, m), now)
}

/// The seconds that one step may add before the next date is checked: the
/// day, the week, or the thirty days that a monthly step falls back on.
pub open spec fn step_reach(rule: Recurrence) -> int {
    match rule {
        Recurrence::Daily => SECS_PER_DAY as int,
        Recurrence::Weekly => 7 * SECS_PER_DAY,
        Recurrence::Monthly => 30 * SECS_PER_DAY,
        Recurrence::Never => 0,
    }
}

/// The longest step of a series: a day, a week, or a month of 31 days.
pub open spec fn longest_step(rule: Recurrence) -> int {
    match rule {
        Recurrence::Daily => SECS_PER_DAY as int,
        Recurrence::Weekly => 7 * SECS_PER_DAY,
        Recurrence::Monthly => 31 * SECS_PER_DAY,
        Recurrence::Never => 0,
    }
}

/// Every date of the series that is not yet after `now` can be stepped from
/// without leaving `chrono`'s range. Outside this condition stepping past the
/// last representable date panics.
pub open spec fn steps_stay_in_range(rule: Recurrence, from: DateTime, now: DateTime) -> bool {
    forall|n: nat|
        !is_after(#[trigger] occurrence(rule, from, n), now) ==> occurrence(rule, from, n).secs
            + step_reach(rule) <= MAX_TIMESTAMP
}

/// `t` lies on a whole second: no fraction, though it may be a leap second.
pub open spec fn on_whole_second(t: DateTime) -> bool {
    t.nanos == 0 || t.nanos == NANOS_PER_SEC
}

/// One step along the series.
fn step(rule: Recurrence, t: DateTime) -> (res: DateTime)
    requires
        rule != Recurrence::Never,
        valid_datetime(t),
        t.secs + step_reach(rule) <= MAX_TIMESTAMP,
    ensures
        res == advance(rule, t),
        valid_datetime(res),
        res.secs - t.secs >= SECS_PER_DAY,
        res.secs - t.secs <= longest_step(rule),
        (res.secs - t.secs) % (SECS_PER_DAY as int) == 0,
        on_whole_second(t) ==> on_whole_second(res),
{
    match rule {
        Recurrence::Daily => {
            let r = add_days(t, 1);
            assert((r.secs - t.secs) % (SECS_PER_DAY as int) == 0) by {
                vstd::arithmetic::div_mod::lemma_mod_self_0(SECS_PER_DAY as int);
            }
            r
        },
        Recurrence::Weekly => {
            let r = add_days(t, 7);
            assert((r.secs - t.secs) % (SECS_PER_DAY as int) == 0) by {
                vstd::arithmetic::div_mod::lemma_mod_multiples_basic(7, SECS_PER_DAY as int);
            }
            r
        },
        _ => {
            match add_one_month(t) {
                Some(m) => m,
                None => {
                    let r = add_days(t, 30);
                    assert((r.secs - t.secs) % (SECS_PER_DAY as int) == 0) by {
                        vstd::arithmetic::div_mod::lemma_mod_multiples_basic(
                            30,
                            SECS_PER_DAY as int,
                        );
                    }
                    r
                },
            }
        },
    }
}

/// The next date of a repeating item: the first date of its series from
/// `from` that lies strictly after `now`. A date that is already in the
/// future is kept; missed dates are skipped. `None` for items that do not
/// repeat.
pub fn next_occurrence(from: DateTime, recurrence: &Recurrence, now: DateTime) -> (res: Option<DateTime>)
    requires
        valid_datetime(from),
        valid_datetime(now),
        *recurrence != Recurrence::Never ==> steps_stay_in_range(*recurrence, from, now),
    ensures
        *recurrence == Recurrence::Never ==> res is None,
        *recurrence != Recurrence::Never ==> (res matches Some(next) && is_next_occurrence(
            *recurrence,
            from,
            now,
            next,
        )),
        *recurrence != Recurrence::Never && is_after(from, now) ==> res == Some(from),
        res matches Some(next) ==> {
            &&& valid_datetime(next)
            &&& (next.secs - from.secs) % (SECS_PER_DAY as int) == 0
            &&& next == from || next.secs <= now.secs + longest_step(*recurrence)
            &&& on_whole_second(from) ==> on_whole_second(next)
        },
{
    let rule = *recurrence;
    if rule == Recurrence::Never {
        return None;
    }
    let mut next = from;
    let ghost mut n: nat = 0;
    while !next.later_than(&now)
        invariant
            rule != Recurrence::Never,
            valid_datetime(next),
            valid_datetime(now),
            next == occurrence(rule, from, n),
            forall|m: nat| m < n ==> !is_after(#[trigger] occurrence(rule, from, m), now),
            steps_stay_in_range(rule, from, now),
            (next.secs - from.secs) % (SECS_PER_DAY as int) == 0,
            next == from || next.secs <= now.secs + longest_step(rule),
            on_whole_second(from) ==> on_whole_second(next),
        decreases now.secs + longest_step(rule) - next.secs,
    {
        assert(!is_after(occurrence(rule, from, n), now));
        let prev = next;
        next = step(rule, next);
        proof {
            vstd::arithmetic::div_mod::lemma_add_mod_noop(
                prev.secs - from.secs,
                next.secs - prev.secs,
                SECS_PER_DAY as int,
            );
            assert forall|m: nat| m < n + 1 implies !is_after(
                #[trigger] occurrence(rule, from, m),
                now,
            ) by {
                if m < n {
                } else {
                    assert(m == n);
                }
            }
            n = n + 1;
            assert(occurrence(rule, from, n) == advance(rule, occurrence(rule, from, (n - 1) as nat)));
        }
    }
    assert(occurrence(rule, from, n) == next);
    Some(next)
}

/// Law: the next occurrence is a single date; two dates that both satisfy
/// the description are the same.
pub proof fn lemma_next_occurrence_unique(
    rule: Recurrence,
    from: DateTime,
    now: DateTime,
    a: DateTime,
    b: DateTime,
)
    requires
        is_next_occurrence(rule, from, now, a),
        is_next_occurrence(rule, from, now, b),
    ensures
        a == b,
{
    let i = choose|n: nat|
        #![trigger occurrence(rule, from, n)]
        occurrence(rule, from, n) == a && is_after(a, now) && forall|m: nat|
            m < n ==> !is_after(#[trigger] occurrence(rule, from, m), now);
    let j = choose|n: nat|
        #![trigger occurrence(rule, from, n)]
        occurrence(rule, from, n) == b && is_after(b, now) && forall|m: nat|
            m < n ==> !is_after(#[trigger] occurrence(rule, from, m), now);
    if i < j {
        assert(!is_after(occurrence(rule, from, i), now));
    } else if j < i {
        assert(!is_after(occurrence(rule, from, j), now));
    }
}

/// Law: rescheduling is stable. Starting the series again from a computed
/// next occurrence yields that same date.
pub proof fn lemma_next_occurrence_stable(
    rule: Recurrence,
    from: DateTime,
    now: DateTime,
    next: DateTime,
)
    requires
        is_next_occurrence(rule, from, now, next),
    ensures
        is_next_occurrence(rule, next, now, next),
{
    assert(occurrence(rule, next, 0) == next);
}

/// Law: daily and weekly series are evenly spaced; the `n`-th date lies
/// exactly `n` days (or weeks) after the first.
pub proof fn lemma_occurrence_spacing(rule: Recurrence, from: DateTime, n: nat)
    requires
        rule == Recurrence::Daily || rule == Recurrence::Weekly,
        valid_datetime(from),
        from.secs + n * longest_step(rule) <= MAX_TIMESTAMP,
    ensures
        occurrence(rule, from, n).secs == from.secs + n * longest_step(rule),
    decreases n,
{
    if n > 0 {
        let step_len = longest_step(rule);
        let k = (n - 1) as nat;
        assert(n * step_len == k * step_len + step_len) by (nonlinear_arith)
            requires n == k + 1;
        assert(k * step_len >= 0) by (nonlinear_arith)
            requires step_len >= 0;
        lemma_occurrence_spacing(rule, from, k);
        let prev = occurrence(rule, from, k);
        assert(occurrence(rule, from, n) == advance(rule, prev));
        assert(prev.secs + step_len <= MAX_TIMESTAMP);
        if rule == Recurrence::Daily {
            assert(advance(rule, prev).secs == prev.secs + SECS_PER_DAY);
        } else {
            assert(advance(rule, prev).secs == prev.secs + 7 * SECS_PER_DAY);
        }
    } else {
        assert(n * longest_step(rule) == 0) by (nonlinear_arith)
            requires n == 0;
    }
}

/// Law: a monthly step is a calendar month. From any date that `chrono` can
/// move by one month, at any time of day, the next date of a monthly series
/// is `chrono`'s `checked_add_months(1)` of it; thirty days are added only
/// where that move is impossible.
pub proof fn lemma_monthly_step_is_calendar_month(t: DateTime)
    ensures
        chrono_add_one_month(t.secs, t.nanos) matches Some(p) ==> advance(Recurrence::Monthly, t)
            == (DateTime { secs: p.0, nanos: p.1 }),
        chrono_add_one_month(t.secs, t.nanos) is None ==> advance(Recurrence::Monthly, t)
            == plus_days(t, 30),
{
}

/// Law: one missed date is replaced by the following one. When the pending
/// date `from` is not after `now` but the date one step later is, the next
/// occurrence is that date: a day, a week, or a calendar month (`chrono`'s
/// month step) after `from`.
pub proof fn lemma_next_after_one_missed(rule: Recurrence, from: DateTime, now: DateTime)
    requires
        rule != Recurrence::Never,
        !is_after(from, now),
        is_after(advance(rule, from), now),
    ensures
        is_next_occurrence(rule, from, now, advance(rule, from)),
        forall|next: DateTime| is_next_occurrence(rule, from, now, next) ==> next == advance(rule, from),
        rule == Recurrence::Daily ==> advance(rule, from) == plus_days(from, 1),
        rule == Recurrence::Weekly ==> advance(rule, from) == plus_days(from, 7),
        rule == Recurrence::Monthly ==> (chrono_add_one_month(from.secs, from.nanos) matches Some(p)
            ==> advance(rule, from) == (DateTime { secs: p.0, nanos: p.1 })),
{
    let n = advance(rule, from);
    assert(occurrence(rule, from, 1) == advance(rule, occurrence(rule, from, 0)));
    assert(occurrence(rule, from, 0) == from);
    assert forall|m: nat| m < 1 implies !is_after(#[trigger] occurrence(rule, from, m), now) by {
        assert(m == 0);
    }
    assert(is_next_occurrence(rule, from, now, n));
    assert forall|next: DateTime| is_next_occurrence(rule, from, now, next) implies next == n by {
        lemma_next_occurrence_unique(rule, from, now, next, n);
    }
}

/// Law: the stored rule names. `"daily"`, `"weekly"` and `"monthly"` name
/// the three repeating rules; `"none"` and every other text repeat nothing.
pub proof fn lemma_rule_names(name: Seq<char>)
    ensures
        recurrence_named("daily"@) == Recurrence::Daily,
        recurrence_named("weekly"@) == Recurrence::Weekly,
        recurrence_named("monthly"@) == Recurrence::Monthly,
        recurrence_named("none"@) == Recurrence::Never,
        name != "daily"@ && name != "weekly"@ && name != "monthly"@ ==> recurrence_named(name)
            == Recurrence::Never,
{
    reveal_strlit("daily");
    reveal_strlit("weekly");
    reveal_strlit("monthly");
    reveal_strlit("none");
    assert("weekly"@.len() != "daily"@.len());
    assert("monthly"@.len() != "daily"@.len() && "monthly"@.len() != "weekly"@.len());
    assert("none"@.len() != "daily"@.len() && "none"@.len() != "weekly"@.len());
    assert("none"@[0] != "monthly"@[0]);
}

} // verus!
