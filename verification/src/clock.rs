//! Wall-clock instants for the scheduler, modelled as a day number in the
//! proleptic Gregorian calendar together with a second-of-day. The scheduler
//! only ever compares instants and moves a target one day forward, so this
//! pair is the whole model; reading the actual clock is a trusted call into
//! chrono at the bottom of this file.

use vstd::prelude::*;

verus! {

/// Seconds in one day.
pub const DAY_SECONDS: u32 = 86400;

/// Largest day number the clock source can report (`i32::MAX`); a scheduled
/// target never lies more than one day past a reported instant.
pub const MAX_CLOCK_DAYS: i64 = 2147483647;

/// One wall-clock instant: `days` counts days in the proleptic Gregorian
/// calendar (January 1 of year 1 is day 1) and `secs` is the second of that
/// day, always below `DAY_SECONDS`.
#[derive(Clone, Copy, Debug, PartialEq, Eq, Structural)]
pub struct Timestamp {
    pub days: i64,
    pub secs: u32,
}

impl Timestamp {
    /// A meaningful instant keeps its second-of-day inside one day.
    pub open spec fn wf(self) -> bool {
        self.secs < DAY_SECONDS
    }

    /// The instant as one signed count of seconds, for stating order.
    pub open spec fn as_seconds(self) -> int {
        self.days * (DAY_SECONDS as int) + self.secs
    }

    /// `self` is no later than `other`.
    pub open spec fn le(self, other: Timestamp) -> bool {
        self.as_seconds() <= other.as_seconds()
    }

    /// An instant the clock source itself can report.
    pub open spec fn in_clock_range(self) -> bool {
        -MAX_CLOCK_DAYS - 1 <= self.days <= MAX_CLOCK_DAYS
    }

    /// A scheduled target: at most one day past anything the clock reports.
    pub open spec fn in_target_range(self) -> bool {
        -MAX_CLOCK_DAYS - 1 <= self.days <= MAX_CLOCK_DAYS + 1
    }

    /// The same second of day, one day later.
    pub open spec fn next_day(self) -> Timestamp {
        Timestamp { days: (self.days + 1) as i64, secs: self.secs }
    }
}

/// With both seconds-of-day inside one day, the order of instants is the
/// lexicographic order of (day, second).
pub proof fn lemma_order_is_lexicographic(a: Timestamp, b: Timestamp)
    requires
        a.wf(),
        b.wf(),
    ensures
        a.le(b) <==> (a.days < b.days || (a.days == b.days && a.secs <= b.secs)),
{
    if a.days < b.days {
        assert(a.days * (DAY_SECONDS as int) + (DAY_SECONDS as int) <= b.days * (
        DAY_SECONDS as int)) by (nonlinear_arith)
            requires
                a.days + 1 <= b.days,
        ;
    }
    if b.days < a.days {
        assert(b.days * (DAY_SECONDS as int) + (DAY_SECONDS as int) <= a.days * (
        DAY_SECONDS as int)) by (nonlinear_arith)
            requires
                b.days + 1 <= a.days,
        ;
    }
}

/// Decide whether `target` is due at `now`: due means `target <= now`,
/// so equality counts as due, never skipped.
pub fn is_due(now: Timestamp, target: Timestamp) -> (r: bool)
    requires
        now.wf(),
        target.wf(),
    ensures
        r == target.le(now),
{
    proof {
        lemma_order_is_lexicographic(target, now);
    }
    target.days < now.days || (target.days == now.days && target.secs <= now.secs)
}

/// The next instant with second-of-day `target_secs` strictly after `now`:
/// still today if the target second is ahead, else the same second tomorrow.
pub open spec fn next_occurrence(now: Timestamp, target_secs: u32) -> Timestamp {
    if target_secs > now.secs {
        Timestamp { days: now.days, secs: target_secs }
    } else {
        Timestamp { days: (now.days + 1) as i64, secs: target_secs }
    }
}

/// Compute the next occurrence of a daily target strictly after `now`. The
/// result is the earliest such instant: after `now`, within one day of it.
pub fn compute_next_occurrence(now: Timestamp, target_secs: u32) -> (r: Timestamp)
    requires
        now.wf(),
        now.in_clock_range(),
        target_secs < DAY_SECONDS,
    ensures
        r == next_occurrence(now, target_secs),
        r.wf(),
        r.in_target_range(),
        now.as_seconds() < r.as_seconds() <= now.as_seconds() + DAY_SECONDS,
{
    if target_secs > now.secs {
        Timestamp { days: now.days, secs: target_secs }
    } else {
        Timestamp { days: now.days + 1, secs: target_secs }
    }
}

/// Split a duration in seconds into whole hours, leftover minutes and
/// leftover seconds, for countdown display: the three parts always add back
/// up to the duration.
pub fn split_hms(total: u64) -> (r: (u64, u64, u64))
    ensures
        r.0 * 3600 + r.1 * 60 + r.2 == total,
        r.1 < 60,
        r.2 < 60,
        r.0 == total as int / 3600,
{
    let h = total / 3600;
    let rem = total % 3600;
    let m = rem / 60;
    let s = rem % 60;
    (h, m, s)
}

/// Seconds from `now` until `target`, floored at zero once the target has
/// passed, for countdown display.
pub fn seconds_until(now: Timestamp, target: Timestamp) -> (r: u64)
    requires
        now.wf(),
        target.wf(),
        now.in_clock_range(),
        target.in_target_range(),
    ensures
        r == vstd::math::max(target.as_seconds() - now.as_seconds(), 0),
{
    let day_diff: i64 = target.days - now.days;
    proof {
        assert(-5000000000 <= day_diff <= 5000000000);
        assert((-5000000000) * (DAY_SECONDS as int) <= day_diff * (DAY_SECONDS as int)
            <= 5000000000 * (DAY_SECONDS as int)) by (nonlinear_arith)
            requires
                -5000000000 <= day_diff <= 5000000000,
        ;
    }
    let diff: i64 = day_diff * (DAY_SECONDS as i64) + (target.secs as i64) - (now.secs as i64);
    if diff > 0 {
        diff as u64
    } else {
        0
    }
}

/// Read the wall clock as a `Timestamp`.
///
/// Relies on chrono: `Local::now` for the local wall-clock time,
/// `Datelike::num_days_from_ce` (days in the proleptic Gregorian calendar,
/// an `i32`) and `Timelike::num_seconds_from_midnight` (non-leap seconds past
/// midnight, always in 0..86400).
#[verifier::external_body]
pub(crate) fn now_stamp() -> (r: Timestamp)
    ensures
        r.wf(),
        r.in_clock_range(),
{
    let now = chrono::Local::now().naive_local();
    Timestamp {
        days: chrono::Datelike::num_days_from_ce(&now) as i64,
        secs: chrono::Timelike::num_seconds_from_midnight(&now),
    }
}

/// The current local date and time as display text.
///
/// Relies on chrono: `Local::now` and `NaiveDateTime::format` with a
/// fixed date-and-time pattern; nothing is assumed of the text.
#[verifier::external_body]
pub(crate) fn now_display_text() -> (r: String)
{
    chrono::Local::now().naive_local().format("%Y-%m-%d %H:%M:%S").to_string()
}

/// The current local time of day as `HH:MM:SS`.
///
/// Relies on chrono: `Local::now` and `NaiveDateTime::format` with the
/// `%H:%M:%S` pattern, each field zero-padded to two digits, so the text
/// is always eight characters.
#[verifier::external_body]
pub(crate) fn now_clock_text() -> (r: String)
    ensures
        r@.len() == 8,
{
    chrono::Local::now().naive_local().format("%H:%M:%S").to_string()
}

} // verus!
