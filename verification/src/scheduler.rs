//! The time of the next scheduled daily download: 13:15:00 UTC.

use vstd::prelude::*;

use crate::date::{lemma_next_day_is_successor, next_day, Date};

verus! {

/// 13:15:00 as seconds since midnight.
pub const RUN_SECOND_OF_DAY: u32 = 47700;

/// A UTC instant: a date, the seconds since its midnight, and the
/// nanoseconds within the second (up to two seconds' worth, as chrono allows
/// for a leap second).
#[derive(Clone, Copy, Debug, PartialEq, Eq, Structural)]
pub struct UtcDateTime {
    pub date: Date,
    pub second_of_day: u32,
    pub nanosecond: u32,
}

impl UtcDateTime {
    /// A real instant.
    pub open spec fn wf(self) -> bool {
        &&& self.date.wf()
        &&& self.second_of_day < 86400
        &&& self.nanosecond < 2_000_000_000
    }

    /// Strictly earlier than `other`.
    pub open spec fn is_before(self, other: UtcDateTime) -> bool {
        ||| self.date.spec_le(other.date) && self.date != other.date
        ||| self.date == other.date && self.second_of_day < other.second_of_day
        ||| self.date == other.date && self.second_of_day == other.second_of_day
            && self.nanosecond < other.nanosecond
    }
}

/// 13:15:00 UTC on date `d`.
pub open spec fn run_time_on(d: Date) -> UtcDateTime {
    UtcDateTime { date: d, second_of_day: 47700, nanosecond: 0 }
}

/// 13:15:00 UTC today if that is still ahead of `now`, else 13:15:00 UTC
/// tomorrow.
pub open spec fn next_run_after(now: UtcDateTime) -> UtcDateTime {
    if now.second_of_day < RUN_SECOND_OF_DAY {
        UtcDateTime { date: now.date, second_of_day: RUN_SECOND_OF_DAY, nanosecond: 0 }
    } else {
        UtcDateTime { date: next_day(now.date), second_of_day: RUN_SECOND_OF_DAY, nanosecond: 0 }
    }
}

/// The next 13:15:00 UTC strictly after `now`: today's if `now` is before
/// it, else tomorrow's. The result is at most one day after `now`.
///
/// chrono panics when tomorrow lies past its last date.
pub fn next_utc_13_15(now: &UtcDateTime) -> (r: UtcDateTime)
    requires
        now.wf(),
        now.second_of_day < RUN_SECOND_OF_DAY || !now.date.is_last(),
    ensures
        r == next_run_after(*now),
        r.wf(),
        now.is_before(r),
        r.second_of_day == RUN_SECOND_OF_DAY && r.nanosecond == 0,
        r.date == now.date || r.date == next_day(now.date),
        now.second_of_day < RUN_SECOND_OF_DAY ==> r.date == now.date,
        forall|d: Date|
            d.wf() && now.is_before(
                #[trigger] run_time_on(d),
            ) ==> !run_time_on(d).is_before(r),
{
    proof {
        lemma_next_run_is_earliest(*now);
    }
    if now.second_of_day < RUN_SECOND_OF_DAY {
        UtcDateTime { date: now.date, second_of_day: RUN_SECOND_OF_DAY, nanosecond: 0 }
    } else {
        let tomorrow = now.date.succ();
        UtcDateTime { date: tomorrow, second_of_day: RUN_SECOND_OF_DAY, nanosecond: 0 }
    }
}

/// The next run is the earliest 13:15:00 UTC strictly after `now`: it lies
/// after `now`, at 13:15:00, on today's or tomorrow's date, and no 13:15:00 of
/// any date lies strictly between `now` and it. In particular today's run is
/// chosen while it is still ahead.
pub proof fn lemma_next_run_is_earliest(now: UtcDateTime)
    requires
        now.wf(),
        now.second_of_day < RUN_SECOND_OF_DAY || !now.date.is_last(),
    ensures
        now.is_before(next_run_after(now)),
        next_run_after(now).wf(),
        next_run_after(now).second_of_day == 13 * 3600 + 15 * 60,
        next_run_after(now).nanosecond == 0,
        now.second_of_day < 13 * 3600 + 15 * 60 ==> next_run_after(now).date == now.date,
        next_run_after(now).date == now.date || next_run_after(now).date == next_day(now.date),
        forall|d: Date|
            d.wf() && now.is_before(
                #[trigger] run_time_on(d),
            ) ==> !run_time_on(d).is_before(
                next_run_after(now),
            ),
{
    let r = next_run_after(now);
    if now.second_of_day >= RUN_SECOND_OF_DAY {
        lemma_next_day_is_successor(now.date, now.date);
        assert forall|d: Date|
            d.wf() && now.is_before(
                #[trigger] run_time_on(d),
            ) implies !run_time_on(d).is_before(
            r,
        ) by {
            lemma_next_day_is_successor(now.date, d);
        }
    }
}

} // verus!
