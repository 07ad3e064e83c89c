//! Instants in UTC, whole seconds, and the tournament's weekly schedule.
//!
//! An instant is modelled by its number of seconds since 1970-01-01T00:00:00Z,
//! leap seconds not counted. Days, hours and weekdays are arithmetic on that
//! number; the calendar date of a day is taken from `chrono`.

use vstd::prelude::*;

verus! {

/// Seconds in a day.
pub const SECONDS_PER_DAY: i64 = 86_400;

/// Seconds in an hour.
pub const SECONDS_PER_HOUR: i64 = 3_600;

/// The hour of the day, UTC, at which a tournament starts.
pub const START_HOUR: i64 = 19;

/// 0000-01-01T00:00:00Z, the earliest instant a `UtcDateTime` holds.
pub const MIN_TIMESTAMP: i64 = -62_167_219_200;

/// 9999-12-31T23:59:59Z, the latest instant a `UtcDateTime` holds.
pub const MAX_TIMESTAMP: i64 = 253_402_300_799;

/// The day number of 0000-01-01, counted from 1970-01-01.
pub const MIN_DAY: i64 = -719_528;

/// The day number of 9999-12-31, counted from 1970-01-01.
pub const MAX_DAY: i64 = 2_932_896;

/// The day an instant falls on, counted from 1970-01-01.
pub open spec fn epoch_day(t: int) -> int {
    t / 86_400
}

/// The hour of the day of an instant, 0 to 23.
pub open spec fn hour_of_day(t: int) -> int {
    (t % 86_400) / 3_600
}

/// The weekday of an instant as the number of days since Sunday, 0 to 6.
/// 1970-01-01 was a Thursday.
pub open spec fn days_from_sunday(t: int) -> int {
    (epoch_day(t) + 4) % 7
}

/// 19:00:00 on the given day.
pub open spec fn start_on_day(day: int) -> int {
    day * 86_400 + 19 * 3_600
}

/// Whether an instant is a Sunday, 19:00:00.
pub open spec fn is_tournament_start(t: int) -> bool {
    days_from_sunday(t) == 0 && t % 86_400 == 19 * 3_600
}

/// The start of the tournament that follows the instant `t`: on a Sunday before
/// 19:00 the same day's, on a Sunday from 19:00 on the next Sunday's, on any
/// other day the coming Sunday's.
pub open spec fn next_tournament(t: int) -> int {
    let weekday = days_from_sunday(t);
    if weekday == 0 {
        if hour_of_day(t) < 19 {
            start_on_day(epoch_day(t))
        } else {
            start_on_day(epoch_day(t) + 7)
        }
    } else {
        start_on_day(epoch_day(t) + (7 - weekday))
    }
}

/// The day of the month, 1 to 31, of the day with the given number counted
/// from 1970-01-01, in the proleptic Gregorian calendar as `chrono` computes it.
pub uninterp spec fn day_of_month(day: int) -> int;

/// The rank within its month of a tournament played on the given day of the
/// month: 0 for the first seven days, 1 for the next seven, and so on.
pub open spec fn slot_of_day(dom: int) -> int {
    (dom - 1) / 7
}

/// The rank within its month of a tournament played at the instant `t`.
pub open spec fn slot_of(t: int) -> int {
    slot_of_day(day_of_month(epoch_day(t)))
}

/// An instant in UTC, to the second, between the years 0 and 9999.
#[derive(Clone, Copy, Debug, PartialEq, Eq, Structural)]
pub struct UtcDateTime {
    secs: i64,
}

impl View for UtcDateTime {
    type V = int;

    /// Seconds since 1970-01-01T00:00:00Z.
    closed spec fn view(&self) -> int {
        self.secs as int
    }
}

impl UtcDateTime {
    /// Every value lies in the range that the type holds.
    #[verifier::type_invariant]
    spec fn in_range(&self) -> bool {
        MIN_TIMESTAMP <= self.secs <= MAX_TIMESTAMP
    }

    /// The instant `secs` seconds after 1970-01-01T00:00:00Z, if the type holds it.
    pub fn from_timestamp(secs: i64) -> (r: Option<UtcDateTime>)
        ensures
            r is Some <==> MIN_TIMESTAMP <= secs <= MAX_TIMESTAMP,
            r is Some ==> r.unwrap()@ == secs,
    {
        if MIN_TIMESTAMP <= secs && secs <= MAX_TIMESTAMP {
            Some(UtcDateTime { secs })
        } else {
            None
        }
    }

    /// Seconds since 1970-01-01T00:00:00Z.
    pub fn timestamp(&self) -> (secs: i64)
        ensures
            secs == self@,
            MIN_TIMESTAMP <= secs <= MAX_TIMESTAMP,
    {
        proof {
            use_type_invariant(self);
        }
        self.secs
    }
}

/// The day number of an instant, counted from 1970-01-01.
fn epoch_day_of(secs: i64) -> (day: i64)
    requires
        MIN_TIMESTAMP <= secs <= MAX_TIMESTAMP,
    ensures
        day == epoch_day(secs as int),
        MIN_DAY <= day <= MAX_DAY,
{
    let since_min: i64 = secs - MIN_TIMESTAMP;
    since_min / SECONDS_PER_DAY + MIN_DAY
}

/// `chrono::NaiveDate::from_epoch_days` followed by `chrono::Datelike::day`: the
/// day of the month of the day with the given number. What is believed of the
/// two: that a day number between the years 0 and 9999 has a date, that the
/// date depends on the number alone, and that its day of the month lies
/// between 1 and 31.
#[verifier::external_body]
fn day_of_month_on(day: i32) -> (dom: u32)
    requires
        MIN_DAY <= day <= MAX_DAY,
    ensures
        dom == day_of_month(day as int),
        1 <= dom <= 31,
{
    chrono::Datelike::day(&chrono::NaiveDate::from_epoch_days(day).unwrap())
}

/// Returns the start of the next Elite Atomic after the instant `after`.
/// Elite Atomics start on Sundays at 19:00 UTC. If `after` is not a Sunday, that
/// is the coming Sunday; if it is one, the same Sunday before 19:00 and the
/// next Sunday from 19:00 on.
pub fn datetime_of_next_tournament_after(after: &UtcDateTime) -> (next: UtcDateTime)
    requires
        next_tournament(after@) <= MAX_TIMESTAMP,
    ensures
        next@ == next_tournament(after@),
        is_tournament_start(next@),
        after@ < next@ <= after@ + 7 * 86_400,
        forall|s: int| is_tournament_start(s) && after@ < s ==> next@ <= s,
{
    let secs: i64 = after.timestamp();
    let day: i64 = epoch_day_of(secs);
    // 0000-01-01, the day MIN_DAY, was a Saturday.
    let weekday: i64 = (day - MIN_DAY + 6) % 7;
    let hour: i64 = (secs - day * SECONDS_PER_DAY) / SECONDS_PER_HOUR;
    assert(weekday == days_from_sunday(secs as int));
    let ahead: i64 = if weekday == 0 {
        if hour < START_HOUR {
            0
        } else {
            7
        }
    } else {
        7 - weekday
    };
    proof {
        lemma_next_tournament_is_least(secs as int);
    }
    UtcDateTime { secs: (day + ahead) * SECONDS_PER_DAY + START_HOUR * SECONDS_PER_HOUR }
}

/// The start that `next_tournament` gives is a Sunday, 19:00:00, later than
/// `t` by at most a week, and no Sunday 19:00:00 lies between the two.
pub proof fn lemma_next_tournament_is_least(t: int)
    ensures
        is_tournament_start(next_tournament(t)),
        t < next_tournament(t) <= t + 7 * 86_400,
        forall|s: int| is_tournament_start(s) && t < s ==> next_tournament(t) <= s,
{
    let r = next_tournament(t);
    assert forall|s: int| is_tournament_start(s) && t < s implies r <= s by {
        if s < r {
            assert(epoch_day(s) <= epoch_day(r) - 7);
        }
    }
}

/// Returns the ordinal rank of a tournament played on the given day of the
/// month: 0 for the month's first, 1 for its second, up to 4.
pub fn which_on_day(dom: u32) -> (slot: usize)
    requires
        1 <= dom,
    ensures
        slot == slot_of_day(dom as int),
        dom <= 31 ==> slot <= 4,
{
    let rank: u32 = (dom - 1) / 7;
    rank as usize
}

/// Returns the ordinal rank for a tournament played on `date`.
/// Meaning, returns 0 if the first tournament of the month happens on `date`,
/// 1 if the second tournament of the month happens on `date`, etc.
pub fn which(date: &UtcDateTime) -> (slot: usize)
    ensures
        slot == slot_of(date@),
        slot <= 4,
{
    let day: i64 = epoch_day_of(date.timestamp());
    which_on_day(day_of_month_on(day as i32))
}

/// Transforms an instant into the number of milliseconds since
/// 1970-01-01T00:00:00Z, leap seconds not counted.
pub fn to_millis(datetime: &UtcDateTime) -> (millis: i64)
    ensures
        millis == 1000 * datetime@,
{
    1000 * datetime.timestamp()
}

/// On a day that is not a Sunday the next tournament starts on the nearest
/// Sunday to come, one to six days ahead, at 19:00:00.
pub proof fn lemma_next_after_weekday(t: int)
    requires
        days_from_sunday(t) != 0,
    ensures
        is_tournament_start(next_tournament(t)),
        1 <= epoch_day(next_tournament(t)) - epoch_day(t) <= 6,
        epoch_day(next_tournament(t)) - epoch_day(t) == 7 - days_from_sunday(t),
        forall|s: int| is_tournament_start(s) && t < s ==> next_tournament(t) <= s,
{
    lemma_next_tournament_is_least(t);
}

/// On a Sunday before 19:00 the next tournament starts the same day at
/// 19:00:00; on a Sunday from 19:00 on, seven days later at 19:00:00.
pub proof fn lemma_next_after_sunday(t: int)
    requires
        days_from_sunday(t) == 0,
    ensures
        hour_of_day(t) < 19 ==> next_tournament(t) == start_on_day(epoch_day(t)),
        hour_of_day(t) >= 19 ==> next_tournament(t) == start_on_day(epoch_day(t) + 7),
        epoch_day(start_on_day(epoch_day(t))) == epoch_day(t),
        epoch_day(start_on_day(epoch_day(t) + 7)) == epoch_day(t) + 7,
{
}

/// Two instants on the same calendar day have the same rank: the hour, minute
/// and second do not count.
pub proof fn lemma_slot_ignores_time_of_day(a: int, b: int)
    requires
        epoch_day(a) == epoch_day(b),
    ensures
        slot_of(a) == slot_of(b),
{
}

/// The rank by day of the month: days 1 to 7 give 0, 8 to 14 give 1, 15 to 21
/// give 2, 22 to 28 give 3, and 29 to 31 give 4.
pub proof fn lemma_slot_by_day_of_month(dom: int)
    requires
        1 <= dom <= 31,
    ensures
        1 <= dom <= 7 ==> slot_of_day(dom) == 0,
        8 <= dom <= 14 ==> slot_of_day(dom) == 1,
        15 <= dom <= 21 ==> slot_of_day(dom) == 2,
        22 <= dom <= 28 ==> slot_of_day(dom) == 3,
        29 <= dom <= 31 ==> slot_of_day(dom) == 4,
{
}

} // verus!
