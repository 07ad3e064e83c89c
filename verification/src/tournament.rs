//! The parameters of a tournament, and those of the Elite Atomic.

use crate::date::{slot_of, to_millis, which, UtcDateTime};
use vstd::prelude::*;

verus! {

/// What the platform is told of a tournament to create.
pub struct Info<'a> {
    pub name: &'a str,
    /// Initial time on the clock.
    pub clock_time: i32,
    /// Increment of the clock.
    pub clock_increment: i32,
    /// Duration of the tournament in minutes.
    pub minutes: i32,
    /// Start, in milliseconds since 1970-01-01T00:00:00Z.
    pub start_date: i64,
    pub variant: &'a str,
    pub rated: bool,
    pub berserkable: bool,
    /// Rating below which a player cannot join.
    pub min_rating: i32,
}

/// The time controls of a month's Elite Atomics, by rank within the month,
/// each as initial time and increment.
pub open spec fn time_controls() -> Seq<(int, int)> {
    seq![(3, 2), (1, 1), (3, 0), (1, 0), (2, 1)]
}

/// The time control of the tournament with the given rank within its month.
pub fn time_control(slot: usize) -> (control: (i32, i32))
    requires
        slot < 5,
    ensures
        control.0 == time_controls()[slot as int].0,
        control.1 == time_controls()[slot as int].1,
{
    let table: [(i32, i32); 5] = [(3, 2), (1, 1), (3, 0), (1, 0), (2, 1)];
    table[slot]
}

/// The Elite Atomic that starts at `datetime`: atomic chess, rated, with
/// berserk, two hours long, open from a rating of 2000, and with the time
/// control that belongs to the rank of `datetime` within its month.
pub fn elite_atomic_at<'a>(datetime: UtcDateTime) -> (info: Info<'a>)
    ensures
        0 <= slot_of(datetime@) <= 4,
        info.name@ == "Elite Atomic"@,
        info.clock_time == time_controls()[slot_of(datetime@)].0,
        info.clock_increment == time_controls()[slot_of(datetime@)].1,
        info.minutes == 120,
        info.start_date == 1000 * datetime@,
        info.variant@ == "atomic"@,
        info.rated,
        info.berserkable,
        info.min_rating == 2000,
{
    let control = time_control(which(&datetime));
    Info {
        name: "Elite Atomic",
        clock_time: control.0,
        clock_increment: control.1,
        minutes: 120,
        start_date: to_millis(&datetime),
        variant: "atomic",
        rated: true,
        berserkable: true,
        min_rating: 2000,
    }
}

} // verus!
