//! Wall-clock readings as a count of seconds.

use vstd::arithmetic::div_mod::{
    lemma_fundamental_div_mod, lemma_fundamental_div_mod_converse, lemma_mod_mod,
    lemma_mod_multiples_vanish,
};
use vstd::prelude::*;

verus! {

/// Nanoseconds in one second.
pub const NANOS_PER_SECOND: u32 = 1_000_000_000;

/// The readings that can be held lie less than this many seconds from the
/// start of 1970, on either side: thirteen million weeks, about 249,000 years.
pub const SECONDS_LIMIT: i64 = 7_862_400_000_000;

/// Whether `seconds` lies in the range that a [`Timestamp`] holds.
pub open spec fn seconds_in_range(seconds: int) -> bool {
    -SECONDS_LIMIT <= seconds < SECONDS_LIMIT
}

/// The number of the day that holds second `seconds`; day 0 is 1 January 1970.
pub open spec fn day_number(seconds: int) -> int {
    seconds / 86_400
}

/// The hour of the day, 0 to 23, at second `seconds`.
pub open spec fn hour_of(seconds: int) -> int {
    (seconds % 86_400) / 3_600
}

/// The minute of the hour, 0 to 59, at second `seconds`.
pub open spec fn minute_of(seconds: int) -> int {
    (seconds % 3_600) / 60
}

/// The second of the minute, 0 to 59, at second `seconds`.
pub open spec fn second_of(seconds: int) -> int {
    seconds % 60
}

/// The day of the week at second `seconds`, counted from Sunday = 0 to
/// Saturday = 6. Day 0 was a Thursday.
pub open spec fn weekday_of(seconds: int) -> int {
    (day_number(seconds) + 4) % 7
}

/// The last whole minute at or before second `seconds`.
pub open spec fn minute_floor(seconds: int) -> int {
    seconds - second_of(seconds)
}

/// Adding the limit to a count of seconds moves it forward by thirteen
/// million whole weeks: the time of day and the day of the week stay.
proof fn shift_by_limit(seconds: int)
    ensures
        (seconds + SECONDS_LIMIT) % 86_400 == seconds % 86_400,
        (seconds + SECONDS_LIMIT) / 86_400 == seconds / 86_400 + 91_000_000,
        ((seconds + SECONDS_LIMIT) / 86_400 + 4) % 7 == weekday_of(seconds),
{
    let days = seconds / 86_400;
    let rest = seconds % 86_400;
    lemma_fundamental_div_mod(seconds, 86_400);
    assert(seconds + SECONDS_LIMIT == (days + 91_000_000) * 86_400 + rest);
    lemma_fundamental_div_mod_converse(seconds + SECONDS_LIMIT, 86_400, days + 91_000_000, rest);
    lemma_mod_multiples_vanish(13_000_000, days + 4, 7);
    assert(7 * 13_000_000 + (days + 4) == days + 91_000_000 + 4);
}

/// The minute and the second can be read off the seconds of the day.
proof fn time_of_day(seconds: int)
    ensures
        0 <= seconds % 86_400 < 86_400,
        (seconds % 86_400) % 3_600 == seconds % 3_600,
        (seconds % 86_400) % 60 == seconds % 60,
        0 <= hour_of(seconds) < 24,
        0 <= minute_of(seconds) < 60,
        0 <= second_of(seconds) < 60,
{
    lemma_mod_mod(seconds, 3_600, 24);
    lemma_mod_mod(seconds, 60, 1_440);
    assert(3_600 * 24 == 86_400 && 60 * 1_440 == 86_400);
}

/// The start of a minute lies in the same minute, hour and day as every
/// second of that minute, and in range when the second is.
pub proof fn minute_floor_keeps_minute(seconds: int)
    ensures
        minute_floor(seconds) <= seconds < minute_floor(seconds) + 60,
        second_of(minute_floor(seconds)) == 0,
        minute_of(minute_floor(seconds)) == minute_of(seconds),
        hour_of(minute_floor(seconds)) == hour_of(seconds),
        day_number(minute_floor(seconds)) == day_number(seconds),
        seconds_in_range(seconds) ==> seconds_in_range(minute_floor(seconds)),
{
    let start = minute_floor(seconds);
    let minutes = seconds / 60;
    lemma_fundamental_div_mod(seconds, 60);
    assert(start == 60 * minutes);
    lemma_fundamental_div_mod_converse(start, 60, minutes, 0);
    // The minute of the hour and the hour of the day, from the count of minutes.
    let hours = minutes / 60;
    lemma_fundamental_div_mod(minutes, 60);
    lemma_fundamental_div_mod_converse(seconds, 3_600, hours, 60 * (minutes % 60) + seconds % 60);
    lemma_fundamental_div_mod_converse(start, 3_600, hours, 60 * (minutes % 60));
    let days = hours / 24;
    lemma_fundamental_div_mod(hours, 24);
    lemma_fundamental_div_mod_converse(
        seconds,
        86_400,
        days,
        3_600 * (hours % 24) + 60 * (minutes % 60) + seconds % 60,
    );
    lemma_fundamental_div_mod_converse(
        start,
        86_400,
        days,
        3_600 * (hours % 24) + 60 * (minutes % 60),
    );
    if seconds_in_range(seconds) {
        lemma_fundamental_div_mod_converse(-SECONDS_LIMIT as int, 60, -131_040_000_000, 0);
        if start < -SECONDS_LIMIT {
            assert(60 * minutes < 60 * -131_040_000_000);
            assert(minutes <= -131_040_000_001);
            assert(seconds < 60 * minutes + 60);
        }
    }
}

/// A reading of the wall clock: whole seconds since 1970-01-01 00:00:00 on
/// that clock, and the nanoseconds into the current second.
#[derive(Clone, Copy, Debug, PartialEq, Eq, Structural)]
pub struct Timestamp {
    seconds: i64,
    nanos: u32,
}

impl Timestamp {
    #[verifier::type_invariant]
    spec fn inv(self) -> bool {
        seconds_in_range(self.seconds as int) && self.nanos < NANOS_PER_SECOND
    }

    /// Whole seconds since the start of 1970.
    pub closed spec fn seconds(self) -> int {
        self.seconds as int
    }

    /// Nanoseconds into the current second.
    pub closed spec fn nanos(self) -> int {
        self.nanos as int
    }

    /// What every reading satisfies.
    pub open spec fn valid(self) -> bool {
        seconds_in_range(self.seconds()) && 0 <= self.nanos() < NANOS_PER_SECOND
    }

    /// The start of the minute that the reading lies in.
    pub closed spec fn minute_start(self) -> Timestamp {
        Timestamp { seconds: minute_floor(self.seconds as int) as i64, nanos: 0 }
    }

    /// The reading `seconds` later, where that is in range.
    pub closed spec fn later_by(self, seconds: int) -> Option<Timestamp> {
        if seconds_in_range(self.seconds + seconds) {
            Some(Timestamp { seconds: (self.seconds + seconds) as i64, nanos: self.nanos })
        } else {
            None
        }
    }

    /// The start of the minute has the seconds and the nanoseconds at zero
    /// and everything else as the reading has it. It is not later than the
    /// reading, and less than a minute earlier.
    pub proof fn minute_start_is_floor(self)
        requires
            self.valid(),
        ensures
            self.minute_start().valid(),
            self.minute_start().seconds() == minute_floor(self.seconds()),
            self.minute_start().nanos() == 0,
            self.minute_start().seconds() <= self.seconds() < self.minute_start().seconds() + 60,
            second_of(self.minute_start().seconds()) == 0,
            minute_of(self.minute_start().seconds()) == minute_of(self.seconds()),
            hour_of(self.minute_start().seconds()) == hour_of(self.seconds()),
            day_number(self.minute_start().seconds()) == day_number(self.seconds()),
    {
        minute_floor_keeps_minute(self.seconds());
    }

    /// A reading `seconds` later counts that many seconds more, where that
    /// is in range, and has the same nanoseconds.
    pub proof fn later_by_adds(self, seconds: int)
        requires
            self.valid(),
        ensures
            self.later_by(seconds) is Some <==> seconds_in_range(self.seconds() + seconds),
            self.later_by(seconds) matches Some(t) ==> t.valid() && t.seconds() == self.seconds()
                + seconds && t.nanos() == self.nanos(),
    {
    }

    /// Two readings of the same count are the same reading.
    pub proof fn same_count_same_reading(self, other: Timestamp)
        requires
            self.seconds() == other.seconds(),
            self.nanos() == other.nanos(),
        ensures
            self == other,
    {
    }

    /// Makes a reading, or `None` when `seconds` is out of range or `nanos`
    /// is not less than a second.
    pub fn new(seconds: i64, nanos: u32) -> (made: Option<Timestamp>)
        ensures
            made is Some <==> seconds_in_range(seconds as int) && nanos < NANOS_PER_SECOND,
            made matches Some(t) ==> t.seconds() == seconds && t.nanos() == nanos && t.valid(),
    {
        if -SECONDS_LIMIT <= seconds && seconds < SECONDS_LIMIT && nanos < NANOS_PER_SECOND {
            Some(Timestamp { seconds, nanos })
        } else {
            None
        }
    }

    /// Whole seconds since the start of 1970.
    pub fn unix_seconds(&self) -> (s: i64)
        ensures
            s == self.seconds(),
            self.valid(),
    {
        proof {
            use_type_invariant(self);
        }
        self.seconds
    }

    /// Nanoseconds into the current second.
    pub fn subsec_nanos(&self) -> (n: u32)
        ensures
            n == self.nanos(),
            self.valid(),
    {
        proof {
            use_type_invariant(self);
        }
        self.nanos
    }

    /// Seconds since the start of the reading's day, 0 to 86,399.
    fn second_of_day(&self) -> (s: u32)
        ensures
            s == self.seconds() % 86_400,
            s < 86_400,
    {
        proof {
            use_type_invariant(self);
            shift_by_limit(self.seconds as int);
        }
        let shifted: u64 = (self.seconds + SECONDS_LIMIT) as u64;
        (shifted % 86_400) as u32
    }

    /// The hour of the day, 0 to 23.
    pub fn hour(&self) -> (h: u32)
        ensures
            h == hour_of(self.seconds()),
            h < 24,
    {
        proof {
            time_of_day(self.seconds());
        }
        self.second_of_day() / 3_600
    }

    /// The minute of the hour, 0 to 59.
    pub fn minute(&self) -> (m: u32)
        ensures
            m == minute_of(self.seconds()),
            m < 60,
    {
        proof {
            time_of_day(self.seconds());
        }
        (self.second_of_day() % 3_600) / 60
    }

    /// The second of the minute, 0 to 59.
    pub fn second(&self) -> (s: u32)
        ensures
            s == second_of(self.seconds()),
            s < 60,
    {
        proof {
            time_of_day(self.seconds());
        }
        self.second_of_day() % 60
    }

    /// The day of the week, from Sunday = 0 to Saturday = 6.
    pub fn weekday(&self) -> (d: u32)
        ensures
            d == weekday_of(self.seconds()),
            d < 7,
    {
        proof {
            use_type_invariant(self);
            shift_by_limit(self.seconds as int);
        }
        let shifted: u64 = (self.seconds + SECONDS_LIMIT) as u64;
        (((shifted / 86_400) + 4) % 7) as u32
    }

    /// The reading with its seconds and nanoseconds set to zero: the start
    /// of the minute that the reading lies in.
    pub fn start_of_minute(&self) -> (start: Timestamp)
        ensures
            start == self.minute_start(),
            start.seconds() == minute_floor(self.seconds()),
            start.nanos() == 0,
            start.valid(),
    {
        proof {
            use_type_invariant(self);
            minute_floor_keeps_minute(self.seconds());
        }
        let into: i64 = self.second() as i64;
        Timestamp { seconds: self.seconds - into, nanos: 0 }
    }

    /// The reading `seconds` later, or `None` when that is out of range.
    pub fn plus_seconds(&self, seconds: u32) -> (later: Option<Timestamp>)
        ensures
            later == self.later_by(seconds as int),
            later is Some <==> seconds_in_range(self.seconds() + seconds),
            later matches Some(t) ==> t.seconds() == self.seconds() + seconds && t.nanos()
                == self.nanos() && t.valid(),
    {
        proof {
            use_type_invariant(self);
        }
        let sum: i64 = self.seconds + seconds as i64;
        if sum < SECONDS_LIMIT {
            Some(Timestamp { seconds: sum, nanos: self.nanos })
        } else {
            None
        }
    }
}

} // verus!
