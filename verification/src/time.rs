//! Absolute timestamps and the rolling clock.
//!
//! A [`Timestamp`] is an absolute UTC instant held as a calendar day number
//! together with a second-of-day, the two pieces the rollover heuristic reads
//! and writes. The day number counts days of the proleptic Gregorian calendar
//! (day 1 is the first day of year 1), matching what the timestamp wrappers
//! extract from parsed dates.
//!
//! The [`Clock`] holds the single most recently derived timestamp. A full
//! timestamp overwrites it outright; a time-of-day-only reading keeps the
//! current date unless the new time of day is strictly earlier than the one
//! currently held, in which case the date advances by exactly one day.

use vstd::prelude::*;

use chrono::{Datelike, Timelike};

verus! {

/// Seconds in one calendar day.
pub const SECS_PER_DAY: u32 = 86400;

/// Largest day-number magnitude the library accepts; comfortably above every
/// day number the calendar wrappers can produce.
pub const DAY_LIMIT: i64 = 96_000_000;

/// An absolute UTC instant: a calendar day number and a second of that day.
#[derive(Clone, Copy, PartialEq, Eq, Structural, Debug)]
pub struct Timestamp {
    /// Day number of the proleptic Gregorian calendar (day 1 is 0001-01-01).
    pub day: i64,
    /// Seconds since midnight of that day.
    pub secs: u32,
}

impl Timestamp {
    /// Total seconds from the calendar origin: the linear order on instants.
    pub open spec fn as_secs(self) -> int {
        self.day * (SECS_PER_DAY as int) + self.secs
    }

    /// The instant lies in the supported calendar range and its second of day
    /// is in range.
    pub open spec fn valid(self) -> bool {
        &&& -DAY_LIMIT <= self.day <= DAY_LIMIT
        &&& self.secs < SECS_PER_DAY
    }

    /// Compares two instants by their place on the time line.
    pub fn le(self, other: Timestamp) -> (r: bool)
        requires
            self.valid(),
            other.valid(),
        ensures
            r == (self.as_secs() <= other.as_secs()),
    {
        if self.day < other.day {
            proof {
                lemma_day_order(self, other);
            }
            true
        } else if other.day < self.day {
            proof {
                lemma_day_order(other, self);
            }
            false
        } else {
            self.secs <= other.secs
        }
    }
}

/// Between valid instants, an earlier day means an earlier instant, whatever
/// the seconds.
pub proof fn lemma_day_order(a: Timestamp, b: Timestamp)
    requires
        a.valid(),
        b.valid(),
        a.day < b.day,
    ensures
        a.as_secs() < b.as_secs(),
{
    assert(a.as_secs() < b.as_secs()) by (nonlinear_arith)
        requires
            a.day < b.day,
            a.secs < 86400,
            b.secs < 86400,
            a.as_secs() == a.day * 86400 + a.secs,
            b.as_secs() == b.day * 86400 + b.secs,
    ;
}

/// The day number a time-of-day reading leaves the clock on: the current day,
/// advanced by one exactly when the new time of day is strictly earlier than
/// the time of day currently held.
pub open spec fn rolled_day(current: Timestamp, secs: u32) -> int {
    if current.secs > secs {
        current.day + 1
    } else {
        current.day as int
    }
}

/// The rolling clock: the single most recently derived absolute timestamp.
pub struct Clock {
    current: Timestamp,
}

impl Clock {
    /// The timestamp the clock currently holds.
    pub closed spec fn spec_now(self) -> Timestamp {
        self.current
    }

    pub open spec fn valid(self) -> bool {
        self.spec_now().valid()
    }

    /// Starts the clock at the given instant.
    pub fn new(seed: Timestamp) -> (r: Clock)
        requires
            seed.valid(),
        ensures
            r.spec_now() == seed,
    {
        Clock { current: seed }
    }

    /// Reads the clock.
    pub fn now(&self) -> (r: Timestamp)
        ensures
            r == self.spec_now(),
    {
        self.current
    }

    /// A full timestamp overwrites the clock outright, whether it lies before
    /// or after the value currently held; no rollover heuristic applies.
    pub fn apply_full(&mut self, t: Timestamp)
        requires
            t.valid(),
        ensures
            final(self).spec_now() == t,
    {
        self.current = t;
    }

    /// A time-of-day-only reading: keep the current date, unless the new time
    /// of day is strictly earlier than the one held, in which case advance the
    /// date by exactly one day. Returns false, leaving the clock unchanged,
    /// only when that advance would leave the supported calendar range.
    pub fn apply_time_of_day(&mut self, secs: u32) -> (ok: bool)
        requires
            old(self).valid(),
            secs < SECS_PER_DAY,
        ensures
            final(self).valid(),
            ok == !(old(self).spec_now().secs > secs && old(self).spec_now().day == DAY_LIMIT),
            ok ==> final(self).spec_now() == spec_roll(old(self).spec_now(), secs),
            !ok ==> *final(self) == *old(self),
    {
        if self.current.secs > secs {
            if self.current.day == DAY_LIMIT {
                return false;
            }
            self.current.day = self.current.day + 1;
        }
        self.current.secs = secs;
        true
    }
}

/// The timestamp after one time-of-day reading: the rolled day number and the
/// new second of day. This is exactly what [`Clock::apply_time_of_day`] does
/// to the clock when the result stays in range.
pub open spec fn spec_roll(current: Timestamp, secs: u32) -> Timestamp {
    Timestamp { day: rolled_day(current, secs) as i64, secs }
}

/// The timestamp after a whole sequence of time-of-day readings.
pub open spec fn apply_tods(t: Timestamp, s: Seq<u32>) -> Timestamp
    decreases s.len(),
{
    if s.len() == 0 {
        t
    } else {
        apply_tods(spec_roll(t, s[0]), s.drop_first())
    }
}

/// Applying one more reading after a sequence is one roll of the sequence's
/// outcome.
pub proof fn lemma_apply_tods_push(t: Timestamp, s: Seq<u32>, x: u32)
    ensures
        apply_tods(t, s.push(x)) == spec_roll(apply_tods(t, s), x),
    decreases s.len(),
{
    reveal_with_fuel(apply_tods, 3);
    if s.len() == 0 {
        assert(s.push(x).drop_first() =~= Seq::<u32>::empty());
        assert(s =~= Seq::<u32>::empty());
        assert(s.push(x)[0] == x);
    } else {
        assert(s.push(x)[0] == s[0]);
        assert(s.push(x).drop_first() =~= s.drop_first().push(x));
        lemma_apply_tods_push(spec_roll(t, s[0]), s.drop_first(), x);
        assert(apply_tods(t, s.push(x)) == apply_tods(spec_roll(t, s[0]), s.drop_first().push(x)));
        assert(apply_tods(t, s) == apply_tods(spec_roll(t, s[0]), s.drop_first()));
    }
}

/// Rollover monotonicity: across a run of time-of-day readings that starts no
/// earlier than the clock's time of day and strictly increases, the date
/// component never changes, and the clock ends on the run's last reading.
pub proof fn lemma_monotone_run_keeps_day(t: Timestamp, s: Seq<u32>)
    requires
        s.len() > 0,
        t.secs <= s[0],
        forall|i: int| 0 <= i < s.len() - 1 ==> #[trigger] s[i] < s[i + 1],
    ensures
        apply_tods(t, s).day == t.day,
        apply_tods(t, s).secs == s.last(),
    decreases s.len(),
{
    reveal_with_fuel(apply_tods, 2);
    let t1 = spec_roll(t, s[0]);
    assert(t1.day == t.day && t1.secs == s[0]);
    if s.len() == 1 {
        assert(s.drop_first() =~= Seq::<u32>::empty());
        assert(apply_tods(t, s) == t1);
    } else {
        let rest = s.drop_first();
        assert(s[0] < s[1]);
        assert(t1.secs <= rest[0]);
        assert forall|i: int| 0 <= i < rest.len() - 1 implies #[trigger] rest[i] < rest[i
            + 1] by {
            assert(s[i + 1] < s[i + 2]);
        }
        lemma_monotone_run_keeps_day(t1, rest);
        assert(rest.last() == s.last());
    }
}

/// The first time-of-day reading that is strictly less than the immediately
/// preceding one causes exactly one date increment: after a strictly
/// increasing run, one smaller reading leaves the clock one day later.
pub proof fn lemma_first_decrease_increments_day(t: Timestamp, s: Seq<u32>, x: u32)
    requires
        t.valid(),
        s.len() > 0,
        t.secs <= s[0],
        forall|i: int| 0 <= i < s.len() - 1 ==> #[trigger] s[i] < s[i + 1],
        x < s.last(),
    ensures
        apply_tods(t, s.push(x)).day == t.day + 1,
        apply_tods(t, s.push(x)).secs == x,
{
    lemma_monotone_run_keeps_day(t, s);
    lemma_apply_tods_push(t, s, x);
    let before = apply_tods(t, s);
    assert(before.day == t.day && before.secs == s.last());
    assert(rolled_day(before, x) == t.day + 1);
}

/// What `chrono`'s RFC 3339 parser derives from a text: the UTC instant as a
/// day number and second of day, or `None` when the text is not a valid
/// RFC 3339 date-time.
pub uninterp spec fn rfc3339_timestamp(s: Seq<char>) -> Option<Timestamp>;

/// Relies on `chrono::DateTime::parse_from_rfc3339`, converted to UTC; the
/// day number comes from `num_days_from_ce`, the second of day from
/// `num_seconds_from_midnight`. Every parsed instant is valid because
/// `chrono` bounds its calendar range far inside `DAY_LIMIT`.
#[verifier::external_body]
pub fn parse_rfc3339(s: &str) -> (r: Option<Timestamp>)
    ensures
        r == rfc3339_timestamp(s@),
        r matches Some(t) ==> t.valid(),
{
    match chrono::DateTime::parse_from_rfc3339(s) {
        Ok(dt) => {
            let n = dt.naive_utc();
            Some(
                Timestamp {
                    day: n.date().num_days_from_ce() as i64,
                    secs: n.time().num_seconds_from_midnight(),
                },
            )
        },
        Err(_) => None,
    }
}

/// Relies on `chrono::Utc::now`: the day number of the current UTC date,
/// which lies inside `chrono`'s calendar range whatever the wall clock says.
#[verifier::external_body]
fn current_day_number() -> (r: i64)
    ensures
        -DAY_LIMIT <= r <= DAY_LIMIT,
{
    chrono::Utc::now().date_naive().num_days_from_ce() as i64
}

/// The current real-world UTC date at midnight: the clock seed used when no
/// other seed is configured.
pub fn today_at_midnight() -> (r: Timestamp)
    ensures
        r.valid(),
        r.secs == 0,
{
    Timestamp { day: current_day_number(), secs: 0 }
}

} // verus!
