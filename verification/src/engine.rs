//! The sentence filter engine.
//!
//! Per input line: strip one trailing newline; discard empty lines silently;
//! classify the line, discarding lines that do not parse; test the sender and
//! message codes against the include/exclude pattern sets; for admitted
//! sentences update the rolling clock from the time payload; finally emit the
//! stripped line exactly when the (possibly just updated) clock lies inside
//! the window. The clock moves for every admitted sentence, also for those
//! the window then rejects.

use vstd::prelude::*;

use vstd::string::StrSliceExecFns;

use crate::config::Config;
use crate::sentence::{nmea_ids, nmea_payload, parse_ids, parse_payload, Payload};
use crate::time::{spec_roll, Clock, Timestamp, DAY_LIMIT, SECS_PER_DAY};

verus! {

/// A fatal fault during processing; the run must abort rather than continue
/// with a stale or undefined clock.
#[derive(Clone, Copy, PartialEq, Eq, Structural, Debug)]
pub enum EngineFault {
    /// A timestamp-bearing sentence failed to yield its timestamp: the
    /// external parser broke its contract.
    MissingTimestamp,
    /// A date rollover would leave the supported calendar range.
    ClockRangeExceeded,
}

/// Whether the configuration admits a sentence: the message code must match
/// the message include set and not its exclude set, and the sender code must
/// match the device include set and not its exclude set.
pub open spec fn spec_admits(c: Config, sender: Seq<char>, message: Seq<char>) -> bool {
    &&& c.include_messages.spec_matches(message)
    &&& !c.exclude_messages.spec_matches(message)
    &&& c.include_devices.spec_matches(sender)
    &&& !c.exclude_devices.spec_matches(sender)
}

/// The clock value a payload leaves behind: a full timestamp replaces the
/// clock, a time of day rolls it, anything else leaves it alone.
pub open spec fn spec_updated_clock(now: Timestamp, p: Payload) -> Timestamp {
    match p {
        Payload::Full(t) => t,
        Payload::TimeOfDay(s) => spec_roll(now, s),
        Payload::Untimed => now,
        Payload::Defective => now,
    }
}

/// One engine step on a classified sentence: the new clock value and whether
/// the sentence is emitted, or the fault that aborts the run. Sentences the
/// pattern sets reject leave the clock alone and are not emitted; admitted
/// sentences move the clock first and are emitted exactly when the updated
/// clock lies inside the window.
pub open spec fn spec_step(
    c: Config,
    now: Timestamp,
    sender: Seq<char>,
    message: Seq<char>,
    p: Payload,
) -> Result<(Timestamp, bool), EngineFault> {
    if !spec_admits(c, sender, message) {
        Ok((now, false))
    } else {
        match p {
            Payload::Defective => Err(EngineFault::MissingTimestamp),
            Payload::TimeOfDay(s) => if now.secs > s && now.day == DAY_LIMIT {
                Err(EngineFault::ClockRangeExceeded)
            } else {
                Ok((spec_roll(now, s), c.window.spec_contains(spec_roll(now, s))))
            },
            _ => Ok(
                (spec_updated_clock(now, p), c.window.spec_contains(spec_updated_clock(now, p))),
            ),
        }
    }
}

/// A line with its single trailing newline removed; every other character,
/// including a trailing carriage return, stays.
pub open spec fn spec_strip(line: Seq<char>) -> Seq<char> {
    if line.len() > 0 && line.last() == '\n' {
        line.drop_last()
    } else {
        line
    }
}

/// The outcome of one line: the new clock value and the emitted text, if any,
/// or the fault that aborts the run. Empty lines and lines that do not parse
/// are discarded silently and leave the clock alone.
pub open spec fn spec_process(c: Config, now: Timestamp, line: Seq<char>) -> Result<
    (Timestamp, Option<Seq<char>>),
    EngineFault,
> {
    let l = spec_strip(line);
    if l.len() == 0 {
        Ok((now, None))
    } else {
        match nmea_ids(l) {
            None => Ok((now, None)),
            Some(ids) => match spec_step(c, now, ids.0, ids.1, nmea_payload(l)) {
                Ok((t, emit)) => Ok(
                    (
                        t,
                        if emit {
                            Some(l)
                        } else {
                            None
                        },
                    ),
                ),
                Err(f) => Err(f),
            },
        }
    }
}

/// Strips a single trailing newline, leaving everything else untouched.
fn strip_newline(line: &str) -> (r: &str)
    ensures
        r@ == spec_strip(line@),
{
    let n = line.unicode_len();
    if n > 0 && line.get_char(n - 1) == '\n' {
        let r = line.substring_char(0, n - 1);
        proof {
            assert(r@ =~= line@.drop_last());
        }
        r
    } else {
        line
    }
}

/// The filter engine: the immutable configuration and the rolling clock.
pub struct Engine {
    config: Config,
    clock: Clock,
}

impl Engine {
    pub closed spec fn spec_config(self) -> Config {
        self.config
    }

    pub closed spec fn spec_clock(self) -> Timestamp {
        self.clock.spec_now()
    }

    pub open spec fn valid(self) -> bool {
        &&& self.spec_config().valid()
        &&& self.spec_clock().valid()
    }

    /// Builds an engine over a configuration, with the clock seeded at the
    /// given instant.
    pub fn new(config: Config, seed: Timestamp) -> (r: Engine)
        requires
            config.valid(),
            seed.valid(),
        ensures
            r.valid(),
            r.spec_config() == config,
            r.spec_clock() == seed,
    {
        Engine { config, clock: Clock::new(seed) }
    }

    /// Reads the clock.
    pub fn clock_now(&self) -> (r: Timestamp)
        ensures
            r == self.spec_clock(),
    {
        self.clock.now()
    }

    /// Tests the pattern sets on a sentence's codes.
    fn admits(&self, sender: &str, message: &str) -> (r: bool)
        ensures
            r == spec_admits(self.spec_config(), sender@, message@),
    {
        self.config.include_messages.matches(message)
            && !self.config.exclude_messages.matches(message)
            && self.config.include_devices.matches(sender)
            && !self.config.exclude_devices.matches(sender)
    }

    /// One step on an already classified sentence: applies the pattern sets,
    /// updates the clock for admitted sentences, and reports whether the
    /// sentence is to be emitted. A sender matched by the device exclude set
    /// is never emitted and never moves the clock, whatever the other sets
    /// and the window say.
    pub fn step(&mut self, sender: &str, message: &str, payload: Payload) -> (r: Result<
        bool,
        EngineFault,
    >)
        requires
            old(self).valid(),
            payload matches Payload::Full(t) ==> t.valid(),
            payload matches Payload::TimeOfDay(s) ==> s < SECS_PER_DAY,
        ensures
            final(self).valid(),
            final(self).spec_config() == old(self).spec_config(),
            match spec_step(
                old(self).spec_config(),
                old(self).spec_clock(),
                sender@,
                message@,
                payload,
            ) {
                Ok((t, emit)) => r == Ok::<bool, EngineFault>(emit) && final(self).spec_clock()
                    == t,
                Err(f) => r == Err::<bool, EngineFault>(f) && final(self).spec_clock() == old(
                    self,
                ).spec_clock(),
            },
            old(self).spec_config().exclude_devices.spec_matches(sender@) ==> r == Ok::<
                bool,
                EngineFault,
            >(false) && final(self).spec_clock() == old(self).spec_clock(),
    {
        if !self.admits(sender, message) {
            return Ok(false);
        }
        match payload {
            Payload::Full(t) => {
                self.clock.apply_full(t);
            },
            Payload::TimeOfDay(s) => {
                if !self.clock.apply_time_of_day(s) {
                    return Err(EngineFault::ClockRangeExceeded);
                }
            },
            Payload::Untimed => {},
            Payload::Defective => {
                return Err(EngineFault::MissingTimestamp);
            },
        }
        let t = self.clock.now();
        Ok(self.config.window.contains(t))
    }

    /// Processes one raw line: strips a trailing newline, discards empty and
    /// unparseable lines silently, and hands classified sentences to the
    /// pattern, clock and window logic. Returns the stripped line when it is
    /// to be emitted. A line that does not parse is never emitted and never
    /// moves the clock.
    pub fn process_line(&mut self, line: &str) -> (r: Result<Option<String>, EngineFault>)
        requires
            old(self).valid(),
        ensures
            final(self).valid(),
            final(self).spec_config() == old(self).spec_config(),
            match spec_process(old(self).spec_config(), old(self).spec_clock(), line@) {
                Ok((t, emit)) => {
                    &&& r matches Ok(o)
                    &&& final(self).spec_clock() == t
                    &&& (r->Ok_0 is Some <==> emit is Some)
                    &&& (r->Ok_0 matches Some(x) ==> emit matches Some(e) && x@ == e)
                },
                Err(f) => r == Err::<Option<String>, EngineFault>(f) && final(self).spec_clock()
                    == old(self).spec_clock(),
            },
            (spec_strip(line@).len() == 0 || nmea_ids(spec_strip(line@)) is None) ==> (r matches Ok(
                o,
            ) && o is None && final(self).spec_clock() == old(self).spec_clock()),
    {
        let stripped = strip_newline(line);
        if stripped.is_empty() {
            return Ok(None);
        }
        let (sender, message) = match parse_ids(stripped) {
            Some(ids) => ids,
            None => {
                return Ok(None);
            },
        };
        if !self.admits(sender.as_str(), message.as_str()) {
            return Ok(None);
        }
        let payload = parse_payload(stripped);
        match self.step(sender.as_str(), message.as_str(), payload) {
            Ok(true) => Ok(Some(stripped.to_owned())),
            Ok(false) => Ok(None),
            Err(f) => Err(f),
        }
    }
}

/// With no device or message lists configured, every sentence whose sender
/// and message codes are non-empty is admitted, and it is emitted exactly
/// when the clock value it derives lies inside the window.
pub proof fn lemma_no_filters_emission(
    c: Config,
    now: Timestamp,
    sender: Seq<char>,
    message: Seq<char>,
    p: Payload,
)
    requires
        c.include_devices is MatchAll,
        c.exclude_devices is MatchEmptyOnly,
        c.include_messages is MatchAll,
        c.exclude_messages is MatchEmptyOnly,
        sender.len() > 0,
        message.len() > 0,
        !(p is Defective),
        p matches Payload::TimeOfDay(s) ==> !(now.secs > s && now.day == DAY_LIMIT),
    ensures
        spec_step(c, now, sender, message, p) == Ok::<(Timestamp, bool), EngineFault>(
            (spec_updated_clock(now, p), c.window.spec_contains(spec_updated_clock(now, p))),
        ),
{
    assert(spec_admits(c, sender, message));
}

/// With no device or message lists configured, a raw line's outcome depends
/// only on parsing and on the window: an empty or unparseable line is
/// discarded and leaves the clock alone, and a parsed line with non-empty
/// codes and a usable payload is emitted exactly when the clock value it
/// derives lies inside the window.
pub proof fn lemma_no_filters_line_outcome(c: Config, now: Timestamp, line: Seq<char>)
    requires
        c.include_devices is MatchAll,
        c.exclude_devices is MatchEmptyOnly,
        c.include_messages is MatchAll,
        c.exclude_messages is MatchEmptyOnly,
    ensures
        ({
            let l = spec_strip(line);
            &&& ((l.len() == 0 || nmea_ids(l) is None) ==> spec_process(c, now, line) == Ok::<
                (Timestamp, Option<Seq<char>>),
                EngineFault,
            >((now, None)))
            &&& ((l.len() > 0 && (nmea_ids(l) matches Some(ids) && ids.0.len() > 0 && ids.1.len()
                > 0) && !(nmea_payload(l) is Defective) && (nmea_payload(l) matches
            Payload::TimeOfDay(s) ==> !(now.secs > s && now.day == DAY_LIMIT)))
                ==> spec_process(c, now, line) == Ok::<(Timestamp, Option<Seq<char>>), EngineFault>(
                (
                    spec_updated_clock(now, nmea_payload(l)),
                    if c.window.spec_contains(spec_updated_clock(now, nmea_payload(l))) {
                        Some(l)
                    } else {
                        None
                    },
                ),
            ))
        }),
{
    let l = spec_strip(line);
    if l.len() > 0 && nmea_ids(l) is Some {
        let ids = nmea_ids(l).unwrap();
        let p = nmea_payload(l);
        let tod_ok = p matches Payload::TimeOfDay(s) ==> !(now.secs > s && now.day == DAY_LIMIT);
        if ids.0.len() > 0 && ids.1.len() > 0 && !(p is Defective) && tod_ok {
            lemma_no_filters_emission(c, now, ids.0, ids.1, p);
        }
    }
}

/// A sender matched by the device exclude set is never emitted, whatever the
/// include sets, the payload and the window; its sentence does not move the
/// clock either.
pub proof fn lemma_excluded_device_never_emitted(
    c: Config,
    now: Timestamp,
    sender: Seq<char>,
    message: Seq<char>,
    p: Payload,
)
    requires
        c.exclude_devices.spec_matches(sender),
    ensures
        spec_step(c, now, sender, message, p) == Ok::<(Timestamp, bool), EngineFault>(
            (now, false),
        ),
{
}

} // verus!
