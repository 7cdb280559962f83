//! Run configuration: the four pattern sets and the time window.
//!
//! Configuration is immutable after construction. Every configuration error
//! is fatal: an invalid pattern, an unparseable window bound, or a window
//! whose start lies after its end abort the run before any line is read.

use vstd::prelude::*;

use crate::pattern::{
    all_valid, build_exclude, build_include, configured, pattern_views, PatternSet,
};
use crate::time::{lemma_day_order, parse_rfc3339, rfc3339_timestamp, Timestamp};
use crate::window::Window;

verus! {

/// Day number of the default window start: the earliest supported day, so
/// that, absent explicit configuration, no sentence is excluded by time.
pub const DEFAULT_START_DAY: i64 = -96_000_000;

/// Day number of the default window end: the latest supported day.
pub const DEFAULT_END_DAY: i64 = 96_000_000;

/// Second of day of the default window end: the last second of its day.
pub const DEFAULT_END_SECS: u32 = 86_399;

/// A fatal configuration error; the run never starts after one.
#[derive(Clone, Copy, PartialEq, Eq, Structural, Debug)]
pub enum ConfigError {
    /// A device-selection pattern does not compile.
    BadIncludeDevices,
    /// A message-selection pattern does not compile.
    BadIncludeMessages,
    /// A device-exclusion pattern does not compile.
    BadExcludeDevices,
    /// A message-exclusion pattern does not compile.
    BadExcludeMessages,
    /// The configured window start is not a valid RFC 3339 date-time.
    BadStartDate,
    /// The configured window end is not a valid RFC 3339 date-time.
    BadEndDate,
    /// The window start lies after the window end.
    StartAfterEnd,
}

/// The immutable configuration of one filtering run.
pub struct Config {
    pub window: Window,
    pub include_devices: PatternSet,
    pub exclude_devices: PatternSet,
    pub include_messages: PatternSet,
    pub exclude_messages: PatternSet,
}

impl Config {
    pub open spec fn valid(self) -> bool {
        self.window.valid()
    }
}

/// The default window start: the earliest supported instant.
pub open spec fn spec_default_start() -> Timestamp {
    Timestamp { day: DEFAULT_START_DAY, secs: 0 }
}

/// The default window end: the latest supported instant.
pub open spec fn spec_default_end() -> Timestamp {
    Timestamp { day: DEFAULT_END_DAY, secs: DEFAULT_END_SECS }
}

/// The window used when neither bound is configured.
pub open spec fn spec_default_window() -> Window {
    Window { start: spec_default_start(), end: spec_default_end() }
}

/// The default window spans the whole supported range: no valid instant lies
/// outside it, so absent explicit configuration no sentence is excluded by
/// time.
pub proof fn lemma_default_window_unbounded(t: Timestamp)
    requires
        t.valid(),
    ensures
        spec_default_window().valid(),
        spec_default_window().spec_contains(t),
{
    let s = spec_default_start();
    let e = spec_default_end();
    if s.day < t.day {
        lemma_day_order(s, t);
    }
    if t.day < e.day {
        lemma_day_order(t, e);
    }
    lemma_day_order(s, e);
}

/// A configured pattern list that fails to compile.
pub open spec fn pattern_error(p: Option<Seq<Seq<char>>>) -> bool {
    configured(p) && !all_valid(p)
}

/// The window start a configuration denotes, when its text parses.
pub open spec fn spec_start_bound(start: Option<Seq<char>>) -> Option<Timestamp> {
    match start {
        None => Some(spec_default_start()),
        Some(s) => rfc3339_timestamp(s),
    }
}

/// The window end a configuration denotes, when its text parses.
pub open spec fn spec_end_bound(end: Option<Seq<char>>) -> Option<Timestamp> {
    match end {
        None => Some(spec_default_end()),
        Some(s) => rfc3339_timestamp(s),
    }
}

/// The first configuration error, in the order construction checks them, or
/// `None` when the configuration is well formed.
pub open spec fn spec_config_error(
    include_devices: Option<Seq<Seq<char>>>,
    exclude_devices: Option<Seq<Seq<char>>>,
    include_messages: Option<Seq<Seq<char>>>,
    exclude_messages: Option<Seq<Seq<char>>>,
    start: Option<Seq<char>>,
    end: Option<Seq<char>>,
) -> Option<ConfigError> {
    if pattern_error(include_devices) {
        Some(ConfigError::BadIncludeDevices)
    } else if pattern_error(include_messages) {
        Some(ConfigError::BadIncludeMessages)
    } else if pattern_error(exclude_devices) {
        Some(ConfigError::BadExcludeDevices)
    } else if pattern_error(exclude_messages) {
        Some(ConfigError::BadExcludeMessages)
    } else if spec_start_bound(start) is None {
        Some(ConfigError::BadStartDate)
    } else if spec_end_bound(end) is None {
        Some(ConfigError::BadEndDate)
    } else if spec_start_bound(start).unwrap().as_secs() > spec_end_bound(
        end,
    ).unwrap().as_secs() {
        Some(ConfigError::StartAfterEnd)
    } else {
        None
    }
}

/// The pattern set an include-axis configuration denotes.
pub open spec fn include_set_for(p: Option<Seq<Seq<char>>>, s: PatternSet) -> bool {
    if configured(p) {
        s matches PatternSet::AnyOf(ms) && pattern_views(ms@) == p.unwrap()
    } else {
        s is MatchAll
    }
}

/// The pattern set an exclude-axis configuration denotes.
pub open spec fn exclude_set_for(p: Option<Seq<Seq<char>>>, s: PatternSet) -> bool {
    if configured(p) {
        s matches PatternSet::AnyOf(ms) && pattern_views(ms@) == p.unwrap()
    } else {
        s is MatchEmptyOnly
    }
}

impl Config {
    /// Builds the configuration of a run. Fails with the first configuration
    /// error, in the order the fields are checked; on success the window
    /// holds the configured or default bounds and each axis holds the
    /// configured pattern list or its default.
    pub fn new(
        include_devices: &Option<Vec<String>>,
        exclude_devices: &Option<Vec<String>>,
        include_messages: &Option<Vec<String>>,
        exclude_messages: &Option<Vec<String>>,
        start_date: &Option<String>,
        end_date: &Option<String>,
    ) -> (r: Result<Config, ConfigError>)
        ensures
            ({
                let err = spec_config_error(
                    include_devices.deep_view(),
                    exclude_devices.deep_view(),
                    include_messages.deep_view(),
                    exclude_messages.deep_view(),
                    start_date.deep_view(),
                    end_date.deep_view(),
                );
                match r {
                    Ok(c) => {
                        &&& err is None
                        &&& c.valid()
                        &&& c.window.start == spec_start_bound(start_date.deep_view()).unwrap()
                        &&& c.window.end == spec_end_bound(end_date.deep_view()).unwrap()
                        &&& include_set_for(include_devices.deep_view(), c.include_devices)
                        &&& include_set_for(include_messages.deep_view(), c.include_messages)
                        &&& exclude_set_for(exclude_devices.deep_view(), c.exclude_devices)
                        &&& exclude_set_for(exclude_messages.deep_view(), c.exclude_messages)
                    },
                    Err(e) => err == Some(e),
                }
            }),
    {
        let inc_dev = match build_include(include_devices) {
            Some(s) => s,
            None => {
                return Err(ConfigError::BadIncludeDevices);
            },
        };
        let inc_msg = match build_include(include_messages) {
            Some(s) => s,
            None => {
                return Err(ConfigError::BadIncludeMessages);
            },
        };
        let exc_dev = match build_exclude(exclude_devices) {
            Some(s) => s,
            None => {
                return Err(ConfigError::BadExcludeDevices);
            },
        };
        let exc_msg = match build_exclude(exclude_messages) {
            Some(s) => s,
            None => {
                return Err(ConfigError::BadExcludeMessages);
            },
        };
        let start = match start_date {
            None => Timestamp { day: DEFAULT_START_DAY, secs: 0 },
            Some(s) => match parse_rfc3339(s.as_str()) {
                Some(t) => t,
                None => {
                    return Err(ConfigError::BadStartDate);
                },
            },
        };
        let end = match end_date {
            None => Timestamp { day: DEFAULT_END_DAY, secs: DEFAULT_END_SECS },
            Some(s) => match parse_rfc3339(s.as_str()) {
                Some(t) => t,
                None => {
                    return Err(ConfigError::BadEndDate);
                },
            },
        };
        if !start.le(end) {
            return Err(ConfigError::StartAfterEnd);
        }
        Ok(
            Config {
                window: Window { start, end },
                include_devices: inc_dev,
                exclude_devices: exc_dev,
                include_messages: inc_msg,
                exclude_messages: exc_msg,
            },
        )
    }
}

} // verus!
