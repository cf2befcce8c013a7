//! The time domain: base unit the second.

use vstd::prelude::*;
use crate::factor::Factor;
use crate::text::{lower_seq, matches_alias};

verus! {

/// The closed set of time units.
#[derive(Clone, Copy, Debug, PartialEq, Eq, Structural)]
pub enum TimeUnit {
    Second,
    Minute,
    Hour,
    Day,
    Year,
}

/// The alias table: which time unit a lowercased token denotes.
pub open spec fn time_unit_of(t: Seq<char>) -> Option<TimeUnit> {
    if t == "s"@ || t == "sec"@ || t == "second"@ || t == "seconds"@ {
        Some(TimeUnit::Second)
    } else if t == "min"@ || t == "minute"@ || t == "minutes"@ {
        Some(TimeUnit::Minute)
    } else if t == "h"@ || t == "hr"@ || t == "hour"@ || t == "hours"@ {
        Some(TimeUnit::Hour)
    } else if t == "d"@ || t == "day"@ || t == "days"@ {
        Some(TimeUnit::Day)
    } else if t == "a"@ || t == "yr"@ || t == "year"@ || t == "years"@ {
        Some(TimeUnit::Year)
    } else {
        None
    }
}

/// The exact factor of one time unit to seconds (the year is the 365.24-day
/// value 31556736 s).
pub open spec fn time_factor(u: TimeUnit) -> Factor {
    match u {
        TimeUnit::Second => Factor { num: 1, den: 1, pi: false },
        TimeUnit::Minute => Factor { num: 60, den: 1, pi: false },
        TimeUnit::Hour => Factor { num: 3600, den: 1, pi: false },
        TimeUnit::Day => Factor { num: 86400, den: 1, pi: false },
        TimeUnit::Year => Factor { num: 31556736, den: 1, pi: false },
    }
}

impl TimeUnit {
    /// The scale factor converting this unit into seconds.
    pub fn to_seconds(&self) -> (r: Factor)
        ensures
            r == time_factor(*self),
            r.wf(),
            !r.pi,
    {
        match self {
            TimeUnit::Second => Factor { num: 1, den: 1, pi: false },
            TimeUnit::Minute => Factor { num: 60, den: 1, pi: false },
            TimeUnit::Hour => Factor { num: 3600, den: 1, pi: false },
            TimeUnit::Day => Factor { num: 86400, den: 1, pi: false },
            TimeUnit::Year => Factor { num: 31556736, den: 1, pi: false },
        }
    }
}

/// Parse a time-unit symbol, case-insensitively, against the alias table.
pub fn parse_time_unit(s: &str) -> (r: Option<TimeUnit>)
    ensures
        r == time_unit_of(lower_seq(s@)),
{
    if matches_alias(s, "s") || matches_alias(s, "sec") || matches_alias(s, "second") || matches_alias(s, "seconds") {
        Some(TimeUnit::Second)
    } else if matches_alias(s, "min") || matches_alias(s, "minute") || matches_alias(s, "minutes") {
        Some(TimeUnit::Minute)
    } else if matches_alias(s, "h") || matches_alias(s, "hr") || matches_alias(s, "hour") || matches_alias(s, "hours") {
        Some(TimeUnit::Hour)
    } else if matches_alias(s, "d") || matches_alias(s, "day") || matches_alias(s, "days") {
        Some(TimeUnit::Day)
    } else if matches_alias(s, "a") || matches_alias(s, "yr") || matches_alias(s, "year") || matches_alias(s, "years") {
        Some(TimeUnit::Year)
    } else {
        None
    }
}

} // verus!
