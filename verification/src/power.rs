//! The power domain: base unit the watt.

use vstd::prelude::*;
use crate::factor::Factor;
use crate::text::{lower_seq, matches_alias};

verus! {

/// The closed set of power units.
#[derive(Clone, Copy, Debug, PartialEq, Eq, Structural)]
pub enum PowerUnit {
    Watt,
    Kilowatt,
    Horsepower,
}

/// The alias table: which power unit a lowercased token denotes.
pub open spec fn power_unit_of(t: Seq<char>) -> Option<PowerUnit> {
    if t == "w"@ || t == "watt"@ || t == "watts"@ {
        Some(PowerUnit::Watt)
    } else if t == "kw"@ || t == "kilowatt"@ || t == "kilowatts"@ {
        Some(PowerUnit::Kilowatt)
    } else if t == "hp"@ || t == "horsepower"@ {
        Some(PowerUnit::Horsepower)
    } else {
        None
    }
}

/// The exact factor of one power unit to watts. The horsepower is the
/// rounded metric value 735.5 W, written 1471/2; the rounding is part of
/// the table, kept for output compatibility.
pub open spec fn power_factor(u: PowerUnit) -> Factor {
    match u {
        PowerUnit::Watt => Factor { num: 1, den: 1, pi: false },
        PowerUnit::Kilowatt => Factor { num: 1000, den: 1, pi: false },
        PowerUnit::Horsepower => Factor { num: 1471, den: 2, pi: false },
    }
}

impl PowerUnit {
    /// The scale factor converting this unit into watts.
    pub fn to_watts(&self) -> (r: Factor)
        ensures
            r == power_factor(*self),
            r.wf(),
            !r.pi,
    {
        match self {
            PowerUnit::Watt => Factor { num: 1, den: 1, pi: false },
            PowerUnit::Kilowatt => Factor { num: 1000, den: 1, pi: false },
            PowerUnit::Horsepower => Factor { num: 1471, den: 2, pi: false },
        }
    }
}

/// Parse a power-unit symbol, case-insensitively, against the alias table.
pub fn parse_power_unit(s: &str) -> (r: Option<PowerUnit>)
    ensures
        r == power_unit_of(lower_seq(s@)),
{
    if matches_alias(s, "w") || matches_alias(s, "watt") || matches_alias(s, "watts") {
        Some(PowerUnit::Watt)
    } else if matches_alias(s, "kw") || matches_alias(s, "kilowatt") || matches_alias(s, "kilowatts") {
        Some(PowerUnit::Kilowatt)
    } else if matches_alias(s, "hp") || matches_alias(s, "horsepower") {
        Some(PowerUnit::Horsepower)
    } else {
        None
    }
}

} // verus!
