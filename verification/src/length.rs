//! The length domain: base unit the meter.

use vstd::prelude::*;
use crate::factor::Factor;
use crate::text::{lower_seq, matches_alias};

verus! {

/// The closed set of length units.
#[derive(Clone, Copy, Debug, PartialEq, Eq, Structural)]
pub enum LengthUnit {
    Millimeter,
    Centimeter,
    Decimeter,
    Meter,
    Kilometer,
    Inch,
    Foot,
    Yard,
    Rod,
    Chain,
    Furlong,
    Mile,
    NauticalMile,
    AstronomicalUnit,
    LightYear,
    Parsec,
}

/// The alias table: which length unit a lowercased token denotes.
pub open spec fn length_unit_of(t: Seq<char>) -> Option<LengthUnit> {
    if t == "mm"@ || t == "millimeter"@ || t == "millimetre"@ {
        Some(LengthUnit::Millimeter)
    } else if t == "cm"@ || t == "centimeter"@ || t == "centimetre"@ {
        Some(LengthUnit::Centimeter)
    } else if t == "dm"@ || t == "decimeter"@ || t == "decimetre"@ {
        Some(LengthUnit::Decimeter)
    } else if t == "m"@ || t == "meter"@ || t == "metre"@ {
        Some(LengthUnit::Meter)
    } else if t == "km"@ || t == "kilometer"@ || t == "kilometre"@ {
        Some(LengthUnit::Kilometer)
    } else if t == "in"@ || t == "inch"@ || t == "inches"@ {
        Some(LengthUnit::Inch)
    } else if t == "ft"@ || t == "foot"@ || t == "feet"@ {
        Some(LengthUnit::Foot)
    } else if t == "yd"@ || t == "yard"@ || t == "yards"@ {
        Some(LengthUnit::Yard)
    } else if t == "rod"@ || t == "perch"@ || t == "pole"@ || t == "lug"@ {
        Some(LengthUnit::Rod)
    } else if t == "ch"@ || t == "chain"@ {
        Some(LengthUnit::Chain)
    } else if t == "fur"@ || t == "furlong"@ {
        Some(LengthUnit::Furlong)
    } else if t == "mi"@ || t == "mile"@ || t == "miles"@ {
        Some(LengthUnit::Mile)
    } else if t == "nm"@ || t == "nauticalmile"@ {
        Some(LengthUnit::NauticalMile)
    } else if t == "au"@ || t == "astronomicalunit"@ {
        Some(LengthUnit::AstronomicalUnit)
    } else if t == "ly"@ || t == "lightyear"@ {
        Some(LengthUnit::LightYear)
    } else if t == "pc"@ || t == "parsec"@ {
        Some(LengthUnit::Parsec)
    } else {
        None
    }
}

/// The exact factor of one length unit to meters (a mile is 1609.344 m,
/// written 1609344/1000, and so on).
pub open spec fn length_factor(u: LengthUnit) -> Factor {
    match u {
        LengthUnit::Millimeter => Factor { num: 1, den: 1000, pi: false },
        LengthUnit::Centimeter => Factor { num: 1, den: 100, pi: false },
        LengthUnit::Decimeter => Factor { num: 1, den: 10, pi: false },
        LengthUnit::Meter => Factor { num: 1, den: 1, pi: false },
        LengthUnit::Kilometer => Factor { num: 1000, den: 1, pi: false },
        LengthUnit::Inch => Factor { num: 254, den: 10000, pi: false },
        LengthUnit::Foot => Factor { num: 3048, den: 10000, pi: false },
        LengthUnit::Yard => Factor { num: 9144, den: 10000, pi: false },
        LengthUnit::Rod => Factor { num: 50292, den: 10000, pi: false },
        LengthUnit::Chain => Factor { num: 201168, den: 10000, pi: false },
        LengthUnit::Furlong => Factor { num: 201168, den: 1000, pi: false },
        LengthUnit::Mile => Factor { num: 1609344, den: 1000, pi: false },
        LengthUnit::NauticalMile => Factor { num: 1852, den: 1, pi: false },
        LengthUnit::AstronomicalUnit => Factor { num: 149597870700, den: 1, pi: false },
        LengthUnit::LightYear => Factor { num: 9460700000000000, den: 1, pi: false },
        LengthUnit::Parsec => Factor { num: 30857000000000000, den: 1, pi: false },
    }
}

impl LengthUnit {
    /// The scale factor converting this unit into meters.
    pub fn to_meters_factor(&self) -> (r: Factor)
        ensures
            r == length_factor(*self),
            r.wf(),
            !r.pi,
    {
        match self {
            LengthUnit::Millimeter => Factor { num: 1, den: 1000, pi: false },
            LengthUnit::Centimeter => Factor { num: 1, den: 100, pi: false },
            LengthUnit::Decimeter => Factor { num: 1, den: 10, pi: false },
            LengthUnit::Meter => Factor { num: 1, den: 1, pi: false },
            LengthUnit::Kilometer => Factor { num: 1000, den: 1, pi: false },
            LengthUnit::Inch => Factor { num: 254, den: 10000, pi: false },
            LengthUnit::Foot => Factor { num: 3048, den: 10000, pi: false },
            LengthUnit::Yard => Factor { num: 9144, den: 10000, pi: false },
            LengthUnit::Rod => Factor { num: 50292, den: 10000, pi: false },
            LengthUnit::Chain => Factor { num: 201168, den: 10000, pi: false },
            LengthUnit::Furlong => Factor { num: 201168, den: 1000, pi: false },
            LengthUnit::Mile => Factor { num: 1609344, den: 1000, pi: false },
            LengthUnit::NauticalMile => Factor { num: 1852, den: 1, pi: false },
            LengthUnit::AstronomicalUnit => Factor { num: 149597870700, den: 1, pi: false },
            LengthUnit::LightYear => Factor { num: 9460700000000000, den: 1, pi: false },
            LengthUnit::Parsec => Factor { num: 30857000000000000, den: 1, pi: false },
        }
    }
}

/// Parse a length-unit symbol, case-insensitively, against the alias table.
pub fn parse_length_unit(s: &str) -> (r: Option<LengthUnit>)
    ensures
        r == length_unit_of(lower_seq(s@)),
{
    if matches_alias(s, "mm") || matches_alias(s, "millimeter") || matches_alias(s, "millimetre") {
        Some(LengthUnit::Millimeter)
    } else if matches_alias(s, "cm") || matches_alias(s, "centimeter") || matches_alias(s, "centimetre") {
        Some(LengthUnit::Centimeter)
    } else if matches_alias(s, "dm") || matches_alias(s, "decimeter") || matches_alias(s, "decimetre") {
        Some(LengthUnit::Decimeter)
    } else if matches_alias(s, "m") || matches_alias(s, "meter") || matches_alias(s, "metre") {
        Some(LengthUnit::Meter)
    } else if matches_alias(s, "km") || matches_alias(s, "kilometer") || matches_alias(s, "kilometre") {
        Some(LengthUnit::Kilometer)
    } else if matches_alias(s, "in") || matches_alias(s, "inch") || matches_alias(s, "inches") {
        Some(LengthUnit::Inch)
    } else if matches_alias(s, "ft") || matches_alias(s, "foot") || matches_alias(s, "feet") {
        Some(LengthUnit::Foot)
    } else if matches_alias(s, "yd") || matches_alias(s, "yard") || matches_alias(s, "yards") {
        Some(LengthUnit::Yard)
    } else if matches_alias(s, "rod") || matches_alias(s, "perch") || matches_alias(s, "pole") || matches_alias(s, "lug") {
        Some(LengthUnit::Rod)
    } else if matches_alias(s, "ch") || matches_alias(s, "chain") {
        Some(LengthUnit::Chain)
    } else if matches_alias(s, "fur") || matches_alias(s, "furlong") {
        Some(LengthUnit::Furlong)
    } else if matches_alias(s, "mi") || matches_alias(s, "mile") || matches_alias(s, "miles") {
        Some(LengthUnit::Mile)
    } else if matches_alias(s, "nm") || matches_alias(s, "nauticalmile") {
        Some(LengthUnit::NauticalMile)
    } else if matches_alias(s, "au") || matches_alias(s, "astronomicalunit") {
        Some(LengthUnit::AstronomicalUnit)
    } else if matches_alias(s, "ly") || matches_alias(s, "lightyear") {
        Some(LengthUnit::LightYear)
    } else if matches_alias(s, "pc") || matches_alias(s, "parsec") {
        Some(LengthUnit::Parsec)
    } else {
        None
    }
}

} // verus!
