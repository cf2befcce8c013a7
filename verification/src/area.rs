//! The area domain: base unit the square meter.

use vstd::prelude::*;
use crate::factor::Factor;
use crate::text::{lower_seq, matches_alias};

verus! {

/// The closed set of area units.
#[derive(Clone, Copy, Debug, PartialEq, Eq, Structural)]
pub enum AreaUnit {
    SquareMeter,
    Hectare,
    Acre,
    SquareInch,
    SquareFoot,
    SquareYard,
    SquareMile,
}

/// The alias table: which area unit a lowercased token denotes.
pub open spec fn area_unit_of(t: Seq<char>) -> Option<AreaUnit> {
    if t == "m2"@ || t == "sqm"@ || t == "squaremeter"@ || t == "squaremeters"@ {
        Some(AreaUnit::SquareMeter)
    } else if t == "ha"@ || t == "hectare"@ || t == "hectares"@ {
        Some(AreaUnit::Hectare)
    } else if t == "acre"@ || t == "acres"@ {
        Some(AreaUnit::Acre)
    } else if t == "in2"@ || t == "sqin"@ || t == "squareinch"@ || t == "squareinches"@ {
        Some(AreaUnit::SquareInch)
    } else if t == "ft2"@ || t == "sqft"@ || t == "squarefoot"@ || t == "squarefeet"@ {
        Some(AreaUnit::SquareFoot)
    } else if t == "yd2"@ || t == "sqyd"@ || t == "squareyard"@ || t == "squareyards"@ {
        Some(AreaUnit::SquareYard)
    } else if t == "mi2"@ || t == "sqmi"@ || t == "squaremile"@ || t == "squaremiles"@ {
        Some(AreaUnit::SquareMile)
    } else {
        None
    }
}

/// The exact factor of one area unit to square meters (an acre is
/// 4046.8564224 square meters, written 40468564224/10000000, and so on).
pub open spec fn area_factor(u: AreaUnit) -> Factor {
    match u {
        AreaUnit::SquareMeter => Factor { num: 1, den: 1, pi: false },
        AreaUnit::Hectare => Factor { num: 10000, den: 1, pi: false },
        AreaUnit::Acre => Factor { num: 40468564224, den: 10000000, pi: false },
        AreaUnit::SquareInch => Factor { num: 64516, den: 100000000, pi: false },
        AreaUnit::SquareFoot => Factor { num: 9290304, den: 100000000, pi: false },
        AreaUnit::SquareYard => Factor { num: 83612736, den: 100000000, pi: false },
        AreaUnit::SquareMile => Factor { num: 2589988110336, den: 1000000, pi: false },
    }
}

impl AreaUnit {
    /// The scale factor converting this unit into square meters.
    pub fn to_square_meters_factor(&self) -> (r: Factor)
        ensures
            r == area_factor(*self),
            r.wf(),
            !r.pi,
    {
        match self {
            AreaUnit::SquareMeter => Factor { num: 1, den: 1, pi: false },
            AreaUnit::Hectare => Factor { num: 10000, den: 1, pi: false },
            AreaUnit::Acre => Factor { num: 40468564224, den: 10000000, pi: false },
            AreaUnit::SquareInch => Factor { num: 64516, den: 100000000, pi: false },
            AreaUnit::SquareFoot => Factor { num: 9290304, den: 100000000, pi: false },
            AreaUnit::SquareYard => Factor { num: 83612736, den: 100000000, pi: false },
            AreaUnit::SquareMile => Factor { num: 2589988110336, den: 1000000, pi: false },
        }
    }
}

/// Parse an area-unit symbol, case-insensitively, against the alias table.
pub fn parse_area_unit(s: &str) -> (r: Option<AreaUnit>)
    ensures
        r == area_unit_of(lower_seq(s@)),
{
    if matches_alias(s, "m2") || matches_alias(s, "sqm") || matches_alias(s, "squaremeter") || matches_alias(s, "squaremeters") {
        Some(AreaUnit::SquareMeter)
    } else if matches_alias(s, "ha") || matches_alias(s, "hectare") || matches_alias(s, "hectares") {
        Some(AreaUnit::Hectare)
    } else if matches_alias(s, "acre") || matches_alias(s, "acres") {
        Some(AreaUnit::Acre)
    } else if matches_alias(s, "in2") || matches_alias(s, "sqin") || matches_alias(s, "squareinch") || matches_alias(s, "squareinches") {
        Some(AreaUnit::SquareInch)
    } else if matches_alias(s, "ft2") || matches_alias(s, "sqft") || matches_alias(s, "squarefoot") || matches_alias(s, "squarefeet") {
        Some(AreaUnit::SquareFoot)
    } else if matches_alias(s, "yd2") || matches_alias(s, "sqyd") || matches_alias(s, "squareyard") || matches_alias(s, "squareyards") {
        Some(AreaUnit::SquareYard)
    } else if matches_alias(s, "mi2") || matches_alias(s, "sqmi") || matches_alias(s, "squaremile") || matches_alias(s, "squaremiles") {
        Some(AreaUnit::SquareMile)
    } else {
        None
    }
}

} // verus!
