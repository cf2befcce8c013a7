//! The angle domain: base unit the radian.
//!
//! The degree factor is pi/180, so this is the one domain whose factors use
//! the `pi` flag of [`Factor`](crate::factor::Factor).

use vstd::prelude::*;
use crate::factor::Factor;
use crate::text::{lower_seq, matches_alias};

verus! {

/// The closed set of angle units.
#[derive(Clone, Copy, Debug, PartialEq, Eq, Structural)]
pub enum AngleUnit {
    Radian,
    Degree,
    Steradian,
}

/// The alias table: which angle unit a lowercased token denotes.
pub open spec fn angle_unit_of(t: Seq<char>) -> Option<AngleUnit> {
    if t == "rad"@ || t == "radian"@ || t == "radians"@ {
        Some(AngleUnit::Radian)
    } else if t == "deg"@ || t == "\u{b0}"@ || t == "degree"@ || t == "degrees"@ {
        Some(AngleUnit::Degree)
    } else if t == "sr"@ || t == "steradian"@ || t == "steradians"@ {
        Some(AngleUnit::Steradian)
    } else {
        None
    }
}

/// The exact factor of one angle unit to radians (pi/180 for the degree;
/// the steradian is passed through with factor one).
pub open spec fn angle_factor(u: AngleUnit) -> Factor {
    match u {
        AngleUnit::Radian => Factor { num: 1, den: 1, pi: false },
        AngleUnit::Degree => Factor { num: 1, den: 180, pi: true },
        AngleUnit::Steradian => Factor { num: 1, den: 1, pi: false },
    }
}

impl AngleUnit {
    /// The scale factor converting this unit into radians.
    pub fn to_radians(&self) -> (r: Factor)
        ensures
            r == angle_factor(*self),
            r.wf(),
    {
        match self {
            AngleUnit::Radian => Factor { num: 1, den: 1, pi: false },
            AngleUnit::Degree => Factor { num: 1, den: 180, pi: true },
            AngleUnit::Steradian => Factor { num: 1, den: 1, pi: false },
        }
    }
}

/// Parse an angle-unit symbol, case-insensitively, against the alias table.
pub fn parse_angle_unit(s: &str) -> (r: Option<AngleUnit>)
    ensures
        r == angle_unit_of(lower_seq(s@)),
{
    if matches_alias(s, "rad") || matches_alias(s, "radian") || matches_alias(s, "radians") {
        Some(AngleUnit::Radian)
    } else if matches_alias(s, "deg") || matches_alias(s, "\u{b0}") || matches_alias(s, "degree") || matches_alias(s, "degrees") {
        Some(AngleUnit::Degree)
    } else if matches_alias(s, "sr") || matches_alias(s, "steradian") || matches_alias(s, "steradians") {
        Some(AngleUnit::Steradian)
    } else {
        None
    }
}

} // verus!
