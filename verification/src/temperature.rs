//! The temperature domain: affine, not multiplicative.
//!
//! Celsius, Fahrenheit and Kelvin relate by an offset as well as a scale, so
//! each unit carries an affine map to and from Celsius instead of a factor:
//! Fahrenheit maps to Celsius as (v - 32) * 5/9, Kelvin as v - 273.15
//! (the offset 273.15 is the exact rational 5463/20), Celsius unchanged.
//! No bounds are checked: values below absolute zero pass through.

use vstd::prelude::*;
use crate::factor::AffineMap;
use crate::text::{lower_seq, matches_alias};

verus! {

/// The closed set of temperature units.
#[derive(Clone, Copy, Debug, PartialEq, Eq, Structural)]
pub enum TempUnit {
    Celsius,
    Fahrenheit,
    Kelvin,
}

/// The alias table: which temperature unit a lowercased token denotes.
pub open spec fn temp_unit_of(t: Seq<char>) -> Option<TempUnit> {
    if t == "c"@ || t == "celsius"@ {
        Some(TempUnit::Celsius)
    } else if t == "f"@ || t == "fahrenheit"@ {
        Some(TempUnit::Fahrenheit)
    } else if t == "k"@ || t == "kelvin"@ {
        Some(TempUnit::Kelvin)
    } else {
        None
    }
}

/// The exact affine map of one temperature unit to and from Celsius.
pub open spec fn temp_map(u: TempUnit) -> AffineMap {
    match u {
        TempUnit::Celsius => AffineMap { off_num: 0, off_den: 1, scale_num: 1, scale_den: 1 },
        TempUnit::Fahrenheit => AffineMap { off_num: 32, off_den: 1, scale_num: 5, scale_den: 9 },
        TempUnit::Kelvin => AffineMap { off_num: 5463, off_den: 20, scale_num: 1, scale_den: 1 },
    }
}

impl TempUnit {
    /// The affine map carrying this unit to and from Celsius.
    pub fn celsius_map(&self) -> (r: AffineMap)
        ensures
            r == temp_map(*self),
            r.wf(),
    {
        match self {
            TempUnit::Celsius => AffineMap { off_num: 0, off_den: 1, scale_num: 1, scale_den: 1 },
            TempUnit::Fahrenheit => AffineMap { off_num: 32, off_den: 1, scale_num: 5, scale_den: 9 },
            TempUnit::Kelvin => AffineMap { off_num: 5463, off_den: 20, scale_num: 1, scale_den: 1 },
        }
    }
}

/// Parse a temperature-unit symbol, case-insensitively, against the alias
/// table.
pub fn parse_temp_unit(s: &str) -> (r: Option<TempUnit>)
    ensures
        r == temp_unit_of(lower_seq(s@)),
{
    if matches_alias(s, "c") || matches_alias(s, "celsius") {
        Some(TempUnit::Celsius)
    } else if matches_alias(s, "f") || matches_alias(s, "fahrenheit") {
        Some(TempUnit::Fahrenheit)
    } else if matches_alias(s, "k") || matches_alias(s, "kelvin") {
        Some(TempUnit::Kelvin)
    } else {
        None
    }
}

} // verus!
