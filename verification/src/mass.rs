//! The mass domain: base unit the gram.

use vstd::prelude::*;
use crate::factor::Factor;
use crate::text::{lower_seq, matches_alias};

verus! {

/// The closed set of mass units.
#[derive(Clone, Copy, Debug, PartialEq, Eq, Structural)]
pub enum MassUnit {
    Gram,
    Kilogram,
    Grain,
    Dram,
    Ounce,
    Pound,
    Hundredweight,
    Ton,
    Tonne,
    Slug,
}

/// The alias table: which mass unit a lowercased token denotes.
pub open spec fn mass_unit_of(t: Seq<char>) -> Option<MassUnit> {
    if t == "g"@ || t == "gram"@ || t == "grams"@ {
        Some(MassUnit::Gram)
    } else if t == "kg"@ || t == "kilogram"@ || t == "kilograms"@ {
        Some(MassUnit::Kilogram)
    } else if t == "gr"@ || t == "grain"@ || t == "grains"@ {
        Some(MassUnit::Grain)
    } else if t == "dr"@ || t == "dram"@ || t == "drams"@ {
        Some(MassUnit::Dram)
    } else if t == "oz"@ || t == "ounce"@ || t == "ounces"@ {
        Some(MassUnit::Ounce)
    } else if t == "lb"@ || t == "pound"@ || t == "pounds"@ {
        Some(MassUnit::Pound)
    } else if t == "cwt"@ || t == "hundredweight"@ {
        Some(MassUnit::Hundredweight)
    } else if t == "ton"@ {
        Some(MassUnit::Ton)
    } else if t == "t"@ || t == "tonne"@ || t == "metricton"@ {
        Some(MassUnit::Tonne)
    } else if t == "slug"@ {
        Some(MassUnit::Slug)
    } else {
        None
    }
}

/// The exact factor of one mass unit to grams (a pound is 453.59237 g,
/// written 45359237/100000, and so on).
pub open spec fn mass_factor(u: MassUnit) -> Factor {
    match u {
        MassUnit::Gram => Factor { num: 1, den: 1, pi: false },
        MassUnit::Kilogram => Factor { num: 1000, den: 1, pi: false },
        MassUnit::Grain => Factor { num: 6479891, den: 100000000, pi: false },
        MassUnit::Dram => Factor { num: 1771845195, den: 1000000000, pi: false },
        MassUnit::Ounce => Factor { num: 28349523125, den: 1000000000, pi: false },
        MassUnit::Pound => Factor { num: 45359237, den: 100000, pi: false },
        MassUnit::Hundredweight => Factor { num: 45359237, den: 1000, pi: false },
        MassUnit::Ton => Factor { num: 90718474, den: 100, pi: false },
        MassUnit::Tonne => Factor { num: 1000000, den: 1, pi: false },
        MassUnit::Slug => Factor { num: 14593903, den: 1000, pi: false },
    }
}

impl MassUnit {
    /// The scale factor converting this unit into grams.
    pub fn to_grams(&self) -> (r: Factor)
        ensures
            r == mass_factor(*self),
            r.wf(),
            !r.pi,
    {
        match self {
            MassUnit::Gram => Factor { num: 1, den: 1, pi: false },
            MassUnit::Kilogram => Factor { num: 1000, den: 1, pi: false },
            MassUnit::Grain => Factor { num: 6479891, den: 100000000, pi: false },
            MassUnit::Dram => Factor { num: 1771845195, den: 1000000000, pi: false },
            MassUnit::Ounce => Factor { num: 28349523125, den: 1000000000, pi: false },
            MassUnit::Pound => Factor { num: 45359237, den: 100000, pi: false },
            MassUnit::Hundredweight => Factor { num: 45359237, den: 1000, pi: false },
            MassUnit::Ton => Factor { num: 90718474, den: 100, pi: false },
            MassUnit::Tonne => Factor { num: 1000000, den: 1, pi: false },
            MassUnit::Slug => Factor { num: 14593903, den: 1000, pi: false },
        }
    }
}

/// Parse a mass-unit symbol, case-insensitively, against the alias table.
pub fn parse_mass_unit(s: &str) -> (r: Option<MassUnit>)
    ensures
        r == mass_unit_of(lower_seq(s@)),
{
    if matches_alias(s, "g") || matches_alias(s, "gram") || matches_alias(s, "grams") {
        Some(MassUnit::Gram)
    } else if matches_alias(s, "kg") || matches_alias(s, "kilogram") || matches_alias(s, "kilograms") {
        Some(MassUnit::Kilogram)
    } else if matches_alias(s, "gr") || matches_alias(s, "grain") || matches_alias(s, "grains") {
        Some(MassUnit::Grain)
    } else if matches_alias(s, "dr") || matches_alias(s, "dram") || matches_alias(s, "drams") {
        Some(MassUnit::Dram)
    } else if matches_alias(s, "oz") || matches_alias(s, "ounce") || matches_alias(s, "ounces") {
        Some(MassUnit::Ounce)
    } else if matches_alias(s, "lb") || matches_alias(s, "pound") || matches_alias(s, "pounds") {
        Some(MassUnit::Pound)
    } else if matches_alias(s, "cwt") || matches_alias(s, "hundredweight") {
        Some(MassUnit::Hundredweight)
    } else if matches_alias(s, "ton") {
        Some(MassUnit::Ton)
    } else if matches_alias(s, "t") || matches_alias(s, "tonne") || matches_alias(s, "metricton") {
        Some(MassUnit::Tonne)
    } else if matches_alias(s, "slug") {
        Some(MassUnit::Slug)
    } else {
        None
    }
}

} // verus!
