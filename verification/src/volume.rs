//! The volume domain: base unit the milliliter.

use vstd::prelude::*;
use crate::factor::Factor;
use crate::text::{lower_seq, matches_alias};

verus! {

/// The closed set of volume units.
#[derive(Clone, Copy, Debug, PartialEq, Eq, Structural)]
pub enum VolumeUnit {
    CubicMeter,
    Liter,
    Milliliter,
    Centiliter,
    Deciliter,
    Hectoliter,
    Teaspoon,
    Tablespoon,
    FluidOunce,
    Cup,
    Gill,
    Pint,
    Quart,
    Gallon,
    AcreFoot,
    CubicInch,
    CubicFoot,
    CubicYard,
}

/// The alias table: which volume unit a lowercased token denotes.
pub open spec fn volume_unit_of(t: Seq<char>) -> Option<VolumeUnit> {
    if t == "m3"@ || t == "cubicmeter"@ || t == "cubicmeters"@ {
        Some(VolumeUnit::CubicMeter)
    } else if t == "l"@ || t == "liter"@ || t == "litre"@ {
        Some(VolumeUnit::Liter)
    } else if t == "ml"@ || t == "milliliter"@ || t == "millilitre"@ {
        Some(VolumeUnit::Milliliter)
    } else if t == "cl"@ || t == "centiliter"@ {
        Some(VolumeUnit::Centiliter)
    } else if t == "dl"@ || t == "deciliter"@ {
        Some(VolumeUnit::Deciliter)
    } else if t == "hl"@ || t == "hectoliter"@ {
        Some(VolumeUnit::Hectoliter)
    } else if t == "tsp"@ || t == "teaspoon"@ {
        Some(VolumeUnit::Teaspoon)
    } else if t == "tbsp"@ || t == "tablespoon"@ {
        Some(VolumeUnit::Tablespoon)
    } else if t == "floz"@ || t == "fl oz"@ {
        Some(VolumeUnit::FluidOunce)
    } else if t == "cup"@ {
        Some(VolumeUnit::Cup)
    } else if t == "gill"@ {
        Some(VolumeUnit::Gill)
    } else if t == "pt"@ || t == "pint"@ {
        Some(VolumeUnit::Pint)
    } else if t == "qt"@ || t == "quart"@ {
        Some(VolumeUnit::Quart)
    } else if t == "gal"@ || t == "gallon"@ {
        Some(VolumeUnit::Gallon)
    } else if t == "acreft"@ || t == "acre-ft"@ {
        Some(VolumeUnit::AcreFoot)
    } else if t == "in3"@ || t == "cuin"@ || t == "cubicinch"@ {
        Some(VolumeUnit::CubicInch)
    } else if t == "ft3"@ || t == "cuft"@ || t == "cubicfoot"@ {
        Some(VolumeUnit::CubicFoot)
    } else if t == "yd3"@ || t == "cuyd"@ || t == "cubicyard"@ {
        Some(VolumeUnit::CubicYard)
    } else {
        None
    }
}

/// The exact factor of one volume unit to milliliters (a gallon is
/// 3785.41 mL, written 378541/100, and so on).
pub open spec fn volume_factor(u: VolumeUnit) -> Factor {
    match u {
        VolumeUnit::CubicMeter => Factor { num: 1000000, den: 1, pi: false },
        VolumeUnit::Liter => Factor { num: 1000, den: 1, pi: false },
        VolumeUnit::Milliliter => Factor { num: 1, den: 1, pi: false },
        VolumeUnit::Centiliter => Factor { num: 10, den: 1, pi: false },
        VolumeUnit::Deciliter => Factor { num: 100, den: 1, pi: false },
        VolumeUnit::Hectoliter => Factor { num: 100000, den: 1, pi: false },
        VolumeUnit::Teaspoon => Factor { num: 492892, den: 100000, pi: false },
        VolumeUnit::Tablespoon => Factor { num: 147868, den: 10000, pi: false },
        VolumeUnit::FluidOunce => Factor { num: 295735, den: 10000, pi: false },
        VolumeUnit::Cup => Factor { num: 236588, den: 1000, pi: false },
        VolumeUnit::Gill => Factor { num: 118294, den: 1000, pi: false },
        VolumeUnit::Pint => Factor { num: 473176, den: 1000, pi: false },
        VolumeUnit::Quart => Factor { num: 946353, den: 1000, pi: false },
        VolumeUnit::Gallon => Factor { num: 378541, den: 100, pi: false },
        VolumeUnit::AcreFoot => Factor { num: 1233480000, den: 1, pi: false },
        VolumeUnit::CubicInch => Factor { num: 163871, den: 10000, pi: false },
        VolumeUnit::CubicFoot => Factor { num: 283168, den: 10, pi: false },
        VolumeUnit::CubicYard => Factor { num: 764555, den: 1, pi: false },
    }
}

impl VolumeUnit {
    /// The scale factor converting this unit into milliliters.
    pub fn to_milliliters(&self) -> (r: Factor)
        ensures
            r == volume_factor(*self),
            r.wf(),
            !r.pi,
    {
        match self {
            VolumeUnit::CubicMeter => Factor { num: 1000000, den: 1, pi: false },
            VolumeUnit::Liter => Factor { num: 1000, den: 1, pi: false },
            VolumeUnit::Milliliter => Factor { num: 1, den: 1, pi: false },
            VolumeUnit::Centiliter => Factor { num: 10, den: 1, pi: false },
            VolumeUnit::Deciliter => Factor { num: 100, den: 1, pi: false },
            VolumeUnit::Hectoliter => Factor { num: 100000, den: 1, pi: false },
            VolumeUnit::Teaspoon => Factor { num: 492892, den: 100000, pi: false },
            VolumeUnit::Tablespoon => Factor { num: 147868, den: 10000, pi: false },
            VolumeUnit::FluidOunce => Factor { num: 295735, den: 10000, pi: false },
            VolumeUnit::Cup => Factor { num: 236588, den: 1000, pi: false },
            VolumeUnit::Gill => Factor { num: 118294, den: 1000, pi: false },
            VolumeUnit::Pint => Factor { num: 473176, den: 1000, pi: false },
            VolumeUnit::Quart => Factor { num: 946353, den: 1000, pi: false },
            VolumeUnit::Gallon => Factor { num: 378541, den: 100, pi: false },
            VolumeUnit::AcreFoot => Factor { num: 1233480000, den: 1, pi: false },
            VolumeUnit::CubicInch => Factor { num: 163871, den: 10000, pi: false },
            VolumeUnit::CubicFoot => Factor { num: 283168, den: 10, pi: false },
            VolumeUnit::CubicYard => Factor { num: 764555, den: 1, pi: false },
        }
    }
}

/// Parse a volume-unit symbol, case-insensitively, against the alias table.
pub fn parse_volume_unit(s: &str) -> (r: Option<VolumeUnit>)
    ensures
        r == volume_unit_of(lower_seq(s@)),
{
    if matches_alias(s, "m3") || matches_alias(s, "cubicmeter") || matches_alias(s, "cubicmeters") {
        Some(VolumeUnit::CubicMeter)
    } else if matches_alias(s, "l") || matches_alias(s, "liter") || matches_alias(s, "litre") {
        Some(VolumeUnit::Liter)
    } else if matches_alias(s, "ml") || matches_alias(s, "milliliter") || matches_alias(s, "millilitre") {
        Some(VolumeUnit::Milliliter)
    } else if matches_alias(s, "cl") || matches_alias(s, "centiliter") {
        Some(VolumeUnit::Centiliter)
    } else if matches_alias(s, "dl") || matches_alias(s, "deciliter") {
        Some(VolumeUnit::Deciliter)
    } else if matches_alias(s, "hl") || matches_alias(s, "hectoliter") {
        Some(VolumeUnit::Hectoliter)
    } else if matches_alias(s, "tsp") || matches_alias(s, "teaspoon") {
        Some(VolumeUnit::Teaspoon)
    } else if matches_alias(s, "tbsp") || matches_alias(s, "tablespoon") {
        Some(VolumeUnit::Tablespoon)
    } else if matches_alias(s, "floz") || matches_alias(s, "fl oz") {
        Some(VolumeUnit::FluidOunce)
    } else if matches_alias(s, "cup") {
        Some(VolumeUnit::Cup)
    } else if matches_alias(s, "gill") {
        Some(VolumeUnit::Gill)
    } else if matches_alias(s, "pt") || matches_alias(s, "pint") {
        Some(VolumeUnit::Pint)
    } else if matches_alias(s, "qt") || matches_alias(s, "quart") {
        Some(VolumeUnit::Quart)
    } else if matches_alias(s, "gal") || matches_alias(s, "gallon") {
        Some(VolumeUnit::Gallon)
    } else if matches_alias(s, "acreft") || matches_alias(s, "acre-ft") {
        Some(VolumeUnit::AcreFoot)
    } else if matches_alias(s, "in3") || matches_alias(s, "cuin") || matches_alias(s, "cubicinch") {
        Some(VolumeUnit::CubicInch)
    } else if matches_alias(s, "ft3") || matches_alias(s, "cuft") || matches_alias(s, "cubicfoot") {
        Some(VolumeUnit::CubicFoot)
    } else if matches_alias(s, "yd3") || matches_alias(s, "cuyd") || matches_alias(s, "cubicyard") {
        Some(VolumeUnit::CubicYard)
    } else {
        None
    }
}

} // verus!
