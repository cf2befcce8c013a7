//! The domain dispatcher.
//!
//! Given the two raw unit symbols of a request, the dispatcher tries the
//! eight domains in a fixed priority order — length, temperature, area,
//! volume, angle, time, mass, power — and the first domain in which both
//! symbols parse is selected. If no single domain parses both (including
//! the case where each symbol belongs to a different domain), the request
//! is rejected; there is no partial or cross-domain conversion.

use vstd::prelude::*;
use crate::angle::{AngleUnit, angle_factor, angle_unit_of, parse_angle_unit};
use crate::area::{AreaUnit, area_factor, area_unit_of, parse_area_unit};
use crate::factor::{AffineMap, Factor};
use crate::length::{LengthUnit, length_factor, length_unit_of, parse_length_unit};
use crate::mass::{MassUnit, mass_factor, mass_unit_of, parse_mass_unit};
use crate::power::{PowerUnit, power_factor, power_unit_of, parse_power_unit};
use crate::temperature::{TempUnit, parse_temp_unit, temp_map, temp_unit_of};
use crate::text::lower_seq;
use crate::time::{TimeUnit, parse_time_unit, time_factor, time_unit_of};
use crate::volume::{VolumeUnit, parse_volume_unit, volume_factor, volume_unit_of};

verus! {

/// The eight quantity domains, in the dispatcher's priority order.
#[derive(Clone, Copy, Debug, PartialEq, Eq, Structural)]
pub enum Domain {
    Length,
    Temperature,
    Area,
    Volume,
    Angle,
    Time,
    Mass,
    Power,
}

/// Whether a lowercased token names a unit of the given domain.
pub open spec fn parses_in(t: Seq<char>, d: Domain) -> bool {
    match d {
        Domain::Length => length_unit_of(t) is Some,
        Domain::Temperature => temp_unit_of(t) is Some,
        Domain::Area => area_unit_of(t) is Some,
        Domain::Volume => volume_unit_of(t) is Some,
        Domain::Angle => angle_unit_of(t) is Some,
        Domain::Time => time_unit_of(t) is Some,
        Domain::Mass => mass_unit_of(t) is Some,
        Domain::Power => power_unit_of(t) is Some,
    }
}

/// Why a conversion request fails: no single domain parses both symbols.
#[derive(Clone, Copy, Debug, PartialEq, Eq, Structural)]
pub enum ConversionError {
    UnrecognizedOrIncompatibleUnits,
}

/// Two units of one domain: what the dispatcher resolves a symbol pair to.
#[derive(Clone, Copy, Debug, PartialEq, Eq, Structural)]
pub enum UnitPair {
    Length(LengthUnit, LengthUnit),
    Temperature(TempUnit, TempUnit),
    Area(AreaUnit, AreaUnit),
    Volume(VolumeUnit, VolumeUnit),
    Angle(AngleUnit, AngleUnit),
    Time(TimeUnit, TimeUnit),
    Mass(MassUnit, MassUnit),
    Power(PowerUnit, PowerUnit),
}

/// The dispatch policy over lowercased tokens: the first domain, in the
/// fixed priority order, that parses both tokens wins; the order is part
/// of the interface and must not change.
pub open spec fn resolve_spec(f: Seq<char>, t: Seq<char>) -> Result<UnitPair, ConversionError> {
    if length_unit_of(f) is Some && length_unit_of(t) is Some {
        Ok(UnitPair::Length(length_unit_of(f)->Some_0, length_unit_of(t)->Some_0))
    } else if temp_unit_of(f) is Some && temp_unit_of(t) is Some {
        Ok(UnitPair::Temperature(temp_unit_of(f)->Some_0, temp_unit_of(t)->Some_0))
    } else if area_unit_of(f) is Some && area_unit_of(t) is Some {
        Ok(UnitPair::Area(area_unit_of(f)->Some_0, area_unit_of(t)->Some_0))
    } else if volume_unit_of(f) is Some && volume_unit_of(t) is Some {
        Ok(UnitPair::Volume(volume_unit_of(f)->Some_0, volume_unit_of(t)->Some_0))
    } else if angle_unit_of(f) is Some && angle_unit_of(t) is Some {
        Ok(UnitPair::Angle(angle_unit_of(f)->Some_0, angle_unit_of(t)->Some_0))
    } else if time_unit_of(f) is Some && time_unit_of(t) is Some {
        Ok(UnitPair::Time(time_unit_of(f)->Some_0, time_unit_of(t)->Some_0))
    } else if mass_unit_of(f) is Some && mass_unit_of(t) is Some {
        Ok(UnitPair::Mass(mass_unit_of(f)->Some_0, mass_unit_of(t)->Some_0))
    } else if power_unit_of(f) is Some && power_unit_of(t) is Some {
        Ok(UnitPair::Power(power_unit_of(f)->Some_0, power_unit_of(t)->Some_0))
    } else {
        Err(ConversionError::UnrecognizedOrIncompatibleUnits)
    }
}

/// Resolve two raw unit symbols to the single domain both belong to, under
/// the fixed priority order.
pub fn resolve_units(from: &str, to: &str) -> (r: Result<UnitPair, ConversionError>)
    ensures
        r == resolve_spec(lower_seq(from@), lower_seq(to@)),
{
    if let (Some(a), Some(b)) = (parse_length_unit(from), parse_length_unit(to)) {
        Ok(UnitPair::Length(a, b))
    } else if let (Some(a), Some(b)) = (parse_temp_unit(from), parse_temp_unit(to)) {
        Ok(UnitPair::Temperature(a, b))
    } else if let (Some(a), Some(b)) = (parse_area_unit(from), parse_area_unit(to)) {
        Ok(UnitPair::Area(a, b))
    } else if let (Some(a), Some(b)) = (parse_volume_unit(from), parse_volume_unit(to)) {
        Ok(UnitPair::Volume(a, b))
    } else if let (Some(a), Some(b)) = (parse_angle_unit(from), parse_angle_unit(to)) {
        Ok(UnitPair::Angle(a, b))
    } else if let (Some(a), Some(b)) = (parse_time_unit(from), parse_time_unit(to)) {
        Ok(UnitPair::Time(a, b))
    } else if let (Some(a), Some(b)) = (parse_mass_unit(from), parse_mass_unit(to)) {
        Ok(UnitPair::Mass(a, b))
    } else if let (Some(a), Some(b)) = (parse_power_unit(from), parse_power_unit(to)) {
        Ok(UnitPair::Power(a, b))
    } else {
        Err(ConversionError::UnrecognizedOrIncompatibleUnits)
    }
}

/// How to carry a magnitude between two resolved units: multiply by the two
/// scale factors for the seven scale-based domains, or go through Celsius by
/// the two affine maps for temperature.
#[derive(Clone, Copy, Debug, PartialEq, Eq, Structural)]
pub enum Plan {
    Scale { from: Factor, to: Factor },
    Affine { from: AffineMap, to: AffineMap },
}

/// The plan a resolved pair calls for: its domain's exact table entries.
pub open spec fn plan_spec(p: UnitPair) -> Plan {
    match p {
        UnitPair::Length(a, b) => Plan::Scale { from: length_factor(a), to: length_factor(b) },
        UnitPair::Temperature(a, b) => Plan::Affine { from: temp_map(a), to: temp_map(b) },
        UnitPair::Area(a, b) => Plan::Scale { from: area_factor(a), to: area_factor(b) },
        UnitPair::Volume(a, b) => Plan::Scale { from: volume_factor(a), to: volume_factor(b) },
        UnitPair::Angle(a, b) => Plan::Scale { from: angle_factor(a), to: angle_factor(b) },
        UnitPair::Time(a, b) => Plan::Scale { from: time_factor(a), to: time_factor(b) },
        UnitPair::Mass(a, b) => Plan::Scale { from: mass_factor(a), to: mass_factor(b) },
        UnitPair::Power(a, b) => Plan::Scale { from: power_factor(a), to: power_factor(b) },
    }
}

/// Look up the exact table entries a resolved pair converts by.
pub fn plan_for(p: &UnitPair) -> (r: Plan)
    ensures
        r == plan_spec(*p),
{
    match p {
        UnitPair::Length(a, b) => Plan::Scale { from: a.to_meters_factor(), to: b.to_meters_factor() },
        UnitPair::Temperature(a, b) => Plan::Affine { from: a.celsius_map(), to: b.celsius_map() },
        UnitPair::Area(a, b) => Plan::Scale {
            from: a.to_square_meters_factor(),
            to: b.to_square_meters_factor(),
        },
        UnitPair::Volume(a, b) => Plan::Scale { from: a.to_milliliters(), to: b.to_milliliters() },
        UnitPair::Angle(a, b) => Plan::Scale { from: a.to_radians(), to: b.to_radians() },
        UnitPair::Time(a, b) => Plan::Scale { from: a.to_seconds(), to: b.to_seconds() },
        UnitPair::Mass(a, b) => Plan::Scale { from: a.to_grams(), to: b.to_grams() },
        UnitPair::Power(a, b) => Plan::Scale { from: a.to_watts(), to: b.to_watts() },
    }
}

/// Resolve two raw unit symbols and hand back the plan for them in one
/// step: the whole engine apart from the numeric application itself.
pub fn resolve_plan(from: &str, to: &str) -> (r: Result<Plan, ConversionError>)
    ensures
        r == match resolve_spec(lower_seq(from@), lower_seq(to@)) {
            Ok(p) => Ok::<Plan, ConversionError>(plan_spec(p)),
            Err(e) => Err::<Plan, ConversionError>(e),
        },
{
    match resolve_units(from, to) {
        Ok(p) => Ok(plan_for(&p)),
        Err(e) => Err(e),
    }
}

} // verus!
