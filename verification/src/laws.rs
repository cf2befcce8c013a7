//! The stated laws of the engine, proved against the tables and the policy
//! in force: case-insensitive symbol lookup, exact self-conversion and
//! round trips in the exact value model, disjointness of the alias tables
//! that the dispatcher's rejection rule rests on, and the dispatcher's
//! priority order.

use vstd::prelude::*;
use crate::angle::{AngleUnit, angle_factor, angle_unit_of};
use crate::area::{AreaUnit, area_factor, area_unit_of};
use crate::dispatch::{ConversionError, Domain, UnitPair, parses_in, resolve_spec};
use crate::length::{LengthUnit, length_factor, length_unit_of};
use crate::mass::{MassUnit, mass_factor, mass_unit_of};
use crate::model::{
    Qty, affine_convert, lemma_affine_round_trip, lemma_affine_self_conversion,
    lemma_scale_round_trip, lemma_scale_self_conversion, qty_eq, qty_wf, scale_convert,
};
use crate::power::{PowerUnit, power_factor, power_unit_of};
use crate::temperature::{TempUnit, temp_map, temp_unit_of};
use crate::text::{lemma_lower_seq_idempotent, lower_seq};
use crate::time::{TimeUnit, time_factor, time_unit_of};
use crate::volume::{VolumeUnit, volume_factor, volume_unit_of};

verus! {

/// Symbol lookup is case-insensitive: two symbols with the same ASCII
/// lowercase form name the same unit in every domain.
pub proof fn lemma_parse_case_insensitive(a: Seq<char>, b: Seq<char>)
    requires
        lower_seq(a) == lower_seq(b),
    ensures
        length_unit_of(lower_seq(a)) == length_unit_of(lower_seq(b)),
        temp_unit_of(lower_seq(a)) == temp_unit_of(lower_seq(b)),
        area_unit_of(lower_seq(a)) == area_unit_of(lower_seq(b)),
        volume_unit_of(lower_seq(a)) == volume_unit_of(lower_seq(b)),
        angle_unit_of(lower_seq(a)) == angle_unit_of(lower_seq(b)),
        time_unit_of(lower_seq(a)) == time_unit_of(lower_seq(b)),
        mass_unit_of(lower_seq(a)) == mass_unit_of(lower_seq(b)),
        power_unit_of(lower_seq(a)) == power_unit_of(lower_seq(b)),
{
}

/// A symbol names exactly the unit its lowercased form names: lowercasing
/// first changes nothing.
pub proof fn lemma_parse_lowercased(s: Seq<char>)
    ensures
        length_unit_of(lower_seq(lower_seq(s))) == length_unit_of(lower_seq(s)),
        temp_unit_of(lower_seq(lower_seq(s))) == temp_unit_of(lower_seq(s)),
        area_unit_of(lower_seq(lower_seq(s))) == area_unit_of(lower_seq(s)),
        volume_unit_of(lower_seq(lower_seq(s))) == volume_unit_of(lower_seq(s)),
        angle_unit_of(lower_seq(lower_seq(s))) == angle_unit_of(lower_seq(s)),
        time_unit_of(lower_seq(lower_seq(s))) == time_unit_of(lower_seq(s)),
        mass_unit_of(lower_seq(lower_seq(s))) == mass_unit_of(lower_seq(s)),
        power_unit_of(lower_seq(lower_seq(s))) == power_unit_of(lower_seq(s)),
{
    lemma_lower_seq_idempotent(s);
}

/// Every length factor is well formed and carries no pi.
pub proof fn lemma_length_factor_wf(u: LengthUnit)
    ensures
        length_factor(u).wf(),
        !length_factor(u).pi,
{
}

/// Every mass factor is well formed and carries no pi.
pub proof fn lemma_mass_factor_wf(u: MassUnit)
    ensures
        mass_factor(u).wf(),
        !mass_factor(u).pi,
{
}

/// Every time factor is well formed and carries no pi.
pub proof fn lemma_time_factor_wf(u: TimeUnit)
    ensures
        time_factor(u).wf(),
        !time_factor(u).pi,
{
}

/// Every angle factor is well formed.
pub proof fn lemma_angle_factor_wf(u: AngleUnit)
    ensures
        angle_factor(u).wf(),
{
}

/// Every volume factor is well formed and carries no pi.
pub proof fn lemma_volume_factor_wf(u: VolumeUnit)
    ensures
        volume_factor(u).wf(),
        !volume_factor(u).pi,
{
}

/// Every area factor is well formed and carries no pi.
pub proof fn lemma_area_factor_wf(u: AreaUnit)
    ensures
        area_factor(u).wf(),
        !area_factor(u).pi,
{
}

/// Every power factor is well formed and carries no pi.
pub proof fn lemma_power_factor_wf(u: PowerUnit)
    ensures
        power_factor(u).wf(),
        !power_factor(u).pi,
{
}

/// Every temperature map is well formed.
pub proof fn lemma_temp_map_wf(u: TempUnit)
    ensures
        temp_map(u).wf(),
{
}

/// Self-conversion is exact in every domain: for any resolved pair whose
/// two units are the same unit, the conversion the engine's tables call
/// for is the identity in the exact model.
pub proof fn lemma_self_conversion_all_domains(p: UnitPair, v: Qty)
    requires
        qty_wf(v),
    ensures
        match p {
            UnitPair::Length(a, b) => a == b ==> qty_eq(
                scale_convert(v, length_factor(a), length_factor(b)),
                v,
            ),
            UnitPair::Temperature(a, b) => a == b ==> qty_eq(
                affine_convert(v, temp_map(a), temp_map(b)),
                v,
            ),
            UnitPair::Area(a, b) => a == b ==> qty_eq(
                scale_convert(v, area_factor(a), area_factor(b)),
                v,
            ),
            UnitPair::Volume(a, b) => a == b ==> qty_eq(
                scale_convert(v, volume_factor(a), volume_factor(b)),
                v,
            ),
            UnitPair::Angle(a, b) => a == b ==> qty_eq(
                scale_convert(v, angle_factor(a), angle_factor(b)),
                v,
            ),
            UnitPair::Time(a, b) => a == b ==> qty_eq(
                scale_convert(v, time_factor(a), time_factor(b)),
                v,
            ),
            UnitPair::Mass(a, b) => a == b ==> qty_eq(
                scale_convert(v, mass_factor(a), mass_factor(b)),
                v,
            ),
            UnitPair::Power(a, b) => a == b ==> qty_eq(
                scale_convert(v, power_factor(a), power_factor(b)),
                v,
            ),
        },
{
    match p {
        UnitPair::Length(a, b) => {
            lemma_length_factor_wf(a);
            lemma_scale_self_conversion(v, length_factor(a));
        },
        UnitPair::Temperature(a, b) => {
            lemma_temp_map_wf(a);
            lemma_affine_self_conversion(v, temp_map(a));
        },
        UnitPair::Area(a, b) => {
            lemma_area_factor_wf(a);
            lemma_scale_self_conversion(v, area_factor(a));
        },
        UnitPair::Volume(a, b) => {
            lemma_volume_factor_wf(a);
            lemma_scale_self_conversion(v, volume_factor(a));
        },
        UnitPair::Angle(a, b) => {
            lemma_angle_factor_wf(a);
            lemma_scale_self_conversion(v, angle_factor(a));
        },
        UnitPair::Time(a, b) => {
            lemma_time_factor_wf(a);
            lemma_scale_self_conversion(v, time_factor(a));
        },
        UnitPair::Mass(a, b) => {
            lemma_mass_factor_wf(a);
            lemma_scale_self_conversion(v, mass_factor(a));
        },
        UnitPair::Power(a, b) => {
            lemma_power_factor_wf(a);
            lemma_scale_self_conversion(v, power_factor(a));
        },
    }
}

/// Round trips are exact in every domain: converting a value from unit A to
/// unit B by the engine's tables, and the result back from B to A, gives
/// back the value in the exact model.
pub proof fn lemma_round_trip_all_domains(p: UnitPair, v: Qty)
    requires
        qty_wf(v),
    ensures
        match p {
            UnitPair::Length(a, b) => qty_eq(
                scale_convert(
                    scale_convert(v, length_factor(a), length_factor(b)),
                    length_factor(b),
                    length_factor(a),
                ),
                v,
            ),
            UnitPair::Temperature(a, b) => qty_eq(
                affine_convert(affine_convert(v, temp_map(a), temp_map(b)), temp_map(b), temp_map(a)),
                v,
            ),
            UnitPair::Area(a, b) => qty_eq(
                scale_convert(
                    scale_convert(v, area_factor(a), area_factor(b)),
                    area_factor(b),
                    area_factor(a),
                ),
                v,
            ),
            UnitPair::Volume(a, b) => qty_eq(
                scale_convert(
                    scale_convert(v, volume_factor(a), volume_factor(b)),
                    volume_factor(b),
                    volume_factor(a),
                ),
                v,
            ),
            UnitPair::Angle(a, b) => qty_eq(
                scale_convert(
                    scale_convert(v, angle_factor(a), angle_factor(b)),
                    angle_factor(b),
                    angle_factor(a),
                ),
                v,
            ),
            UnitPair::Time(a, b) => qty_eq(
                scale_convert(
                    scale_convert(v, time_factor(a), time_factor(b)),
                    time_factor(b),
                    time_factor(a),
                ),
                v,
            ),
            UnitPair::Mass(a, b) => qty_eq(
                scale_convert(
                    scale_convert(v, mass_factor(a), mass_factor(b)),
                    mass_factor(b),
                    mass_factor(a),
                ),
                v,
            ),
            UnitPair::Power(a, b) => qty_eq(
                scale_convert(
                    scale_convert(v, power_factor(a), power_factor(b)),
                    power_factor(b),
                    power_factor(a),
                ),
                v,
            ),
        },
{
    match p {
        UnitPair::Length(a, b) => {
            lemma_length_factor_wf(a);
            lemma_length_factor_wf(b);
            lemma_scale_round_trip(v, length_factor(a), length_factor(b));
        },
        UnitPair::Temperature(a, b) => {
            lemma_temp_map_wf(a);
            lemma_temp_map_wf(b);
            lemma_affine_round_trip(v, temp_map(a), temp_map(b));
        },
        UnitPair::Area(a, b) => {
            lemma_area_factor_wf(a);
            lemma_area_factor_wf(b);
            lemma_scale_round_trip(v, area_factor(a), area_factor(b));
        },
        UnitPair::Volume(a, b) => {
            lemma_volume_factor_wf(a);
            lemma_volume_factor_wf(b);
            lemma_scale_round_trip(v, volume_factor(a), volume_factor(b));
        },
        UnitPair::Angle(a, b) => {
            lemma_angle_factor_wf(a);
            lemma_angle_factor_wf(b);
            lemma_scale_round_trip(v, angle_factor(a), angle_factor(b));
        },
        UnitPair::Time(a, b) => {
            lemma_time_factor_wf(a);
            lemma_time_factor_wf(b);
            lemma_scale_round_trip(v, time_factor(a), time_factor(b));
        },
        UnitPair::Mass(a, b) => {
            lemma_mass_factor_wf(a);
            lemma_mass_factor_wf(b);
            lemma_scale_round_trip(v, mass_factor(a), mass_factor(b));
        },
        UnitPair::Power(a, b) => {
            lemma_power_factor_wf(a);
            lemma_power_factor_wf(b);
            lemma_scale_round_trip(v, power_factor(a), power_factor(b));
        },
    }
}

/// The dispatcher's priority: when both symbols parse as lengths, the
/// request is resolved in the length domain, whatever other domains might
/// make of the symbols.
pub proof fn lemma_length_priority(f: Seq<char>, t: Seq<char>)
    requires
        length_unit_of(f) is Some,
        length_unit_of(t) is Some,
    ensures
        resolve_spec(f, t) == Ok::<UnitPair, ConversionError>(
            UnitPair::Length(length_unit_of(f)->Some_0, length_unit_of(t)->Some_0),
        ),
{
}

/// The length and the characters of every length-unit alias.
proof fn length_alias_facts()
    ensures
        "mm"@.len() == 2 && "mm"@[0] == 'm' && "mm"@[1] == 'm',
        "millimeter"@.len() == 10 && "millimeter"@[0] == 'm' && "millimeter"@[1] == 'i' && "millimeter"@[2] == 'l' && "millimeter"@[3] == 'l' && "millimeter"@[4] == 'i' && "millimeter"@[5] == 'm' && "millimeter"@[6] == 'e' && "millimeter"@[7] == 't' && "millimeter"@[8] == 'e' && "millimeter"@[9] == 'r',
        "millimetre"@.len() == 10 && "millimetre"@[0] == 'm' && "millimetre"@[1] == 'i' && "millimetre"@[2] == 'l' && "millimetre"@[3] == 'l' && "millimetre"@[4] == 'i' && "millimetre"@[5] == 'm' && "millimetre"@[6] == 'e' && "millimetre"@[7] == 't' && "millimetre"@[8] == 'r' && "millimetre"@[9] == 'e',
        "cm"@.len() == 2 && "cm"@[0] == 'c' && "cm"@[1] == 'm',
        "centimeter"@.len() == 10 && "centimeter"@[0] == 'c' && "centimeter"@[1] == 'e' && "centimeter"@[2] == 'n' && "centimeter"@[3] == 't' && "centimeter"@[4] == 'i' && "centimeter"@[5] == 'm' && "centimeter"@[6] == 'e' && "centimeter"@[7] == 't' && "centimeter"@[8] == 'e' && "centimeter"@[9] == 'r',
        "centimetre"@.len() == 10 && "centimetre"@[0] == 'c' && "centimetre"@[1] == 'e' && "centimetre"@[2] == 'n' && "centimetre"@[3] == 't' && "centimetre"@[4] == 'i' && "centimetre"@[5] == 'm' && "centimetre"@[6] == 'e' && "centimetre"@[7] == 't' && "centimetre"@[8] == 'r' && "centimetre"@[9] == 'e',
        "dm"@.len() == 2 && "dm"@[0] == 'd' && "dm"@[1] == 'm',
        "decimeter"@.len() == 9 && "decimeter"@[0] == 'd' && "decimeter"@[1] == 'e' && "decimeter"@[2] == 'c' && "decimeter"@[3] == 'i' && "decimeter"@[4] == 'm' && "decimeter"@[5] == 'e' && "decimeter"@[6] == 't' && "decimeter"@[7] == 'e' && "decimeter"@[8] == 'r',
        "decimetre"@.len() == 9 && "decimetre"@[0] == 'd' && "decimetre"@[1] == 'e' && "decimetre"@[2] == 'c' && "decimetre"@[3] == 'i' && "decimetre"@[4] == 'm' && "decimetre"@[5] == 'e' && "decimetre"@[6] == 't' && "decimetre"@[7] == 'r' && "decimetre"@[8] == 'e',
        "m"@.len() == 1 && "m"@[0] == 'm',
        "meter"@.len() == 5 && "meter"@[0] == 'm' && "meter"@[1] == 'e' && "meter"@[2] == 't' && "meter"@[3] == 'e' && "meter"@[4] == 'r',
        "metre"@.len() == 5 && "metre"@[0] == 'm' && "metre"@[1] == 'e' && "metre"@[2] == 't' && "metre"@[3] == 'r' && "metre"@[4] == 'e',
        "km"@.len() == 2 && "km"@[0] == 'k' && "km"@[1] == 'm',
        "kilometer"@.len() == 9 && "kilometer"@[0] == 'k' && "kilometer"@[1] == 'i' && "kilometer"@[2] == 'l' && "kilometer"@[3] == 'o' && "kilometer"@[4] == 'm' && "kilometer"@[5] == 'e' && "kilometer"@[6] == 't' && "kilometer"@[7] == 'e' && "kilometer"@[8] == 'r',
        "kilometre"@.len() == 9 && "kilometre"@[0] == 'k' && "kilometre"@[1] == 'i' && "kilometre"@[2] == 'l' && "kilometre"@[3] == 'o' && "kilometre"@[4] == 'm' && "kilometre"@[5] == 'e' && "kilometre"@[6] == 't' && "kilometre"@[7] == 'r' && "kilometre"@[8] == 'e',
        "in"@.len() == 2 && "in"@[0] == 'i' && "in"@[1] == 'n',
        "inch"@.len() == 4 && "inch"@[0] == 'i' && "inch"@[1] == 'n' && "inch"@[2] == 'c' && "inch"@[3] == 'h',
        "inches"@.len() == 6 && "inches"@[0] == 'i' && "inches"@[1] == 'n' && "inches"@[2] == 'c' && "inches"@[3] == 'h' && "inches"@[4] == 'e' && "inches"@[5] == 's',
        "ft"@.len() == 2 && "ft"@[0] == 'f' && "ft"@[1] == 't',
        "foot"@.len() == 4 && "foot"@[0] == 'f' && "foot"@[1] == 'o' && "foot"@[2] == 'o' && "foot"@[3] == 't',
        "feet"@.len() == 4 && "feet"@[0] == 'f' && "feet"@[1] == 'e' && "feet"@[2] == 'e' && "feet"@[3] == 't',
        "yd"@.len() == 2 && "yd"@[0] == 'y' && "yd"@[1] == 'd',
        "yard"@.len() == 4 && "yard"@[0] == 'y' && "yard"@[1] == 'a' && "yard"@[2] == 'r' && "yard"@[3] == 'd',
        "yards"@.len() == 5 && "yards"@[0] == 'y' && "yards"@[1] == 'a' && "yards"@[2] == 'r' && "yards"@[3] == 'd' && "yards"@[4] == 's',
        "rod"@.len() == 3 && "rod"@[0] == 'r' && "rod"@[1] == 'o' && "rod"@[2] == 'd',
        "perch"@.len() == 5 && "perch"@[0] == 'p' && "perch"@[1] == 'e' && "perch"@[2] == 'r' && "perch"@[3] == 'c' && "perch"@[4] == 'h',
        "pole"@.len() == 4 && "pole"@[0] == 'p' && "pole"@[1] == 'o' && "pole"@[2] == 'l' && "pole"@[3] == 'e',
        "lug"@.len() == 3 && "lug"@[0] == 'l' && "lug"@[1] == 'u' && "lug"@[2] == 'g',
        "ch"@.len() == 2 && "ch"@[0] == 'c' && "ch"@[1] == 'h',
        "chain"@.len() == 5 && "chain"@[0] == 'c' && "chain"@[1] == 'h' && "chain"@[2] == 'a' && "chain"@[3] == 'i' && "chain"@[4] == 'n',
        "fur"@.len() == 3 && "fur"@[0] == 'f' && "fur"@[1] == 'u' && "fur"@[2] == 'r',
        "furlong"@.len() == 7 && "furlong"@[0] == 'f' && "furlong"@[1] == 'u' && "furlong"@[2] == 'r' && "furlong"@[3] == 'l' && "furlong"@[4] == 'o' && "furlong"@[5] == 'n' && "furlong"@[6] == 'g',
        "mi"@.len() == 2 && "mi"@[0] == 'm' && "mi"@[1] == 'i',
        "mile"@.len() == 4 && "mile"@[0] == 'm' && "mile"@[1] == 'i' && "mile"@[2] == 'l' && "mile"@[3] == 'e',
        "miles"@.len() == 5 && "miles"@[0] == 'm' && "miles"@[1] == 'i' && "miles"@[2] == 'l' && "miles"@[3] == 'e' && "miles"@[4] == 's',
        "nm"@.len() == 2 && "nm"@[0] == 'n' && "nm"@[1] == 'm',
        "nauticalmile"@.len() == 12 && "nauticalmile"@[0] == 'n' && "nauticalmile"@[1] == 'a' && "nauticalmile"@[2] == 'u' && "nauticalmile"@[3] == 't' && "nauticalmile"@[4] == 'i' && "nauticalmile"@[5] == 'c' && "nauticalmile"@[6] == 'a' && "nauticalmile"@[7] == 'l' && "nauticalmile"@[8] == 'm' && "nauticalmile"@[9] == 'i' && "nauticalmile"@[10] == 'l' && "nauticalmile"@[11] == 'e',
        "au"@.len() == 2 && "au"@[0] == 'a' && "au"@[1] == 'u',
        "astronomicalunit"@.len() == 16 && "astronomicalunit"@[0] == 'a' && "astronomicalunit"@[1] == 's' && "astronomicalunit"@[2] == 't' && "astronomicalunit"@[3] == 'r' && "astronomicalunit"@[4] == 'o' && "astronomicalunit"@[5] == 'n' && "astronomicalunit"@[6] == 'o' && "astronomicalunit"@[7] == 'm' && "astronomicalunit"@[8] == 'i' && "astronomicalunit"@[9] == 'c' && "astronomicalunit"@[10] == 'a' && "astronomicalunit"@[11] == 'l' && "astronomicalunit"@[12] == 'u' && "astronomicalunit"@[13] == 'n' && "astronomicalunit"@[14] == 'i' && "astronomicalunit"@[15] == 't',
        "ly"@.len() == 2 && "ly"@[0] == 'l' && "ly"@[1] == 'y',
        "lightyear"@.len() == 9 && "lightyear"@[0] == 'l' && "lightyear"@[1] == 'i' && "lightyear"@[2] == 'g' && "lightyear"@[3] == 'h' && "lightyear"@[4] == 't' && "lightyear"@[5] == 'y' && "lightyear"@[6] == 'e' && "lightyear"@[7] == 'a' && "lightyear"@[8] == 'r',
        "pc"@.len() == 2 && "pc"@[0] == 'p' && "pc"@[1] == 'c',
        "parsec"@.len() == 6 && "parsec"@[0] == 'p' && "parsec"@[1] == 'a' && "parsec"@[2] == 'r' && "parsec"@[3] == 's' && "parsec"@[4] == 'e' && "parsec"@[5] == 'c',
{
    broadcast use vstd::string::group_string_axioms;

    reveal_strlit("mm");
    reveal_strlit("millimeter");
    reveal_strlit("millimetre");
    reveal_strlit("cm");
    reveal_strlit("centimeter");
    reveal_strlit("centimetre");
    reveal_strlit("dm");
    reveal_strlit("decimeter");
    reveal_strlit("decimetre");
    reveal_strlit("m");
    reveal_strlit("meter");
    reveal_strlit("metre");
    reveal_strlit("km");
    reveal_strlit("kilometer");
    reveal_strlit("kilometre");
    reveal_strlit("in");
    reveal_strlit("inch");
    reveal_strlit("inches");
    reveal_strlit("ft");
    reveal_strlit("foot");
    reveal_strlit("feet");
    reveal_strlit("yd");
    reveal_strlit("yard");
    reveal_strlit("yards");
    reveal_strlit("rod");
    reveal_strlit("perch");
    reveal_strlit("pole");
    reveal_strlit("lug");
    reveal_strlit("ch");
    reveal_strlit("chain");
    reveal_strlit("fur");
    reveal_strlit("furlong");
    reveal_strlit("mi");
    reveal_strlit("mile");
    reveal_strlit("miles");
    reveal_strlit("nm");
    reveal_strlit("nauticalmile");
    reveal_strlit("au");
    reveal_strlit("astronomicalunit");
    reveal_strlit("ly");
    reveal_strlit("lightyear");
    reveal_strlit("pc");
    reveal_strlit("parsec");
}

/// The length and the characters of every temperature-unit alias.
proof fn temp_alias_facts()
    ensures
        "c"@.len() == 1 && "c"@[0] == 'c',
        "celsius"@.len() == 7 && "celsius"@[0] == 'c' && "celsius"@[1] == 'e' && "celsius"@[2] == 'l' && "celsius"@[3] == 's' && "celsius"@[4] == 'i' && "celsius"@[5] == 'u' && "celsius"@[6] == 's',
        "f"@.len() == 1 && "f"@[0] == 'f',
        "fahrenheit"@.len() == 10 && "fahrenheit"@[0] == 'f' && "fahrenheit"@[1] == 'a' && "fahrenheit"@[2] == 'h' && "fahrenheit"@[3] == 'r' && "fahrenheit"@[4] == 'e' && "fahrenheit"@[5] == 'n' && "fahrenheit"@[6] == 'h' && "fahrenheit"@[7] == 'e' && "fahrenheit"@[8] == 'i' && "fahrenheit"@[9] == 't',
        "k"@.len() == 1 && "k"@[0] == 'k',
        "kelvin"@.len() == 6 && "kelvin"@[0] == 'k' && "kelvin"@[1] == 'e' && "kelvin"@[2] == 'l' && "kelvin"@[3] == 'v' && "kelvin"@[4] == 'i' && "kelvin"@[5] == 'n',
{
    broadcast use vstd::string::group_string_axioms;

    reveal_strlit("c");
    reveal_strlit("celsius");
    reveal_strlit("f");
    reveal_strlit("fahrenheit");
    reveal_strlit("k");
    reveal_strlit("kelvin");
}

/// The length and the characters of every area-unit alias.
proof fn area_alias_facts()
    ensures
        "m2"@.len() == 2 && "m2"@[0] == 'm' && "m2"@[1] == '2',
        "sqm"@.len() == 3 && "sqm"@[0] == 's' && "sqm"@[1] == 'q' && "sqm"@[2] == 'm',
        "squaremeter"@.len() == 11 && "squaremeter"@[0] == 's' && "squaremeter"@[1] == 'q' && "squaremeter"@[2] == 'u' && "squaremeter"@[3] == 'a' && "squaremeter"@[4] == 'r' && "squaremeter"@[5] == 'e' && "squaremeter"@[6] == 'm' && "squaremeter"@[7] == 'e' && "squaremeter"@[8] == 't' && "squaremeter"@[9] == 'e' && "squaremeter"@[10] == 'r',
        "squaremeters"@.len() == 12 && "squaremeters"@[0] == 's' && "squaremeters"@[1] == 'q' && "squaremeters"@[2] == 'u' && "squaremeters"@[3] == 'a' && "squaremeters"@[4] == 'r' && "squaremeters"@[5] == 'e' && "squaremeters"@[6] == 'm' && "squaremeters"@[7] == 'e' && "squaremeters"@[8] == 't' && "squaremeters"@[9] == 'e' && "squaremeters"@[10] == 'r' && "squaremeters"@[11] == 's',
        "ha"@.len() == 2 && "ha"@[0] == 'h' && "ha"@[1] == 'a',
        "hectare"@.len() == 7 && "hectare"@[0] == 'h' && "hectare"@[1] == 'e' && "hectare"@[2] == 'c' && "hectare"@[3] == 't' && "hectare"@[4] == 'a' && "hectare"@[5] == 'r' && "hectare"@[6] == 'e',
        "hectares"@.len() == 8 && "hectares"@[0] == 'h' && "hectares"@[1] == 'e' && "hectares"@[2] == 'c' && "hectares"@[3] == 't' && "hectares"@[4] == 'a' && "hectares"@[5] == 'r' && "hectares"@[6] == 'e' && "hectares"@[7] == 's',
        "acre"@.len() == 4 && "acre"@[0] == 'a' && "acre"@[1] == 'c' && "acre"@[2] == 'r' && "acre"@[3] == 'e',
        "acres"@.len() == 5 && "acres"@[0] == 'a' && "acres"@[1] == 'c' && "acres"@[2] == 'r' && "acres"@[3] == 'e' && "acres"@[4] == 's',
        "in2"@.len() == 3 && "in2"@[0] == 'i' && "in2"@[1] == 'n' && "in2"@[2] == '2',
        "sqin"@.len() == 4 && "sqin"@[0] == 's' && "sqin"@[1] == 'q' && "sqin"@[2] == 'i' && "sqin"@[3] == 'n',
        "squareinch"@.len() == 10 && "squareinch"@[0] == 's' && "squareinch"@[1] == 'q' && "squareinch"@[2] == 'u' && "squareinch"@[3] == 'a' && "squareinch"@[4] == 'r' && "squareinch"@[5] == 'e' && "squareinch"@[6] == 'i' && "squareinch"@[7] == 'n' && "squareinch"@[8] == 'c' && "squareinch"@[9] == 'h',
        "squareinches"@.len() == 12 && "squareinches"@[0] == 's' && "squareinches"@[1] == 'q' && "squareinches"@[2] == 'u' && "squareinches"@[3] == 'a' && "squareinches"@[4] == 'r' && "squareinches"@[5] == 'e' && "squareinches"@[6] == 'i' && "squareinches"@[7] == 'n' && "squareinches"@[8] == 'c' && "squareinches"@[9] == 'h' && "squareinches"@[10] == 'e' && "squareinches"@[11] == 's',
        "ft2"@.len() == 3 && "ft2"@[0] == 'f' && "ft2"@[1] == 't' && "ft2"@[2] == '2',
        "sqft"@.len() == 4 && "sqft"@[0] == 's' && "sqft"@[1] == 'q' && "sqft"@[2] == 'f' && "sqft"@[3] == 't',
        "squarefoot"@.len() == 10 && "squarefoot"@[0] == 's' && "squarefoot"@[1] == 'q' && "squarefoot"@[2] == 'u' && "squarefoot"@[3] == 'a' && "squarefoot"@[4] == 'r' && "squarefoot"@[5] == 'e' && "squarefoot"@[6] == 'f' && "squarefoot"@[7] == 'o' && "squarefoot"@[8] == 'o' && "squarefoot"@[9] == 't',
        "squarefeet"@.len() == 10 && "squarefeet"@[0] == 's' && "squarefeet"@[1] == 'q' && "squarefeet"@[2] == 'u' && "squarefeet"@[3] == 'a' && "squarefeet"@[4] == 'r' && "squarefeet"@[5] == 'e' && "squarefeet"@[6] == 'f' && "squarefeet"@[7] == 'e' && "squarefeet"@[8] == 'e' && "squarefeet"@[9] == 't',
        "yd2"@.len() == 3 && "yd2"@[0] == 'y' && "yd2"@[1] == 'd' && "yd2"@[2] == '2',
        "sqyd"@.len() == 4 && "sqyd"@[0] == 's' && "sqyd"@[1] == 'q' && "sqyd"@[2] == 'y' && "sqyd"@[3] == 'd',
        "squareyard"@.len() == 10 && "squareyard"@[0] == 's' && "squareyard"@[1] == 'q' && "squareyard"@[2] == 'u' && "squareyard"@[3] == 'a' && "squareyard"@[4] == 'r' && "squareyard"@[5] == 'e' && "squareyard"@[6] == 'y' && "squareyard"@[7] == 'a' && "squareyard"@[8] == 'r' && "squareyard"@[9] == 'd',
        "squareyards"@.len() == 11 && "squareyards"@[0] == 's' && "squareyards"@[1] == 'q' && "squareyards"@[2] == 'u' && "squareyards"@[3] == 'a' && "squareyards"@[4] == 'r' && "squareyards"@[5] == 'e' && "squareyards"@[6] == 'y' && "squareyards"@[7] == 'a' && "squareyards"@[8] == 'r' && "squareyards"@[9] == 'd' && "squareyards"@[10] == 's',
        "mi2"@.len() == 3 && "mi2"@[0] == 'm' && "mi2"@[1] == 'i' && "mi2"@[2] == '2',
        "sqmi"@.len() == 4 && "sqmi"@[0] == 's' && "sqmi"@[1] == 'q' && "sqmi"@[2] == 'm' && "sqmi"@[3] == 'i',
        "squaremile"@.len() == 10 && "squaremile"@[0] == 's' && "squaremile"@[1] == 'q' && "squaremile"@[2] == 'u' && "squaremile"@[3] == 'a' && "squaremile"@[4] == 'r' && "squaremile"@[5] == 'e' && "squaremile"@[6] == 'm' && "squaremile"@[7] == 'i' && "squaremile"@[8] == 'l' && "squaremile"@[9] == 'e',
        "squaremiles"@.len() == 11 && "squaremiles"@[0] == 's' && "squaremiles"@[1] == 'q' && "squaremiles"@[2] == 'u' && "squaremiles"@[3] == 'a' && "squaremiles"@[4] == 'r' && "squaremiles"@[5] == 'e' && "squaremiles"@[6] == 'm' && "squaremiles"@[7] == 'i' && "squaremiles"@[8] == 'l' && "squaremiles"@[9] == 'e' && "squaremiles"@[10] == 's',
{
    broadcast use vstd::string::group_string_axioms;

    reveal_strlit("m2");
    reveal_strlit("sqm");
    reveal_strlit("squaremeter");
    reveal_strlit("squaremeters");
    reveal_strlit("ha");
    reveal_strlit("hectare");
    reveal_strlit("hectares");
    reveal_strlit("acre");
    reveal_strlit("acres");
    reveal_strlit("in2");
    reveal_strlit("sqin");
    reveal_strlit("squareinch");
    reveal_strlit("squareinches");
    reveal_strlit("ft2");
    reveal_strlit("sqft");
    reveal_strlit("squarefoot");
    reveal_strlit("squarefeet");
    reveal_strlit("yd2");
    reveal_strlit("sqyd");
    reveal_strlit("squareyard");
    reveal_strlit("squareyards");
    reveal_strlit("mi2");
    reveal_strlit("sqmi");
    reveal_strlit("squaremile");
    reveal_strlit("squaremiles");
}

/// The length and the characters of every volume-unit alias.
proof fn volume_alias_facts()
    ensures
        "m3"@.len() == 2 && "m3"@[0] == 'm' && "m3"@[1] == '3',
        "cubicmeter"@.len() == 10 && "cubicmeter"@[0] == 'c' && "cubicmeter"@[1] == 'u' && "cubicmeter"@[2] == 'b' && "cubicmeter"@[3] == 'i' && "cubicmeter"@[4] == 'c' && "cubicmeter"@[5] == 'm' && "cubicmeter"@[6] == 'e' && "cubicmeter"@[7] == 't' && "cubicmeter"@[8] == 'e' && "cubicmeter"@[9] == 'r',
        "cubicmeters"@.len() == 11 && "cubicmeters"@[0] == 'c' && "cubicmeters"@[1] == 'u' && "cubicmeters"@[2] == 'b' && "cubicmeters"@[3] == 'i' && "cubicmeters"@[4] == 'c' && "cubicmeters"@[5] == 'm' && "cubicmeters"@[6] == 'e' && "cubicmeters"@[7] == 't' && "cubicmeters"@[8] == 'e' && "cubicmeters"@[9] == 'r' && "cubicmeters"@[10] == 's',
        "l"@.len() == 1 && "l"@[0] == 'l',
        "liter"@.len() == 5 && "liter"@[0] == 'l' && "liter"@[1] == 'i' && "liter"@[2] == 't' && "liter"@[3] == 'e' && "liter"@[4] == 'r',
        "litre"@.len() == 5 && "litre"@[0] == 'l' && "litre"@[1] == 'i' && "litre"@[2] == 't' && "litre"@[3] == 'r' && "litre"@[4] == 'e',
        "ml"@.len() == 2 && "ml"@[0] == 'm' && "ml"@[1] == 'l',
        "milliliter"@.len() == 10 && "milliliter"@[0] == 'm' && "milliliter"@[1] == 'i' && "milliliter"@[2] == 'l' && "milliliter"@[3] == 'l' && "milliliter"@[4] == 'i' && "milliliter"@[5] == 'l' && "milliliter"@[6] == 'i' && "milliliter"@[7] == 't' && "milliliter"@[8] == 'e' && "milliliter"@[9] == 'r',
        "millilitre"@.len() == 10 && "millilitre"@[0] == 'm' && "millilitre"@[1] == 'i' && "millilitre"@[2] == 'l' && "millilitre"@[3] == 'l' && "millilitre"@[4] == 'i' && "millilitre"@[5] == 'l' && "millilitre"@[6] == 'i' && "millilitre"@[7] == 't' && "millilitre"@[8] == 'r' && "millilitre"@[9] == 'e',
        "cl"@.len() == 2 && "cl"@[0] == 'c' && "cl"@[1] == 'l',
        "centiliter"@.len() == 10 && "centiliter"@[0] == 'c' && "centiliter"@[1] == 'e' && "centiliter"@[2] == 'n' && "centiliter"@[3] == 't' && "centiliter"@[4] == 'i' && "centiliter"@[5] == 'l' && "centiliter"@[6] == 'i' && "centiliter"@[7] == 't' && "centiliter"@[8] == 'e' && "centiliter"@[9] == 'r',
        "dl"@.len() == 2 && "dl"@[0] == 'd' && "dl"@[1] == 'l',
        "deciliter"@.len() == 9 && "deciliter"@[0] == 'd' && "deciliter"@[1] == 'e' && "deciliter"@[2] == 'c' && "deciliter"@[3] == 'i' && "deciliter"@[4] == 'l' && "deciliter"@[5] == 'i' && "deciliter"@[6] == 't' && "deciliter"@[7] == 'e' && "deciliter"@[8] == 'r',
        "hl"@.len() == 2 && "hl"@[0] == 'h' && "hl"@[1] == 'l',
        "hectoliter"@.len() == 10 && "hectoliter"@[0] == 'h' && "hectoliter"@[1] == 'e' && "hectoliter"@[2] == 'c' && "hectoliter"@[3] == 't' && "hectoliter"@[4] == 'o' && "hectoliter"@[5] == 'l' && "hectoliter"@[6] == 'i' && "hectoliter"@[7] == 't' && "hectoliter"@[8] == 'e' && "hectoliter"@[9] == 'r',
        "tsp"@.len() == 3 && "tsp"@[0] == 't' && "tsp"@[1] == 's' && "tsp"@[2] == 'p',
        "teaspoon"@.len() == 8 && "teaspoon"@[0] == 't' && "teaspoon"@[1] == 'e' && "teaspoon"@[2] == 'a' && "teaspoon"@[3] == 's' && "teaspoon"@[4] == 'p' && "teaspoon"@[5] == 'o' && "teaspoon"@[6] == 'o' && "teaspoon"@[7] == 'n',
        "tbsp"@.len() == 4 && "tbsp"@[0] == 't' && "tbsp"@[1] == 'b' && "tbsp"@[2] == 's' && "tbsp"@[3] == 'p',
        "tablespoon"@.len() == 10 && "tablespoon"@[0] == 't' && "tablespoon"@[1] == 'a' && "tablespoon"@[2] == 'b' && "tablespoon"@[3] == 'l' && "tablespoon"@[4] == 'e' && "tablespoon"@[5] == 's' && "tablespoon"@[6] == 'p' && "tablespoon"@[7] == 'o' && "tablespoon"@[8] == 'o' && "tablespoon"@[9] == 'n',
        "floz"@.len() == 4 && "floz"@[0] == 'f' && "floz"@[1] == 'l' && "floz"@[2] == 'o' && "floz"@[3] == 'z',
        "fl oz"@.len() == 5 && "fl oz"@[0] == 'f' && "fl oz"@[1] == 'l' && "fl oz"@[2] == ' ' && "fl oz"@[3] == 'o' && "fl oz"@[4] == 'z',
        "cup"@.len() == 3 && "cup"@[0] == 'c' && "cup"@[1] == 'u' && "cup"@[2] == 'p',
        "gill"@.len() == 4 && "gill"@[0] == 'g' && "gill"@[1] == 'i' && "gill"@[2] == 'l' && "gill"@[3] == 'l',
        "pt"@.len() == 2 && "pt"@[0] == 'p' && "pt"@[1] == 't',
        "pint"@.len() == 4 && "pint"@[0] == 'p' && "pint"@[1] == 'i' && "pint"@[2] == 'n' && "pint"@[3] == 't',
        "qt"@.len() == 2 && "qt"@[0] == 'q' && "qt"@[1] == 't',
        "quart"@.len() == 5 && "quart"@[0] == 'q' && "quart"@[1] == 'u' && "quart"@[2] == 'a' && "quart"@[3] == 'r' && "quart"@[4] == 't',
        "gal"@.len() == 3 && "gal"@[0] == 'g' && "gal"@[1] == 'a' && "gal"@[2] == 'l',
        "gallon"@.len() == 6 && "gallon"@[0] == 'g' && "gallon"@[1] == 'a' && "gallon"@[2] == 'l' && "gallon"@[3] == 'l' && "gallon"@[4] == 'o' && "gallon"@[5] == 'n',
        "acreft"@.len() == 6 && "acreft"@[0] == 'a' && "acreft"@[1] == 'c' && "acreft"@[2] == 'r' && "acreft"@[3] == 'e' && "acreft"@[4] == 'f' && "acreft"@[5] == 't',
        "acre-ft"@.len() == 7 && "acre-ft"@[0] == 'a' && "acre-ft"@[1] == 'c' && "acre-ft"@[2] == 'r' && "acre-ft"@[3] == 'e' && "acre-ft"@[4] == '-' && "acre-ft"@[5] == 'f' && "acre-ft"@[6] == 't',
        "in3"@.len() == 3 && "in3"@[0] == 'i' && "in3"@[1] == 'n' && "in3"@[2] == '3',
        "cuin"@.len() == 4 && "cuin"@[0] == 'c' && "cuin"@[1] == 'u' && "cuin"@[2] == 'i' && "cuin"@[3] == 'n',
        "cubicinch"@.len() == 9 && "cubicinch"@[0] == 'c' && "cubicinch"@[1] == 'u' && "cubicinch"@[2] == 'b' && "cubicinch"@[3] == 'i' && "cubicinch"@[4] == 'c' && "cubicinch"@[5] == 'i' && "cubicinch"@[6] == 'n' && "cubicinch"@[7] == 'c' && "cubicinch"@[8] == 'h',
        "ft3"@.len() == 3 && "ft3"@[0] == 'f' && "ft3"@[1] == 't' && "ft3"@[2] == '3',
        "cuft"@.len() == 4 && "cuft"@[0] == 'c' && "cuft"@[1] == 'u' && "cuft"@[2] == 'f' && "cuft"@[3] == 't',
        "cubicfoot"@.len() == 9 && "cubicfoot"@[0] == 'c' && "cubicfoot"@[1] == 'u' && "cubicfoot"@[2] == 'b' && "cubicfoot"@[3] == 'i' && "cubicfoot"@[4] == 'c' && "cubicfoot"@[5] == 'f' && "cubicfoot"@[6] == 'o' && "cubicfoot"@[7] == 'o' && "cubicfoot"@[8] == 't',
        "yd3"@.len() == 3 && "yd3"@[0] == 'y' && "yd3"@[1] == 'd' && "yd3"@[2] == '3',
        "cuyd"@.len() == 4 && "cuyd"@[0] == 'c' && "cuyd"@[1] == 'u' && "cuyd"@[2] == 'y' && "cuyd"@[3] == 'd',
        "cubicyard"@.len() == 9 && "cubicyard"@[0] == 'c' && "cubicyard"@[1] == 'u' && "cubicyard"@[2] == 'b' && "cubicyard"@[3] == 'i' && "cubicyard"@[4] == 'c' && "cubicyard"@[5] == 'y' && "cubicyard"@[6] == 'a' && "cubicyard"@[7] == 'r' && "cubicyard"@[8] == 'd',
{
    broadcast use vstd::string::group_string_axioms;

    reveal_strlit("m3");
    reveal_strlit("cubicmeter");
    reveal_strlit("cubicmeters");
    reveal_strlit("l");
    reveal_strlit("liter");
    reveal_strlit("litre");
    reveal_strlit("ml");
    reveal_strlit("milliliter");
    reveal_strlit("millilitre");
    reveal_strlit("cl");
    reveal_strlit("centiliter");
    reveal_strlit("dl");
    reveal_strlit("deciliter");
    reveal_strlit("hl");
    reveal_strlit("hectoliter");
    reveal_strlit("tsp");
    reveal_strlit("teaspoon");
    reveal_strlit("tbsp");
    reveal_strlit("tablespoon");
    reveal_strlit("floz");
    reveal_strlit("fl oz");
    reveal_strlit("cup");
    reveal_strlit("gill");
    reveal_strlit("pt");
    reveal_strlit("pint");
    reveal_strlit("qt");
    reveal_strlit("quart");
    reveal_strlit("gal");
    reveal_strlit("gallon");
    reveal_strlit("acreft");
    reveal_strlit("acre-ft");
    reveal_strlit("in3");
    reveal_strlit("cuin");
    reveal_strlit("cubicinch");
    reveal_strlit("ft3");
    reveal_strlit("cuft");
    reveal_strlit("cubicfoot");
    reveal_strlit("yd3");
    reveal_strlit("cuyd");
    reveal_strlit("cubicyard");
}

/// The length and the characters of every angle-unit alias.
proof fn angle_alias_facts()
    ensures
        "rad"@.len() == 3 && "rad"@[0] == 'r' && "rad"@[1] == 'a' && "rad"@[2] == 'd',
        "radian"@.len() == 6 && "radian"@[0] == 'r' && "radian"@[1] == 'a' && "radian"@[2] == 'd' && "radian"@[3] == 'i' && "radian"@[4] == 'a' && "radian"@[5] == 'n',
        "radians"@.len() == 7 && "radians"@[0] == 'r' && "radians"@[1] == 'a' && "radians"@[2] == 'd' && "radians"@[3] == 'i' && "radians"@[4] == 'a' && "radians"@[5] == 'n' && "radians"@[6] == 's',
        "deg"@.len() == 3 && "deg"@[0] == 'd' && "deg"@[1] == 'e' && "deg"@[2] == 'g',
        "\u{b0}"@.len() == 1 && "\u{b0}"@[0] == '\u{b0}',
        "degree"@.len() == 6 && "degree"@[0] == 'd' && "degree"@[1] == 'e' && "degree"@[2] == 'g' && "degree"@[3] == 'r' && "degree"@[4] == 'e' && "degree"@[5] == 'e',
        "degrees"@.len() == 7 && "degrees"@[0] == 'd' && "degrees"@[1] == 'e' && "degrees"@[2] == 'g' && "degrees"@[3] == 'r' && "degrees"@[4] == 'e' && "degrees"@[5] == 'e' && "degrees"@[6] == 's',
        "sr"@.len() == 2 && "sr"@[0] == 's' && "sr"@[1] == 'r',
        "steradian"@.len() == 9 && "steradian"@[0] == 's' && "steradian"@[1] == 't' && "steradian"@[2] == 'e' && "steradian"@[3] == 'r' && "steradian"@[4] == 'a' && "steradian"@[5] == 'd' && "steradian"@[6] == 'i' && "steradian"@[7] == 'a' && "steradian"@[8] == 'n',
        "steradians"@.len() == 10 && "steradians"@[0] == 's' && "steradians"@[1] == 't' && "steradians"@[2] == 'e' && "steradians"@[3] == 'r' && "steradians"@[4] == 'a' && "steradians"@[5] == 'd' && "steradians"@[6] == 'i' && "steradians"@[7] == 'a' && "steradians"@[8] == 'n' && "steradians"@[9] == 's',
{
    broadcast use vstd::string::group_string_axioms;

    reveal_strlit("rad");
    reveal_strlit("radian");
    reveal_strlit("radians");
    reveal_strlit("deg");
    reveal_strlit("\u{b0}");
    reveal_strlit("degree");
    reveal_strlit("degrees");
    reveal_strlit("sr");
    reveal_strlit("steradian");
    reveal_strlit("steradians");
}

/// The length and the characters of every time-unit alias.
proof fn time_alias_facts()
    ensures
        "s"@.len() == 1 && "s"@[0] == 's',
        "sec"@.len() == 3 && "sec"@[0] == 's' && "sec"@[1] == 'e' && "sec"@[2] == 'c',
        "second"@.len() == 6 && "second"@[0] == 's' && "second"@[1] == 'e' && "second"@[2] == 'c' && "second"@[3] == 'o' && "second"@[4] == 'n' && "second"@[5] == 'd',
        "seconds"@.len() == 7 && "seconds"@[0] == 's' && "seconds"@[1] == 'e' && "seconds"@[2] == 'c' && "seconds"@[3] == 'o' && "seconds"@[4] == 'n' && "seconds"@[5] == 'd' && "seconds"@[6] == 's',
        "min"@.len() == 3 && "min"@[0] == 'm' && "min"@[1] == 'i' && "min"@[2] == 'n',
        "minute"@.len() == 6 && "minute"@[0] == 'm' && "minute"@[1] == 'i' && "minute"@[2] == 'n' && "minute"@[3] == 'u' && "minute"@[4] == 't' && "minute"@[5] == 'e',
        "minutes"@.len() == 7 && "minutes"@[0] == 'm' && "minutes"@[1] == 'i' && "minutes"@[2] == 'n' && "minutes"@[3] == 'u' && "minutes"@[4] == 't' && "minutes"@[5] == 'e' && "minutes"@[6] == 's',
        "h"@.len() == 1 && "h"@[0] == 'h',
        "hr"@.len() == 2 && "hr"@[0] == 'h' && "hr"@[1] == 'r',
        "hour"@.len() == 4 && "hour"@[0] == 'h' && "hour"@[1] == 'o' && "hour"@[2] == 'u' && "hour"@[3] == 'r',
        "hours"@.len() == 5 && "hours"@[0] == 'h' && "hours"@[1] == 'o' && "hours"@[2] == 'u' && "hours"@[3] == 'r' && "hours"@[4] == 's',
        "d"@.len() == 1 && "d"@[0] == 'd',
        "day"@.len() == 3 && "day"@[0] == 'd' && "day"@[1] == 'a' && "day"@[2] == 'y',
        "days"@.len() == 4 && "days"@[0] == 'd' && "days"@[1] == 'a' && "days"@[2] == 'y' && "days"@[3] == 's',
        "a"@.len() == 1 && "a"@[0] == 'a',
        "yr"@.len() == 2 && "yr"@[0] == 'y' && "yr"@[1] == 'r',
        "year"@.len() == 4 && "year"@[0] == 'y' && "year"@[1] == 'e' && "year"@[2] == 'a' && "year"@[3] == 'r',
        "years"@.len() == 5 && "years"@[0] == 'y' && "years"@[1] == 'e' && "years"@[2] == 'a' && "years"@[3] == 'r' && "years"@[4] == 's',
{
    broadcast use vstd::string::group_string_axioms;

    reveal_strlit("s");
    reveal_strlit("sec");
    reveal_strlit("second");
    reveal_strlit("seconds");
    reveal_strlit("min");
    reveal_strlit("minute");
    reveal_strlit("minutes");
    reveal_strlit("h");
    reveal_strlit("hr");
    reveal_strlit("hour");
    reveal_strlit("hours");
    reveal_strlit("d");
    reveal_strlit("day");
    reveal_strlit("days");
    reveal_strlit("a");
    reveal_strlit("yr");
    reveal_strlit("year");
    reveal_strlit("years");
}

/// The length and the characters of every mass-unit alias.
proof fn mass_alias_facts()
    ensures
        "g"@.len() == 1 && "g"@[0] == 'g',
        "gram"@.len() == 4 && "gram"@[0] == 'g' && "gram"@[1] == 'r' && "gram"@[2] == 'a' && "gram"@[3] == 'm',
        "grams"@.len() == 5 && "grams"@[0] == 'g' && "grams"@[1] == 'r' && "grams"@[2] == 'a' && "grams"@[3] == 'm' && "grams"@[4] == 's',
        "kg"@.len() == 2 && "kg"@[0] == 'k' && "kg"@[1] == 'g',
        "kilogram"@.len() == 8 && "kilogram"@[0] == 'k' && "kilogram"@[1] == 'i' && "kilogram"@[2] == 'l' && "kilogram"@[3] == 'o' && "kilogram"@[4] == 'g' && "kilogram"@[5] == 'r' && "kilogram"@[6] == 'a' && "kilogram"@[7] == 'm',
        "kilograms"@.len() == 9 && "kilograms"@[0] == 'k' && "kilograms"@[1] == 'i' && "kilograms"@[2] == 'l' && "kilograms"@[3] == 'o' && "kilograms"@[4] == 'g' && "kilograms"@[5] == 'r' && "kilograms"@[6] == 'a' && "kilograms"@[7] == 'm' && "kilograms"@[8] == 's',
        "gr"@.len() == 2 && "gr"@[0] == 'g' && "gr"@[1] == 'r',
        "grain"@.len() == 5 && "grain"@[0] == 'g' && "grain"@[1] == 'r' && "grain"@[2] == 'a' && "grain"@[3] == 'i' && "grain"@[4] == 'n',
        "grains"@.len() == 6 && "grains"@[0] == 'g' && "grains"@[1] == 'r' && "grains"@[2] == 'a' && "grains"@[3] == 'i' && "grains"@[4] == 'n' && "grains"@[5] == 's',
        "dr"@.len() == 2 && "dr"@[0] == 'd' && "dr"@[1] == 'r',
        "dram"@.len() == 4 && "dram"@[0] == 'd' && "dram"@[1] == 'r' && "dram"@[2] == 'a' && "dram"@[3] == 'm',
        "drams"@.len() == 5 && "drams"@[0] == 'd' && "drams"@[1] == 'r' && "drams"@[2] == 'a' && "drams"@[3] == 'm' && "drams"@[4] == 's',
        "oz"@.len() == 2 && "oz"@[0] == 'o' && "oz"@[1] == 'z',
        "ounce"@.len() == 5 && "ounce"@[0] == 'o' && "ounce"@[1] == 'u' && "ounce"@[2] == 'n' && "ounce"@[3] == 'c' && "ounce"@[4] == 'e',
        "ounces"@.len() == 6 && "ounces"@[0] == 'o' && "ounces"@[1] == 'u' && "ounces"@[2] == 'n' && "ounces"@[3] == 'c' && "ounces"@[4] == 'e' && "ounces"@[5] == 's',
        "lb"@.len() == 2 && "lb"@[0] == 'l' && "lb"@[1] == 'b',
        "pound"@.len() == 5 && "pound"@[0] == 'p' && "pound"@[1] == 'o' && "pound"@[2] == 'u' && "pound"@[3] == 'n' && "pound"@[4] == 'd',
        "pounds"@.len() == 6 && "pounds"@[0] == 'p' && "pounds"@[1] == 'o' && "pounds"@[2] == 'u' && "pounds"@[3] == 'n' && "pounds"@[4] == 'd' && "pounds"@[5] == 's',
        "cwt"@.len() == 3 && "cwt"@[0] == 'c' && "cwt"@[1] == 'w' && "cwt"@[2] == 't',
        "hundredweight"@.len() == 13 && "hundredweight"@[0] == 'h' && "hundredweight"@[1] == 'u' && "hundredweight"@[2] == 'n' && "hundredweight"@[3] == 'd' && "hundredweight"@[4] == 'r' && "hundredweight"@[5] == 'e' && "hundredweight"@[6] == 'd' && "hundredweight"@[7] == 'w' && "hundredweight"@[8] == 'e' && "hundredweight"@[9] == 'i' && "hundredweight"@[10] == 'g' && "hundredweight"@[11] == 'h' && "hundredweight"@[12] == 't',
        "ton"@.len() == 3 && "ton"@[0] == 't' && "ton"@[1] == 'o' && "ton"@[2] == 'n',
        "t"@.len() == 1 && "t"@[0] == 't',
        "tonne"@.len() == 5 && "tonne"@[0] == 't' && "tonne"@[1] == 'o' && "tonne"@[2] == 'n' && "tonne"@[3] == 'n' && "tonne"@[4] == 'e',
        "metricton"@.len() == 9 && "metricton"@[0] == 'm' && "metricton"@[1] == 'e' && "metricton"@[2] == 't' && "metricton"@[3] == 'r' && "metricton"@[4] == 'i' && "metricton"@[5] == 'c' && "metricton"@[6] == 't' && "metricton"@[7] == 'o' && "metricton"@[8] == 'n',
        "slug"@.len() == 4 && "slug"@[0] == 's' && "slug"@[1] == 'l' && "slug"@[2] == 'u' && "slug"@[3] == 'g',
{
    broadcast use vstd::string::group_string_axioms;

    reveal_strlit("g");
    reveal_strlit("gram");
    reveal_strlit("grams");
    reveal_strlit("kg");
    reveal_strlit("kilogram");
    reveal_strlit("kilograms");
    reveal_strlit("gr");
    reveal_strlit("grain");
    reveal_strlit("grains");
    reveal_strlit("dr");
    reveal_strlit("dram");
    reveal_strlit("drams");
    reveal_strlit("oz");
    reveal_strlit("ounce");
    reveal_strlit("ounces");
    reveal_strlit("lb");
    reveal_strlit("pound");
    reveal_strlit("pounds");
    reveal_strlit("cwt");
    reveal_strlit("hundredweight");
    reveal_strlit("ton");
    reveal_strlit("t");
    reveal_strlit("tonne");
    reveal_strlit("metricton");
    reveal_strlit("slug");
}

/// The length and the characters of every power-unit alias.
proof fn power_alias_facts()
    ensures
        "w"@.len() == 1 && "w"@[0] == 'w',
        "watt"@.len() == 4 && "watt"@[0] == 'w' && "watt"@[1] == 'a' && "watt"@[2] == 't' && "watt"@[3] == 't',
        "watts"@.len() == 5 && "watts"@[0] == 'w' && "watts"@[1] == 'a' && "watts"@[2] == 't' && "watts"@[3] == 't' && "watts"@[4] == 's',
        "kw"@.len() == 2 && "kw"@[0] == 'k' && "kw"@[1] == 'w',
        "kilowatt"@.len() == 8 && "kilowatt"@[0] == 'k' && "kilowatt"@[1] == 'i' && "kilowatt"@[2] == 'l' && "kilowatt"@[3] == 'o' && "kilowatt"@[4] == 'w' && "kilowatt"@[5] == 'a' && "kilowatt"@[6] == 't' && "kilowatt"@[7] == 't',
        "kilowatts"@.len() == 9 && "kilowatts"@[0] == 'k' && "kilowatts"@[1] == 'i' && "kilowatts"@[2] == 'l' && "kilowatts"@[3] == 'o' && "kilowatts"@[4] == 'w' && "kilowatts"@[5] == 'a' && "kilowatts"@[6] == 't' && "kilowatts"@[7] == 't' && "kilowatts"@[8] == 's',
        "hp"@.len() == 2 && "hp"@[0] == 'h' && "hp"@[1] == 'p',
        "horsepower"@.len() == 10 && "horsepower"@[0] == 'h' && "horsepower"@[1] == 'o' && "horsepower"@[2] == 'r' && "horsepower"@[3] == 's' && "horsepower"@[4] == 'e' && "horsepower"@[5] == 'p' && "horsepower"@[6] == 'o' && "horsepower"@[7] == 'w' && "horsepower"@[8] == 'e' && "horsepower"@[9] == 'r',
{
    broadcast use vstd::string::group_string_axioms;

    reveal_strlit("w");
    reveal_strlit("watt");
    reveal_strlit("watts");
    reveal_strlit("kw");
    reveal_strlit("kilowatt");
    reveal_strlit("kilowatts");
    reveal_strlit("hp");
    reveal_strlit("horsepower");
}

/// No token names both a length unit and a temperature unit: the two alias
/// tables are disjoint.
proof fn no_token_in_both_length_temp(t: Seq<char>)
    ensures
        !(length_unit_of(t) is Some && temp_unit_of(t) is Some),
{
    length_alias_facts();
    temp_alias_facts();
}

/// No token names both a length unit and a area unit: the two alias
/// tables are disjoint.
proof fn no_token_in_both_length_area(t: Seq<char>)
    ensures
        !(length_unit_of(t) is Some && area_unit_of(t) is Some),
{
    length_alias_facts();
    area_alias_facts();
}

/// No token names both a length unit and a volume unit: the two alias
/// tables are disjoint.
proof fn no_token_in_both_length_volume(t: Seq<char>)
    ensures
        !(length_unit_of(t) is Some && volume_unit_of(t) is Some),
{
    length_alias_facts();
    volume_alias_facts();
}

/// No token names both a length unit and a angle unit: the two alias
/// tables are disjoint.
proof fn no_token_in_both_length_angle(t: Seq<char>)
    ensures
        !(length_unit_of(t) is Some && angle_unit_of(t) is Some),
{
    length_alias_facts();
    angle_alias_facts();
}

/// No token names both a length unit and a time unit: the two alias
/// tables are disjoint.
proof fn no_token_in_both_length_time(t: Seq<char>)
    ensures
        !(length_unit_of(t) is Some && time_unit_of(t) is Some),
{
    length_alias_facts();
    time_alias_facts();
}

/// No token names both a length unit and a mass unit: the two alias
/// tables are disjoint.
proof fn no_token_in_both_length_mass(t: Seq<char>)
    ensures
        !(length_unit_of(t) is Some && mass_unit_of(t) is Some),
{
    length_alias_facts();
    mass_alias_facts();
}

/// No token names both a length unit and a power unit: the two alias
/// tables are disjoint.
proof fn no_token_in_both_length_power(t: Seq<char>)
    ensures
        !(length_unit_of(t) is Some && power_unit_of(t) is Some),
{
    length_alias_facts();
    power_alias_facts();
}

/// No token names both a temperature unit and a area unit: the two alias
/// tables are disjoint.
proof fn no_token_in_both_temp_area(t: Seq<char>)
    ensures
        !(temp_unit_of(t) is Some && area_unit_of(t) is Some),
{
    temp_alias_facts();
    area_alias_facts();
}

/// No token names both a temperature unit and a volume unit: the two alias
/// tables are disjoint.
proof fn no_token_in_both_temp_volume(t: Seq<char>)
    ensures
        !(temp_unit_of(t) is Some && volume_unit_of(t) is Some),
{
    temp_alias_facts();
    volume_alias_facts();
}

/// No token names both a temperature unit and a angle unit: the two alias
/// tables are disjoint.
proof fn no_token_in_both_temp_angle(t: Seq<char>)
    ensures
        !(temp_unit_of(t) is Some && angle_unit_of(t) is Some),
{
    temp_alias_facts();
    angle_alias_facts();
}

/// No token names both a temperature unit and a time unit: the two alias
/// tables are disjoint.
proof fn no_token_in_both_temp_time(t: Seq<char>)
    ensures
        !(temp_unit_of(t) is Some && time_unit_of(t) is Some),
{
    temp_alias_facts();
    time_alias_facts();
}

/// No token names both a temperature unit and a mass unit: the two alias
/// tables are disjoint.
proof fn no_token_in_both_temp_mass(t: Seq<char>)
    ensures
        !(temp_unit_of(t) is Some && mass_unit_of(t) is Some),
{
    temp_alias_facts();
    mass_alias_facts();
}

/// No token names both a temperature unit and a power unit: the two alias
/// tables are disjoint.
proof fn no_token_in_both_temp_power(t: Seq<char>)
    ensures
        !(temp_unit_of(t) is Some && power_unit_of(t) is Some),
{
    temp_alias_facts();
    power_alias_facts();
}

/// No token names both a area unit and a volume unit: the two alias
/// tables are disjoint.
proof fn no_token_in_both_area_volume(t: Seq<char>)
    ensures
        !(area_unit_of(t) is Some && volume_unit_of(t) is Some),
{
    area_alias_facts();
    volume_alias_facts();
}

/// No token names both a area unit and a angle unit: the two alias
/// tables are disjoint.
proof fn no_token_in_both_area_angle(t: Seq<char>)
    ensures
        !(area_unit_of(t) is Some && angle_unit_of(t) is Some),
{
    area_alias_facts();
    angle_alias_facts();
}

/// No token names both a area unit and a time unit: the two alias
/// tables are disjoint.
proof fn no_token_in_both_area_time(t: Seq<char>)
    ensures
        !(area_unit_of(t) is Some && time_unit_of(t) is Some),
{
    area_alias_facts();
    time_alias_facts();
}

/// No token names both a area unit and a mass unit: the two alias
/// tables are disjoint.
proof fn no_token_in_both_area_mass(t: Seq<char>)
    ensures
        !(area_unit_of(t) is Some && mass_unit_of(t) is Some),
{
    area_alias_facts();
    mass_alias_facts();
}

/// No token names both a area unit and a power unit: the two alias
/// tables are disjoint.
proof fn no_token_in_both_area_power(t: Seq<char>)
    ensures
        !(area_unit_of(t) is Some && power_unit_of(t) is Some),
{
    area_alias_facts();
    power_alias_facts();
}

/// No token names both a volume unit and a angle unit: the two alias
/// tables are disjoint.
proof fn no_token_in_both_volume_angle(t: Seq<char>)
    ensures
        !(volume_unit_of(t) is Some && angle_unit_of(t) is Some),
{
    volume_alias_facts();
    angle_alias_facts();
}

/// No token names both a volume unit and a time unit: the two alias
/// tables are disjoint.
proof fn no_token_in_both_volume_time(t: Seq<char>)
    ensures
        !(volume_unit_of(t) is Some && time_unit_of(t) is Some),
{
    volume_alias_facts();
    time_alias_facts();
}

/// No token names both a volume unit and a mass unit: the two alias
/// tables are disjoint.
proof fn no_token_in_both_volume_mass(t: Seq<char>)
    ensures
        !(volume_unit_of(t) is Some && mass_unit_of(t) is Some),
{
    volume_alias_facts();
    mass_alias_facts();
}

/// No token names both a volume unit and a power unit: the two alias
/// tables are disjoint.
proof fn no_token_in_both_volume_power(t: Seq<char>)
    ensures
        !(volume_unit_of(t) is Some && power_unit_of(t) is Some),
{
    volume_alias_facts();
    power_alias_facts();
}

/// No token names both a angle unit and a time unit: the two alias
/// tables are disjoint.
proof fn no_token_in_both_angle_time(t: Seq<char>)
    ensures
        !(angle_unit_of(t) is Some && time_unit_of(t) is Some),
{
    angle_alias_facts();
    time_alias_facts();
}

/// No token names both a angle unit and a mass unit: the two alias
/// tables are disjoint.
proof fn no_token_in_both_angle_mass(t: Seq<char>)
    ensures
        !(angle_unit_of(t) is Some && mass_unit_of(t) is Some),
{
    angle_alias_facts();
    mass_alias_facts();
}

/// No token names both a angle unit and a power unit: the two alias
/// tables are disjoint.
proof fn no_token_in_both_angle_power(t: Seq<char>)
    ensures
        !(angle_unit_of(t) is Some && power_unit_of(t) is Some),
{
    angle_alias_facts();
    power_alias_facts();
}

/// No token names both a time unit and a mass unit: the two alias
/// tables are disjoint.
proof fn no_token_in_both_time_mass(t: Seq<char>)
    ensures
        !(time_unit_of(t) is Some && mass_unit_of(t) is Some),
{
    time_alias_facts();
    mass_alias_facts();
}

/// No token names both a time unit and a power unit: the two alias
/// tables are disjoint.
proof fn no_token_in_both_time_power(t: Seq<char>)
    ensures
        !(time_unit_of(t) is Some && power_unit_of(t) is Some),
{
    time_alias_facts();
    power_alias_facts();
}

/// No token names both a mass unit and a power unit: the two alias
/// tables are disjoint.
proof fn no_token_in_both_mass_power(t: Seq<char>)
    ensures
        !(mass_unit_of(t) is Some && power_unit_of(t) is Some),
{
    mass_alias_facts();
    power_alias_facts();
}

/// The alias tables of the eight domains are pairwise disjoint: a token
/// names units of at most one domain.
pub proof fn lemma_token_in_one_domain(t: Seq<char>, a: Domain, b: Domain)
    requires
        parses_in(t, a),
        parses_in(t, b),
    ensures
        a == b,
{
    no_token_in_both_length_temp(t);
    no_token_in_both_length_area(t);
    no_token_in_both_length_volume(t);
    no_token_in_both_length_angle(t);
    no_token_in_both_length_time(t);
    no_token_in_both_length_mass(t);
    no_token_in_both_length_power(t);
    no_token_in_both_temp_area(t);
    no_token_in_both_temp_volume(t);
    no_token_in_both_temp_angle(t);
    no_token_in_both_temp_time(t);
    no_token_in_both_temp_mass(t);
    no_token_in_both_temp_power(t);
    no_token_in_both_area_volume(t);
    no_token_in_both_area_angle(t);
    no_token_in_both_area_time(t);
    no_token_in_both_area_mass(t);
    no_token_in_both_area_power(t);
    no_token_in_both_volume_angle(t);
    no_token_in_both_volume_time(t);
    no_token_in_both_volume_mass(t);
    no_token_in_both_volume_power(t);
    no_token_in_both_angle_time(t);
    no_token_in_both_angle_mass(t);
    no_token_in_both_angle_power(t);
    no_token_in_both_time_mass(t);
    no_token_in_both_time_power(t);
    no_token_in_both_mass_power(t);
}
/// Cross-domain rejection: when the two symbols of a request belong to
/// different domains, no single domain parses both, and the request is
/// rejected rather than partially converted.
pub proof fn lemma_distinct_domains_rejected(f: Seq<char>, t: Seq<char>, a: Domain, b: Domain)
    requires
        parses_in(lower_seq(f), a),
        parses_in(lower_seq(t), b),
        a != b,
    ensures
        resolve_spec(lower_seq(f), lower_seq(t)) == Err::<UnitPair, ConversionError>(
            ConversionError::UnrecognizedOrIncompatibleUnits,
        ),
{
    let lf = lower_seq(f);
    let lt = lower_seq(t);
    if length_unit_of(lf) is Some && length_unit_of(lt) is Some {
        lemma_token_in_one_domain(lf, a, Domain::Length);
        lemma_token_in_one_domain(lt, b, Domain::Length);
    }
    if temp_unit_of(lf) is Some && temp_unit_of(lt) is Some {
        lemma_token_in_one_domain(lf, a, Domain::Temperature);
        lemma_token_in_one_domain(lt, b, Domain::Temperature);
    }
    if area_unit_of(lf) is Some && area_unit_of(lt) is Some {
        lemma_token_in_one_domain(lf, a, Domain::Area);
        lemma_token_in_one_domain(lt, b, Domain::Area);
    }
    if volume_unit_of(lf) is Some && volume_unit_of(lt) is Some {
        lemma_token_in_one_domain(lf, a, Domain::Volume);
        lemma_token_in_one_domain(lt, b, Domain::Volume);
    }
    if angle_unit_of(lf) is Some && angle_unit_of(lt) is Some {
        lemma_token_in_one_domain(lf, a, Domain::Angle);
        lemma_token_in_one_domain(lt, b, Domain::Angle);
    }
    if time_unit_of(lf) is Some && time_unit_of(lt) is Some {
        lemma_token_in_one_domain(lf, a, Domain::Time);
        lemma_token_in_one_domain(lt, b, Domain::Time);
    }
    if mass_unit_of(lf) is Some && mass_unit_of(lt) is Some {
        lemma_token_in_one_domain(lf, a, Domain::Mass);
        lemma_token_in_one_domain(lt, b, Domain::Mass);
    }
    if power_unit_of(lf) is Some && power_unit_of(lt) is Some {
        lemma_token_in_one_domain(lf, a, Domain::Power);
        lemma_token_in_one_domain(lt, b, Domain::Power);
    }
}

/// Cross-domain rejection for the length and mass domains: a request from
/// a length symbol to a mass symbol is rejected.
pub proof fn lemma_cross_domain_rejected(f: Seq<char>, t: Seq<char>)
    requires
        length_unit_of(lower_seq(f)) is Some,
        mass_unit_of(lower_seq(t)) is Some,
    ensures
        resolve_spec(lower_seq(f), lower_seq(t)) == Err::<UnitPair, ConversionError>(
            ConversionError::UnrecognizedOrIncompatibleUnits,
        ),
{
    lemma_distinct_domains_rejected(f, t, Domain::Length, Domain::Mass);
}

} // verus!
