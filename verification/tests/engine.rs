use unitconv::angle::{parse_angle_unit, AngleUnit};
use unitconv::area::{parse_area_unit, AreaUnit};
use unitconv::dispatch::{resolve_plan, resolve_units, ConversionError, Plan, UnitPair};
use unitconv::factor::{AffineMap, Factor};
use unitconv::length::{parse_length_unit, LengthUnit};
use unitconv::mass::{parse_mass_unit, MassUnit};
use unitconv::power::{parse_power_unit, PowerUnit};
use unitconv::temperature::{parse_temp_unit, TempUnit};
use unitconv::time::{parse_time_unit, TimeUnit};
use unitconv::volume::{parse_volume_unit, VolumeUnit};

fn factor_value(f: &Factor) -> f64 {
    let n = f.num as f64;
    let n = if f.pi { n * std::f64::consts::PI } else { n };
    n / (f.den as f64)
}

fn affine_offset(m: &AffineMap) -> f64 {
    m.off_num as f64 / m.off_den as f64
}

fn apply_plan(value: f64, plan: &Plan) -> f64 {
    match plan {
        Plan::Scale { from, to } => value * factor_value(from) / factor_value(to),
        Plan::Affine { from, to } => {
            let celsius =
                (value - affine_offset(from)) * (from.scale_num as f64) / (from.scale_den as f64);
            celsius * (to.scale_den as f64) / (to.scale_num as f64) + affine_offset(to)
        }
    }
}

fn engine_convert(value: f64, from: &str, to: &str) -> Result<f64, ConversionError> {
    match resolve_plan(from, to) {
        Ok(plan) => Ok(apply_plan(value, &plan)),
        Err(e) => Err(e),
    }
}

fn assert_close(actual: f64, expected: f64, rel: f64) {
    let scale = actual.abs().max(expected.abs()).max(1e-300);
    assert!(
        (actual - expected).abs() <= rel * scale,
        "expected {expected}, got {actual}"
    );
}

#[test]
fn mile_to_kilometer() {
    assert_close(engine_convert(1.0, "mi", "km").unwrap(), 1.609344, 1e-12);
}

#[test]
fn fahrenheit_to_celsius() {
    assert_close(engine_convert(64.0, "F", "C").unwrap(), 160.0 / 9.0, 1e-12);
}

#[test]
fn kilogram_to_pound() {
    assert_close(engine_convert(1.0, "kg", "lb").unwrap(), 2.20462, 1e-5);
}

#[test]
fn celsius_to_kelvin_exact() {
    assert_eq!(engine_convert(0.0, "C", "K").unwrap(), 273.15);
}

#[test]
fn horsepower_to_watt_exact() {
    assert_eq!(engine_convert(1.0, "hp", "W").unwrap(), 735.5);
}

#[test]
fn degree_radian() {
    assert_close(
        engine_convert(180.0, "deg", "rad").unwrap(),
        std::f64::consts::PI,
        1e-12,
    );
    assert_close(
        engine_convert(std::f64::consts::PI, "rad", "deg").unwrap(),
        180.0,
        1e-12,
    );
}

#[test]
fn self_conversion_is_exact() {
    // Powers of two scale exactly under any factor; 3.7 exercises the
    // base units, whose factor is one.
    let symbols = [
        "mm", "km", "mi", "ly", "g", "lb", "ton", "s", "yr", "rad", "deg", "ml", "gal", "m2",
        "acre", "w", "hp", "c", "f", "k",
    ];
    for s in symbols {
        for v in [1.0, 2.0, 4.0, 0.5, -8.0] {
            assert_eq!(engine_convert(v, s, s).unwrap(), v, "unit {s}, value {v}");
        }
    }
    for s in ["m", "g", "s", "rad", "ml", "m2", "w", "c"] {
        assert_eq!(engine_convert(3.7, s, s).unwrap(), 3.7, "unit {s}");
    }
}

#[test]
fn round_trips_within_tolerance() {
    let pairs = [
        (1.0, "mi", "km"),
        (2.5, "ly", "mm"),
        (64.0, "f", "c"),
        (300.0, "k", "f"),
        (-40.0, "c", "f"),
        (12.0, "acre", "sqft"),
        (7.0, "gal", "tsp"),
        (90.0, "deg", "rad"),
        (1.5, "yr", "min"),
        (3.0, "oz", "slug"),
        (2.0, "hp", "kw"),
    ];
    for (v, a, b) in pairs {
        let there = engine_convert(v, a, b).unwrap();
        let back = engine_convert(there, b, a).unwrap();
        assert_close(back, v, 1e-9);
    }
}

#[test]
fn parse_is_case_insensitive() {
    assert_eq!(parse_length_unit("KM"), parse_length_unit("km"));
    assert_eq!(parse_length_unit("KM"), parse_length_unit("kilometer"));
    assert_eq!(parse_length_unit("Km"), Some(LengthUnit::Kilometer));
    assert_eq!(parse_temp_unit("CELSIUS"), Some(TempUnit::Celsius));
    assert_eq!(parse_mass_unit("Oz"), Some(MassUnit::Ounce));
    assert_eq!(parse_power_unit("HP"), Some(PowerUnit::Horsepower));
    assert_eq!(parse_time_unit("YR"), Some(TimeUnit::Year));
    assert_eq!(parse_volume_unit("GaL"), Some(VolumeUnit::Gallon));
    assert_eq!(parse_area_unit("SqMi"), Some(AreaUnit::SquareMile));
    assert_eq!(parse_angle_unit("RADIANS"), Some(AngleUnit::Radian));
}

#[test]
fn parse_rejects_unknown_and_untrimmed() {
    assert_eq!(parse_length_unit("parsecs"), None);
    assert_eq!(parse_length_unit(" km"), None);
    assert_eq!(parse_length_unit("km "), None);
    assert_eq!(parse_mass_unit(""), None);
    assert_eq!(parse_temp_unit("celcius"), None);
}

#[test]
fn parse_accepts_odd_aliases() {
    assert_eq!(parse_angle_unit("\u{b0}"), Some(AngleUnit::Degree));
    assert_eq!(parse_volume_unit("fl oz"), Some(VolumeUnit::FluidOunce));
    assert_eq!(parse_volume_unit("acre-ft"), Some(VolumeUnit::AcreFoot));
    assert_eq!(parse_length_unit("perch"), Some(LengthUnit::Rod));
    assert_eq!(parse_mass_unit("metricton"), Some(MassUnit::Tonne));
    assert_eq!(parse_time_unit("a"), Some(TimeUnit::Year));
}

#[test]
fn cross_domain_pairs_are_rejected() {
    assert_eq!(
        engine_convert(1.0, "km", "kg"),
        Err(ConversionError::UnrecognizedOrIncompatibleUnits)
    );
    assert_eq!(
        resolve_units("g", "m"),
        Err(ConversionError::UnrecognizedOrIncompatibleUnits)
    );
    assert_eq!(
        resolve_units("c", "w"),
        Err(ConversionError::UnrecognizedOrIncompatibleUnits)
    );
    assert_eq!(
        resolve_units("banana", "km"),
        Err(ConversionError::UnrecognizedOrIncompatibleUnits)
    );
}

#[test]
fn dispatcher_resolves_each_domain() {
    assert_eq!(
        resolve_units("m", "km"),
        Ok(UnitPair::Length(LengthUnit::Meter, LengthUnit::Kilometer))
    );
    assert_eq!(
        resolve_units("c", "f"),
        Ok(UnitPair::Temperature(TempUnit::Celsius, TempUnit::Fahrenheit))
    );
    assert_eq!(
        resolve_units("ha", "acre"),
        Ok(UnitPair::Area(AreaUnit::Hectare, AreaUnit::Acre))
    );
    assert_eq!(
        resolve_units("l", "pt"),
        Ok(UnitPair::Volume(VolumeUnit::Liter, VolumeUnit::Pint))
    );
    assert_eq!(
        resolve_units("rad", "deg"),
        Ok(UnitPair::Angle(AngleUnit::Radian, AngleUnit::Degree))
    );
    assert_eq!(
        resolve_units("h", "min"),
        Ok(UnitPair::Time(TimeUnit::Hour, TimeUnit::Minute))
    );
    assert_eq!(
        resolve_units("t", "gr"),
        Ok(UnitPair::Mass(MassUnit::Tonne, MassUnit::Grain))
    );
    assert_eq!(
        resolve_units("kw", "hp"),
        Ok(UnitPair::Power(PowerUnit::Kilowatt, PowerUnit::Horsepower))
    );
}

#[test]
fn dispatcher_tries_length_first() {
    // The documented priority order starts with length: a pair that parses
    // as lengths must resolve there, whatever later domains would say.
    let r = resolve_units("m", "mi");
    assert!(matches!(r, Ok(UnitPair::Length(_, _))));
    // And the temperature symbols, which no earlier domain accepts, fall
    // through to the temperature domain in order.
    let r = resolve_units("k", "c");
    assert!(matches!(r, Ok(UnitPair::Temperature(_, _))));
}

#[test]
fn factor_tables_hold_the_canonical_constants() {
    let mile = LengthUnit::Mile.to_meters_factor();
    assert_eq!((mile.num, mile.den, mile.pi), (1609344, 1000, false));
    assert_eq!(factor_value(&mile), 1609.344);
    let ly = LengthUnit::LightYear.to_meters_factor();
    assert_eq!(factor_value(&ly), 9.4607e15);
    let lb = MassUnit::Pound.to_grams();
    assert_eq!(factor_value(&lb), 453.59237);
    let tonne = MassUnit::Tonne.to_grams();
    assert_eq!(factor_value(&tonne), 1_000_000.0);
    let gal = VolumeUnit::Gallon.to_milliliters();
    assert_eq!(factor_value(&gal), 3785.41);
    let acre = AreaUnit::Acre.to_square_meters_factor();
    assert_eq!(factor_value(&acre), 4046.8564224);
    let hp = PowerUnit::Horsepower.to_watts();
    assert_eq!(factor_value(&hp), 735.5);
    let yr = TimeUnit::Year.to_seconds();
    assert_eq!(factor_value(&yr), 31_556_736.0);
    let deg = AngleUnit::Degree.to_radians();
    assert_eq!(factor_value(&deg), std::f64::consts::PI / 180.0);
}

#[test]
fn temperature_maps_hold_the_canonical_constants() {
    let c = TempUnit::Celsius.celsius_map();
    assert_eq!(affine_offset(&c), 0.0);
    assert_eq!((c.scale_num, c.scale_den), (1, 1));
    let f = TempUnit::Fahrenheit.celsius_map();
    assert_eq!(affine_offset(&f), 32.0);
    assert_eq!((f.scale_num, f.scale_den), (5, 9));
    let k = TempUnit::Kelvin.celsius_map();
    assert_eq!(affine_offset(&k), 273.15);
    assert_eq!((k.scale_num, k.scale_den), (1, 1));
}

#[test]
fn temperature_is_unbounded() {
    // Below absolute zero passes through: the conversion is permissive.
    assert_close(engine_convert(-500.0, "c", "k").unwrap(), -226.85, 1e-12);
    assert_close(engine_convert(0.0, "k", "c").unwrap(), -273.15, 1e-12);
    assert_close(engine_convert(0.0, "k", "f").unwrap(), -459.67, 1e-12);
}

#[test]
fn scale_conversions_match_known_values() {
    assert_close(engine_convert(26.2, "mi", "km").unwrap(), 42.164813, 1e-6);
    assert_close(engine_convert(1.0, "ft", "in").unwrap(), 12.0, 1e-12);
    assert_close(engine_convert(1.0, "au", "km").unwrap(), 149597870.7, 1e-12);
    assert_close(engine_convert(1.0, "acre", "sqft").unwrap(), 43560.0, 1e-9);
    assert_close(engine_convert(1.0, "gal", "qt").unwrap(), 4.0, 1e-4);
    assert_close(engine_convert(1.0, "d", "s").unwrap(), 86400.0, 1e-12);
    assert_close(engine_convert(1.0, "slug", "kg").unwrap(), 14.593903, 1e-12);
    assert_close(engine_convert(2.0, "kw", "hp").unwrap(), 2000.0 / 735.5, 1e-12);
}
