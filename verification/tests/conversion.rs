use unit_convert::convert::{plan_conversion, ConversionError};
use unit_convert::plan::{apply_exact, plan_for, Affine};
use unit_convert::units::{parse_category, parse_unit, Category, Unit};

/// Apply a plan to a float, in the plan's documented operation order.
fn apply(p: &Affine, v: f64) -> f64 {
    (v + p.pre as f64 / 100.0) * p.num as f64 / p.den as f64 + p.post as f64 / 100.0
}

fn convert(category: &str, from: &str, to: &str, v: f64) -> Result<f64, ConversionError> {
    plan_conversion(category, from, to).map(|p| apply(&p, v))
}

fn ok(category: &str, from: &str, to: &str, v: f64) -> f64 {
    convert(category, from, to, v).unwrap()
}

#[test]
fn second_to_minute() {
    assert_eq!(ok("time", "second", "minute", 120.0), 2.0);
}

#[test]
fn kilometer_to_meter() {
    assert_eq!(ok("length", "kilometer", "meter", 1.0), 1000.0);
}

#[test]
fn ton_to_gram() {
    assert_eq!(ok("mass", "ton", "gram", 1.0), 1_000_000.0);
}

#[test]
fn celsius_to_fahrenheit() {
    assert_eq!(ok("temperature", "celsius", "fahrenheit", 100.0), 212.0);
}

#[test]
fn fahrenheit_to_kelvin() {
    assert_eq!(ok("temperature", "fahrenheit", "kelvin", 32.0), 273.15);
}

#[test]
fn time_pairs_match_formulas() {
    let v = 777.25_f64;
    assert_eq!(ok("time", "second", "minute", v), v / 60.0);
    assert_eq!(ok("time", "second", "hour", v), v / 3600.0);
    assert_eq!(ok("time", "minute", "second", v), v * 60.0);
    assert_eq!(ok("time", "minute", "hour", v), v / 60.0);
    assert_eq!(ok("time", "hour", "second", v), v * 3600.0);
    assert_eq!(ok("time", "hour", "minute", v), v * 60.0);
}

#[test]
fn length_pairs_match_formulas() {
    let v = 123.5_f64;
    assert_eq!(ok("length", "centimeter", "meter", v), v / 100.0);
    assert_eq!(ok("length", "centimeter", "kilometer", v), v / 100000.0);
    assert_eq!(ok("length", "meter", "centimeter", v), v * 100.0);
    assert_eq!(ok("length", "meter", "kilometer", v), v / 1000.0);
    assert_eq!(ok("length", "kilometer", "centimeter", v), v * 100000.0);
    assert_eq!(ok("length", "kilometer", "meter", v), v * 1000.0);
}

#[test]
fn mass_pairs_match_formulas() {
    let v = 500.0_f64;
    assert_eq!(ok("mass", "gram", "kilogram", v), v / 1000.0);
    assert_eq!(ok("mass", "gram", "ton", v), v / 1_000_000.0);
    assert_eq!(ok("mass", "kilogram", "gram", v), v * 1000.0);
    assert_eq!(ok("mass", "kilogram", "ton", v), v / 1000.0);
    assert_eq!(ok("mass", "ton", "gram", v), v * 1_000_000.0);
    assert_eq!(ok("mass", "ton", "kilogram", v), v * 1000.0);
}

#[test]
fn temperature_pairs_match_formulas() {
    let v = 300.0_f64;
    assert_eq!(ok("temperature", "celsius", "fahrenheit", v), v * 9.0 / 5.0 + 32.0);
    assert_eq!(ok("temperature", "celsius", "kelvin", v), v + 273.15);
    assert_eq!(ok("temperature", "fahrenheit", "celsius", v), (v - 32.0) * 5.0 / 9.0);
    assert_eq!(ok("temperature", "fahrenheit", "kelvin", v), (v - 32.0) * 5.0 / 9.0 + 273.15);
    assert_eq!(ok("temperature", "kelvin", "celsius", v), v - 273.15);
    assert_eq!(ok("temperature", "kelvin", "fahrenheit", v), (v - 273.15) * 9.0 / 5.0 + 32.0);
}

#[test]
fn unknown_category_is_reported() {
    assert_eq!(
        convert("volume", "liter", "gallon", 1.0),
        Err(ConversionError::UnknownCategory("volume".to_string()))
    );
}

#[test]
fn empty_category_is_unknown() {
    assert_eq!(
        convert("", "second", "minute", 1.0),
        Err(ConversionError::UnknownCategory("".to_string()))
    );
}

#[test]
fn category_match_is_case_sensitive() {
    assert_eq!(
        convert("Time", "second", "minute", 1.0),
        Err(ConversionError::UnknownCategory("Time".to_string()))
    );
}

#[test]
fn unknown_from_unit_is_reported() {
    assert_eq!(
        convert("time", "decade", "second", 1.0),
        Err(ConversionError::UnknownUnit("time".to_string(), "decade".to_string()))
    );
}

#[test]
fn unknown_to_unit_is_reported() {
    assert_eq!(
        convert("time", "second", "decade", 1.0),
        Err(ConversionError::UnknownUnit("time".to_string(), "decade".to_string()))
    );
}

#[test]
fn unit_match_is_case_sensitive() {
    assert_eq!(
        convert("time", "Second", "minute", 1.0),
        Err(ConversionError::UnknownUnit("time".to_string(), "Second".to_string()))
    );
}

#[test]
fn cross_category_from_unit_is_unknown() {
    assert_eq!(
        convert("length", "second", "meter", 1.0),
        Err(ConversionError::UnknownUnit("length".to_string(), "second".to_string()))
    );
}

#[test]
fn cross_category_to_unit_is_unknown() {
    assert_eq!(
        convert("time", "second", "meter", 1.0),
        Err(ConversionError::UnknownUnit("time".to_string(), "meter".to_string()))
    );
}

#[test]
fn identity_returns_input_unchanged() {
    assert_eq!(ok("time", "second", "second", 5.5), 5.5);
    assert_eq!(ok("length", "meter", "meter", -3.25), -3.25);
    assert_eq!(ok("mass", "ton", "ton", 0.0), 0.0);
    assert_eq!(ok("temperature", "kelvin", "kelvin", 273.15), 273.15);
}

#[test]
fn round_trip_within_tolerance() {
    let categories: [(&str, [&str; 3]); 4] = [
        ("time", ["second", "minute", "hour"]),
        ("length", ["centimeter", "meter", "kilometer"]),
        ("mass", ["gram", "kilogram", "ton"]),
        ("temperature", ["celsius", "fahrenheit", "kelvin"]),
    ];
    let v = 123.456_f64;
    for (category, units) in categories.iter() {
        for a in units.iter() {
            for b in units.iter() {
                let there = ok(category, a, b, v);
                let back = ok(category, b, a, there);
                assert!(
                    ((back - v) / v).abs() < 1e-9,
                    "{} {} -> {} -> {} gave {}",
                    category,
                    a,
                    b,
                    a,
                    back
                );
            }
        }
    }
}

#[test]
fn parse_functions_resolve_names() {
    assert_eq!(parse_category("mass"), Some(Category::Mass));
    assert_eq!(parse_category("volume"), None);
    assert_eq!(parse_unit(Category::Mass, "ton"), Some(Unit::Ton));
    assert_eq!(parse_unit(Category::Time, "meter"), None);
}

#[test]
fn plan_for_cross_category_is_none() {
    assert_eq!(plan_for(Unit::Second, Unit::Meter), None);
    assert_eq!(plan_for(Unit::Celsius, Unit::Gram), None);
}

#[test]
fn plan_for_identity_is_identity_plan() {
    assert_eq!(
        plan_for(Unit::Gram, Unit::Gram),
        Some(Affine { pre: 0, num: 1, den: 1, post: 0 })
    );
}

#[test]
fn exact_application_and_round_trip() {
    let p = plan_for(Unit::Second, Unit::Minute).unwrap();
    let (n, d) = apply_exact(&p, 120, 1);
    // 120 seconds are exactly two minutes.
    assert_eq!(n, 12000);
    assert_eq!(d, 6000);
    let q = plan_for(Unit::Minute, Unit::Second).unwrap();
    let (n2, d2) = apply_exact(&q, (n / 100) as i64, (d / 100) as i64);
    // Back to exactly 120 seconds: n2 / d2 == 120 / 1.
    assert_eq!(n2 * 1, 120 * d2);
}

#[test]
fn exact_temperature_application() {
    let p = plan_for(Unit::Celsius, Unit::Fahrenheit).unwrap();
    let (n, d) = apply_exact(&p, 100, 1);
    // 100 degrees Celsius are exactly 212 degrees Fahrenheit.
    assert_eq!(n * 1, 212 * d);
}
