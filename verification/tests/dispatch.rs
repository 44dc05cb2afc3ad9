use tempconv::celsius_to_fahrenheit;
use tempconv::celsius_to_kelvin;
use tempconv::convert;
use tempconv::convert_scales;
use tempconv::fahrenheit_to_celsius;
use tempconv::fahrenheit_to_kelvin;
use tempconv::kelvin_to_celsius;
use tempconv::kelvin_to_fahrenheit;
use tempconv::parse_scale;
use tempconv::Scale;
use tempconv::Temp;

fn hundredths(h: i64) -> Temp {
    Temp::from_hundredths(h)
}

#[test]
fn test_parse_scale_recognizes_both_cases() {
    assert_eq!(parse_scale('c'), Some(Scale::Celsius));
    assert_eq!(parse_scale('C'), Some(Scale::Celsius));
    assert_eq!(parse_scale('f'), Some(Scale::Fahrenheit));
    assert_eq!(parse_scale('F'), Some(Scale::Fahrenheit));
    assert_eq!(parse_scale('k'), Some(Scale::Kelvin));
    assert_eq!(parse_scale('K'), Some(Scale::Kelvin));
    assert_eq!(parse_scale('x'), None);
    assert_eq!(parse_scale('q'), None);
}

#[test]
fn test_convert_zero_celsius_to_kelvin() {
    let r = convert(hundredths(0), 'c', 'k').unwrap();
    assert!(r.eq_value(hundredths(27315)));
}

#[test]
fn test_convert_fahrenheit_floor_to_kelvin() {
    let r = convert(hundredths(-45967), 'F', 'K').unwrap();
    assert!(r.eq_value(hundredths(0)));
}

#[test]
fn test_convert_unknown_code_is_rejected() {
    assert!(convert(hundredths(4200), 'x', 'c').is_none());
    assert!(convert(hundredths(4200), 'c', 'x').is_none());
    assert!(convert(hundredths(4200), 'x', 'y').is_none());
}

#[test]
fn test_convert_identical_codes_returns_value_unchanged() {
    let v = hundredths(4200);
    assert_eq!(convert(v, 'c', 'c'), Some(v));
    assert_eq!(convert(v, 'K', 'K'), Some(v));
    assert_eq!(convert(v, 'x', 'x'), Some(v));
    let below_floor = hundredths(-99999);
    assert_eq!(convert(below_floor, 'c', 'c'), Some(below_floor));
}

#[test]
fn test_convert_folded_same_scale_returns_value_unchanged() {
    let v = hundredths(4200);
    assert_eq!(convert(v, 'C', 'c'), Some(v));
    assert_eq!(convert(v, 'k', 'K'), Some(v));
}

#[test]
fn test_convert_is_case_insensitive() {
    let v = hundredths(2500);
    assert_eq!(convert(v, 'c', 'f'), convert(v, 'C', 'F'));
    assert_eq!(convert(v, 'f', 'k'), convert(v, 'F', 'K'));
    assert_eq!(convert(v, 'K', 'c'), convert(v, 'k', 'C'));
}

#[test]
fn test_convert_matches_named_functions() {
    let v = hundredths(2500);
    assert_eq!(convert(v, 'c', 'f'), Some(celsius_to_fahrenheit(v)));
    assert_eq!(convert(v, 'c', 'k'), Some(celsius_to_kelvin(v)));
    assert_eq!(convert(v, 'f', 'c'), Some(fahrenheit_to_celsius(v)));
    assert_eq!(convert(v, 'f', 'k'), Some(fahrenheit_to_kelvin(v)));
    assert_eq!(convert(v, 'k', 'c'), Some(kelvin_to_celsius(v)));
    assert_eq!(convert(v, 'k', 'f'), Some(kelvin_to_fahrenheit(v)));
}

#[test]
fn test_round_trips_return_original_value() {
    let v = hundredths(2500);
    assert!(fahrenheit_to_celsius(celsius_to_fahrenheit(v)).eq_value(v));
    assert!(celsius_to_fahrenheit(fahrenheit_to_celsius(v)).eq_value(v));
    assert!(kelvin_to_celsius(celsius_to_kelvin(v)).eq_value(v));
    assert!(celsius_to_kelvin(kelvin_to_celsius(v)).eq_value(v));
    assert!(kelvin_to_fahrenheit(fahrenheit_to_kelvin(v)).eq_value(v));
    assert!(fahrenheit_to_kelvin(kelvin_to_fahrenheit(v)).eq_value(v));
}

#[test]
fn test_round_trip_at_floor_returns_floor() {
    let floor_c = hundredths(-27315);
    assert!(fahrenheit_to_celsius(celsius_to_fahrenheit(floor_c)).eq_value(floor_c));
}

#[test]
fn test_every_pair_clamps_at_and_below_floor() {
    let floor_c = hundredths(-27315);
    let floor_f = hundredths(-45967);
    let floor_k = hundredths(0);
    let below_c = hundredths(-30000);
    let below_f = hundredths(-50000);
    let below_k = hundredths(-100);
    for c in [floor_c, below_c] {
        assert!(celsius_to_fahrenheit(c).eq_value(floor_f));
        assert!(celsius_to_kelvin(c).eq_value(floor_k));
    }
    for f in [floor_f, below_f] {
        assert!(fahrenheit_to_celsius(f).eq_value(floor_c));
        assert!(fahrenheit_to_kelvin(f).eq_value(floor_k));
    }
    for k in [floor_k, below_k] {
        assert!(kelvin_to_celsius(k).eq_value(floor_c));
        assert!(kelvin_to_fahrenheit(k).eq_value(floor_f));
    }
}

#[test]
fn test_convert_scales_dispatches() {
    let v = hundredths(10000);
    assert!(convert_scales(v, Scale::Celsius, Scale::Fahrenheit).eq_value(hundredths(21200)));
    assert_eq!(convert_scales(v, Scale::Kelvin, Scale::Kelvin), v);
}

#[test]
fn test_eq_value_compares_rational_values() {
    assert!(Temp::new(1, 2).eq_value(Temp::new(2, 4)));
    assert!(Temp::new(212, 1).eq_value(hundredths(21200)));
    assert!(!Temp::new(1, 2).eq_value(Temp::new(1, 3)));
}

#[test]
fn test_fractional_reading_converts_exactly() {
    let third_of_a_degree = Temp::new(1, 3);
    let r = celsius_to_fahrenheit(third_of_a_degree);
    assert!(r.eq_value(Temp::new(489, 15)));
}
