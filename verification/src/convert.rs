use vstd::prelude::*;

use crate::temp::rat_le;
use crate::temp::Temp;

verus! {

/// The three temperature scales a unit code can denote.
#[derive(Clone, Copy, PartialEq, Eq, Structural, Debug)]
pub enum Scale {
    Celsius,
    Fahrenheit,
    Kelvin,
}

/// Numerator of a scale's absolute-zero floor:
/// -273.15 C, -459.67 F, 0 K.
pub open spec fn floor_num(s: Scale) -> int {
    match s {
        Scale::Celsius => -27315,
        Scale::Fahrenheit => -45967,
        Scale::Kelvin => 0,
    }
}

/// Denominator of a scale's absolute-zero floor.
pub open spec fn floor_den(s: Scale) -> int {
    match s {
        Scale::Celsius => 100,
        Scale::Fahrenheit => 100,
        Scale::Kelvin => 1,
    }
}

/// The scale a single-character unit code denotes, case-insensitively;
/// `None` for an unrecognized character.
pub open spec fn scale_of_code(code: char) -> Option<Scale> {
    if code == 'c' || code == 'C' {
        Some(Scale::Celsius)
    } else if code == 'f' || code == 'F' {
        Some(Scale::Fahrenheit)
    } else if code == 'k' || code == 'K' {
        Some(Scale::Kelvin)
    } else {
        None
    }
}

/// The converted reading `(num, den)` for a value `n / d` taken from scale
/// `from` into scale `to`.
///
/// Between distinct scales, a value at or below the source scale's absolute
/// zero converts to exactly the destination scale's absolute zero; above it,
/// the exact linear formula applies:
///
/// - C to F: `c * 9/5 + 32`
/// - C to K: `c + 273.15`
/// - F to C: `(f - 32) * 5/9`
/// - F to K: `(f - 32) * 5/9 + 273.15`
/// - K to C: `k - 273.15`
/// - K to F: `k * 9/5 - 459.67`
///
/// A conversion from a scale to itself returns the reading unchanged, with
/// no clamping.
pub open spec fn converted(from: Scale, to: Scale, n: int, d: int) -> (int, int) {
    if from == to {
        (n, d)
    } else if rat_le(n, d, floor_num(from), floor_den(from)) {
        (floor_num(to), floor_den(to))
    } else {
        match (from, to) {
            (Scale::Celsius, Scale::Fahrenheit) => (9 * n + 160 * d, 5 * d),
            (Scale::Celsius, Scale::Kelvin) => (100 * n + 27315 * d, 100 * d),
            (Scale::Fahrenheit, Scale::Celsius) => (5 * n - 160 * d, 9 * d),
            (Scale::Fahrenheit, Scale::Kelvin) => (500 * n + 229835 * d, 900 * d),
            (Scale::Kelvin, Scale::Celsius) => (100 * n - 27315 * d, 100 * d),
            (Scale::Kelvin, Scale::Fahrenheit) => (900 * n - 229835 * d, 500 * d),
            _ => (n, d),
        }
    }
}

/// What `convert` returns for the value `n / d` and the unit codes `from`
/// and `to`: the code pair is rejected with `None` only when the two codes
/// differ and at least one of them denotes no scale.
///
/// Literally identical codes return the value unchanged before any code is
/// examined, and a pair of distinct codes that fold to the same scale is an
/// identity conversion as well.
pub open spec fn spec_convert(n: int, d: int, from: char, to: char) -> Option<(int, int)> {
    if from == to {
        Some((n, d))
    } else {
        match (scale_of_code(from), scale_of_code(to)) {
            (Some(a), Some(b)) => Some(converted(a, b, n, d)),
            _ => None,
        }
    }
}

/// Parse a single-character unit code into its scale, case-insensitively.
pub fn parse_scale(code: char) -> (r: Option<Scale>)
    ensures
        r == scale_of_code(code),
{
    match code {
        'c' | 'C' => Some(Scale::Celsius),
        'f' | 'F' => Some(Scale::Fahrenheit),
        'k' | 'K' => Some(Scale::Kelvin),
        _ => None,
    }
}

/// Convert a celsius temperature to fahrenheit: `c * 9/5 + 32`, clamped at
/// absolute zero (-459.67 F).
pub fn celsius_to_fahrenheit(c: Temp) -> (r: Temp)
    requires
        c.wf(),
        c.in_range(),
    ensures
        r.wf(),
        (r.num as int, r.den as int) == converted(Scale::Celsius, Scale::Fahrenheit, c.num as int, c.den as int),
{
    if c.num * 100 + 27315 * c.den <= 0 {
        Temp { num: -45967, den: 100 }
    } else {
        Temp { num: 9 * c.num + 160 * c.den, den: 5 * c.den }
    }
}

/// Convert a celsius temperature to kelvin: `c + 273.15`, clamped at
/// absolute zero (0 K).
pub fn celsius_to_kelvin(c: Temp) -> (r: Temp)
    requires
        c.wf(),
        c.in_range(),
    ensures
        r.wf(),
        (r.num as int, r.den as int) == converted(Scale::Celsius, Scale::Kelvin, c.num as int, c.den as int),
{
    if c.num * 100 + 27315 * c.den <= 0 {
        Temp { num: 0, den: 1 }
    } else {
        Temp { num: 100 * c.num + 27315 * c.den, den: 100 * c.den }
    }
}

/// Convert a fahrenheit temperature to celsius: `(f - 32) * 5/9`, clamped at
/// absolute zero (-273.15 C).
pub fn fahrenheit_to_celsius(f: Temp) -> (r: Temp)
    requires
        f.wf(),
        f.in_range(),
    ensures
        r.wf(),
        (r.num as int, r.den as int) == converted(Scale::Fahrenheit, Scale::Celsius, f.num as int, f.den as int),
{
    if f.num * 100 + 45967 * f.den <= 0 {
        Temp { num: -27315, den: 100 }
    } else {
        Temp { num: 5 * f.num - 160 * f.den, den: 9 * f.den }
    }
}

/// Convert a fahrenheit temperature to kelvin: `(f - 32) * 5/9 + 273.15`,
/// clamped at absolute zero (0 K).
pub fn fahrenheit_to_kelvin(f: Temp) -> (r: Temp)
    requires
        f.wf(),
        f.in_range(),
    ensures
        r.wf(),
        (r.num as int, r.den as int) == converted(Scale::Fahrenheit, Scale::Kelvin, f.num as int, f.den as int),
{
    if f.num * 100 + 45967 * f.den <= 0 {
        Temp { num: 0, den: 1 }
    } else {
        Temp { num: 500 * f.num + 229835 * f.den, den: 900 * f.den }
    }
}

/// Convert a kelvin temperature to celsius: `k - 273.15`, clamped at
/// absolute zero (-273.15 C).
pub fn kelvin_to_celsius(k: Temp) -> (r: Temp)
    requires
        k.wf(),
        k.in_range(),
    ensures
        r.wf(),
        (r.num as int, r.den as int) == converted(Scale::Kelvin, Scale::Celsius, k.num as int, k.den as int),
{
    if k.num <= 0 {
        Temp { num: -27315, den: 100 }
    } else {
        Temp { num: 100 * k.num - 27315 * k.den, den: 100 * k.den }
    }
}

/// Convert a kelvin temperature to fahrenheit: `k * 9/5 - 459.67`, clamped
/// at absolute zero (-459.67 F).
pub fn kelvin_to_fahrenheit(k: Temp) -> (r: Temp)
    requires
        k.wf(),
        k.in_range(),
    ensures
        r.wf(),
        (r.num as int, r.den as int) == converted(Scale::Kelvin, Scale::Fahrenheit, k.num as int, k.den as int),
{
    if k.num <= 0 {
        Temp { num: -45967, den: 100 }
    } else {
        Temp { num: 900 * k.num - 229835 * k.den, den: 500 * k.den }
    }
}

/// Convert a reading between two already-parsed scales.
pub fn convert_scales(value: Temp, from: Scale, to: Scale) -> (r: Temp)
    requires
        value.wf(),
        value.in_range(),
    ensures
        r.wf(),
        (r.num as int, r.den as int) == converted(from, to, value.num as int, value.den as int),
{
    match (from, to) {
        (Scale::Celsius, Scale::Fahrenheit) => celsius_to_fahrenheit(value),
        (Scale::Celsius, Scale::Kelvin) => celsius_to_kelvin(value),
        (Scale::Fahrenheit, Scale::Celsius) => fahrenheit_to_celsius(value),
        (Scale::Fahrenheit, Scale::Kelvin) => fahrenheit_to_kelvin(value),
        (Scale::Kelvin, Scale::Celsius) => kelvin_to_celsius(value),
        (Scale::Kelvin, Scale::Fahrenheit) => kelvin_to_fahrenheit(value),
        _ => value,
    }
}

/// Convert `value` from the scale coded `from` to the scale coded `to`.
///
/// Returns `None` exactly when the two codes differ and at least one of
/// them is not a recognized unit code (`c`, `f` or `k`, in either case).
pub fn convert(value: Temp, from: char, to: char) -> (r: Option<Temp>)
    requires
        value.wf(),
        value.in_range(),
    ensures
        (match (r, spec_convert(value.num as int, value.den as int, from, to)) {
            (Some(t), Some(p)) => t.wf() && (t.num as int, t.den as int) == p,
            (None, None) => true,
            _ => false,
        }),
{
    if from == to {
        return Some(value);
    }
    match (parse_scale(from), parse_scale(to)) {
        (Some(a), Some(b)) => Some(convert_scales(value, a, b)),
        _ => None,
    }
}

} // verus!
