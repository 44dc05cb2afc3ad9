use vstd::prelude::*;

use crate::convert::converted;
use crate::convert::floor_den;
use crate::convert::floor_num;
use crate::convert::scale_of_code;
use crate::convert::spec_convert;
use crate::convert::Scale;
use crate::temp::rat_eq;
use crate::temp::rat_le;

verus! {

/// Converting a reading from one scale to another and then back returns a
/// reading with the same rational value, whenever the reading starts at or
/// above the source scale's absolute zero.
pub proof fn lemma_round_trip(from: Scale, to: Scale, n: int, d: int)
    requires
        d > 0,
        rat_le(floor_num(from), floor_den(from), n, d),
    ensures
        ({
            let (m, e) = converted(from, to, n, d);
            let (m2, e2) = converted(to, from, m, e);
            e2 > 0 && rat_eq(m2, e2, n, d)
        }),
{
    if from != to {
        let (m, e) = converted(from, to, n, d);
        if !rat_le(n, d, floor_num(from), floor_den(from)) {
            match (from, to) {
                (Scale::Celsius, Scale::Fahrenheit) => {
                    assert(m == 9 * n + 160 * d && e == 5 * d);
                    assert((45 * n) * d == n * (45 * d)) by (nonlinear_arith);
                },
                (Scale::Celsius, Scale::Kelvin) => {
                    assert(m == 100 * n + 27315 * d && e == 100 * d);
                    assert((10000 * n) * d == n * (10000 * d)) by (nonlinear_arith);
                },
                (Scale::Fahrenheit, Scale::Celsius) => {
                    assert(m == 5 * n - 160 * d && e == 9 * d);
                    assert((45 * n) * d == n * (45 * d)) by (nonlinear_arith);
                },
                (Scale::Fahrenheit, Scale::Kelvin) => {
                    assert(m == 500 * n + 229835 * d && e == 900 * d);
                    assert((450000 * n) * d == n * (450000 * d)) by (nonlinear_arith);
                },
                (Scale::Kelvin, Scale::Celsius) => {
                    assert(m == 100 * n - 27315 * d && e == 100 * d);
                    assert((10000 * n) * d == n * (10000 * d)) by (nonlinear_arith);
                },
                (Scale::Kelvin, Scale::Fahrenheit) => {
                    assert(m == 900 * n - 229835 * d && e == 500 * d);
                    assert((450000 * n) * d == n * (450000 * d)) by (nonlinear_arith);
                },
                _ => {},
            }
        }
    }
}

/// Converting a reading at or below the source scale's absolute zero between
/// distinct scales yields exactly the destination scale's absolute zero.
pub proof fn lemma_clamped_at_floor(from: Scale, to: Scale, n: int, d: int)
    requires
        from != to,
        d > 0,
        rat_le(n, d, floor_num(from), floor_den(from)),
    ensures
        converted(from, to, n, d) == (floor_num(to), floor_den(to)),
{
}

/// No conversion between distinct scales returns a reading below the
/// destination scale's absolute zero.
pub proof fn lemma_result_at_or_above_floor(from: Scale, to: Scale, n: int, d: int)
    requires
        from != to,
        d > 0,
    ensures
        ({
            let (m, e) = converted(from, to, n, d);
            e > 0 && rat_le(floor_num(to), floor_den(to), m, e)
        }),
{
}

/// A conversion whose two unit codes are literally the same character
/// returns the value unchanged, whatever the character.
pub proof fn lemma_identical_codes(n: int, d: int, code: char)
    ensures
        spec_convert(n, d, code, code) == Some((n, d)),
{
}

/// Unit codes are case-insensitive: two code pairs that denote the same two
/// scales produce the same conversion result.
pub proof fn lemma_codes_case_insensitive(
    n: int,
    d: int,
    from1: char,
    to1: char,
    from2: char,
    to2: char,
)
    requires
        scale_of_code(from1) is Some,
        scale_of_code(to1) is Some,
        scale_of_code(from1) == scale_of_code(from2),
        scale_of_code(to1) == scale_of_code(to2),
    ensures
        spec_convert(n, d, from1, to1) == spec_convert(n, d, from2, to2),
{
}

} // verus!
