use vstd::prelude::*;

verus! {

/// Largest numerator magnitude, and largest denominator, that the conversion
/// routines accept: it keeps every intermediate product inside `i64`.
pub const RANGE_LIMIT: i64 = 10_000_000_000_000;

/// An exact temperature reading: the rational number `num / den`.
///
/// Every constant the conversions use (absolute zero of each scale, the
/// offsets 32 and 273.15, the factor 9/5) is rational, so a rational carrier
/// keeps every conversion exact.
#[derive(Clone, Copy, PartialEq, Eq, Structural, Debug)]
pub struct Temp {
    pub num: i64,
    pub den: i64,
}

/// `an / ad <= bn / bd`, read with positive denominators `ad` and `bd`.
pub open spec fn rat_le(an: int, ad: int, bn: int, bd: int) -> bool {
    an * bd <= bn * ad
}

/// `an / ad == bn / bd`, read with positive denominators `ad` and `bd`.
pub open spec fn rat_eq(an: int, ad: int, bn: int, bd: int) -> bool {
    an * bd == bn * ad
}

impl Temp {
    /// A temperature is well formed when its denominator is positive.
    pub open spec fn wf(self) -> bool {
        self.den > 0
    }

    /// Small enough for the conversion arithmetic to stay inside `i64`.
    pub open spec fn in_range(self) -> bool {
        &&& -RANGE_LIMIT <= self.num <= RANGE_LIMIT
        &&& 0 < self.den <= RANGE_LIMIT
    }

    pub fn new(num: i64, den: i64) -> (t: Temp)
        requires
            den > 0,
        ensures
            t.num == num,
            t.den == den,
            t.wf(),
    {
        Temp { num, den }
    }

    /// The reading `h / 100`: a whole number of hundredths of a degree.
    pub fn from_hundredths(h: i64) -> (t: Temp)
        ensures
            t.num == h,
            t.den == 100,
            t.wf(),
    {
        Temp { num: h, den: 100 }
    }

    /// Whether `self` and `other` denote the same rational value.
    pub fn eq_value(self, other: Temp) -> (r: bool)
        requires
            self.wf(),
            other.wf(),
        ensures
            r == rat_eq(self.num as int, self.den as int, other.num as int, other.den as int),
    {
        proof {
            assert(-0x40000000000000000000000000000000
                <= (self.num as int) * (other.den as int)
                <= 0x40000000000000000000000000000000
                && -0x40000000000000000000000000000000
                <= (other.num as int) * (self.den as int)
                <= 0x40000000000000000000000000000000) by (nonlinear_arith)
                requires
                    -0x8000000000000000 <= self.num <= 0x7fffffffffffffff,
                    -0x8000000000000000 <= self.den <= 0x7fffffffffffffff,
                    -0x8000000000000000 <= other.num <= 0x7fffffffffffffff,
                    -0x8000000000000000 <= other.den <= 0x7fffffffffffffff;
        }
        (self.num as i128) * (other.den as i128) == (other.num as i128) * (self.den as i128)
    }
}

} // verus!
