use vstd::prelude::*;

verus! {

/// Largest numerator a well-formed [`Ratio`] may hold (2^120).
pub const RATIO_MAX_NUM: u128 = 0x1000000000000000000000000000000;

/// Largest denominator a well-formed [`Ratio`] may hold (2^88).
pub const RATIO_MAX_DEN: u128 = 0x10000000000000000000000;

/// A non-negative decimal quantity with three digits after the point,
/// held as a count of thousandths (`Milli { thousandths: 1500 }` is 1.5).
#[derive(Debug, Clone, Copy, PartialEq, Eq, Structural)]
pub struct Milli {
    pub thousandths: u32,
}

impl Milli {
    pub fn new(thousandths: u32) -> (r: Milli)
        ensures
            r.thousandths == thousandths,
    {
        Milli { thousandths }
    }
}

/// A non-negative decimal quantity rounded to two digits after the point,
/// held as a count of hundredths (`Centi { hundredths: 1857 }` is 18.57).
#[derive(Debug, Clone, Copy, PartialEq, Eq, Structural)]
pub struct Centi {
    pub hundredths: u128,
}

/// An exact non-negative rational quantity `num / den`.
#[derive(Debug, Clone, Copy, PartialEq, Eq, Structural)]
pub struct Ratio {
    pub num: u128,
    pub den: u128,
}

impl Ratio {
    /// A positive denominator, and both parts small enough that the
    /// comparisons and roundings of this library stay within 128 bits.
    pub open spec fn wf(self) -> bool {
        &&& self.den > 0
        &&& self.num <= RATIO_MAX_NUM
        &&& self.den <= RATIO_MAX_DEN
    }

    pub fn new(num: u128, den: u128) -> (r: Ratio)
        ensures
            r.num == num,
            r.den == den,
    {
        Ratio { num, den }
    }
}

/// The integer nearest to `100 * num / den`, halves rounded up
/// (away from zero, since the quantity is non-negative).
pub open spec fn round_hundredths(num: int, den: int) -> int {
    (200 * num + den) / (2 * den)
}

/// Rounds an exact quantity to two digits after the point.
pub fn to_hundredths(value: &Ratio) -> (r: Centi)
    requires
        value.wf(),
    ensures
        r.hundredths == round_hundredths(value.num as int, value.den as int),
{
    let twice_den = 2 * value.den;
    Centi { hundredths: (200 * value.num + value.den) / twice_den }
}

/// A rounded quantity differs from the exact one by at most half a hundredth:
/// `-1/2 <= 100 * num / den - round_hundredths(num, den) < 1/2`.
pub proof fn lemma_round_hundredths_nearest(num: int, den: int)
    requires
        num >= 0,
        den > 0,
    ensures
        -den <= 200 * num - 2 * den * round_hundredths(num, den) < den,
        round_hundredths(num, den) >= 0,
{
    let r = round_hundredths(num, den);
    let m = 200 * num + den;
    vstd::arithmetic::div_mod::lemma_fundamental_div_mod(m, 2 * den);
    vstd::arithmetic::div_mod::lemma_mod_bound(m, 2 * den);
    vstd::arithmetic::div_mod::lemma_div_pos_is_pos(m, 2 * den);
    assert(m == (2 * den) * r + m % (2 * den));
    assert(2 * den * r == (2 * den) * r) by (nonlinear_arith);
}

} // verus!
