use vstd::prelude::*;

verus! {

/// The quotient of two integers as a real number, with division by zero
/// read as zero.
pub open spec fn quotient(numerator: int, denominator: int) -> real {
    if denominator == 0 {
        0 as real
    } else {
        numerator as real / denominator as real
    }
}

/// An exact fraction: a numerator over a denominator, not reduced.
#[derive(Clone, Copy, Debug)]
pub struct Ratio {
    pub numerator: i128,
    pub denominator: i128,
}

impl Ratio {
    /// The rational number this fraction stands for.
    pub open spec fn value(self) -> real {
        quotient(self.numerator as int, self.denominator as int)
    }

    /// The fraction `numerator / denominator`, or `0 / 1` when the
    /// denominator is zero.
    pub fn new(numerator: i128, denominator: i128) -> (r: Ratio)
        ensures
            denominator != 0 ==> r.numerator == numerator && r.denominator == denominator,
            denominator == 0 ==> r.numerator == 0 && r.denominator == 1,
            r.value() == quotient(numerator as int, denominator as int),
    {
        if denominator == 0 {
            assert(0 as real / 1 as real == 0 as real) by (nonlinear_arith);
            Ratio { numerator: 0, denominator: 1 }
        } else {
            Ratio { numerator, denominator }
        }
    }
}

/// Two quotients over one non-zero denominator agree exactly when their
/// numerators do.
pub proof fn lemma_quotient_injective(a: int, b: int, denominator: int)
    requires
        denominator != 0,
    ensures
        quotient(a, denominator) == quotient(b, denominator) <==> a == b,
{
    let x = a as real;
    let y = b as real;
    let d = denominator as real;
    assert(d != 0 as real);
    assert((x / d == y / d) <==> x == y) by (nonlinear_arith)
        requires
            d != 0 as real,
    ;
}

/// Folding one more term into a running mean gives the mean of the longer
/// history.
pub proof fn lemma_mean_step(sum: int, n: nat, x: int)
    requires
        n == 0 ==> sum == 0,
    ensures
        (quotient(sum, n as int) * (n as real) + x as real) / ((n + 1) as real) == quotient(
            sum + x,
            n as int + 1,
        ),
{
    let s = sum as real;
    let c = n as real;
    let t = x as real;
    let d = (n + 1) as real;
    assert(d == c + 1 as real);
    assert((sum + x) as real == s + t);
    if n == 0 {
        assert((0 as real) * c == 0 as real) by (nonlinear_arith);
    } else {
        assert(c != 0 as real);
        assert((s / c) * c == s) by (nonlinear_arith)
            requires
                c != 0 as real,
        ;
    }
}

/// Folding one more trade into a volume-weighted mean gives the weighted sum
/// over the new total volume, provided the new total volume is not zero.
pub proof fn lemma_weighted_step(weighted: int, volume: int, notional: int, next_volume: int)
    requires
        volume == 0 ==> weighted == 0,
        next_volume != 0,
    ensures
        (quotient(weighted, volume) * (volume as real) + notional as real) / (next_volume as real)
            == quotient(weighted + notional, next_volume),
{
    let w = weighted as real;
    let v = volume as real;
    let t = notional as real;
    assert((weighted + notional) as real == w + t);
    if volume == 0 {
        assert((0 as real) * v == 0 as real) by (nonlinear_arith);
    } else {
        assert(v != 0 as real);
        assert((w / v) * v == w) by (nonlinear_arith)
            requires
                v != 0 as real,
        ;
    }
}

} // verus!
