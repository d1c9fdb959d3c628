//! The quorum target: a fraction above zero and at most one, held exactly
//! as numerator over denominator.

use vstd::prelude::*;

verus! {

#[derive(Clone, Copy, Debug, PartialEq, Eq, Structural)]
pub struct Ratio {
    pub num: u32,
    pub den: u32,
}

impl Ratio {
    /// The fraction lies above zero and does not exceed one.
    pub open spec fn wf(self) -> bool {
        0 < self.num <= self.den
    }

    /// `count` times the fraction, rounded up to a whole number.
    pub open spec fn ceil_of(self, count: int) -> int {
        (count * self.num + self.den - 1) / (self.den as int)
    }

    /// The fraction `num / den`, where it is above zero and at most one.
    pub fn new(num: u32, den: u32) -> (ratio: Option<Ratio>)
        ensures
            ratio is Some <==> 0 < num <= den,
            ratio is Some ==> ratio->Some_0 == (Ratio { num, den }),
    {
        if 0 < num && num <= den {
            Some(Ratio { num, den })
        } else {
            None
        }
    }

    /// `count` times the fraction, rounded up.
    pub fn scale(&self, count: i8) -> (needed: i8)
        requires
            self.wf(),
            count >= 0,
        ensures
            needed == self.ceil_of(count as int),
            0 <= needed <= count,
            needed * self.den >= count * self.num,
            (needed - 1) * self.den < count * self.num,
    {
        let count_wide: u64 = count as u64;
        let num: u64 = self.num as u64;
        let den: u64 = self.den as u64;
        proof {
            lemma_ceil_is_least(*self, count as int);
            assert(0 <= count_wide * num <= 127 * 0xffff_ffff) by (nonlinear_arith)
                requires
                    0 <= count_wide <= 127,
                    0 <= num <= 0xffff_ffff,
            ;
        }
        let needed: u64 = (count_wide * num + den - 1) / den;
        needed as i8
    }
}

/// Rounding up gives the least whole number that is not below the exact
/// product, and for a count that is not negative it lies between zero and
/// the count.
pub proof fn lemma_ceil_is_least(ratio: Ratio, count: int)
    requires
        ratio.wf(),
    ensures
        ratio.ceil_of(count) * ratio.den >= count * ratio.num,
        (ratio.ceil_of(count) - 1) * ratio.den < count * ratio.num,
        count >= 0 ==> 0 <= ratio.ceil_of(count) <= count,
        count >= 1 ==> ratio.ceil_of(count) >= 1,
{
    let n: int = ratio.num as int;
    let d: int = ratio.den as int;
    let x: int = count * n + d - 1;
    let k: int = x / d;
    assert(x == d * k + x % d && 0 <= x % d < d) by (nonlinear_arith)
        requires
            d > 0,
            k == x / d,
    ;
    assert(k * d >= count * n && (k - 1) * d < count * n) by (nonlinear_arith)
        requires
            x == d * k + x % d,
            0 <= x % d < d,
            x == count * n + d - 1,
    ;
    if count >= 0 {
        assert(0 <= k <= count) by (nonlinear_arith)
            requires
                k * d >= count * n,
                (k - 1) * d < count * n,
                0 < n <= d,
                count >= 0,
        ;
    }
    if count >= 1 {
        assert(k >= 1) by (nonlinear_arith)
            requires
                k * d >= count * n,
                0 < n <= d,
                count >= 1,
        ;
    }
}

} // verus!
