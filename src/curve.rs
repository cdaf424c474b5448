//! Curves: pure functions from a timestamp to a non-negative quantity.
use vstd::prelude::*;
use vstd::arithmetic::div_mod::{
    lemma_div_is_ordered, lemma_fundamental_div_mod, lemma_fundamental_div_mod_converse_div,
    lemma_mod_division_less_than_divisor,
};

verus! {

/// A linear decay (or growth) between two points, clamped outside them.
#[derive(Clone, Copy, Debug, PartialEq, Eq, Structural)]
pub struct SaturatingLinear {
    pub min_x: u64,
    pub min_y: u128,
    pub max_x: u64,
    pub max_y: u128,
}

#[derive(Clone, Copy, Debug, PartialEq, Eq, Structural)]
pub enum Curve {
    Constant(u128),
    SaturatingLinear(SaturatingLinear),
}

impl SaturatingLinear {
    /// `min_y` up to `min_x`, `max_y` from `max_x` on, and in between the
    /// straight line from one to the other, rounded towards `min_y`.
    pub open spec fn spec_value(self, x: u64) -> int {
        if x <= self.min_x {
            self.min_y as int
        } else if x >= self.max_x {
            self.max_y as int
        } else {
            let k = x - self.min_x;
            let n = self.max_x - self.min_x;
            if self.max_y > self.min_y {
                self.min_y + (self.max_y - self.min_y) * k / n
            } else {
                self.min_y - (self.min_y - self.max_y) * k / n
            }
        }
    }

    pub fn value(&self, x: u64) -> (r: u128)
        ensures
            r == self.spec_value(x),
    {
        if x <= self.min_x {
            self.min_y
        } else if x >= self.max_x {
            self.max_y
        } else {
            let k: u64 = x - self.min_x;
            let n: u64 = self.max_x - self.min_x;
            if self.max_y > self.min_y {
                self.min_y + scale(self.max_y - self.min_y, k, n)
            } else {
                self.min_y - scale(self.min_y - self.max_y, k, n)
            }
        }
    }
}

impl Curve {
    pub open spec fn spec_value(self, x: u64) -> int {
        match self {
            Curve::Constant(v) => v as int,
            Curve::SaturatingLinear(s) => s.spec_value(x),
        }
    }

    pub fn value(&self, x: u64) -> (r: u128)
        ensures
            r == self.spec_value(x),
    {
        match self {
            Curve::Constant(v) => *v,
            Curve::SaturatingLinear(s) => s.value(x),
        }
    }
}

/// A non-increasing saturating-linear curve never rises as time goes on, is
/// `min_y` up to `min_x`, is `max_y` from `max_x` on, and stays between the two.
pub proof fn lemma_saturating_linear_monotone(s: SaturatingLinear, t1: u64, t2: u64)
    requires
        s.min_y >= s.max_y,
        t1 <= t2,
    ensures
        s.spec_value(t1) >= s.spec_value(t2),
        t1 <= s.min_x ==> s.spec_value(t1) == s.min_y,
        t2 >= s.max_x && t2 > s.min_x ==> s.spec_value(t2) == s.max_y,
        s.max_y <= s.spec_value(t1) <= s.min_y,
        s.max_y <= s.spec_value(t2) <= s.min_y,
{
    lemma_saturating_linear_bounds(s, t1);
    lemma_saturating_linear_bounds(s, t2);
    if t1 > s.min_x && t2 < s.max_x {
        let d = s.min_y - s.max_y;
        let n = s.max_x - s.min_x;
        let k1 = t1 - s.min_x;
        let k2 = t2 - s.min_x;
        assert(d * k1 <= d * k2) by (nonlinear_arith)
            requires
                k1 <= k2,
                d >= 0,
        ;
        lemma_div_is_ordered(d * k1, d * k2, n as int);
    }
}

/// A saturating-linear curve stays between its two end values.
pub proof fn lemma_saturating_linear_bounds(s: SaturatingLinear, t: u64)
    ensures
        s.min_y >= s.max_y ==> s.max_y <= s.spec_value(t) <= s.min_y,
        s.min_y <= s.max_y ==> s.min_y <= s.spec_value(t) <= s.max_y,
{
    if t > s.min_x && t < s.max_x {
        let d: int = if s.max_y > s.min_y { s.max_y - s.min_y } else { s.min_y - s.max_y };
        let n = (s.max_x - s.min_x) as int;
        let k = (t - s.min_x) as int;
        assert(d * k <= d * n) by (nonlinear_arith)
            requires
                k < n,
                d >= 0,
        ;
        assert(0 <= d * k) by (nonlinear_arith)
            requires
                k >= 0,
                d >= 0,
        ;
        lemma_div_is_ordered(d * k, d * n, n);
        lemma_div_is_ordered(0, d * k, n);
        assert(d * n / n == d) by (nonlinear_arith)
            requires
                n > 0,
        ;
    }
}

/// `d * k / n` for `k < n`, computed without an intermediate that exceeds `d`.
fn scale(d: u128, k: u64, n: u64) -> (r: u128)
    requires
        k < n,
    ensures
        r == (d as int) * (k as int) / (n as int),
        r <= d,
{
    let q: u128 = d / (n as u128);
    let rem: u128 = d % (n as u128);
    proof {
        lemma_fundamental_div_mod(d as int, n as int);
        lemma_mod_division_less_than_divisor(d as int, n as int);
        assert(rem * k < 0x1_0000_0000_0000_0000 * 0x1_0000_0000_0000_0000) by (nonlinear_arith)
            requires
                rem < n,
                n <= 0xffff_ffff_ffff_ffff,
                k < n,
        ;
        assert(q * k <= q * n) by (nonlinear_arith)
            requires
                k < n,
        ;
        assert(q * n <= d) by (nonlinear_arith)
            requires
                d == n * q + rem,
                rem >= 0,
        ;
    }
    let t: u128 = rem * (k as u128);
    let tq: u128 = t / (n as u128);
    proof {
        let (di, ki, ni, qi, ri, ti, tqi) = (
            d as int,
            k as int,
            n as int,
            q as int,
            rem as int,
            t as int,
            tq as int,
        );
        lemma_fundamental_div_mod(ti, ni);
        lemma_mod_division_less_than_divisor(ti, ni);
        let tr = ti % ni;
        assert(di * ki == (qi * ki + tqi) * ni + tr) by (nonlinear_arith)
            requires
                di == ni * qi + ri,
                ti == ri * ki,
                ti == ni * tqi + tr,
        ;
        lemma_fundamental_div_mod_converse_div(di * ki, ni, qi * ki + tqi, tr);
        assert(di * ki <= di * ni) by (nonlinear_arith)
            requires
                ki < ni,
                di >= 0,
        ;
        lemma_div_is_ordered(di * ki, di * ni, ni);
        assert(di * ni / ni == di) by (nonlinear_arith)
            requires
                ni > 0,
        ;
    }
    q * (k as u128) + tq
}

} // verus!
