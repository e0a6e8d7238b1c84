use vstd::prelude::*;

verus! {

/// A non-negative rational number `num / den`, used for fee rates and thresholds.
#[derive(Clone, Copy, Debug, PartialEq, Eq, Structural)]
pub struct Ratio {
    pub num: u64,
    pub den: u64,
}

impl Ratio {
    pub open spec fn wf(self) -> bool {
        self.den > 0
    }

    /// `self <= other` as rationals.
    pub open spec fn spec_le(self, other: Ratio) -> bool {
        self.num as int * other.den as int <= other.num as int * self.den as int
    }

    /// `self <= n` for a natural number `n`.
    pub open spec fn spec_le_int(self, n: int) -> bool {
        self.num as int <= n * self.den as int
    }

    pub fn whole(n: u64) -> (r: Ratio)
        ensures
            r.wf(),
            r.num == n,
            r.den == 1,
    {
        Ratio { num: n, den: 1 }
    }

    pub fn le(&self, other: &Ratio) -> (r: bool)
        ensures
            r == self.spec_le(*other),
    {
        let a = self.num as u128;
        let b = other.den as u128;
        let c = other.num as u128;
        let d = self.den as u128;
        proof {
            vstd::arithmetic::mul::lemma_mul_upper_bound(a as int, u64::MAX as int, b as int, u64::MAX as int);
            vstd::arithmetic::mul::lemma_mul_upper_bound(c as int, u64::MAX as int, d as int, u64::MAX as int);
            assert(u64::MAX as int * u64::MAX as int <= u128::MAX) by (nonlinear_arith);
        }
        a * b <= c * d
    }

    /// Whether this ratio is at most the natural number `n`.
    pub fn le_int(&self, n: u64) -> (r: bool)
        ensures
            r == self.spec_le_int(n as int),
    {
        let a = self.num as u128;
        let b = n as u128;
        let d = self.den as u128;
        proof {
            vstd::arithmetic::mul::lemma_mul_upper_bound(b as int, u64::MAX as int, d as int, u64::MAX as int);
            assert(u64::MAX as int * u64::MAX as int <= u128::MAX) by (nonlinear_arith);
        }
        a <= b * d
    }
}

} // verus!
