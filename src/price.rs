use vstd::prelude::*;

verus! {

/// An exact price: the quotient `numer / denom` of two non-negative
/// quantities, kept unreduced.
///
/// A zero `denom` is not corrected: with `numer > 0` the price is infinite,
/// and with `numer == 0` it has no value at all. Callers that need a finite
/// price test `is_finite` first. Two prices are `==` when their terms are
/// equal; `is_whole` compares by value.
#[derive(Clone, Copy, Debug, PartialEq, Eq, Structural)]
pub struct Price {
    pub numer: u128,
    pub denom: u128,
}

impl Price {
    pub open spec fn spec_is_finite(self) -> bool {
        self.denom > 0
    }

    pub open spec fn spec_is_infinite(self) -> bool {
        self.denom == 0 && self.numer > 0
    }

    pub open spec fn spec_is_undefined(self) -> bool {
        self.denom == 0 && self.numer == 0
    }

    /// The price is finite and equals the rational number `n / d`.
    pub open spec fn equals_ratio(self, n: int, d: int) -> bool {
        &&& self.denom > 0
        &&& d > 0
        &&& self.numer * d == n * self.denom
    }

    pub fn is_finite(&self) -> (r: bool)
        ensures
            r == self.spec_is_finite(),
    {
        self.denom > 0
    }

    pub fn is_infinite(&self) -> (r: bool)
        ensures
            r == self.spec_is_infinite(),
    {
        self.denom == 0 && self.numer > 0
    }

    pub fn is_undefined(&self) -> (r: bool)
        ensures
            r == self.spec_is_undefined(),
    {
        self.denom == 0 && self.numer == 0
    }

    /// Whether the price is finite and equal to the whole number `k`.
    pub fn is_whole(&self, k: u128) -> (r: bool)
        ensures
            r == self.equals_ratio(k as int, 1),
    {
        if self.denom == 0 {
            return false;
        }
        let q = self.numer / self.denom;
        let m = self.numer % self.denom;
        proof {
            let (n, d, w) = (self.numer as int, self.denom as int, k as int);
            vstd::arithmetic::div_mod::lemma_fundamental_div_mod(n, d);
            assert(d * w == w * d) by (nonlinear_arith);
            if n == w * d {
                vstd::arithmetic::div_mod::lemma_div_multiples_vanish(w, d);
                vstd::arithmetic::div_mod::lemma_mod_multiples_basic(w, d);
            }
        }
        m == 0 && q == k
    }
}

} // verus!
