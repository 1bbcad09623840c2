use vstd::prelude::*;

verus! {

/// The base of one half of a 256-bit word: 2^128.
pub open spec fn half_base() -> nat {
    0x1_0000_0000_0000_0000_0000_0000_0000_0000nat
}

/// The number of distinct 256-bit words: 2^256.
pub open spec fn word_bound() -> nat {
    half_base() * half_base()
}

/// An unsigned 256-bit integer, held as a high and a low 128-bit half.
#[derive(Clone, Copy, Debug, PartialEq, Eq, Structural)]
pub struct U256 {
    pub hi: u128,
    pub lo: u128,
}

proof fn lemma_half_ordering(ahi: nat, alo: nat, bhi: nat, blo: nat)
    requires
        alo < half_base(),
        blo < half_base(),
        ahi < bhi,
    ensures
        ahi * half_base() + alo < bhi * half_base() + blo,
{
    assert((ahi + 1) * half_base() <= bhi * half_base()) by (nonlinear_arith)
        requires ahi + 1 <= bhi;
    assert((ahi + 1) * half_base() == ahi * half_base() + half_base()) by (nonlinear_arith);
}

proof fn lemma_value_bound(hi: nat, lo: nat)
    requires
        hi < half_base(),
        lo < half_base(),
    ensures
        hi * half_base() + lo < word_bound(),
{
    lemma_half_ordering(hi, lo, half_base(), 0);
}

impl U256 {
    /// The integer this word stands for.
    pub open spec fn value(self) -> nat {
        self.hi as nat * half_base() + self.lo as nat
    }

    pub proof fn lemma_value_in_range(self)
        ensures
            self.value() < word_bound(),
    {
        lemma_value_bound(self.hi as nat, self.lo as nat);
    }

    /// The word zero.
    pub fn zero() -> (r: U256)
        ensures
            r.value() == 0,
    {
        U256 { hi: 0, lo: 0 }
    }

    /// The word made of the given halves.
    pub fn from_halves(hi: u128, lo: u128) -> (r: U256)
        ensures
            r.value() == hi as nat * half_base() + lo as nat,
    {
        U256 { hi, lo }
    }

    pub fn from_u64(x: u64) -> (r: U256)
        ensures
            r.value() == x as nat,
    {
        U256 { hi: 0, lo: x as u128 }
    }

    pub fn from_u128(x: u128) -> (r: U256)
        ensures
            r.value() == x as nat,
    {
        U256 { hi: 0, lo: x }
    }

    pub fn is_zero(&self) -> (r: bool)
        ensures
            r == (self.value() == 0),
    {
        assert(self.hi > 0 ==> self.value() >= half_base()) by (nonlinear_arith)
            requires self.value() == self.hi as nat * half_base() + self.lo as nat;
        self.hi == 0 && self.lo == 0
    }

    /// Whether the two words stand for the same integer.
    pub fn same_as(&self, other: &U256) -> (r: bool)
        ensures
            r == (self.value() == other.value()),
    {
        if self.hi < other.hi {
            proof {
                lemma_half_ordering(self.hi as nat, self.lo as nat, other.hi as nat, other.lo as nat);
            }
        } else if other.hi < self.hi {
            proof {
                lemma_half_ordering(other.hi as nat, other.lo as nat, self.hi as nat, self.lo as nat);
            }
        }
        self.hi == other.hi && self.lo == other.lo
    }

    /// Whether this word is at most the other.
    pub fn le(&self, other: &U256) -> (r: bool)
        ensures
            r == (self.value() <= other.value()),
    {
        if self.hi < other.hi {
            proof {
                lemma_half_ordering(self.hi as nat, self.lo as nat, other.hi as nat, other.lo as nat);
            }
            true
        } else if other.hi < self.hi {
            proof {
                lemma_half_ordering(other.hi as nat, other.lo as nat, self.hi as nat, self.lo as nat);
            }
            false
        } else {
            self.lo <= other.lo
        }
    }

    /// Whether this word is below the other.
    pub fn lt(&self, other: &U256) -> (r: bool)
        ensures
            r == (self.value() < other.value()),
    {
        !other.le(self)
    }

    /// The sum of the two words, or `None` where it does not fit in 256 bits.
    pub fn checked_add(&self, other: &U256) -> (r: Option<U256>)
        ensures
            r.is_some() <==> self.value() + other.value() < word_bound(),
            r.is_some() ==> r.unwrap().value() == self.value() + other.value(),
    {
        let a = *self;
        let b = *other;
        let ghost base = half_base();
        let ghost sum = a.value() + b.value();
        assert(sum == (a.hi + b.hi) * base + (a.lo + b.lo)) by (nonlinear_arith)
            requires
                sum == a.hi as nat * base + a.lo as nat + b.hi as nat * base + b.lo as nat;
        let lo: u128;
        let carry: u128;
        if a.lo <= u128::MAX - b.lo {
            lo = a.lo + b.lo;
            carry = 0;
        } else {
            lo = a.lo - (u128::MAX - b.lo) - 1;
            carry = 1;
        }
        assert(a.lo + b.lo == carry * base + lo);
        assert(sum == (a.hi + b.hi + carry) * base + lo) by (nonlinear_arith)
            requires
                sum == (a.hi + b.hi) * base + (a.lo + b.lo),
                a.lo + b.lo == carry * base + lo;
        if a.hi as u128 <= u128::MAX - b.hi && a.hi + b.hi <= u128::MAX - carry {
            let hi = a.hi + b.hi + carry;
            proof {
                lemma_value_bound(hi as nat, lo as nat);
            }
            Some(U256 { hi, lo })
        } else {
            assert(sum >= word_bound()) by (nonlinear_arith)
                requires
                    sum == (a.hi + b.hi + carry) * base + lo,
                    a.hi + b.hi + carry >= base,
                    word_bound() == base * base;
            None
        }
    }
}

} // verus!
