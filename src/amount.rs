//! Unsigned 256-bit token amounts, held as two 128-bit limbs.
use vstd::prelude::*;

verus! {

/// The weight of the high limb: 2^128.
pub open spec fn limb_base() -> nat {
    0x1_0000_0000_0000_0000_0000_0000_0000_0000nat
}

/// The largest value a 256-bit amount can hold: 2^256 - 1.
pub open spec fn max_amount() -> nat {
    0xffffffffffffffffffffffffffffffffffffffffffffffffffffffffffffffffnat
}

/// Two-limb numbers compare as their limbs do, high limb first.
proof fn lemma_limbs_compare(ah: int, al: int, bh: int, bl: int, b: int)
    requires
        0 <= al < b,
        0 <= bl < b,
        0 <= ah,
        0 <= bh,
    ensures
        (ah * b + al < bh * b + bl) == (ah < bh || (ah == bh && al < bl)),
{
    if ah < bh {
        assert(ah * b + b <= bh * b) by (nonlinear_arith)
            requires
                ah < bh,
                0 <= b,
        ;
    } else if ah > bh {
        assert(bh * b + b <= ah * b) by (nonlinear_arith)
            requires
                bh < ah,
                0 <= b,
        ;
    }
}

/// Moving a carry between the limbs keeps the value.
proof fn lemma_carry(h: int, l: int, c: int, b: int)
    ensures
        (h + c) * b + (l - c * b) == h * b + l,
{
    assert((h + c) * b == h * b + c * b) by (nonlinear_arith);
}

/// Multiplication distributes over a sum of two high limbs.
proof fn lemma_distribute(x: int, y: int, b: int)
    ensures
        x * b + y * b == (x + y) * b,
{
    assert(x * b + y * b == (x + y) * b) by (nonlinear_arith);
}

/// A two-limb number fits in two limbs exactly when its high limb does.
proof fn lemma_fits(h: int, l: int, b: int)
    requires
        0 <= l < b,
        0 <= h,
    ensures
        (h * b + l <= b * b - 1) == (h <= b - 1),
{
    lemma_limbs_compare(h, l, b, 0, b);
}

/// A token amount as the contract stores it: an unsigned 256-bit integer.
#[derive(Clone, Copy, Debug, PartialEq, Eq, Structural)]
pub struct Amount {
    pub hi: u128,
    pub lo: u128,
}

impl Amount {
    /// The number this amount stands for.
    pub open spec fn value(&self) -> nat {
        self.hi as nat * limb_base() + self.lo as nat
    }

    pub fn zero() -> (r: Amount)
        ensures
            r.value() == 0,
    {
        Amount { hi: 0, lo: 0 }
    }

    pub fn from_u128(v: u128) -> (r: Amount)
        ensures
            r.value() == v as nat,
    {
        Amount { hi: 0, lo: v }
    }

    /// The sum, or `None` where it does not fit in 256 bits.
    pub fn checked_add(&self, other: &Amount) -> (r: Option<Amount>)
        ensures
            r is Some <==> self.value() + other.value() <= max_amount(),
            r matches Some(s) ==> s.value() == self.value() + other.value(),
    {
        let lo: u128;
        let carry: u128;
        if self.lo <= u128::MAX - other.lo {
            lo = self.lo + other.lo;
            carry = 0;
        } else {
            lo = self.lo - (u128::MAX - other.lo) - 1;
            carry = 1;
        }
        proof {
            let b = limb_base() as int;
            lemma_distribute(self.hi as int, other.hi as int, b);
            lemma_carry(self.hi + other.hi, self.lo + other.lo, carry as int, b);
            lemma_fits(self.hi + other.hi + carry, lo as int, b);
        }
        if self.hi > u128::MAX - other.hi || self.hi + other.hi > u128::MAX - carry {
            None
        } else {
            Some(Amount { hi: self.hi + other.hi + carry, lo })
        }
    }

    /// The difference, or `None` where `other` is larger than `self`.
    pub fn checked_sub(&self, other: &Amount) -> (r: Option<Amount>)
        ensures
            r is Some <==> other.value() <= self.value(),
            r matches Some(s) ==> s.value() == self.value() - other.value(),
    {
        let lo: u128;
        let borrow: u128;
        if self.lo >= other.lo {
            lo = self.lo - other.lo;
            borrow = 0;
        } else {
            lo = u128::MAX - (other.lo - self.lo) + 1;
            borrow = 1;
        }
        proof {
            let b = limb_base() as int;
            lemma_limbs_compare(self.hi as int, self.lo as int, other.hi as int, other.lo as int, b);
            lemma_carry(self.hi - other.hi - borrow, self.lo - other.lo + borrow * b, borrow as int, b);
            assert(self.hi * b - other.hi * b == (self.hi - other.hi) * b) by (nonlinear_arith);
        }
        if self.hi < other.hi || self.hi - other.hi < borrow {
            None
        } else {
            Some(Amount { hi: self.hi - other.hi - borrow, lo })
        }
    }
}

} // verus!
