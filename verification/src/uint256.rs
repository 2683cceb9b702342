//! Unsigned 256-bit quantities.

use vstd::prelude::*;

verus! {

/// An unsigned 256-bit quantity, as its upper and lower half.
#[derive(Debug, Clone, Copy, PartialEq, Eq)]
pub struct Uint256 {
    pub hi: u128,
    pub lo: u128,
}

impl DeepView for Uint256 {
    type V = Uint256;

    open spec fn deep_view(&self) -> Uint256 {
        *self
    }
}

/// Two to the power 128.
pub open spec fn pow128() -> nat {
    0x1_0000_0000_0000_0000_0000_0000_0000_0000nat
}

impl Uint256 {
    /// The number that the two halves stand for.
    pub open spec fn value(self) -> nat {
        self.hi as nat * pow128() + self.lo as nat
    }

    /// The number `num`, as a model.
    pub open spec fn of(num: u128) -> Uint256 {
        Uint256 { hi: 0, lo: num }
    }

    /// The number `num`.
    pub fn from_u128(num: u128) -> (r: Uint256)
        ensures
            r == Uint256::of(num),
            r.value() == num,
    {
        Uint256 { hi: 0, lo: num }
    }

    /// The number as a 128-bit quantity, where it fits.
    pub fn to_u128(&self) -> (r: Option<u128>)
        ensures
            self.value() <= u128::MAX ==> r == Some(self.value() as u128),
            self.value() > u128::MAX ==> r is None,
    {
        if self.hi == 0 {
            Some(self.lo)
        } else {
            assert(self.value() >= pow128()) by (nonlinear_arith)
                requires
                    self.hi >= 1,
                    self.value() == self.hi as nat * pow128() + self.lo as nat,
            ;
            None
        }
    }

    /// Whether `self` is below `other`.
    pub fn lt(&self, other: &Uint256) -> (r: bool)
        ensures
            r == (self.value() < other.value()),
    {
        proof {
            lemma_value_order(*self, *other);
        }
        self.hi < other.hi || (self.hi == other.hi && self.lo < other.lo)
    }

    /// The difference `self - other`, where `other` is not above `self`.
    pub fn checked_sub(&self, other: &Uint256) -> (r: Option<Uint256>)
        ensures
            self.value() >= other.value() ==> r is Some && r->0.value() == self.value()
                - other.value(),
            self.value() < other.value() ==> r is None,
    {
        if self.lt(other) {
            return None;
        }
        proof {
            lemma_value_order(*self, *other);
        }
        if self.lo >= other.lo {
            let r = Uint256 { hi: self.hi - other.hi, lo: self.lo - other.lo };
            assert(r.value() == self.value() - other.value()) by (nonlinear_arith)
                requires
                    r.hi == self.hi - other.hi,
                    r.lo == self.lo - other.lo,
                    r.value() == r.hi as nat * pow128() + r.lo as nat,
                    self.value() == self.hi as nat * pow128() + self.lo as nat,
                    other.value() == other.hi as nat * pow128() + other.lo as nat,
            ;
            Some(r)
        } else {
            let lo: u128 = u128::MAX - other.lo + self.lo + 1;
            let r = Uint256 { hi: self.hi - other.hi - 1, lo };
            assert(r.value() == self.value() - other.value()) by (nonlinear_arith)
                requires
                    r.hi == self.hi - other.hi - 1,
                    r.lo == pow128() - other.lo + self.lo,
                    r.value() == r.hi as nat * pow128() + r.lo as nat,
                    self.value() == self.hi as nat * pow128() + self.lo as nat,
                    other.value() == other.hi as nat * pow128() + other.lo as nat,
            ;
            Some(r)
        }
    }
}

/// The numbers are ordered as their halves are, the upper half first.
pub proof fn lemma_value_order(a: Uint256, b: Uint256)
    ensures
        a.value() < b.value() <==> (a.hi < b.hi || (a.hi == b.hi && a.lo < b.lo)),
        a.value() == b.value() <==> a == b,
{
    assert(a.hi < b.hi ==> a.value() < b.value()) by (nonlinear_arith)
        requires
            a.value() == a.hi as nat * pow128() + a.lo as nat,
            b.value() == b.hi as nat * pow128() + b.lo as nat,
            a.lo < pow128(),
            pow128() > 0,
    ;
    assert(b.hi < a.hi ==> b.value() < a.value()) by (nonlinear_arith)
        requires
            a.value() == a.hi as nat * pow128() + a.lo as nat,
            b.value() == b.hi as nat * pow128() + b.lo as nat,
            b.lo < pow128(),
            pow128() > 0,
    ;
}

} // verus!
