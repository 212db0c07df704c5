//! Products too large for 128 bits.
//!
//! Squared distances and squared thresholds are compared over a common
//! denominator, and the cross products run to more than 200 bits. A `Wide`
//! holds such a number in two halves.

use vstd::prelude::*;
use vstd::arithmetic::div_mod::lemma_fundamental_div_mod;

verus! {

/// Two to the 64th.
pub open spec fn base() -> int {
    0x1_0000_0000_0000_0000
}

/// Two to the 128th.
pub open spec fn half() -> int {
    base() * base()
}

/// An unsigned number of up to 256 bits.
#[derive(Clone, Copy, Debug)]
pub struct Wide {
    /// The upper 128 bits.
    pub hi: u128,
    /// The lower 128 bits.
    pub lo: u128,
}

impl Wide {
    /// The number held.
    pub open spec fn value(self) -> int {
        self.hi * half() + self.lo
    }

    /// `a * b`, exactly.
    pub fn product(a: u128, b: u128) -> (wide: Wide)
        ensures
            wide.value() == a * b,
    {
        let b64: u128 = 0x1_0000_0000_0000_0000;
        let a1: u128 = a / b64;
        let a0: u128 = a % b64;
        let b1: u128 = b / b64;
        let b0: u128 = b % b64;
        proof {
            lemma_fundamental_div_mod(a as int, b64 as int);
            lemma_fundamental_div_mod(b as int, b64 as int);
            lemma_digit_product(a0 as int, b0 as int);
            lemma_digit_product(a0 as int, b1 as int);
            lemma_digit_product(a1 as int, b0 as int);
            lemma_digit_product(a1 as int, b1 as int);
        }
        let p00: u128 = a0 * b0;
        let p01: u128 = a0 * b1;
        let p10: u128 = a1 * b0;
        let p11: u128 = a1 * b1;
        proof {
            lemma_fundamental_div_mod(p00 as int, b64 as int);
            lemma_fundamental_div_mod(p01 as int, b64 as int);
            lemma_fundamental_div_mod(p10 as int, b64 as int);
            lemma_fundamental_div_mod(p11 as int, b64 as int);
        }
        let col1: u128 = p00 / b64 + p01 % b64 + p10 % b64;
        let col2: u128 = col1 / b64 + p01 / b64 + p10 / b64 + p11 % b64;
        let col3: u128 = col2 / b64 + p11 / b64;
        proof {
            lemma_fundamental_div_mod(col1 as int, b64 as int);
            lemma_fundamental_div_mod(col2 as int, b64 as int);
            assert(a * b == p11 * (b64 * b64) + (p01 + p10) * b64 + p00) by (nonlinear_arith)
                requires
                    a == b64 * a1 + a0,
                    b == b64 * b1 + b0,
                    p00 == a0 * b0,
                    p01 == a0 * b1,
                    p10 == a1 * b0,
                    p11 == a1 * b1,
            ;
            assert(b64 * b64 == half());
            // the digits add up to the product
            assert(a * b == (col3 * b64 + col2 % b64) * half() + ((col1 % b64) * b64 + p00 % b64));
            // and the product leaves no room for a fifth digit
            assert(col3 < b64);
        }
        Wide { hi: col3 * b64 + col2 % b64, lo: (col1 % b64) * b64 + p00 % b64 }
    }

    /// `self + other`, where that fits.
    pub fn plus(self, other: Wide) -> (sum: Wide)
        requires
            self.value() + other.value() < half() * half(),
        ensures
            sum.value() == self.value() + other.value(),
    {
        proof {
            lemma_half();
            let h = half();
            let highs = self.hi + other.hi;
            let lows = self.lo + other.lo;
            assert(highs * h + lows < h * h) by (nonlinear_arith)
                requires
                    self.hi * h + self.lo + (other.hi * h + other.lo) < h * h,
                    highs == self.hi + other.hi,
                    lows == self.lo + other.lo,
            ;
            assert(highs < h && (lows >= h ==> highs + 1 < h)) by (nonlinear_arith)
                requires
                    highs * h + lows < h * h,
                    0 <= lows,
                    0 <= highs,
                    h > 0,
            ;
        }
        let room: u128 = u128::MAX - self.lo;
        if other.lo <= room {
            Wide { hi: self.hi + other.hi, lo: self.lo + other.lo }
        } else {
            Wide { hi: self.hi + other.hi + 1, lo: other.lo - room - 1 }
        }
    }

    /// Whether `self < other`.
    pub fn less(&self, other: &Wide) -> (result: bool)
        ensures
            result == (self.value() < other.value()),
    {
        proof {
            lemma_half();
        }
        self.hi < other.hi || (self.hi == other.hi && self.lo < other.lo)
    }
}

/// Two to the 128th is one more than the largest number a half holds.
proof fn lemma_half()
    ensures
        half() == u128::MAX + 1,
{
    assert(0x1_0000_0000_0000_0000int * 0x1_0000_0000_0000_0000int == u128::MAX + 1)
        by (nonlinear_arith);
}

/// The product of two numbers below two to the 64th lies below two to the
/// 128th, with room for two more such numbers on top.
proof fn lemma_digit_product(a: int, b: int)
    by (nonlinear_arith)
    requires
        0 <= a < 0x1_0000_0000_0000_0000,
        0 <= b < 0x1_0000_0000_0000_0000,
    ensures
        0 <= a * b <= 0xffff_ffff_ffff_ffff * 0xffff_ffff_ffff_ffff,
{
}

} // verus!
