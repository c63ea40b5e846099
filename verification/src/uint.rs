//! 256-bit unsigned integers: token identifiers and balances.

use crate::assoc::Key;
use vstd::prelude::*;

verus! {

/// 2^64, the weight of the second limb.
pub open spec fn weight_1() -> nat {
    0x1_0000_0000_0000_0000nat
}

/// 2^128, the weight of the third limb.
pub open spec fn weight_2() -> nat {
    0x1_0000_0000_0000_0000_0000_0000_0000_0000nat
}

/// 2^192, the weight of the fourth limb.
pub open spec fn weight_3() -> nat {
    0x1_0000_0000_0000_0000_0000_0000_0000_0000_0000_0000_0000_0000nat
}

/// 2^256, one more than the largest value.
pub open spec fn modulus() -> nat {
    0x1_0000_0000_0000_0000_0000_0000_0000_0000_0000_0000_0000_0000_0000_0000_0000_0000nat
}

/// A 256-bit unsigned integer, held as four 64-bit limbs, least significant
/// first.
#[derive(Clone, Copy, Debug, PartialEq, Eq, Hash)]
pub struct U256 {
    limbs: [u64; 4],
}

/// The number that four limbs stand for.
pub open spec fn limbs_value(limbs: Seq<u64>) -> nat
    recommends
        limbs.len() == 4,
{
    (limbs[0] + limbs[1] * weight_1() + limbs[2] * weight_2() + limbs[3] * weight_3()) as nat
}

impl View for U256 {
    type V = nat;

    /// The number itself.
    open spec fn view(&self) -> nat {
        limbs_value(self.limbs())
    }
}

/// The character of a decimal digit.
pub open spec fn digit_char(d: nat) -> char
    recommends
        d < 10,
{
    if d == 0 {
        '0'
    } else if d == 1 {
        '1'
    } else if d == 2 {
        '2'
    } else if d == 3 {
        '3'
    } else if d == 4 {
        '4'
    } else if d == 5 {
        '5'
    } else if d == 6 {
        '6'
    } else if d == 7 {
        '7'
    } else if d == 8 {
        '8'
    } else {
        '9'
    }
}

/// The decimal numeral of `n`: most significant digit first, no leading
/// zeros, and `"0"` for zero.
pub open spec fn decimal(n: nat) -> Seq<char>
    decreases n,
{
    if n < 10 {
        seq![digit_char(n)]
    } else {
        decimal(n / 10).push(digit_char(n % 10))
    }
}

/// Sum of two numbers modulo 2^256, with the carry out of the top limb.
///
/// Trusted: calls `overflowing_add` of `alloy_primitives::U256`, which is
/// `ruint`'s `Uint<256, 4>`. The limbs go in through `from_limbs` and come
/// out through `into_limbs`, both least significant limb first. The claim is
/// the one that the method's documentation makes: the sum wraps around at
/// 2^256, and the flag is set exactly where the true sum does not fit.
#[verifier::external_body]
fn overflowing_add(a: U256, b: U256) -> (r: (U256, bool))
    ensures
        r.0@ == (a@ + b@) % modulus(),
        r.1 == (a@ + b@ >= modulus()),
{
    let x = alloy_primitives::U256::from_limbs(a.limbs);
    let y = alloy_primitives::U256::from_limbs(b.limbs);
    let (sum, carry) = x.overflowing_add(y);
    (U256 { limbs: sum.into_limbs() }, carry)
}

/// Difference of two numbers modulo 2^256, with the borrow out of the top
/// limb.
///
/// Trusted: calls `overflowing_sub` of `alloy_primitives::U256`, with the
/// limbs converted as for the sum. The claim is the one that the method's
/// documentation makes: the difference wraps around at 2^256, and the flag
/// is set exactly where the subtrahend is the larger number.
#[verifier::external_body]
fn overflowing_sub(a: U256, b: U256) -> (r: (U256, bool))
    ensures
        r.0@ == (a@ - b@) % (modulus() as int),
        r.1 == (a@ < b@),
{
    let x = alloy_primitives::U256::from_limbs(a.limbs);
    let y = alloy_primitives::U256::from_limbs(b.limbs);
    let (difference, borrow) = x.overflowing_sub(y);
    (U256 { limbs: difference.into_limbs() }, borrow)
}

/// The decimal numeral of a number.
///
/// Trusted: calls `to_string` on an `alloy_primitives::U256`, that is, the
/// `Display` of `ruint`'s `Uint`. It writes the number in base ten, most
/// significant digit first, without sign, prefix or leading zeros, and `0`
/// for zero.
#[verifier::external_body]
fn to_decimal(a: U256) -> (s: String)
    ensures
        s@ == decimal(a@),
{
    alloy_primitives::U256::from_limbs(a.limbs).to_string()
}

impl U256 {
    /// The four limbs, least significant first.
    pub closed spec fn limbs(self) -> Seq<u64> {
        self.limbs@
    }

    /// The number with these limbs, least significant first.
    pub fn from_limbs(limbs: [u64; 4]) -> (r: U256)
        ensures
            r.limbs() == limbs@,
    {
        U256 { limbs }
    }

    /// The limbs of the number, least significant first.
    pub fn to_limbs(&self) -> (limbs: [u64; 4])
        ensures
            limbs@ == self.limbs(),
    {
        self.limbs
    }

    /// A number that fits in 64 bits.
    pub fn from_u64(value: u64) -> (r: U256)
        ensures
            r@ == value,
    {
        U256 { limbs: [value, 0, 0, 0] }
    }

    /// The number zero.
    pub fn zero() -> (r: U256)
        ensures
            r@ == 0,
    {
        U256 { limbs: [0, 0, 0, 0] }
    }

    /// The number one.
    pub fn one() -> (r: U256)
        ensures
            r@ == 1,
    {
        U256 { limbs: [1, 0, 0, 0] }
    }

    /// Limb-wise comparison.
    pub fn same(&self, other: &U256) -> (r: bool)
        ensures
            r == (*self == *other),
            r == (self@ == other@),
    {
        proof {
            U256::lemma_view_injective(*self, *other);
        }
        let r = self.limbs[0] == other.limbs[0] && self.limbs[1] == other.limbs[1]
            && self.limbs[2] == other.limbs[2] && self.limbs[3] == other.limbs[3];
        assert(r ==> self.limbs =~= other.limbs);
        r
    }

    /// `self + rhs`, or `None` when the sum does not fit in 256 bits.
    pub fn checked_add(self, rhs: U256) -> (r: Option<U256>)
        ensures
            match r {
                Some(sum) => sum@ == self@ + rhs@,
                None => self@ + rhs@ >= modulus(),
            },
    {
        proof {
            U256::lemma_bounded(self);
            U256::lemma_bounded(rhs);
        }
        let (sum, carry) = overflowing_add(self, rhs);
        if carry {
            None
        } else {
            Some(sum)
        }
    }

    /// `self - rhs`, or `None` when `rhs` is the larger number.
    pub fn checked_sub(self, rhs: U256) -> (r: Option<U256>)
        ensures
            match r {
                Some(difference) => difference@ == self@ - rhs@,
                None => self@ < rhs@,
            },
    {
        proof {
            U256::lemma_bounded(self);
            U256::lemma_bounded(rhs);
        }
        let (difference, borrow) = overflowing_sub(self, rhs);
        if borrow {
            None
        } else {
            Some(difference)
        }
    }

    /// The number written in base ten.
    pub fn to_decimal_string(&self) -> (s: String)
        ensures
            s@ == decimal(self@),
    {
        to_decimal(*self)
    }

    /// Every value is below 2^256.
    pub proof fn lemma_bounded(a: U256)
        ensures
            a@ < modulus(),
            a.limbs().len() == 4,
    {
    }

    /// Distinct limbs stand for distinct numbers.
    pub proof fn lemma_view_injective(a: U256, b: U256)
        ensures
            (a@ == b@) <==> (a == b),
    {
        if a@ == b@ {
            let x = a.limbs();
            let y = b.limbs();
            let w = weight_1() as int;
            let x_high = x[1] + w * (x[2] + w * x[3]);
            let y_high = y[1] + w * (y[2] + w * y[3]);
            assert(a@ == x[0] + w * x_high);
            assert(b@ == y[0] + w * y_high);
            lemma_digit_unique(x[0] as int, x_high, y[0] as int, y_high, w);
            lemma_digit_unique(x[1] as int, x[2] + w * x[3], y[1] as int, y[2] + w * y[3], w);
            lemma_digit_unique(x[2] as int, x[3] as int, y[2] as int, y[3] as int, w);
            assert(a.limbs =~= b.limbs);
        }
    }
}

impl Key for U256 {
    fn key_eq(&self, other: &U256) -> (r: bool) {
        self.same(other)
    }
}

/// A number splits in one way only into a digit below `w` and a multiple of
/// `w`.
proof fn lemma_digit_unique(low_a: int, high_a: int, low_b: int, high_b: int, w: int)
    requires
        0 <= low_a < w,
        0 <= low_b < w,
        low_a + w * high_a == low_b + w * high_b,
    ensures
        low_a == low_b,
        high_a == high_b,
{
    assert(low_a - low_b == w * (high_b - high_a)) by (nonlinear_arith)
        requires
            low_a + w * high_a == low_b + w * high_b,
    ;
    assert(high_b - high_a == 0) by (nonlinear_arith)
        requires
            low_a - low_b == w * (high_b - high_a),
            -w < low_a - low_b < w,
    ;
}

} // verus!
