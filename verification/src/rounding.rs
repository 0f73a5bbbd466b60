//! What arithmetic on binary64 numbers gives.
//!
//! The library does none itself. It takes the results from its caller, and
//! states here what they are: each is the exact result, rounded.
use vstd::prelude::*;

use crate::binary::Binary64;

verus! {

/// The number 1, times 2 to the 1074th.
pub open spec fn one() -> int {
    vstd::arithmetic::power2::pow2(1074) as int
}

/// The largest finite number, times 2 to the 1074th.
pub open spec fn largest() -> int {
    (Binary64 { bits: 0x7fef_ffff_ffff_ffff }).scaled()
}

/// How far a number is from the fraction `num / den`, times `den`.
pub open spec fn distance(x: Binary64, num: int, den: int) -> int {
    let d = x.scaled() * den - num;
    if d < 0 {
        -d
    } else {
        d
    }
}

/// Whether a number is what the fraction `num / den`, times 2 to the minus
/// 1074th, is rounded to: a finite number that none is nearer than. Beyond the
/// largest finite number it is that one or infinity.
pub open spec fn is_rounded(r: Binary64, num: int, den: int) -> bool {
    &&& !r.is_nan()
    &&& num > largest() * den ==> r.scaled() >= largest()
    &&& num < -largest() * den ==> r.scaled() <= -largest()
    &&& -largest() * den <= num <= largest() * den ==> r.is_finite() && forall|y: Binary64|
        y.is_finite() ==> distance(r, num, den) <= #[trigger] distance(y, num, den)
}

/// Whether a number is what an integer is converted to.
pub open spec fn is_converted(r: Binary64, n: int) -> bool {
    is_rounded(r, n * one(), 1)
}

/// Whether a number is the difference of two finite ones.
pub open spec fn is_difference(r: Binary64, a: Binary64, b: Binary64) -> bool {
    is_rounded(r, a.scaled() - b.scaled(), 1)
}

/// Whether a number is the product of one that may be infinite and a finite,
/// positive one.
pub open spec fn is_product(r: Binary64, a: Binary64, b: Binary64) -> bool {
    if a.is_finite() {
        is_rounded(r, a.scaled() * b.scaled(), one())
    } else {
        r == a
    }
}

/// Whether a number is the quotient of a finite one and a finite, positive one.
pub open spec fn is_quotient(r: Binary64, a: Binary64, b: Binary64) -> bool {
    is_rounded(r, a.scaled() * one(), b.scaled())
}

/// A finite number lies between the largest ones.
pub proof fn lemma_finite(y: Binary64)
    requires
        y.is_finite(),
    ensures
        -largest() <= y.scaled() <= largest(),
{
    let m = y.unsigned_bits();
    let top = 0x7fef_ffff_ffff_ffffnat;
    assert((Binary64 { bits: 0x7fef_ffff_ffff_ffff }).unsigned_bits() == top);
    if m < top {
        crate::binary::lemma_magnitude_order(m, top, 52);
    }
}

/// What is not below a finite number is not rounded to below it.
pub proof fn lemma_rounded_at_least(r: Binary64, y: Binary64, num: int, den: int)
    requires
        den > 0,
        is_rounded(r, num, den),
        y.is_finite(),
        y.scaled() * den <= num,
    ensures
        r.scaled() >= y.scaled(),
{
    lemma_finite(y);
    if num <= largest() * den {
        assert(-largest() * den <= num) by (nonlinear_arith)
            requires
                -largest() <= y.scaled(),
                den > 0,
                y.scaled() * den <= num,
        ;
        assert(distance(r, num, den) <= distance(y, num, den));
        if r.scaled() < y.scaled() {
            assert(r.scaled() * den < y.scaled() * den) by (nonlinear_arith)
                requires
                    r.scaled() < y.scaled(),
                    den > 0,
            ;
        }
    }
}

/// What is not above a finite number is not rounded to above it.
pub proof fn lemma_rounded_at_most(r: Binary64, y: Binary64, num: int, den: int)
    requires
        den > 0,
        is_rounded(r, num, den),
        y.is_finite(),
        num <= y.scaled() * den,
    ensures
        r.scaled() <= y.scaled(),
{
    lemma_finite(y);
    if num >= -largest() * den {
        assert(num <= largest() * den) by (nonlinear_arith)
            requires
                y.scaled() <= largest(),
                den > 0,
                num <= y.scaled() * den,
        ;
        assert(distance(r, num, den) <= distance(y, num, den));
        if r.scaled() > y.scaled() {
            assert(r.scaled() * den > y.scaled() * den) by (nonlinear_arith)
                requires
                    r.scaled() > y.scaled(),
                    den > 0,
            ;
        }
    }
}

/// What lies between two finite numbers is rounded to a finite number between
/// them.
pub proof fn lemma_rounded_between(r: Binary64, a: Binary64, b: Binary64, num: int, den: int)
    requires
        den > 0,
        is_rounded(r, num, den),
        a.is_finite(),
        b.is_finite(),
        a.scaled() * den <= num <= b.scaled() * den,
    ensures
        r.is_finite(),
        a.scaled() <= r.scaled() <= b.scaled(),
{
    lemma_finite(a);
    lemma_finite(b);
    lemma_rounded_at_least(r, a, num, den);
    lemma_rounded_at_most(r, b, num, den);
    assert(-largest() * den <= num <= largest() * den) by (nonlinear_arith)
        requires
            -largest() <= a.scaled(),
            b.scaled() <= largest(),
            den > 0,
            a.scaled() * den <= num <= b.scaled() * den,
    ;
}

/// The number that is 2 to the `k`th.
pub open spec fn power(k: int) -> Binary64 {
    Binary64 { bits: ((1023 + k) * 0x10_0000_0000_0000) as u64 }
}

/// What `power` stands for.
pub proof fn lemma_power(k: int)
    requires
        -1000 <= k <= 1000,
    ensures
        power(k).is_finite(),
        power(k).scaled() == vstd::arithmetic::power2::pow2((1074 + k) as nat),
{
    let b = (1023 + k) * 0x10_0000_0000_0000;
    let unit = vstd::arithmetic::power2::pow2(52);
    vstd::arithmetic::power2::lemma2_to64_rest();
    assert(unit == 0x10_0000_0000_0000);
    assert(power(k).unsigned_bits() == b);
    assert(b / 0x10_0000_0000_0000 == 1023 + k);
    assert(b % 0x10_0000_0000_0000 == 0);
    vstd::arithmetic::power2::lemma_pow2_adds(52, (1022 + k) as nat);
}

/// Zero is finite and stands for zero.
pub proof fn lemma_zero()
    ensures
        (Binary64 { bits: 0 }).is_finite(),
        (Binary64 { bits: 0 }).scaled() == 0,
{
    crate::binary::lemma_magnitude_zero(52);
}

} // verus!
