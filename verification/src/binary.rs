//! Binary floating-point numbers by their bit patterns.
//!
//! The library only ever compares such numbers; it does no arithmetic on them.
use vstd::prelude::*;

verus! {

/// The number that the bits behind the sign stand for, times the power of two
/// that makes the least positive number 1. `frac` is the width of the
/// fraction. Infinity comes out as the number after the largest finite one.
pub open spec fn magnitude(bits: nat, frac: nat) -> nat {
    let unit = vstd::arithmetic::power2::pow2(frac);
    let exponent = bits / unit;
    let fraction = bits % unit;
    if exponent == 0 {
        fraction
    } else {
        (unit + fraction) * vstd::arithmetic::power2::pow2((exponent - 1) as nat)
    }
}

/// Of two bit patterns without a sign the greater stands for the greater
/// number.
pub proof fn lemma_magnitude_order(a: nat, b: nat, frac: nat)
    requires
        a < b,
    ensures
        magnitude(a, frac) < magnitude(b, frac),
{
    let unit = vstd::arithmetic::power2::pow2(frac) as int;
    vstd::arithmetic::power2::lemma_pow2_pos(frac);
    let (ea, fa) = (a as int / unit, a as int % unit);
    let (eb, fb) = (b as int / unit, b as int % unit);
    vstd::arithmetic::div_mod::lemma_fundamental_div_mod(a as int, unit);
    vstd::arithmetic::div_mod::lemma_fundamental_div_mod(b as int, unit);
    vstd::arithmetic::div_mod::lemma_mod_bound(a as int, unit);
    vstd::arithmetic::div_mod::lemma_mod_bound(b as int, unit);
    vstd::arithmetic::div_mod::lemma_div_is_ordered(a as int, b as int, unit);
    vstd::arithmetic::div_mod::lemma_div_pos_is_pos(a as int, unit);
    if ea == eb {
        assert(fa < fb);
        if ea > 0 {
            let p = vstd::arithmetic::power2::pow2((ea - 1) as nat) as int;
            vstd::arithmetic::power2::lemma_pow2_pos((ea - 1) as nat);
            assert((unit + fa) * p < (unit + fb) * p) by (nonlinear_arith)
                requires
                    fa < fb,
                    p > 0,
            ;
        }
    } else {
        let q = vstd::arithmetic::power2::pow2((eb - 1) as nat) as int;
        vstd::arithmetic::power2::lemma_pow2_pos((eb - 1) as nat);
        assert(unit * q <= (unit + fb) * q) by (nonlinear_arith)
            requires
                fb >= 0,
                q > 0,
        ;
        if ea == 0 {
            assert(unit <= unit * q) by (nonlinear_arith)
                requires
                    unit > 0,
                    q >= 1,
            ;
        } else {
            let p = vstd::arithmetic::power2::pow2((ea - 1) as nat) as int;
            vstd::arithmetic::power2::lemma_pow2_pos((ea - 1) as nat);
            vstd::arithmetic::power2::lemma_pow2_unfold(ea as nat);
            if ea < eb - 1 {
                vstd::arithmetic::power2::lemma_pow2_strictly_increases(ea as nat, (eb - 1) as nat);
            }
            assert(2 * p <= q);
            assert((unit + fa) * p < unit * q) by (nonlinear_arith)
                requires
                    fa < unit,
                    p > 0,
                    2 * p <= q,
                    unit > 0,
                    fa >= 0,
            ;
        }
    }
}

/// The zero pattern stands for zero.
pub proof fn lemma_magnitude_zero(frac: nat)
    ensures
        magnitude(0, frac) == 0,
{
    vstd::arithmetic::power2::lemma_pow2_pos(frac);
    vstd::arithmetic::div_mod::lemma_div_basics(vstd::arithmetic::power2::pow2(frac) as int);
    vstd::arithmetic::div_mod::lemma_small_mod(0, vstd::arithmetic::power2::pow2(frac));
}

/// The order of two magnitudes is the order of their bit patterns.
proof fn lemma_magnitude_compares(a: nat, b: nat, frac: nat)
    ensures
        a < b <==> magnitude(a, frac) < magnitude(b, frac),
        a == b <==> magnitude(a, frac) == magnitude(b, frac),
        a == 0 <==> magnitude(a, frac) == 0,
{
    lemma_magnitude_zero(frac);
    if a < b {
        lemma_magnitude_order(a, b, frac);
    } else if b < a {
        lemma_magnitude_order(b, a, frac);
    }
    if a > 0 {
        lemma_magnitude_order(0, a, frac);
    }
}

/// A number in the binary64 format.
#[derive(Clone, Copy, Debug, PartialEq, Eq, Structural)]
pub struct Binary64 {
    pub bits: u64,
}

impl Binary64 {
    /// The bits behind the sign.
    pub open spec fn unsigned_bits(self) -> nat {
        (self.bits % 0x8000_0000_0000_0000) as nat
    }

    /// Whether the sign bit is set.
    pub open spec fn negative(self) -> bool {
        self.bits >= 0x8000_0000_0000_0000
    }

    /// Whether this is no number.
    pub open spec fn is_nan(self) -> bool {
        self.unsigned_bits() > 0x7ff0_0000_0000_0000
    }

    /// Whether this is a number and not an infinity.
    pub open spec fn is_finite(self) -> bool {
        self.unsigned_bits() < 0x7ff0_0000_0000_0000
    }

    /// The number, times 2 to the 1074th.
    pub open spec fn scaled(self) -> int {
        if self.negative() {
            -(magnitude(self.unsigned_bits(), 52) as int)
        } else {
            magnitude(self.unsigned_bits(), 52) as int
        }
    }

    /// Whether both are numbers and the first is less.
    pub open spec fn below(self, other: Binary64) -> bool {
        !self.is_nan() && !other.is_nan() && self.scaled() < other.scaled()
    }

    /// Whether both are numbers and the first is less or equal.
    pub open spec fn at_most(self, other: Binary64) -> bool {
        !self.is_nan() && !other.is_nan() && self.scaled() <= other.scaled()
    }

    fn split(self) -> (r: (bool, u64))
        ensures
            r.0 == self.negative(),
            r.1 == self.unsigned_bits(),
    {
        (self.bits >= 0x8000_0000_0000_0000, self.bits % 0x8000_0000_0000_0000)
    }

    /// Whether this is no number.
    pub fn nan(self) -> (r: bool)
        ensures
            r == self.is_nan(),
    {
        self.split().1 > 0x7ff0_0000_0000_0000
    }

    /// Whether this is a number and not an infinity.
    pub fn finite(self) -> (r: bool)
        ensures
            r == self.is_finite(),
    {
        self.split().1 < 0x7ff0_0000_0000_0000
    }

    /// `self < other`.
    pub fn lt(self, other: Binary64) -> (r: bool)
        ensures
            r == self.below(other),
    {
        if self.nan() || other.nan() {
            return false;
        }
        let (sa, a) = self.split();
        let (sb, b) = other.split();
        proof {
            lemma_magnitude_compares(a as nat, b as nat, 52);
            lemma_magnitude_compares(b as nat, a as nat, 52);
        }
        if sa && sb {
            b < a
        } else if sa {
            a != 0 || b != 0
        } else if sb {
            false
        } else {
            a < b
        }
    }

    /// `self <= other`.
    pub fn le(self, other: Binary64) -> (r: bool)
        ensures
            r == self.at_most(other),
    {
        if self.nan() || other.nan() {
            false
        } else {
            !other.lt(self)
        }
    }
}

/// A number in the binary32 format.
#[derive(Clone, Copy, Debug, PartialEq, Eq, Structural)]
pub struct Binary32 {
    pub bits: u32,
}

impl Binary32 {
    /// The bits behind the sign.
    pub open spec fn unsigned_bits(self) -> nat {
        (self.bits % 0x8000_0000) as nat
    }

    /// Whether the sign bit is set.
    pub open spec fn negative(self) -> bool {
        self.bits >= 0x8000_0000
    }

    /// Whether this is no number.
    pub open spec fn is_nan(self) -> bool {
        self.unsigned_bits() > 0x7f80_0000
    }

    /// The number, times 2 to the 149th.
    pub open spec fn scaled(self) -> int {
        if self.negative() {
            -(magnitude(self.unsigned_bits(), 23) as int)
        } else {
            magnitude(self.unsigned_bits(), 23) as int
        }
    }

    /// Whether both are numbers and the first is less or equal.
    pub open spec fn at_most(self, other: Binary32) -> bool {
        !self.is_nan() && !other.is_nan() && self.scaled() <= other.scaled()
    }

    fn split(self) -> (r: (bool, u32))
        ensures
            r.0 == self.negative(),
            r.1 == self.unsigned_bits(),
    {
        (self.bits >= 0x8000_0000, self.bits % 0x8000_0000)
    }

    /// `self <= other`.
    pub fn le(self, other: Binary32) -> (r: bool)
        ensures
            r == self.at_most(other),
    {
        let (sa, a) = self.split();
        let (sb, b) = other.split();
        if a > 0x7f80_0000 || b > 0x7f80_0000 {
            return false;
        }
        proof {
            lemma_magnitude_compares(a as nat, b as nat, 23);
            lemma_magnitude_compares(b as nat, a as nat, 23);
        }
        if sa && sb {
            b <= a
        } else if sa {
            true
        } else if sb {
            a == 0 && b == 0
        } else {
            a <= b
        }
    }
}

/// Numbers without a sign are ordered as their bits are, whether or not they
/// are subnormal; a number with a sign is less than one without, but that the
/// two zeros are equal; and two numbers with a sign are ordered the other way
/// round. What is no number is neither less nor greater than anything.
pub proof fn law_order_by_bits(a: Binary64, b: Binary64, lt: bool, le: bool)
    requires
        call_ensures(Binary64::lt, (a, b), lt),
        call_ensures(Binary64::le, (a, b), le),
    ensures
        ({
            let top = 0x8000_0000_0000_0000int;
            let inf = 0x7ff0_0000_0000_0000int;
            let (x, y) = (a.bits as int, b.bits as int);
            let nan = (inf < x < top) || (x > top + inf) || (inf < y < top) || (y > top + inf);
            if nan {
                !lt && !le
            } else if x < top && y < top {
                (lt <==> x < y) && (le <==> x <= y)
            } else if x >= top && y >= top {
                (lt <==> y < x) && (le <==> y <= x)
            } else if x >= top {
                le && (lt <==> !(x == top && y == 0))
            } else {
                !lt && (le <==> x == 0 && y == top)
            }
        }),
{
    let (m, n) = ((a.bits % 0x8000_0000_0000_0000) as nat, (b.bits % 0x8000_0000_0000_0000) as nat);
    lemma_magnitude_compares(m, n, 52);
    lemma_magnitude_compares(n, m, 52);
}

/// A number is finite where its exponent is not the greatest, and no number
/// where it is and the fraction is not zero.
pub proof fn law_kinds_by_bits(a: Binary64, finite: bool, nan: bool)
    requires
        call_ensures(Binary64::finite, (a,), finite),
        call_ensures(Binary64::nan, (a,), nan),
    ensures
        finite <==> (a.bits / 0x10_0000_0000_0000) % 2048 != 2047,
        nan <==> !finite && a.bits % 0x10_0000_0000_0000 != 0,
{
    let b = a.bits;
    assert((b / 0x10_0000_0000_0000) % 2048 != 2047 <==> b % 0x8000_0000_0000_0000
        < 0x7ff0_0000_0000_0000) by (bit_vector);
    assert(b % 0x8000_0000_0000_0000 > 0x7ff0_0000_0000_0000 <==> (b % 0x8000_0000_0000_0000
        >= 0x7ff0_0000_0000_0000 && b % 0x10_0000_0000_0000 != 0)) by (bit_vector);
}

/// The same of numbers of half the width: without a sign they are ordered as
/// their bits are, and one with a sign is not greater than one without.
pub proof fn law_narrow_order_by_bits(a: Binary32, b: Binary32, le: bool)
    requires
        call_ensures(Binary32::le, (a, b), le),
    ensures
        ({
            let top = 0x8000_0000int;
            let inf = 0x7f80_0000int;
            let (x, y) = (a.bits as int, b.bits as int);
            let nan = (inf < x < top) || (x > top + inf) || (inf < y < top) || (y > top + inf);
            if nan {
                !le
            } else if x < top && y < top {
                le <==> x <= y
            } else if x >= top && y >= top {
                le <==> y <= x
            } else if x >= top {
                le
            } else {
                le <==> x == 0 && y == top
            }
        }),
{
    let (m, n) = ((a.bits % 0x8000_0000) as nat, (b.bits % 0x8000_0000) as nat);
    lemma_magnitude_compares(m, n, 23);
    lemma_magnitude_compares(n, m, 23);
}

} // verus!
