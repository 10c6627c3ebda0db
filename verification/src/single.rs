//! Single-precision numbers by their bit patterns.
//!
//! Numbers reach the library as the 32 bits of a binary32 value. Ordering, clamping and
//! truncation are whole-number questions about those bits, and that is how they are answered
//! here; arithmetic that rounds is done by the caller, who hands its results in.
use vstd::arithmetic::div_mod::{lemma_div_by_multiple, lemma_div_multiples_vanish_quotient};
use vstd::arithmetic::power2::{
    lemma2_to64, lemma2_to64_rest, lemma_pow2_adds, lemma_pow2_pos, lemma_pow2_strictly_increases,
    pow2,
};
use vstd::bits::{lemma_u64_shl_is_mul, lemma_u64_shr_is_div};
use vstd::prelude::*;

verus! {

/// The bit pattern of a binary32 number.
#[derive(Clone, Copy, Debug, PartialEq, Eq, Structural)]
pub struct Single {
    pub bits: u32,
}

/// The bits of 0.
pub const ZERO_BITS: u32 = 0;

/// The bits of 1.
pub const ONE_BITS: u32 = 0x3F80_0000;

impl Single {
    /// The sign bit is set.
    pub open spec fn negative(self) -> bool {
        self.bits >= 0x8000_0000
    }

    /// The bits without the sign.
    pub open spec fn size(self) -> int {
        if self.bits >= 0x8000_0000 {
            self.bits - 0x8000_0000
        } else {
            self.bits as int
        }
    }

    /// The pattern is no number at all.
    pub open spec fn not_a_number(self) -> bool {
        self.size() > 0x7F80_0000
    }

    /// A number, and neither of the infinities.
    pub open spec fn finite(self) -> bool {
        self.size() < 0x7F80_0000
    }

    /// The place of a number among all numbers: one number is below another exactly when its
    /// rank is. The two zeros share rank 0.
    pub open spec fn rank(self) -> int {
        if self.negative() {
            -self.size()
        } else {
            self.size()
        }
    }

    /// The place of a pattern among all patterns, with -0 below +0 and the not-a-number
    /// patterns beyond the infinities on either side.
    pub open spec fn total_rank(self) -> int {
        if self.negative() {
            -self.size() - 1
        } else {
            self.size()
        }
    }

    /// `self < other` as numbers.
    pub open spec fn below(self, other: Single) -> bool {
        !self.not_a_number() && !other.not_a_number() && self.rank() < other.rank()
    }

    /// `self <= other` as numbers.
    pub open spec fn at_most(self, other: Single) -> bool {
        !self.not_a_number() && !other.not_a_number() && self.rank() <= other.rank()
    }

    /// `self == other` as numbers.
    pub open spec fn same_number(self, other: Single) -> bool {
        !self.not_a_number() && !other.not_a_number() && self.rank() == other.rank()
    }

    /// Anything but zero, the not-a-number patterns included.
    #[verifier::opaque]
    pub open spec fn nonzero(self) -> bool {
        self.not_a_number() || self.rank() != 0
    }

    /// `self` held into `[low, high]`; a not-a-number pattern passes through.
    #[verifier::opaque]
    pub open spec fn clamped(self, low: Single, high: Single) -> Single {
        if self.below(low) {
            low
        } else if high.below(self) {
            high
        } else {
            self
        }
    }

    /// `self`, or `other` where `self` is below it or no number.
    pub open spec fn at_least(self, other: Single) -> Single {
        if self.not_a_number() || self.below(other) {
            other
        } else {
            self
        }
    }

    /// `self`, or `other` where `self` is above it or no number.
    pub open spec fn no_more_than(self, other: Single) -> Single {
        if self.not_a_number() || other.below(self) {
            other
        } else {
            self
        }
    }

    /// The size of the number in units of 2^-149, of which every finite number is a whole
    /// multiple.
    pub open spec fn units(self) -> nat {
        let exponent = self.size() / 0x80_0000;
        let fraction = self.size() % 0x80_0000;
        if exponent <= 0 {
            fraction as nat
        } else {
            ((0x80_0000 + fraction) * pow2((exponent - 1) as nat)) as nat
        }
    }

    /// The whole part of the number's size.
    pub open spec fn whole_part(self) -> nat {
        self.units() / pow2(149)
    }

    /// The number is the whole number `n`.
    pub open spec fn is_whole(self, n: nat) -> bool {
        &&& self.finite()
        &&& !self.negative()
        &&& self.units() == n * pow2(149)
    }

    /// The conversion to a count: the whole part, negatives and not-a-number patterns at 0,
    /// and `limit` where the count does not fit.
    #[verifier::opaque]
    pub open spec fn count(self, limit: int) -> int {
        if self.not_a_number() || self.negative() {
            0
        } else if self.whole_part() > limit {
            limit
        } else {
            self.whole_part() as int
        }
    }

    /// The conversion to a signed 64-bit integer: the whole part with the sign, held to the
    /// range, and 0 for a not-a-number pattern.
    #[verifier::opaque]
    pub open spec fn integer(self) -> int {
        if self.not_a_number() {
            0
        } else if self.negative() {
            if self.whole_part() > 0x8000_0000_0000_0000 {
                -0x8000_0000_0000_0000
            } else {
                -self.whole_part()
            }
        } else if self.whole_part() > 0x7FFF_FFFF_FFFF_FFFF {
            0x7FFF_FFFF_FFFF_FFFF
        } else {
            self.whole_part() as int
        }
    }

    /// The number with these bits.
    pub fn from_bits(bits: u32) -> (r: Single)
        ensures
            r.bits == bits,
    {
        Single { bits }
    }

    fn size_of(self) -> (r: u32)
        ensures
            r == self.size(),
    {
        if self.bits >= 0x8000_0000 {
            self.bits - 0x8000_0000
        } else {
            self.bits
        }
    }

    /// Whether the pattern is no number.
    pub fn is_nan(self) -> (r: bool)
        ensures
            r == self.not_a_number(),
    {
        self.size_of() > 0x7F80_0000
    }

    fn rank_of(self) -> (r: i64)
        ensures
            r == self.rank(),
    {
        let size: i64 = self.size_of() as i64;
        if self.bits >= 0x8000_0000 {
            0 - size
        } else {
            size
        }
    }

    /// Whether `self` is a number, and neither of the infinities.
    pub fn is_finite(self) -> (r: bool)
        ensures
            r == self.finite(),
    {
        self.size_of() < 0x7F80_0000
    }

    /// Whether `self` sorts strictly after `other` among all patterns.
    pub fn sorts_after(self, other: Single) -> (r: bool)
        ensures
            r == (self.total_rank() > other.total_rank()),
    {
        let a: i64 = if self.bits >= 0x8000_0000 { -1 - (self.size_of() as i64) } else { self.size_of() as i64 };
        let b: i64 = if other.bits >= 0x8000_0000 { -1 - (other.size_of() as i64) } else { other.size_of() as i64 };
        a > b
    }

    /// Whether `self` is below `other`.
    pub fn is_below(self, other: Single) -> (r: bool)
        ensures
            r == self.below(other),
    {
        !self.is_nan() && !other.is_nan() && self.rank_of() < other.rank_of()
    }

    /// Whether `self` is `other` or below it.
    pub fn is_at_most(self, other: Single) -> (r: bool)
        ensures
            r == self.at_most(other),
    {
        !self.is_nan() && !other.is_nan() && self.rank_of() <= other.rank_of()
    }

    /// Whether the two are one number.
    pub fn equals(self, other: Single) -> (r: bool)
        ensures
            r == self.same_number(other),
    {
        !self.is_nan() && !other.is_nan() && self.rank_of() == other.rank_of()
    }

    /// Whether the value reads as "on": anything but zero.
    pub fn is_nonzero(self) -> (r: bool)
        ensures
            r == self.nonzero(),
    {
        proof {
            reveal(Single::nonzero);
        }
        self.is_nan() || self.rank_of() != 0
    }

    /// Holds the number into `[low, high]`.
    pub fn clamp(self, low: Single, high: Single) -> (r: Single)
        requires
            low.at_most(high),
        ensures
            r == self.clamped(low, high),
    {
        proof {
            reveal(Single::clamped);
        }
        if self.is_below(low) {
            low
        } else if high.is_below(self) {
            high
        } else {
            self
        }
    }

    /// The larger of the two, and `other` where `self` is no number.
    pub fn max(self, other: Single) -> (r: Single)
        ensures
            r == self.at_least(other),
    {
        if self.is_nan() || self.is_below(other) {
            other
        } else {
            self
        }
    }

    /// The smaller of the two, and `other` where `self` is no number.
    pub fn min(self, other: Single) -> (r: Single)
        ensures
            r == self.no_more_than(other),
    {
        if self.is_nan() || other.is_below(self) {
            other
        } else {
            self
        }
    }

    /// The whole part of the size, and `None` where it does not fit 64 bits.
    fn whole(self) -> (r: Option<u64>)
        requires
            !self.not_a_number(),
        ensures
            match r {
                Some(n) => n == self.whole_part(),
                None => self.whole_part() > u64::MAX,
            },
    {
        let size: u32 = self.size_of();
        let exponent: u32 = size / 0x80_0000;
        let fraction: u32 = size % 0x80_0000;
        let significand: u64 = 0x80_0000 + fraction as u64;
        if exponent < 127 {
            proof {
                lemma_below_one(self);
            }
            Some(0)
        } else if exponent <= 150 {
            let shift: u64 = 150 - exponent as u64;
            proof {
                lemma_u64_shr_is_div(significand, shift);
                lemma_fractional(self, exponent as nat, significand as nat);
            }
            Some(significand >> shift)
        } else if exponent <= 190 {
            let shift: u64 = exponent as u64 - 150;
            proof {
                lemma_wide(self, exponent as nat, significand as nat);
                lemma2_to64_rest();
                lemma_pow2_pos(shift as nat);
                if shift < 40 {
                    lemma_pow2_strictly_increases(shift as nat, 40);
                }
                assert(significand * pow2(shift as nat) < 0x1_0000_0000_0000_0000) by (nonlinear_arith)
                    requires
                        significand < 0x100_0000,
                        0 < pow2(shift as nat) <= 0x100_0000_0000,
                ;
                lemma_u64_shl_is_mul(significand, shift);
            }
            Some(significand << shift)
        } else {
            proof {
                lemma_wide(self, exponent as nat, significand as nat);
                let shift = (exponent - 150) as nat;
                lemma2_to64_rest();
                if shift > 41 {
                    lemma_pow2_strictly_increases(41, shift);
                }
                assert(significand * pow2(shift) > 0xFFFF_FFFF_FFFF_FFFF) by (nonlinear_arith)
                    requires
                        significand >= 0x80_0000,
                        pow2(shift) >= 0x200_0000_0000,
                ;
            }
            None
        }
    }

    /// The conversion to a 32-bit count.
    pub fn to_count(self) -> (r: u32)
        ensures
            r == self.count(u32::MAX as int),
    {
        proof {
            reveal(Single::count);
        }
        if self.is_nan() || self.bits >= 0x8000_0000 {
            0
        } else {
            match self.whole() {
                Some(n) => if n > 0xFFFF_FFFF { 0xFFFF_FFFF } else { n as u32 },
                None => 0xFFFF_FFFF,
            }
        }
    }

    /// The conversion to an 8-bit count.
    pub fn to_step(self) -> (r: u8)
        ensures
            r == self.count(u8::MAX as int),
    {
        proof {
            reveal(Single::count);
        }
        let n: u32 = self.to_count();
        if n > 255 { 255 } else { n as u8 }
    }

    /// The conversion to a signed 64-bit integer.
    pub fn to_integer(self) -> (r: i64)
        ensures
            r == self.integer(),
    {
        proof {
            reveal(Single::integer);
        }
        if self.is_nan() {
            return 0;
        }
        match self.whole() {
            Some(n) => {
                if self.bits >= 0x8000_0000 {
                    if n >= 0x8000_0000_0000_0000 {
                        i64::MIN
                    } else {
                        0 - (n as i64)
                    }
                } else if n > 0x7FFF_FFFF_FFFF_FFFF {
                    i64::MAX
                } else {
                    n as i64
                }
            },
            None => if self.bits >= 0x8000_0000 { i64::MIN } else { i64::MAX },
        }
    }
}

proof fn lemma_below_one(v: Single)
    requires
        v.size() / 0x80_0000 < 127,
    ensures
        v.whole_part() == 0,
{
    let exponent = v.size() / 0x80_0000;
    let fraction = v.size() % 0x80_0000;
    lemma_pow2_pos(149);
    lemma2_to64();
    if exponent <= 0 {
        lemma_pow2_strictly_increases(24, 149);
    } else {
        let e = (exponent - 1) as nat;
        lemma_pow2_adds(24, 125);
        lemma_pow2_pos(e);
        if e < 125 {
            lemma_pow2_strictly_increases(e, 125);
        }
        assert((0x80_0000 + fraction) * pow2(e) < pow2(24) * pow2(125)) by (nonlinear_arith)
            requires
                0 <= fraction < 0x80_0000,
                0 < pow2(e) <= pow2(125),
                pow2(24) == 0x100_0000,
        ;
    }
    assert(v.units() < pow2(149));
    vstd::arithmetic::div_mod::lemma_basic_div(v.units() as int, pow2(149) as int);
}

proof fn lemma_fractional(v: Single, exponent: nat, significand: nat)
    requires
        exponent == v.size() / 0x80_0000,
        significand == 0x80_0000 + v.size() % 0x80_0000,
        127 <= exponent <= 150,
    ensures
        v.whole_part() == significand / pow2((150 - exponent) as nat),
{
    let low = (exponent - 1) as nat;
    let high = (150 - exponent) as nat;
    lemma_pow2_adds(low, high);
    lemma_pow2_pos(low);
    lemma_pow2_pos(high);
    lemma_div_multiples_vanish_quotient(pow2(low) as int, significand as int, pow2(high) as int);
    assert(significand * pow2(low) == pow2(low) * significand) by (nonlinear_arith);
}

proof fn lemma_wide(v: Single, exponent: nat, significand: nat)
    requires
        exponent == v.size() / 0x80_0000,
        significand == 0x80_0000 + v.size() % 0x80_0000,
        150 < exponent,
    ensures
        v.whole_part() == significand * pow2((exponent - 150) as nat),
{
    let extra = (exponent - 150) as nat;
    lemma_pow2_adds(extra, 149);
    lemma_pow2_pos(149);
    let p = pow2(extra) as int;
    let q = pow2(149) as int;
    assert(significand * (p * q) == (significand * p) * q) by (nonlinear_arith);
    assert(significand * p >= 0) by (nonlinear_arith)
        requires
            significand >= 0,
            p >= 0,
    ;
    lemma_div_by_multiple(significand * p, q);
}

/// A larger number has no smaller a whole part, among numbers of no sign.
pub proof fn whole_part_grows(a: Single, b: Single)
    requires
        a.at_most(b),
        !a.negative(),
        !b.negative(),
    ensures
        a.units() <= b.units(),
        a.whole_part() <= b.whole_part(),
        a.below(b) ==> a.units() < b.units(),
{
    let ea = a.size() / 0x80_0000;
    let eb = b.size() / 0x80_0000;
    let fa = a.size() % 0x80_0000;
    let fb = b.size() % 0x80_0000;
    if ea == eb {
        if ea > 0 {
            let p = pow2((ea - 1) as nat) as int;
            lemma_pow2_pos((ea - 1) as nat);
            assert((0x80_0000 + fa) * p <= (0x80_0000 + fb) * p) by (nonlinear_arith)
                requires
                    fa <= fb,
                    p > 0,
            ;
            if fa < fb {
                assert((0x80_0000 + fa) * p < (0x80_0000 + fb) * p) by (nonlinear_arith)
                    requires
                        fa < fb,
                        p > 0,
                ;
            }
        }
    } else {
        assert(ea < eb);
        let q = pow2((eb - 1) as nat) as int;
        lemma_pow2_pos((eb - 1) as nat);
        assert(0x80_0000 * q <= (0x80_0000 + fb) * q) by (nonlinear_arith)
            requires
                fb >= 0,
                q > 0,
        ;
        if ea > 0 {
            let p = pow2((ea - 1) as nat) as int;
            lemma_pow2_pos((ea - 1) as nat);
            lemma_pow2_adds(1, (ea - 1) as nat);
            lemma2_to64();
            if ea < eb - 1 {
                lemma_pow2_strictly_increases(ea as nat, (eb - 1) as nat);
            }
            assert((0x80_0000 + fa) * p < 0x80_0000 * q) by (nonlinear_arith)
                requires
                    0 <= fa < 0x80_0000,
                    p > 0,
                    2 * p <= q,
            ;
        } else {
            assert(fa < 0x80_0000 * q) by (nonlinear_arith)
                requires
                    fa < 0x80_0000,
                    q >= 1,
            ;
        }
    }
    lemma_pow2_pos(149);
    vstd::arithmetic::div_mod::lemma_div_is_ordered(a.units() as int, b.units() as int, pow2(149) as int);
}

/// A number with no fraction bits and the exponent of `2^e` is `2^e`.
pub(crate) proof fn lemma_power_of_two(v: Single, e: nat)
    requires
        v.bits == (127 + e) * 0x80_0000,
        e <= 8,
    ensures
        v.is_whole(pow2(e)),
{
    assert(v.size() / 0x80_0000 == 127 + e);
    assert(v.size() % 0x80_0000 == 0);
    lemma2_to64();
    lemma_pow2_adds(23, (126 + e) as nat);
    lemma_pow2_adds(e, 149);
}

/// A pattern whose significand is `n` whole units is the number `n`; `exponent` is its exponent
/// field, and 0 stands for the number 0.
pub(crate) proof fn lemma_whole(v: Single, n: nat, exponent: nat)
    requires
        v.bits < 0x8000_0000,
        if exponent == 0 {
            v.bits == 0 && n == 0
        } else {
            &&& 127 <= exponent <= 150
            &&& v.bits / 0x80_0000 == exponent
            &&& 0x80_0000 + v.bits % 0x80_0000 == n * pow2((150 - exponent) as nat)
        },
    ensures
        v.is_whole(n),
{
    if exponent > 0 {
        let low = (exponent - 1) as nat;
        let high = (150 - exponent) as nat;
        lemma_pow2_adds(high, low);
        assert((n * pow2(high)) * pow2(low) == n * (pow2(high) * pow2(low))) by (nonlinear_arith);
    } else {
        assert(0 * pow2(149) == 0);
    }
}

/// A whole number counts as itself, where it is within the limit.
pub(crate) proof fn lemma_whole_count(v: Single, n: nat, limit: int)
    requires
        v.is_whole(n),
        n <= limit,
    ensures
        v.count(limit) == n,
{
    reveal(Single::count);
    lemma_pow2_pos(149);
    lemma_div_by_multiple(n as int, pow2(149) as int);
}

/// The pattern of 5 has the whole part 5.
pub(crate) proof fn lemma_five()
    ensures
        (Single { bits: 0x40A0_0000 }).whole_part() == 5,
{
    let v = Single { bits: 0x40A0_0000 };
    lemma_fractional(v, 129, 0xA0_0000);
    lemma2_to64();
}

/// Clamping lands inside the bounds, for everything that is a number.
pub proof fn clamped_lands_inside(v: Single, low: Single, high: Single)
    requires
        low.at_most(high),
        !v.not_a_number(),
    ensures
        low.at_most(v.clamped(low, high)),
        v.clamped(low, high).at_most(high),
{
    reveal(Single::clamped);
}

/// Clamping a clamped value changes nothing.
pub proof fn clamping_is_idempotent(v: Single, low: Single, high: Single)
    requires
        low.at_most(high),
    ensures
        v.clamped(low, high).clamped(low, high) == v.clamped(low, high),
{
    reveal(Single::clamped);
}

/// A value already inside the bounds is kept bit for bit.
pub proof fn clamping_keeps_what_fits(v: Single, low: Single, high: Single)
    requires
        low.at_most(v),
        v.at_most(high),
    ensures
        v.clamped(low, high) == v,
{
    reveal(Single::clamped);
}

} // verus!
