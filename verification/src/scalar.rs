use vstd::prelude::*;
use vstd::arithmetic::power2::{
    pow2,
    lemma_pow2_adds,
    lemma_pow2_pos,
    lemma_pow2_strictly_increases,
    lemma_pow2_unfold,
    lemma2_to64,
};

verus! {

/// The bit of a pattern that carries the sign.
pub const SIGN_BIT: u32 = 0x8000_0000;

/// The pattern of positive infinity. A magnitude above it is a NaN.
pub const INFINITY_BITS: u32 = 0x7f80_0000;

/// The weight of the exponent field in a pattern: two to the power of 23,
/// the width of the fraction field.
pub const FRACTION_SPAN: u32 = 0x80_0000;

/// What a magnitude stands for, in units of the smallest positive number,
/// two to the power of -149: the fraction alone while the exponent field is
/// zero; else the fraction with its leading one, doubled once for each step
/// of the exponent field above one.
pub open spec fn size_of(magnitude: int) -> int {
    let exponent = magnitude / (FRACTION_SPAN as int);
    let fraction = magnitude % (FRACTION_SPAN as int);
    if exponent == 0 {
        fraction
    } else {
        (FRACTION_SPAN + fraction) * pow2((exponent - 1) as nat)
    }
}

/// Below `FRACTION_SPAN` times two to the power of the exponent field, and
/// from the exponent field one on at least half of that.
proof fn lemma_size_is_between(magnitude: int)
    requires
        0 <= magnitude,
    ensures
        0 <= size_of(magnitude) < FRACTION_SPAN * pow2((magnitude / (FRACTION_SPAN as int)) as nat),
        magnitude >= FRACTION_SPAN ==> size_of(magnitude) >= FRACTION_SPAN * pow2(
            (magnitude / (FRACTION_SPAN as int) - 1) as nat,
        ),
        size_of(magnitude) == 0 <==> magnitude == 0,
{
    let exponent = magnitude / (FRACTION_SPAN as int);
    let fraction = magnitude % (FRACTION_SPAN as int);
    let span = FRACTION_SPAN as int;
    if exponent == 0 {
        lemma2_to64();
    } else {
        let p = pow2((exponent - 1) as nat) as int;
        lemma_pow2_pos((exponent - 1) as nat);
        lemma_pow2_unfold(exponent as nat);
        assert((span + fraction) * p < (2 * span) * p) by (nonlinear_arith)
            requires
                0 <= fraction < span,
                p > 0,
        ;
        assert((2 * span) * p == span * (2 * p)) by (nonlinear_arith);
        assert((span + fraction) * p >= span * p) by (nonlinear_arith)
            requires
                0 <= fraction,
                p > 0,
        ;
        assert(span * p > 0) by (nonlinear_arith)
            requires
                span > 0,
                p > 0,
        ;
    }
}

/// A larger magnitude stands for a larger size.
proof fn lemma_size_increases(smaller: int, larger: int)
    requires
        0 <= smaller < larger,
    ensures
        size_of(smaller) < size_of(larger),
{
    let span = FRACTION_SPAN as int;
    let e1 = smaller / span;
    let e2 = larger / span;
    let f1 = smaller % span;
    let f2 = larger % span;
    if e1 == e2 {
        if e1 != 0 {
            let p = pow2((e1 - 1) as nat) as int;
            lemma_pow2_pos((e1 - 1) as nat);
            assert((span + f1) * p < (span + f2) * p) by (nonlinear_arith)
                requires
                    f1 < f2,
                    p > 0,
            ;
        }
    } else {
        lemma_size_is_between(smaller);
        lemma_size_is_between(larger);
        let above = pow2(e1 as nat) as int;
        let below = pow2((e2 - 1) as nat) as int;
        if e1 < e2 - 1 {
            lemma_pow2_strictly_increases(e1 as nat, (e2 - 1) as nat);
        }
        assert(span * above <= span * below) by (nonlinear_arith)
            requires
                above <= below,
                span > 0,
        ;
    }
}

/// A single precision number of IEEE 754 (binary32), held by its bit pattern.
///
/// The library never does arithmetic on such a number. It orders numbers,
/// flips their sign and carries them; every sum, product and root is the
/// caller's.
#[derive(Clone, Copy, Debug)]
pub struct Scalar {
    pub bits: u32,
}

impl Scalar {
    /// The number with the given bit pattern.
    pub open spec fn of(bits: u32) -> Scalar {
        Scalar { bits }
    }

    /// The pattern without its sign bit.
    pub open spec fn magnitude(self) -> int {
        if self.bits >= SIGN_BIT {
            self.bits - SIGN_BIT
        } else {
            self.bits as int
        }
    }

    /// The sign bit is set. This holds of negative zero and of half the NaNs too.
    pub open spec fn sign(self) -> bool {
        self.bits >= SIGN_BIT
    }

    /// The pattern is not a number.
    pub open spec fn nan(self) -> bool {
        self.magnitude() > INFINITY_BITS
    }

    /// The place of a number among all numbers: `a` is less than `b` exactly
    /// when `a.rank() < b.rank()`, and both zeros have rank 0. Of a NaN the
    /// rank has no meaning.
    pub open spec fn rank(self) -> int {
        if self.sign() {
            -self.magnitude()
        } else {
            self.magnitude()
        }
    }

    /// The number that the pattern stands for, in units of the smallest
    /// positive number, two to the power of -149: an integer for every
    /// number. An infinity has the value that its pattern would have as a
    /// number, beyond every number; of a NaN the value has no meaning.
    pub open spec fn value(self) -> int {
        if self.sign() {
            -size_of(self.magnitude())
        } else {
            size_of(self.magnitude())
        }
    }

    /// `self < other` as IEEE 754 orders numbers: false when either is a NaN.
    pub open spec fn below(self, other: Scalar) -> bool {
        !self.nan() && !other.nan() && self.rank() < other.rank()
    }

    /// `self <= other` as IEEE 754 orders numbers: false when either is a NaN.
    pub open spec fn at_most(self, other: Scalar) -> bool {
        !self.nan() && !other.nan() && self.rank() <= other.rank()
    }

    /// The number with the opposite sign: the same pattern with the sign bit
    /// flipped, of a zero, an infinity and a NaN too.
    pub open spec fn opposite(self) -> Scalar {
        if self.sign() {
            Scalar::of((self.bits - SIGN_BIT) as u32)
        } else {
            Scalar::of((self.bits + SIGN_BIT) as u32)
        }
    }

    /// The number with the given bit pattern.
    pub fn from_bits(bits: u32) -> (s: Scalar)
        ensures
            s == Scalar::of(bits),
    {
        Scalar { bits }
    }

    /// The bit pattern of the number.
    pub fn to_bits(self) -> (bits: u32)
        ensures
            bits == self.bits,
    {
        self.bits
    }

    /// Positive zero.
    pub fn zero() -> (s: Scalar)
        ensures
            s == Scalar::of(0),
            s.value() == 0,
    {
        Scalar { bits: 0 }
    }

    /// The number one: 2^149 units of 2^-149.
    pub fn one() -> (s: Scalar)
        ensures
            s == Scalar::of(0x3f80_0000),
            s.value() == pow2(149),
    {
        proof {
            lemma2_to64();
            lemma_pow2_adds(23, 126);
            assert(0x3f80_0000int / 0x80_0000 == 127 && 0x3f80_0000int % 0x80_0000 == 0);
        }
        Scalar { bits: 0x3f80_0000 }
    }

    /// Whether the pattern is a NaN.
    pub fn is_nan(self) -> (r: bool)
        ensures
            r == self.nan(),
    {
        let magnitude: u32 = if self.bits >= SIGN_BIT {
            self.bits - SIGN_BIT
        } else {
            self.bits
        };
        magnitude > INFINITY_BITS
    }

    /// The rank as a machine integer.
    fn key(self) -> (k: i64)
        ensures
            k == self.rank(),
    {
        if self.bits >= SIGN_BIT {
            -((self.bits - SIGN_BIT) as i64)
        } else {
            self.bits as i64
        }
    }

    /// `self < other`.
    pub fn lt(self, other: Scalar) -> (r: bool)
        ensures
            r == self.below(other),
    {
        !self.is_nan() && !other.is_nan() && self.key() < other.key()
    }

    /// `self > other`.
    pub fn gt(self, other: Scalar) -> (r: bool)
        ensures
            r == other.below(self),
    {
        other.lt(self)
    }

    /// `self <= other`.
    pub fn le(self, other: Scalar) -> (r: bool)
        ensures
            r == self.at_most(other),
    {
        !self.is_nan() && !other.is_nan() && self.key() <= other.key()
    }

    /// `self >= other`.
    pub fn ge(self, other: Scalar) -> (r: bool)
        ensures
            r == other.at_most(self),
    {
        other.le(self)
    }

    /// The number with the opposite sign.
    pub fn neg(self) -> (r: Scalar)
        ensures
            r == self.opposite(),
            !self.nan() ==> r.value() == -self.value(),
    {
        if self.bits >= SIGN_BIT {
            Scalar { bits: self.bits - SIGN_BIT }
        } else {
            Scalar { bits: self.bits + SIGN_BIT }
        }
    }
}

/// The order of the patterns is the order of the numbers that they stand
/// for: of two patterns that are not NaN, one is below the other exactly
/// when its value is the smaller, and the two zeros, which have one value,
/// are at most each other.
pub proof fn lemma_order_is_that_of_the_values(a: Scalar, b: Scalar)
    requires
        !a.nan(),
        !b.nan(),
    ensures
        a.below(b) <==> a.value() < b.value(),
        a.at_most(b) <==> a.value() <= b.value(),
{
    let ma = a.magnitude();
    let mb = b.magnitude();
    lemma_size_is_between(ma);
    lemma_size_is_between(mb);
    if ma < mb {
        lemma_size_increases(ma, mb);
    } else if mb < ma {
        lemma_size_increases(mb, ma);
    }
}

} // verus!
