use vstd::arithmetic::power2::{
    lemma2_to64, lemma2_to64_rest, lemma_pow2_strictly_increases, lemma_pow2_unfold, pow2,
};
use vstd::prelude::*;

verus! {

/// The encoding of the sign bit of a binary64 value.
pub const SIGN_BIT: u64 = 0x8000_0000_0000_0000;

/// The encoding of positive infinity; a magnitude above it is a NaN.
pub const INFINITY_BITS: u64 = 0x7ff0_0000_0000_0000;

/// `2^52`: the hidden leading bit of a normal binary64 significand.
pub const HIDDEN_BIT: u64 = 0x10_0000_0000_0000;

/// How many doublings bring `m` to 53 bits.
pub open spec fn leading_shift(m: nat) -> nat
    decreases 2 * HIDDEN_BIT - m,
{
    if m == 0 || m >= HIDDEN_BIT {
        0
    } else {
        1 + leading_shift(2 * m)
    }
}

/// `m` doubled until it has 53 bits: the significand of its binary64 value.
pub open spec fn normalized(m: nat) -> nat
    decreases 2 * HIDDEN_BIT - m,
{
    if m == 0 || m >= HIDDEN_BIT {
        m
    } else {
        normalized(2 * m)
    }
}

/// The binary64 encoding of the integer `n`, for `|n| < 2^53`: the sign bit,
/// the biased exponent `1023 + 52 - s` where `s` doublings bring `|n|` to 53
/// bits, and those 53 bits without the leading one. Zero is all zero bits.
pub open spec fn encoding_of_int(n: int) -> int {
    if n == 0 {
        0
    } else {
        let m = vstd::math::abs(n) as nat;
        (if n < 0 {
            SIGN_BIT as int
        } else {
            0
        }) + (1075 - leading_shift(m)) * HIDDEN_BIT + (normalized(m) - HIDDEN_BIT)
    }
}

/// The significand and exponent of [`encoding_of_int`] denote `m`: doubling
/// `m` `s` times gives a 53-bit significand, scaled back by `2^-s`.
pub proof fn lemma_normalized_value(m: nat)
    requires
        1 <= m < 2 * HIDDEN_BIT,
    ensures
        normalized(m) == m * pow2(leading_shift(m)),
        HIDDEN_BIT <= normalized(m) < 2 * HIDDEN_BIT,
        leading_shift(m) <= 52,
    decreases 2 * HIDDEN_BIT - m,
{
    lemma2_to64();
    lemma2_to64_rest();
    if m < HIDDEN_BIT {
        let s = leading_shift(2 * m);
        lemma_normalized_value(2 * m);
        assert(leading_shift(m) == s + 1);
        lemma_pow2_unfold(s + 1);
        assert(normalized(m) == normalized(2 * m));
        assert(pow2(s + 1) == 2 * pow2(s));
        assert(2 * m * pow2(s) == m * (2 * pow2(s))) by (nonlinear_arith);
        assert(normalized(m) == m * pow2(s + 1));
        if s + 1 > 52 {
            if s + 1 > 53 {
                lemma_pow2_strictly_increases(53, s + 1);
            }
            assert(m * pow2(s + 1) >= pow2(s + 1)) by (nonlinear_arith)
                requires
                    m >= 1,
            ;
        }
    } else {
        assert(leading_shift(m) == 0);
        assert(pow2(0) == 1);
        assert(normalized(m) == m * pow2(0));
    }
}

/// A coordinate in degrees, held as the IEEE 754 binary64 encoding of its value.
///
/// `==` on this type compares encodings: `0.0` and `-0.0` differ there, while
/// [`Coord::same_value`] treats them as the same number.
#[derive(Clone, Copy, Debug, PartialEq, Eq, Hash, Structural)]
pub struct Coord {
    pub bits: u64,
}

impl Coord {
    /// Whether the sign bit is set.
    pub open spec fn is_negative(self) -> bool {
        self.bits >= SIGN_BIT
    }

    /// The encoding with the sign bit cleared.
    pub open spec fn magnitude(self) -> int {
        if self.is_negative() {
            self.bits - SIGN_BIT
        } else {
            self.bits as int
        }
    }

    /// Whether the encoding is a NaN.
    pub open spec fn is_nan(self) -> bool {
        self.magnitude() > INFINITY_BITS
    }

    /// A key that orders the values that are not NaN as the numbers they
    /// encode: the encodings of non-negative values grow with the value, and
    /// both zeros get the key zero.
    pub open spec fn key(self) -> int {
        if self.is_negative() {
            -self.magnitude()
        } else {
            self.magnitude()
        }
    }

    /// IEEE 754 `<`: false whenever either side is NaN.
    pub open spec fn lt(self, other: Coord) -> bool {
        !self.is_nan() && !other.is_nan() && self.key() < other.key()
    }

    /// IEEE 754 `==`: false whenever either side is NaN, true of the two zeros.
    pub open spec fn same_value(self, other: Coord) -> bool {
        !self.is_nan() && !other.is_nan() && self.key() == other.key()
    }

    /// The coordinate with the given encoding.
    pub fn from_bits(bits: u64) -> (r: Coord)
        ensures
            r.bits == bits,
    {
        Coord { bits }
    }

    /// The coordinate whose value is the integer `n`.
    pub fn from_i32(n: i32) -> (r: Coord)
        ensures
            r.bits == encoding_of_int(n as int),
    {
        if n == 0 {
            return Coord { bits: 0 };
        }
        let negative = n < 0;
        let m: u64 = if negative {
            (-(n as i64)) as u64
        } else {
            n as u64
        };
        proof {
            lemma_normalized_value(m as nat);
        }
        let mut mm: u64 = m;
        let mut shift: u64 = 0;
        while mm < HIDDEN_BIT
            invariant
                1 <= mm < 2 * HIDDEN_BIT,
                m == vstd::math::abs(n as int),
                shift + leading_shift(mm as nat) == leading_shift(m as nat),
                normalized(mm as nat) == normalized(m as nat),
                shift <= 52,
                leading_shift(m as nat) <= 52,
            decreases 2 * HIDDEN_BIT - mm,
        {
            proof {
                lemma_normalized_value(mm as nat);
                lemma_normalized_value((2 * mm) as nat);
            }
            mm = mm * 2;
            shift = shift + 1;
        }
        let sign: u64 = if negative {
            SIGN_BIT
        } else {
            0
        };
        Coord { bits: sign + (1075 - shift) * HIDDEN_BIT + (mm - HIDDEN_BIT) }
    }

    /// Floating-point `<` on the encoded values.
    pub fn less_than(&self, other: &Coord) -> (r: bool)
        ensures
            r == self.lt(*other),
    {
        let a_neg = self.bits >= SIGN_BIT;
        let b_neg = other.bits >= SIGN_BIT;
        let a_mag: u64 = if a_neg { self.bits - SIGN_BIT } else { self.bits };
        let b_mag: u64 = if b_neg { other.bits - SIGN_BIT } else { other.bits };
        if a_mag > INFINITY_BITS || b_mag > INFINITY_BITS {
            false
        } else if a_neg && b_neg {
            a_mag > b_mag
        } else if !a_neg && !b_neg {
            a_mag < b_mag
        } else if a_neg {
            !(a_mag == 0 && b_mag == 0)
        } else {
            false
        }
    }
}

} // verus!
