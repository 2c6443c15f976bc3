//! Exact reasoning about IEEE 754 binary64 numbers held by their 64-bit
//! encoding.
//!
//! Settings carry fractional values (font sizes, opacities). The library keeps
//! each such value as the bit pattern of the binary64 number it stands for and
//! decides finiteness and order from that pattern, so every comparison is exact.
//! The meaning of a pattern is `scaled_value`: the number multiplied by 2^1074,
//! which is an integer for every finite binary64 number.
use vstd::arithmetic::mul::*;
use vstd::arithmetic::power2::*;
use vstd::prelude::*;

verus! {

/// 2^63: the sign bit of the encoding.
pub const SIGN_BIT: u64 = 0x8000_0000_0000_0000;

/// 2^52: one step of the biased exponent field.
pub const EXPONENT_STEP: u64 = 0x0010_0000_0000_0000;

/// The biased exponent of infinities and NaNs.
pub const NON_FINITE_EXPONENT: u64 = 2047;

/// A binary64 number held by its encoding.
#[derive(Clone, Copy, Debug, PartialEq, Eq, Structural)]
pub struct Binary64 {
    pub bits: u64,
}

/// The encoding without its sign bit.
pub open spec fn unsigned_bits(bits: u64) -> int {
    bits as int % 0x8000_0000_0000_0000
}

pub open spec fn sign_is_negative(bits: u64) -> bool {
    bits >= 0x8000_0000_0000_0000
}

pub open spec fn biased_exponent(bits: u64) -> int {
    unsigned_bits(bits) / 0x0010_0000_0000_0000
}

pub open spec fn fraction(bits: u64) -> int {
    unsigned_bits(bits) % 0x0010_0000_0000_0000
}

pub open spec fn is_finite_bits(bits: u64) -> bool {
    biased_exponent(bits) < 2047
}

/// The factor by which `scaled_value` scales a number.
pub open spec fn value_scale() -> int {
    pow2(1074) as int
}

/// The magnitude of a finite encoding, multiplied by 2^1074.
pub open spec fn scaled_magnitude(bits: u64) -> int {
    if biased_exponent(bits) == 0 {
        fraction(bits)
    } else {
        (0x0010_0000_0000_0000 + fraction(bits)) * pow2((biased_exponent(bits) - 1) as nat) as int
    }
}

/// The number that a finite encoding stands for, multiplied by 2^1074.
pub open spec fn scaled_value(bits: u64) -> int {
    if sign_is_negative(bits) {
        -scaled_magnitude(bits)
    } else {
        scaled_magnitude(bits)
    }
}

/// An integer, multiplied by the same factor as `scaled_value`.
pub open spec fn scaled_integer(n: int) -> int {
    n * value_scale()
}

impl Binary64 {
    pub open spec fn spec_finite(self) -> bool {
        is_finite_bits(self.bits)
    }

    pub open spec fn spec_scaled(self) -> int {
        scaled_value(self.bits)
    }

    /// Whether `lo <= self <= hi` holds of finite numbers.
    pub open spec fn spec_in_range(self, lo: Binary64, hi: Binary64) -> bool {
        &&& self.spec_finite()
        &&& lo.spec_scaled() <= self.spec_scaled()
        &&& self.spec_scaled() <= hi.spec_scaled()
    }

    /// A number that fits the integer conversions exactly: its magnitude is
    /// below 2^53.
    pub open spec fn spec_moderate(self) -> bool {
        &&& self.spec_finite()
        &&& -(pow2(53) as int) * value_scale() < self.spec_scaled()
        &&& self.spec_scaled() < pow2(53) as int * value_scale()
    }

    /// NaN: the non-finite exponent with a nonzero fraction.
    pub open spec fn spec_is_nan(self) -> bool {
        biased_exponent(self.bits) == 2047 && fraction(self.bits) != 0
    }

    /// `self < 0.0` as IEEE 754 compares: a negative number other than
    /// `-0.0`, negative infinity included; never NaN.
    pub open spec fn spec_below_zero(self) -> bool {
        !self.spec_is_nan() && sign_is_negative(self.bits) && unsigned_bits(self.bits) != 0
    }

    /// `self > 0.0` as IEEE 754 compares: a positive number other than
    /// `0.0`, positive infinity included; never NaN.
    pub open spec fn spec_above_zero(self) -> bool {
        !self.spec_is_nan() && !sign_is_negative(self.bits) && unsigned_bits(self.bits) != 0
    }

    pub fn is_nan(self) -> (nan: bool)
        ensures
            nan == self.spec_is_nan(),
    {
        let unsigned = self.bits % SIGN_BIT;
        unsigned / EXPONENT_STEP == NON_FINITE_EXPONENT && unsigned % EXPONENT_STEP != 0
    }

    pub fn below_zero(self) -> (result: bool)
        ensures
            result == self.spec_below_zero(),
    {
        !self.is_nan() && self.bits >= SIGN_BIT && self.bits % SIGN_BIT != 0
    }

    pub fn above_zero(self) -> (result: bool)
        ensures
            result == self.spec_above_zero(),
    {
        !self.is_nan() && self.bits < SIGN_BIT && self.bits % SIGN_BIT != 0
    }

    pub fn from_bits(bits: u64) -> (result: Binary64)
        ensures
            result.bits == bits,
    {
        Binary64 { bits }
    }

    pub fn to_bits(self) -> (bits: u64)
        ensures
            bits == self.bits,
    {
        self.bits
    }

    /// Whether the number is neither infinite nor NaN.
    pub fn is_finite(self) -> (finite: bool)
        ensures
            finite == self.spec_finite(),
    {
        (self.bits % SIGN_BIT) / EXPONENT_STEP != NON_FINITE_EXPONENT
    }

    /// `self <= other` on finite numbers; `-0.0` and `0.0` are equal.
    pub fn le(self, other: Binary64) -> (result: bool)
        requires
            self.spec_finite(),
            other.spec_finite(),
        ensures
            result == (self.spec_scaled() <= other.spec_scaled()),
    {
        let a = self.bits % SIGN_BIT;
        let b = other.bits % SIGN_BIT;
        proof {
            lemma_magnitude_order(self.bits, other.bits);
            lemma_magnitude_order(other.bits, self.bits);
            lemma_magnitude_zero(self.bits);
            lemma_magnitude_zero(other.bits);
        }
        let a_negative = self.bits >= SIGN_BIT;
        let b_negative = other.bits >= SIGN_BIT;
        if !a_negative && !b_negative {
            a <= b
        } else if a_negative && b_negative {
            b <= a
        } else if a_negative {
            true
        } else {
            a == 0 && b == 0
        }
    }

    /// Whether the number is finite and lies in the closed range `[lo, hi]`.
    pub fn in_range(self, lo: Binary64, hi: Binary64) -> (result: bool)
        requires
            lo.spec_finite(),
            hi.spec_finite(),
        ensures
            result == self.spec_in_range(lo, hi),
    {
        self.is_finite() && lo.le(self) && self.le(hi)
    }

    /// The exact encoding of the integer `-magnitude` (when `negative`) or
    /// `magnitude`, which must be below 2^53.
    pub fn from_integer(negative: bool, magnitude: u64) -> (result: Binary64)
        requires
            magnitude < 0x0020_0000_0000_0000,
        ensures
            result.spec_finite(),
            result.spec_scaled() == scaled_integer(
                if negative {
                    -(magnitude as int)
                } else {
                    magnitude as int
                },
            ),
            result == exact_integer(
                if negative {
                    -(magnitude as int)
                } else {
                    magnitude as int
                },
            ),
    {
        let result = Self::encode_integer(negative, magnitude);
        proof {
            let n = if negative {
                -(magnitude as int)
            } else {
                magnitude as int
            };
            lemma_exact_integer_unique(n, result);
        }
        result
    }

    fn encode_integer(negative: bool, magnitude: u64) -> (result: Binary64)
        requires
            magnitude < 0x0020_0000_0000_0000,
        ensures
            result.spec_finite(),
            result.spec_scaled() == scaled_integer(
                if negative {
                    -(magnitude as int)
                } else {
                    magnitude as int
                },
            ),
            magnitude == 0 ==> result.bits == 0,
    {
        proof {
            lemma2_to64_rest();
        }
        if magnitude == 0 {
            proof {
                assert(unsigned_bits(0) == 0);
                assert(biased_exponent(0) == 0);
                assert(fraction(0) == 0);
            }
            return Binary64 { bits: 0 };
        }
        let mut m: u64 = magnitude;
        let mut shift: u64 = 0;
        proof {
            lemma2_to64();
        }
        while m < EXPONENT_STEP
            invariant
                0 < m < 0x0020_0000_0000_0000,
                shift <= 52,
                m < EXPONENT_STEP ==> shift < 52,
                m as int == magnitude as int * pow2(shift as nat) as int,
                0 < magnitude < 0x0020_0000_0000_0000,
                pow2(52) == 0x0010_0000_0000_0000,
                pow2(53) == 0x0020_0000_0000_0000,
            decreases 52 - shift,
        {
            proof {
                lemma_pow2_unfold((shift + 1) as nat);
                let p = pow2(shift as nat) as int;
                assert(pow2((shift + 1) as nat) == 2 * p);
                assert(magnitude as int * (2 * p) == 2 * (magnitude as int * p)) by (nonlinear_arith);
                lemma_bit_length_bound(magnitude, m, shift);
            }
            m = m * 2;
            shift = shift + 1;
        }
        let exponent: u64 = 1075 - shift;
        let frac: u64 = m - EXPONENT_STEP;
        let unsigned: u64 = exponent * EXPONENT_STEP + frac;
        let bits: u64 = if negative {
            unsigned + SIGN_BIT
        } else {
            unsigned
        };
        proof {
            assert(unsigned < SIGN_BIT);
            assert(unsigned_bits(bits) == unsigned as int);
            assert(biased_exponent(bits) == exponent as int);
            assert(fraction(bits) == frac as int);
            lemma_pow2_adds(shift as nat, (exponent - 1) as nat);
            assert(shift + (exponent - 1) == 1074);
            lemma_mul_is_associative(
                magnitude as int,
                pow2(shift as nat) as int,
                pow2((exponent - 1) as nat) as int,
            );
            assert(scaled_magnitude(bits) == m as int * pow2((exponent - 1) as nat) as int);
            assert(scaled_magnitude(bits) == magnitude as int * value_scale());
            if negative {
                lemma_mul_unary_negation(magnitude as int, value_scale());
            }
        }
        Binary64 { bits }
    }
}

/// The encoding of the integer `n`; `+0.0` for zero.
pub open spec fn exact_integer(n: int) -> Binary64 {
    choose|b: Binary64|
        b.spec_finite() && b.spec_scaled() == scaled_integer(n) && (n == 0 ==> b.bits == 0)
}

/// Shifting a nonzero magnitude below 2^53 left until it has 53 bits.
proof fn lemma_normalize(magnitude: int, m: int, shift: int) -> (r: (int, int))
    requires
        0 < magnitude < 0x0020_0000_0000_0000,
        0 < m < 0x0020_0000_0000_0000,
        0 <= shift <= 52,
        m < 0x0010_0000_0000_0000 ==> shift < 52,
        m == magnitude * pow2(shift as nat),
        pow2(52) == 0x0010_0000_0000_0000,
        pow2(53) == 0x0020_0000_0000_0000,
    ensures
        0x0010_0000_0000_0000 <= r.0 < 0x0020_0000_0000_0000,
        0 <= r.1 <= 52,
        r.0 == magnitude * pow2(r.1 as nat),
    decreases 52 - shift,
{
    if m < 0x0010_0000_0000_0000 {
        lemma_pow2_unfold((shift + 1) as nat);
        let p = pow2(shift as nat) as int;
        assert(pow2((shift + 1) as nat) == 2 * p);
        assert(magnitude * (2 * p) == 2 * (magnitude * p)) by (nonlinear_arith);
        lemma_bit_length_bound(magnitude as u64, m as u64, shift as u64);
        lemma_normalize(magnitude, 2 * m, shift + 1)
    } else {
        (m, shift)
    }
}

/// The encoding of `-magnitude` (when `negative`) or `magnitude`, for a
/// magnitude below 2^53, exists.
proof fn lemma_integer_encoding(negative: bool, magnitude: int) -> (b: Binary64)
    requires
        0 <= magnitude < 0x0020_0000_0000_0000,
    ensures
        b.spec_finite(),
        b.spec_scaled() == scaled_integer(
            if negative {
                -magnitude
            } else {
                magnitude
            },
        ),
        magnitude == 0 ==> b.bits == 0,
{
    lemma2_to64();
    lemma2_to64_rest();
    if magnitude == 0 {
        assert(unsigned_bits(0) == 0);
        assert(biased_exponent(0) == 0);
        assert(fraction(0) == 0);
        assert(scaled_integer(0) == 0);
        return Binary64 { bits: 0 };
    }
    assert(pow2(0int as nat) == 1);
    lemma_mul_basics(magnitude);
    assert(magnitude == magnitude * pow2(0int as nat));
    let (m, shift) = lemma_normalize(magnitude, magnitude, 0);
    let exponent: int = 1075 - shift;
    let frac: int = m - 0x0010_0000_0000_0000;
    let unsigned: int = exponent * 0x0010_0000_0000_0000 + frac;
    let bits: u64 = (if negative {
        unsigned + 0x8000_0000_0000_0000
    } else {
        unsigned
    }) as u64;
    assert(unsigned < 0x8000_0000_0000_0000);
    assert(unsigned_bits(bits) == unsigned);
    assert(biased_exponent(bits) == exponent);
    assert(fraction(bits) == frac);
    lemma_pow2_adds(shift as nat, (exponent - 1) as nat);
    assert(shift + (exponent - 1) == 1074);
    lemma_mul_is_associative(
        magnitude,
        pow2(shift as nat) as int,
        pow2((exponent - 1) as nat) as int,
    );
    assert(scaled_magnitude(bits) == m * pow2((exponent - 1) as nat) as int);
    assert(scaled_magnitude(bits) == magnitude * value_scale());
    if negative {
        lemma_mul_unary_negation(magnitude, value_scale());
    }
    Binary64 { bits }
}

/// An integer of magnitude below 2^53 has an exact encoding.
pub proof fn lemma_exact_integer(n: int)
    requires
        -0x0020_0000_0000_0000 < n < 0x0020_0000_0000_0000,
    ensures
        exact_integer(n).spec_finite(),
        exact_integer(n).spec_scaled() == scaled_integer(n),
{
    let b = if n < 0 {
        lemma_integer_encoding(true, -n)
    } else {
        lemma_integer_encoding(false, n)
    };
    lemma_exact_integer_unique(n, b);
}

/// Two finite encodings of the same nonzero number are the same encoding.
pub proof fn lemma_encoding_unique(a: Binary64, b: Binary64)
    requires
        a.spec_finite(),
        b.spec_finite(),
        a.spec_scaled() == b.spec_scaled(),
        a.spec_scaled() != 0,
    ensures
        a == b,
{
    lemma_magnitude_zero(a.bits);
    lemma_magnitude_zero(b.bits);
    lemma_magnitude_order(a.bits, b.bits);
    lemma_magnitude_order(b.bits, a.bits);
    assert(sign_is_negative(a.bits) == sign_is_negative(b.bits));
    assert(scaled_magnitude(a.bits) == scaled_magnitude(b.bits));
    assert(unsigned_bits(a.bits) == unsigned_bits(b.bits));
}

proof fn lemma_exact_integer_unique(n: int, b: Binary64)
    requires
        b.spec_finite(),
        b.spec_scaled() == scaled_integer(n),
        n == 0 ==> b.bits == 0,
    ensures
        exact_integer(n) == b,
{
    let c = exact_integer(n);
    assert(c.spec_finite() && c.spec_scaled() == scaled_integer(n) && (n == 0 ==> c.bits == 0));
    if n != 0 {
        lemma_pow2_pos(1074);
        vstd::arithmetic::mul::lemma_mul_nonzero(n, value_scale());
        lemma_encoding_unique(b, c);
    }
}

/// A finite encoding whose biased exponent is at most 1075 has magnitude
/// below 2^53.
pub proof fn lemma_moderate(b: Binary64)
    requires
        b.spec_finite(),
        biased_exponent(b.bits) <= 1075,
    ensures
        b.spec_moderate(),
{
    lemma_magnitude_bounds(b.bits);
    lemma_magnitude_zero(b.bits);
    let e = biased_exponent(b.bits);
    lemma2_to64_rest();
    if e < 1075 {
        lemma_pow2_strictly_increases(e as nat, 1075);
    }
    lemma_mul_inequality(pow2(e as nat) as int, pow2(1075) as int, 0x0010_0000_0000_0000);
    lemma_mul_is_commutative(pow2(e as nat) as int, 0x0010_0000_0000_0000);
    lemma_pow2_adds(52, 1075);
    lemma_pow2_adds(53, 1074);
}

/// For numbers whose sign bit is clear, the order of numbers is the order of
/// their encodings.
pub proof fn lemma_nonnegative_order(a: Binary64, b: Binary64)
    requires
        a.spec_finite(),
        b.spec_finite(),
        !sign_is_negative(a.bits),
        !sign_is_negative(b.bits),
    ensures
        (a.bits <= b.bits) == (a.spec_scaled() <= b.spec_scaled()),
        a.spec_scaled() >= 0,
{
    lemma_magnitude_order(a.bits, b.bits);
    lemma_magnitude_zero(a.bits);
}

/// While shifting left stays below 2^52, the shift is below 52.
proof fn lemma_bit_length_bound(magnitude: u64, m: u64, shift: u64)
    requires
        0 < magnitude,
        m as int == magnitude as int * pow2(shift as nat) as int,
        m < 0x0010_0000_0000_0000,
        pow2(52) == 0x0010_0000_0000_0000,
    ensures
        shift < 51 || (shift == 51 && m * 2 >= 0x0010_0000_0000_0000),
{
    if shift >= 52 {
        if shift > 52 {
            lemma_pow2_strictly_increases(52, shift as nat);
        }
        lemma_mul_inequality(1, magnitude as int, pow2(shift as nat) as int);
    }
    if shift == 51 {
        lemma_pow2_unfold(52);
        lemma_mul_inequality(1, magnitude as int, pow2(51) as int);
    }
}

/// The encoding without its sign bit splits into exponent and fraction.
proof fn lemma_split(bits: u64)
    ensures
        unsigned_bits(bits) == biased_exponent(bits) * 0x0010_0000_0000_0000 + fraction(bits),
        0 <= fraction(bits) < 0x0010_0000_0000_0000,
        0 <= biased_exponent(bits) < 2048,
        0 <= unsigned_bits(bits) < 0x8000_0000_0000_0000,
{
}

/// A finite magnitude below the next exponent step: it is less than
/// 2^52 * 2^e for biased exponent e, and at least 2^52 * 2^(e-1) when e > 0.
proof fn lemma_magnitude_bounds(bits: u64)
    requires
        is_finite_bits(bits),
    ensures
        0 <= scaled_magnitude(bits),
        scaled_magnitude(bits) < 0x0010_0000_0000_0000 * pow2(biased_exponent(bits) as nat),
        biased_exponent(bits) > 0 ==> scaled_magnitude(bits) >= 0x0010_0000_0000_0000 * pow2(
            (biased_exponent(bits) - 1) as nat,
        ),
{
    lemma_split(bits);
    let e = biased_exponent(bits);
    let f = fraction(bits);
    if e == 0 {
        lemma2_to64();
    } else {
        let p = pow2((e - 1) as nat) as int;
        lemma_pow2_pos((e - 1) as nat);
        lemma_pow2_unfold(e as nat);
        lemma_mul_strict_inequality(0x0010_0000_0000_0000 + f, 0x0020_0000_0000_0000, p);
        lemma_mul_inequality(0x0010_0000_0000_0000, 0x0010_0000_0000_0000 + f, p);
        lemma_mul_is_associative(0x0010_0000_0000_0000, 2, p);
    }
}

/// The magnitude grows strictly with the unsigned encoding.
proof fn lemma_magnitude_strictly_increasing(a: u64, b: u64)
    requires
        is_finite_bits(a),
        is_finite_bits(b),
        unsigned_bits(a) < unsigned_bits(b),
    ensures
        scaled_magnitude(a) < scaled_magnitude(b),
{
    lemma_split(a);
    lemma_split(b);
    lemma_magnitude_bounds(a);
    lemma_magnitude_bounds(b);
    let ea = biased_exponent(a);
    let eb = biased_exponent(b);
    if ea == eb {
        if ea > 0 {
            lemma_pow2_pos((ea - 1) as nat);
            lemma_mul_strict_inequality(
                0x0010_0000_0000_0000 + fraction(a),
                0x0010_0000_0000_0000 + fraction(b),
                pow2((ea - 1) as nat) as int,
            );
        }
    } else {
        assert(ea < eb);
        if ea < eb - 1 {
            lemma_pow2_strictly_increases(ea as nat, (eb - 1) as nat);
        }
        lemma_mul_inequality(
            pow2(ea as nat) as int,
            pow2((eb - 1) as nat) as int,
            0x0010_0000_0000_0000,
        );
        lemma_mul_is_commutative(pow2(ea as nat) as int, 0x0010_0000_0000_0000);
        lemma_mul_is_commutative(pow2((eb - 1) as nat) as int, 0x0010_0000_0000_0000);
    }
}

/// The order of magnitudes follows the order of unsigned encodings.
proof fn lemma_magnitude_order(a: u64, b: u64)
    requires
        is_finite_bits(a),
        is_finite_bits(b),
    ensures
        (unsigned_bits(a) <= unsigned_bits(b)) == (scaled_magnitude(a) <= scaled_magnitude(b)),
{
    if unsigned_bits(a) < unsigned_bits(b) {
        lemma_magnitude_strictly_increasing(a, b);
    } else if unsigned_bits(b) < unsigned_bits(a) {
        lemma_magnitude_strictly_increasing(b, a);
    }
}

/// Only the encodings of the two zeros have magnitude zero.
proof fn lemma_magnitude_zero(a: u64)
    requires
        is_finite_bits(a),
    ensures
        (scaled_magnitude(a) == 0) == (unsigned_bits(a) == 0),
        scaled_magnitude(a) >= 0,
{
    lemma_magnitude_bounds(a);
    lemma_split(a);
    if unsigned_bits(a) > 0 {
        assert(unsigned_bits(0) == 0);
        assert(is_finite_bits(0));
        lemma_magnitude_strictly_increasing(0, a);
        assert(scaled_magnitude(0) == 0);
    }
}

} // verus!
