//! Two's-complement sign extension and the PMBus LINEAR encodings.
//!
//! A decoded value is kept exactly, as a mantissa and a power-of-two
//! exponent; turning it into a float is left to the caller.
use vstd::prelude::*;
use vstd::arithmetic::power2::{pow2, lemma_pow2_unfold, lemma_pow2_strictly_increases, lemma2_to64};

verus! {

/// The signed value of the `n`-bit two's-complement pattern `v`.
pub open spec fn twos_value(v: int, n: nat) -> int {
    if v >= pow2((n - 1) as nat) {
        v - pow2(n)
    } else {
        v
    }
}

/// `2^n`, for `n` up to 16.
fn pow2_u32(n: u32) -> (r: u32)
    requires
        n <= 16,
    ensures
        r == pow2(n as nat),
        r <= 65536,
{
    proof {
        lemma2_to64();
    }
    let mut p: u32 = 1;
    let mut i: u32 = 0;
    while i < n
        invariant
            i <= n,
            n <= 16,
            p == pow2(i as nat),
            pow2(16) == 65536,
        decreases n - i,
    {
        proof {
            lemma_pow2_strictly_increases(i as nat, 16);
            lemma_pow2_unfold((i + 1) as nat);
        }
        p = p * 2;
        i = i + 1;
    }
    proof {
        if n < 16 {
            lemma_pow2_strictly_increases(n as nat, 16);
        }
    }
    p
}

/// Interprets the low `bits` bits of `val` as a two's-complement number:
/// when the sign bit (bit `bits - 1`) is set the result is `val - 2^bits`,
/// otherwise `val` itself.
pub fn twos_comp(val: u16, bits: usize) -> (r: i16)
    requires
        1 <= bits <= 16,
        val < pow2(bits as nat),
    ensures
        r == twos_value(val as int, bits as nat),
{
    let p = pow2_u32(bits as u32);
    proof {
        lemma_pow2_unfold(bits as nat);
    }
    if (val as u32) >= p / 2 {
        ((val as i32) - (p as i32)) as i16
    } else {
        val as i16
    }
}

/// The mantissa field of a LINEAR11 word: bits 10..0, signed.
pub open spec fn linear11_mantissa(word: u16) -> int {
    twos_value(word as int % 2048, 11)
}

/// The exponent field of a LINEAR11 word: bits 15..11, signed.
pub open spec fn linear11_exponent(word: u16) -> int {
    twos_value(word as int / 2048, 5)
}

/// The exponent carried by a LINEAR16 exponent byte: its low five bits, signed.
pub open spec fn linear16_exponent(byte: u8) -> int {
    twos_value(byte as int % 32, 5)
}

/// A decoded PMBus quantity, exactly `mantissa * 2^exponent`.
#[derive(Clone, Copy, Debug, PartialEq, Eq, Structural)]
pub struct Linear {
    pub mantissa: i32,
    pub exponent: i32,
}

impl Linear {
    /// The ranges that the LINEAR11 and LINEAR16 encodings can produce.
    pub open spec fn wf(self) -> bool {
        -16 <= self.exponent <= 15 && -65536 < self.mantissa < 65536
    }

    /// The numerator of the value over the denominator `denominator_of`.
    pub open spec fn numerator_of(self) -> int {
        if self.exponent >= 0 {
            self.mantissa * pow2(self.exponent as nat)
        } else {
            self.mantissa as int
        }
    }

    /// The denominator of the value: `2^-exponent` for a negative exponent, else 1.
    pub open spec fn denominator_of(self) -> nat {
        if self.exponent >= 0 {
            1
        } else {
            pow2((-self.exponent) as nat)
        }
    }

    /// The exact value as a fraction `(numerator, denominator)`, with
    /// `numerator / denominator == mantissa * 2^exponent`.
    pub fn fraction(&self) -> (r: (i64, u64))
        requires
            self.wf(),
        ensures
            r.0 == self.numerator_of(),
            r.1 == self.denominator_of(),
    {
        if self.exponent >= 0 {
            let p = pow2_u32(self.exponent as u32);
            proof {
                lemma2_to64();
                if self.exponent < 15 {
                    lemma_pow2_strictly_increases(self.exponent as nat, 15);
                }
                assert(-65536 * 32768 <= self.mantissa * p <= 65536 * 32768) by (nonlinear_arith)
                    requires
                        -65536 < self.mantissa < 65536,
                        0 < p <= 32768,
                ;
            }
            ((self.mantissa as i64) * (p as i64), 1)
        } else {
            let p = pow2_u32((0 - self.exponent) as u32);
            (self.mantissa as i64, p as u64)
        }
    }
}

/// Decodes a LINEAR11 word: a five-bit signed exponent in bits 15..11 and an
/// eleven-bit signed mantissa in bits 10..0.
pub fn decode_linear11(word: u16) -> (r: Linear)
    ensures
        r.mantissa == linear11_mantissa(word),
        r.exponent == linear11_exponent(word),
        r.wf(),
{
    proof {
        lemma2_to64();
        assert((word & 0xF800u16) >> 11u16 == word / 2048) by (bit_vector);
        assert(word & 0x7FFu16 == word % 2048) by (bit_vector);
    }
    let exponent = twos_comp((word & 0xF800) >> 11, 5);
    let mantissa = twos_comp(word & 0x7FF, 11);
    Linear { mantissa: mantissa as i32, exponent: exponent as i32 }
}

/// Decodes a LINEAR16 pair: an unsigned sixteen-bit mantissa and an exponent
/// byte whose low five bits are the signed exponent.
pub fn decode_linear16(mantissa: u16, exponent: u8) -> (r: Linear)
    ensures
        r.mantissa == mantissa,
        r.exponent == linear16_exponent(exponent),
        r.wf(),
{
    proof {
        lemma2_to64();
        assert(exponent & 0x1Fu8 == exponent % 32) by (bit_vector);
    }
    let e = twos_comp((exponent & 0x1F) as u16, 5);
    Linear { mantissa: mantissa as i32, exponent: e as i32 }
}

/// Re-encoding the signed value of an `n`-bit pattern into `n` bits gives the
/// pattern back.
pub proof fn lemma_twos_value_reencodes(v: int, n: nat)
    requires
        1 <= n,
        0 <= v < pow2(n),
    ensures
        twos_value(v, n) % (pow2(n) as int) == v,
{
    lemma_pow2_unfold(n);
    let p = pow2(n) as int;
    if v >= pow2((n - 1) as nat) {
        assert((v - p) % p == v) by {
            vstd::arithmetic::div_mod::lemma_mod_add_multiples_vanish(v - p, p);
            vstd::arithmetic::div_mod::lemma_small_mod(v as nat, p as nat);
        }
    } else {
        vstd::arithmetic::div_mod::lemma_small_mod(v as nat, p as nat);
    }
}

/// Zero stays zero, and the pattern with only the sign bit set is the most
/// negative value, `-2^(n-1)`.
pub proof fn lemma_twos_value_extremes(n: nat)
    requires
        1 <= n,
    ensures
        twos_value(0, n) == 0,
        twos_value(pow2((n - 1) as nat) as int, n) == -(pow2((n - 1) as nat) as int),
{
    lemma_pow2_unfold(n);
    vstd::arithmetic::power2::lemma_pow2_pos((n - 1) as nat);
}

} // verus!
