use vstd::arithmetic::div_mod::lemma_fundamental_div_mod_converse;
use vstd::arithmetic::power2::{lemma2_to64, lemma_pow2_unfold, pow2};
use vstd::prelude::*;

verus! {

/// The single-precision bit pattern of `0.0`.
pub const ZERO_BITS: u32 = 0;

/// The single-precision bit pattern of `1.0`.
pub const ONE_BITS: u32 = 0x3f80_0000;

/// A cell's colour: three channels, each the IEEE-754 single-precision bit pattern of a
/// value meant to lie in `[0, 1]`. These are the exact bits that the device receives.
#[derive(Clone, Copy, Debug, PartialEq, Eq, Structural)]
pub struct Colour {
    pub r: u32,
    pub g: u32,
    pub b: u32,
}

/// The bits of the single-precision number nearest to `t / (255 * 2^k)`, for a
/// `t` that has been doubled `k` times from a non-zero byte.
pub open spec fn scaled_unit_bits(t: nat, k: nat) -> u32
    decreases 510 - t,
{
    if t == 0 || t >= 255 {
        // t / 255 lies in [1, 2): the value is (t / 255) * 2^-k, with the
        // 23-bit fraction rounded to nearest (no ties: 255 is odd).
        let mantissa = (t * 0x100_0000 + 255) / 510;
        ((127 - k) * 0x80_0000 + (mantissa - 0x80_0000)) as u32
    } else {
        scaled_unit_bits(2 * t, k + 1)
    }
}

/// The single-precision bit pattern nearest to `byte / 255`.
pub open spec fn unit_bits(byte: u8) -> u32 {
    if byte == 0 {
        ZERO_BITS
    } else {
        scaled_unit_bits(byte as nat, 0)
    }
}

/// The single-precision bits of `byte / 255`, computed exactly in integers.
pub fn unit_bits_of_byte(byte: u8) -> (r: u32)
    ensures
        r == unit_bits(byte),
{
    if byte == 0 {
        return ZERO_BITS;
    }
    let mut t: u64 = byte as u64;
    let mut k: u64 = 0;
    let ghost mut p: nat = 1;
    proof {
        lemma2_to64();
    }
    while t < 255
        invariant
            1 <= p <= t < 510,
            k <= 8,
            p == pow2(k as nat),
            scaled_unit_bits(t as nat, k as nat) == scaled_unit_bits(byte as nat, 0),
        decreases 510 - t,
    {
        proof {
            lemma2_to64();
            lemma_pow2_unfold((k + 1) as nat);
        }
        t = 2 * t;
        k = k + 1;
        proof {
            p = 2 * p;
        }
    }
    let mantissa: u64 = (t * 0x100_0000 + 255) / 510;
    assert(0x80_0000 <= mantissa < 0x100_0000) by (nonlinear_arith)
        requires
            255 <= t < 510,
            mantissa == (t * 0x100_0000 + 255) / 510,
    ;
    ((127 - k) * 0x80_0000 + (mantissa - 0x80_0000)) as u32
}

/// The binade and rounding of `scaled_unit_bits(t, k)` for `t = byte * 2^k`.
proof fn lemma_scaled_unit_bits(byte: nat, t: nat, k: nat)
    requires
        1 <= byte <= 255,
        t == byte * pow2(k),
        pow2(k) <= t < 510,
        k <= 8,
    ensures
        ({
            let bits = scaled_unit_bits(t, k) as int;
            let kk = 127 - bits / 0x80_0000;
            let f = bits % 0x80_0000;
            &&& 0 <= kk <= 8
            &&& 255 <= byte * pow2(kk as nat) < 510
            &&& -255 < 510 * (0x80_0000 + f) - byte * pow2(kk as nat) * 0x100_0000 < 255
        }),
    decreases 510 - t,
{
    lemma2_to64();
    if t >= 255 {
        let m = (t * 0x100_0000 + 255) / 510;
        assert(0x80_0000 <= m < 0x100_0000) by (nonlinear_arith)
            requires
                255 <= t < 510,
                m == (t * 0x100_0000 + 255) / 510,
        ;
        assert(510 * m <= t * 0x100_0000 + 255 < 510 * m + 510) by (nonlinear_arith)
            requires
                m == (t * 0x100_0000 + 255) / 510,
        ;
        let bits = (127 - k) * 0x80_0000 + (m - 0x80_0000);
        assert(scaled_unit_bits(t, k) as int == bits);
        lemma_fundamental_div_mod_converse(bits, 0x80_0000, 127 - k, m - 0x80_0000);
        let d = 510 * m - t * 0x100_0000;
        assert(d == 2 * (255 * m - t * 0x80_0000));
        assert(d != 255);
    } else {
        lemma_pow2_unfold(k + 1);
        assert(k < 8) by {
            if k == 8 {
                assert(pow2(8) == 256);
            }
        }
        assert(2 * t == byte * pow2(k + 1)) by (nonlinear_arith)
            requires
                t == byte * pow2(k),
                pow2(k + 1) == 2 * pow2(k),
        ;
        lemma_scaled_unit_bits(byte, 2 * t, k + 1);
    }
}

/// For every non-zero byte, `unit_bits` encodes a normal single-precision number whose
/// exponent puts `byte / 255` in its binade, `[2^-k, 2^(1-k))`, and whose 24-bit
/// significand is within half a unit in the last place of `byte / 255`: it is the
/// number nearest to `byte / 255`.
pub proof fn lemma_unit_bits_nearest(byte: u8)
    requires
        byte > 0,
    ensures
        ({
            let bits = unit_bits(byte) as int;
            let k = 127 - bits / 0x80_0000;
            let significand = 0x80_0000 + bits % 0x80_0000;
            &&& 0 <= k <= 8
            &&& 255 <= byte * pow2(k as nat) < 510
            &&& -255 < 510 * significand - byte * pow2(k as nat) * 0x100_0000 < 255
        }),
{
    lemma2_to64();
    lemma_scaled_unit_bits(byte as nat, byte as nat, 0);
}

impl Colour {
    pub fn new(r: u32, g: u32, b: u32) -> (c: Colour)
        ensures
            c == (Colour { r, g, b }),
    {
        Colour { r, g, b }
    }

    pub open spec fn from_bytes_spec(rgb: [u8; 3]) -> Colour {
        Colour { r: unit_bits(rgb@[0]), g: unit_bits(rgb@[1]), b: unit_bits(rgb@[2]) }
    }

    /// The colour whose channels are the given bytes, each divided by 255.
    pub fn from_bytes(rgb: [u8; 3]) -> (c: Colour)
        ensures
            c == Colour::from_bytes_spec(rgb),
    {
        Colour {
            r: unit_bits_of_byte(rgb[0]),
            g: unit_bits_of_byte(rgb[1]),
            b: unit_bits_of_byte(rgb[2]),
        }
    }
}

} // verus!
