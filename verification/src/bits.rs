//! Bit-field decoding primitives: wrapping 16-bit address arithmetic and
//! two's-complement sign extension of an n-bit field to 16 bits.

use vstd::prelude::*;

verus! {

/// Wrapping 16-bit sum: all address and ALU arithmetic of the machine is
/// carried out modulo 65536.
pub open spec fn wadd(a: u16, b: u16) -> u16 {
    ((a + b) % 0x10000) as u16
}

/// The program counter after one fetch: the address plus one, wrapping.
pub open spec fn winc(a: u16) -> u16 {
    wadd(a, 1)
}

/// Bit `i` of `v` (bit 0 is the least significant).
pub open spec fn bit16(v: u16, i: u16) -> bool {
    (v >> i) & 1 == 1
}

/// Two's-complement sign extension of the low `n` bits of `x` to 16 bits:
/// if the field's sign bit (bit `n - 1`) is clear the value is unchanged,
/// otherwise the field's negative value is re-encoded in 16 bits.
pub open spec fn sext(x: u16, n: u16) -> u16
    recommends
        1 <= n <= 16,
        (x as u32) < (1u32 << (n as u32)),
{
    if (x as u32) < (1u32 << ((n - 1) as u32)) {
        x
    } else {
        ((x as u32 + 0x10000u32) - (1u32 << (n as u32))) as u16
    }
}

/// Adds two 16-bit values with wraparound modulo 65536.
pub fn wrapping_add16(a: u16, b: u16) -> (r: u16)
    ensures
        r == wadd(a, b),
{
    (((a as u32) + (b as u32)) % 0x10000) as u16
}

/// Sign-extends the low `bit_count` bits of `x` to a full 16-bit value.
/// The bits of `x` above the field must be zero.
pub fn sign_extend(x: u16, bit_count: u8) -> (r: u16)
    requires
        1 <= bit_count <= 16,
        (x as u32) < (1u32 << (bit_count as u32)),
    ensures
        r == sext(x, bit_count as u16),
{
    let n: u16 = bit_count as u16;
    let r: u16 = if (x >> (n - 1)) & 1 == 1 {
        if n == 16 {
            x
        } else {
            x | (0xFFFFu16 << n)
        }
    } else {
        x
    };
    proof {
        assert(r == sext(x, n)) by (bit_vector)
            requires
                1 <= n <= 16,
                (x as u32) < (1u32 << (n as u32)),
                r == (if (x >> ((n - 1) as u16)) & 1 == 1 {
                    if n == 16 {
                        x
                    } else {
                        x | (0xFFFFu16 << n)
                    }
                } else {
                    x
                }),
        ;
    }
    r
}

/// Sign extension reproduces the input bit for bit below the field width,
/// and copies the field's sign bit into every bit from the width upward.
pub proof fn lemma_sign_extend_bits(x: u16, n: u16, i: u16)
    requires
        1 <= n <= 16,
        (x as u32) < (1u32 << (n as u32)),
        i < 16,
    ensures
        i < n ==> bit16(sext(x, n), i) == bit16(x, i),
        n <= i ==> bit16(sext(x, n), i) == bit16(x, (n - 1) as u16),
{
    assert((i < n ==> bit16(sext(x, n), i) == bit16(x, i)) && (n <= i ==> bit16(
        sext(x, n),
        i,
    ) == bit16(x, (n - 1) as u16))) by (bit_vector)
        requires
            1 <= n <= 16,
            (x as u32) < (1u32 << (n as u32)),
            i < 16,
    ;
}

} // verus!
