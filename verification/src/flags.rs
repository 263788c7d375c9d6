//! Condition-flag logic: a three-valued flag derived from a 16-bit result,
//! stored one-hot in the condition-flags register.

use vstd::prelude::*;
use crate::bits::bit16;

verus! {

/// The mutually exclusive condition flags set after a flag-updating
/// instruction and consumed by the conditional branch.
#[derive(Clone, Copy, PartialEq, Eq, Structural, Debug)]
pub enum Flag {
    Positive,
    Zero,
    Negative,
}

/// One-hot encoding of a flag in the condition-flags register.
pub open spec fn flag_bits(f: Flag) -> u16 {
    match f {
        Flag::Positive => 1,
        Flag::Zero => 2,
        Flag::Negative => 4,
    }
}

/// The flag a 16-bit result is classified as: ZERO for zero, NEGATIVE when
/// bit 15 is set, POSITIVE otherwise.
pub open spec fn classify(v: u16) -> Flag {
    if v == 0 {
        Flag::Zero
    } else if v >= 0x8000 {
        Flag::Negative
    } else {
        Flag::Positive
    }
}

/// The condition-flags register's value after a result `v` is classified.
pub open spec fn cond_bits(v: u16) -> u16 {
    flag_bits(classify(v))
}

/// Classifies a 16-bit result into its condition flag.
pub fn get_flag(r: u16) -> (f: Flag)
    ensures
        f == classify(r),
{
    proof {
        assert((r >> 15u16 == 1) == (r >= 0x8000)) by (bit_vector);
    }
    if r == 0 {
        Flag::Zero
    } else if r >> 15 == 1 {
        Flag::Negative
    } else {
        Flag::Positive
    }
}

/// The one-hot register encoding of a flag.
pub fn flag_value(f: Flag) -> (b: u16)
    ensures
        b == flag_bits(f),
{
    match f {
        Flag::Positive => 1,
        Flag::Zero => 2,
        Flag::Negative => 4,
    }
}

/// Sets the condition-flags register (slot 9) to the classification of the
/// value held in register `r`.
pub fn update_flag(registers: &mut Vec<u16>, r: u16)
    requires
        old(registers)@.len() == 10,
        r < 10,
    ensures
        final(registers)@ == old(registers)@.update(9, cond_bits(old(registers)@[r as int])),
{
    let v = registers[r as usize];
    let b = flag_value(get_flag(v));
    registers[9] = b;
}

/// The classification is ZERO exactly on zero, NEGATIVE exactly on a nonzero
/// value with bit 15 set, POSITIVE otherwise; and the resulting flags-register
/// value always has exactly one of the three flag bits set.
pub proof fn lemma_classify_flags(v: u16)
    ensures
        (classify(v) == Flag::Zero) <==> (v == 0),
        (classify(v) == Flag::Negative) <==> (v != 0 && bit16(v, 15)),
        (classify(v) == Flag::Positive) <==> (v != 0 && !bit16(v, 15)),
        cond_bits(v) == 1 || cond_bits(v) == 2 || cond_bits(v) == 4,
{
    assert(((v >> 15u16) & 1 == 1) == (v >= 0x8000)) by (bit_vector);
}

} // verus!
