//! Instruction-set definitions: opcode and trap-vector tags, the fatal-fault
//! taxonomy, and positional extraction of the fields of an instruction word.

use vstd::prelude::*;

verus! {

/// The sixteen opcode tags, in the order of their 4-bit encodings
/// (BRANCH is 0, TRAP is 15). RTI and RES are not implemented by this
/// machine: executing either is a fatal decode error.
#[derive(Clone, Copy, PartialEq, Eq, Structural, Debug)]
pub enum Opcode {
    Branch,
    Add,
    Load,
    Store,
    Jumpr,
    And,
    Loadr,
    Storer,
    Rti,
    Not,
    Loadi,
    Storei,
    Jump,
    Res,
    Lea,
    Trap,
}

/// The six recognized trap vectors of the character-I/O traps.
#[derive(Clone, Copy, PartialEq, Eq, Structural, Debug)]
pub enum Trap {
    Getc,
    Out,
    Puts,
    In,
    Putsp,
    Halt,
}

/// A fatal failure of the execution loop. No fault is recoverable: each
/// aborts the run, leaving registers and memory as they stood at the abort.
#[derive(Clone, Copy, PartialEq, Eq, Structural, Debug)]
pub enum Fault {
    /// An RTI or RES opcode was decoded.
    IllegalOpcode { opcode: u16 },
    /// A TRAP instruction selected a vector outside the six recognized ones.
    UndefinedTrap { vector: u16 },
    /// GETC or IN was executed with no further input available.
    InputExhausted,
}

/// How a bounded run ended: the machine reached HALT, a fatal fault aborted
/// it, or the step budget ran out while it was still running.
#[derive(Clone, Copy, PartialEq, Eq, Structural, Debug)]
pub enum RunOutcome {
    Halted,
    Faulted(Fault),
    OutOfSteps,
}

/// The opcode tag encoded by a 4-bit value.
pub open spec fn opcode_spec(op: u16) -> Opcode
    recommends
        op < 16,
{
    match op {
        0 => Opcode::Branch,
        1 => Opcode::Add,
        2 => Opcode::Load,
        3 => Opcode::Store,
        4 => Opcode::Jumpr,
        5 => Opcode::And,
        6 => Opcode::Loadr,
        7 => Opcode::Storer,
        8 => Opcode::Rti,
        9 => Opcode::Not,
        10 => Opcode::Loadi,
        11 => Opcode::Storei,
        12 => Opcode::Jump,
        13 => Opcode::Res,
        14 => Opcode::Lea,
        _ => Opcode::Trap,
    }
}

/// Decodes a 4-bit opcode value into its tag.
pub fn opcode_from_bits(op: u16) -> (o: Opcode)
    requires
        op < 16,
    ensures
        o == opcode_spec(op),
{
    match op {
        0 => Opcode::Branch,
        1 => Opcode::Add,
        2 => Opcode::Load,
        3 => Opcode::Store,
        4 => Opcode::Jumpr,
        5 => Opcode::And,
        6 => Opcode::Loadr,
        7 => Opcode::Storer,
        8 => Opcode::Rti,
        9 => Opcode::Not,
        10 => Opcode::Loadi,
        11 => Opcode::Storei,
        12 => Opcode::Jump,
        13 => Opcode::Res,
        14 => Opcode::Lea,
        _ => Opcode::Trap,
    }
}

/// The trap selected by an 8-bit vector; `None` for any vector outside the
/// six recognized ones (an undefined trap).
pub open spec fn trap_spec(v: u16) -> Option<Trap> {
    match v {
        0x20 => Some(Trap::Getc),
        0x21 => Some(Trap::Out),
        0x22 => Some(Trap::Puts),
        0x23 => Some(Trap::In),
        0x24 => Some(Trap::Putsp),
        0x25 => Some(Trap::Halt),
        _ => None,
    }
}

/// Decodes a trap vector, failing explicitly on an undefined one.
pub fn trap_from_bits(v: u16) -> (t: Option<Trap>)
    ensures
        t == trap_spec(v),
{
    match v {
        0x20 => Some(Trap::Getc),
        0x21 => Some(Trap::Out),
        0x22 => Some(Trap::Puts),
        0x23 => Some(Trap::In),
        0x24 => Some(Trap::Putsp),
        0x25 => Some(Trap::Halt),
        _ => None,
    }
}

/// `x` fits in `n` bits: its bits from `n` upward are zero.
pub open spec fn fits_bits(x: u16, n: u16) -> bool
    recommends
        n <= 16,
{
    (x as u32) < (1u32 << (n as u32))
}

/// The opcode field: bits 15-12.
pub open spec fn op_field(i: u16) -> u16 {
    i >> 12
}

/// The register field at bits 11-9: destination register, or the condition
/// mask of BRANCH, or the source register of the store instructions.
pub open spec fn dr_field(i: u16) -> u16 {
    (i >> 9) & 0x7
}

/// The register field at bits 8-6: first ALU source, or a base register.
pub open spec fn sr1_field(i: u16) -> u16 {
    (i >> 6) & 0x7
}

/// The register field at bits 2-0: second ALU source.
pub open spec fn sr2_field(i: u16) -> u16 {
    i & 0x7
}

/// The immediate-mode selector of ADD and AND: bit 5.
pub open spec fn imm_mode(i: u16) -> bool {
    (i >> 5) & 1 == 1
}

/// The mode selector of the subroutine call: bit 11, set for the
/// PC-relative long-offset form.
pub open spec fn long_mode(i: u16) -> bool {
    (i >> 11) & 1 == 1
}

/// The 5-bit immediate field.
pub open spec fn imm5_field(i: u16) -> u16 {
    i & 0x1F
}

/// The 6-bit offset field.
pub open spec fn off6_field(i: u16) -> u16 {
    i & 0x3F
}

/// The 9-bit PC-offset field.
pub open spec fn off9_field(i: u16) -> u16 {
    i & 0x1FF
}

/// The 11-bit PC-offset field of the long-form subroutine call.
pub open spec fn off11_field(i: u16) -> u16 {
    i & 0x7FF
}

/// The trap-vector field: the low 8 bits.
pub open spec fn vector_field(i: u16) -> u16 {
    i & 0xFF
}

/// Extracts the opcode field.
pub fn op_bits(i: u16) -> (r: u16)
    ensures
        r == op_field(i),
        r < 16,
{
    proof {
        assert(i >> 12u16 < 16) by (bit_vector);
    }
    i >> 12
}

/// Extracts the register field at bits 11-9.
pub fn dr_bits(i: u16) -> (r: u16)
    ensures
        r == dr_field(i),
        r < 8,
{
    proof {
        assert((i >> 9u16) & 0x7 < 8) by (bit_vector);
    }
    (i >> 9) & 0x7
}

/// Extracts the register field at bits 8-6.
pub fn sr1_bits(i: u16) -> (r: u16)
    ensures
        r == sr1_field(i),
        r < 8,
{
    proof {
        assert((i >> 6u16) & 0x7 < 8) by (bit_vector);
    }
    (i >> 6) & 0x7
}

/// Extracts the register field at bits 2-0.
pub fn sr2_bits(i: u16) -> (r: u16)
    ensures
        r == sr2_field(i),
        r < 8,
{
    proof {
        assert(i & 0x7 < 8) by (bit_vector);
    }
    i & 0x7
}

/// Reads the immediate-mode selector of ADD and AND.
pub fn imm_mode_bit(i: u16) -> (r: bool)
    ensures
        r == imm_mode(i),
{
    (i >> 5) & 1 == 1
}

/// Reads the mode selector of the subroutine call.
pub fn long_mode_bit(i: u16) -> (r: bool)
    ensures
        r == long_mode(i),
{
    (i >> 11) & 1 == 1
}

/// Extracts the 5-bit immediate field.
pub fn imm5_bits(i: u16) -> (r: u16)
    ensures
        r == imm5_field(i),
        fits_bits(r, 5),
{
    proof {
        assert(((i & 0x1F) as u32) < (1u32 << 5u32)) by (bit_vector);
    }
    i & 0x1F
}

/// Extracts the 6-bit offset field.
pub fn off6_bits(i: u16) -> (r: u16)
    ensures
        r == off6_field(i),
        fits_bits(r, 6),
{
    proof {
        assert(((i & 0x3F) as u32) < (1u32 << 6u32)) by (bit_vector);
    }
    i & 0x3F
}

/// Extracts the 9-bit PC-offset field.
pub fn off9_bits(i: u16) -> (r: u16)
    ensures
        r == off9_field(i),
        fits_bits(r, 9),
{
    proof {
        assert(((i & 0x1FF) as u32) < (1u32 << 9u32)) by (bit_vector);
    }
    i & 0x1FF
}

/// Extracts the 11-bit PC-offset field.
pub fn off11_bits(i: u16) -> (r: u16)
    ensures
        r == off11_field(i),
        fits_bits(r, 11),
{
    proof {
        assert(((i & 0x7FF) as u32) < (1u32 << 11u32)) by (bit_vector);
    }
    i & 0x7FF
}

/// Extracts the trap-vector field.
pub fn vector_bits(i: u16) -> (r: u16)
    ensures
        r == vector_field(i),
        r < 256,
{
    proof {
        assert(i & 0xFF < 256) by (bit_vector);
    }
    i & 0xFF
}

} // verus!
