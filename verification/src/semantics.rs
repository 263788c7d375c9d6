//! The instruction-level semantics of the machine, as one total spec
//! function from a machine-and-console state to the next: `step_spec` is
//! what the executable step is proved to implement, bit for bit.

use vstd::prelude::*;
use crate::bits::{wadd, winc, sext};
use crate::flags::cond_bits;
use crate::isa::{
    Opcode, Trap, Fault, RunOutcome, opcode_spec, trap_spec, op_field, dr_field, sr1_field,
    sr2_field, imm_mode, long_mode, imm5_field, off6_field, off9_field, off11_field, vector_field,
};
use crate::machine::{MachineView, RunState, PC_REG, COND_REG, R7_REG, MEM_WORDS};
use crate::console::ConsoleView;

verus! {

/// The result of one step: the machine and console after it, and whether it
/// succeeded or aborted with a fatal fault.
#[verifier::ext_equal]
pub ghost struct StepView {
    pub m: MachineView,
    pub c: ConsoleView,
    pub outcome: Result<(), Fault>,
}

/// The result of a bounded run.
#[verifier::ext_equal]
pub ghost struct RunView {
    pub m: MachineView,
    pub c: ConsoleView,
    pub end: RunOutcome,
}

/// The register file after writing `v` to general-purpose register `r` and
/// refreshing the condition flags from `v`.
pub open spec fn write_gp(regs: Seq<u16>, r: u16, v: u16) -> Seq<u16>
    recommends
        regs.len() == 10,
        r < 8,
{
    regs.update(r as int, v).update(COND_REG as int, cond_bits(v))
}

/// The second ALU operand: a sign-extended 5-bit immediate in immediate
/// mode, otherwise the register selected by the low register field.
pub open spec fn alu_operand(regs: Seq<u16>, i: u16) -> u16 {
    if imm_mode(i) {
        sext(imm5_field(i), 5)
    } else {
        regs[sr2_field(i) as int]
    }
}

/// ADD: destination receives the wrapping 16-bit sum; flags updated.
pub open spec fn add_step(m: MachineView, i: u16) -> MachineView {
    MachineView {
        regs: write_gp(m.regs, dr_field(i), wadd(m.regs[sr1_field(i) as int], alu_operand(m.regs, i))),
        ..m
    }
}

/// AND: destination receives the bitwise conjunction; flags updated.
pub open spec fn and_step(m: MachineView, i: u16) -> MachineView {
    MachineView {
        regs: write_gp(m.regs, dr_field(i), m.regs[sr1_field(i) as int] & alu_operand(m.regs, i)),
        ..m
    }
}

/// NOT: destination receives the bitwise complement; flags updated.
pub open spec fn not_step(m: MachineView, i: u16) -> MachineView {
    MachineView { regs: write_gp(m.regs, dr_field(i), !m.regs[sr1_field(i) as int]), ..m }
}

/// BRANCH: if the instruction's condition mask meets the flags register,
/// the program counter moves by the sign-extended 9-bit offset.
pub open spec fn branch_step(m: MachineView, i: u16) -> MachineView {
    if dr_field(i) & m.regs[COND_REG as int] != 0 {
        MachineView {
            regs: m.regs.update(
                PC_REG as int,
                wadd(m.regs[PC_REG as int], sext(off9_field(i), 9)),
            ),
            ..m
        }
    } else {
        m
    }
}

/// JUMP: the program counter is loaded from the base register.
pub open spec fn jump_step(m: MachineView, i: u16) -> MachineView {
    MachineView { regs: m.regs.update(PC_REG as int, m.regs[sr1_field(i) as int]), ..m }
}

/// The subroutine call: R7 receives the post-increment program counter,
/// then control transfers PC-relative (mode bit set) or through the base
/// register (read after the link is stored).
pub open spec fn jumpr_step(m: MachineView, i: u16) -> MachineView {
    let link = m.regs[PC_REG as int];
    let regs1 = m.regs.update(R7_REG as int, link);
    let target = if long_mode(i) {
        wadd(link, sext(off11_field(i), 11))
    } else {
        regs1[sr1_field(i) as int]
    };
    MachineView { regs: regs1.update(PC_REG as int, target), ..m }
}

/// LOAD: destination receives the word at PC plus the sign-extended 9-bit
/// offset; flags updated.
pub open spec fn load_step(m: MachineView, i: u16) -> MachineView {
    MachineView {
        regs: write_gp(
            m.regs,
            dr_field(i),
            m.mem[wadd(m.regs[PC_REG as int], sext(off9_field(i), 9)) as int],
        ),
        ..m
    }
}

/// LOADI: the PC-relative word holds the address of the word loaded.
pub open spec fn loadi_step(m: MachineView, i: u16) -> MachineView {
    let a = m.mem[wadd(m.regs[PC_REG as int], sext(off9_field(i), 9)) as int];
    MachineView { regs: write_gp(m.regs, dr_field(i), m.mem[a as int]), ..m }
}

/// LOADR: destination receives the word at base register plus the
/// sign-extended 6-bit offset; flags updated.
pub open spec fn loadr_step(m: MachineView, i: u16) -> MachineView {
    MachineView {
        regs: write_gp(
            m.regs,
            dr_field(i),
            m.mem[wadd(m.regs[sr1_field(i) as int], sext(off6_field(i), 6)) as int],
        ),
        ..m
    }
}

/// LEA: destination receives the PC-relative address itself; flags updated.
pub open spec fn lea_step(m: MachineView, i: u16) -> MachineView {
    MachineView {
        regs: write_gp(m.regs, dr_field(i), wadd(m.regs[PC_REG as int], sext(off9_field(i), 9))),
        ..m
    }
}

/// STORE: the source register's value goes to the PC-relative address.
pub open spec fn store_step(m: MachineView, i: u16) -> MachineView {
    MachineView {
        mem: m.mem.update(
            wadd(m.regs[PC_REG as int], sext(off9_field(i), 9)) as int,
            m.regs[dr_field(i) as int],
        ),
        ..m
    }
}

/// STOREI: the PC-relative word holds the address written.
pub open spec fn storei_step(m: MachineView, i: u16) -> MachineView {
    let a = m.mem[wadd(m.regs[PC_REG as int], sext(off9_field(i), 9)) as int];
    MachineView { mem: m.mem.update(a as int, m.regs[dr_field(i) as int]), ..m }
}

/// STORER: the source register's value goes to base plus 6-bit offset.
pub open spec fn storer_step(m: MachineView, i: u16) -> MachineView {
    MachineView {
        mem: m.mem.update(
            wadd(m.regs[sr1_field(i) as int], sext(off6_field(i), 6)) as int,
            m.regs[dr_field(i) as int],
        ),
        ..m
    }
}

/// GETC: one blocking read into R0 (zero-extended), no flag update; a fatal
/// fault if the input stream is exhausted.
pub open spec fn getc_step(m: MachineView, c: ConsoleView) -> StepView {
    if c.input.len() == 0 {
        StepView { m, c, outcome: Err(Fault::InputExhausted) }
    } else {
        StepView {
            m: MachineView { regs: m.regs.update(0, c.input[0] as u16), ..m },
            c: ConsoleView { input: c.input.drop_first(), ..c },
            outcome: Ok(()),
        }
    }
}

/// The bytes OUT writes: the low 8 bits of R0, as one character.
pub open spec fn out_step(m: MachineView, c: ConsoleView) -> ConsoleView {
    ConsoleView { output: c.output.push(m.regs[0] as u8), ..c }
}

/// The characters a PUTS starting at `addr` writes: each word's low 8 bits,
/// address advancing by one word, stopping at the first zero word. The scan
/// visits each address at most once, so `fuel` starts at the memory size.
pub open spec fn puts_bytes(mem: Seq<u16>, addr: u16, fuel: nat) -> Seq<u8>
    recommends
        mem.len() == MEM_WORDS,
    decreases fuel,
{
    if fuel == 0 {
        Seq::empty()
    } else if mem[addr as int] == 0 {
        Seq::empty()
    } else {
        seq![mem[addr as int] as u8] + puts_bytes(mem, winc(addr), (fuel - 1) as nat)
    }
}

/// The characters one word contributes under PUTSP: the low byte, then the
/// high byte if it is nonzero.
pub open spec fn packed_bytes(w: u16) -> Seq<u8> {
    if (w >> 8) as u8 == 0 {
        seq![w as u8]
    } else {
        seq![w as u8, (w >> 8) as u8]
    }
}

/// The characters a PUTSP starting at `addr` writes: two packed characters
/// per word, low byte first, stopping at the first zero word.
pub open spec fn putsp_bytes(mem: Seq<u16>, addr: u16, fuel: nat) -> Seq<u8>
    recommends
        mem.len() == MEM_WORDS,
    decreases fuel,
{
    if fuel == 0 {
        Seq::empty()
    } else if mem[addr as int] == 0 {
        Seq::empty()
    } else {
        packed_bytes(mem[addr as int]) + putsp_bytes(mem, winc(addr), (fuel - 1) as nat)
    }
}

/// The prompt IN emits before its blocking read.
pub open spec fn prompt_bytes() -> Seq<u8> {
    // "Enter a character: " in ASCII
    seq![
        69u8, 110u8, 116u8, 101u8, 114u8, 32u8, 97u8, 32u8, 99u8, 104u8, 97u8, 114u8, 97u8, 99u8,
        116u8, 101u8, 114u8, 58u8, 32u8,
    ]
}

/// The notice HALT emits when the machine stops.
pub open spec fn halt_bytes() -> Seq<u8> {
    // "HALT" and a newline, in ASCII
    seq![72u8, 65u8, 76u8, 84u8, 10u8]
}

/// The trap dispatcher: decodes the instruction's low 8 bits and performs
/// the selected I/O operation; an unrecognized vector is a fatal fault.
pub open spec fn trap_step(m: MachineView, c: ConsoleView, i: u16) -> StepView {
    match trap_spec(vector_field(i)) {
        None => StepView { m, c, outcome: Err(Fault::UndefinedTrap { vector: vector_field(i) }) },
        Some(Trap::Getc) => getc_step(m, c),
        Some(Trap::Out) => StepView { m, c: out_step(m, c), outcome: Ok(()) },
        Some(Trap::Puts) => StepView {
            m,
            c: ConsoleView {
                output: c.output + puts_bytes(m.mem, m.regs[0], MEM_WORDS as nat),
                ..c
            },
            outcome: Ok(()),
        },
        Some(Trap::In) => getc_step(m, ConsoleView { output: c.output + prompt_bytes(), ..c }),
        Some(Trap::Putsp) => StepView {
            m,
            c: ConsoleView {
                output: c.output + putsp_bytes(m.mem, m.regs[0], MEM_WORDS as nat),
                ..c
            },
            outcome: Ok(()),
        },
        Some(Trap::Halt) => StepView {
            m: MachineView { state: RunState::Halted, ..m },
            c: ConsoleView { output: c.output + halt_bytes(), ..c },
            outcome: Ok(()),
        },
    }
}

/// One cycle of the execution loop: on a halted machine, nothing; otherwise
/// fetch the word at PC, advance PC by one (before any offset is computed),
/// decode the top 4 bits, and dispatch. RTI and RES are fatal decode errors.
pub open spec fn step_spec(m: MachineView, c: ConsoleView) -> StepView
    recommends
        m.wf(),
{
    if m.state == RunState::Halted {
        StepView { m, c, outcome: Ok(()) }
    } else {
        let i = m.cur_instr();
        let m1 = MachineView {
            regs: m.regs.update(PC_REG as int, winc(m.regs[PC_REG as int])),
            ..m
        };
        match opcode_spec(op_field(i)) {
            Opcode::Branch => StepView { m: branch_step(m1, i), c, outcome: Ok(()) },
            Opcode::Add => StepView { m: add_step(m1, i), c, outcome: Ok(()) },
            Opcode::Load => StepView { m: load_step(m1, i), c, outcome: Ok(()) },
            Opcode::Store => StepView { m: store_step(m1, i), c, outcome: Ok(()) },
            Opcode::Jumpr => StepView { m: jumpr_step(m1, i), c, outcome: Ok(()) },
            Opcode::And => StepView { m: and_step(m1, i), c, outcome: Ok(()) },
            Opcode::Loadr => StepView { m: loadr_step(m1, i), c, outcome: Ok(()) },
            Opcode::Storer => StepView { m: storer_step(m1, i), c, outcome: Ok(()) },
            Opcode::Rti => StepView {
                m: m1,
                c,
                outcome: Err(Fault::IllegalOpcode { opcode: op_field(i) }),
            },
            Opcode::Not => StepView { m: not_step(m1, i), c, outcome: Ok(()) },
            Opcode::Loadi => StepView { m: loadi_step(m1, i), c, outcome: Ok(()) },
            Opcode::Storei => StepView { m: storei_step(m1, i), c, outcome: Ok(()) },
            Opcode::Jump => StepView { m: jump_step(m1, i), c, outcome: Ok(()) },
            Opcode::Res => StepView {
                m: m1,
                c,
                outcome: Err(Fault::IllegalOpcode { opcode: op_field(i) }),
            },
            Opcode::Lea => StepView { m: lea_step(m1, i), c, outcome: Ok(()) },
            Opcode::Trap => trap_step(m1, c, i),
        }
    }
}

/// A bounded run: step until the machine halts, a fault aborts it, or `n`
/// steps have been taken with the machine still running.
pub open spec fn run_spec(m: MachineView, c: ConsoleView, n: nat) -> RunView
    recommends
        m.wf(),
    decreases n,
{
    if m.state == RunState::Halted {
        RunView { m, c, end: RunOutcome::Halted }
    } else if n == 0 {
        RunView { m, c, end: RunOutcome::OutOfSteps }
    } else {
        let s = step_spec(m, c);
        match s.outcome {
            Err(f) => RunView { m: s.m, c: s.c, end: RunOutcome::Faulted(f) },
            Ok(()) => run_spec(s.m, s.c, (n - 1) as nat),
        }
    }
}

} // verus!
