//! General laws of the instruction semantics, each proved over `step_spec`
//! (which the executable step implements exactly): wrapping arithmetic,
//! PC-relative addressing against the post-increment program counter, the
//! subroutine-call link discipline, the terminal halt state, and the
//! fatality of the unimplemented opcodes.

use vstd::prelude::*;
use crate::bits::{wadd, winc, sext};
use crate::isa::{
    Opcode, Fault, opcode_spec, op_field, dr_field, sr1_field, sr2_field, imm_mode, long_mode,
    imm5_field, off9_field, off11_field,
};
use crate::isa::vector_field;
use crate::machine::{MachineView, RunState, PC_REG, COND_REG, R7_REG, MEM_WORDS};
use crate::console::ConsoleView;
use crate::semantics::{StepView, step_spec, puts_bytes, halt_bytes};

verus! {

/// Stepping preserves well-formedness: the register file keeps its ten
/// slots and the memory its 65536 words, so every computed address stays
/// in range forever.
pub proof fn lemma_step_preserves_wf(m: MachineView, c: ConsoleView)
    requires
        m.wf(),
    ensures
        step_spec(m, c).m.wf(),
{
    if m.state == RunState::Running {
        let i = m.cur_instr();
        assert(dr_field(i) < 8 && sr1_field(i) < 8 && sr2_field(i) < 8) by (bit_vector);
    }
}

/// ADD arithmetic wraps modulo 65536: whichever operand form the
/// instruction selects, the destination register receives the operands' sum
/// reduced modulo 65536, and the step succeeds.
pub proof fn lemma_add_wraps(m: MachineView, c: ConsoleView)
    requires
        m.wf(),
        m.state == RunState::Running,
        opcode_spec(op_field(m.cur_instr())) == Opcode::Add,
    ensures
        ({
            let i = m.cur_instr();
            let a = m.regs[sr1_field(i) as int];
            let b = if imm_mode(i) {
                sext(imm5_field(i), 5)
            } else {
                m.regs[sr2_field(i) as int]
            };
            step_spec(m, c).m.regs[dr_field(i) as int] == (a + b) % 0x10000
                && step_spec(m, c).outcome == Ok::<(), Fault>(())
        }),
{
    let i = m.cur_instr();
    assert(dr_field(i) < 8 && sr1_field(i) < 8 && sr2_field(i) < 8) by (bit_vector);
}

/// AND is the bitwise conjunction of the selected operands; no overflow is
/// possible and the step succeeds.
pub proof fn lemma_and_bitwise(m: MachineView, c: ConsoleView)
    requires
        m.wf(),
        m.state == RunState::Running,
        opcode_spec(op_field(m.cur_instr())) == Opcode::And,
    ensures
        ({
            let i = m.cur_instr();
            let a = m.regs[sr1_field(i) as int];
            let b = if imm_mode(i) {
                sext(imm5_field(i), 5)
            } else {
                m.regs[sr2_field(i) as int]
            };
            step_spec(m, c).m.regs[dr_field(i) as int] == (a & b)
                && step_spec(m, c).outcome == Ok::<(), Fault>(())
        }),
{
    let i = m.cur_instr();
    assert(dr_field(i) < 8 && sr1_field(i) < 8 && sr2_field(i) < 8) by (bit_vector);
}

/// LOAD reads relative to the incremented program counter: the word loaded
/// comes from `PC + 1 + offset` (wrapping), not from `PC + offset`.
pub proof fn lemma_load_pc_relative(m: MachineView, c: ConsoleView)
    requires
        m.wf(),
        m.state == RunState::Running,
        opcode_spec(op_field(m.cur_instr())) == Opcode::Load,
    ensures
        ({
            let i = m.cur_instr();
            step_spec(m, c).m.regs[dr_field(i) as int] == m.mem[wadd(
                winc(m.regs[PC_REG as int]),
                sext(off9_field(i), 9),
            ) as int] && step_spec(m, c).outcome == Ok::<(), Fault>(())
        }),
{
    let i = m.cur_instr();
    assert(dr_field(i) < 8) by (bit_vector);
}

/// STORE writes relative to the incremented program counter.
pub proof fn lemma_store_pc_relative(m: MachineView, c: ConsoleView)
    requires
        m.wf(),
        m.state == RunState::Running,
        opcode_spec(op_field(m.cur_instr())) == Opcode::Store,
    ensures
        ({
            let i = m.cur_instr();
            step_spec(m, c).m.mem[wadd(winc(m.regs[PC_REG as int]), sext(off9_field(i), 9)) as int]
                == m.regs[dr_field(i) as int] && step_spec(m, c).outcome == Ok::<(), Fault>(())
        }),
{
    let i = m.cur_instr();
    assert(dr_field(i) < 8) by (bit_vector);
}

/// LEA yields the PC-relative address itself, computed against the
/// incremented program counter.
pub proof fn lemma_lea_pc_relative(m: MachineView, c: ConsoleView)
    requires
        m.wf(),
        m.state == RunState::Running,
        opcode_spec(op_field(m.cur_instr())) == Opcode::Lea,
    ensures
        ({
            let i = m.cur_instr();
            step_spec(m, c).m.regs[dr_field(i) as int] == wadd(
                winc(m.regs[PC_REG as int]),
                sext(off9_field(i), 9),
            ) && step_spec(m, c).outcome == Ok::<(), Fault>(())
        }),
{
    let i = m.cur_instr();
    assert(dr_field(i) < 8) by (bit_vector);
}

/// A taken BRANCH moves the program counter by its offset from the
/// incremented program counter; an untaken one leaves it there.
pub proof fn lemma_branch_pc_relative(m: MachineView, c: ConsoleView)
    requires
        m.wf(),
        m.state == RunState::Running,
        opcode_spec(op_field(m.cur_instr())) == Opcode::Branch,
    ensures
        ({
            let i = m.cur_instr();
            let pc1 = winc(m.regs[PC_REG as int]);
            let taken = dr_field(i) & m.regs[COND_REG as int] != 0;
            step_spec(m, c).m.regs[PC_REG as int] == (if taken {
                wadd(pc1, sext(off9_field(i), 9))
            } else {
                pc1
            }) && step_spec(m, c).outcome == Ok::<(), Fault>(())
        }),
{
}

/// The subroutine call stores the post-increment program counter into R7
/// before transferring control, in both of its modes.
pub proof fn lemma_jsr_links_return(m: MachineView, c: ConsoleView)
    requires
        m.wf(),
        m.state == RunState::Running,
        opcode_spec(op_field(m.cur_instr())) == Opcode::Jumpr,
    ensures
        ({
            let i = m.cur_instr();
            let pc1 = winc(m.regs[PC_REG as int]);
            step_spec(m, c).m.regs[R7_REG as int] == pc1 && (long_mode(i) ==> step_spec(
                m,
                c,
            ).m.regs[PC_REG as int] == wadd(pc1, sext(off11_field(i), 11))) && step_spec(
                m,
                c,
            ).outcome == Ok::<(), Fault>(())
        }),
{
}

/// JUMP loads the program counter from its base register.
pub proof fn lemma_jump_through_register(m: MachineView, c: ConsoleView)
    requires
        m.wf(),
        m.state == RunState::Running,
        opcode_spec(op_field(m.cur_instr())) == Opcode::Jump,
    ensures
        ({
            let i = m.cur_instr();
            step_spec(m, c).m.regs[PC_REG as int] == m.regs[sr1_field(i) as int] && step_spec(
                m,
                c,
            ).outcome == Ok::<(), Fault>(())
        }),
{
    let i = m.cur_instr();
    assert(sr1_field(i) < 8) by (bit_vector);
}

/// A call followed, any number of instructions later, by a JUMP through a
/// still-intact R7 returns exactly to the instruction after the call.
pub proof fn lemma_call_then_return(m: MachineView, c: ConsoleView, m2: MachineView, c2: ConsoleView)
    requires
        m.wf(),
        m.state == RunState::Running,
        opcode_spec(op_field(m.cur_instr())) == Opcode::Jumpr,
        m2.wf(),
        m2.state == RunState::Running,
        m2.regs[R7_REG as int] == step_spec(m, c).m.regs[R7_REG as int],
        opcode_spec(op_field(m2.cur_instr())) == Opcode::Jump,
        sr1_field(m2.cur_instr()) == 7,
    ensures
        step_spec(m2, c2).m.regs[PC_REG as int] == winc(m.regs[PC_REG as int]),
{
    lemma_jsr_links_return(m, c);
    lemma_jump_through_register(m2, c2);
}

/// A halted machine is terminal: stepping it changes nothing, executes no
/// instruction, and reports success.
pub proof fn lemma_halted_terminal(m: MachineView, c: ConsoleView)
    requires
        m.state == RunState::Halted,
    ensures
        step_spec(m, c) == (StepView { m, c, outcome: Ok(()) }),
{
}

/// The HALT trap emits its notice and moves the loop to the terminal
/// halted state; registers and memory are left as they stood.
pub proof fn lemma_halt_trap(m: MachineView, c: ConsoleView)
    requires
        m.wf(),
        m.state == RunState::Running,
        opcode_spec(op_field(m.cur_instr())) == Opcode::Trap,
        vector_field(m.cur_instr()) == 0x25,
    ensures
        step_spec(m, c).m.state == RunState::Halted,
        step_spec(m, c).m.regs == m.regs.update(PC_REG as int, winc(m.regs[PC_REG as int])),
        step_spec(m, c).m.mem == m.mem,
        step_spec(m, c).c.output == c.output + halt_bytes(),
        step_spec(m, c).c.input == c.input,
        step_spec(m, c).outcome == Ok::<(), Fault>(()),
{
}

/// The PUTS trap appends exactly the characters of the zero-terminated
/// region R0 points at — each word's low 8 bits, up to but not including
/// the first zero word — and changes no machine state but the program
/// counter.
pub proof fn lemma_puts_trap(m: MachineView, c: ConsoleView)
    requires
        m.wf(),
        m.state == RunState::Running,
        opcode_spec(op_field(m.cur_instr())) == Opcode::Trap,
        vector_field(m.cur_instr()) == 0x22,
    ensures
        step_spec(m, c).c.output == c.output + puts_bytes(m.mem, m.regs[0], MEM_WORDS as nat),
        step_spec(m, c).c.input == c.input,
        step_spec(m, c).m.regs == m.regs.update(PC_REG as int, winc(m.regs[PC_REG as int])),
        step_spec(m, c).m.mem == m.mem,
        step_spec(m, c).m.state == RunState::Running,
        step_spec(m, c).outcome == Ok::<(), Fault>(()),
{
}

/// What PUTS writes, characterized against the first zero word: when the
/// `k`-th word from the start address (in wrapping order) is the first zero
/// word, the bytes written are exactly the low bytes of the `k` words
/// before it — the terminator itself and everything past it contribute
/// nothing.
pub proof fn lemma_puts_stops_at_terminator(mem: Seq<u16>, addr: u16, fuel: nat, k: u16)
    requires
        mem.len() == MEM_WORDS,
        k as nat <= fuel,
        mem[wadd(addr, k) as int] == 0,
        forall|j: u16| j < k ==> mem[#[trigger] wadd(addr, j) as int] != 0,
    ensures
        puts_bytes(mem, addr, fuel) == Seq::new(
            k as nat,
            |j: int| mem[wadd(addr, j as u16) as int] as u8,
        ),
    decreases k,
{
    assert(wadd(addr, 0) == addr) by (bit_vector);
    let f = |j: int| mem[wadd(addr, j as u16) as int] as u8;
    if k == 0 {
        assert(puts_bytes(mem, addr, fuel) =~= Seq::new(0, f));
    } else {
        assert(mem[wadd(addr, 0) as int] != 0);
        assert(puts_bytes(mem, addr, fuel) == seq![mem[addr as int] as u8] + puts_bytes(
            mem,
            winc(addr),
            (fuel - 1) as nat,
        ));
        assert(wadd(winc(addr), (k - 1) as u16) == wadd(addr, k)) by (bit_vector)
            requires
                k >= 1,
        ;
        assert forall|j: u16| j < (k - 1) as u16 implies mem[#[trigger] wadd(
            winc(addr),
            j,
        ) as int] != 0 by {
            assert(wadd(winc(addr), j) == wadd(addr, (j + 1) as u16)) by (bit_vector)
                requires
                    j < 0xFFFFu16,
            ;
            assert(mem[wadd(addr, (j + 1) as u16) as int] != 0);
        }
        lemma_puts_stops_at_terminator(mem, winc(addr), (fuel - 1) as nat, (k - 1) as u16);
        let g = |j: int| mem[wadd(winc(addr), j as u16) as int] as u8;
        assert forall|j: int| 0 <= j < k as int implies Seq::new(k as nat, f)[j] == (seq![
            mem[addr as int] as u8,
        ] + Seq::new((k - 1) as nat, g))[j] by {
            if j > 0 {
                let ju = j as u16;
                assert(wadd(winc(addr), (ju - 1) as u16) == wadd(addr, ju)) by (bit_vector)
                    requires
                        ju >= 1,
                ;
            }
        }
        assert(Seq::new(k as nat, f) =~= seq![mem[addr as int] as u8] + Seq::new(
            (k - 1) as nat,
            g,
        ));
    }
}

/// RTI and RES decode to a fatal illegal-opcode failure carrying the
/// offending opcode, never to a silent no-op.
pub proof fn lemma_illegal_opcode_faults(m: MachineView, c: ConsoleView)
    requires
        m.wf(),
        m.state == RunState::Running,
        opcode_spec(op_field(m.cur_instr())) == Opcode::Rti || opcode_spec(
            op_field(m.cur_instr()),
        ) == Opcode::Res,
    ensures
        step_spec(m, c).outcome == Err::<(), Fault>(
            Fault::IllegalOpcode { opcode: op_field(m.cur_instr()) },
        ),
        step_spec(m, c).c == c,
{
}

} // verus!
