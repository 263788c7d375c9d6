//! The instruction executor and the execution loop: one verified handler
//! per opcode, a trap dispatcher, and a bounded run, each proved to
//! implement the corresponding case of `step_spec`.

use vstd::prelude::*;
use crate::bits::{winc, wrapping_add16, sign_extend};
use crate::flags::update_flag;
use crate::isa::{
    Opcode, Trap, Fault, RunOutcome, opcode_from_bits, trap_from_bits, op_bits, dr_bits, sr1_bits,
    sr2_bits, imm_mode_bit, long_mode_bit, imm5_bits, off6_bits, off9_bits, off11_bits,
    vector_bits,
};
use crate::machine::{Machine, MachineView, RunState, PC_REG, COND_REG, R7_REG, MEM_WORDS};
use crate::console::{Console, ConsoleView};
use crate::semantics::{
    add_step, and_step, not_step, branch_step, jump_step, jumpr_step, load_step, loadi_step,
    loadr_step, lea_step, store_step, storei_step, storer_step, getc_step, out_step, puts_bytes,
    putsp_bytes, packed_bytes, prompt_bytes, halt_bytes, trap_step, step_spec, run_spec,
};

verus! {

fn do_add(m: &mut Machine, i: u16)
    requires
        old(m).wf(),
    ensures
        final(m).wf(),
        final(m)@ == add_step(old(m)@, i),
{
    let dr = dr_bits(i);
    let a = m.regs[sr1_bits(i) as usize];
    let b = if imm_mode_bit(i) {
        sign_extend(imm5_bits(i), 5)
    } else {
        m.regs[sr2_bits(i) as usize]
    };
    let v = wrapping_add16(a, b);
    m.regs[dr as usize] = v;
    update_flag(&mut m.regs, dr);
    proof {
        assert(m@ =~= add_step(old(m)@, i));
    }
}

fn do_and(m: &mut Machine, i: u16)
    requires
        old(m).wf(),
    ensures
        final(m).wf(),
        final(m)@ == and_step(old(m)@, i),
{
    let dr = dr_bits(i);
    let a = m.regs[sr1_bits(i) as usize];
    let b = if imm_mode_bit(i) {
        sign_extend(imm5_bits(i), 5)
    } else {
        m.regs[sr2_bits(i) as usize]
    };
    let v = a & b;
    m.regs[dr as usize] = v;
    update_flag(&mut m.regs, dr);
    proof {
        assert(m@ =~= and_step(old(m)@, i));
    }
}

fn do_not(m: &mut Machine, i: u16)
    requires
        old(m).wf(),
    ensures
        final(m).wf(),
        final(m)@ == not_step(old(m)@, i),
{
    let dr = dr_bits(i);
    let v = !m.regs[sr1_bits(i) as usize];
    m.regs[dr as usize] = v;
    update_flag(&mut m.regs, dr);
    proof {
        assert(m@ =~= not_step(old(m)@, i));
    }
}

fn do_branch(m: &mut Machine, i: u16)
    requires
        old(m).wf(),
    ensures
        final(m).wf(),
        final(m)@ == branch_step(old(m)@, i),
{
    let cond = dr_bits(i);
    if cond & m.regs[COND_REG] != 0 {
        let off = sign_extend(off9_bits(i), 9);
        let target = wrapping_add16(m.regs[PC_REG], off);
        m.regs[PC_REG] = target;
        proof {
            assert(m@ =~= branch_step(old(m)@, i));
        }
    } else {
        proof {
            assert(m@ =~= branch_step(old(m)@, i));
        }
    }
}

fn do_jump(m: &mut Machine, i: u16)
    requires
        old(m).wf(),
    ensures
        final(m).wf(),
        final(m)@ == jump_step(old(m)@, i),
{
    let target = m.regs[sr1_bits(i) as usize];
    m.regs[PC_REG] = target;
    proof {
        assert(m@ =~= jump_step(old(m)@, i));
    }
}

fn do_jumpr(m: &mut Machine, i: u16)
    requires
        old(m).wf(),
    ensures
        final(m).wf(),
        final(m)@ == jumpr_step(old(m)@, i),
{
    let link = m.regs[PC_REG];
    m.regs[R7_REG] = link;
    if long_mode_bit(i) {
        let off = sign_extend(off11_bits(i), 11);
        let target = wrapping_add16(link, off);
        m.regs[PC_REG] = target;
    } else {
        let target = m.regs[sr1_bits(i) as usize];
        m.regs[PC_REG] = target;
    }
    proof {
        assert(m@ =~= jumpr_step(old(m)@, i));
    }
}

fn do_load(m: &mut Machine, i: u16)
    requires
        old(m).wf(),
    ensures
        final(m).wf(),
        final(m)@ == load_step(old(m)@, i),
{
    let dr = dr_bits(i);
    let off = sign_extend(off9_bits(i), 9);
    let a = wrapping_add16(m.regs[PC_REG], off);
    let v = m.mem[a as usize];
    m.regs[dr as usize] = v;
    update_flag(&mut m.regs, dr);
    proof {
        assert(m@ =~= load_step(old(m)@, i));
    }
}

fn do_loadi(m: &mut Machine, i: u16)
    requires
        old(m).wf(),
    ensures
        final(m).wf(),
        final(m)@ == loadi_step(old(m)@, i),
{
    let dr = dr_bits(i);
    let off = sign_extend(off9_bits(i), 9);
    let a = wrapping_add16(m.regs[PC_REG], off);
    let a2 = m.mem[a as usize];
    let v = m.mem[a2 as usize];
    m.regs[dr as usize] = v;
    update_flag(&mut m.regs, dr);
    proof {
        assert(m@ =~= loadi_step(old(m)@, i));
    }
}

fn do_loadr(m: &mut Machine, i: u16)
    requires
        old(m).wf(),
    ensures
        final(m).wf(),
        final(m)@ == loadr_step(old(m)@, i),
{
    let dr = dr_bits(i);
    let off = sign_extend(off6_bits(i), 6);
    let a = wrapping_add16(m.regs[sr1_bits(i) as usize], off);
    let v = m.mem[a as usize];
    m.regs[dr as usize] = v;
    update_flag(&mut m.regs, dr);
    proof {
        assert(m@ =~= loadr_step(old(m)@, i));
    }
}

fn do_lea(m: &mut Machine, i: u16)
    requires
        old(m).wf(),
    ensures
        final(m).wf(),
        final(m)@ == lea_step(old(m)@, i),
{
    let dr = dr_bits(i);
    let off = sign_extend(off9_bits(i), 9);
    let v = wrapping_add16(m.regs[PC_REG], off);
    m.regs[dr as usize] = v;
    update_flag(&mut m.regs, dr);
    proof {
        assert(m@ =~= lea_step(old(m)@, i));
    }
}

fn do_store(m: &mut Machine, i: u16)
    requires
        old(m).wf(),
    ensures
        final(m).wf(),
        final(m)@ == store_step(old(m)@, i),
{
    let off = sign_extend(off9_bits(i), 9);
    let a = wrapping_add16(m.regs[PC_REG], off);
    let v = m.regs[dr_bits(i) as usize];
    m.mem[a as usize] = v;
    proof {
        assert(m@ =~= store_step(old(m)@, i));
    }
}

fn do_storei(m: &mut Machine, i: u16)
    requires
        old(m).wf(),
    ensures
        final(m).wf(),
        final(m)@ == storei_step(old(m)@, i),
{
    let off = sign_extend(off9_bits(i), 9);
    let a = wrapping_add16(m.regs[PC_REG], off);
    let a2 = m.mem[a as usize];
    let v = m.regs[dr_bits(i) as usize];
    m.mem[a2 as usize] = v;
    proof {
        assert(m@ =~= storei_step(old(m)@, i));
    }
}

fn do_storer(m: &mut Machine, i: u16)
    requires
        old(m).wf(),
    ensures
        final(m).wf(),
        final(m)@ == storer_step(old(m)@, i),
{
    let off = sign_extend(off6_bits(i), 6);
    let a = wrapping_add16(m.regs[sr1_bits(i) as usize], off);
    let v = m.regs[dr_bits(i) as usize];
    m.mem[a as usize] = v;
    proof {
        assert(m@ =~= storer_step(old(m)@, i));
    }
}

fn do_getc(m: &mut Machine, io: &mut Console) -> (r: Result<(), Fault>)
    requires
        old(m).wf(),
        old(io).wf(),
    ensures
        final(m).wf(),
        final(io).wf(),
        final(m)@ == getc_step(old(m)@, old(io)@).m,
        final(io)@ == getc_step(old(m)@, old(io)@).c,
        r == getc_step(old(m)@, old(io)@).outcome,
{
    match io.read_byte() {
        None => Err(Fault::InputExhausted),
        Some(b) => {
            m.regs[0] = b as u16;
            proof {
                assert(m@ =~= getc_step(old(m)@, old(io)@).m);
                assert(io@ =~= getc_step(old(m)@, old(io)@).c);
            }
            Ok(())
        },
    }
}

#[verifier::loop_isolation(false)]
fn do_puts(mem: &Vec<u16>, start: u16, io: &mut Console)
    requires
        mem@.len() == MEM_WORDS,
        old(io).wf(),
    ensures
        final(io).wf(),
        final(io)@.input == old(io)@.input,
        final(io)@.output == old(io)@.output + puts_bytes(mem@, start, MEM_WORDS as nat),
{
    let mut addr: u16 = start;
    let mut n: usize = 0;
    let mut w: u16 = mem[addr as usize];
    while n < MEM_WORDS && w != 0
        invariant
            io.wf(),
            io@.input == old(io)@.input,
            n <= MEM_WORDS,
            w == mem@[addr as int],
            io@.output + puts_bytes(mem@, addr, (MEM_WORDS - n) as nat) == old(io)@.output
                + puts_bytes(mem@, start, MEM_WORDS as nat),
        decreases MEM_WORDS - n,
    {
        let ghost out0 = io@.output;
        let ghost addr0 = addr;
        let ghost f0 = (MEM_WORDS - n) as nat;
        io.write_byte(w as u8);
        addr = wrapping_add16(addr, 1);
        n = n + 1;
        w = mem[addr as usize];
        proof {
            assert(puts_bytes(mem@, addr0, f0) == seq![mem@[addr0 as int] as u8] + puts_bytes(
                mem@,
                winc(addr0),
                (f0 - 1) as nat,
            ));
            assert(io@.output + puts_bytes(mem@, addr, (MEM_WORDS - n) as nat) =~= out0
                + puts_bytes(mem@, addr0, f0));
        }
    }
    proof {
        assert(puts_bytes(mem@, addr, (MEM_WORDS - n) as nat) =~= Seq::<u8>::empty());
        assert(io@.output =~= io@.output + puts_bytes(mem@, addr, (MEM_WORDS - n) as nat));
    }
}

#[verifier::loop_isolation(false)]
fn do_putsp(mem: &Vec<u16>, start: u16, io: &mut Console)
    requires
        mem@.len() == MEM_WORDS,
        old(io).wf(),
    ensures
        final(io).wf(),
        final(io)@.input == old(io)@.input,
        final(io)@.output == old(io)@.output + putsp_bytes(mem@, start, MEM_WORDS as nat),
{
    let mut addr: u16 = start;
    let mut n: usize = 0;
    let mut w: u16 = mem[addr as usize];
    while n < MEM_WORDS && w != 0
        invariant
            io.wf(),
            io@.input == old(io)@.input,
            n <= MEM_WORDS,
            w == mem@[addr as int],
            io@.output + putsp_bytes(mem@, addr, (MEM_WORDS - n) as nat) == old(io)@.output
                + putsp_bytes(mem@, start, MEM_WORDS as nat),
        decreases MEM_WORDS - n,
    {
        let ghost out0 = io@.output;
        let ghost addr0 = addr;
        let ghost f0 = (MEM_WORDS - n) as nat;
        io.write_byte(w as u8);
        let hi = (w >> 8) as u8;
        if hi != 0 {
            io.write_byte(hi);
        }
        proof {
            assert(io@.output =~= out0 + packed_bytes(w));
        }
        addr = wrapping_add16(addr, 1);
        n = n + 1;
        w = mem[addr as usize];
        proof {
            assert(putsp_bytes(mem@, addr0, f0) == packed_bytes(mem@[addr0 as int]) + putsp_bytes(
                mem@,
                winc(addr0),
                (f0 - 1) as nat,
            ));
            assert(io@.output + putsp_bytes(mem@, addr, (MEM_WORDS - n) as nat) =~= out0
                + putsp_bytes(mem@, addr0, f0));
        }
    }
    proof {
        assert(putsp_bytes(mem@, addr, (MEM_WORDS - n) as nat) =~= Seq::<u8>::empty());
        assert(io@.output =~= io@.output + putsp_bytes(mem@, addr, (MEM_WORDS - n) as nat));
    }
}

fn do_in(m: &mut Machine, io: &mut Console) -> (r: Result<(), Fault>)
    requires
        old(m).wf(),
        old(io).wf(),
    ensures
        final(m).wf(),
        final(io).wf(),
        ({
            let s = getc_step(
                old(m)@,
                ConsoleView { output: old(io)@.output + prompt_bytes(), ..old(io)@ },
            );
            final(m)@ == s.m && final(io)@ == s.c && r == s.outcome
        }),
{
    // "Enter a character: "
    io.write_byte(69);
    io.write_byte(110);
    io.write_byte(116);
    io.write_byte(101);
    io.write_byte(114);
    io.write_byte(32);
    io.write_byte(97);
    io.write_byte(32);
    io.write_byte(99);
    io.write_byte(104);
    io.write_byte(97);
    io.write_byte(114);
    io.write_byte(97);
    io.write_byte(99);
    io.write_byte(116);
    io.write_byte(101);
    io.write_byte(114);
    io.write_byte(58);
    io.write_byte(32);
    proof {
        assert(io@.output =~= old(io)@.output + prompt_bytes());
        assert(io@ =~= ConsoleView { output: old(io)@.output + prompt_bytes(), ..old(io)@ });
    }
    do_getc(m, io)
}

fn do_halt(m: &mut Machine, io: &mut Console)
    requires
        old(m).wf(),
        old(io).wf(),
    ensures
        final(m).wf(),
        final(io).wf(),
        final(m)@ == (MachineView { state: RunState::Halted, ..old(m)@ }),
        final(io)@.input == old(io)@.input,
        final(io)@.output == old(io)@.output + halt_bytes(),
{
    // "HALT" and a newline
    io.write_byte(72);
    io.write_byte(65);
    io.write_byte(76);
    io.write_byte(84);
    io.write_byte(10);
    m.state = RunState::Halted;
    proof {
        assert(io@.output =~= old(io)@.output + halt_bytes());
        assert(m@ =~= (MachineView { state: RunState::Halted, ..old(m)@ }));
    }
}

fn do_trap(m: &mut Machine, io: &mut Console, i: u16) -> (r: Result<(), Fault>)
    requires
        old(m).wf(),
        old(io).wf(),
    ensures
        final(m).wf(),
        final(io).wf(),
        final(m)@ == trap_step(old(m)@, old(io)@, i).m,
        final(io)@ == trap_step(old(m)@, old(io)@, i).c,
        r == trap_step(old(m)@, old(io)@, i).outcome,
{
    let v = vector_bits(i);
    match trap_from_bits(v) {
        None => Err(Fault::UndefinedTrap { vector: v }),
        Some(Trap::Getc) => do_getc(m, io),
        Some(Trap::Out) => {
            let x = m.regs[0];
            io.write_byte(x as u8);
            proof {
                assert(io@ =~= out_step(old(m)@, old(io)@));
            }
            Ok(())
        },
        Some(Trap::Puts) => {
            let start = m.regs[0];
            do_puts(&m.mem, start, io);
            proof {
                assert(io@ =~= trap_step(old(m)@, old(io)@, i).c);
            }
            Ok(())
        },
        Some(Trap::In) => do_in(m, io),
        Some(Trap::Putsp) => {
            let start = m.regs[0];
            do_putsp(&m.mem, start, io);
            proof {
                assert(io@ =~= trap_step(old(m)@, old(io)@, i).c);
            }
            Ok(())
        },
        Some(Trap::Halt) => {
            do_halt(m, io);
            proof {
                assert(io@ =~= trap_step(old(m)@, old(io)@, i).c);
            }
            Ok(())
        },
    }
}

/// One cycle of the execution loop: fetch the word at PC, advance PC,
/// decode, dispatch. Implements `step_spec` exactly; on a halted machine it
/// does nothing.
pub fn step(m: &mut Machine, io: &mut Console) -> (r: Result<(), Fault>)
    requires
        old(m).wf(),
        old(io).wf(),
    ensures
        final(m).wf(),
        final(io).wf(),
        final(m)@ == step_spec(old(m)@, old(io)@).m,
        final(io)@ == step_spec(old(m)@, old(io)@).c,
        r == step_spec(old(m)@, old(io)@).outcome,
{
    match m.state {
        RunState::Halted => {
            return Ok(());
        },
        RunState::Running => {},
    }
    let pc0 = m.regs[PC_REG];
    let i = m.mem[pc0 as usize];
    let pc1 = wrapping_add16(pc0, 1);
    m.regs[PC_REG] = pc1;
    proof {
        assert(m@ =~= (MachineView {
            regs: old(m)@.regs.update(PC_REG as int, winc(old(m)@.regs[PC_REG as int])),
            ..old(m)@
        }));
    }
    let op = op_bits(i);
    match opcode_from_bits(op) {
        Opcode::Branch => {
            do_branch(m, i);
            Ok(())
        },
        Opcode::Add => {
            do_add(m, i);
            Ok(())
        },
        Opcode::Load => {
            do_load(m, i);
            Ok(())
        },
        Opcode::Store => {
            do_store(m, i);
            Ok(())
        },
        Opcode::Jumpr => {
            do_jumpr(m, i);
            Ok(())
        },
        Opcode::And => {
            do_and(m, i);
            Ok(())
        },
        Opcode::Loadr => {
            do_loadr(m, i);
            Ok(())
        },
        Opcode::Storer => {
            do_storer(m, i);
            Ok(())
        },
        Opcode::Rti => Err(Fault::IllegalOpcode { opcode: op }),
        Opcode::Not => {
            do_not(m, i);
            Ok(())
        },
        Opcode::Loadi => {
            do_loadi(m, i);
            Ok(())
        },
        Opcode::Storei => {
            do_storei(m, i);
            Ok(())
        },
        Opcode::Jump => {
            do_jump(m, i);
            Ok(())
        },
        Opcode::Res => Err(Fault::IllegalOpcode { opcode: op }),
        Opcode::Lea => {
            do_lea(m, i);
            Ok(())
        },
        Opcode::Trap => do_trap(m, io, i),
    }
}

/// Runs the fetch-decode-execute loop for at most `max_steps` cycles,
/// stopping early at HALT or at a fatal fault. Implements `run_spec`.
#[verifier::loop_isolation(false)]
pub fn run(m: &mut Machine, io: &mut Console, max_steps: u64) -> (r: RunOutcome)
    requires
        old(m).wf(),
        old(io).wf(),
    ensures
        final(m).wf(),
        final(io).wf(),
        final(m)@ == run_spec(old(m)@, old(io)@, max_steps as nat).m,
        final(io)@ == run_spec(old(m)@, old(io)@, max_steps as nat).c,
        r == run_spec(old(m)@, old(io)@, max_steps as nat).end,
{
    let mut fuel: u64 = max_steps;
    loop
        invariant
            m.wf(),
            io.wf(),
            fuel <= max_steps,
            run_spec(old(m)@, old(io)@, max_steps as nat) == run_spec(m@, io@, fuel as nat),
        decreases fuel,
    {
        if !m.is_running() {
            return RunOutcome::Halted;
        }
        if fuel == 0 {
            return RunOutcome::OutOfSteps;
        }
        let ghost pre_m = m@;
        let ghost pre_c = io@;
        let ghost pre_fuel = fuel as nat;
        let res = step(m, io);
        fuel = fuel - 1;
        match res {
            Err(f) => {
                proof {
                    assert(run_spec(pre_m, pre_c, pre_fuel).end == RunOutcome::Faulted(f));
                }
                return RunOutcome::Faulted(f);
            },
            Ok(()) => {
                proof {
                    assert(run_spec(pre_m, pre_c, pre_fuel) == run_spec(m@, io@, fuel as nat));
                }
            },
        }
    }
}

} // verus!
