//! The machine state: a ten-slot register file (eight general-purpose
//! registers, the program counter in slot 8, the condition flags in slot 9)
//! and a flat memory of exactly 65536 sixteen-bit words.

use vstd::prelude::*;

verus! {

/// Number of register-file slots: R0-R7, PC, COND.
pub const NUM_REGS: usize = 10;

/// Number of 16-bit words of memory; every 16-bit address is in range.
pub const MEM_WORDS: usize = 65536;

/// Register-file slot of the program counter.
pub const PC_REG: usize = 8;

/// Register-file slot of the condition flags.
pub const COND_REG: usize = 9;

/// Register-file slot of R7, the link register of the subroutine call.
pub const R7_REG: usize = 7;

/// The two states of the execution loop; HALTED is terminal.
#[derive(Clone, Copy, PartialEq, Eq, Structural, Debug)]
pub enum RunState {
    Running,
    Halted,
}

/// The mathematical view of a machine: register and memory contents as
/// sequences, plus the loop state.
#[verifier::ext_equal]
pub ghost struct MachineView {
    pub regs: Seq<u16>,
    pub mem: Seq<u16>,
    pub state: RunState,
}

impl MachineView {
    /// Well-formed machine contents: ten register slots and one word per
    /// 16-bit address.
    pub open spec fn wf(self) -> bool {
        self.regs.len() == NUM_REGS && self.mem.len() == MEM_WORDS
    }

    /// The instruction word the program counter points at.
    pub open spec fn cur_instr(self) -> u16
        recommends
            self.wf(),
    {
        self.mem[self.regs[PC_REG as int] as int]
    }
}

/// The machine: registers, memory, and the loop state. The register file and
/// memory are exclusively owned by the caller for the duration of a run.
pub struct Machine {
    pub regs: Vec<u16>,
    pub mem: Vec<u16>,
    pub state: RunState,
}

impl View for Machine {
    type V = MachineView;

    open spec fn view(&self) -> MachineView {
        MachineView { regs: self.regs@, mem: self.mem@, state: self.state }
    }
}

impl Machine {
    /// Well-formed machine: see `MachineView::wf`.
    pub open spec fn wf(self) -> bool {
        self@.wf()
    }

    /// A machine at start: registers zeroed, memory zeroed, loop running.
    pub fn new() -> (m: Machine)
        ensures
            m.wf(),
            m@.state == RunState::Running,
            forall|r: int| 0 <= r < NUM_REGS ==> m@.regs[r] == 0,
            forall|a: int| 0 <= a < MEM_WORDS ==> m@.mem[a] == 0,
    {
        let mut regs: Vec<u16> = Vec::new();
        let mut i: usize = 0;
        while i < NUM_REGS
            invariant
                i <= NUM_REGS,
                regs@.len() == i,
                forall|r: int| 0 <= r < i ==> regs@[r] == 0,
            decreases NUM_REGS - i,
        {
            regs.push(0);
            i = i + 1;
        }
        let mut mem: Vec<u16> = Vec::new();
        let mut a: usize = 0;
        while a < MEM_WORDS
            invariant
                a <= MEM_WORDS,
                mem@.len() == a,
                forall|j: int| 0 <= j < a ==> mem@[j] == 0,
            decreases MEM_WORDS - a,
        {
            mem.push(0);
            a = a + 1;
        }
        Machine { regs, mem, state: RunState::Running }
    }

    /// Reads register slot `r`.
    pub fn read_reg(&self, r: u16) -> (v: u16)
        requires
            self.wf(),
            r < 10,
        ensures
            v == self@.regs[r as int],
    {
        self.regs[r as usize]
    }

    /// Writes register slot `r`.
    pub fn write_reg(&mut self, r: u16, v: u16)
        requires
            old(self).wf(),
            r < 10,
        ensures
            final(self).wf(),
            final(self)@.regs == old(self)@.regs.update(r as int, v),
            final(self)@.mem == old(self)@.mem,
            final(self)@.state == old(self)@.state,
    {
        self.regs[r as usize] = v;
    }

    /// Reads the memory word at address `a`; every 16-bit address is valid.
    pub fn read_mem(&self, a: u16) -> (v: u16)
        requires
            self.wf(),
        ensures
            v == self@.mem[a as int],
    {
        self.mem[a as usize]
    }

    /// Writes the memory word at address `a`.
    pub fn write_mem(&mut self, a: u16, v: u16)
        requires
            old(self).wf(),
        ensures
            final(self).wf(),
            final(self)@.mem == old(self)@.mem.update(a as int, v),
            final(self)@.regs == old(self)@.regs,
            final(self)@.state == old(self)@.state,
    {
        self.mem[a as usize] = v;
    }

    /// Whether the loop is still in its running state.
    pub fn is_running(&self) -> (r: bool)
        ensures
            r == (self@.state == RunState::Running),
    {
        match self.state {
            RunState::Running => true,
            RunState::Halted => false,
        }
    }

    /// Installs a program image: places `image` into memory starting at
    /// `origin` and sets the program counter to `origin`, as the external
    /// loader does before a run begins.
    pub fn load_image(&mut self, origin: u16, image: &Vec<u16>)
        requires
            old(self).wf(),
            origin as int + image@.len() <= MEM_WORDS,
        ensures
            final(self).wf(),
            final(self)@.state == old(self)@.state,
            final(self)@.regs == old(self)@.regs.update(PC_REG as int, origin),
            forall|k: int|
                0 <= k < image@.len() ==> final(self)@.mem[origin as int + k] == image@[k],
            forall|a: int|
                0 <= a < MEM_WORDS && !(origin as int <= a < origin as int + image@.len())
                    ==> final(self)@.mem[a] == old(self)@.mem[a],
    {
        let mut k: usize = 0;
        while k < image.len()
            invariant
                old(self).wf(),
                self.wf(),
                origin as int + image@.len() <= MEM_WORDS,
                k <= image@.len(),
                self@.regs == old(self)@.regs,
                self@.state == old(self)@.state,
                forall|j: int| 0 <= j < k ==> self@.mem[origin as int + j] == image@[j],
                forall|a: int|
                    0 <= a < MEM_WORDS && !(origin as int <= a < origin as int + k)
                        ==> self@.mem[a] == old(self)@.mem[a],
            decreases image@.len() - k,
        {
            self.mem[origin as usize + k] = image[k];
            k = k + 1;
        }
        self.regs[PC_REG] = origin;
    }
}

} // verus!
