use isc16::console::Console;
use isc16::exec::{run, step};
use isc16::isa::{Fault, RunOutcome};
use isc16::machine::Machine;

fn machine_with(pc: u16, words: &[(u16, u16)]) -> Machine {
    let mut m = Machine::new();
    for &(a, w) in words {
        m.write_mem(a, w);
    }
    m.write_reg(8, pc);
    m
}

fn output_of(c: &Console) -> Vec<u8> {
    let mut v = Vec::new();
    let mut i = 0;
    while i < c.output_len() {
        v.push(c.output_byte(i));
        i += 1;
    }
    v
}

#[test]
fn add_immediate_wraps_to_zero() {
    // R0 = 0xFFFF; ADD R0, R0, #1 -> R0 = 0x0000, flags = ZERO
    let mut m = machine_with(0x3000, &[(0x3000, 0x1021)]);
    m.write_reg(0, 0xFFFF);
    let mut io = Console::new(Vec::new());
    assert_eq!(step(&mut m, &mut io), Ok(()));
    assert_eq!(m.read_reg(0), 0x0000);
    assert_eq!(m.read_reg(9), 2);
    assert_eq!(m.read_reg(8), 0x3001);
}

#[test]
fn add_register_mode() {
    // ADD R2, R0, R1
    let mut m = machine_with(0x3000, &[(0x3000, 0x1401)]);
    m.write_reg(0, 700);
    m.write_reg(1, 42);
    let mut io = Console::new(Vec::new());
    assert_eq!(step(&mut m, &mut io), Ok(()));
    assert_eq!(m.read_reg(2), 742);
    assert_eq!(m.read_reg(9), 1);
}

#[test]
fn and_immediate_clears_register() {
    // AND R0, R0, #0 -> ZERO
    let mut m = machine_with(0x3000, &[(0x3000, 0x5020)]);
    m.write_reg(0, 0xBEEF);
    let mut io = Console::new(Vec::new());
    assert_eq!(step(&mut m, &mut io), Ok(()));
    assert_eq!(m.read_reg(0), 0);
    assert_eq!(m.read_reg(9), 2);
}

#[test]
fn not_complements() {
    // NOT R1, R2
    let mut m = machine_with(0x3000, &[(0x3000, 0x92BF)]);
    m.write_reg(2, 0x00FF);
    let mut io = Console::new(Vec::new());
    assert_eq!(step(&mut m, &mut io), Ok(()));
    assert_eq!(m.read_reg(1), 0xFF00);
    assert_eq!(m.read_reg(9), 4);
}

#[test]
fn load_is_relative_to_incremented_pc() {
    // LOAD R0, #1 at 0x3000 reads 0x3002, not 0x3001
    let mut m = machine_with(
        0x3000,
        &[(0x3000, 0x2001), (0x3001, 0xDEAD), (0x3002, 0x1234)],
    );
    let mut io = Console::new(Vec::new());
    assert_eq!(step(&mut m, &mut io), Ok(()));
    assert_eq!(m.read_reg(0), 0x1234);
    assert_eq!(m.read_reg(9), 1);
}

#[test]
fn store_is_relative_to_incremented_pc() {
    // STORE R0, #2 at 0x3000 writes 0x3003
    let mut m = machine_with(0x3000, &[(0x3000, 0x3002)]);
    m.write_reg(0, 0xCAFE);
    let mut io = Console::new(Vec::new());
    assert_eq!(step(&mut m, &mut io), Ok(()));
    assert_eq!(m.read_mem(0x3003), 0xCAFE);
    assert_eq!(m.read_mem(0x3002), 0);
}

#[test]
fn load_indirect_follows_pointer() {
    // LOADI R0, #1: word at 0x3002 holds the address of the datum
    let mut m = machine_with(
        0x3000,
        &[(0x3000, 0xA001), (0x3002, 0x4000), (0x4000, 0x5678)],
    );
    let mut io = Console::new(Vec::new());
    assert_eq!(step(&mut m, &mut io), Ok(()));
    assert_eq!(m.read_reg(0), 0x5678);
}

#[test]
fn store_indirect_follows_pointer() {
    // STOREI R0, #1: word at 0x3002 holds the target address
    let mut m = machine_with(0x3000, &[(0x3000, 0xB001), (0x3002, 0x4000)]);
    m.write_reg(0, 0x9ABC);
    let mut io = Console::new(Vec::new());
    assert_eq!(step(&mut m, &mut io), Ok(()));
    assert_eq!(m.read_mem(0x4000), 0x9ABC);
}

#[test]
fn load_register_uses_base_plus_offset() {
    // LOADR R2, R1, #3
    let mut m = machine_with(0x3000, &[(0x3000, 0x6443), (0x4003, 0x0042)]);
    m.write_reg(1, 0x4000);
    let mut io = Console::new(Vec::new());
    assert_eq!(step(&mut m, &mut io), Ok(()));
    assert_eq!(m.read_reg(2), 0x0042);
}

#[test]
fn store_register_uses_base_plus_offset() {
    // STORER R2, R1, #3
    let mut m = machine_with(0x3000, &[(0x3000, 0x7443)]);
    m.write_reg(1, 0x4000);
    m.write_reg(2, 0x0042);
    let mut io = Console::new(Vec::new());
    assert_eq!(step(&mut m, &mut io), Ok(()));
    assert_eq!(m.read_mem(0x4003), 0x0042);
}

#[test]
fn lea_loads_pc_relative_address() {
    // LEA R0, #-1 at 0x3000 -> R0 = 0x3000
    let mut m = machine_with(0x3000, &[(0x3000, 0xE1FF)]);
    let mut io = Console::new(Vec::new());
    assert_eq!(step(&mut m, &mut io), Ok(()));
    assert_eq!(m.read_reg(0), 0x3000);
}

#[test]
fn branch_taken_and_untaken() {
    // AND R0, R0, #0 sets ZERO, then BRz #2 is taken
    let mut m = machine_with(0x3000, &[(0x3000, 0x5020), (0x3001, 0x0402)]);
    let mut io = Console::new(Vec::new());
    assert_eq!(step(&mut m, &mut io), Ok(()));
    assert_eq!(step(&mut m, &mut io), Ok(()));
    assert_eq!(m.read_reg(8), 0x3004);

    // with ZERO set, BRp (positive-only mask) is not taken
    let mut m2 = machine_with(0x3000, &[(0x3000, 0x5020), (0x3001, 0x0202)]);
    let mut io2 = Console::new(Vec::new());
    assert_eq!(step(&mut m2, &mut io2), Ok(()));
    assert_eq!(step(&mut m2, &mut io2), Ok(()));
    assert_eq!(m2.read_reg(8), 0x3002);
}

#[test]
fn subroutine_call_links_and_returns() {
    // JSR #2 at 0x3000 stores 0x3001 into R7 and jumps to 0x3003;
    // JUMP R7 there returns exactly to 0x3001
    let mut m = machine_with(0x3000, &[(0x3000, 0x4802), (0x3003, 0xC1C0)]);
    let mut io = Console::new(Vec::new());
    assert_eq!(step(&mut m, &mut io), Ok(()));
    assert_eq!(m.read_reg(7), 0x3001);
    assert_eq!(m.read_reg(8), 0x3003);
    assert_eq!(step(&mut m, &mut io), Ok(()));
    assert_eq!(m.read_reg(8), 0x3001);
}

#[test]
fn subroutine_call_register_mode() {
    // JSRR R1 with R1 = 0x4000
    let mut m = machine_with(0x3000, &[(0x3000, 0x4040)]);
    m.write_reg(1, 0x4000);
    let mut io = Console::new(Vec::new());
    assert_eq!(step(&mut m, &mut io), Ok(()));
    assert_eq!(m.read_reg(7), 0x3001);
    assert_eq!(m.read_reg(8), 0x4000);
}

#[test]
fn jump_is_unconditional() {
    let mut m = machine_with(0x3000, &[(0x3000, 0xC040)]);
    m.write_reg(1, 0x8123);
    let mut io = Console::new(Vec::new());
    assert_eq!(step(&mut m, &mut io), Ok(()));
    assert_eq!(m.read_reg(8), 0x8123);
}

#[test]
fn illegal_opcodes_fault() {
    // RTI
    let mut m = machine_with(0x3000, &[(0x3000, 0x8000)]);
    let mut io = Console::new(Vec::new());
    assert_eq!(
        step(&mut m, &mut io),
        Err(Fault::IllegalOpcode { opcode: 8 })
    );
    // RES
    let mut m2 = machine_with(0x3000, &[(0x3000, 0xD000)]);
    let mut io2 = Console::new(Vec::new());
    assert_eq!(
        step(&mut m2, &mut io2),
        Err(Fault::IllegalOpcode { opcode: 13 })
    );
}

#[test]
fn undefined_trap_faults() {
    let mut m = machine_with(0x3000, &[(0x3000, 0xF026)]);
    let mut io = Console::new(Vec::new());
    assert_eq!(
        step(&mut m, &mut io),
        Err(Fault::UndefinedTrap { vector: 0x26 })
    );
}

#[test]
fn getc_reads_one_byte_without_flag_update() {
    let mut m = machine_with(0x3000, &[(0x3000, 0xF020)]);
    m.write_reg(9, 4);
    let mut io = Console::new(vec![65, 66]);
    assert_eq!(step(&mut m, &mut io), Ok(()));
    assert_eq!(m.read_reg(0), 65);
    assert_eq!(m.read_reg(9), 4);
    assert_eq!(output_of(&io), Vec::<u8>::new());
}

#[test]
fn getc_on_exhausted_input_faults() {
    let mut m = machine_with(0x3000, &[(0x3000, 0xF020)]);
    let mut io = Console::new(Vec::new());
    assert_eq!(step(&mut m, &mut io), Err(Fault::InputExhausted));
}

#[test]
fn out_writes_low_byte_of_r0() {
    let mut m = machine_with(0x3000, &[(0x3000, 0xF021)]);
    m.write_reg(0, 0x1248);
    let mut io = Console::new(Vec::new());
    assert_eq!(step(&mut m, &mut io), Ok(()));
    assert_eq!(output_of(&io), vec![0x48]);
}

#[test]
fn in_prompts_then_reads() {
    let mut m = machine_with(0x3000, &[(0x3000, 0xF023)]);
    let mut io = Console::new(vec![97]);
    assert_eq!(step(&mut m, &mut io), Ok(()));
    assert_eq!(output_of(&io), b"Enter a character: ".to_vec());
    assert_eq!(m.read_reg(0), 97);
}

#[test]
fn puts_writes_until_zero_word() {
    // [0x4000] = 'H', 'i', 0 writes exactly "Hi" and does not read past
    // the terminator
    let mut m = machine_with(
        0x3000,
        &[
            (0x3000, 0xF022),
            (0x4000, 'H' as u16),
            (0x4001, 'i' as u16),
            (0x4002, 0),
            (0x4003, 'X' as u16),
        ],
    );
    m.write_reg(0, 0x4000);
    let mut io = Console::new(Vec::new());
    assert_eq!(step(&mut m, &mut io), Ok(()));
    assert_eq!(output_of(&io), b"Hi".to_vec());
}

#[test]
fn puts_on_zero_word_writes_nothing() {
    let mut m = machine_with(0x3000, &[(0x3000, 0xF022)]);
    m.write_reg(0, 0x4000);
    let mut io = Console::new(Vec::new());
    assert_eq!(step(&mut m, &mut io), Ok(()));
    assert_eq!(output_of(&io), Vec::<u8>::new());
}

#[test]
fn puts_address_wraps_around_memory() {
    let mut m = machine_with(0x3000, &[(0x3000, 0xF022), (0xFFFF, 'A' as u16), (0x0000, 0)]);
    m.write_reg(0, 0xFFFF);
    let mut io = Console::new(Vec::new());
    assert_eq!(step(&mut m, &mut io), Ok(()));
    assert_eq!(output_of(&io), b"A".to_vec());
}

#[test]
fn putsp_unpacks_two_characters_per_word() {
    // 0x6948 packs 'H' (low) then 'i' (high); a zero high byte ends a word
    let mut m = machine_with(
        0x3000,
        &[(0x3000, 0xF024), (0x4000, 0x6948), (0x4001, 0x0021), (0x4002, 0)],
    );
    m.write_reg(0, 0x4000);
    let mut io = Console::new(Vec::new());
    assert_eq!(step(&mut m, &mut io), Ok(()));
    assert_eq!(output_of(&io), b"Hi!".to_vec());
}

#[test]
fn halt_is_terminal() {
    // HALT stops the loop; the word after it never executes
    let mut m = machine_with(0x3000, &[(0x3000, 0xF025), (0x3001, 0x1021)]);
    let mut io = Console::new(Vec::new());
    assert_eq!(step(&mut m, &mut io), Ok(()));
    assert!(!m.is_running());
    assert_eq!(output_of(&io), b"HALT\n".to_vec());
    // a further step executes nothing and changes nothing
    assert_eq!(step(&mut m, &mut io), Ok(()));
    assert_eq!(m.read_reg(8), 0x3001);
    assert_eq!(m.read_reg(0), 0);
    assert_eq!(output_of(&io), b"HALT\n".to_vec());
}

#[test]
fn run_executes_program_to_halt() {
    // ADD R0, R0, #5; OUT; HALT
    let mut m = machine_with(
        0x3000,
        &[(0x3000, 0x1025), (0x3001, 0xF021), (0x3002, 0xF025)],
    );
    let mut io = Console::new(Vec::new());
    assert_eq!(run(&mut m, &mut io, 100), RunOutcome::Halted);
    assert_eq!(m.read_reg(0), 5);
    let mut expected = vec![5u8];
    expected.extend_from_slice(b"HALT\n");
    assert_eq!(output_of(&io), expected);
    assert_eq!(m.read_reg(8), 0x3003);
}

#[test]
fn run_reports_fault() {
    let mut m = machine_with(0x3000, &[(0x3000, 0x8000)]);
    let mut io = Console::new(Vec::new());
    assert_eq!(
        run(&mut m, &mut io, 100),
        RunOutcome::Faulted(Fault::IllegalOpcode { opcode: 8 })
    );
}

#[test]
fn run_stops_when_out_of_steps() {
    // JUMP R0 with R0 = 0x3000 loops forever
    let mut m = machine_with(0x3000, &[(0x3000, 0xC000)]);
    m.write_reg(0, 0x3000);
    let mut io = Console::new(Vec::new());
    assert_eq!(run(&mut m, &mut io, 5), RunOutcome::OutOfSteps);
    assert!(m.is_running());
}

#[test]
fn new_machine_is_zeroed_and_loads_images() {
    let mut m = Machine::new();
    for r in 0..10 {
        assert_eq!(m.read_reg(r), 0);
    }
    assert_eq!(m.read_mem(0x0000), 0);
    assert_eq!(m.read_mem(0xFFFF), 0);
    let image = vec![0x1021, 0xF025];
    m.load_image(0x3000, &image);
    assert_eq!(m.read_reg(8), 0x3000);
    assert_eq!(m.read_mem(0x3000), 0x1021);
    assert_eq!(m.read_mem(0x3001), 0xF025);
    assert_eq!(m.read_mem(0x3002), 0);
}
