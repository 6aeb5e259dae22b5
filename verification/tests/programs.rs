use lc3::console::Console;
use lc3::loader::{read_image_file, ImageError};
use lc3::machine::{run, step};
use lc3::memory::Memory;
use lc3::registers::Registers;
use lc3::semantics::StepKind;

const ORIGIN: u16 = 0x3000;

fn machine(words: &[u16], input: Vec<u16>) -> (Registers, Memory, Console) {
    let mut regs = Registers::new();
    let mut mem = Memory::new();
    for (i, w) in words.iter().enumerate() {
        mem.write(ORIGIN + i as u16, *w);
    }
    regs.update_reg(8, ORIGIN);
    (regs, mem, Console::new(input))
}

#[test]
fn trap_getc_stores_key_without_echo() {
    let (mut regs, mut mem, mut con) = machine(&[0xF020], vec![97]);
    assert_eq!(step(&mut regs, &mut mem, &mut con), StepKind::Running);
    assert_eq!(regs.get(0), 97);
    assert_eq!(con.output_chars().len(), 0);
}

#[test]
fn trap_getc_blocks_without_key_and_resumes() {
    let (mut regs, mut mem, mut con) = machine(&[0xF020], Vec::new());
    assert_eq!(step(&mut regs, &mut mem, &mut con), StepKind::Blocked);
    assert_eq!(regs.get(8), ORIGIN);
    assert_eq!(regs.get(0), 0);
    con.push_key(98);
    assert_eq!(step(&mut regs, &mut mem, &mut con), StepKind::Running);
    assert_eq!(regs.get(0), 98);
    assert_eq!(regs.get(8), ORIGIN + 1);
}

#[test]
fn trap_out_writes_low_byte() {
    let (mut regs, mut mem, mut con) = machine(&[0xF021], Vec::new());
    regs.update_reg(0, 0x1241);
    assert_eq!(step(&mut regs, &mut mem, &mut con), StepKind::Running);
    assert_eq!(con.output_chars().as_slice(), &[0x41]);
}

#[test]
fn trap_in_echoes_then_stores() {
    let (mut regs, mut mem, mut con) = machine(&[0xF023], vec![99]);
    assert_eq!(step(&mut regs, &mut mem, &mut con), StepKind::Running);
    assert_eq!(regs.get(0), 99);
    assert_eq!(con.output_chars().as_slice(), &[99]);
}

#[test]
fn trap_in_blocks_without_key() {
    let (mut regs, mut mem, mut con) = machine(&[0xF023], Vec::new());
    assert_eq!(step(&mut regs, &mut mem, &mut con), StepKind::Blocked);
    assert_eq!(regs.get(8), ORIGIN);
}

#[test]
fn puts_writes_hi_and_halts_cleanly() {
    // Memory holds "HI\0" at the address in R0; TRAP PUTS writes 'H','I',
    // and the following TRAP HALT halts the machine.
    let (mut regs, mut mem, mut con) = machine(&[0xF022, 0xF025], Vec::new());
    mem.write(0x4000, 72);
    mem.write(0x4001, 73);
    mem.write(0x4002, 0);
    regs.update_reg(0, 0x4000);
    assert_eq!(step(&mut regs, &mut mem, &mut con), StepKind::Running);
    assert_eq!(con.output_chars().as_slice(), &[72, 73]);
    assert_eq!(step(&mut regs, &mut mem, &mut con), StepKind::Halted);
    assert_eq!(con.output_chars().as_slice(), &[72, 73, 72, 65, 76, 84]);
}

#[test]
fn puts_truncates_each_word_to_a_byte() {
    let (mut regs, mut mem, mut con) = machine(&[0xF022], Vec::new());
    mem.write(0x4000, 0x0148);
    mem.write(0x4001, 0);
    regs.update_reg(0, 0x4000);
    step(&mut regs, &mut mem, &mut con);
    assert_eq!(con.output_chars().as_slice(), &[0x48]);
}

#[test]
fn putsp_unpacks_two_chars_per_word() {
    // "HELl" packed low-byte first: 0x4548 ("HE"), 0x6C4C ("Ll"), then 0.
    let (mut regs, mut mem, mut con) = machine(&[0xF024], Vec::new());
    mem.write(0x4000, 0x4548);
    mem.write(0x4001, 0x6C4C);
    mem.write(0x4002, 0);
    regs.update_reg(0, 0x4000);
    assert_eq!(step(&mut regs, &mut mem, &mut con), StepKind::Running);
    assert_eq!(con.output_chars().as_slice(), &[0x48, 0x45, 0x4C, 0x6C]);
}

#[test]
fn putsp_stops_at_zero_high_byte() {
    // Final word 0x0047 holds one character: its high byte ends the string.
    let (mut regs, mut mem, mut con) = machine(&[0xF024], Vec::new());
    mem.write(0x4000, 0x4241);
    mem.write(0x4001, 0x0047);
    regs.update_reg(0, 0x4000);
    step(&mut regs, &mut mem, &mut con);
    assert_eq!(con.output_chars().as_slice(), &[0x41, 0x42, 0x47]);
}

#[test]
fn halt_reports_halted_and_writes_message() {
    let (mut regs, mut mem, mut con) = machine(&[0xF025], Vec::new());
    assert_eq!(step(&mut regs, &mut mem, &mut con), StepKind::Halted);
    assert_eq!(con.output_chars().as_slice(), &[72, 65, 76, 84]);
    assert_eq!(regs.get(8), ORIGIN + 1);
}

#[test]
fn image_installs_one_word() {
    // Origin 0x3000, one word 0x1001: address 0x3000 receives it and nothing
    // else changes.
    let mut mem = Memory::new();
    let r = read_image_file(vec![0x30, 0x00, 0x10, 0x01], &mut mem);
    assert_eq!(r, Ok(0x3000));
    assert_eq!(mem.get(0x3000), 0x1001);
    assert_eq!(mem.get(0x2FFF), 0);
    assert_eq!(mem.get(0x3001), 0);
    assert_eq!(mem.get(0), 0);
    assert_eq!(mem.get(0xFFFF), 0);
}

#[test]
fn image_overwrites_only_its_range() {
    let mut mem = Memory::new();
    mem.write(0x3000, 0xAAAA);
    mem.write(0x3003, 0xBBBB);
    let r = read_image_file(vec![0x30, 0x00, 0x12, 0x34, 0x56, 0x78], &mut mem);
    assert_eq!(r, Ok(0x3000));
    assert_eq!(mem.get(0x3000), 0x1234);
    assert_eq!(mem.get(0x3001), 0x5678);
    assert_eq!(mem.get(0x3003), 0xBBBB);
}

#[test]
fn image_too_short_is_rejected() {
    let mut mem = Memory::new();
    assert_eq!(read_image_file(vec![], &mut mem), Err(ImageError::Truncated));
    assert_eq!(read_image_file(vec![0x30], &mut mem), Err(ImageError::Truncated));
    assert_eq!(mem.get(0x3000), 0);
}

#[test]
fn image_odd_length_is_rejected() {
    let mut mem = Memory::new();
    let r = read_image_file(vec![0x30, 0x00, 0x10], &mut mem);
    assert_eq!(r, Err(ImageError::OddLength));
    assert_eq!(mem.get(0x3000), 0);
}

#[test]
fn image_past_top_of_memory_is_rejected() {
    let mut mem = Memory::new();
    let r = read_image_file(vec![0xFF, 0xFF, 0x10, 0x01, 0x10, 0x02], &mut mem);
    assert_eq!(r, Err(ImageError::Overflow));
    assert_eq!(mem.get(0xFFFF), 0);
}

#[test]
fn image_ending_exactly_at_top_is_accepted() {
    let mut mem = Memory::new();
    let r = read_image_file(vec![0xFF, 0xFF, 0x10, 0x01], &mut mem);
    assert_eq!(r, Ok(0xFFFF));
    assert_eq!(mem.get(0xFFFF), 0x1001);
}

#[test]
fn run_executes_program_to_halt() {
    // ADD R0, R0, #5; ADD R0, R0, #-5; TRAP HALT.
    let (mut regs, mut mem, mut con) = machine(&[0x1025, 0x103B, 0xF025], Vec::new());
    assert_eq!(run(&mut regs, &mut mem, &mut con, 1000), StepKind::Halted);
    assert_eq!(regs.get(0), 0);
    assert_eq!(regs.get(8), ORIGIN + 3);
    assert_eq!(con.output_chars().as_slice(), &[72, 65, 76, 84]);
}

#[test]
fn run_stops_on_fault() {
    let (mut regs, mut mem, mut con) = machine(&[0x8000], Vec::new());
    assert_eq!(run(&mut regs, &mut mem, &mut con, 1000), StepKind::Fault);
}

#[test]
fn run_reports_exhausted_budget() {
    // BRnzp #-1: an endless loop.
    let (mut regs, mut mem, mut con) = machine(&[0x0FFF], Vec::new());
    regs.update_reg(9, 2);
    assert_eq!(run(&mut regs, &mut mem, &mut con, 10), StepKind::Running);
}

#[test]
fn run_blocks_then_finishes_after_input() {
    // TRAP GETC; TRAP OUT; TRAP HALT: echo one character, then stop.
    let (mut regs, mut mem, mut con) = machine(&[0xF020, 0xF021, 0xF025], Vec::new());
    assert_eq!(run(&mut regs, &mut mem, &mut con, 1000), StepKind::Blocked);
    con.push_key(0x58);
    assert_eq!(run(&mut regs, &mut mem, &mut con, 1000), StepKind::Halted);
    assert_eq!(con.output_chars().as_slice(), &[0x58, 72, 65, 76, 84]);
}

#[test]
fn loaded_image_runs_from_its_origin() {
    // The image from the loader runs directly: LEA R0, #2; TRAP PUTS over
    // "OK\0" placed right after the code.
    let mut mem = Memory::new();
    let image = vec![
        0x30, 0x00, // origin
        0xE0, 0x02, // LEA R0, #2
        0xF0, 0x22, // TRAP PUTS
        0xF0, 0x25, // TRAP HALT
        0x00, 0x4F, // 'O'
        0x00, 0x4B, // 'K'
        0x00, 0x00, // terminator
    ];
    let origin = read_image_file(image, &mut mem).unwrap();
    let mut regs = Registers::new();
    regs.update_reg(8, origin);
    let mut con = Console::new(Vec::new());
    assert_eq!(run(&mut regs, &mut mem, &mut con, 1000), StepKind::Halted);
    assert_eq!(con.output_chars().as_slice(), &[0x4F, 0x4B, 72, 65, 76, 84]);
}
