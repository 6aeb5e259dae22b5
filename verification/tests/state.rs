use lc3::console::{check_key, get_char, Console};
use lc3::memory::Memory;
use lc3::registers::Registers;

#[test]
fn registers_start_zero() {
    let r = Registers::new();
    for i in 0..10u16 {
        assert_eq!(r.get(i), 0);
    }
}

#[test]
fn update_reg_and_get() {
    let mut r = Registers::new();
    r.update_reg(3, 0xBEEF);
    assert_eq!(r.get(3), 0xBEEF);
    assert_eq!(r.get(2), 0);
}

#[test]
fn update_flags_zero() {
    let mut r = Registers::new();
    r.update_reg(1, 0);
    r.update_flags(1);
    assert_eq!(r.get(9), 2);
}

#[test]
fn update_flags_negative() {
    let mut r = Registers::new();
    r.update_reg(1, 0x8000);
    r.update_flags(1);
    assert_eq!(r.get(9), 4);
}

#[test]
fn update_flags_positive() {
    let mut r = Registers::new();
    r.update_reg(1, 0x7FFF);
    r.update_flags(1);
    assert_eq!(r.get(9), 1);
}

#[test]
fn increment_pc_wraps() {
    let mut r = Registers::new();
    r.update_reg(8, 0xFFFF);
    r.increment_pc(1);
    assert_eq!(r.get(8), 0);
    r.update_reg(8, 0x3000);
    r.increment_pc(0xFFFF);
    assert_eq!(r.get(8), 0x2FFF);
}

#[test]
fn memory_starts_zero_and_stores() {
    let mut m = Memory::new();
    assert_eq!(m.get(0), 0);
    assert_eq!(m.get(0xFFFF), 0);
    m.write(0x1234, 0xABCD);
    assert_eq!(m.get(0x1234), 0xABCD);
}

#[test]
fn plain_read_has_no_side_effect() {
    let mut m = Memory::new();
    let mut con = Console::new(vec![65]);
    m.write(0x2000, 7);
    assert_eq!(m.read(0x2000, &mut con), 7);
    assert!(check_key(&con));
    assert_eq!(m.get(0xFE02), 0);
}

#[test]
fn status_read_with_key_latches_and_consumes() {
    let mut m = Memory::new();
    let mut con = Console::new(vec![65, 66]);
    assert_eq!(m.read(0xFE00, &mut con), 0x8000);
    assert_eq!(m.get(0xFE02), 65);
    assert_eq!(con.output_chars().len(), 0);
    let next = get_char(&mut con);
    assert_eq!(next, 66);
    assert!(!check_key(&con));
}

#[test]
fn status_read_without_key_clears() {
    let mut m = Memory::new();
    let mut con = Console::new(Vec::new());
    m.write(0xFE00, 0xABCD);
    assert_eq!(m.read(0xFE00, &mut con), 0);
    assert_eq!(m.get(0xFE00), 0);
}

#[test]
fn mapped_addresses_store_plain_writes() {
    let mut m = Memory::new();
    m.write(0xFE00, 0x8000);
    m.write(0xFE02, 0x41);
    assert_eq!(m.get(0xFE00), 0x8000);
    assert_eq!(m.get(0xFE02), 0x41);
}

#[test]
fn console_queue_and_output() {
    let mut con = Console::new(vec![10]);
    con.push_key(13);
    assert_eq!(get_char(&mut con), 10);
    assert_eq!(get_char(&mut con), 13);
    assert!(!check_key(&con));
    con.put_char(72);
    con.put_char(73);
    assert_eq!(con.output_chars().as_slice(), &[72, 73]);
}
