use lc3::arch::{
    decode, sign_extend, swap_16bits, Flag, Instruction, MemoryMappedRegisters, Register, TrapCode,
};

#[test]
fn sign_extend_negative_five_bits() {
    assert_eq!(sign_extend(0b11111, 5), 0xFFFF);
}

#[test]
fn sign_extend_positive_five_bits() {
    assert_eq!(sign_extend(0b01111, 5), 0x000F);
}

#[test]
fn sign_extend_other_widths() {
    assert_eq!(sign_extend(0b100000, 6), 0xFFE0);
    assert_eq!(sign_extend(0b011111, 6), 0x001F);
    assert_eq!(sign_extend(0x100, 9), 0xFF00);
    assert_eq!(sign_extend(0x0FF, 9), 0x00FF);
    assert_eq!(sign_extend(0x400, 11), 0xFC00);
    assert_eq!(sign_extend(0x3FF, 11), 0x03FF);
    assert_eq!(sign_extend(0, 5), 0);
}

#[test]
fn swap_16bits_examples() {
    assert_eq!(swap_16bits(0x1234), 0x3412);
    assert_eq!(swap_16bits(0x00FF), 0xFF00);
    assert_eq!(swap_16bits(swap_16bits(0xBEEF)), 0xBEEF);
}

#[test]
fn register_indices() {
    assert_eq!(Register::Rr0.index(), 0);
    assert_eq!(Register::Rr7.index(), 7);
    assert_eq!(Register::RPC.index(), 8);
    assert_eq!(Register::RCond.index(), 9);
    assert_eq!(Register::RCount.index(), 10);
}

#[test]
fn flag_bits() {
    assert_eq!(Flag::BRp.bits(), 1);
    assert_eq!(Flag::BRz.bits(), 2);
    assert_eq!(Flag::BRn.bits(), 4);
}

#[test]
fn mapped_register_addresses() {
    assert_eq!(MemoryMappedRegisters::MrKbsr.address(), 0xFE00);
    assert_eq!(MemoryMappedRegisters::MrKbdr.address(), 0xFE02);
}

#[test]
fn trap_vectors() {
    assert_eq!(TrapCode::from_vector(0x20), Some(TrapCode::TrapGetc));
    assert_eq!(TrapCode::from_vector(0x21), Some(TrapCode::TrapOut));
    assert_eq!(TrapCode::from_vector(0x22), Some(TrapCode::TrapPuts));
    assert_eq!(TrapCode::from_vector(0x23), Some(TrapCode::TrapIn));
    assert_eq!(TrapCode::from_vector(0x24), Some(TrapCode::TrapPutsp));
    assert_eq!(TrapCode::from_vector(0x25), Some(TrapCode::TrapHalt));
    assert_eq!(TrapCode::from_vector(0x26), None);
    assert_eq!(TrapCode::from_vector(0x00), None);
}

#[test]
fn decode_all_opcodes() {
    assert_eq!(decode(0x0000), Instruction::OPBr);
    assert_eq!(decode(0x1234), Instruction::OPAdd);
    assert_eq!(decode(0x2000), Instruction::OPLd);
    assert_eq!(decode(0x3000), Instruction::OPSt);
    assert_eq!(decode(0x4000), Instruction::OPJsr);
    assert_eq!(decode(0x5000), Instruction::OPAnd);
    assert_eq!(decode(0x6000), Instruction::OPLdr);
    assert_eq!(decode(0x7000), Instruction::OPStr);
    assert_eq!(decode(0x8000), Instruction::OPRti);
    assert_eq!(decode(0x9000), Instruction::OPNot);
    assert_eq!(decode(0xA000), Instruction::OPLdi);
    assert_eq!(decode(0xB000), Instruction::OPSti);
    assert_eq!(decode(0xC000), Instruction::OPJmp);
    assert_eq!(decode(0xD000), Instruction::OPRes);
    assert_eq!(decode(0xE000), Instruction::OPLea);
    assert_eq!(decode(0xFFFF), Instruction::OPTrap);
}
