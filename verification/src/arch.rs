//! Architectural constants, the instruction-set enumerations, and the pure
//! bit-level helpers (field extraction, sign extension, wrapping word
//! arithmetic) that the decoder and the execution units are built on.

use vstd::prelude::*;

verus! {

/// Number of words in the register file: eight general registers, the
/// program counter, and the condition-flag register.
pub const REG_COUNT: usize = 10;

/// Index of the program counter within the register file.
pub const R_PC: u16 = 8;

/// Index of the condition-flag register within the register file.
pub const R_COND: u16 = 9;

/// Number of words of memory (the full 16-bit address space).
pub const MEM_SIZE: usize = 65536;

/// Address of the memory-mapped keyboard status register.
pub const KBSR: u16 = 0xFE00;

/// Address of the memory-mapped keyboard data register.
pub const KBDR: u16 = 0xFE02;

/// Condition-flag value: the last flag-setting write was positive.
pub const FL_POS: u16 = 1;

/// Condition-flag value: the last flag-setting write was zero.
pub const FL_ZRO: u16 = 2;

/// Condition-flag value: the last flag-setting write was negative.
pub const FL_NEG: u16 = 4;

/// Names for the ten registers of the register file, plus a sentinel
/// (`RCount`) naming the register-file size.
#[derive(Clone, Copy, PartialEq, Eq, Structural, Debug)]
pub enum Register {
    Rr0,
    Rr1,
    Rr2,
    Rr3,
    Rr4,
    Rr5,
    Rr6,
    Rr7,
    RPC,
    RCond,
    RCount,
}

impl Register {
    /// The register-file index this name stands for (`RCount` maps to the
    /// register-file size itself).
    pub open spec fn index_spec(self) -> u16 {
        match self {
            Register::Rr0 => 0,
            Register::Rr1 => 1,
            Register::Rr2 => 2,
            Register::Rr3 => 3,
            Register::Rr4 => 4,
            Register::Rr5 => 5,
            Register::Rr6 => 6,
            Register::Rr7 => 7,
            Register::RPC => 8,
            Register::RCond => 9,
            Register::RCount => 10,
        }
    }

    /// Returns the register-file index this name stands for.
    pub fn index(self) -> (i: u16)
        ensures
            i == self.index_spec(),
    {
        match self {
            Register::Rr0 => 0,
            Register::Rr1 => 1,
            Register::Rr2 => 2,
            Register::Rr3 => 3,
            Register::Rr4 => 4,
            Register::Rr5 => 5,
            Register::Rr6 => 6,
            Register::Rr7 => 7,
            Register::RPC => 8,
            Register::RCond => 9,
            Register::RCount => 10,
        }
    }
}

/// The sixteen opcodes, in the order of their 4-bit encodings (`OPBr` is
/// opcode 0, `OPTrap` is opcode 15).
#[derive(Clone, Copy, PartialEq, Eq, Structural, Debug)]
pub enum Instruction {
    OPBr,
    OPAdd,
    OPLd,
    OPSt,
    OPJsr,
    OPAnd,
    OPLdr,
    OPStr,
    OPRti,
    OPNot,
    OPLdi,
    OPSti,
    OPJmp,
    OPRes,
    OPLea,
    OPTrap,
}

/// The opcode selected by the top four bits of an instruction word.
pub open spec fn opcode_spec(instr: u16) -> Instruction {
    let op = instr >> 12;
    if op == 0 {
        Instruction::OPBr
    } else if op == 1 {
        Instruction::OPAdd
    } else if op == 2 {
        Instruction::OPLd
    } else if op == 3 {
        Instruction::OPSt
    } else if op == 4 {
        Instruction::OPJsr
    } else if op == 5 {
        Instruction::OPAnd
    } else if op == 6 {
        Instruction::OPLdr
    } else if op == 7 {
        Instruction::OPStr
    } else if op == 8 {
        Instruction::OPRti
    } else if op == 9 {
        Instruction::OPNot
    } else if op == 10 {
        Instruction::OPLdi
    } else if op == 11 {
        Instruction::OPSti
    } else if op == 12 {
        Instruction::OPJmp
    } else if op == 13 {
        Instruction::OPRes
    } else if op == 14 {
        Instruction::OPLea
    } else {
        Instruction::OPTrap
    }
}

/// Extracts the opcode from a raw instruction word.
pub fn decode(instr: u16) -> (op: Instruction)
    ensures
        op == opcode_spec(instr),
{
    let bits = instr >> 12;
    proof {
        assert(instr >> 12 < 16) by (bit_vector);
    }
    match bits {
        0 => Instruction::OPBr,
        1 => Instruction::OPAdd,
        2 => Instruction::OPLd,
        3 => Instruction::OPSt,
        4 => Instruction::OPJsr,
        5 => Instruction::OPAnd,
        6 => Instruction::OPLdr,
        7 => Instruction::OPStr,
        8 => Instruction::OPRti,
        9 => Instruction::OPNot,
        10 => Instruction::OPLdi,
        11 => Instruction::OPSti,
        12 => Instruction::OPJmp,
        13 => Instruction::OPRes,
        14 => Instruction::OPLea,
        _ => Instruction::OPTrap,
    }
}

/// The three condition flags, exactly one of which holds at a time.
#[derive(Clone, Copy, PartialEq, Eq, Structural, Debug)]
pub enum Flag {
    BRp,
    BRz,
    BRn,
}

impl Flag {
    /// The one-hot bit pattern this flag is stored as in the condition-flag
    /// register (and tested against a branch instruction's condition field).
    pub open spec fn bits_spec(self) -> u16 {
        match self {
            Flag::BRp => FL_POS,
            Flag::BRz => FL_ZRO,
            Flag::BRn => FL_NEG,
        }
    }

    /// Returns the one-hot bit pattern this flag is stored as.
    pub fn bits(self) -> (b: u16)
        ensures
            b == self.bits_spec(),
    {
        match self {
            Flag::BRp => FL_POS,
            Flag::BRz => FL_ZRO,
            Flag::BRn => FL_NEG,
        }
    }
}

/// The two memory addresses intercepted for keyboard input.
#[derive(Clone, Copy, PartialEq, Eq, Structural, Debug)]
pub enum MemoryMappedRegisters {
    MrKbsr,
    MrKbdr,
}

impl MemoryMappedRegisters {
    /// The address of this memory-mapped register.
    pub open spec fn address_spec(self) -> u16 {
        match self {
            MemoryMappedRegisters::MrKbsr => KBSR,
            MemoryMappedRegisters::MrKbdr => KBDR,
        }
    }

    /// Returns the address of this memory-mapped register.
    pub fn address(self) -> (a: u16)
        ensures
            a == self.address_spec(),
    {
        match self {
            MemoryMappedRegisters::MrKbsr => KBSR,
            MemoryMappedRegisters::MrKbdr => KBDR,
        }
    }
}

/// The six trap vectors the trap dispatcher accepts.
#[derive(Clone, Copy, PartialEq, Eq, Structural, Debug)]
pub enum TrapCode {
    TrapGetc,
    TrapOut,
    TrapPuts,
    TrapIn,
    TrapPutsp,
    TrapHalt,
}

/// The trap selected by an 8-bit trap vector, or `None` for any vector
/// outside the supported set (a fatal decode error).
pub open spec fn trap_code_spec(vector: u16) -> Option<TrapCode> {
    if vector == 0x20 {
        Some(TrapCode::TrapGetc)
    } else if vector == 0x21 {
        Some(TrapCode::TrapOut)
    } else if vector == 0x22 {
        Some(TrapCode::TrapPuts)
    } else if vector == 0x23 {
        Some(TrapCode::TrapIn)
    } else if vector == 0x24 {
        Some(TrapCode::TrapPutsp)
    } else if vector == 0x25 {
        Some(TrapCode::TrapHalt)
    } else {
        None
    }
}

impl TrapCode {
    /// Returns the trap named by `vector`, or `None` for an unsupported
    /// vector.
    pub fn from_vector(vector: u16) -> (t: Option<TrapCode>)
        ensures
            t == trap_code_spec(vector),
    {
        match vector {
            0x20 => Some(TrapCode::TrapGetc),
            0x21 => Some(TrapCode::TrapOut),
            0x22 => Some(TrapCode::TrapPuts),
            0x23 => Some(TrapCode::TrapIn),
            0x24 => Some(TrapCode::TrapPutsp),
            0x25 => Some(TrapCode::TrapHalt),
            _ => None,
        }
    }
}

/// Addition of two words, wrapping modulo 65536; all address and arithmetic
/// results of the machine are formed this way.
pub open spec fn wrap_add(a: u16, b: u16) -> u16 {
    if a + b > 0xFFFF {
        (a + b - 0x10000) as u16
    } else {
        (a + b) as u16
    }
}

/// `wrap_add` is addition modulo 65536.
pub proof fn lemma_wrap_add_mod(a: u16, b: u16)
    ensures
        wrap_add(a, b) == (a + b) % 0x10000,
{
    if a + b > 0xFFFF {
        assert((a + b) % 0x10000 == a + b - 0x10000) by {
            assert(0x10000 <= a + b < 0x20000);
        };
    } else {
        assert((a + b) % 0x10000 == a + b);
    }
}

/// Two's-complement widening of an `n`-bit field to a full word: if bit
/// `n - 1` of `x` is set, every higher bit is filled with 1, else `x` is
/// returned unchanged.
pub open spec fn sext(x: u16, n: u16) -> u16 {
    if (x >> (n - 1) as u16) & 1 == 1 {
        x | (0xFFFFu16 << n)
    } else {
        x
    }
}

/// Sign extension: widens the low `bit_count` bits of `x`, interpreted in
/// two's complement, to a full 16-bit word.
pub fn sign_extend(x: u16, bit_count: u16) -> (r: u16)
    requires
        1 <= bit_count <= 15,
    ensures
        r == sext(x, bit_count),
{
    if ((x >> (bit_count - 1)) & 1) == 1 {
        x | (0xFFFFu16 << bit_count)
    } else {
        x
    }
}

/// Sign extension leaves a value with a clear sign bit unchanged, and turns a
/// value with its sign bit set into its two's-complement counterpart: the
/// value plus `65536 - 2^n`, which is the same as filling the high bits.
pub proof fn lemma_sign_extend(v: u16, n: u16)
    requires
        1 <= n <= 15,
        v < (1u16 << n),
    ensures
        (v >> (n - 1) as u16) & 1 == 0 ==> sext(v, n) == v,
        (v >> (n - 1) as u16) & 1 == 1 ==> sext(v, n) == v | (0xFFFFu16 << n),
        (v >> (n - 1) as u16) & 1 == 1 ==> sext(v, n) == v + 0x10000 - (1u16 << n),
{
    assert((1 <= n <= 15 && v < (1u16 << n) && (v >> (n - 1) as u16) & 1 == 1) ==> (v | (
    0xFFFFu16 << n)) == v + 0x10000 - (1u16 << n)) by (bit_vector);
}

/// The destination-register field (bits 11-9); also the condition field of a
/// branch instruction.
pub open spec fn dr_of(instr: u16) -> u16 {
    (instr >> 9) & 0x7
}

/// The first source-register field (bits 8-6); also the base register of
/// register-addressed loads, stores, and jumps.
pub open spec fn sr1_of(instr: u16) -> u16 {
    (instr >> 6) & 0x7
}

/// The second source-register field (bits 2-0).
pub open spec fn sr2_of(instr: u16) -> u16 {
    instr & 0x7
}

/// The immediate-mode flag (bit 5) of the arithmetic instructions.
pub open spec fn imm_flag_of(instr: u16) -> u16 {
    (instr >> 5) & 0x1
}

/// The long-offset flag (bit 11) of the jump-to-subroutine instruction.
pub open spec fn long_flag_of(instr: u16) -> u16 {
    (instr >> 11) & 0x1
}

/// The sign-extended 5-bit immediate of the arithmetic instructions.
pub open spec fn imm5_of(instr: u16) -> u16 {
    sext(instr & 0x1F, 5)
}

/// The sign-extended 6-bit offset of the register-addressed load and store.
pub open spec fn off6_of(instr: u16) -> u16 {
    sext(instr & 0x3F, 6)
}

/// The sign-extended 9-bit PC-relative offset.
pub open spec fn off9_of(instr: u16) -> u16 {
    sext(instr & 0x1FF, 9)
}

/// The sign-extended 11-bit offset of the long jump-to-subroutine.
pub open spec fn off11_of(instr: u16) -> u16 {
    sext(instr & 0x7FF, 11)
}

/// The 8-bit trap vector in the low byte of a trap instruction.
pub open spec fn trapvect_of(instr: u16) -> u16 {
    instr & 0xFF
}

/// Bounds of the raw bit fields of an instruction word.
pub proof fn lemma_field_bounds(instr: u16)
    by (bit_vector)
    ensures
        (instr >> 9) & 0x7 < 8,
        (instr >> 6) & 0x7 < 8,
        instr & 0x7 < 8,
        (instr >> 5) & 0x1 < 2,
        (instr >> 11) & 0x1 < 2,
        instr & 0x1F < 0x20,
        instr & 0x3F < 0x40,
        instr & 0x1FF < 0x200,
        instr & 0x7FF < 0x800,
        instr & 0xFF < 0x100,
        instr >> 12 < 16,
{
}

/// The condition-flag value that an instruction defined to update flags
/// leaves behind after writing `v` into its destination register.
pub open spec fn flag_for(v: u16) -> u16 {
    if v == 0 {
        FL_ZRO
    } else if v >= 0x8000 {
        FL_NEG
    } else {
        FL_POS
    }
}

/// Swapping the two bytes of a word.
pub open spec fn swap16(x: u16) -> u16 {
    (x << 8) | (x >> 8)
}

/// Exchanges the two bytes of a word (big-endian to native word order and
/// back).
pub fn swap_16bits(x: u16) -> (r: u16)
    ensures
        r == swap16(x),
{
    x << 8 | x >> 8
}

/// Byte swapping exchanges exactly the two bytes, and is its own inverse.
pub proof fn lemma_swap_16bits(x: u16)
    by (bit_vector)
    ensures
        ((x << 8) | (x >> 8)) & 0xFF == x >> 8,
        ((x << 8) | (x >> 8)) >> 8 == x & 0xFF,
        ((((x << 8) | (x >> 8)) << 8) | (((x << 8) | (x >> 8)) >> 8)) == x,
{
}

} // verus!
