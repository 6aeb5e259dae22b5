//! The mathematical model of the machine: one `State` value holds the
//! register file, memory, pending keyboard input, and console output, and the
//! spec functions here define exactly how each opcode, each trap, and a whole
//! fetch-decode-execute step transform it. Every executable piece of the
//! emulator is proved against these functions.

use vstd::prelude::*;
use crate::arch::{
    Instruction, R_PC, R_COND, KBSR, REG_COUNT, MEM_SIZE, opcode_spec, wrap_add, flag_for, dr_of,
    sr1_of, sr2_of, imm_flag_of, long_flag_of, imm5_of, off6_of, off9_of, off11_of, trapvect_of,
};
use crate::memory::{Memory, mem_after_read, keys_after_read, read_value};
use crate::console::Console;

verus! {

/// The machine state that a register file, a memory, and a console hold
/// together; the executable step and run functions are specified by how they
/// transform this value.
pub open spec fn machine_state(regs: Seq<u16>, memory: Memory, console: Console) -> State {
    State { regs, mem: memory@, keys: console.keys(), out: console.out() }
}

/// The whole machine at one instant: registers (ten words), memory (65,536
/// words), the keyboard characters not yet consumed, and the console output
/// written so far.
#[verifier::ext_equal]
pub struct State {
    pub regs: Seq<u16>,
    pub mem: Seq<u16>,
    pub keys: Seq<u16>,
    pub out: Seq<u16>,
}

impl State {
    /// Register file and memory have their fixed sizes, and every key and
    /// every output character is a byte value.
    pub open spec fn wf(self) -> bool {
        &&& self.regs.len() == REG_COUNT
        &&& self.mem.len() == MEM_SIZE
        &&& forall|i: int| 0 <= i < self.keys.len() ==> self.keys[i] < 256
        &&& forall|i: int| 0 <= i < self.out.len() ==> self.out[i] < 256
    }
}

/// What one step of the execution loop reported: still running, gracefully
/// halted, waiting for keyboard input the console does not yet hold, or a
/// fatal decode fault (reserved opcode or unsupported trap vector).
#[derive(Clone, Copy, PartialEq, Eq, Structural, Debug)]
pub enum StepKind {
    Running,
    Halted,
    Blocked,
    Fault,
}

/// Writes `v` into general register `dr` and sets the condition flags from
/// `v`: the shared tail of every flag-setting instruction.
pub open spec fn set_and_flag(regs: Seq<u16>, dr: u16, v: u16) -> Seq<u16> {
    regs.update(dr as int, v).update(R_COND as int, flag_for(v))
}

/// ADD: destination = source one plus (immediate or source two), wrapping;
/// flags updated.
pub open spec fn add_regs(regs: Seq<u16>, instr: u16) -> Seq<u16> {
    let a = regs[sr1_of(instr) as int];
    let b = if imm_flag_of(instr) == 1 {
        imm5_of(instr)
    } else {
        regs[sr2_of(instr) as int]
    };
    set_and_flag(regs, dr_of(instr), wrap_add(a, b))
}

/// AND: destination = source one bitwise-and (immediate or source two);
/// flags updated.
pub open spec fn and_regs(regs: Seq<u16>, instr: u16) -> Seq<u16> {
    let a = regs[sr1_of(instr) as int];
    let b = if imm_flag_of(instr) == 1 {
        imm5_of(instr)
    } else {
        regs[sr2_of(instr) as int]
    };
    set_and_flag(regs, dr_of(instr), a & b)
}

/// NOT: destination = bitwise complement of source one; flags updated.
pub open spec fn not_regs(regs: Seq<u16>, instr: u16) -> Seq<u16> {
    set_and_flag(regs, dr_of(instr), !regs[sr1_of(instr) as int])
}

/// BR: when the instruction's condition field intersects the current flag,
/// the PC moves by the sign-extended 9-bit offset; otherwise nothing changes.
pub open spec fn br_regs(regs: Seq<u16>, instr: u16) -> Seq<u16> {
    if dr_of(instr) & regs[R_COND as int] != 0 {
        regs.update(R_PC as int, wrap_add(regs[R_PC as int], off9_of(instr)))
    } else {
        regs
    }
}

/// JMP: the PC is loaded from the base register (RET when that is R7).
pub open spec fn jmp_regs(regs: Seq<u16>, instr: u16) -> Seq<u16> {
    regs.update(R_PC as int, regs[sr1_of(instr) as int])
}

/// JSR/JSRR: R7 receives the return address (the PC already advanced past
/// this instruction); then the PC moves by the 11-bit offset (long form) or
/// is loaded from the base register, read after R7 was written.
pub open spec fn jsr_regs(regs: Seq<u16>, instr: u16) -> Seq<u16> {
    let saved = regs.update(7, regs[R_PC as int]);
    if long_flag_of(instr) == 1 {
        saved.update(R_PC as int, wrap_add(regs[R_PC as int], off11_of(instr)))
    } else {
        saved.update(R_PC as int, saved[sr1_of(instr) as int])
    }
}

/// LEA: destination = PC plus the sign-extended 9-bit offset; flags updated.
pub open spec fn lea_regs(regs: Seq<u16>, instr: u16) -> Seq<u16> {
    set_and_flag(regs, dr_of(instr), wrap_add(regs[R_PC as int], off9_of(instr)))
}

/// LD: destination = memory at PC plus offset, through the mapped-read
/// model; flags updated.
pub open spec fn ld_step(s: State, instr: u16) -> State {
    let a = wrap_add(s.regs[R_PC as int], off9_of(instr));
    State {
        regs: set_and_flag(s.regs, dr_of(instr), read_value(s.mem, s.keys, a)),
        mem: mem_after_read(s.mem, s.keys, a),
        keys: keys_after_read(s.keys, a),
        out: s.out,
    }
}

/// LDR: destination = memory at base register plus 6-bit offset; flags
/// updated.
pub open spec fn ldr_step(s: State, instr: u16) -> State {
    let a = wrap_add(s.regs[sr1_of(instr) as int], off6_of(instr));
    State {
        regs: set_and_flag(s.regs, dr_of(instr), read_value(s.mem, s.keys, a)),
        mem: mem_after_read(s.mem, s.keys, a),
        keys: keys_after_read(s.keys, a),
        out: s.out,
    }
}

/// LDI: the word at PC plus offset is itself an address, and the destination
/// receives the word found there (double indirection); both reads go through
/// the mapped-read model, in order.
pub open spec fn ldi_step(s: State, instr: u16) -> State {
    let a1 = wrap_add(s.regs[R_PC as int], off9_of(instr));
    let v1 = read_value(s.mem, s.keys, a1);
    let mem1 = mem_after_read(s.mem, s.keys, a1);
    let keys1 = keys_after_read(s.keys, a1);
    State {
        regs: set_and_flag(s.regs, dr_of(instr), read_value(mem1, keys1, v1)),
        mem: mem_after_read(mem1, keys1, v1),
        keys: keys_after_read(keys1, v1),
        out: s.out,
    }
}

/// ST: memory at PC plus offset receives the source register.
pub open spec fn st_step(s: State, instr: u16) -> State {
    let a = wrap_add(s.regs[R_PC as int], off9_of(instr));
    State { mem: s.mem.update(a as int, s.regs[dr_of(instr) as int]), ..s }
}

/// STI: the word at PC plus offset is read as an address (through the
/// mapped-read model), and that address receives the source register.
pub open spec fn sti_step(s: State, instr: u16) -> State {
    let a1 = wrap_add(s.regs[R_PC as int], off9_of(instr));
    let v1 = read_value(s.mem, s.keys, a1);
    let mem1 = mem_after_read(s.mem, s.keys, a1);
    let keys1 = keys_after_read(s.keys, a1);
    State { mem: mem1.update(v1 as int, s.regs[dr_of(instr) as int]), keys: keys1, ..s }
}

/// STR: memory at base register plus 6-bit offset receives the source
/// register.
pub open spec fn str_step(s: State, instr: u16) -> State {
    let a = wrap_add(s.regs[sr1_of(instr) as int], off6_of(instr));
    State { mem: s.mem.update(a as int, s.regs[dr_of(instr) as int]), ..s }
}

/// GETC: R0 receives the next keyboard character, consuming it, with no echo
/// and no flag update. Only meaningful when a key is pending; an empty queue
/// blocks the step instead.
pub open spec fn getc_step(s: State) -> State {
    State { regs: s.regs.update(0, s.keys[0]), keys: s.keys.skip(1), ..s }
}

/// OUT: the low byte of R0 is written to the console output.
pub open spec fn out_step(s: State) -> State {
    State { out: s.out.push(s.regs[0] & 0xFF), ..s }
}

/// The characters that PUTS writes for a string starting at `addr`: the low
/// byte of each word, up to but not including the first zero word; the walk
/// also stops at the top of memory.
pub open spec fn puts_seq(mem: Seq<u16>, addr: int) -> Seq<u16>
    decreases MEM_SIZE - addr,
{
    if addr < 0 || addr >= MEM_SIZE || mem[addr] == 0 {
        Seq::empty()
    } else {
        seq![mem[addr] & 0xFF].add(puts_seq(mem, addr + 1))
    }
}

/// PUTS: the characters of the zero-terminated word string at the address in
/// R0 are written to the console output.
pub open spec fn puts_step(s: State) -> State {
    State { out: s.out.add(puts_seq(s.mem, s.regs[0] as int)), ..s }
}

/// IN: the next keyboard character is echoed to the console output, then
/// stored in R0 and consumed. Only meaningful when a key is pending; an
/// empty queue blocks the step instead.
pub open spec fn in_step(s: State) -> State {
    State {
        regs: s.regs.update(0, s.keys[0]),
        keys: s.keys.skip(1),
        out: s.out.push(s.keys[0]),
        ..s
    }
}

/// The characters that PUTSP writes for a packed string starting at `addr`:
/// each word holds two characters, low byte first; a zero byte ends the
/// string, and the walk also stops at the top of memory.
pub open spec fn putsp_seq(mem: Seq<u16>, addr: int) -> Seq<u16>
    decreases MEM_SIZE - addr,
{
    if addr < 0 || addr >= MEM_SIZE || mem[addr] & 0xFF == 0 {
        Seq::empty()
    } else if mem[addr] >> 8 == 0 {
        seq![mem[addr] & 0xFF]
    } else {
        seq![mem[addr] & 0xFF, mem[addr] >> 8].add(putsp_seq(mem, addr + 1))
    }
}

/// PUTSP: the characters of the byte-packed, zero-byte-terminated string at
/// the address in R0 are written to the console output.
pub open spec fn putsp_step(s: State) -> State {
    State { out: s.out.add(putsp_seq(s.mem, s.regs[0] as int)), ..s }
}

/// The shutdown message that the HALT trap writes to the console output.
pub open spec fn halt_message() -> Seq<u16> {
    seq![72u16, 65u16, 76u16, 84u16]
}

/// HALT: the shutdown message is written and the machine stops.
pub open spec fn halt_step(s: State) -> State {
    State { out: s.out.add(halt_message()), ..s }
}

/// The instruction word that a step starting from `s` executes: the mapped
/// read of memory at the PC.
pub open spec fn fetched(s: State) -> u16 {
    read_value(s.mem, s.keys, s.regs[R_PC as int])
}

/// The machine after the fetch alone: the PC has advanced by one word and
/// the fetch's mapped read has taken effect.
pub open spec fn after_fetch(s: State) -> State {
    let pc = s.regs[R_PC as int];
    State {
        regs: s.regs.update(R_PC as int, wrap_add(pc, 1)),
        mem: mem_after_read(s.mem, s.keys, pc),
        keys: keys_after_read(s.keys, pc),
        out: s.out,
    }
}

/// One full step of the execution loop from `s`: fetch at the PC, advance
/// the PC, decode, and apply the matching execution unit or trap routine.
/// The first component reports how the step ended; the second is the machine
/// afterwards. A blocked step (GETC or IN with no key pending) leaves the
/// machine exactly as it was, so retrying after input arrives re-executes
/// the trap.
pub open spec fn step_res(s: State) -> (StepKind, State) {
    let instr = fetched(s);
    let s1 = after_fetch(s);
    match opcode_spec(instr) {
        Instruction::OPBr => (StepKind::Running, State { regs: br_regs(s1.regs, instr), ..s1 }),
        Instruction::OPAdd => (StepKind::Running, State { regs: add_regs(s1.regs, instr), ..s1 }),
        Instruction::OPLd => (StepKind::Running, ld_step(s1, instr)),
        Instruction::OPSt => (StepKind::Running, st_step(s1, instr)),
        Instruction::OPJsr => (StepKind::Running, State { regs: jsr_regs(s1.regs, instr), ..s1 }),
        Instruction::OPAnd => (StepKind::Running, State { regs: and_regs(s1.regs, instr), ..s1 }),
        Instruction::OPLdr => (StepKind::Running, ldr_step(s1, instr)),
        Instruction::OPStr => (StepKind::Running, str_step(s1, instr)),
        Instruction::OPRti => (StepKind::Fault, s1),
        Instruction::OPNot => (StepKind::Running, State { regs: not_regs(s1.regs, instr), ..s1 }),
        Instruction::OPLdi => (StepKind::Running, ldi_step(s1, instr)),
        Instruction::OPSti => (StepKind::Running, sti_step(s1, instr)),
        Instruction::OPJmp => (StepKind::Running, State { regs: jmp_regs(s1.regs, instr), ..s1 }),
        Instruction::OPRes => (StepKind::Fault, s1),
        Instruction::OPLea => (StepKind::Running, State { regs: lea_regs(s1.regs, instr), ..s1 }),
        Instruction::OPTrap => {
            let v = trapvect_of(instr);
            if v == 0x20 {
                if s1.keys.len() == 0 {
                    (StepKind::Blocked, s)
                } else {
                    (StepKind::Running, getc_step(s1))
                }
            } else if v == 0x21 {
                (StepKind::Running, out_step(s1))
            } else if v == 0x22 {
                (StepKind::Running, puts_step(s1))
            } else if v == 0x23 {
                if s1.keys.len() == 0 {
                    (StepKind::Blocked, s)
                } else {
                    (StepKind::Running, in_step(s1))
                }
            } else if v == 0x24 {
                (StepKind::Running, putsp_step(s1))
            } else if v == 0x25 {
                (StepKind::Halted, halt_step(s1))
            } else {
                (StepKind::Fault, s1)
            }
        },
    }
}

/// How a step from `s` ends.
pub open spec fn step_kind(s: State) -> StepKind {
    step_res(s).0
}

/// The machine after one step from `s`.
pub open spec fn step_next(s: State) -> State {
    step_res(s).1
}

/// A trap instruction can never have been fetched from the keyboard status
/// address: that address reads back as only the ready bit or zero, and
/// neither word's opcode is the trap opcode. So a step that decodes a trap
/// had a side-effect-free fetch.
pub proof fn lemma_trap_fetch_not_mapped(s0: State, instr: u16)
    requires
        s0.mem.len() == MEM_SIZE,
        instr == fetched(s0),
        opcode_spec(instr) == Instruction::OPTrap,
    ensures
        s0.regs[R_PC as int] != KBSR,
        after_fetch(s0).mem == s0.mem,
        after_fetch(s0).keys == s0.keys,
{
    assert(0x8000u16 >> 12 == 8) by (bit_vector);
    assert(0u16 >> 12 == 0) by (bit_vector);
    if s0.regs[R_PC as int] == KBSR {
        assert(instr == 0x8000 || instr == 0);
        assert(opcode_spec(instr) != Instruction::OPTrap);
    }
}

/// The machine after `n` steps of the execution loop from `s`; once a step
/// ends in anything but `Running`, later steps change nothing.
pub open spec fn run_n(s: State, n: nat) -> State
    decreases n,
{
    if n == 0 {
        s
    } else {
        let prev = run_n(s, (n - 1) as nat);
        if step_kind(prev) == StepKind::Running {
            step_next(prev)
        } else {
            prev
        }
    }
}

} // verus!
