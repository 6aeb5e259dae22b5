//! The laws of the machine that relate several operations or every state:
//! flag consistency after flag-setting instructions, the additive round trip,
//! double indirection of the indirect load, and the terminal character of a
//! halting step.

use vstd::prelude::*;
use crate::arch::{
    Instruction, R_PC, R_COND, KBSR, FL_POS, FL_ZRO, FL_NEG, REG_COUNT, opcode_spec, wrap_add,
    flag_for, dr_of, sr1_of, sr2_of, imm_flag_of, imm5_of, off9_of, trapvect_of,
    lemma_field_bounds,
};
use crate::semantics::{
    State, StepKind, step_kind, step_next, run_n, fetched, halt_message,
    lemma_trap_fetch_not_mapped, add_regs,
};

verus! {

/// The flag-setting opcodes: every arithmetic, bitwise, and load-class
/// instruction.
pub open spec fn is_flag_setting(op: Instruction) -> bool {
    match op {
        Instruction::OPAdd => true,
        Instruction::OPAnd => true,
        Instruction::OPNot => true,
        Instruction::OPLd => true,
        Instruction::OPLdi => true,
        Instruction::OPLdr => true,
        Instruction::OPLea => true,
        _ => false,
    }
}

/// Flag invariant: after any flag-setting instruction, the condition-flag
/// register holds exactly one of the three flag values, and that value is
/// consistent with the signed interpretation of the destination register's
/// new contents: Negative exactly when its high bit is set, Zero exactly
/// when it is zero, Positive exactly otherwise.
pub proof fn lemma_flags_after_step(s: State)
    requires
        s.wf(),
        is_flag_setting(opcode_spec(fetched(s))),
    ensures
        ({
            let v = step_next(s).regs[dr_of(fetched(s)) as int];
            let c = step_next(s).regs[R_COND as int];
            &&& c == flag_for(v)
            &&& (c == FL_NEG || c == FL_ZRO || c == FL_POS)
            &&& (c == FL_NEG <==> v >= 0x8000)
            &&& (c == FL_ZRO <==> v == 0)
            &&& (c == FL_POS <==> 0 < v < 0x8000)
        }),
{
    let instr = fetched(s);
    lemma_field_bounds(instr);
}

/// Additive round trip: a register-mode ADD followed by an immediate-mode ADD
/// into and from the same destination, whose immediate is the negation
/// (modulo 65536) of the register-mode operand, leaves the destination
/// holding the first instruction's first operand again.
pub proof fn lemma_add_round_trip(regs: Seq<u16>, instr1: u16, instr2: u16)
    requires
        regs.len() == REG_COUNT,
        imm_flag_of(instr1) == 0,
        imm_flag_of(instr2) == 1,
        dr_of(instr2) == dr_of(instr1),
        sr1_of(instr2) == dr_of(instr1),
        wrap_add(regs[sr2_of(instr1) as int], imm5_of(instr2)) == 0,
    ensures
        add_regs(add_regs(regs, instr1), instr2)[dr_of(instr1) as int] == regs[sr1_of(
            instr1,
        ) as int],
{
    lemma_field_bounds(instr1);
    lemma_field_bounds(instr2);
    let a = regs[sr1_of(instr1) as int];
    let b = regs[sr2_of(instr1) as int];
    let m = imm5_of(instr2);
    lemma_wrap_add_cancel(a, b, m);
}

/// Adding `b` and then `m` wraps back to the start whenever `b` and `m`
/// cancel modulo 65536.
pub proof fn lemma_wrap_add_cancel(a: u16, b: u16, m: u16)
    requires
        wrap_add(b, m) == 0,
    ensures
        wrap_add(wrap_add(a, b), m) == a,
{
}

/// LDI double indirection: when memory holds `b` at `a` and 7 at `b`, and an
/// indirect-load instruction's offset resolves to `a`, the step leaves the
/// destination register holding 7 (and the machine still running). The two
/// addresses must be ordinary storage, not the intercepted keyboard status
/// address.
pub proof fn lemma_ldi_double_indirection(s: State, a: u16, b: u16)
    requires
        s.wf(),
        opcode_spec(fetched(s)) == Instruction::OPLdi,
        wrap_add(wrap_add(s.regs[R_PC as int], 1), off9_of(fetched(s))) == a,
        a != KBSR,
        b != KBSR,
        s.mem[a as int] == b,
        s.mem[b as int] == 7,
    ensures
        step_kind(s) == StepKind::Running,
        step_next(s).regs[dr_of(fetched(s)) as int] == 7,
{
    let instr = fetched(s);
    lemma_field_bounds(instr);
    assert(0x8000u16 >> 12 == 8) by (bit_vector);
    assert(0u16 >> 12 == 0) by (bit_vector);
    if s.regs[R_PC as int] == KBSR {
        assert(instr == 0x8000 || instr == 0);
        assert(opcode_spec(instr) != Instruction::OPLdi);
    }
}

/// Loop termination on HALT: a step that fetches a halt trap ends the run as
/// `Halted`, and mutates nothing but the program counter (advanced past the
/// trap) and the console output (the shutdown message): memory, the general
/// registers, and the pending input are exactly as before.
pub proof fn lemma_halt_step(s: State)
    requires
        s.wf(),
        opcode_spec(fetched(s)) == Instruction::OPTrap,
        trapvect_of(fetched(s)) == 0x25,
    ensures
        step_kind(s) == StepKind::Halted,
        step_next(s).mem == s.mem,
        step_next(s).keys == s.keys,
        step_next(s).regs == s.regs.update(
            R_PC as int,
            wrap_add(s.regs[R_PC as int], 1),
        ),
        step_next(s).out == s.out.add(halt_message()),
{
    lemma_trap_fetch_not_mapped(s, fetched(s));
    assert(step_next(s).mem =~= s.mem);
    assert(step_next(s).keys =~= s.keys);
}

/// Once a step ends the run — halted, blocked, or faulted — iterating the
/// loop further changes nothing: the state the run stopped in is the state
/// it returns.
pub proof fn lemma_run_frozen(s: State, n: nat, m: nat)
    requires
        n <= m,
        step_kind(run_n(s, n)) != StepKind::Running,
    ensures
        run_n(s, m) == run_n(s, n),
    decreases m,
{
    if m > n {
        lemma_run_frozen(s, n, (m - 1) as nat);
    }
}

} // verus!
