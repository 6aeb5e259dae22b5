//! The execution loop: one fetch-decode-execute step, and a bounded run of
//! steps. Both are specified exactly by the machine model's `step_res` and
//! `run_n`, so every behaviour of the loop — which instruction ran, how the
//! machine changed, why the loop stopped — is pinned to the model.

use vstd::prelude::*;
use crate::arch::{R_PC, Instruction, TrapCode, decode};
use crate::console::{Console, check_key};
use crate::directives::Directives;
use crate::memory::Memory;
use crate::registers::Registers;
use crate::semantics::{
    State, StepKind, machine_state, step_kind, step_next, run_n, after_fetch, fetched,
    getc_step, in_step, lemma_trap_fetch_not_mapped,
};
use crate::traps::{getc, trap_in, trap_out, puts, putsp, halt};

verus! {

/// What a bounded run reports: `Running` when the step budget ran out with
/// the machine still going; otherwise the kind of the step that stopped it,
/// with `n` steps completed before it.
pub open spec fn run_result(s0: State, sf: State, k: StepKind, n: int, max_steps: int) -> bool {
    &&& 0 <= n <= max_steps
    &&& forall|m: int| 0 <= m < n ==> step_kind(#[trigger] run_n(s0, m as nat)) == StepKind::Running
    &&& if k == StepKind::Running {
        n == max_steps && sf == run_n(s0, n as nat)
    } else {
        n < max_steps && k == step_kind(run_n(s0, n as nat)) && sf == step_next(run_n(s0, n as nat))
    }
}

/// One step of the execution loop: fetch the word at the PC (a mapped read),
/// advance the PC, decode, and dispatch to the matching execution unit or
/// trap routine. Returns how the step ended; the machine changes exactly as
/// the model's `step_res` says, and in particular a blocked step (keyboard
/// trap with no key pending) leaves the machine untouched.
pub fn step(regs: &mut Registers, memory: &mut Memory, console: &mut Console) -> (k: StepKind)
    requires
        old(regs).wf(),
        old(memory).wf(),
        old(console).wf(),
    ensures
        final(regs).wf(),
        final(memory).wf(),
        final(console).wf(),
        k == step_kind(machine_state(old(regs)@, *old(memory), *old(console))),
        machine_state(final(regs)@, *final(memory), *final(console)) == step_next(
            machine_state(old(regs)@, *old(memory), *old(console)),
        ),
{
    let ghost s0 = machine_state(old(regs)@, *old(memory), *old(console));
    let pc = regs.get(R_PC);
    let instr = memory.read(pc, console);
    regs.increment_pc(1);
    proof {
        assert(instr == fetched(s0));
        assert(machine_state(regs@, *memory, *console) =~= after_fetch(s0));
    }
    let ghost s1 = after_fetch(s0);
    let op = decode(instr);
    match op {
        Instruction::OPBr => {
            regs.branch(instr);
            proof {
                assert(machine_state(regs@, *memory, *console) =~= step_next(s0));
            }
            StepKind::Running
        },
        Instruction::OPAdd => {
            regs.add(instr);
            proof {
                assert(machine_state(regs@, *memory, *console) =~= step_next(s0));
            }
            StepKind::Running
        },
        Instruction::OPLd => {
            regs.load(instr, memory, console);
            proof {
                assert(machine_state(regs@, *memory, *console) =~= step_next(s0));
            }
            StepKind::Running
        },
        Instruction::OPSt => {
            regs.store(instr, memory);
            proof {
                assert(machine_state(regs@, *memory, *console) =~= step_next(s0));
            }
            StepKind::Running
        },
        Instruction::OPJsr => {
            regs.jsr(instr);
            proof {
                assert(machine_state(regs@, *memory, *console) =~= step_next(s0));
            }
            StepKind::Running
        },
        Instruction::OPAnd => {
            regs.and(instr);
            proof {
                assert(machine_state(regs@, *memory, *console) =~= step_next(s0));
            }
            StepKind::Running
        },
        Instruction::OPLdr => {
            regs.ldr(instr, memory, console);
            proof {
                assert(machine_state(regs@, *memory, *console) =~= step_next(s0));
            }
            StepKind::Running
        },
        Instruction::OPStr => {
            regs.str(instr, memory);
            proof {
                assert(machine_state(regs@, *memory, *console) =~= step_next(s0));
            }
            StepKind::Running
        },
        Instruction::OPRti => {
            proof {
                assert(machine_state(regs@, *memory, *console) =~= step_next(s0));
            }
            StepKind::Fault
        },
        Instruction::OPNot => {
            regs.not(instr);
            proof {
                assert(machine_state(regs@, *memory, *console) =~= step_next(s0));
            }
            StepKind::Running
        },
        Instruction::OPLdi => {
            regs.ldi(instr, memory, console);
            proof {
                assert(machine_state(regs@, *memory, *console) =~= step_next(s0));
            }
            StepKind::Running
        },
        Instruction::OPSti => {
            regs.sti(instr, memory, console);
            proof {
                assert(machine_state(regs@, *memory, *console) =~= step_next(s0));
            }
            StepKind::Running
        },
        Instruction::OPJmp => {
            regs.jmp(instr);
            proof {
                assert(machine_state(regs@, *memory, *console) =~= step_next(s0));
            }
            StepKind::Running
        },
        Instruction::OPRes => {
            proof {
                assert(machine_state(regs@, *memory, *console) =~= step_next(s0));
            }
            StepKind::Fault
        },
        Instruction::OPLea => {
            regs.lea(instr);
            proof {
                assert(machine_state(regs@, *memory, *console) =~= step_next(s0));
            }
            StepKind::Running
        },
        Instruction::OPTrap => {
            proof {
                lemma_trap_fetch_not_mapped(s0, instr);
            }
            match TrapCode::from_vector(instr & 0xFF) {
                Some(TrapCode::TrapGetc) => {
                    if check_key(console) {
                        getc(regs, console);
                        proof {
                            assert(machine_state(regs@, *memory, *console) =~= getc_step(s1));
                        }
                        StepKind::Running
                    } else {
                        regs.update_reg(R_PC, pc);
                        proof {
                            assert(machine_state(regs@, *memory, *console) =~= s0);
                        }
                        StepKind::Blocked
                    }
                },
                Some(TrapCode::TrapOut) => {
                    trap_out(regs, console);
                    proof {
                        assert(machine_state(regs@, *memory, *console) =~= step_next(s0));
                    }
                    StepKind::Running
                },
                Some(TrapCode::TrapPuts) => {
                    puts(regs, memory, console);
                    proof {
                        assert(machine_state(regs@, *memory, *console) =~= step_next(s0));
                    }
                    StepKind::Running
                },
                Some(TrapCode::TrapIn) => {
                    if check_key(console) {
                        trap_in(regs, console);
                        proof {
                            assert(machine_state(regs@, *memory, *console) =~= in_step(s1));
                        }
                        StepKind::Running
                    } else {
                        regs.update_reg(R_PC, pc);
                        proof {
                            assert(machine_state(regs@, *memory, *console) =~= s0);
                        }
                        StepKind::Blocked
                    }
                },
                Some(TrapCode::TrapPutsp) => {
                    putsp(regs, memory, console);
                    proof {
                        assert(machine_state(regs@, *memory, *console) =~= step_next(s0));
                    }
                    StepKind::Running
                },
                Some(TrapCode::TrapHalt) => {
                    halt(console);
                    proof {
                        assert(machine_state(regs@, *memory, *console) =~= step_next(s0));
                    }
                    StepKind::Halted
                },
                None => {
                    proof {
                        assert(machine_state(regs@, *memory, *console) =~= step_next(s0));
                    }
                    StepKind::Fault
                },
            }
        },
    }
}

/// Runs the execution loop for at most `max_steps` steps. Returns `Running`
/// when the budget was exhausted with the machine still going, and otherwise
/// the kind of the step that stopped the run: `Halted` on the HALT trap,
/// `Blocked` on a keyboard trap with no key pending (the machine is then
/// exactly as it was before that step, so the caller can supply input and run
/// again), and `Fault` on a reserved opcode or unsupported trap vector.
pub fn run(regs: &mut Registers, memory: &mut Memory, console: &mut Console, max_steps: u64) -> (k:
    StepKind)
    requires
        old(regs).wf(),
        old(memory).wf(),
        old(console).wf(),
    ensures
        final(regs).wf(),
        final(memory).wf(),
        final(console).wf(),
        exists|n: int|
            #[trigger] run_result(
                machine_state(old(regs)@, *old(memory), *old(console)),
                machine_state(final(regs)@, *final(memory), *final(console)),
                k,
                n,
                max_steps as int,
            ),
{
    let ghost s0 = machine_state(regs@, *memory, *console);
    let mut i: u64 = 0;
    while i < max_steps
        invariant
            regs.wf(),
            memory.wf(),
            console.wf(),
            i <= max_steps,
            s0 == machine_state(old(regs)@, *old(memory), *old(console)),
            machine_state(regs@, *memory, *console) == run_n(s0, i as nat),
            forall|m: int| 0 <= m < i ==> step_kind(#[trigger] run_n(s0, m as nat))
                == StepKind::Running,
        decreases max_steps - i,
    {
        let k = step(regs, memory, console);
        if k != StepKind::Running {
            proof {
                assert(run_result(
                    s0,
                    machine_state(regs@, *memory, *console),
                    k,
                    i as int,
                    max_steps as int,
                ));
            }
            return k;
        }
        proof {
            assert(run_n(s0, (i + 1) as nat) == step_next(run_n(s0, i as nat)));
        }
        i = i + 1;
    }
    proof {
        assert(run_result(
            s0,
            machine_state(regs@, *memory, *console),
            StepKind::Running,
            max_steps as int,
            max_steps as int,
        ));
    }
    StepKind::Running
}

} // verus!
