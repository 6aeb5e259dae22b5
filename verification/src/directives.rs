//! The per-opcode execution units. The `Directives` trait names one method
//! per opcode that touches the register file, and `Registers` implements it;
//! each method's contract says that the registers (and, for the memory-access
//! instructions, memory and console) change exactly as the corresponding
//! transition of the machine model says.

use vstd::prelude::*;
use crate::arch::{R_PC, R_COND, sign_extend, lemma_field_bounds};
use crate::console::Console;
use crate::memory::Memory;
use crate::semantics::{
    State, machine_state, add_regs, and_regs, not_regs, br_regs, jmp_regs, jsr_regs, lea_regs,
    ld_step, ldr_step, ldi_step, st_step, sti_step, str_step,
};

verus! {

/// One execution unit per opcode that reads or writes the register file.
/// `regs_view` and `regs_wf` name the implementing register file's contents
/// and well-formedness, and every method promises exactly the transition the
/// machine model gives its opcode.
pub trait Directives {
    /// The register-file contents this unit acts on.
    spec fn regs_view(&self) -> Seq<u16>;

    /// The register file holds its ten words.
    spec fn regs_wf(&self) -> bool;

    /// ADD: destination = source one plus (immediate or source two), wrapping
    /// modulo 65536; flags updated.
    fn add(&mut self, instr: u16)
        requires
            old(self).regs_wf(),
        ensures
            final(self).regs_wf(),
            final(self).regs_view() == add_regs(old(self).regs_view(), instr),
    ;

    /// LDI: load through a pointer found at PC plus the 9-bit offset; both
    /// memory reads follow the mapped-read model; flags updated.
    fn ldi(&mut self, instr: u16, memory: &mut Memory, console: &mut Console)
        requires
            old(self).regs_wf(),
            old(memory).wf(),
            old(console).wf(),
        ensures
            final(self).regs_wf(),
            final(memory).wf(),
            final(console).wf(),
            machine_state(final(self).regs_view(), *final(memory), *final(console)) == ldi_step(
                machine_state(old(self).regs_view(), *old(memory), *old(console)),
                instr,
            ),
    ;

    /// AND: destination = source one bitwise-and (immediate or source two);
    /// flags updated.
    fn and(&mut self, instr: u16)
        requires
            old(self).regs_wf(),
        ensures
            final(self).regs_wf(),
            final(self).regs_view() == and_regs(old(self).regs_view(), instr),
    ;

    /// NOT: destination = bitwise complement of source one; flags updated.
    fn not(&mut self, instr: u16)
        requires
            old(self).regs_wf(),
        ensures
            final(self).regs_wf(),
            final(self).regs_view() == not_regs(old(self).regs_view(), instr),
    ;

    /// BR: the PC moves by the 9-bit offset when the instruction's condition
    /// field intersects the current flag.
    fn branch(&mut self, instr: u16)
        requires
            old(self).regs_wf(),
        ensures
            final(self).regs_wf(),
            final(self).regs_view() == br_regs(old(self).regs_view(), instr),
    ;

    /// JMP: the PC is loaded from the base register.
    fn jmp(&mut self, instr: u16)
        requires
            old(self).regs_wf(),
        ensures
            final(self).regs_wf(),
            final(self).regs_view() == jmp_regs(old(self).regs_view(), instr),
    ;

    /// JSR/JSRR: R7 receives the return address, then the PC moves by the
    /// 11-bit offset or is loaded from the base register.
    fn jsr(&mut self, instr: u16)
        requires
            old(self).regs_wf(),
        ensures
            final(self).regs_wf(),
            final(self).regs_view() == jsr_regs(old(self).regs_view(), instr),
    ;

    /// LD: destination = memory at PC plus the 9-bit offset; flags updated.
    fn load(&mut self, instr: u16, memory: &mut Memory, console: &mut Console)
        requires
            old(self).regs_wf(),
            old(memory).wf(),
            old(console).wf(),
        ensures
            final(self).regs_wf(),
            final(memory).wf(),
            final(console).wf(),
            machine_state(final(self).regs_view(), *final(memory), *final(console)) == ld_step(
                machine_state(old(self).regs_view(), *old(memory), *old(console)),
                instr,
            ),
    ;

    /// LDR: destination = memory at base register plus the 6-bit offset;
    /// flags updated.
    fn ldr(&mut self, instr: u16, memory: &mut Memory, console: &mut Console)
        requires
            old(self).regs_wf(),
            old(memory).wf(),
            old(console).wf(),
        ensures
            final(self).regs_wf(),
            final(memory).wf(),
            final(console).wf(),
            machine_state(final(self).regs_view(), *final(memory), *final(console)) == ldr_step(
                machine_state(old(self).regs_view(), *old(memory), *old(console)),
                instr,
            ),
    ;

    /// LEA: destination = PC plus the 9-bit offset; flags updated.
    fn lea(&mut self, instr: u16)
        requires
            old(self).regs_wf(),
        ensures
            final(self).regs_wf(),
            final(self).regs_view() == lea_regs(old(self).regs_view(), instr),
    ;

    /// ST: memory at PC plus the 9-bit offset receives the source register.
    fn store(&self, instr: u16, memory: &mut Memory)
        requires
            self.regs_wf(),
            old(memory).wf(),
        ensures
            final(memory).wf(),
            (State {
                regs: self.regs_view(),
                mem: final(memory)@,
                keys: Seq::empty(),
                out: Seq::empty(),
            }) == st_step(
                (State {
                    regs: self.regs_view(),
                    mem: old(memory)@,
                    keys: Seq::empty(),
                    out: Seq::empty(),
                }),
                instr,
            ),
    ;

    /// STI: the word at PC plus the 9-bit offset is read as an address, and
    /// that address receives the source register.
    fn sti(&self, instr: u16, memory: &mut Memory, console: &mut Console)
        requires
            self.regs_wf(),
            old(memory).wf(),
            old(console).wf(),
        ensures
            final(memory).wf(),
            final(console).wf(),
            machine_state(self.regs_view(), *final(memory), *final(console)) == sti_step(
                machine_state(self.regs_view(), *old(memory), *old(console)),
                instr,
            ),
    ;

    /// STR: memory at base register plus the 6-bit offset receives the source
    /// register.
    fn str(&self, instr: u16, memory: &mut Memory)
        requires
            self.regs_wf(),
            old(memory).wf(),
        ensures
            final(memory).wf(),
            (State {
                regs: self.regs_view(),
                mem: final(memory)@,
                keys: Seq::empty(),
                out: Seq::empty(),
            }) == str_step(
                (State {
                    regs: self.regs_view(),
                    mem: old(memory)@,
                    keys: Seq::empty(),
                    out: Seq::empty(),
                }),
                instr,
            ),
    ;
}

impl Directives for crate::registers::Registers {
    open spec fn regs_view(&self) -> Seq<u16> {
        self@
    }

    open spec fn regs_wf(&self) -> bool {
        self.wf()
    }

    fn add(&mut self, instr: u16) {
        proof {
            lemma_field_bounds(instr);
        }
        let r0 = (instr >> 9) & 0x7;
        let r1 = (instr >> 6) & 0x7;
        let imm_flag = (instr >> 5) & 0x1;
        if imm_flag == 1 {
            let imm5 = sign_extend(instr & 0x1F, 5);
            let v = self.get(r1).wrapping_add(imm5);
            self.update_reg(r0, v);
        } else {
            let r2 = instr & 0x7;
            let v = self.get(r1).wrapping_add(self.get(r2));
            self.update_reg(r0, v);
        }
        self.update_flags(r0);
        proof {
            assert(self@ =~= add_regs(old(self)@, instr));
        }
    }

    fn ldi(&mut self, instr: u16, memory: &mut Memory, console: &mut Console) {
        proof {
            lemma_field_bounds(instr);
        }
        let r0 = (instr >> 9) & 0x7;
        let pc_offset = sign_extend(instr & 0x1FF, 9);
        let a1 = self.get(R_PC).wrapping_add(pc_offset);
        let a2 = memory.read(a1, console);
        let v = memory.read(a2, console);
        self.update_reg(r0, v);
        self.update_flags(r0);
        proof {
            assert(machine_state(self@, *memory, *console) =~= ldi_step(
                machine_state(old(self)@, *old(memory), *old(console)),
                instr,
            ));
        }
    }

    fn and(&mut self, instr: u16) {
        proof {
            lemma_field_bounds(instr);
        }
        let r0 = (instr >> 9) & 0x7;
        let r1 = (instr >> 6) & 0x7;
        let imm_flag = (instr >> 5) & 0x1;
        if imm_flag == 1 {
            let imm5 = sign_extend(instr & 0x1F, 5);
            let v = self.get(r1) & imm5;
            self.update_reg(r0, v);
        } else {
            let r2 = instr & 0x7;
            let v = self.get(r1) & self.get(r2);
            self.update_reg(r0, v);
        }
        self.update_flags(r0);
        proof {
            assert(self@ =~= and_regs(old(self)@, instr));
        }
    }

    fn not(&mut self, instr: u16) {
        proof {
            lemma_field_bounds(instr);
        }
        let r0 = (instr >> 9) & 0x7;
        let r1 = (instr >> 6) & 0x7;
        let v = !self.get(r1);
        self.update_reg(r0, v);
        self.update_flags(r0);
        proof {
            assert(self@ =~= not_regs(old(self)@, instr));
        }
    }

    fn branch(&mut self, instr: u16) {
        proof {
            lemma_field_bounds(instr);
        }
        let pc_offset = sign_extend(instr & 0x1FF, 9);
        let cond_flag = (instr >> 9) & 0x7;
        if cond_flag & self.get(R_COND) != 0 {
            self.increment_pc(pc_offset);
        }
        proof {
            assert(self@ =~= br_regs(old(self)@, instr));
        }
    }

    fn jmp(&mut self, instr: u16) {
        proof {
            lemma_field_bounds(instr);
        }
        let r1 = (instr >> 6) & 0x7;
        let target = self.get(r1);
        self.update_reg(R_PC, target);
        proof {
            assert(self@ =~= jmp_regs(old(self)@, instr));
        }
    }

    fn jsr(&mut self, instr: u16) {
        proof {
            lemma_field_bounds(instr);
        }
        let long_flag = (instr >> 11) & 0x1;
        let pc = self.get(R_PC);
        self.update_reg(7, pc);
        if long_flag == 1 {
            let long_pc_offset = sign_extend(instr & 0x7FF, 11);
            self.increment_pc(long_pc_offset);
        } else {
            let r1 = (instr >> 6) & 0x7;
            let target = self.get(r1);
            self.update_reg(R_PC, target);
        }
        proof {
            assert(self@ =~= jsr_regs(old(self)@, instr));
        }
    }

    fn load(&mut self, instr: u16, memory: &mut Memory, console: &mut Console) {
        proof {
            lemma_field_bounds(instr);
        }
        let r0 = (instr >> 9) & 0x7;
        let pc_offset = sign_extend(instr & 0x1FF, 9);
        let a = self.get(R_PC).wrapping_add(pc_offset);
        let v = memory.read(a, console);
        self.update_reg(r0, v);
        self.update_flags(r0);
        proof {
            assert(machine_state(self@, *memory, *console) =~= ld_step(
                machine_state(old(self)@, *old(memory), *old(console)),
                instr,
            ));
        }
    }

    fn ldr(&mut self, instr: u16, memory: &mut Memory, console: &mut Console) {
        proof {
            lemma_field_bounds(instr);
        }
        let r0 = (instr >> 9) & 0x7;
        let r1 = (instr >> 6) & 0x7;
        let offset = sign_extend(instr & 0x3F, 6);
        let a = self.get(r1).wrapping_add(offset);
        let v = memory.read(a, console);
        self.update_reg(r0, v);
        self.update_flags(r0);
        proof {
            assert(machine_state(self@, *memory, *console) =~= ldr_step(
                machine_state(old(self)@, *old(memory), *old(console)),
                instr,
            ));
        }
    }

    fn lea(&mut self, instr: u16) {
        proof {
            lemma_field_bounds(instr);
        }
        let r0 = (instr >> 9) & 0x7;
        let pc_offset = sign_extend(instr & 0x1FF, 9);
        let v = self.get(R_PC).wrapping_add(pc_offset);
        self.update_reg(r0, v);
        self.update_flags(r0);
        proof {
            assert(self@ =~= lea_regs(old(self)@, instr));
        }
    }

    fn store(&self, instr: u16, memory: &mut Memory) {
        proof {
            lemma_field_bounds(instr);
        }
        let r0 = (instr >> 9) & 0x7;
        let pc_offset = sign_extend(instr & 0x1FF, 9);
        let a = self.get(R_PC).wrapping_add(pc_offset);
        memory.write(a, self.get(r0));
        proof {
            assert((State {
                regs: self@,
                mem: memory@,
                keys: Seq::<u16>::empty(),
                out: Seq::<u16>::empty(),
            }) =~= st_step(
                (State {
                    regs: self@,
                    mem: old(memory)@,
                    keys: Seq::<u16>::empty(),
                    out: Seq::<u16>::empty(),
                }),
                instr,
            ));
        }
    }

    fn sti(&self, instr: u16, memory: &mut Memory, console: &mut Console) {
        proof {
            lemma_field_bounds(instr);
        }
        let r0 = (instr >> 9) & 0x7;
        let pc_offset = sign_extend(instr & 0x1FF, 9);
        let a1 = self.get(R_PC).wrapping_add(pc_offset);
        let ind = memory.read(a1, console);
        memory.write(ind, self.get(r0));
        proof {
            assert(machine_state(self@, *memory, *console) =~= sti_step(
                machine_state(self@, *old(memory), *old(console)),
                instr,
            ));
        }
    }

    fn str(&self, instr: u16, memory: &mut Memory) {
        proof {
            lemma_field_bounds(instr);
        }
        let r0 = (instr >> 9) & 0x7;
        let r1 = (instr >> 6) & 0x7;
        let offset = sign_extend(instr & 0x3F, 6);
        let a = self.get(r1).wrapping_add(offset);
        memory.write(a, self.get(r0));
        proof {
            assert((State {
                regs: self@,
                mem: memory@,
                keys: Seq::<u16>::empty(),
                out: Seq::<u16>::empty(),
            }) =~= str_step(
                (State {
                    regs: self@,
                    mem: old(memory)@,
                    keys: Seq::<u16>::empty(),
                    out: Seq::<u16>::empty(),
                }),
                instr,
            ));
        }
    }
}

} // verus!
