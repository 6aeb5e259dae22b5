//! The register file: eight general-purpose registers, the program counter,
//! and the condition-flag register, with the flag-update and PC-increment
//! operations every execution unit is built on.

use vstd::prelude::*;
use vstd::pervasive::VecAdditionalExecFns;
use crate::arch::{REG_COUNT, R_PC, R_COND, FL_POS, FL_ZRO, FL_NEG, flag_for, wrap_add};

verus! {

/// The register file of one run, indexed 0-7 for the general registers, 8
/// for the program counter, and 9 for the condition flags.
pub struct Registers {
    reg: Vec<u16>,
}

impl View for Registers {
    type V = Seq<u16>;

    closed spec fn view(&self) -> Seq<u16> {
        self.reg@
    }
}

impl Registers {
    /// The register file holds exactly ten words.
    pub open spec fn wf(&self) -> bool {
        self@.len() == REG_COUNT
    }

    /// A register file with every register zero.
    pub fn new() -> (r: Registers)
        ensures
            r.wf(),
            r@ == Seq::new(REG_COUNT as nat, |i: int| 0u16),
    {
        let r = Registers { reg: vec![0u16; REG_COUNT] };
        proof {
            assert(r@ =~= Seq::new(REG_COUNT as nat, |i: int| 0u16));
        }
        r
    }

    /// The current value of register `index`.
    pub fn get(&self, index: u16) -> (v: u16)
        requires
            self.wf(),
            index < REG_COUNT,
        ensures
            v == self@[index as int],
    {
        self.reg[index as usize]
    }

    /// Overwrites register `index` with `val`.
    pub fn update_reg(&mut self, index: u16, val: u16)
        requires
            old(self).wf(),
            index < REG_COUNT,
        ensures
            final(self).wf(),
            final(self)@ == old(self)@.update(index as int, val),
    {
        self.reg.set(index as usize, val);
    }

    /// Sets the condition-flag register from the general register at `index`:
    /// zero gives the Zero flag, a set high bit gives Negative, anything else
    /// gives Positive.
    pub fn update_flags(&mut self, r: u16)
        requires
            old(self).wf(),
            r < 8,
        ensures
            final(self).wf(),
            final(self)@ == old(self)@.update(R_COND as int, flag_for(old(self)@[r as int])),
    {
        let v = self.reg[r as usize];
        if v == 0 {
            self.reg.set(R_COND as usize, FL_ZRO);
        } else if (v >> 15) > 0 {
            proof {
                assert(v >> 15 > 0 ==> v >= 0x8000) by (bit_vector);
            }
            self.reg.set(R_COND as usize, FL_NEG);
        } else {
            proof {
                assert(!(v >> 15 > 0) ==> v < 0x8000) by (bit_vector);
            }
            self.reg.set(R_COND as usize, FL_POS);
        }
    }

    /// Adds an already sign-extended offset to the program counter, wrapping
    /// modulo 65536.
    pub fn increment_pc(&mut self, val: u16)
        requires
            old(self).wf(),
        ensures
            final(self).wf(),
            final(self)@ == old(self)@.update(R_PC as int, wrap_add(old(self)@[R_PC as int], val)),
    {
        let pc = self.reg[R_PC as usize];
        self.reg.set(R_PC as usize, pc.wrapping_add(val));
    }
}

} // verus!
