//! The trap dispatcher's routines: character and string console output,
//! keyboard input with and without echo, and the halt message. Each routine's
//! contract says exactly what it appends to the console output and what it
//! consumes from the keyboard queue, in terms of the machine model.

use vstd::prelude::*;
use crate::arch::MEM_SIZE;
use crate::console::{Console, get_char};
use crate::memory::Memory;
use crate::registers::Registers;
use crate::semantics::{puts_seq, putsp_seq, halt_message};

verus! {

/// GETC: reads one keyboard character into R0, without echo and without a
/// flag update. The caller (the step function) blocks instead of calling this
/// when no key is pending.
pub fn getc(regs: &mut Registers, console: &mut Console)
    requires
        old(regs).wf(),
        old(console).wf(),
        old(console).keys().len() > 0,
    ensures
        final(regs).wf(),
        final(console).wf(),
        final(regs)@ == old(regs)@.update(0, old(console).keys()[0]),
        final(console).keys() == old(console).keys().skip(1),
        final(console).out() == old(console).out(),
{
    let c = get_char(console);
    regs.update_reg(0, c);
}

/// IN: echoes the next keyboard character to the console output, then stores
/// it in R0 and consumes it. The caller blocks instead of calling this when
/// no key is pending.
pub fn trap_in(regs: &mut Registers, console: &mut Console)
    requires
        old(regs).wf(),
        old(console).wf(),
        old(console).keys().len() > 0,
    ensures
        final(regs).wf(),
        final(console).wf(),
        final(regs)@ == old(regs)@.update(0, old(console).keys()[0]),
        final(console).keys() == old(console).keys().skip(1),
        final(console).out() == old(console).out().push(old(console).keys()[0]),
{
    let c = get_char(console);
    console.put_char(c);
    regs.update_reg(0, c);
}

/// OUT: writes the character in the low byte of R0 to the console output.
pub fn trap_out(regs: &Registers, console: &mut Console)
    requires
        regs.wf(),
        old(console).wf(),
    ensures
        final(console).wf(),
        final(console).keys() == old(console).keys(),
        final(console).out() == old(console).out().push(regs@[0] & 0xFF),
{
    let c = regs.get(0) & 0xFF;
    proof {
        let v = regs@[0];
        assert(v & 0xFF < 256) by (bit_vector);
    }
    console.put_char(c);
}

/// PUTS: treats R0 as the address of a zero-terminated word string and writes
/// one character per word (its low byte) to the console output.
pub fn puts(regs: &Registers, memory: &Memory, console: &mut Console)
    requires
        regs.wf(),
        memory.wf(),
        old(console).wf(),
    ensures
        final(console).wf(),
        final(console).keys() == old(console).keys(),
        final(console).out() == old(console).out().add(puts_seq(memory@, regs@[0] as int)),
{
    let start = regs.get(0);
    let mut a: usize = start as usize;
    proof {
        assert(start < 65536usize) by (bit_vector);
    }
    loop
        invariant
            memory.wf(),
            console.wf(),
            a <= MEM_SIZE,
            console.keys() == old(console).keys(),
            old(console).out().add(puts_seq(memory@, start as int)) =~= console.out().add(
                puts_seq(memory@, a as int),
            ),
        ensures
            console.wf(),
            console.keys() == old(console).keys(),
            console.out() =~= old(console).out().add(puts_seq(memory@, start as int)),
        decreases MEM_SIZE - a,
    {
        if a >= MEM_SIZE {
            proof {
                assert(puts_seq(memory@, a as int) =~= Seq::<u16>::empty());
                assert(console.out().add(Seq::<u16>::empty()) =~= console.out());
            }
            break;
        }
        let w = memory.get(a as u16);
        if w == 0 {
            proof {
                assert(puts_seq(memory@, a as int) =~= Seq::<u16>::empty());
                assert(console.out().add(Seq::<u16>::empty()) =~= console.out());
            }
            break;
        }
        proof {
            assert(w & 0xFF < 256) by (bit_vector);
            assert(puts_seq(memory@, a as int) =~= seq![w & 0xFF].add(
                puts_seq(memory@, a + 1 as int),
            ));
            assert(console.out().add(puts_seq(memory@, a as int)) =~= console.out().push(
                w & 0xFF,
            ).add(puts_seq(memory@, a + 1 as int)));
        }
        console.put_char(w & 0xFF);
        a = a + 1;
    }
}

/// PUTSP: treats R0 as the address of a byte-packed string (two characters a
/// word, low byte first, ended by a zero byte) and writes its characters to
/// the console output.
pub fn putsp(regs: &Registers, memory: &Memory, console: &mut Console)
    requires
        regs.wf(),
        memory.wf(),
        old(console).wf(),
    ensures
        final(console).wf(),
        final(console).keys() == old(console).keys(),
        final(console).out() == old(console).out().add(putsp_seq(memory@, regs@[0] as int)),
{
    let start = regs.get(0);
    let mut a: usize = start as usize;
    proof {
        assert(start < 65536usize) by (bit_vector);
    }
    loop
        invariant_except_break
            memory.wf(),
            console.wf(),
            a <= MEM_SIZE,
            console.keys() == old(console).keys(),
            old(console).out().add(putsp_seq(memory@, start as int)) =~= console.out().add(
                putsp_seq(memory@, a as int),
            ),
        ensures
            console.wf(),
            console.keys() == old(console).keys(),
            console.out() =~= old(console).out().add(putsp_seq(memory@, start as int)),
        decreases MEM_SIZE - a,
    {
        if a >= MEM_SIZE {
            proof {
                assert(putsp_seq(memory@, a as int) =~= Seq::<u16>::empty());
                assert(console.out().add(Seq::<u16>::empty()) =~= console.out());
            }
            break;
        }
        let w = memory.get(a as u16);
        let lo = w & 0xFF;
        let hi = w >> 8;
        proof {
            assert(w & 0xFF < 256 && w >> 8 < 256) by (bit_vector);
        }
        if lo == 0 {
            proof {
                assert(putsp_seq(memory@, a as int) =~= Seq::<u16>::empty());
                assert(console.out().add(Seq::<u16>::empty()) =~= console.out());
            }
            break;
        }
        console.put_char(lo);
        if hi == 0 {
            proof {
                assert(putsp_seq(memory@, a as int) =~= seq![lo]);
                assert(old(console).out().add(putsp_seq(memory@, start as int)) =~= console.out());
            }
            break;
        }
        proof {
            assert(putsp_seq(memory@, a as int) =~= seq![lo, hi].add(
                putsp_seq(memory@, a + 1 as int),
            ));
            assert(console.out().push(hi).add(putsp_seq(memory@, a + 1 as int))
                =~= old(console).out().add(putsp_seq(memory@, start as int)));
        }
        console.put_char(hi);
        a = a + 1;
    }
}

/// HALT: writes the shutdown message to the console output; the step function
/// then reports the machine halted.
pub fn halt(console: &mut Console)
    requires
        old(console).wf(),
    ensures
        final(console).wf(),
        final(console).keys() == old(console).keys(),
        final(console).out() == old(console).out().add(halt_message()),
{
    console.put_char(72);
    console.put_char(65);
    console.put_char(76);
    console.put_char(84);
    proof {
        assert(console.out() =~= old(console).out().add(halt_message()));
    }
}

} // verus!
