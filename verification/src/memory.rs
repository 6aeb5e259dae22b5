//! Memory: 65,536 words of storage, with the keyboard status and data
//! addresses intercepted on reads. The spec functions here give the exact
//! model of a read — what is returned, how storage changes, and which keys
//! are consumed — and every load instruction's contract is phrased over them.

use vstd::prelude::*;
use vstd::pervasive::VecAdditionalExecFns;
use crate::arch::{KBSR, KBDR, MEM_SIZE};
use crate::console::{Console, check_key, get_char};

verus! {

/// The word-addressed memory of one run.
pub struct Memory {
    memory: Vec<u16>,
}

impl View for Memory {
    type V = Seq<u16>;

    closed spec fn view(&self) -> Seq<u16> {
        self.memory@
    }
}

/// Storage after a read at `addr`: a read of the keyboard status address
/// either latches "key ready" and copies the next key into the data address,
/// or clears the status word; every other read leaves storage untouched.
pub open spec fn mem_after_read(mem: Seq<u16>, keys: Seq<u16>, addr: u16) -> Seq<u16> {
    if addr == KBSR {
        if keys.len() > 0 {
            mem.update(KBSR as int, 0x8000u16).update(KBDR as int, keys[0])
        } else {
            mem.update(KBSR as int, 0u16)
        }
    } else {
        mem
    }
}

/// Pending keys after a read at `addr`: a read of the keyboard status address
/// consumes the next key when one is waiting; no other read consumes input.
pub open spec fn keys_after_read(keys: Seq<u16>, addr: u16) -> Seq<u16> {
    if addr == KBSR && keys.len() > 0 {
        keys.skip(1)
    } else {
        keys
    }
}

/// The word a read at `addr` returns: the stored word at `addr`, after the
/// keyboard side effect (if any) has been applied.
pub open spec fn read_value(mem: Seq<u16>, keys: Seq<u16>, addr: u16) -> u16 {
    mem_after_read(mem, keys, addr)[addr as int]
}

impl Memory {
    /// Memory holds exactly one word per address of the 16-bit address space.
    pub open spec fn wf(&self) -> bool {
        self@.len() == MEM_SIZE
    }

    /// A memory of 65,536 words, all zero.
    pub fn new() -> (m: Memory)
        ensures
            m.wf(),
            m@ == Seq::new(MEM_SIZE as nat, |i: int| 0u16),
    {
        let m = Memory { memory: vec![0u16; MEM_SIZE] };
        proof {
            assert(m@ =~= Seq::new(MEM_SIZE as nat, |i: int| 0u16));
        }
        m
    }

    /// Stores `val` at `address` unconditionally; the two mapped addresses
    /// are plain storage for writes.
    pub fn write(&mut self, address: u16, val: u16)
        requires
            old(self).wf(),
        ensures
            final(self).wf(),
            final(self)@ == old(self)@.update(address as int, val),
    {
        proof {
            assert(address < 65536usize) by (bit_vector);
        }
        self.memory.set(address as usize, val);
    }

    /// Reads the word at `address`. A read of the keyboard status address
    /// first polls the console: if a key is pending, the status word's top
    /// bit is set and the key is copied into the keyboard data address; if
    /// not, the status word is cleared. Every other address is returned as
    /// stored.
    pub fn read(&mut self, address: u16, console: &mut Console) -> (r: u16)
        requires
            old(self).wf(),
            old(console).wf(),
        ensures
            final(self).wf(),
            final(console).wf(),
            final(self)@ == mem_after_read(old(self)@, old(console).keys(), address),
            final(console).keys() == keys_after_read(old(console).keys(), address),
            final(console).out() == old(console).out(),
            r == read_value(old(self)@, old(console).keys(), address),
    {
        proof {
            assert(address < 65536usize) by (bit_vector);
        }
        if address == KBSR {
            if check_key(console) {
                let key = get_char(console);
                self.memory.set(KBSR as usize, 0x8000);
                self.memory.set(KBDR as usize, key);
            } else {
                self.memory.set(KBSR as usize, 0);
            }
        }
        self.memory[address as usize]
    }

    /// The word stored at `address`, with no side effect; this is how the
    /// trap routines walk a string already in storage.
    pub fn get(&self, address: u16) -> (r: u16)
        requires
            self.wf(),
        ensures
            r == self@[address as int],
    {
        proof {
            assert(address < 65536usize) by (bit_vector);
        }
        self.memory[address as usize]
    }
}

} // verus!
