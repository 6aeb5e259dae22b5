//! The console collaborator: a queue of pending keyboard characters and the
//! stream of characters written so far. The core polls and consumes keys and
//! appends output through this type only, so a run's whole interaction with
//! the console is a pair of word sequences.

use vstd::prelude::*;

verus! {

/// The abstract console: pending keyboard input (front of `input` is the next
/// key) and everything written to the output so far. Character codes are
/// single bytes widened to words, so every word held here is below 256.
pub struct Console {
    input: Vec<u16>,
    output: Vec<u16>,
}

impl Console {
    /// The pending keyboard characters, next key first.
    pub closed spec fn keys(&self) -> Seq<u16> {
        self.input@
    }

    /// The characters written to the console output so far, oldest first.
    pub closed spec fn out(&self) -> Seq<u16> {
        self.output@
    }

    /// Every queued key and every output character is a byte value.
    pub closed spec fn wf(&self) -> bool {
        &&& forall|i: int| 0 <= i < self.input@.len() ==> self.input@[i] < 256
        &&& forall|i: int| 0 <= i < self.output@.len() ==> self.output@[i] < 256
    }

    /// A console with the given pending input and nothing written yet.
    pub fn new(input: Vec<u16>) -> (c: Console)
        requires
            forall|i: int| 0 <= i < input@.len() ==> input@[i] < 256,
        ensures
            c.wf(),
            c.keys() == input@,
            c.out() == Seq::<u16>::empty(),
    {
        let c = Console { input, output: Vec::new() };
        proof {
            assert(c.out() =~= Seq::<u16>::empty());
        }
        c
    }

    /// Appends one character to the pending keyboard input.
    pub fn push_key(&mut self, key: u16)
        requires
            old(self).wf(),
            key < 256,
        ensures
            final(self).wf(),
            final(self).keys() == old(self).keys().push(key),
            final(self).out() == old(self).out(),
    {
        self.input.push(key);
    }

    /// Appends one character to the console output.
    pub fn put_char(&mut self, c: u16)
        requires
            old(self).wf(),
            c < 256,
        ensures
            final(self).wf(),
            final(self).keys() == old(self).keys(),
            final(self).out() == old(self).out().push(c),
    {
        self.output.push(c);
    }

    /// The characters written so far, for a caller that displays or checks
    /// them.
    pub fn output_chars(&self) -> (r: &Vec<u16>)
        ensures
            r@ == self.out(),
    {
        &self.output
    }
}

/// Polls the keyboard: true when a character is waiting to be read.
pub fn check_key(console: &Console) -> (r: bool)
    ensures
        r == (console.keys().len() > 0),
{
    console.keys_pending() > 0
}

/// Reads the next pending keyboard character, consuming it.
pub fn get_char(console: &mut Console) -> (r: u16)
    requires
        old(console).wf(),
        old(console).keys().len() > 0,
    ensures
        final(console).wf(),
        r == old(console).keys()[0],
        r < 256,
        final(console).keys() == old(console).keys().skip(1),
        final(console).out() == old(console).out(),
{
    console.pop_key()
}

impl Console {
    /// How many keyboard characters are waiting.
    pub fn keys_pending(&self) -> (n: usize)
        ensures
            n == self.keys().len(),
    {
        self.input.len()
    }

    /// Removes and returns the next pending keyboard character.
    pub fn pop_key(&mut self) -> (r: u16)
        requires
            old(self).wf(),
            old(self).keys().len() > 0,
        ensures
            final(self).wf(),
            r == old(self).keys()[0],
            r < 256,
            final(self).keys() == old(self).keys().skip(1),
            final(self).out() == old(self).out(),
    {
        let r = self.input.remove(0);
        proof {
            assert(self.input@ =~= old(self).input@.skip(1));
        }
        r
    }
}

} // verus!
