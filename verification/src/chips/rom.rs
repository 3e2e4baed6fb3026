//! The instruction store.

use crate::chips::{is_default, Chip, Wire, Word};
use vstd::prelude::*;

verus! {

/// A store that is written once, when the program is loaded, and read by
/// byte address, a word at a time: the word at `address` shows on `output`
/// one clock edge later.
pub struct ROM<T> {
    pub address: Wire<Word>,
    pub output: Wire<T>,
    pub registers: Vec<T>,
}

impl<T: Copy + Default> View for ROM<T> {
    type V = Seq<T>;

    /// The words of the store, in order.
    open spec fn view(&self) -> Seq<T> {
        self.registers@
    }
}

/// The index of the word that the byte address `addr` lies in.
pub open spec fn word_index(addr: Word) -> int {
    addr as int / 4
}

impl<T: Copy + Default> ROM<T> {
    /// Whether the store has a word at `addr`.
    pub open spec fn holds(&self, addr: Word) -> bool {
        word_index(addr) < self@.len()
    }

    /// A store of `size` words, each the default of `T`.
    pub fn new(output: Wire<T>, address: Wire<Word>, size: usize) -> (rom: Self)
        ensures
            rom.output == output,
            rom.address == address,
            rom@.len() == size,
            forall|i: int| 0 <= i < size ==> is_default(#[trigger] rom@[i]),
    {
        let mut registers: Vec<T> = Vec::with_capacity(size);
        for n in 0..size
            invariant
                registers@.len() == n,
                forall|i: int| 0 <= i < n ==> is_default(#[trigger] registers@[i]),
        {
            registers.push(T::default());
        }
        Self { output, address, registers }
    }

    /// Loads `program` into the store, from word 0 on. What lies behind
    /// the program stays as it was.
    pub fn load(&mut self, program: Vec<T>)
        requires
            program@.len() <= old(self)@.len(),
        ensures
            final(self).address == old(self).address,
            final(self).output == old(self).output,
            final(self)@ == program@ + old(self)@.subrange(
                program@.len() as int,
                old(self)@.len() as int,
            ),
    {
        let n = program.len();
        for k in 0..n
            invariant
                n == program@.len(),
                n <= self@.len(),
                self@.len() == old(self)@.len(),
                self.address == old(self).address,
                self.output == old(self).output,
                forall|i: int| 0 <= i < k ==> self@[i] == program@[i],
                forall|i: int| k <= i < self@.len() ==> self@[i] == old(self)@[i],
        {
            self.registers[k] = program[k];
        }
    }

    /// Tells whether the store has a word at `addr`.
    pub fn contains(&self, addr: Word) -> (b: bool)
        ensures
            b == self.holds(addr),
    {
        (addr as usize) / 4 < self.registers.len()
    }

    /// Reads the word at `addr` at once, past the output port.
    pub fn peek(&self, addr: Word) -> (t: T)
        requires
            self.holds(addr),
        ensures
            t == self@[word_index(addr)],
    {
        self.registers[(addr as usize) / 4]
    }
}

impl<T: Copy + Default> Chip for ROM<T> {
    /// The address on the port is one that the store has.
    open spec fn wf(&self) -> bool {
        self.holds(self.address@)
    }

    /// Nothing is staged: the store reads at the clock edge.
    open spec fn settles_to(&self, next: &Self) -> bool {
        &&& next.address == self.address
        &&& next.output == self.output
        &&& next@ == self@
    }

    open spec fn clocks_to(&self, next: &Self) -> bool {
        &&& next.address == self.address
        &&& next.output@ == self@[word_index(self.address@)]
        &&& next@ == self@
    }

    fn compute(&mut self) {
    }

    fn clk(&mut self) {
        let addr = self.address.get();
        self.output.value = self.registers[(addr as usize) / 4];
    }
}

} // verus!
