//! The fetch stage: it puts the program counter on the address of the
//! instruction store.

use crate::chips::rom::ROM;
use crate::chips::{wire, Chip, Wire, Word};
use vstd::prelude::*;

verus! {

/// The instruction store behind the wire that carries the program
/// counter. The word that the counter points at shows one clock edge
/// after `compute`.
pub struct Fetch {
    pub pc: Wire<Word>,
    pub rom: ROM<Word>,
}

impl Fetch {
    /// The instruction word that the stage shows.
    pub open spec fn output(&self) -> Word {
        self.rom.output@
    }

    /// A fetch stage over the store `rom`, which holds the program.
    pub fn new(pc: Wire<Word>, rom: ROM<Word>) -> (f: Self)
        ensures
            f.pc == pc,
            f.rom == rom,
    {
        Self { pc, rom }
    }

    /// Reads the instruction word.
    pub fn value(&self) -> (w: Word)
        ensures
            w == self.output(),
    {
        self.rom.output.get()
    }
}

impl Chip for Fetch {
    /// The store has a word where the counter points, and one at the
    /// address that it has on its port.
    open spec fn wf(&self) -> bool {
        &&& self.rom.holds(self.pc@)
        &&& self.rom.holds(self.rom.address@)
    }

    /// The counter is put on the address of the store.
    open spec fn settles_to(&self, next: &Self) -> bool {
        &&& next.pc == self.pc
        &&& next.rom.address == self.pc
        &&& next.rom.output == self.rom.output
        &&& next.rom@ == self.rom@
    }

    /// The store shows the word at its address.
    open spec fn clocks_to(&self, next: &Self) -> bool {
        &&& next.pc == self.pc
        &&& self.rom.clocks_to(&next.rom)
    }

    fn compute(&mut self) {
        self.rom.address = wire(self.pc.get());
        self.rom.compute();
    }

    fn clk(&mut self) {
        self.rom.clk();
    }
}

} // verus!
