//! The memory that the core sees: the data store, and above it the
//! addresses that lead to the screen.

use crate::chips::ram::{lemma_ram_cycle, lemma_ram_idle_edge, RAM};
use crate::chips::rom::word_index;
use crate::chips::{wire, Chip, Wire, Word};
use vstd::prelude::*;

verus! {

/// The first address of the screen: 4 MiB.
pub const SCREEN: Word = 0x40_0000;

/// The wires that lead to the screen. What stands on them after a cycle of
/// the memory is for the host to show: with `load` set, the word `input`
/// goes to `address`, counted from the start of the screen.
pub struct ScreenPort {
    pub input: Wire<Word>,
    pub address: Wire<Word>,
    pub load: Wire<bool>,
}

/// The data store behind one set of ports, together with the wires to the
/// screen. An access at `SCREEN` or above never reaches the store: a
/// store there is handed to the screen, which cannot be read back.
pub struct Memory {
    pub input: Wire<Word>,
    pub address: Wire<Word>,
    pub load: Wire<bool>,
    pub screen: ScreenPort,
    pub ram: RAM<Word>,
}

impl Memory {
    /// The word that the memory shows: the output of the data store.
    pub open spec fn output(&self) -> Word {
        self.ram.output@
    }

    /// Whether an access at `addr` can be served: the address leads to
    /// the screen, or the data store has a word there.
    pub open spec fn serves(&self, addr: Word) -> bool {
        addr >= SCREEN || self.ram.holds(addr)
    }

    /// The words of the data store, in order.
    pub open spec fn words(&self) -> Seq<Word> {
        self.ram.words()
    }

    /// Whether the register that the data store commits next has nothing
    /// staged that it does not hold already.
    pub open spec fn quiet(&self) -> bool {
        self.ram.quiet()
    }

    /// A memory on the given wires, over the data store `ram`. Its output
    /// is the output of `ram`.
    pub fn new(input: Wire<Word>, address: Wire<Word>, load: Wire<bool>, ram: RAM<Word>) -> (m:
        Self)
        ensures
            m.input == input,
            m.address == address,
            m.load == load,
            m.ram == ram,
            m.screen.input@ == 0,
            m.screen.address@ == 0,
            !m.screen.load@,
    {
        Self {
            input,
            address,
            load,
            screen: ScreenPort { input: wire(0), address: wire(0), load: wire(false) },
            ram,
        }
    }

    /// Tells whether an access at `addr` can be served.
    pub fn can_serve(&self, addr: Word) -> (b: bool)
        ensures
            b == self.serves(addr),
    {
        addr >= SCREEN || self.ram.contains(addr)
    }

    /// Reads the output.
    pub fn value(&self) -> (w: Word)
        ensures
            w == self.output(),
    {
        self.ram.output.get()
    }
}

impl Chip for Memory {
    /// The address on the port can be served, and the data store is in
    /// working order.
    open spec fn wf(&self) -> bool {
        &&& self.serves(self.address@)
        &&& self.ram.wf()
    }

    /// Below `SCREEN` the data store takes the ports of the memory and
    /// settles, and the screen is told that nothing is for it. From
    /// `SCREEN` on the screen gets the input, the address counted from
    /// `SCREEN`, and the load-enable, and the data store is left alone.
    open spec fn settles_to(&self, next: &Self) -> bool {
        &&& next.input == self.input
        &&& next.address == self.address
        &&& next.load == self.load
        &&& if self.address@ >= SCREEN {
            &&& next.screen.address@ == self.address@ - SCREEN
            &&& next.screen.input == self.input
            &&& next.screen.load == self.load
            &&& next.ram == self.ram
        } else {
            &&& next.screen.address == self.screen.address
            &&& next.screen.input == self.screen.input
            &&& !next.screen.load@
            &&& (RAM { input: self.input, address: self.address, load: self.load, ..self.ram })
                .settles_to(&next.ram)
        }
    }

    /// The data store commits.
    open spec fn clocks_to(&self, next: &Self) -> bool {
        &&& next.input == self.input
        &&& next.address == self.address
        &&& next.load == self.load
        &&& next.screen == self.screen
        &&& self.ram.clocks_to(&next.ram)
    }

    fn compute(&mut self) {
        let addr = self.address.get();
        if addr >= SCREEN {
            self.screen.address = wire(addr - SCREEN);
            self.screen.input = wire(self.input.get());
            self.screen.load = wire(self.load.get());
        } else {
            self.screen.load = wire(false);
            self.ram.address = wire(addr);
            self.ram.input = wire(self.input.get());
            self.ram.load = wire(self.load.get());
            self.ram.compute();
        }
    }

    fn clk(&mut self) {
        self.ram.clk();
    }
}

/// One cycle of the memory, seen from outside. A store below `SCREEN`
/// changes the word addressed and no other; a load changes no word and
/// shows the word addressed. An access from `SCREEN` on changes no word of
/// the data store.
pub proof fn lemma_memory_cycle(a: Memory, b: Memory, c: Memory)
    requires
        a.wf(),
        a.quiet(),
        a.settles_to(&b),
        b.clocks_to(&c),
    ensures
        c.wf(),
        c.quiet(),
        c.screen == b.screen,
        c.words().len() == a.words().len(),
        c.ram.addr == if a.address@ < SCREEN {
            a.address@
        } else {
            a.ram.addr
        },
        a.address@ < SCREEN && a.load@ ==> c.words() == a.words().update(
            word_index(a.address@),
            a.input@,
        ),
        a.address@ < SCREEN && !a.load@ ==> c.words() == a.words(),
        a.address@ < SCREEN ==> c.output() == c.words()[word_index(a.address@)],
        a.address@ >= SCREEN ==> c.words() == a.words() && c.output() == a.words()[word_index(
            a.ram.addr,
        )],
{
    if a.address@ < SCREEN {
        lemma_ram_cycle(
            RAM { input: a.input, address: a.address, load: a.load, ..a.ram },
            b.ram,
            c.ram,
        );
        assert(a.words() =~= (RAM {
            input: a.input,
            address: a.address,
            load: a.load,
            ..a.ram
        }).words());
    } else {
        lemma_ram_idle_edge(a.ram, c.ram);
    }
}

} // verus!
