//! The program counter.

use crate::chips::register::Register;
use crate::chips::{wire, Chip, Wire, Word, FOUR, ZERO};
use vstd::prelude::*;

verus! {

/// A register with three controls. In the order in which they win: `reset`
/// clears it, `load` takes the input, `inc` steps to the next word; with
/// none of them set it holds.
pub struct PC {
    pub input: Wire<Word>,
    pub reset: Wire<bool>,
    pub load: Wire<bool>,
    pub inc: Wire<bool>,
    /// Holds the address. It loads on every cycle: what it loads is
    /// decided here.
    pub register: Register<Word>,
}

/// Whether `addr` is the address of a word.
pub open spec fn aligned(addr: Word) -> bool {
    addr % 4 == 0
}

impl PC {
    /// The address that the counter shows.
    pub open spec fn output(&self) -> Word {
        self.register.output()
    }

    /// The address that the controls select for the next cycle.
    pub open spec fn next(&self) -> Word {
        if self.reset@ {
            0
        } else if self.load@ {
            self.input@
        } else if self.inc@ {
            self.output().wrapping_add(4)
        } else {
            self.output()
        }
    }

    /// A counter on the given wires. It starts at the value on `output`.
    pub fn new(
        input: Wire<Word>,
        reset: Wire<bool>,
        load: Wire<bool>,
        inc: Wire<bool>,
        output: Wire<Word>,
    ) -> (pc: Self)
        ensures
            pc.wf(),
            pc.input == input,
            pc.reset == reset,
            pc.load == load,
            pc.inc == inc,
            pc.output() == output@,
            pc.register.input@ == 0,
            pc.register.dff.input@ == 0,
            pc.register.pending() == 0,
    {
        Self { input, reset, load, inc, register: Register::new(wire(ZERO), output, wire(true)) }
    }

    /// Reads the address.
    pub fn value(&self) -> (addr: Word)
        ensures
            addr == self.output(),
    {
        self.register.value()
    }
}

impl Default for PC {
    /// A counter at address 0 that steps by one word per cycle.
    fn default() -> (pc: Self)
        ensures
            pc.wf(),
            pc.input@ == 0,
            !pc.reset@,
            !pc.load@,
            pc.inc@,
            pc.output() == 0,
            pc.register.input@ == 0,
            pc.register.dff.input@ == 0,
            pc.register.pending() == 0,
    {
        Self {
            input: wire(ZERO),
            reset: wire(false),
            load: wire(false),
            inc: wire(true),
            register: Register::new(wire(ZERO), wire(ZERO), wire(true)),
        }
    }
}

impl Chip for PC {
    /// The register inside loads on every cycle.
    open spec fn wf(&self) -> bool {
        self.register.load@
    }

    open spec fn settles_to(&self, next: &Self) -> bool {
        &&& next.input == self.input
        &&& next.reset == self.reset
        &&& next.load == self.load
        &&& next.inc == self.inc
        &&& next.register.load == self.register.load
        &&& next.register.input@ == self.next()
        &&& next.register.dff.input@ == self.next()
        &&& next.register.pending() == self.next()
        &&& next.output() == self.output()
    }

    /// The address staged shows, and `load` falls back to unset.
    open spec fn clocks_to(&self, next: &Self) -> bool {
        &&& next.input == self.input
        &&& next.reset == self.reset
        &&& !next.load@
        &&& next.inc == self.inc
        &&& next.register.load == self.register.load
        &&& next.register.input == self.register.input
        &&& next.register.dff.input == self.register.dff.input
        &&& next.register.pending() == self.register.pending()
        &&& next.output() == self.register.pending()
    }

    fn compute(&mut self) {
        let val = if self.reset.get() {
            ZERO
        } else if self.load.get() {
            self.input.get()
        } else if self.inc.get() {
            self.register.value().wrapping_add(FOUR)
        } else {
            self.register.value()
        };
        self.register.input = wire(val);
        self.register.compute();
    }

    fn clk(&mut self) {
        self.load = wire(false);
        self.register.clk();
    }
}

/// The word after an aligned address is aligned, also where the address
/// wraps round.
pub proof fn lemma_next_word_aligned(addr: Word)
    requires
        aligned(addr),
    ensures
        aligned(addr.wrapping_add(4)),
{
}

/// A counter that shows an aligned address, and that is loaded with
/// aligned addresses only, shows an aligned address after the cycle.
pub proof fn lemma_pc_stays_aligned(a: PC, b: PC, c: PC)
    requires
        a.wf(),
        aligned(a.output()),
        a.load@ ==> aligned(a.input@),
        a.settles_to(&b),
        b.clocks_to(&c),
    ensures
        c.output() == a.next(),
        aligned(c.output()),
{
    lemma_next_word_aligned(a.output());
}

} // verus!
