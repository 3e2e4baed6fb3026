//! A memory stage of its own: it does the load or the store that an
//! earlier stage has handed on.

use crate::chips::execute::IOCode;
use crate::chips::ram::{lemma_ram_cycle, RAM};
use crate::chips::register_file::{values, RegFile};
use crate::chips::rom::word_index;
use crate::chips::{wire, Chip, Fault, Wire, Word, ZERO};
use vstd::prelude::*;

verus! {

/// The stage between the registers and the data store. The code on its
/// input names a register and an address: a store writes the register to
/// the address, a load stages the word at the address in the register.
pub struct MemoryAccess {
    pub input: Wire<IOCode>,
    pub reg_file: RegFile<Word>,
    pub ram: RAM<Word>,
    /// The register that the last code named: `clk` commits it.
    pub rd: Word,
}

impl MemoryAccess {
    /// The data store is in working order.
    pub open spec fn wf(&self) -> bool {
        self.ram.wf()
    }

    /// What a program reads from each register.
    pub open spec fn values(&self) -> Seq<Word> {
        values(self.reg_file@)
    }

    /// Whether the code on the input can be served: the bank has the
    /// register and the data store has the address.
    pub open spec fn serves(&self) -> bool {
        &&& self.input@.register < self.reg_file@.len()
        &&& self.ram.holds(self.input@.address)
    }

    /// Relates the stage before `compute` to the stage after it.
    pub open spec fn settles_to(&self, next: &Self, r: Result<(), Fault>) -> bool {
        let code = self.input@;
        let at = word_index(code.address);
        let reg = code.register as int;
        &&& next.input == self.input
        &&& next.reg_file@.len() == self.reg_file@.len()
        &&& next.values() == self.values()
        &&& if !self.serves() {
            &&& r == Err::<(), Fault>(Fault::IndexFault)
            &&& next.rd == self.rd
            &&& next.ram == self.ram
            &&& next.reg_file == self.reg_file
        } else {
            &&& r is Ok
            &&& next.rd == code.register
            &&& next.ram.words() == if code.store {
                self.ram.words().update(at, self.values()[reg])
            } else {
                self.ram.words()
            }
            &&& next.reg_file@[reg].pending() == if !code.store {
                self.ram.words()[at]
            } else if reg == 0 {
                0
            } else {
                self.reg_file@[reg].selected()
            }
            &&& forall|k: int|
                0 < k < self.reg_file@.len() && k != reg ==> next.reg_file@[k]
                    == self.reg_file@[k]
        }
    }

    /// What a program reads from each register after the clock edge.
    pub open spec fn committed(&self) -> Seq<Word> {
        if self.rd != 0 {
            self.values().update(self.rd as int, self.reg_file@[self.rd as int].pending())
        } else {
            self.values()
        }
    }

    /// A memory stage over the given registers and data store.
    pub fn new(input: Wire<IOCode>, reg_file: RegFile<Word>, ram: RAM<Word>) -> (m: Self)
        ensures
            m.input == input,
            m.reg_file == reg_file,
            m.ram == ram,
            m.rd == 0,
    {
        Self { input, reg_file, ram, rd: ZERO }
    }

    /// Does the load or the store that the code on the input names. The
    /// data store runs through its whole cycle here; the register is
    /// staged and waits for `clk`.
    pub fn compute(&mut self) -> (r: Result<(), Fault>)
        requires
            old(self).wf(),
        ensures
            final(self).wf(),
            old(self).settles_to(final(self), r),
    {
        let io_code = self.input.get();
        let reg = io_code.register as usize;
        if reg >= self.reg_file.registers.len() || !self.ram.contains(io_code.address) {
            return Err(Fault::IndexFault);
        }
        self.ram.address = wire(io_code.address);
        self.ram.load = wire(io_code.store);
        self.rd = io_code.register;

        if io_code.store {
            self.ram.input = wire(self.reg_file.read(reg));
        }
        let ghost before = self.ram;
        self.ram.compute();
        let ghost between = self.ram;
        self.ram.clk();
        proof {
            lemma_ram_cycle(before, between, self.ram);
            assert(before.words() =~= old(self).ram.words());
        }

        let ghost bank = self.reg_file@;
        let rd = self.reg_file.get(reg);
        if !io_code.store {
            rd.input = wire(self.ram.output.get());
            rd.load = wire(true);
        }
        rd.compute();
        assert(values(self.reg_file@) =~= values(bank));
        Ok(())
    }

    /// The clock edge: the register that the last code named commits. At
    /// index 0 it is reset instead.
    pub fn clk(&mut self)
        requires
            old(self).rd < old(self).reg_file@.len(),
        ensures
            final(self).input == old(self).input,
            final(self).ram == old(self).ram,
            final(self).rd == old(self).rd,
            final(self).reg_file@.len() == old(self).reg_file@.len(),
            forall|k: int|
                0 < k < old(self).reg_file@.len() && k != old(self).rd ==> final(self).reg_file@[k]
                    == old(self).reg_file@[k],
            final(self).values() == old(self).committed(),
    {
        let rd = self.reg_file.get(self.rd as usize);
        rd.clk();
        assert(self.values() =~= old(self).committed());
    }
}

} // verus!
