//! The general-purpose registers.

use crate::chips::register::Register;
use crate::chips::{wire, Chip};
use vstd::prelude::*;

verus! {

/// A bank of registers. The register at index 0 is wired to zero: whoever
/// asks for it gets a register that was reset a moment ago.
pub struct RegFile<T> {
    pub registers: Vec<Register<T>>,
}

impl<T: Copy + Default> View for RegFile<T> {
    type V = Seq<Register<T>>;

    open spec fn view(&self) -> Seq<Register<T>> {
        self.registers@
    }
}

impl<T: Copy + Default> RegFile<T> {
    /// A bank of `size` registers, all of them reset.
    pub fn new(size: usize) -> (rf: Self)
        ensures
            rf@.len() == size,
            forall|i: int| 0 <= i < size ==> (#[trigger] rf@[i]).is_reset(),
    {
        let mut registers: Vec<Register<T>> = Vec::with_capacity(size);
        for n in 0..size
            invariant
                registers@.len() == n,
                forall|i: int| 0 <= i < n ==> (#[trigger] registers@[i]).is_reset(),
        {
            registers.push(Register::default());
        }
        Self { registers }
    }

    /// The register at `index`. Asking for index 0 resets that register
    /// first, whatever was staged in it or held by it.
    pub fn get(&mut self, index: usize) -> (r: &mut Register<T>)
        requires
            index < old(self)@.len(),
        ensures
            index == 0 ==> r.is_reset(),
            index != 0 ==> *r == old(self)@[index as int],
            final(self)@ == old(self)@.update(index as int, *final(r)),
    {
        if index == 0 {
            self.registers[index] = Register::default();
        }
        &mut self.registers[index]
    }
}

/// What a program reads from each register of a bank: zero at index 0,
/// whatever that register holds, and elsewhere the value held.
pub open spec fn values(bank: Seq<Register<u32>>) -> Seq<u32> {
    Seq::new(
        bank.len(),
        |i: int|
            if i == 0 {
                0
            } else {
                bank[i].output()
            },
    )
}

impl RegFile<u32> {
    /// Looks at the register at `index` without accessing it: nothing is
    /// reset.
    pub fn peek(&self, index: usize) -> (v: u32)
        requires
            index < self@.len(),
        ensures
            v == values(self@)[index as int],
    {
        if index == 0 {
            0
        } else {
            self.registers[index].value()
        }
    }

    /// Reads the register at `index`. This is an access like any other:
    /// at index 0 it resets the register.
    pub fn read(&mut self, index: usize) -> (v: u32)
        requires
            index < old(self)@.len(),
        ensures
            v == values(old(self)@)[index as int],
            final(self)@.len() == old(self)@.len(),
            forall|i: int|
                0 <= i < old(self)@.len() && (i != 0 || index != 0) ==> final(self)@[i] == old(
                    self,
                )@[i],
            index == 0 ==> final(self)@[0].is_reset(),
            values(final(self)@) == values(old(self)@),
    {
        let v = self.get(index).value();
        assert(values(self@) =~= values(old(self)@));
        v
    }
}

/// Register 0 reads as zero in every bank, so in every cycle. And
/// whatever a write leaves in register 0, no register reads otherwise for
/// it.
pub proof fn lemma_register_zero_reads_zero(bank: Seq<Register<u32>>, written: Register<u32>)
    requires
        bank.len() > 0,
    ensures
        values(bank)[0] == 0,
        values(bank.update(0, written)) == values(bank),
{
    assert(values(bank.update(0, written)) =~= values(bank));
}

impl<T: Copy + Default> Chip for RegFile<T> {
    open spec fn wf(&self) -> bool {
        true
    }

    /// Every register settles.
    open spec fn settles_to(&self, next: &Self) -> bool {
        &&& next@.len() == self@.len()
        &&& forall|i: int| 0 <= i < self@.len() ==> (#[trigger] self@[i]).settles_to(&next@[i])
    }

    /// Every register commits, and every load-enable falls back to unset.
    open spec fn clocks_to(&self, next: &Self) -> bool {
        &&& next@.len() == self@.len()
        &&& forall|i: int|
            0 <= i < self@.len() ==> {
                &&& (#[trigger] next@[i]).input == self@[i].input
                &&& !next@[i].load@
                &&& next@[i].dff.input == self@[i].dff.input
                &&& next@[i].pending() == self@[i].pending()
                &&& next@[i].output() == self@[i].pending()
            }
    }

    fn compute(&mut self) {
        let n = self.registers.len();
        for k in 0..n
            invariant
                n == old(self)@.len(),
                self@.len() == n,
                forall|i: int| 0 <= i < k ==> (#[trigger] old(self)@[i]).settles_to(&self@[i]),
                forall|i: int| k <= i < n ==> self@[i] == old(self)@[i],
        {
            self.registers[k].compute();
        }
    }

    fn clk(&mut self) {
        let n = self.registers.len();
        for k in 0..n
            invariant
                n == old(self)@.len(),
                self@.len() == n,
                forall|i: int|
                    0 <= i < k ==> {
                        &&& (#[trigger] self@[i]).input == old(self)@[i].input
                        &&& !self@[i].load@
                        &&& self@[i].dff.input == old(self)@[i].dff.input
                        &&& self@[i].pending() == old(self)@[i].pending()
                        &&& self@[i].output() == old(self)@[i].pending()
                    },
                forall|i: int| k <= i < n ==> self@[i] == old(self)@[i],
        {
            self.registers[k].clk();
            self.registers[k].load = wire(false);
        }
    }
}

} // verus!
