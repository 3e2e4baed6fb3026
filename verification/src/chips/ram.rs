//! The data store.

use crate::chips::register::Register;
use crate::chips::rom::word_index;
use crate::chips::{Chip, Wire, Word, ZERO};
use vstd::prelude::*;

verus! {

/// A store of registers, addressed by byte address, a word at a time.
/// `compute` hands the input and the load-enable to the register that is
/// addressed; `clk` commits that register and shows it on `output`. So a
/// value written in one cycle shows from the next cycle on.
pub struct RAM<T> {
    pub input: Wire<T>,
    pub output: Wire<T>,
    pub address: Wire<Word>,
    pub load: Wire<bool>,
    /// The address that `compute` saw last: `clk` commits the register
    /// there.
    pub addr: Word,
    pub registers: Vec<Register<T>>,
}

impl<T: Copy + Default> View for RAM<T> {
    type V = Seq<Register<T>>;

    open spec fn view(&self) -> Seq<Register<T>> {
        self.registers@
    }
}

impl<T: Copy + Default> RAM<T> {
    /// Whether the store has a word at `addr`.
    pub open spec fn holds(&self, addr: Word) -> bool {
        word_index(addr) < self@.len()
    }

    /// The word that the store holds at `addr`.
    pub open spec fn word_at(&self, addr: Word) -> T {
        self@[word_index(addr)].output()
    }

    /// The words of the store, in order.
    pub open spec fn words(&self) -> Seq<T> {
        Seq::new(self@.len(), |i: int| self@[i].output())
    }

    /// Whether the register that the store commits next has nothing
    /// staged that it does not hold already.
    pub open spec fn quiet(&self) -> bool {
        let at = word_index(self.addr);
        self@[at].pending() == self@[at].output()
    }

    /// A store of `size` words on the given wires, each word reset.
    pub fn new(
        input: Wire<T>,
        output: Wire<T>,
        address: Wire<Word>,
        load: Wire<bool>,
        size: usize,
    ) -> (ram: Self)
        ensures
            ram.input == input,
            ram.output == output,
            ram.address == address,
            ram.load == load,
            ram.addr == 0,
            ram@.len() == size,
            forall|i: int| 0 <= i < size ==> (#[trigger] ram@[i]).is_reset(),
    {
        let mut registers: Vec<Register<T>> = Vec::with_capacity(size);
        for n in 0..size
            invariant
                registers@.len() == n,
                forall|i: int| 0 <= i < n ==> (#[trigger] registers@[i]).is_reset(),
        {
            registers.push(Register::default());
        }
        Self { input, output, address, addr: ZERO, load, registers }
    }

    /// Tells whether the store has a word at `addr`.
    pub fn contains(&self, addr: Word) -> (b: bool)
        ensures
            b == self.holds(addr),
    {
        (addr as usize) / 4 < self.registers.len()
    }

    /// Reads the word at `addr` at once, past the ports.
    pub fn peek(&self, addr: Word) -> (t: T)
        requires
            self.holds(addr),
        ensures
            t == self.word_at(addr),
    {
        self.registers[(addr as usize) / 4].value()
    }
}

impl RAM<u32> {
    /// Tells whether the store is in working order and has nothing
    /// staged.
    pub fn is_idle(&self) -> (b: bool)
        ensures
            b == (self.wf() && self.quiet()),
    {
        if !self.contains(self.address.get()) || !self.contains(self.addr) {
            return false;
        }
        let at = (self.addr as usize) / 4;
        self.registers[at].dff.next_value == self.registers[at].dff.output.value
    }
}

impl<T: Copy + Default> Chip for RAM<T> {
    /// The address on the port, and the one that was seen last, are
    /// addresses that the store has.
    open spec fn wf(&self) -> bool {
        &&& self.holds(self.address@)
        &&& self.holds(self.addr)
    }

    /// The register addressed takes the input and the load-enable of the
    /// store and settles; no other register changes.
    open spec fn settles_to(&self, next: &Self) -> bool {
        let at = word_index(self.address@);
        &&& next.input == self.input
        &&& next.output == self.output
        &&& next.address == self.address
        &&& next.load == self.load
        &&& next.addr == self.address@
        &&& next@.len() == self@.len()
        &&& forall|i: int| 0 <= i < self@.len() && i != at ==> next@[i] == self@[i]
        &&& next@[at].input == self.input
        &&& next@[at].load == self.load
        &&& next@[at].output() == self@[at].output()
        &&& next@[at].pending() == if self.load@ {
            self.input@
        } else {
            self@[at].output()
        }
        &&& next@[at].dff.input@ == next@[at].pending()
    }

    /// The register that was addressed commits and shows on the output.
    open spec fn clocks_to(&self, next: &Self) -> bool {
        let at = word_index(self.addr);
        &&& next.input == self.input
        &&& next.address == self.address
        &&& next.load == self.load
        &&& next.addr == self.addr
        &&& next@.len() == self@.len()
        &&& forall|i: int| 0 <= i < self@.len() && i != at ==> next@[i] == self@[i]
        &&& self@[at].clocks_to(&next@[at])
        &&& next.output@ == self@[at].pending()
    }

    fn compute(&mut self) {
        let addr = self.address.get();
        self.addr = addr;
        let at = (addr as usize) / 4;
        self.registers[at].input = Wire { value: self.input.get() };
        self.registers[at].load = Wire { value: self.load.get() };
        self.registers[at].compute();
    }

    fn clk(&mut self) {
        let at = (self.addr as usize) / 4;
        self.registers[at].clk();
        self.output.value = self.registers[at].value();
    }
}

/// One cycle of the store, seen from outside. With `load` set it changes
/// the word addressed and no other; without, it changes no word. Either
/// way it shows the word addressed.
pub proof fn lemma_ram_cycle<T: Copy + Default>(a: RAM<T>, b: RAM<T>, c: RAM<T>)
    requires
        a.wf(),
        a.settles_to(&b),
        b.clocks_to(&c),
    ensures
        c.wf(),
        c.quiet(),
        c.addr == a.address@,
        c.words().len() == a.words().len(),
        a.load@ ==> c.words() == a.words().update(word_index(a.address@), a.input@),
        !a.load@ ==> c.words() == a.words(),
        c.output@ == c.words()[word_index(a.address@)],
{
    let at = word_index(a.address@);
    if a.load@ {
        assert(c.words() =~= a.words().update(at, a.input@));
    } else {
        assert(c.words() =~= a.words());
    }
}

/// A clock edge without a `compute` before it: a store that has nothing
/// staged shows once more the word that it addressed last.
pub proof fn lemma_ram_idle_edge<T: Copy + Default>(a: RAM<T>, c: RAM<T>)
    requires
        a.wf(),
        a.quiet(),
        a.clocks_to(&c),
    ensures
        c.wf(),
        c.quiet(),
        c.addr == a.addr,
        c.words() == a.words(),
        c.output@ == a.words()[word_index(a.addr)],
{
    assert(c.words() =~= a.words());
}

} // verus!
