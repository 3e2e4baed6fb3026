//! A flip-flop behind a load-enable multiplexer.

use crate::chips::dff::DFF;
use crate::chips::{is_default, mux2, mux2_spec, wire, Chip, Wire};
use vstd::prelude::*;

verus! {

/// A cell that keeps its value unless `load` is set. Its output is the
/// output of the flip-flop inside it.
pub struct Register<T> {
    pub input: Wire<T>,
    pub load: Wire<bool>,
    pub dff: DFF<T>,
}

impl<T: Copy + Default> Register<T> {
    /// The value that other chips see.
    pub open spec fn output(&self) -> T {
        self.dff.output@
    }

    /// The value that the next clock edge will show.
    pub open spec fn pending(&self) -> T {
        self.dff.next_value
    }

    /// What `compute` stages: the input where `load` is set, else the value
    /// held.
    pub open spec fn selected(&self) -> T {
        mux2_spec(self.output(), self.input@, self.load@)
    }

    /// Whether this is a register as `default` makes it: nothing set,
    /// nothing held.
    pub open spec fn is_reset(&self) -> bool {
        &&& is_default(self.input@)
        &&& !self.load@
        &&& is_default(self.dff.input@)
        &&& is_default(self.output())
        &&& is_default(self.pending())
    }

    /// A register between the wires `input` and `output`, enabled by
    /// `load`.
    pub fn new(input: Wire<T>, output: Wire<T>, load: Wire<bool>) -> (r: Self)
        ensures
            r.input == input,
            r.load == load,
            r.dff.input == input,
            r.dff.output == output,
            is_default(r.pending()),
    {
        let dff_input = wire(input.get());
        Self { input, load, dff: DFF::new(dff_input, output) }
    }

    /// Reads the output.
    pub fn value(&self) -> (t: T)
        ensures
            t == self.output(),
    {
        self.dff.output.get()
    }
}

impl<T: Copy + Default> Default for Register<T> {
    /// A register on wires of its own, holding the default of `T`.
    fn default() -> (r: Self)
        ensures
            r.is_reset(),
    {
        let out_wire = wire(T::default());
        let in_wire = wire(T::default());
        let dff = DFF::new(wire(in_wire.get()), out_wire);
        Self { input: in_wire, load: wire(false), dff }
    }
}

impl<T: Copy + Default> Chip for Register<T> {
    open spec fn wf(&self) -> bool {
        true
    }

    open spec fn settles_to(&self, next: &Self) -> bool {
        &&& next.input == self.input
        &&& next.load == self.load
        &&& next.dff.input@ == self.selected()
        &&& next.pending() == self.selected()
        &&& next.output() == self.output()
    }

    open spec fn clocks_to(&self, next: &Self) -> bool {
        &&& next.input == self.input
        &&& next.load == self.load
        &&& next.dff.input == self.dff.input
        &&& next.pending() == self.pending()
        &&& next.output() == self.pending()
    }

    fn compute(&mut self) {
        self.dff.input = wire(mux2(self.dff.output.get(), self.input.get(), self.load.get()));
        self.dff.compute();
    }

    fn clk(&mut self) {
        self.dff.clk();
    }
}

/// Settling twice is settling once.
pub proof fn lemma_register_compute_idempotent<T: Copy + Default>(
    a: Register<T>,
    b: Register<T>,
    c: Register<T>,
)
    requires
        a.settles_to(&b),
        b.settles_to(&c),
    ensures
        b == c,
{
}

/// One cycle of a register: with `load` set it shows its input, without
/// it the value it held.
pub proof fn lemma_register_cycle<T: Copy + Default>(a: Register<T>, b: Register<T>, c: Register<T>)
    requires
        a.settles_to(&b),
        b.clocks_to(&c),
    ensures
        b.output() == a.output(),
        a.load@ ==> c.output() == a.input@,
        !a.load@ ==> c.output() == a.output(),
{
}

} // verus!
