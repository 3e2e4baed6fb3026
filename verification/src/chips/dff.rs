//! The D flip-flop: the one cell that holds state.

use crate::chips::{is_default, Chip, Wire};
use vstd::prelude::*;

verus! {

/// An edge-triggered cell. `compute` samples `input` into `next_value`;
/// `clk` shows `next_value` on `output`.
pub struct DFF<T> {
    pub input: Wire<T>,
    pub output: Wire<T>,
    pub next_value: T,
}

impl<T: Copy + Default> DFF<T> {
    /// A cell between the two wires. What it would commit before it has
    /// sampled anything is the default of `T`.
    pub fn new(input: Wire<T>, output: Wire<T>) -> (dff: Self)
        ensures
            dff.input == input,
            dff.output == output,
            is_default(dff.next_value),
    {
        Self { next_value: T::default(), input, output }
    }
}

impl<T: Copy + Default> Chip for DFF<T> {
    open spec fn wf(&self) -> bool {
        true
    }

    open spec fn settles_to(&self, next: &Self) -> bool {
        *next == (DFF { next_value: self.input@, ..*self })
    }

    open spec fn clocks_to(&self, next: &Self) -> bool {
        *next == (DFF { output: Wire { value: self.next_value }, ..*self })
    }

    fn compute(&mut self) {
        self.next_value = self.input.value;
    }

    fn clk(&mut self) {
        self.output.value = self.next_value;
    }
}

/// Settling twice is settling once: `compute` reads nothing that it writes.
pub proof fn lemma_dff_compute_idempotent<T: Copy + Default>(a: DFF<T>, b: DFF<T>, c: DFF<T>)
    requires
        a.settles_to(&b),
        b.settles_to(&c),
    ensures
        b == c,
{
}

/// Until the clock edge the output is the one of the cycle before.
pub proof fn lemma_dff_compute_keeps_output<T: Copy + Default>(a: DFF<T>, b: DFF<T>)
    requires
        a.settles_to(&b),
    ensures
        b.output == a.output,
        b.input == a.input,
{
}

/// The clock edge shows what was sampled and leaves the rest alone.
pub proof fn lemma_dff_round_trip<T: Copy + Default>(a: DFF<T>, b: DFF<T>, c: DFF<T>)
    requires
        a.settles_to(&b),
        b.clocks_to(&c),
    ensures
        c.output@ == a.input@,
        c.input == a.input,
{
}

} // verus!
