//! The chips of the core and the vocabulary they share.
//!
//! Every chip is evaluated in two phases. `compute` lets the combinational
//! logic settle: it reads the ports and the committed outputs and stages a
//! pending value. `clk` is the clock edge: it alone moves pending values to
//! the outputs that other chips see.

use vstd::prelude::*;

pub mod dff;
pub mod register;
pub mod register_file;
pub mod pc;
pub mod rom;
pub mod ram;
pub mod memory;
pub mod decode;
pub mod alu;
pub mod fetch;
pub mod execute;
pub mod memory_access;
pub mod cpu;

verus! {

/// The machine word: 32 bits, with arithmetic modulo 2^32.
pub type Word = u32;

pub const ZERO: Word = 0;

pub const ONE: Word = 1;

pub const FOUR: Word = 4;

/// A connection between two ports. It has one owner, who drives it, and it
/// holds the value that is currently driven.
pub struct Wire<T> {
    pub value: T,
}

impl<T> View for Wire<T> {
    type V = T;

    open spec fn view(&self) -> T {
        self.value
    }
}

impl<T: Copy> Wire<T> {
    /// Reads the value on the wire.
    pub fn get(&self) -> (t: T)
        ensures
            t == self@,
    {
        self.value
    }

    /// Drives `t` on the wire.
    pub fn set(&mut self, t: T)
        ensures
            final(self)@ == t,
    {
        self.value = t;
    }
}

/// Makes a wire that carries `t`.
pub fn wire<T>(t: T) -> (w: Wire<T>)
    ensures
        w@ == t,
{
    Wire { value: t }
}

/// What a two-way multiplexer selects: `b` when `sel` is set, else `a`.
pub open spec fn mux2_spec<T>(a: T, b: T, sel: bool) -> T {
    if sel {
        b
    } else {
        a
    }
}

/// A two-way multiplexer.
pub fn mux2<T>(a: T, b: T, sel: bool) -> (out: T)
    ensures
        out == mux2_spec(a, b, sel),
{
    match sel {
        true => b,
        false => a,
    }
}

/// Whether `v` is a value that `T::default()` may return. For the integer
/// types and `bool` this fixes `v`: zero, or `false`.
pub open spec fn is_default<T: Default>(v: T) -> bool {
    call_ensures(T::default, (), v)
}

/// The reasons for which the machine stops. None of them can be recovered
/// from.
#[derive(Clone, Copy, Debug, PartialEq, Eq, Structural)]
pub enum Fault {
    /// The instruction word is none that the decoder knows.
    DecodeFault(Word),
    /// The target of a branch or a jump is not a multiple of four.
    AlignmentFault,
    /// A register or a memory cell was addressed that does not exist.
    IndexFault,
}

/// A sequential circuit.
pub trait Chip: Sized {
    /// What the chip needs of its state to work at all.
    spec fn wf(&self) -> bool;

    /// Relates the chip before `compute` to the chip after it.
    spec fn settles_to(&self, next: &Self) -> bool;

    /// Relates the chip before `clk` to the chip after it.
    spec fn clocks_to(&self, next: &Self) -> bool;

    /// Computes the logic of the circuit and stages its result.
    fn compute(&mut self)
        requires
            old(self).wf(),
        ensures
            final(self).wf(),
            old(self).settles_to(final(self)),
    ;

    /// Commits the staged values: they show from the next cycle on.
    fn clk(&mut self)
        requires
            old(self).wf(),
        ensures
            final(self).wf(),
            old(self).clocks_to(final(self)),
    ;
}

} // verus!
