//! The core: the stages, wired up, and the cycle that drives them.

use crate::chips::alu::{
    effective_address_spec, is_store, loads_pc, next_pc_spec, redirects_spec, result_spec,
    target_spec, writes_rd,
};
use crate::chips::decode::{decode_spec, lemma_decoded_fields_in_range, Decode, Instruction};
use crate::chips::execute::{outcome, Execute, HostRequest, Request};
use crate::chips::fetch::Fetch;
use crate::chips::memory::{Memory, SCREEN};
use crate::chips::pc::{aligned, lemma_next_word_aligned, PC};
use crate::chips::ram::RAM;
use crate::chips::register_file::RegFile;
use crate::chips::rom::{word_index, ROM};
use crate::chips::{wire, Chip, Fault, Wire, Word};
use vstd::prelude::*;

verus! {

/// The number of general-purpose registers.
pub const REGISTERS: usize = 32;

/// The core. In each cycle `compute` fetches the word that the program
/// counter points at, decodes it and executes it: the fetch and the
/// decode stage are clocked within `compute`, so that the execute stage
/// works on the instruction at the current address. `clk` then commits
/// the destination register and the program counter.
///
/// After a redirect the core sits out two cycles, in which it fetches
/// nothing and the program counter holds.
pub struct CPU {
    pub fetch: Fetch,
    pub decode: Decode,
    pub execute: Execute,
    pub pc: PC,
}

impl CPU {
    /// The stages are in working order.
    pub open spec fn wf(&self) -> bool {
        &&& self.execute.wf()
        &&& self.execute.reg_file@.len() == REGISTERS
        &&& self.execute.rd < REGISTERS
        &&& self.pc.wf()
        &&& self.fetch.rom.holds(self.fetch.rom.address@)
    }

    /// The program.
    pub open spec fn program(&self) -> Seq<Word> {
        self.fetch.rom@
    }

    /// The address of the instruction that is executed next.
    pub open spec fn address(&self) -> Word {
        self.pc.output()
    }

    /// What a program reads from each register.
    pub open spec fn values(&self) -> Seq<Word> {
        self.execute.values()
    }

    /// The words of the data store.
    pub open spec fn words(&self) -> Seq<Word> {
        self.execute.memory.words()
    }

    /// The cycles that the core still sits out.
    pub open spec fn halt(&self) -> usize {
        self.execute.halt
    }

    /// The instruction that the program counter points at, or the fault
    /// that fetching and decoding it ends in.
    pub open spec fn fetched(&self) -> Result<Instruction, Fault> {
        if self.fetch.rom.holds(self.address()) {
            decode_spec(self.program()[word_index(self.address())])
        } else {
            Err(Fault::IndexFault)
        }
    }

    /// The execute stage with the instruction `i` on its input.
    pub open spec fn issued(&self, i: Instruction) -> Execute {
        Execute { input: Wire { value: i }, ..self.execute }
    }

    /// The program counter as the execute stage drives it for the
    /// instruction `i`, stepping where it is not loaded.
    pub open spec fn driven(&self, i: Instruction) -> PC {
        let rs1 = self.values()[i.rs1 as int];
        let rs2 = self.values()[i.rs2 as int];
        PC {
            input: Wire { value: next_pc_spec(i.op, self.address(), i.imm, rs1, rs2) },
            load: Wire { value: loads_pc(i.op) },
            inc: Wire { value: true },
            ..self.pc
        }
    }

    /// Relates the core before `compute` to the core after it, and to
    /// what came of the cycle.
    pub open spec fn settles_to(&self, next: &Self, r: Result<Request, Fault>) -> bool {
        &&& next.wf()
        &&& next.program() == self.program()
        &&& if self.halt() > 0 {
            &&& r == Ok::<Request, Fault>(Request::Nothing)
            &&& next.fetch == self.fetch
            &&& next.decode == self.decode
            &&& next.execute == (Execute { halt: (self.halt() - 1) as usize, ..self.execute })
            &&& (PC { inc: Wire { value: false }, ..self.pc }).settles_to(&next.pc)
        } else {
            match self.fetched() {
                Err(fault) => {
                    &&& r == Err::<Request, Fault>(fault)
                    &&& next.execute == self.execute
                    &&& next.pc == self.pc
                },
                Ok(i) => {
                    &&& next.fetch.output() == self.program()[word_index(self.address())]
                    &&& next.decode.output() == i
                    &&& match self.issued(i).fault_spec(i, self.address(), self.program()) {
                        Some(fault) => {
                            &&& next.pc == self.pc
                            &&& self.issued(i).executes_to(
                                &next.execute,
                                &self.pc,
                                &self.pc,
                                i,
                                self.program(),
                                r,
                            )
                        },
                        None => {
                            &&& self.issued(i).executes_to(
                                &next.execute,
                                &self.pc,
                                &(PC { inc: self.pc.inc, ..self.driven(i) }),
                                i,
                                self.program(),
                                r,
                            )
                            &&& self.driven(i).settles_to(&next.pc)
                        },
                    }
                },
            }
        }
    }

    /// Relates the core before the clock edge to the core after it.
    pub open spec fn clocks_to(&self, next: &Self) -> bool {
        &&& next.wf()
        &&& next.fetch == self.fetch
        &&& next.decode == self.decode
        &&& self.execute.clocks_to(&next.execute)
        &&& self.pc.clocks_to(&next.pc)
    }

    /// A core over the data store `ram` and the instruction store `rom`,
    /// with the program counter at address 0 and all registers reset.
    pub fn new(ram: RAM<Word>, rom: ROM<Word>) -> (cpu: Self)
        ensures
            cpu.wf() == (ram.wf() && ram.quiet() && rom.holds(rom.address@)),
            cpu.program() == rom@,
            cpu.address() == 0,
            cpu.values() == Seq::new(REGISTERS as nat, |i: int| 0u32),
            cpu.words() == ram.words(),
            cpu.halt() == 0,
            cpu.execute.settled(),
            !cpu.pc.reset@,
    {
        let pc = PC::default();
        let reg_file: RegFile<Word> = RegFile::new(REGISTERS);
        let fetch = Fetch::new(wire(pc.value()), rom);
        let decode = Decode::new(wire(0), wire(Instruction::default()));
        let memory = Memory::new(wire(0), wire(0), wire(false), ram);
        let execute = Execute::new(wire(Instruction::default()), memory, reg_file);
        assert(execute.values() =~= Seq::new(REGISTERS as nat, |i: int| 0u32));
        Self { fetch, decode, execute, pc }
    }

    /// Tells whether the stages are in working order: `compute` and
    /// `clk` ask for that.
    pub fn ready(&self) -> (b: bool)
        ensures
            b == self.wf(),
    {
        self.execute.memory.ram.is_idle() && self.execute.reg_file.registers.len() == REGISTERS
            && (self.execute.rd as usize) < REGISTERS && self.pc.register.load.get()
            && self.fetch.rom.contains(self.fetch.rom.address.get())
    }

    /// The first phase of a cycle: the logic settles. The result is what
    /// the core asks of the host; a fault means that the core has stopped.
    pub fn compute(&mut self) -> (r: Result<HostRequest, Fault>)
        requires
            old(self).wf(),
        ensures
            old(self).settles_to(final(self), outcome(r)),
    {
        if self.execute.halt != 0 {
            self.pc.inc = wire(false);
            let r = self.execute.compute(&mut self.pc, &self.fetch.rom);
            self.pc.compute();
            return r;
        }
        let addr = self.pc.value();
        if !self.fetch.rom.contains(addr) {
            return Err(Fault::IndexFault);
        }
        self.fetch.pc = wire(addr);
        self.fetch.compute();
        self.fetch.clk();

        self.decode.input = wire(self.fetch.value());
        match self.decode.compute() {
            Ok(()) => {},
            Err(fault) => {
                return Err(fault);
            },
        }
        self.decode.clk();

        self.execute.input = wire(self.decode.out.output.get());
        match self.execute.compute(&mut self.pc, &self.fetch.rom) {
            Ok(request) => {
                self.pc.inc = wire(true);
                self.pc.compute();
                Ok(request)
            },
            Err(fault) => Err(fault),
        }
    }

    /// The second phase of a cycle: the clock edge.
    pub fn clk(&mut self)
        requires
            old(self).wf(),
        ensures
            old(self).clocks_to(final(self)),
    {
        self.execute.clk();
        self.pc.clk();
    }
}

/// One cycle in which an instruction is executed, seen from outside: the
/// destination register takes the result, unless it is register 0; a
/// store changes one word of the data store; the program counter shows
/// the address that the instruction resolved; and after a redirect the
/// core has two cycles to sit out.
pub proof fn lemma_cycle(a: CPU, b: CPU, c: CPU, i: Instruction, r: Result<Request, Fault>)
    requires
        a.wf(),
        !a.pc.reset@,
        a.halt() == 0,
        a.fetched() == Ok::<Instruction, Fault>(i),
        a.issued(i).fault_spec(i, a.address(), a.program()) is None,
        a.settles_to(&b, r),
        b.clocks_to(&c),
    ensures
        ({
            let rs1 = a.values()[i.rs1 as int];
            let rs2 = a.values()[i.rs2 as int];
            let addr = effective_address_spec(rs1, i.imm);
            let loaded = a.execute.loaded_spec(addr);
            &&& r == Ok::<Request, Fault>(a.issued(i).request_spec(i, a.program()))
            &&& c.program() == a.program()
            &&& c.address() == next_pc_spec(i.op, a.address(), i.imm, rs1, rs2)
            &&& c.values() == if writes_rd(i.op) && i.rd != 0 {
                a.values().update(
                    i.rd as int,
                    result_spec(i.op, rs1, rs2, i.imm, i.shamtw, a.address(), loaded),
                )
            } else {
                a.values()
            }
            &&& c.words() == if is_store(i.op) && addr < SCREEN {
                a.words().update(word_index(addr), rs2)
            } else {
                a.words()
            }
            &&& c.halt() == if redirects_spec(i.op, rs1, rs2) {
                2usize
            } else {
                0usize
            }
            &&& c.wf()
            &&& c.execute.settled()
            &&& !c.pc.reset@
            &&& !c.pc.load@
        }),
{
    let rs1 = a.values()[i.rs1 as int];
    let rs2 = a.values()[i.rs2 as int];
    assert(a.issued(i).values() == a.values());
    assert(b.execute.values() == a.values());
    if writes_rd(i.op) && i.rd != 0 {
        assert(c.values() =~= a.values().update(
            i.rd as int,
            b.execute.reg_file@[i.rd as int].pending(),
        ));
    } else {
        assert(c.values() =~= a.values());
    }
}

/// A taken branch, a jump or `AUIPC` is followed by exactly two cycles
/// that the core sits out: in neither of them it asks anything of the
/// host, writes a register or a word of the data store, or moves the
/// program counter. After them it is ready to execute the instruction at
/// the target, where the program counter has stood since the redirect.
pub proof fn lemma_redirect_bubble(
    a: CPU,
    b: CPU,
    c: CPU,
    d: CPU,
    e: CPU,
    f: CPU,
    g: CPU,
    i: Instruction,
    r0: Result<Request, Fault>,
    r1: Result<Request, Fault>,
    r2: Result<Request, Fault>,
)
    requires
        a.wf(),
        !a.pc.reset@,
        a.halt() == 0,
        a.fetched() == Ok::<Instruction, Fault>(i),
        a.issued(i).fault_spec(i, a.address(), a.program()) is None,
        redirects_spec(i.op, a.values()[i.rs1 as int], a.values()[i.rs2 as int]),
        a.settles_to(&b, r0),
        b.clocks_to(&c),
        c.settles_to(&d, r1),
        d.clocks_to(&e),
        e.settles_to(&f, r2),
        f.clocks_to(&g),
    ensures
        c.address() == target_spec(i.op, a.address(), i.imm, a.values()[i.rs1 as int]),
        c.halt() == 2,
        r1 == Ok::<Request, Fault>(Request::Nothing),
        e.halt() == 1,
        e.address() == c.address(),
        e.values() == c.values(),
        e.words() == c.words(),
        r2 == Ok::<Request, Fault>(Request::Nothing),
        g.halt() == 0,
        g.address() == c.address(),
        g.values() == c.values(),
        g.words() == c.words(),
        g.program() == a.program(),
        g.wf(),
{
    lemma_cycle(a, b, c, i, r0);
    assert(e.values() =~= c.values());
    assert(g.values() =~= c.values());
}

/// A branch or a jump whose resolved target is no multiple of four
/// faults, and the core stops where it stands: no register, no word of
/// the data store and nothing of the program counter has changed.
pub proof fn lemma_misaligned_target_faults(
    a: CPU,
    b: CPU,
    i: Instruction,
    r: Result<Request, Fault>,
)
    requires
        a.wf(),
        a.halt() == 0,
        a.fetched() == Ok::<Instruction, Fault>(i),
        loads_pc(i.op),
        !aligned(
            next_pc_spec(
                i.op,
                a.address(),
                i.imm,
                a.values()[i.rs1 as int],
                a.values()[i.rs2 as int],
            ),
        ),
        a.settles_to(&b, r),
    ensures
        r == Err::<Request, Fault>(Fault::AlignmentFault),
        b.values() == a.values(),
        b.words() == a.words(),
        b.pc == a.pc,
        b.halt() == a.halt(),
{
    lemma_decoded_fields_in_range(a.program()[word_index(a.address())]);
    assert(a.issued(i).values() == a.values());
}

/// The program counter of a core that runs points at a word in every
/// cycle: what it is loaded with has been tested, and where it is not
/// loaded it steps by one word or holds.
pub proof fn lemma_address_stays_aligned(a: CPU, b: CPU, c: CPU, r: Result<Request, Fault>)
    requires
        a.wf(),
        !a.pc.reset@,
        a.halt() > 0 ==> !a.pc.load@,
        aligned(a.address()),
        a.settles_to(&b, r),
        r is Ok,
        b.clocks_to(&c),
    ensures
        aligned(c.address()),
{
    lemma_next_word_aligned(a.address());
    if a.halt() == 0 {
        let i = a.fetched()->Ok_0;
        lemma_decoded_fields_in_range(a.program()[word_index(a.address())]);
        assert(a.issued(i).values() == a.values());
    }
}

} // verus!
