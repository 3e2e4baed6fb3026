//! The execute stage: it reads the operands, computes, and drives the
//! registers, the program counter and the memory. What only the host can
//! do, it asks of the host.

use crate::chips::alu::{
    alu, drives_pc, drives_rd, effective_address_spec, is_load, is_store, loads_pc, next_pc,
    next_pc_spec, redirects, redirects_spec, result_spec, second_operand, shift_amount, writes_rd,
};
use crate::chips::decode::{Instruction, Operation};
use crate::chips::memory::{lemma_memory_cycle, Memory, SCREEN};
use crate::chips::pc::{aligned, PC};
use crate::chips::register_file::{values, RegFile};
use crate::chips::rom::{word_index, ROM};
use crate::chips::{wire, Chip, Fault, Wire, Word, FOUR};
use vstd::prelude::*;

verus! {

/// The register that holds the first argument of a trap, and takes its
/// result.
pub const A0: usize = 10;

/// The register that holds the second argument of a trap.
pub const A1: usize = 11;

/// The register that holds the number of the service that a trap asks for.
pub const A7: usize = 17;

/// The destination register and the address of a load or a store that is
/// still to be done, for a memory stage of its own.
#[derive(Clone, Copy, Debug, PartialEq, Eq, Structural)]
pub struct IOCode {
    pub register: Word,
    pub address: Word,
    pub store: bool,
}

impl Default for IOCode {
    fn default() -> (c: Self)
        ensures
            c.register == 0,
            c.address == 0,
            !c.store,
    {
        IOCode { register: 0, address: 0, store: false }
    }
}

/// What the core asks of the host after an instruction.
#[derive(Debug, PartialEq, Eq)]
pub enum HostRequest {
    /// Nothing.
    Nothing,
    /// Read one byte from the input and hand it to `Execute::receive`.
    ReadByte,
    /// Write this byte to the output.
    WriteByte(u8),
    /// Write these bytes to the output.
    WriteBytes(Vec<u8>),
    /// End the process with this status.
    Exit(Word),
    /// Show `value` on the screen at `address`, counted from the start of
    /// the screen.
    Screen { address: Word, value: Word },
}

/// A request with its bytes as a sequence.
pub enum Request {
    Nothing,
    ReadByte,
    WriteByte(u8),
    WriteBytes(Seq<u8>),
    Exit(Word),
    Screen { address: Word, value: Word },
}

impl View for HostRequest {
    type V = Request;

    open spec fn view(&self) -> Request {
        match *self {
            HostRequest::Nothing => Request::Nothing,
            HostRequest::ReadByte => Request::ReadByte,
            HostRequest::WriteByte(b) => Request::WriteByte(b),
            HostRequest::WriteBytes(v) => Request::WriteBytes(v@),
            HostRequest::Exit(status) => Request::Exit(status),
            HostRequest::Screen { address, value } => Request::Screen { address, value },
        }
    }
}

/// What came of an instruction, with the bytes of a request as a
/// sequence.
pub open spec fn outcome(r: Result<HostRequest, Fault>) -> Result<Request, Fault> {
    match r {
        Ok(h) => Ok(h@),
        Err(f) => Err(f),
    }
}

/// The address of the `i`-th word of a text that starts at `start`.
pub open spec fn text_address(start: Word, i: int) -> Word {
    start.wrapping_add(4u32.wrapping_mul(i as u32))
}

/// Whether the store has all `len` words of the text that starts at
/// `start`.
pub open spec fn text_in_store(rom: Seq<Word>, start: Word, len: Word) -> bool {
    forall|i: int| 0 <= i < len ==> word_index(#[trigger] text_address(start, i)) < rom.len()
}

/// The text of `len` bytes that starts at `start`: one byte from each
/// word, its bits 19:12.
pub open spec fn text_spec(rom: Seq<Word>, start: Word, len: Word) -> Seq<u8> {
    Seq::new(len as nat, |i: int| (rom[word_index(text_address(start, i))] >> 12) as u8)
}

/// What a trap asks of the host: `a7` names the service, `a0` and `a1`
/// hold its arguments, `rom` is the store that a text is read from.
pub open spec fn ecall_spec(a7: Word, a0: Word, a1: Word, rom: Seq<Word>) -> Result<
    Request,
    Fault,
> {
    if a7 == 1 {
        Ok(Request::ReadByte)
    } else if a7 == 2 {
        Ok(Request::WriteByte(a0 as u8))
    } else if a7 == 4 {
        if text_in_store(rom, a0, a1) {
            Ok(Request::WriteBytes(text_spec(rom, a0, a1)))
        } else {
            Err(Fault::IndexFault)
        }
    } else if a7 == 10 {
        Ok(Request::Exit(a0))
    } else {
        Ok(Request::Nothing)
    }
}

/// Turns a trap into a request to the host. Service 1 reads a byte, 2
/// writes the low byte of `a0`, 4 writes the `a1` bytes of the text at
/// `a0`, 10 ends the process with status `a0`. Any other number asks for
/// nothing.
pub fn ecall(a7: Word, a0: Word, a1: Word, rom: &ROM<Word>) -> (r: Result<HostRequest, Fault>)
    ensures
        match ecall_spec(a7, a0, a1, rom@) {
            Ok(request) => r matches Ok(h) && h@ == request,
            Err(fault) => r matches Err(f) && f == fault,
        },
{
    match a7 {
        1 => Ok(HostRequest::ReadByte),
        2 => Ok(
            HostRequest::WriteByte(
                #[verifier::truncate]
                (a0 as u8),
            ),
        ),
        4 => {
            let mut string: Vec<u8> = Vec::new();
            for i in 0..a1
                invariant
                    a7 == 4,
                    string@.len() == i,
                    forall|k: int|
                        0 <= k < i ==> word_index(#[trigger] text_address(a0, k)) < rom@.len(),
                    forall|k: int|
                        0 <= k < i ==> string@[k] == (rom@[word_index(text_address(a0, k))]
                            >> 12) as u8,
            {
                let addr = a0.wrapping_add(FOUR.wrapping_mul(i));
                assert(addr == text_address(a0, i as int));
                if !rom.contains(addr) {
                    assert(!text_in_store(rom@, a0, a1)) by {
                        assert(word_index(text_address(a0, i as int)) >= rom@.len());
                    }
                    return Err(Fault::IndexFault);
                }
                let val = rom.peek(addr);
                string.push(
                    #[verifier::truncate]
                    ((val >> 12) as u8),
                );
            }
            assert(string@ =~= text_spec(rom@, a0, a1));
            Ok(HostRequest::WriteBytes(string))
        },
        10 => Ok(HostRequest::Exit(a0)),
        _ => Ok(HostRequest::Nothing),
    }
}

/// The execute stage. It owns the registers and the memory; the program
/// counter and the instruction store are handed to it for each cycle.
pub struct Execute {
    /// The instruction to execute.
    pub input: Wire<Instruction>,
    pub reg_file: RegFile<Word>,
    pub memory: Memory,
    /// The register that the last instruction named as its destination:
    /// `clk` commits that register.
    pub rd: Word,
    /// The cycles that the stage still sits out after a redirect.
    pub halt: usize,
}

impl Execute {
    /// The memory is in working order and has nothing staged.
    pub open spec fn wf(&self) -> bool {
        &&& self.memory.ram.wf()
        &&& self.memory.quiet()
    }

    /// What a program reads from each register.
    pub open spec fn values(&self) -> Seq<Word> {
        values(self.reg_file@)
    }

    /// Whether the destination register of the last instruction has
    /// nothing staged that it does not show: so it is between two cycles.
    pub open spec fn settled(&self) -> bool {
        &&& self.rd < self.reg_file@.len()
        &&& self.rd != 0 ==> {
            let register = self.reg_file@[self.rd as int];
            register.pending() == register.output()
        }
    }

    /// The word that a load from `addr` gets. Above the data store
    /// nothing can be read: the store then shows once more what it
    /// showed last.
    pub open spec fn loaded_spec(&self, addr: Word) -> Word {
        if addr < SCREEN {
            self.memory.words()[word_index(addr)]
        } else {
            self.memory.words()[word_index(self.memory.ram.addr)]
        }
    }

    /// The fault that stops the instruction `i` at address `pc`, if one
    /// does: a register that the bank does not have, a target that is no
    /// multiple of four, an address that the memory cannot serve, a text
    /// that leaves the instruction store.
    pub open spec fn fault_spec(&self, i: Instruction, pc: Word, rom: Seq<Word>) -> Option<Fault> {
        let n = self.reg_file@.len();
        let rs1 = self.values()[i.rs1 as int];
        let rs2 = self.values()[i.rs2 as int];
        if i.rd >= n || i.rs1 >= n || i.rs2 >= n {
            Some(Fault::IndexFault)
        } else if loads_pc(i.op) && !aligned(next_pc_spec(i.op, pc, i.imm, rs1, rs2)) {
            Some(Fault::AlignmentFault)
        } else if (is_load(i.op) || is_store(i.op)) && !self.memory.serves(
            effective_address_spec(rs1, i.imm),
        ) {
            Some(Fault::IndexFault)
        } else if i.op is ECALL {
            if n <= A7 {
                Some(Fault::IndexFault)
            } else {
                match ecall_spec(
                    self.values()[A7 as int],
                    self.values()[A0 as int],
                    self.values()[A1 as int],
                    rom,
                ) {
                    Ok(_) => None,
                    Err(f) => Some(f),
                }
            }
        } else {
            None
        }
    }

    /// What the instruction `i` asks of the host, where no fault stops
    /// it: a trap asks what its service number says, a store from
    /// `SCREEN` on asks for the word to be shown.
    pub open spec fn request_spec(&self, i: Instruction, rom: Seq<Word>) -> Request {
        let rs1 = self.values()[i.rs1 as int];
        let rs2 = self.values()[i.rs2 as int];
        let addr = effective_address_spec(rs1, i.imm);
        if i.op is ECALL {
            match ecall_spec(
                self.values()[A7 as int],
                self.values()[A0 as int],
                self.values()[A1 as int],
                rom,
            ) {
                Ok(request) => request,
                Err(_) => Request::Nothing,
            }
        } else if is_store(i.op) && addr >= SCREEN {
            Request::Screen { address: (addr - SCREEN) as Word, value: rs2 }
        } else {
            Request::Nothing
        }
    }

    /// Relates the stage and the program counter before the instruction
    /// `i` is executed to the two after it, and to what came of it.
    ///
    /// Nothing that a program can see changes but the memory: the result
    /// is staged in the destination register, and the next address is put
    /// on the input of the program counter. A fault stops the instruction
    /// before it has staged or stored anything.
    pub open spec fn executes_to(
        &self,
        next: &Self,
        pc: &PC,
        next_pc: &PC,
        i: Instruction,
        rom: Seq<Word>,
        r: Result<Request, Fault>,
    ) -> bool {
        &&& next.input == self.input
        &&& next.reg_file@.len() == self.reg_file@.len()
        &&& next.values() == self.values()
        &&& next_pc.reset == pc.reset
        &&& next_pc.inc == pc.inc
        &&& next_pc.register == pc.register
        &&& match self.fault_spec(i, pc.output(), rom) {
            Some(fault) => {
                &&& r == Err::<Request, Fault>(fault)
                &&& next.memory == self.memory
                &&& next.rd == self.rd
                &&& next.halt == self.halt
                &&& next.settled() == self.settled()
                &&& *next_pc == *pc
            },
            None => {
                let rs1 = self.values()[i.rs1 as int];
                let rs2 = self.values()[i.rs2 as int];
                let addr = effective_address_spec(rs1, i.imm);
                let loaded = self.loaded_spec(addr);
                &&& r == Ok::<Request, Fault>(self.request_spec(i, rom))
                &&& next.rd == i.rd
                &&& next.halt == if redirects_spec(i.op, rs1, rs2) {
                    2
                } else {
                    self.halt
                }
                &&& next.reg_file@[i.rd as int].load@ == writes_rd(i.op)
                &&& next.reg_file@[i.rd as int].input@ == result_spec(
                    i.op,
                    rs1,
                    rs2,
                    i.imm,
                    i.shamtw,
                    pc.output(),
                    loaded,
                )
                &&& next.reg_file@[i.rd as int].pending() == if writes_rd(i.op) {
                    result_spec(i.op, rs1, rs2, i.imm, i.shamtw, pc.output(), loaded)
                } else {
                    self.values()[i.rd as int]
                }
                &&& forall|k: int|
                    0 < k < self.reg_file@.len() && k != i.rd ==> next.reg_file@[k]
                        == self.reg_file@[k]
                &&& next.memory.words() == if is_store(i.op) && addr < SCREEN {
                    self.memory.words().update(word_index(addr), rs2)
                } else {
                    self.memory.words()
                }
                &&& next.memory.ram.addr == if (is_store(i.op) || is_load(i.op)) && addr < SCREEN {
                    addr
                } else {
                    self.memory.ram.addr
                }
                &&& if is_store(i.op) || is_load(i.op) {
                    &&& next.memory.address@ == addr
                    &&& next.memory.load@ == is_store(i.op)
                    &&& next.memory.input@ == if is_store(i.op) {
                        rs2
                    } else {
                        self.memory.input@
                    }
                    &&& next.memory.screen.load@ == (is_store(i.op) && addr >= SCREEN)
                    &&& addr >= SCREEN ==> {
                        &&& next.memory.screen.address@ == addr - SCREEN
                        &&& next.memory.screen.input == next.memory.input
                    }
                    &&& addr < SCREEN ==> {
                        &&& next.memory.screen.address == self.memory.screen.address
                        &&& next.memory.screen.input == self.memory.screen.input
                    }
                } else {
                    next.memory == self.memory
                }
                &&& next_pc.input@ == next_pc_spec(i.op, pc.output(), i.imm, rs1, rs2)
                &&& next_pc.load@ == loads_pc(i.op)
            },
        }
    }

    /// Relates the stage and the program counter before a cycle to the
    /// two after it. While the stage sits out a redirect, the cycle is
    /// counted and nothing else happens; otherwise the instruction on the
    /// input is executed.
    pub open spec fn settles_to(
        &self,
        next: &Self,
        pc: &PC,
        next_pc: &PC,
        rom: Seq<Word>,
        r: Result<Request, Fault>,
    ) -> bool {
        if self.halt > 0 {
            &&& r == Ok::<Request, Fault>(Request::Nothing)
            &&& *next == (Execute { halt: (self.halt - 1) as usize, ..*self })
            &&& *next_pc == *pc
        } else {
            self.executes_to(next, pc, next_pc, self.input@, rom, r)
        }
    }

    /// What a program reads from each register after the clock edge: the
    /// destination register of the last instruction shows what was staged
    /// in it, unless it is register 0.
    pub open spec fn committed(&self) -> Seq<Word> {
        if self.rd != 0 {
            self.values().update(self.rd as int, self.reg_file@[self.rd as int].pending())
        } else {
            self.values()
        }
    }

    /// Relates the stage before the clock edge to the stage after it.
    pub open spec fn clocks_to(&self, next: &Self) -> bool {
        &&& next.input == self.input
        &&& next.memory == self.memory
        &&& next.rd == self.rd
        &&& next.halt == self.halt
        &&& next.settled()
        &&& next.reg_file@.len() == self.reg_file@.len()
        &&& forall|k: int|
            0 < k < self.reg_file@.len() && k != self.rd ==> next.reg_file@[k]
                == self.reg_file@[k]
        &&& next.values() == self.committed()
    }

    /// An execute stage over the given registers and memory, with nothing
    /// to sit out.
    pub fn new(input: Wire<Instruction>, memory: Memory, reg_file: RegFile<Word>) -> (e: Self)
        ensures
            e.input == input,
            e.memory == memory,
            e.reg_file == reg_file,
            e.rd == 0,
            e.halt == 0,
    {
        Self { input, memory, reg_file, rd: 0, halt: 0 }
    }

    /// Executes one instruction that stands at address `pc.output()`.
    pub fn execute(&mut self, instruction: Instruction, pc: &mut PC, rom: &ROM<Word>) -> (r: Result<
        HostRequest,
        Fault,
    >)
        requires
            old(self).wf(),
        ensures
            final(self).wf(),
            old(self).executes_to(final(self), old(pc), final(pc), instruction, rom@, outcome(r)),
    {
        let n = self.reg_file.registers.len();
        let op = instruction.op;
        let rd_index = instruction.rd as usize;
        if rd_index >= n || instruction.rs1 as usize >= n || instruction.rs2 as usize >= n {
            return Err(Fault::IndexFault);
        }
        let pc_addr = pc.value();
        let rs1 = self.reg_file.read(instruction.rs1 as usize);
        let rs2 = self.reg_file.read(instruction.rs2 as usize);
        assert(self.settled() == old(self).settled());

        let final_addr = next_pc(op, pc_addr, instruction.imm, rs1, rs2);
        let to_pc = drives_pc(op);
        if to_pc && final_addr % FOUR != 0 {
            return Err(Fault::AlignmentFault);
        }
        let address = rs1.wrapping_add(instruction.imm);
        let to_memory = match op {
            Operation::LB
            | Operation::LH
            | Operation::LW
            | Operation::LBU
            | Operation::LHU
            | Operation::SB
            | Operation::SH
            | Operation::SW => true,
            _ => false,
        };
        if to_memory && !self.memory.can_serve(address) {
            return Err(Fault::IndexFault);
        }
        let request = match op {
            Operation::ECALL => {
                if n <= A7 {
                    return Err(Fault::IndexFault);
                }
                let a7 = self.reg_file.read(A7);
                let a1 = self.reg_file.read(A1);
                let a0 = self.reg_file.read(A0);
                match ecall(a7, a0, a1, rom) {
                    Ok(request) => request,
                    Err(fault) => {
                        return Err(fault);
                    },
                }
            },
            Operation::SB | Operation::SH | Operation::SW => {
                if address >= SCREEN {
                    HostRequest::Screen { address: address - SCREEN, value: rs2 }
                } else {
                    HostRequest::Nothing
                }
            },
            _ => HostRequest::Nothing,
        };

        // store the destination for the clock edge
        self.rd = instruction.rd;

        let imm = second_operand(op, instruction.imm, rs2);
        let shamt = shift_amount(op, instruction.shamtw, rs2);

        // ARITHMETIC and LOGIC INSTRUCTIONS
        let mut value = alu(op, rs1, imm, shamt, rs2);

        let imm = instruction.imm;
        match op {
            Operation::LUI => {
                value = imm;
            },
            Operation::JAL | Operation::JALR => {
                value = pc_addr.wrapping_add(FOUR);
            },
            Operation::LB | Operation::LH | Operation::LW | Operation::LBU | Operation::LHU => {
                self.memory.address = wire(address);
                self.memory.load = wire(false);
                let ghost before = self.memory;
                self.memory.compute();
                let ghost between = self.memory;
                self.memory.clk();
                proof {
                    lemma_memory_cycle(before, between, self.memory);
                }
                value = self.memory.value();
            },
            Operation::SB | Operation::SH | Operation::SW => {
                self.memory.address = wire(address);
                self.memory.load = wire(true);
                self.memory.input = wire(rs2);
                let ghost before = self.memory;
                self.memory.compute();
                let ghost between = self.memory;
                self.memory.clk();
                proof {
                    lemma_memory_cycle(before, between, self.memory);
                }
            },
            _ => {},
        }

        // Set the load bits accordingly
        let ghost bank = self.reg_file@;
        let rd = self.reg_file.get(rd_index);
        rd.load = wire(drives_rd(op));
        rd.input = wire(value);
        rd.compute();
        assert(values(self.reg_file@) =~= values(bank));

        pc.load = wire(to_pc);
        pc.input = wire(final_addr);
        if redirects(op, rs1, rs2) {
            self.halt = 2;
        }
        Ok(request)
    }

    /// One cycle of the stage. While it sits out a redirect it counts
    /// the cycle and does nothing else; otherwise it executes the
    /// instruction on its input.
    pub fn compute(&mut self, pc: &mut PC, rom: &ROM<Word>) -> (r: Result<HostRequest, Fault>)
        requires
            old(self).wf(),
        ensures
            final(self).wf(),
            old(self).settles_to(final(self), old(pc), final(pc), rom@, outcome(r)),
    {
        let instruction = self.input.get();
        if self.halt != 0 {
            self.halt -= 1;
            return Ok(HostRequest::Nothing);
        }
        self.execute(instruction, pc, rom)
    }

    /// The clock edge: the destination register of the last instruction
    /// commits. At index 0 it is reset instead, so that nothing is ever
    /// written there.
    pub fn clk(&mut self)
        requires
            old(self).rd < old(self).reg_file@.len(),
        ensures
            old(self).clocks_to(final(self)),
    {
        let rd = self.reg_file.get(self.rd as usize);
        rd.clk();
        assert(self.values() =~= old(self).committed());
    }

    /// Takes the byte that the host has read for a trap: it is written
    /// to the register `A0` at once.
    pub fn receive(&mut self, byte: u8)
        requires
            A0 < old(self).reg_file@.len(),
        ensures
            final(self).input == old(self).input,
            final(self).memory == old(self).memory,
            final(self).rd == old(self).rd,
            final(self).halt == old(self).halt,
            final(self).reg_file@.len() == old(self).reg_file@.len(),
            forall|k: int|
                0 <= k < old(self).reg_file@.len() && k != A0 ==> final(self).reg_file@[k] == old(
                    self,
                ).reg_file@[k],
            final(self).reg_file@[A0 as int].pending() == byte,
            final(self).values() == old(self).values().update(A0 as int, byte as Word),
    {
        let a0 = self.reg_file.get(A0);
        a0.input = wire(byte as Word);
        a0.load = wire(true);
        a0.compute();
        a0.clk();
        assert(self.values() =~= old(self).values().update(A0 as int, byte as Word));
    }
}

} // verus!
