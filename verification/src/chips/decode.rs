//! The instruction decoder: from a 32-bit word to its fields and its
//! operation.

use crate::chips::dff::DFF;
use crate::chips::{mux2, mux2_spec, wire, Chip, Fault, Wire, Word, ONE, ZERO};
use vstd::prelude::*;

verus! {

/// The operations of the core.
#[derive(Clone, Copy, Debug, PartialEq, Eq, Structural)]
pub enum Operation {
    LUI,
    AUIPC,
    JAL,
    JALR,
    BEQ,
    BNE,
    BLT,
    BGE,
    BLTU,
    BGEU,
    LB,
    LH,
    LW,
    LBU,
    LHU,
    SB,
    SH,
    SW,
    ADDI,
    SLTI,
    SLTIU,
    XORI,
    ORI,
    ANDI,
    SLLI,
    SRLI,
    SRAI,
    ADD,
    SUB,
    SLL,
    SLT,
    SLTU,
    XOR,
    SRL,
    SRA,
    OR,
    AND,
    MUL,
    MULH,
    MULHSU,
    MULHU,
    DIV,
    DIVU,
    REM,
    REMU,
    ECALL,
    EBREAK,
}

impl Default for Operation {
    fn default() -> (op: Self)
        ensures
            op == Operation::ADDI,
    {
        Operation::ADDI
    }
}

/// A decoded instruction.
#[derive(Clone, Copy, Debug, PartialEq, Eq, Structural)]
pub struct Instruction {
    /// Destination register, bits 11:7.
    pub rd: Word,
    /// First source register, bits 19:15.
    pub rs1: Word,
    /// Second source register, bits 24:20.
    pub rs2: Word,
    /// The immediate of the instruction's format, sign-extended.
    pub imm: Word,
    /// Shift amount, bits 24:20.
    pub shamtw: Word,
    pub op: Operation,
}

impl Instruction {
    /// The register fields and the shift amount are five bits wide.
    pub open spec fn wf(&self) -> bool {
        &&& self.rd < 32
        &&& self.rs1 < 32
        &&& self.rs2 < 32
        &&& self.shamtw < 32
    }
}

/// `ADDI x0, x0, 0`: the instruction that does nothing.
pub open spec fn idle_instruction() -> Instruction {
    Instruction { rd: 0, rs1: 0, rs2: 0, imm: 0, shamtw: 0, op: Operation::ADDI }
}

impl Default for Instruction {
    /// The instruction that does nothing.
    fn default() -> (i: Self)
        ensures
            i == idle_instruction(),
    {
        Instruction { rd: 0, rs1: 0, rs2: 0, imm: 0, shamtw: 0, op: Operation::ADDI }
    }
}

/// A word with the lowest `width` bits set.
pub open spec fn low_mask(width: usize) -> Word {
    if width >= 32 {
        0xFFFF_FFFF
    } else {
        ((1u32 << width) - 1) as u32
    }
}

/// Bits `msb` down to `lsb` of `v`, moved to the bottom of the word.
pub open spec fn bit_range_spec(v: Word, msb: usize, lsb: usize) -> Word {
    (v >> lsb) & low_mask((msb - lsb + 1) as usize)
}

/// Cuts the bits `msb` down to `lsb` out of `v`.
pub fn bit_range(v: Word, msb: usize, lsb: usize) -> (r: Word)
    requires
        lsb <= msb < 32,
    ensures
        r == bit_range_spec(v, msb, lsb),
{
    let width = msb - lsb + 1;
    let mask = if width >= 32 {
        0xFFFF_FFFFu32
    } else {
        assert((1u32 << width) >= 1) by (bit_vector)
            requires
                width < 32,
        ;
        (ONE << width) - ONE
    };
    (v >> lsb) & mask
}

/// Opcode, bits 6:0.
pub open spec fn opcode_of(w: Word) -> Word {
    w & 0x7f
}

/// Destination register, bits 11:7.
pub open spec fn rd_of(w: Word) -> Word {
    (w >> 7) & 0x1f
}

/// Bits 14:12.
pub open spec fn funct3_of(w: Word) -> Word {
    (w >> 12) & 0x7
}

/// First source register, bits 19:15.
pub open spec fn rs1_of(w: Word) -> Word {
    (w >> 15) & 0x1f
}

/// Second source register and shift amount, bits 24:20.
pub open spec fn rs2_of(w: Word) -> Word {
    (w >> 20) & 0x1f
}

/// Bits 31:25.
pub open spec fn funct7_of(w: Word) -> Word {
    w >> 25
}

/// The bits that sign extension fills with the sign: all ones where bit 31
/// of the word is set, else none.
pub open spec fn sign_fill(w: Word, high: Word) -> Word {
    if w >> 31 == 1 {
        high
    } else {
        0
    }
}

/// The I-format immediate: bits 31:20 of the word at 11:0.
pub open spec fn imm_i_of(w: Word) -> Word {
    ((w >> 20) & 0x7ff) | sign_fill(w, 0xFFFF_F800)
}

/// The S-format immediate: bits 31:25 at 11:5, bits 11:7 at 4:0.
pub open spec fn imm_s_of(w: Word) -> Word {
    (((w >> 25) & 0x3f) << 5) | ((w >> 7) & 0x1f) | sign_fill(w, 0xFFFF_F800)
}

/// The B-format immediate: bit 7 at 11, bits 30:25 at 10:5, bits 11:8 at
/// 4:1, bit 31 at 12 and above.
pub open spec fn imm_b_of(w: Word) -> Word {
    (((w >> 7) & 0x1) << 11) | (((w >> 25) & 0x3f) << 5) | (((w >> 8) & 0xf) << 1) | sign_fill(
        w,
        0xFFFF_F000,
    )
}

/// The U-format immediate: bits 31:12 where they stand.
pub open spec fn imm_u_of(w: Word) -> Word {
    w & 0xFFFF_F000
}

/// The J-format immediate: bits 19:12 where they stand, bit 20 at 11, bits
/// 30:21 at 10:1, bit 31 at 20 and above.
pub open spec fn imm_j_of(w: Word) -> Word {
    (w & 0x000F_F000) | (((w >> 20) & 0x1) << 11) | (((w >> 21) & 0x3ff) << 1) | sign_fill(
        w,
        0xFFF0_0000,
    )
}

/// The operation that a word encodes, if it encodes one.
pub open spec fn operation_of(w: Word) -> Option<Operation> {
    let funct3 = funct3_of(w);
    let funct7 = funct7_of(w);
    let opcode = opcode_of(w);
    if opcode == 0b0110011 {
        if funct7 == 0 {
            Some(
                if funct3 == 0 {
                    Operation::ADD
                } else if funct3 == 1 {
                    Operation::SLL
                } else if funct3 == 2 {
                    Operation::SLT
                } else if funct3 == 3 {
                    Operation::SLTU
                } else if funct3 == 4 {
                    Operation::XOR
                } else if funct3 == 5 {
                    Operation::SRL
                } else if funct3 == 6 {
                    Operation::OR
                } else {
                    Operation::AND
                },
            )
        } else if funct7 == 0b0100000 {
            if funct3 == 0 {
                Some(Operation::SUB)
            } else if funct3 == 5 {
                Some(Operation::SRA)
            } else {
                None
            }
        } else if funct7 == 0b0000001 {
            Some(
                if funct3 == 0 {
                    Operation::MUL
                } else if funct3 == 1 {
                    Operation::MULH
                } else if funct3 == 2 {
                    Operation::MULHSU
                } else if funct3 == 3 {
                    Operation::MULHU
                } else if funct3 == 4 {
                    Operation::DIV
                } else if funct3 == 5 {
                    Operation::DIVU
                } else if funct3 == 6 {
                    Operation::REM
                } else {
                    Operation::REMU
                },
            )
        } else {
            None
        }
    } else if opcode == 0b0010011 {
        if funct3 == 0 {
            Some(Operation::ADDI)
        } else if funct3 == 1 {
            Some(Operation::SLLI)
        } else if funct3 == 2 {
            Some(Operation::SLTI)
        } else if funct3 == 3 {
            Some(Operation::SLTIU)
        } else if funct3 == 4 {
            Some(Operation::XORI)
        } else if funct3 == 5 {
            if funct7 == 0 {
                Some(Operation::SRLI)
            } else if funct7 == 0b0100000 {
                Some(Operation::SRAI)
            } else {
                None
            }
        } else if funct3 == 6 {
            Some(Operation::ORI)
        } else {
            Some(Operation::ANDI)
        }
    } else if opcode == 0b0110111 {
        Some(Operation::LUI)
    } else if opcode == 0b0010111 {
        Some(Operation::AUIPC)
    } else if opcode == 0b1101111 {
        Some(Operation::JAL)
    } else if opcode == 0b1100111 {
        Some(Operation::JALR)
    } else if opcode == 0b1100011 {
        if funct3 == 0 {
            Some(Operation::BEQ)
        } else if funct3 == 1 {
            Some(Operation::BNE)
        } else if funct3 == 4 {
            Some(Operation::BLT)
        } else if funct3 == 5 {
            Some(Operation::BGE)
        } else if funct3 == 6 {
            Some(Operation::BLTU)
        } else if funct3 == 7 {
            Some(Operation::BGEU)
        } else {
            None
        }
    } else if opcode == 0b0000011 {
        Some(
            if funct3 == 0 {
                Operation::LB
            } else if funct3 == 1 {
                Operation::LH
            } else if funct3 == 4 {
                Operation::LBU
            } else if funct3 == 5 {
                Operation::LHU
            } else {
                Operation::LW
            },
        )
    } else if opcode == 0b0100011 {
        Some(
            if funct3 == 0 {
                Operation::SB
            } else if funct3 == 1 {
                Operation::SH
            } else {
                Operation::SW
            },
        )
    } else if opcode == 0b1110011 {
        if funct7 == 0 {
            Some(Operation::ECALL)
        } else if funct7 == 1 {
            Some(Operation::EBREAK)
        } else {
            None
        }
    } else {
        None
    }
}

/// The immediate of a word, by the format that its opcode has. The
/// register-register and the system instructions have none: theirs is zero.
pub open spec fn immediate_of(w: Word) -> Word {
    let opcode = opcode_of(w);
    if opcode == 0b0010011 || opcode == 0b1100111 || opcode == 0b0000011 {
        imm_i_of(w)
    } else if opcode == 0b0110111 || opcode == 0b0010111 {
        imm_u_of(w)
    } else if opcode == 0b1101111 {
        imm_j_of(w)
    } else if opcode == 0b1100011 {
        imm_b_of(w)
    } else if opcode == 0b0100011 {
        imm_s_of(w)
    } else {
        0
    }
}

/// What the decoder makes of a word: the instruction, or the fault that
/// names the word.
pub open spec fn decode_spec(w: Word) -> Result<Instruction, Fault> {
    match operation_of(w) {
        Some(op) => Ok(
            Instruction {
                rd: rd_of(w),
                rs1: rs1_of(w),
                rs2: rs2_of(w),
                imm: immediate_of(w),
                shamtw: rs2_of(w),
                op,
            },
        ),
        None => Err(Fault::DecodeFault(w)),
    }
}

/// The fields of a word, cut out by `bit_range_spec`, are the fields that
/// the decoder's specification names, and each is as wide as its bit range.
pub proof fn lemma_fields(w: Word)
    by (bit_vector)
    ensures
        bit_range_spec(w, 6, 0) == opcode_of(w),
        bit_range_spec(w, 11, 7) == rd_of(w),
        bit_range_spec(w, 14, 12) == funct3_of(w),
        bit_range_spec(w, 19, 15) == rs1_of(w),
        bit_range_spec(w, 24, 20) == rs2_of(w),
        bit_range_spec(w, 31, 25) == funct7_of(w),
        opcode_of(w) < 128,
        rd_of(w) < 32,
        funct3_of(w) < 8,
        rs1_of(w) < 32,
        rs2_of(w) < 32,
        funct7_of(w) < 128,
{
}

/// The fields of every instruction that the decoder accepts are five
/// bits wide.
pub proof fn lemma_decoded_fields_in_range(w: Word)
    ensures
        decode_spec(w) matches Ok(i) ==> i.wf(),
{
    lemma_fields(w);
}

/// Every immediate is sign-extended: above the bits that the format
/// fills, all bits are equal to bit 31 of the word. The branch and the
/// jump immediates are even, and the upper immediate has its low twelve
/// bits clear.
pub proof fn lemma_immediates_sign_extended(w: Word)
    by (bit_vector)
    ensures
        imm_i_of(w) >> 11 == if w >> 31 == 1 { 0x1F_FFFFu32 } else { 0u32 },
        imm_s_of(w) >> 11 == if w >> 31 == 1 { 0x1F_FFFFu32 } else { 0u32 },
        imm_b_of(w) >> 12 == if w >> 31 == 1 { 0xF_FFFFu32 } else { 0u32 },
        imm_j_of(w) >> 20 == if w >> 31 == 1 { 0xFFFu32 } else { 0u32 },
        imm_u_of(w) >> 31 == w >> 31,
        imm_b_of(w) & 1 == 0,
        imm_j_of(w) & 1 == 0,
        imm_u_of(w) & 0xFFF == 0,
{
}

/// The five immediates, put together from the pieces that the decoder cuts
/// out of the word.
pub proof fn lemma_immediates(w: Word)
    by (bit_vector)
    ensures
        ({
            let imm_30_25 = bit_range_spec(w, 30, 25);
            let imm_24_21 = bit_range_spec(w, 24, 21);
            let imm_20 = bit_range_spec(w, 20, 20);
            let imm_11_8 = bit_range_spec(w, 11, 8);
            let imm_7 = bit_range_spec(w, 7, 7);
            let imm_30_20 = bit_range_spec(w, 30, 20);
            let imm_19_12 = bit_range_spec(w, 19, 12);
            let neg = (w >> 31) == 1;
            let i = imm_30_25 << 5 | imm_24_21 << 1 | imm_20;
            let s = imm_30_25 << 5 | imm_11_8 << 1 | imm_7;
            let b = imm_7 << 11 | imm_30_25 << 5 | imm_11_8 << 1;
            let u = imm_30_20 << 20 | imm_19_12 << 12;
            let j = imm_19_12 << 12 | imm_20 << 11 | imm_30_25 << 5 | imm_24_21 << 1;
            &&& (if neg { i | 0xFFFF_F800 } else { i }) == imm_i_of(w)
            &&& (if neg { s | 0xFFFF_F800 } else { s }) == imm_s_of(w)
            &&& (if neg { b | 0xFFFF_F000 } else { b }) == imm_b_of(w)
            &&& (if neg { u | (1u32 << 31) } else { u }) == imm_u_of(w)
            &&& (if neg { j | 0xFFF0_0000 } else { j }) == imm_j_of(w)
        }),
{
}

/// The decoder. Its input is the instruction word; its output shows the
/// decoded instruction one clock edge after `compute` has accepted the
/// word.
pub struct Decode {
    pub input: Wire<Word>,
    /// Holds the result of `compute` and shows it at `clk`.
    pub out: DFF<Instruction>,
}

impl Decode {
    /// The instruction that the decoder shows.
    pub open spec fn output(&self) -> Instruction {
        self.out.output@
    }

    /// A decoder between the wires `input` and `output`.
    pub fn new(input: Wire<Word>, output: Wire<Instruction>) -> (d: Self)
        ensures
            d.input == input,
            d.out.output == output,
            d.out.input@ == idle_instruction(),
            d.out.next_value == idle_instruction(),
    {
        Self { input, out: DFF::new(wire(Instruction::default()), output) }
    }

    /// Decodes one word. The result depends on the word alone.
    pub fn decode(&self, inst: Word) -> (r: Result<Instruction, Fault>)
        ensures
            r == decode_spec(inst),
            r matches Ok(i) ==> i.wf(),
    {
        let neg = (inst >> 31) == ONE;
        let ones_21: Word = 0xFFFF_F800;
        let ones_20: Word = 0xFFFF_F000;
        let ones_12: Word = 0xFFF0_0000;

        let imm_30_25 = bit_range(inst, 30, 25);
        let imm_24_21 = bit_range(inst, 24, 21);
        let imm_20 = bit_range(inst, 20, 20);
        let imm_11_8 = bit_range(inst, 11, 8);
        let imm_7 = bit_range(inst, 7, 7);
        let imm_30_20 = bit_range(inst, 30, 20);
        let imm_19_12 = bit_range(inst, 19, 12);

        let imm_i = imm_30_25 << 5 | imm_24_21 << 1 | imm_20;
        let imm_s = imm_30_25 << 5 | imm_11_8 << 1 | imm_7;
        let imm_b = imm_7 << 11 | imm_30_25 << 5 | imm_11_8 << 1;
        let imm_u = imm_30_20 << 20 | imm_19_12 << 12;
        let imm_j = imm_19_12 << 12 | imm_20 << 11 | imm_30_25 << 5 | imm_24_21 << 1;
        let imm_i = mux2(imm_i, imm_i | ones_21, neg);
        let imm_s = mux2(imm_s, imm_s | ones_21, neg);
        let imm_b = mux2(imm_b, imm_b | ones_20, neg);
        let imm_u = mux2(imm_u, imm_u | (ONE << 31), neg);
        let imm_j = mux2(imm_j, imm_j | ones_12, neg);

        let shamtw = bit_range(inst, 24, 20);
        let funct3 = bit_range(inst, 14, 12);
        let funct7 = bit_range(inst, 31, 25);
        let rd = bit_range(inst, 11, 7);
        let rs1 = bit_range(inst, 19, 15);
        let rs2 = bit_range(inst, 24, 20);
        let opcode = bit_range(inst, 6, 0);
        proof {
            lemma_fields(inst);
            lemma_immediates(inst);
        }
        let imm: Word;
        let fault: Result<Instruction, Fault> = Err(Fault::DecodeFault(inst));

        let op = match opcode {
            0b0110011 => {
                imm = ZERO;
                if funct7 == ZERO {
                    match funct3 {
                        0b000 => Operation::ADD,
                        0b001 => Operation::SLL,
                        0b010 => Operation::SLT,
                        0b011 => Operation::SLTU,
                        0b100 => Operation::XOR,
                        0b101 => Operation::SRL,
                        0b110 => Operation::OR,
                        _ => Operation::AND,
                    }
                } else if funct7 == 0b0100000 {
                    match funct3 {
                        0b000 => Operation::SUB,
                        0b101 => Operation::SRA,
                        _ => { return fault; },
                    }
                } else if funct7 == 0b0000001 {
                    match funct3 {
                        0b000 => Operation::MUL,
                        0b001 => Operation::MULH,
                        0b010 => Operation::MULHSU,
                        0b011 => Operation::MULHU,
                        0b100 => Operation::DIV,
                        0b101 => Operation::DIVU,
                        0b110 => Operation::REM,
                        _ => Operation::REMU,
                    }
                } else {
                    return fault;
                }
            },
            0b0010011 => {
                imm = imm_i;
                match funct3 {
                    0b000 => Operation::ADDI,
                    0b001 => Operation::SLLI,
                    0b010 => Operation::SLTI,
                    0b011 => Operation::SLTIU,
                    0b100 => Operation::XORI,
                    0b101 => {
                        if funct7 == ZERO {
                            Operation::SRLI
                        } else if funct7 == 0b0100000 {
                            Operation::SRAI
                        } else {
                            return fault;
                        }
                    },
                    0b110 => Operation::ORI,
                    _ => Operation::ANDI,
                }
            },
            0b0110111 => {
                imm = imm_u;
                Operation::LUI
            },
            0b0010111 => {
                imm = imm_u;
                Operation::AUIPC
            },
            0b1101111 => {
                imm = imm_j;
                Operation::JAL
            },
            0b1100111 => {
                imm = imm_i;
                Operation::JALR
            },
            0b1100011 => {
                imm = imm_b;
                match funct3 {
                    0b000 => Operation::BEQ,
                    0b001 => Operation::BNE,
                    0b100 => Operation::BLT,
                    0b101 => Operation::BGE,
                    0b110 => Operation::BLTU,
                    0b111 => Operation::BGEU,
                    _ => { return fault; },
                }
            },
            0b0000011 => {
                imm = imm_i;
                match funct3 {
                    0b000 => Operation::LB,
                    0b001 => Operation::LH,
                    0b010 => Operation::LW,
                    0b100 => Operation::LBU,
                    0b101 => Operation::LHU,
                    _ => Operation::LW,
                }
            },
            0b0100011 => {
                imm = imm_s;
                match funct3 {
                    0b000 => Operation::SB,
                    0b001 => Operation::SH,
                    0b010 => Operation::SW,
                    _ => Operation::SW,
                }
            },
            0b1110011 => {
                imm = ZERO;
                match funct7 {
                    0 => Operation::ECALL,
                    1 => Operation::EBREAK,
                    _ => { return fault; },
                }
            },
            _ => { return fault; },
        };

        Ok(Instruction { rd, rs1, rs2, imm, shamtw, op })
    }

    /// Decodes the word on the input and stages the instruction. A word
    /// that the decoder does not know is reported, and nothing is staged.
    pub fn compute(&mut self) -> (r: Result<(), Fault>)
        ensures
            final(self).input == old(self).input,
            final(self).out.output == old(self).out.output,
            match decode_spec(old(self).input@) {
                Ok(i) => r is Ok && final(self).out.input@ == i && final(self).out.next_value == i,
                Err(f) => r == Err::<(), Fault>(f) && *final(self) == *old(self),
            },
    {
        let inst = self.input.get();
        match self.decode(inst) {
            Ok(i) => {
                self.out.input = wire(i);
                self.out.compute();
                Ok(())
            },
            Err(f) => Err(f),
        }
    }

    /// Shows the staged instruction.
    pub fn clk(&mut self)
        ensures
            final(self).input == old(self).input,
            final(self).out.input == old(self).out.input,
            final(self).out.next_value == old(self).out.next_value,
            final(self).output() == old(self).out.next_value,
    {
        self.out.clk();
    }
}

} // verus!
