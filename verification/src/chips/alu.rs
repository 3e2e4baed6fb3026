//! What the execute stage computes: the result of each operation, the
//! outcome of each branch, the target of each jump. All of it is a
//! function of the operands alone.

use crate::chips::decode::Operation;
use crate::chips::{mux2, Word, FOUR, ONE, ZERO};
use vstd::prelude::*;

verus! {

/// The operations that take their second operand, and their shift amount,
/// from the second source register.
pub open spec fn reads_rs2_as_operand(op: Operation) -> bool {
    op is ADD || op is SLT || op is SLTU || op is XOR || op is OR || op is AND || op is SLL
        || op is SRL || op is SRA
}

/// The six conditional branches.
pub open spec fn is_branch(op: Operation) -> bool {
    op is BEQ || op is BNE || op is BLT || op is BGE || op is BLTU || op is BGEU
}

/// The five loads.
pub open spec fn is_load(op: Operation) -> bool {
    op is LB || op is LH || op is LW || op is LBU || op is LHU
}

/// The three stores.
pub open spec fn is_store(op: Operation) -> bool {
    op is SB || op is SH || op is SW
}

/// The operations that load the program counter: the jumps, the branches
/// and `AUIPC`.
pub open spec fn loads_pc(op: Operation) -> bool {
    op is JAL || op is JALR || op is AUIPC || is_branch(op)
}

/// The operations that write the destination register: the jumps that
/// link, and whatever neither loads the program counter, nor stores, nor
/// traps.
pub open spec fn writes_rd(op: Operation) -> bool {
    op is JAL || op is JALR || !(loads_pc(op) || is_store(op) || op is ECALL || op is EBREAK)
}

/// The second operand of the arithmetic and logic unit.
pub open spec fn second_operand_spec(op: Operation, imm: Word, rs2: Word) -> Word {
    if reads_rs2_as_operand(op) {
        rs2
    } else {
        imm
    }
}

/// The amount by which a shift shifts. Only its low five bits count.
pub open spec fn shift_amount_spec(op: Operation, shamtw: Word, rs2: Word) -> Word {
    if reads_rs2_as_operand(op) {
        rs2
    } else {
        shamtw
    }
}

/// A word read as a signed number in two's complement.
pub open spec fn signed(w: Word) -> i32 {
    w as i32
}

/// The high word of the product of two signed words.
pub open spec fn mulh_spec(a: Word, b: Word) -> Word {
    (((signed(a) as i64 * signed(b) as i64) as i64) >> 32) as u32
}

/// The high word of the product of a signed and an unsigned word.
pub open spec fn mulhsu_spec(a: Word, b: Word) -> Word {
    (((signed(a) as i64 * b as i64) as i64) >> 32) as u32
}

/// The high word of the product of two unsigned words.
pub open spec fn mulhu_spec(a: Word, b: Word) -> Word {
    (((a as u64 * b as u64) as u64) >> 32) as u32
}

/// Signed division. By zero, and where the quotient does not fit, it is
/// the greatest signed number.
pub open spec fn div_spec(a: Word, b: Word) -> Word {
    match signed(a).checked_div(signed(b)) {
        Some(q) => q as u32,
        None => 0x7FFF_FFFF,
    }
}

/// Unsigned division. By zero it is the greatest unsigned number.
pub open spec fn divu_spec(a: Word, b: Word) -> Word {
    if b == 0 {
        0xFFFF_FFFF
    } else {
        a / b
    }
}

/// The signed remainder. By zero, and where the quotient does not fit, it
/// is the dividend.
pub open spec fn rem_spec(a: Word, b: Word) -> Word {
    match signed(a).checked_rem(signed(b)) {
        Some(r) => r as u32,
        None => a,
    }
}

/// The unsigned remainder. By zero it is the dividend.
pub open spec fn remu_spec(a: Word, b: Word) -> Word {
    if b == 0 {
        a
    } else {
        a % b
    }
}

/// The result of the arithmetic and logic unit: `a` is the first source
/// register, `b` the second operand, `shamt` the shift amount, `rs2` the
/// second source register. Operations that compute nothing here give zero.
pub open spec fn alu_spec(op: Operation, a: Word, b: Word, shamt: Word, rs2: Word) -> Word {
    match op {
        Operation::ADDI | Operation::ADD => a.wrapping_add(b),
        Operation::SLTI | Operation::SLT => if signed(a) < signed(b) {
            1
        } else {
            0
        },
        Operation::SLTIU | Operation::SLTU => if a < b {
            1
        } else {
            0
        },
        Operation::XORI | Operation::XOR => a ^ b,
        Operation::ORI | Operation::OR => a | b,
        Operation::ANDI | Operation::AND => a & b,
        Operation::SLLI | Operation::SLL => a << (shamt % 32),
        Operation::SRLI | Operation::SRL => a >> (shamt % 32),
        Operation::SRAI | Operation::SRA => (signed(a) >> (shamt % 32)) as u32,
        Operation::SUB => a.wrapping_sub(rs2),
        Operation::MUL => a.wrapping_mul(rs2),
        Operation::MULH => mulh_spec(a, rs2),
        Operation::MULHSU => mulhsu_spec(a, rs2),
        Operation::MULHU => mulhu_spec(a, rs2),
        Operation::DIV => div_spec(a, rs2),
        Operation::DIVU => divu_spec(a, rs2),
        Operation::REM => rem_spec(a, rs2),
        Operation::REMU => remu_spec(a, rs2),
        _ => 0,
    }
}

/// Whether a branch is taken. No other operation is.
pub open spec fn branch_taken_spec(op: Operation, rs1: Word, rs2: Word) -> bool {
    match op {
        Operation::BEQ => rs1 == rs2,
        Operation::BNE => rs1 != rs2,
        Operation::BLT => signed(rs1) < signed(rs2),
        Operation::BGE => signed(rs1) >= signed(rs2),
        Operation::BLTU => rs1 < rs2,
        Operation::BGEU => rs1 >= rs2,
        _ => false,
    }
}

/// A word read as a signed number.
pub fn to_signed(w: Word) -> (s: i32)
    ensures
        s == signed(w),
{
    #[verifier::truncate]
    (w as i32)
}

/// The second operand of the arithmetic and logic unit.
pub fn second_operand(op: Operation, imm: Word, rs2: Word) -> (b: Word)
    ensures
        b == second_operand_spec(op, imm, rs2),
{
    match op {
        Operation::ADD
        | Operation::SLT
        | Operation::SLTU
        | Operation::XOR
        | Operation::OR
        | Operation::AND
        | Operation::SLL
        | Operation::SRL
        | Operation::SRA => rs2,
        _ => imm,
    }
}

/// The amount by which a shift shifts.
pub fn shift_amount(op: Operation, shamtw: Word, rs2: Word) -> (s: Word)
    ensures
        s == shift_amount_spec(op, shamtw, rs2),
{
    match op {
        Operation::ADD
        | Operation::SLT
        | Operation::SLTU
        | Operation::XOR
        | Operation::OR
        | Operation::AND
        | Operation::SLL
        | Operation::SRL
        | Operation::SRA => rs2,
        _ => shamtw,
    }
}

/// The arithmetic and logic unit.
pub fn alu(op: Operation, a: Word, b: Word, shamt: Word, rs2: Word) -> (r: Word)
    ensures
        r == alu_spec(op, a, b, shamt, rs2),
{
    match op {
        Operation::ADDI | Operation::ADD => a.wrapping_add(b),
        Operation::SLTI | Operation::SLT => mux2(ZERO, ONE, to_signed(a) < to_signed(b)),
        Operation::SLTIU | Operation::SLTU => mux2(ZERO, ONE, a < b),
        Operation::XORI | Operation::XOR => a ^ b,
        Operation::ORI | Operation::OR => a | b,
        Operation::ANDI | Operation::AND => a & b,
        Operation::SLLI | Operation::SLL => a << (shamt % 32),
        Operation::SRLI | Operation::SRL => a >> (shamt % 32),
        Operation::SRAI | Operation::SRA => {
            let s = to_signed(a) >> (shamt % 32);
            #[verifier::truncate]
            (s as u32)
        },
        Operation::SUB => a.wrapping_sub(rs2),
        Operation::MUL => a.wrapping_mul(rs2),
        Operation::MULH => {
            let x = to_signed(a) as i64;
            let y = to_signed(rs2) as i64;
            assert(-0x4000_0000_0000_0000 <= x * y <= 0x4000_0000_0000_0000) by (nonlinear_arith)
                requires
                    -0x8000_0000 <= x <= 0x7FFF_FFFF,
                    -0x8000_0000 <= y <= 0x7FFF_FFFF,
            ;
            let p = (x * y) >> 32;
            #[verifier::truncate]
            (p as u32)
        },
        Operation::MULHSU => {
            let x = to_signed(a) as i64;
            let y = rs2 as i64;
            assert(-0x8000_0000_0000_0000 <= x * y <= 0x7FFF_FFFF_0000_0000) by (nonlinear_arith)
                requires
                    -0x8000_0000 <= x <= 0x7FFF_FFFF,
                    0 <= y <= 0xFFFF_FFFF,
            ;
            let p = (x * y) >> 32;
            #[verifier::truncate]
            (p as u32)
        },
        Operation::MULHU => {
            let x = a as u64;
            let y = rs2 as u64;
            assert(0 <= x * y <= 0xFFFF_FFFE_0000_0001) by (nonlinear_arith)
                requires
                    0 <= x <= 0xFFFF_FFFF,
                    0 <= y <= 0xFFFF_FFFF,
            ;
            let p = (x * y) >> 32;
            #[verifier::truncate]
            (p as u32)
        },
        Operation::DIV => match to_signed(a).checked_div(to_signed(rs2)) {
            Some(q) => {
                #[verifier::truncate]
                (q as u32)
            },
            None => 0x7FFF_FFFF,
        },
        Operation::DIVU => match a.checked_div(rs2) {
            Some(q) => q,
            None => 0xFFFF_FFFF,
        },
        Operation::REM => match to_signed(a).checked_rem(to_signed(rs2)) {
            Some(r) => {
                #[verifier::truncate]
                (r as u32)
            },
            None => a,
        },
        Operation::REMU => match a.checked_rem(rs2) {
            Some(r) => r,
            None => a,
        },
        _ => ZERO,
    }
}

/// Decides a branch.
pub fn branch_taken(op: Operation, rs1: Word, rs2: Word) -> (taken: bool)
    ensures
        taken == branch_taken_spec(op, rs1, rs2),
{
    match op {
        Operation::BEQ => rs1 == rs2,
        Operation::BNE => rs1 != rs2,
        Operation::BLT => to_signed(rs1) < to_signed(rs2),
        Operation::BGE => to_signed(rs1) >= to_signed(rs2),
        Operation::BLTU => rs1 < rs2,
        Operation::BGEU => rs1 >= rs2,
        _ => false,
    }
}

/// The address of the instruction that follows the one at `pc`.
pub open spec fn link_spec(pc: Word) -> Word {
    pc.wrapping_add(4)
}

/// Where a branch or a jump at `pc` leads: for `JALR` to the sum of the
/// first source register and the immediate, its lowest bit cleared; for
/// the others to `pc` plus the immediate.
pub open spec fn target_spec(op: Operation, pc: Word, imm: Word, rs1: Word) -> Word {
    if op is JALR {
        (rs1.wrapping_add(imm) >> 1) << 1
    } else {
        pc.wrapping_add(imm)
    }
}

/// Whether the instruction leaves the straight path: a jump, `AUIPC`, or
/// a branch that is taken.
pub open spec fn redirects_spec(op: Operation, rs1: Word, rs2: Word) -> bool {
    op is JAL || op is JALR || op is AUIPC || branch_taken_spec(op, rs1, rs2)
}

/// The address of the instruction that is executed next.
pub open spec fn next_pc_spec(op: Operation, pc: Word, imm: Word, rs1: Word, rs2: Word) -> Word {
    if redirects_spec(op, rs1, rs2) {
        target_spec(op, pc, imm, rs1)
    } else {
        link_spec(pc)
    }
}

/// The address that a load or a store accesses.
pub open spec fn effective_address_spec(rs1: Word, imm: Word) -> Word {
    rs1.wrapping_add(imm)
}

/// The value that an instruction has for its destination register:
/// `loaded` is the word that the memory showed, for the loads.
pub open spec fn result_spec(
    op: Operation,
    rs1: Word,
    rs2: Word,
    imm: Word,
    shamtw: Word,
    pc: Word,
    loaded: Word,
) -> Word {
    if op is LUI {
        imm
    } else if op is JAL || op is JALR {
        link_spec(pc)
    } else if is_load(op) {
        loaded
    } else {
        alu_spec(
            op,
            rs1,
            second_operand_spec(op, imm, rs2),
            shift_amount_spec(op, shamtw, rs2),
            rs2,
        )
    }
}

/// Tells whether the operation loads the program counter.
pub fn drives_pc(op: Operation) -> (b: bool)
    ensures
        b == loads_pc(op),
{
    match op {
        Operation::JAL
        | Operation::JALR
        | Operation::AUIPC
        | Operation::BEQ
        | Operation::BNE
        | Operation::BLT
        | Operation::BGE
        | Operation::BLTU
        | Operation::BGEU => true,
        _ => false,
    }
}

/// Tells whether the operation writes the destination register.
pub fn drives_rd(op: Operation) -> (b: bool)
    ensures
        b == writes_rd(op),
{
    match op {
        Operation::AUIPC
        | Operation::BEQ
        | Operation::BNE
        | Operation::BLT
        | Operation::BGE
        | Operation::BLTU
        | Operation::BGEU
        | Operation::SB
        | Operation::SH
        | Operation::SW
        | Operation::ECALL
        | Operation::EBREAK => false,
        _ => true,
    }
}

/// Tells whether the instruction leaves the straight path.
pub fn redirects(op: Operation, rs1: Word, rs2: Word) -> (b: bool)
    ensures
        b == redirects_spec(op, rs1, rs2),
{
    match op {
        Operation::JAL | Operation::JALR | Operation::AUIPC => true,
        _ => branch_taken(op, rs1, rs2),
    }
}

/// Resolves the address of the instruction that is executed next.
pub fn next_pc(op: Operation, pc: Word, imm: Word, rs1: Word, rs2: Word) -> (next: Word)
    ensures
        next == next_pc_spec(op, pc, imm, rs1, rs2),
{
    let target = pc.wrapping_add(imm);
    match op {
        Operation::JALR => (rs1.wrapping_add(imm) >> 1) << 1,
        Operation::JAL | Operation::AUIPC => target,
        _ => mux2(pc.wrapping_add(FOUR), target, branch_taken(op, rs1, rs2)),
    }
}

/// Division by zero does not trap. The signed quotient is then the
/// greatest signed number, the unsigned one the greatest unsigned number,
/// and either remainder is the dividend.
pub proof fn lemma_division_by_zero(a: Word, b: Word, shamt: Word)
    ensures
        alu_spec(Operation::DIV, a, b, shamt, 0) == 0x7FFF_FFFF,
        alu_spec(Operation::DIVU, a, b, shamt, 0) == 0xFFFF_FFFF,
        alu_spec(Operation::REM, a, b, shamt, 0) == a,
        alu_spec(Operation::REMU, a, b, shamt, 0) == a,
{
}

} // verus!
