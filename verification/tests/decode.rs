use rv32sim::chips::decode::{bit_range, Decode, Instruction, Operation};
use rv32sim::chips::{wire, Fault};

fn decoder() -> Decode {
    Decode::new(wire(0), wire(Instruction::default()))
}

fn op_of(word: u32) -> Operation {
    decoder().decode(word).unwrap().op
}

#[test]
fn addi_minus_one_is_sign_extended() {
    let i = decoder().decode(0xFFF0_0093).unwrap();
    assert_eq!(i.op, Operation::ADDI);
    assert_eq!(i.imm as i32, -1);
    assert_eq!(i.imm, 0xFFFF_FFFF);
    assert_eq!(i.rd, 1);
    assert_eq!(i.rs1, 0);
}

#[test]
fn decode_twice_gives_the_same() {
    let d = decoder();
    for word in [0xFFF0_0093u32, 0x0020_81B3, 0x0000_0073, 0, 0xFFFF_FFFF, 0xFE95_18E3] {
        assert_eq!(d.decode(word), d.decode(word));
    }
}

#[test]
fn bit_range_cuts_fields() {
    assert_eq!(bit_range(0xFFF0_0093, 6, 0), 0x13);
    assert_eq!(bit_range(0xFFF0_0093, 11, 7), 1);
    assert_eq!(bit_range(0xFFF0_0093, 31, 20), 0xFFF);
    assert_eq!(bit_range(0x8000_0000, 31, 31), 1);
    assert_eq!(bit_range(0x1234_5678, 31, 0), 0x1234_5678);
}

#[test]
fn fields_of_add() {
    let i = decoder().decode(0x0020_81B3).unwrap();
    assert_eq!(
        i,
        Instruction { rd: 3, rs1: 1, rs2: 2, imm: 0, shamtw: 2, op: Operation::ADD }
    );
}

#[test]
fn op_group_by_funct7() {
    assert_eq!(op_of(0x0020_81B3), Operation::ADD);
    assert_eq!(op_of(0x4020_81B3), Operation::SUB);
    assert_eq!(op_of(0x4020_D1B3), Operation::SRA);
    assert_eq!(op_of(0x0020_D1B3), Operation::SRL);
    assert_eq!(op_of(0x0020_91B3), Operation::SLL);
    assert_eq!(op_of(0x0020_A1B3), Operation::SLT);
    assert_eq!(op_of(0x0020_B1B3), Operation::SLTU);
    assert_eq!(op_of(0x0020_C1B3), Operation::XOR);
    assert_eq!(op_of(0x0020_E1B3), Operation::OR);
    assert_eq!(op_of(0x0020_F1B3), Operation::AND);
}

#[test]
fn mul_family() {
    assert_eq!(op_of(0x0220_81B3), Operation::MUL);
    assert_eq!(op_of(0x0220_91B3), Operation::MULH);
    assert_eq!(op_of(0x0220_A1B3), Operation::MULHSU);
    assert_eq!(op_of(0x0220_B1B3), Operation::MULHU);
    assert_eq!(op_of(0x0220_C1B3), Operation::DIV);
    assert_eq!(op_of(0x0220_D1B3), Operation::DIVU);
    assert_eq!(op_of(0x0220_E1B3), Operation::REM);
    assert_eq!(op_of(0x0220_F1B3), Operation::REMU);
}

#[test]
fn op_imm_group() {
    assert_eq!(op_of(0x0050_0093), Operation::ADDI);
    assert_eq!(op_of(0x0050_9093), Operation::SLLI);
    assert_eq!(op_of(0x0050_A093), Operation::SLTI);
    assert_eq!(op_of(0x0050_B093), Operation::SLTIU);
    assert_eq!(op_of(0x0050_C093), Operation::XORI);
    assert_eq!(op_of(0x0050_D093), Operation::SRLI);
    assert_eq!(op_of(0x4050_D093), Operation::SRAI);
    assert_eq!(op_of(0x0050_E093), Operation::ORI);
    assert_eq!(op_of(0x0050_F093), Operation::ANDI);
    assert_eq!(decoder().decode(0x4050_D093).unwrap().shamtw, 5);
}

#[test]
fn upper_immediates() {
    let lui = decoder().decode(0x0004_8037).unwrap();
    assert_eq!(lui.op, Operation::LUI);
    assert_eq!(lui.imm, 0x0004_8000);
    assert_eq!(lui.rd, 0);
    let auipc = decoder().decode(0xFFFF_F297).unwrap();
    assert_eq!(auipc.op, Operation::AUIPC);
    assert_eq!(auipc.imm, 0xFFFF_F000);
    assert_eq!(auipc.rd, 5);
}

#[test]
fn jal_immediate() {
    // jal x1, 8
    let i = decoder().decode(0x0080_00EF).unwrap();
    assert_eq!(i.op, Operation::JAL);
    assert_eq!(i.imm, 8);
    assert_eq!(i.rd, 1);
    // jal x0, -4
    let back = decoder().decode(0xFFDF_F06F).unwrap();
    assert_eq!(back.op, Operation::JAL);
    assert_eq!(back.imm as i32, -4);
    // jal x0, 0x800: bit 20 of the word is bit 11 of the immediate
    let far = decoder().decode(0x0010_006F).unwrap();
    assert_eq!(far.imm, 0x800);
    // jal x0, 0x1000: bits 19:12 stay in place
    let page = decoder().decode(0x0000_106F).unwrap();
    assert_eq!(page.imm, 0x1000);
}

#[test]
fn jalr_immediate() {
    // jalr x1, 12(x2)
    let i = decoder().decode(0x00C1_00E7).unwrap();
    assert_eq!(i.op, Operation::JALR);
    assert_eq!(i.imm, 12);
    assert_eq!(i.rs1, 2);
    assert_eq!(i.rd, 1);
}

#[test]
fn branch_immediates() {
    // beq x0, x0, 4
    let beq = decoder().decode(0x0000_0263).unwrap();
    assert_eq!(beq.op, Operation::BEQ);
    assert_eq!(beq.imm, 4);
    // bne x10, x9, -16
    let bne = decoder().decode(0xFE95_18E3).unwrap();
    assert_eq!(bne.op, Operation::BNE);
    assert_eq!(bne.imm as i32, -16);
    assert_eq!(bne.rs1, 10);
    assert_eq!(bne.rs2, 9);
    // bit 7 of the word is bit 11 of the immediate
    let far = decoder().decode(0x0000_00E3).unwrap();
    assert_eq!(far.imm, 0x800);
    assert_eq!(op_of(0x0000_4263), Operation::BLT);
    assert_eq!(op_of(0x0000_5263), Operation::BGE);
    assert_eq!(op_of(0x0000_6263), Operation::BLTU);
    assert_eq!(op_of(0x0000_7263), Operation::BGEU);
}

#[test]
fn load_group() {
    // lw x5, -8(x2)
    let lw = decoder().decode(0xFF81_2283).unwrap();
    assert_eq!(lw.op, Operation::LW);
    assert_eq!(lw.imm as i32, -8);
    assert_eq!(lw.rs1, 2);
    assert_eq!(lw.rd, 5);
    assert_eq!(op_of(0x0001_0283), Operation::LB);
    assert_eq!(op_of(0x0001_1283), Operation::LH);
    assert_eq!(op_of(0x0001_4283), Operation::LBU);
    assert_eq!(op_of(0x0001_5283), Operation::LHU);
    assert_eq!(op_of(0x0001_3283), Operation::LW);
    assert_eq!(op_of(0x0001_6283), Operation::LW);
    assert_eq!(op_of(0x0001_7283), Operation::LW);
}

#[test]
fn store_group() {
    // sw x5, -8(x2)
    let sw = decoder().decode(0xFE51_2C23).unwrap();
    assert_eq!(sw.op, Operation::SW);
    assert_eq!(sw.imm as i32, -8);
    assert_eq!(sw.rs1, 2);
    assert_eq!(sw.rs2, 5);
    // sw x5, 20(x2)
    let fwd = decoder().decode(0x0051_2A23).unwrap();
    assert_eq!(fwd.imm, 20);
    assert_eq!(op_of(0x0051_0A23), Operation::SB);
    assert_eq!(op_of(0x0051_1A23), Operation::SH);
    assert_eq!(op_of(0x0051_3A23), Operation::SW);
    assert_eq!(op_of(0x0051_7A23), Operation::SW);
}

#[test]
fn system_group() {
    let ecall = decoder().decode(0x0000_0073).unwrap();
    assert_eq!(ecall.op, Operation::ECALL);
    assert_eq!(ecall.imm, 0);
    assert_eq!(op_of(0x0200_0073), Operation::EBREAK);
    assert_eq!(decoder().decode(0x0400_0073), Err(Fault::DecodeFault(0x0400_0073)));
}

#[test]
fn unknown_opcode_is_a_decode_fault() {
    assert_eq!(decoder().decode(0), Err(Fault::DecodeFault(0)));
    assert_eq!(decoder().decode(0xFFFF_FFFF), Err(Fault::DecodeFault(0xFFFF_FFFF)));
}

#[test]
fn unknown_funct_is_a_decode_fault() {
    // OP with a funct7 that is none of the three
    assert_eq!(decoder().decode(0x0420_81B3), Err(Fault::DecodeFault(0x0420_81B3)));
    // OP, funct7 0100000, funct3 001
    assert_eq!(decoder().decode(0x4020_91B3), Err(Fault::DecodeFault(0x4020_91B3)));
    // OP-IMM, funct3 101, funct7 0000001
    assert_eq!(decoder().decode(0x0250_D093), Err(Fault::DecodeFault(0x0250_D093)));
    // BRANCH, funct3 010 and 011
    assert_eq!(decoder().decode(0x0000_2263), Err(Fault::DecodeFault(0x0000_2263)));
    assert_eq!(decoder().decode(0x0000_3263), Err(Fault::DecodeFault(0x0000_3263)));
}

#[test]
fn default_instruction_is_idle() {
    assert_eq!(
        Instruction::default(),
        Instruction { rd: 0, rs1: 0, rs2: 0, imm: 0, shamtw: 0, op: Operation::ADDI }
    );
    assert_eq!(Operation::default(), Operation::ADDI);
}

#[test]
fn decoder_shows_instruction_after_clock() {
    let mut d = Decode::new(wire(0x0050_0093), wire(Instruction::default()));
    assert_eq!(d.compute(), Ok(()));
    assert_eq!(d.out.output.get(), Instruction::default());
    d.clk();
    assert_eq!(
        d.out.output.get(),
        Instruction { rd: 1, rs1: 0, rs2: 5, imm: 5, shamtw: 5, op: Operation::ADDI }
    );
}

#[test]
fn decoder_stages_nothing_on_a_fault() {
    let mut d = Decode::new(wire(0x0050_0093), wire(Instruction::default()));
    d.compute().unwrap();
    d.input.set(0);
    assert_eq!(d.compute(), Err(Fault::DecodeFault(0)));
    d.clk();
    assert_eq!(d.out.output.get().imm, 5);
}
