use rv32sim::chips::decode::{Instruction, Operation};
use rv32sim::chips::execute::{ecall, Execute, HostRequest, IOCode, A0, A1, A7};
use rv32sim::chips::memory::{Memory, SCREEN};
use rv32sim::chips::pc::PC;
use rv32sim::chips::ram::RAM;
use rv32sim::chips::register_file::RegFile;
use rv32sim::chips::rom::ROM;
use rv32sim::chips::{wire, Chip, Fault};

fn stage() -> Execute {
    let ram: RAM<u32> = RAM::new(wire(0), wire(0), wire(0), wire(false), 16);
    let memory = Memory::new(wire(0), wire(0), wire(false), ram);
    Execute::new(wire(Instruction::default()), memory, RegFile::new(32))
}

fn empty_rom() -> ROM<u32> {
    ROM::new(wire(0), wire(0), 8)
}

fn inst(op: Operation, rd: u32, rs1: u32, rs2: u32, imm: u32) -> Instruction {
    Instruction { rd, rs1, rs2, imm, shamtw: rs2, op }
}

fn set(e: &mut Execute, index: u32, value: u32) {
    let mut pc = PC::default();
    let rom = empty_rom();
    let r = e.execute(inst(Operation::ADDI, index, 0, 0, value), &mut pc, &rom);
    assert_eq!(r, Ok(HostRequest::Nothing));
    e.clk();
}

#[test]
fn result_is_staged_until_the_clock_edge() {
    let mut e = stage();
    let mut pc = PC::default();
    let rom = empty_rom();
    let r = e.execute(inst(Operation::ADDI, 1, 0, 0, 5), &mut pc, &rom);
    assert_eq!(r, Ok(HostRequest::Nothing));
    assert_eq!(e.reg_file.peek(1), 0);
    assert_eq!(e.reg_file.registers[1].dff.next_value, 5);
    assert_eq!(e.rd, 1);
    assert_eq!(e.halt, 0);
    assert!(!pc.load.get());
    e.clk();
    assert_eq!(e.reg_file.peek(1), 5);
}

#[test]
fn write_to_register_zero_is_lost() {
    let mut e = stage();
    set(&mut e, 0, 99);
    assert_eq!(e.reg_file.peek(0), 0);
    assert_eq!(e.reg_file.read(0), 0);
    set(&mut e, 1, 7);
    let mut pc = PC::default();
    let rom = empty_rom();
    e.execute(inst(Operation::ADD, 2, 0, 1, 0), &mut pc, &rom).unwrap();
    e.clk();
    assert_eq!(e.reg_file.peek(2), 7);
}

#[test]
fn register_form_takes_rs2() {
    let mut e = stage();
    set(&mut e, 1, 5);
    set(&mut e, 2, 10);
    let mut pc = PC::default();
    let rom = empty_rom();
    e.execute(inst(Operation::ADD, 3, 1, 2, 0), &mut pc, &rom).unwrap();
    e.clk();
    assert_eq!(e.reg_file.peek(3), 15);
    e.execute(inst(Operation::SUB, 4, 1, 2, 0), &mut pc, &rom).unwrap();
    e.clk();
    assert_eq!(e.reg_file.peek(4), (-5i32) as u32);
    e.execute(inst(Operation::SLL, 5, 1, 2, 0), &mut pc, &rom).unwrap();
    e.clk();
    assert_eq!(e.reg_file.peek(5), 5 << 10);
}

#[test]
fn lui_writes_the_immediate() {
    let mut e = stage();
    let mut pc = PC::default();
    let rom = empty_rom();
    e.execute(inst(Operation::LUI, 6, 0, 0, 0x0004_8000), &mut pc, &rom).unwrap();
    e.clk();
    assert_eq!(e.reg_file.peek(6), 0x0004_8000);
}

#[test]
fn jal_links_and_redirects() {
    let mut e = stage();
    let mut pc = PC::new(wire(0), wire(false), wire(false), wire(true), wire(100));
    let rom = empty_rom();
    let r = e.execute(inst(Operation::JAL, 1, 0, 0, 8), &mut pc, &rom);
    assert_eq!(r, Ok(HostRequest::Nothing));
    assert_eq!(e.halt, 2);
    assert!(pc.load.get());
    assert_eq!(pc.input.get(), 108);
    assert_eq!(pc.value(), 100);
    e.clk();
    assert_eq!(e.reg_file.peek(1), 104);
}

#[test]
fn jalr_clears_the_lowest_bit() {
    let mut e = stage();
    set(&mut e, 5, 0x101);
    let mut pc = PC::new(wire(0), wire(false), wire(false), wire(true), wire(100));
    let rom = empty_rom();
    e.execute(inst(Operation::JALR, 1, 5, 0, 4), &mut pc, &rom).unwrap();
    assert_eq!(pc.input.get(), 0x104);
    assert!(pc.load.get());
    assert_eq!(e.halt, 2);
    e.clk();
    assert_eq!(e.reg_file.peek(1), 104);
}

#[test]
fn auipc_loads_the_counter_and_writes_nothing() {
    let mut e = stage();
    let mut pc = PC::new(wire(0), wire(false), wire(false), wire(true), wire(100));
    let rom = empty_rom();
    e.execute(inst(Operation::AUIPC, 7, 0, 0, 0x1000), &mut pc, &rom).unwrap();
    assert_eq!(pc.input.get(), 0x1064);
    assert!(pc.load.get());
    assert_eq!(e.halt, 2);
    e.clk();
    assert_eq!(e.reg_file.peek(7), 0);
}

#[test]
fn branch_taken_redirects() {
    let mut e = stage();
    let mut pc = PC::new(wire(0), wire(false), wire(false), wire(true), wire(100));
    let rom = empty_rom();
    e.execute(inst(Operation::BEQ, 0, 0, 0, 16), &mut pc, &rom).unwrap();
    assert_eq!(pc.input.get(), 116);
    assert!(pc.load.get());
    assert_eq!(e.halt, 2);
}

#[test]
fn branch_not_taken_goes_on() {
    let mut e = stage();
    set(&mut e, 1, 1);
    let mut pc = PC::new(wire(0), wire(false), wire(false), wire(true), wire(100));
    let rom = empty_rom();
    e.execute(inst(Operation::BEQ, 0, 0, 1, 16), &mut pc, &rom).unwrap();
    assert_eq!(pc.input.get(), 104);
    assert!(pc.load.get());
    assert_eq!(e.halt, 0);
}

#[test]
fn misaligned_jump_target_faults() {
    let mut e = stage();
    let mut pc = PC::new(wire(0), wire(false), wire(false), wire(true), wire(100));
    let rom = empty_rom();
    let r = e.execute(inst(Operation::JAL, 1, 0, 0, 2), &mut pc, &rom);
    assert_eq!(r, Err(Fault::AlignmentFault));
    assert_eq!(e.halt, 0);
    assert_eq!(e.rd, 0);
    assert!(!pc.load.get());
    assert_eq!(pc.input.get(), 0);
    assert_eq!(e.reg_file.peek(1), 0);
}

#[test]
fn misaligned_branch_target_faults_when_taken() {
    let mut e = stage();
    set(&mut e, 1, 1);
    let mut pc = PC::new(wire(0), wire(false), wire(false), wire(true), wire(100));
    let rom = empty_rom();
    assert_eq!(
        e.execute(inst(Operation::BNE, 0, 0, 1, 6), &mut pc, &rom),
        Err(Fault::AlignmentFault)
    );
    assert_eq!(
        e.execute(inst(Operation::BEQ, 0, 0, 1, 6), &mut pc, &rom),
        Ok(HostRequest::Nothing)
    );
    assert_eq!(pc.input.get(), 104);
}

#[test]
fn misaligned_jalr_target_faults() {
    let mut e = stage();
    set(&mut e, 5, 0x100);
    let mut pc = PC::default();
    let rom = empty_rom();
    assert_eq!(
        e.execute(inst(Operation::JALR, 1, 5, 0, 2), &mut pc, &rom),
        Err(Fault::AlignmentFault)
    );
    assert_eq!(
        e.execute(inst(Operation::JALR, 1, 5, 0, 3), &mut pc, &rom),
        Err(Fault::AlignmentFault)
    );
    assert_eq!(e.halt, 0);
}

#[test]
fn store_then_load() {
    let mut e = stage();
    set(&mut e, 1, 8);
    set(&mut e, 2, 0xDEAD_BEEF);
    let mut pc = PC::default();
    let rom = empty_rom();
    let r = e.execute(inst(Operation::SW, 0, 1, 2, 4), &mut pc, &rom);
    assert_eq!(r, Ok(HostRequest::Nothing));
    assert_eq!(e.memory.ram.peek(12), 0xDEAD_BEEF);
    e.clk();
    e.execute(inst(Operation::LW, 3, 1, 0, 4), &mut pc, &rom).unwrap();
    e.clk();
    assert_eq!(e.reg_file.peek(3), 0xDEAD_BEEF);
    assert_eq!(e.memory.ram.peek(12), 0xDEAD_BEEF);
    assert_eq!(e.memory.ram.peek(8), 0);
}

#[test]
fn narrow_loads_and_stores_move_whole_words() {
    let mut e = stage();
    set(&mut e, 2, 0x1234_5678);
    let mut pc = PC::default();
    let rom = empty_rom();
    e.execute(inst(Operation::SB, 0, 0, 2, 16), &mut pc, &rom).unwrap();
    e.clk();
    assert_eq!(e.memory.ram.peek(16), 0x1234_5678);
    e.execute(inst(Operation::LBU, 3, 0, 0, 16), &mut pc, &rom).unwrap();
    e.clk();
    assert_eq!(e.reg_file.peek(3), 0x1234_5678);
}

#[test]
fn store_to_screen_is_handed_to_the_host() {
    let mut e = stage();
    set(&mut e, 1, SCREEN);
    set(&mut e, 2, 0xAB);
    let mut pc = PC::default();
    let rom = empty_rom();
    let r = e.execute(inst(Operation::SW, 0, 1, 2, 0x20), &mut pc, &rom);
    assert_eq!(r, Ok(HostRequest::Screen { address: 0x20, value: 0xAB }));
    for a in 0..16u32 {
        assert_eq!(e.memory.ram.peek(4 * a), 0);
    }
}

#[test]
fn access_outside_the_memory_is_an_index_fault() {
    let mut e = stage();
    let mut pc = PC::default();
    let rom = empty_rom();
    assert_eq!(
        e.execute(inst(Operation::LW, 3, 0, 0, 64), &mut pc, &rom),
        Err(Fault::IndexFault)
    );
    assert_eq!(
        e.execute(inst(Operation::SW, 0, 0, 0, 64), &mut pc, &rom),
        Err(Fault::IndexFault)
    );
    assert_eq!(e.rd, 0);
}

#[test]
fn register_outside_the_bank_is_an_index_fault() {
    let mut e = stage();
    let mut pc = PC::default();
    let rom = empty_rom();
    assert_eq!(
        e.execute(inst(Operation::ADDI, 32, 0, 0, 1), &mut pc, &rom),
        Err(Fault::IndexFault)
    );
    assert_eq!(
        e.execute(inst(Operation::ADD, 1, 40, 0, 1), &mut pc, &rom),
        Err(Fault::IndexFault)
    );
    assert_eq!(
        e.execute(inst(Operation::ADD, 1, 0, 99, 1), &mut pc, &rom),
        Err(Fault::IndexFault)
    );
}

#[test]
fn halted_stage_only_counts() {
    let mut e = stage();
    let mut pc = PC::new(wire(0), wire(false), wire(false), wire(true), wire(100));
    let rom = empty_rom();
    e.input.set(inst(Operation::ADDI, 1, 0, 0, 5));
    e.halt = 2;
    assert_eq!(e.compute(&mut pc, &rom), Ok(HostRequest::Nothing));
    assert_eq!(e.halt, 1);
    assert_eq!(e.reg_file.registers[1].dff.next_value, 0);
    assert_eq!(e.compute(&mut pc, &rom), Ok(HostRequest::Nothing));
    assert_eq!(e.halt, 0);
    assert_eq!(e.reg_file.registers[1].dff.next_value, 0);
    assert_eq!(e.compute(&mut pc, &rom), Ok(HostRequest::Nothing));
    assert_eq!(e.reg_file.registers[1].dff.next_value, 5);
}

#[test]
fn trap_services() {
    let rom = empty_rom();
    assert_eq!(ecall(1, 0, 0, &rom), Ok(HostRequest::ReadByte));
    assert_eq!(ecall(2, 0x1234_5641, 0, &rom), Ok(HostRequest::WriteByte(0x41)));
    assert_eq!(ecall(10, 42, 0, &rom), Ok(HostRequest::Exit(42)));
    assert_eq!(ecall(3, 1, 2, &rom), Ok(HostRequest::Nothing));
    assert_eq!(ecall(0, 1, 2, &rom), Ok(HostRequest::Nothing));
    assert_eq!(ecall(11, 1, 2, &rom), Ok(HostRequest::Nothing));
}

#[test]
fn trap_text_takes_bits_19_to_12() {
    let mut rom = empty_rom();
    rom.load(vec![0, 0x0004_8037, 0xFFF6_9FFF, 0x0000_A037]);
    assert_eq!(ecall(4, 4, 3, &rom), Ok(HostRequest::WriteBytes(vec![0x48, 0x69, 0x0A])));
    assert_eq!(ecall(4, 4, 0, &rom), Ok(HostRequest::WriteBytes(vec![])));
    assert_eq!(ecall(4, 5, 1, &rom), Ok(HostRequest::WriteBytes(vec![0x48])));
}

#[test]
fn trap_text_outside_the_store_is_an_index_fault() {
    let rom = empty_rom();
    assert_eq!(ecall(4, 28, 1, &rom), Ok(HostRequest::WriteBytes(vec![0])));
    assert_eq!(ecall(4, 28, 2, &rom), Err(Fault::IndexFault));
    assert_eq!(ecall(4, 32, 1, &rom), Err(Fault::IndexFault));
}

#[test]
fn trap_reads_its_registers() {
    let mut e = stage();
    set(&mut e, A7 as u32, 2);
    set(&mut e, A0 as u32, 0x41);
    set(&mut e, A1 as u32, 9);
    let mut pc = PC::default();
    let rom = empty_rom();
    let r = e.execute(inst(Operation::ECALL, 0, 0, 0, 0), &mut pc, &rom);
    assert_eq!(r, Ok(HostRequest::WriteByte(0x41)));
    assert_eq!(e.halt, 0);
    assert!(!pc.load.get());
}

#[test]
fn ebreak_asks_nothing() {
    let mut e = stage();
    set(&mut e, A7 as u32, 10);
    let mut pc = PC::default();
    let rom = empty_rom();
    let r = e.execute(inst(Operation::EBREAK, 0, 0, 0, 0), &mut pc, &rom);
    assert_eq!(r, Ok(HostRequest::Nothing));
}

#[test]
fn received_byte_lands_in_a0() {
    let mut e = stage();
    set(&mut e, A7 as u32, 1);
    let mut pc = PC::default();
    let rom = empty_rom();
    let r = e.execute(inst(Operation::ECALL, 0, 0, 0, 0), &mut pc, &rom);
    assert_eq!(r, Ok(HostRequest::ReadByte));
    e.receive(0x7A);
    assert_eq!(e.reg_file.peek(A0), 0x7A);
    e.clk();
    assert_eq!(e.reg_file.peek(A0), 0x7A);
    assert_eq!(e.reg_file.peek(A7), 1);
}

#[test]
fn io_code_default_is_a_load_of_nothing() {
    let c = IOCode::default();
    assert_eq!(c, IOCode { register: 0, address: 0, store: false });
}

#[test]
fn memory_cycle_is_idle_afterwards() {
    let mut e = stage();
    set(&mut e, 2, 3);
    let mut pc = PC::default();
    let rom = empty_rom();
    e.execute(inst(Operation::SW, 0, 0, 2, 8), &mut pc, &rom).unwrap();
    assert!(e.memory.ram.is_idle());
    let mut m = e.memory;
    m.address.set(8);
    m.load.set(false);
    m.compute();
    m.clk();
    assert_eq!(m.value(), 3);
}
