use rv32sim::chips::execute::IOCode;
use rv32sim::chips::memory_access::MemoryAccess;
use rv32sim::chips::ram::RAM;
use rv32sim::chips::register_file::RegFile;
use rv32sim::chips::{wire, Chip, Fault};

fn stage(code: IOCode) -> MemoryAccess {
    let ram: RAM<u32> = RAM::new(wire(0), wire(0), wire(0), wire(false), 8);
    let mut reg_file: RegFile<u32> = RegFile::new(32);
    {
        let r = reg_file.get(3);
        r.input.set(0xCAFE);
        r.load.set(true);
    }
    reg_file.compute();
    reg_file.clk();
    MemoryAccess::new(wire(code), reg_file, ram)
}

#[test]
fn memory_stage_stores_a_register() {
    let mut m = stage(IOCode { register: 3, address: 12, store: true });
    assert_eq!(m.compute(), Ok(()));
    assert_eq!(m.ram.peek(12), 0xCAFE);
    assert_eq!(m.rd, 3);
    m.clk();
    assert_eq!(m.reg_file.peek(3), 0xCAFE);
}

#[test]
fn memory_stage_loads_into_a_register() {
    let mut m = stage(IOCode { register: 3, address: 12, store: true });
    m.compute().unwrap();
    m.clk();
    m.input.set(IOCode { register: 5, address: 12, store: false });
    assert_eq!(m.compute(), Ok(()));
    assert_eq!(m.reg_file.peek(5), 0);
    m.clk();
    assert_eq!(m.reg_file.peek(5), 0xCAFE);
    assert_eq!(m.ram.peek(12), 0xCAFE);
}

#[test]
fn memory_stage_never_loads_into_x0() {
    let mut m = stage(IOCode { register: 3, address: 12, store: true });
    m.compute().unwrap();
    m.clk();
    m.input.set(IOCode { register: 0, address: 12, store: false });
    m.compute().unwrap();
    m.clk();
    assert_eq!(m.reg_file.peek(0), 0);
    assert_eq!(m.reg_file.read(0), 0);
}

#[test]
fn memory_stage_refuses_what_it_cannot_serve() {
    let mut m = stage(IOCode { register: 3, address: 32, store: true });
    assert_eq!(m.compute(), Err(Fault::IndexFault));
    assert_eq!(m.rd, 0);
    let mut m = stage(IOCode { register: 32, address: 0, store: false });
    assert_eq!(m.compute(), Err(Fault::IndexFault));
}
