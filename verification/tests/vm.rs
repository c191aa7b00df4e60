use mrvm_core::board::{BusError, Motherboard};
use mrvm_core::device::{Device, VolatileMem};
use mrvm_core::extinstr::ExtInstr;
use mrvm_core::instr::{Instr, RegOrLit1, RegOrLit2};
use mrvm_core::mapper::MappingError;
use mrvm_core::prog::Program;
use mrvm_core::reg::Reg;

/// A motherboard with one RAM of `size` bytes at address 0, holding the
/// program's words at its start.
fn boot(words: Vec<u32>, size: u32) -> Motherboard {
    let ram = VolatileMem::from_with_size(words, size, 0xBEEF).unwrap();
    let mut mb = Motherboard::new(vec![Device::Volatile(ram)]);
    mb.map_contiguous(0, &vec![0]).unwrap();
    mb
}

fn run_until_halt(mb: &mut Motherboard, max_steps: usize) {
    let mut steps = 0;
    while !mb.cpu().halted {
        mb.next();
        steps += 1;
        assert!(steps <= max_steps, "program did not halt");
    }
}

#[test]
fn hlt_only() {
    // The HLT word is 0x00000000, so a freshly reset RAM halts at once,
    // without advancing pc.
    let mut mb = boot(vec![0x0000_0000], 0x1000);
    mb.reset();
    mb.next();
    assert!(mb.cpu().halted);
    assert_eq!(mb.cpu().pc, 0);
    assert_eq!(mb.cpu().ec, 0);
}

#[test]
fn set_register_low_half() {
    let words = Program::from_instr(vec![
        Instr::CPY(Reg::a0, RegOrLit2::Lit(0x1234)),
        Instr::HLT,
    ]).encode_words();
    assert_eq!(words[0], 0x6300_1234);
    let mut mb = boot(words, 0x1000);
    mb.next();
    assert_eq!(mb.cpu().regs[0], 0x0000_1234);
    assert_eq!(mb.cpu().pc, 4);
}

#[test]
fn set_reg_lowering_loads_full_word() {
    let words = ExtInstr::SetReg(Reg::a0, 0xDEAD_BEEF).encode_words();
    assert_eq!(words.len(), 3);
    let mut mb = boot(words, 0x1000);
    mb.next();
    mb.next();
    mb.next();
    assert_eq!(mb.cpu().regs[0], 0xDEAD_BEEF);
    assert_eq!(mb.cpu().pc, 12);
    assert!(!mb.cpu().halted);
}

#[test]
fn unaligned_load_raises() {
    // LEA a0, a1, 1 with a1 == 0: effective address 1 is not word-aligned.
    let words = Program::from_instr(vec![
        Instr::LEA(RegOrLit1::Reg(Reg::a0), RegOrLit1::Reg(Reg::a1), RegOrLit1::Lit(1)),
    ]).encode_words();
    let mut mb = boot(words, 0x1000);
    mb.next();
    assert!(mb.cpu().halted);
    assert_eq!(mb.cpu().ec, 0x01);
    assert_eq!(mb.cpu().pga, 1);
}

#[test]
fn unmapped_write_raises() {
    // Only [0, 0x1000) is mapped; write at 0x2000.
    let prog = Program::from_instr(ExtInstr::WriteAddrLit(0x2000, 0x42).to_instr());
    let mut mb = boot(prog.encode_words(), 0x1000);
    run_until_halt(&mut mb, 16);
    assert_eq!(mb.cpu().ec, 0x02);
    assert_eq!(mb.cpu().pga, 0x2000);
}

#[test]
fn division_by_zero_raises() {
    let words = Program::from_instr(vec![
        Instr::DIV(Reg::a0, RegOrLit2::Lit(0)),
    ]).encode_words();
    let mut mb = boot(words, 0x1000);
    mb.next();
    assert!(mb.cpu().halted);
    assert_eq!(mb.cpu().ec, 0x20);
    assert_eq!(mb.cpu().pc, 0);
}

#[test]
fn next_on_halted_cpu_is_noop() {
    let mut mb = boot(vec![0x0000_0000], 0x1000);
    mb.next();
    assert!(mb.cpu().halted);
    let pc = mb.cpu().pc;
    let regs = mb.cpu().regs.clone();
    let word0 = mb.mem_read(0).unwrap();
    mb.next();
    assert!(mb.cpu().halted);
    assert_eq!(mb.cpu().pc, pc);
    assert_eq!(mb.cpu().regs, regs);
    assert_eq!(mb.mem_read(0).unwrap(), word0);
}

#[test]
fn reset_zeroes_ram_and_cpu() {
    let mut mb = boot(vec![0x6300_1234, 0x1111_2222, 0x3333_4444], 0x100);
    mb.next();
    assert_ne!(mb.cpu().pc, 0);
    mb.reset();
    assert_eq!(mb.cpu().pc, 0);
    assert_eq!(mb.cpu().ec, 0);
    assert!(!mb.cpu().halted);
    for k in 0..(0x100 / 4) {
        assert_eq!(mb.mem_read(4 * k).unwrap(), 0);
    }
}

#[test]
fn arithmetic_and_branches() {
    // a0 = 7; a0 *= 6; cmp a0, 42; ifeq +8 (skip the cpy); cpy a1, 1; halt
    let words = Program::from_instr(vec![
        Instr::CPY(Reg::a0, RegOrLit2::Lit(7)),
        Instr::MUL(Reg::a0, RegOrLit2::Lit(6)),
        Instr::CMP(Reg::a0, RegOrLit2::Lit(42)),
        Instr::IFEQ(RegOrLit2::Lit(8)),
        Instr::CPY(Reg::a1, RegOrLit2::Lit(1)),
        Instr::HLT,
    ]).encode_words();
    let mut mb = boot(words, 0x1000);
    run_until_halt(&mut mb, 16);
    assert_eq!(mb.cpu().regs[0], 42);
    assert_eq!(mb.cpu().regs[1], 0, "the ifeq branch must skip the cpy");
    assert_eq!(mb.cpu().cc, 0);
}

#[test]
fn add_sets_carry() {
    let words = Program::from_instr(vec![
        Instr::CPY(Reg::a0, RegOrLit2::Lit(0xFFFF)),
        Instr::SHL(Reg::a0, RegOrLit1::Lit(16)),
        Instr::ADD(Reg::a0, RegOrLit2::Lit(0xFFFF)),
        // a0 == 0xFFFFFFFF, no carry yet
        Instr::ADD(Reg::a0, RegOrLit2::Lit(1)),
        Instr::HLT,
    ]).encode_words();
    let mut mb = boot(words, 0x1000);
    run_until_halt(&mut mb, 16);
    assert_eq!(mb.cpu().regs[0], 0);
    assert_eq!(mb.cpu().cc, 1);
}

#[test]
fn shifts_by_32_or_more_yield_zero() {
    let words = Program::from_instr(vec![
        Instr::CPY(Reg::a0, RegOrLit2::Lit(0x00FF)),
        Instr::SHL(Reg::a0, RegOrLit1::Lit(40)),
        Instr::HLT,
    ]).encode_words();
    let mut mb = boot(words, 0x1000);
    run_until_halt(&mut mb, 8);
    assert_eq!(mb.cpu().regs[0], 0);
}

#[test]
fn call_and_ret_use_system_stack() {
    // ssp grows down from 0x1000; call jumps to 16, the routine sets a0 and
    // returns to the instruction after the call.
    let words = Program::from_instr(vec![
        Instr::CPY(Reg::t0, RegOrLit2::Lit(16)),       // 0
        Instr::CALL(RegOrLit2::Reg(Reg::t0)),          // 4
        Instr::HLT,                                    // 8
        Instr::HLT,                                    // 12
        Instr::CPY(Reg::a0, RegOrLit2::Lit(0x55)),     // 16
        Instr::RET,                                    // 20
    ]).encode_words();
    let mut mb = boot(words, 0x1000);
    mb.cpu.ssp = 0x1000;
    run_until_halt(&mut mb, 16);
    assert_eq!(mb.cpu().regs[8], 16); // t0
    assert_eq!(mb.cpu().regs[0], 0x55);
    assert_eq!(mb.cpu().pc, 8);
    assert_eq!(mb.cpu().ssp, 0x1000);
    assert_eq!(mb.cpu().ec, 0);
}

#[test]
fn read_addr_to_reads_memory() {
    // Read the word at 0x40 into a3.
    let mut prog = Program::from_instr(ExtInstr::ReadAddrTo(Reg::a3, 0x40).to_instr());
    prog.append(mrvm_core::prog::ProgramWord::Instr(Instr::HLT));
    let mut mb = boot(prog.encode_words(), 0x1000);
    mb.mem_write(0x40, 0xCAFE_F00D).unwrap();
    run_until_halt(&mut mb, 16);
    assert_eq!(mb.cpu().regs[0x1F], 0xCAFE_F00D); // avr
    assert_eq!(mb.cpu().regs[3], 0xCAFE_F00D);    // a3
}

#[test]
fn write_addr_writes_register_value() {
    let mut instrs = vec![Instr::CPY(Reg::a5, RegOrLit2::Lit(0x7777))];
    instrs.extend(ExtInstr::WriteAddr(0x80, Reg::a5).to_instr());
    instrs.push(Instr::HLT);
    let mut mb = boot(Program::from_instr(instrs).encode_words(), 0x1000);
    run_until_halt(&mut mb, 16);
    assert_eq!(mb.mem_read(0x80).unwrap(), 0x7777);
}

#[test]
fn fetch_from_unmapped_address_raises() {
    let words = Program::from_instr(vec![
        Instr::JMP(RegOrLit2::Reg(Reg::t7)),
    ]).encode_words();
    let mut mb = boot(words, 0x1000);
    mb.cpu.regs[15] = 0x4000; // t7
    mb.next(); // jmp
    mb.next(); // fetch at 0x4000 fails
    assert!(mb.cpu().halted);
    assert_eq!(mb.cpu().ec, 0x02);
    assert_eq!(mb.cpu().pga, 0x4000);
    assert_eq!(mb.cpu().pc, 0x4000);
}

#[test]
fn invalid_opcode_halts_at_faulting_pc() {
    let mut mb = boot(vec![0xB800_0000], 0x1000);
    mb.next();
    assert!(mb.cpu().halted);
    assert_eq!(mb.cpu().ec, 0x10);
    assert_eq!(mb.cpu().pc, 0);
}

#[test]
fn mem_read_errors() {
    let mut mb = boot(vec![0], 0x1000);
    assert_eq!(mb.mem_read(2), Err(BusError::Unaligned));
    assert_eq!(mb.mem_read(0x2000), Err(BusError::Unmapped));
    assert_eq!(mb.mem_write(3, 1), Err(BusError::Unaligned));
    assert_eq!(mb.mem_write(0x1000, 1), Err(BusError::Unmapped));
}

#[test]
fn map_contiguous_places_back_to_back() {
    let a = VolatileMem::new(0x1000, 1).unwrap();
    let b = VolatileMem::new(0x100, 2).unwrap();
    let mut mb = Motherboard::new(vec![Device::Volatile(a), Device::Volatile(b)]);
    mb.map_contiguous(0x8000, &vec![0, 1]).unwrap();
    let entries = mb.mapper.entries().clone();
    assert_eq!(entries.len(), 2);
    assert_eq!((entries[0].base, entries[0].len, entries[0].dev), (0x8000, 0x1000, 0));
    assert_eq!((entries[1].base, entries[1].len, entries[1].dev), (0x9000, 0x100, 1));
    assert_eq!(mb.mapper.entries()[0].base % 4, 0);
}

#[test]
fn map_contiguous_errors() {
    let a = VolatileMem::new(0x1000, 1).unwrap();
    let b = VolatileMem::new(0x100, 2).unwrap();
    let mut mb = Motherboard::new(vec![Device::Volatile(a), Device::Volatile(b)]);
    assert_eq!(mb.map_contiguous(2, &vec![0]), Err(MappingError::BaseMisaligned));
    assert_eq!(mb.map_contiguous(0, &vec![5]), Err(MappingError::DeviceOutOfRange));
    assert_eq!(
        mb.map_contiguous(0xFFFF_FFFC, &vec![0]),
        Err(MappingError::AddressSpaceOverflow),
    );
    // A device listed twice counts as an overlap.
    assert_eq!(mb.map_contiguous(0, &vec![0, 0]), Err(MappingError::Overlap));
    // A failed placement commits nothing.
    assert_eq!(mb.mapper.entries().len(), 0);
    mb.map_contiguous(0, &vec![0]).unwrap();
    assert_eq!(mb.map_contiguous(0x800, &vec![1]), Err(MappingError::Overlap));
    assert_eq!(mb.mapper.entries().len(), 1);
    mb.map_contiguous(0x1000, &vec![1]).unwrap();
    assert_eq!(mb.mapper.entries().len(), 2);
}

#[test]
fn mapper_lookup_translates() {
    let a = VolatileMem::new(0x1000, 1).unwrap();
    let mut mb = Motherboard::new(vec![Device::Volatile(a)]);
    mb.map_contiguous(0x8000, &vec![0]).unwrap();
    assert_eq!(mb.mapper.lookup(0x8000), Some((0, 0)));
    assert_eq!(mb.mapper.lookup(0x8ffc), Some((0, 0xffc)));
    assert_eq!(mb.mapper.lookup(0x9000), None);
    assert_eq!(mb.mapper.lookup(0x7ffc), None);
}

#[test]
fn volatile_mem_constructors() {
    assert!(VolatileMem::new(0, 1).is_err());
    assert!(VolatileMem::new(6, 1).is_err());
    let m = VolatileMem::new(0x1000, 1).unwrap();
    assert_eq!(m.size(), 0x1000);

    assert!(VolatileMem::from(vec![], 1).is_err());
    let m = VolatileMem::from(vec![1, 2, 3], 1).unwrap();
    assert_eq!(m.size(), 12);

    assert!(VolatileMem::from_with_size(vec![1, 2, 3], 8, 1).is_err());
    assert!(VolatileMem::from_with_size(vec![], 0, 1).is_err());
    assert!(VolatileMem::from_with_size(vec![], 10, 1).is_err());
    let m = VolatileMem::from_with_size(vec![1, 2], 16, 1).unwrap();
    assert_eq!(m.size(), 16);
    assert_eq!(m.storage, vec![1, 2, 0, 0]);
}

#[test]
fn device_bus_contract() {
    let m = VolatileMem::from(vec![10, 20, 30], 0x77).unwrap();
    let mut d = Device::Volatile(m);
    assert_eq!(d.size(), 12);
    let mut ex: u16 = 0;
    assert_eq!(d.read(4, &mut ex), 20);
    assert_eq!(ex, 0);
    d.write(4, 99, &mut ex);
    assert_eq!(d.read(4, &mut ex), 99);
    d.reset();
    assert_eq!(d.read(4, &mut ex), 0);
    let meta = d.metadata();
    assert_eq!(meta[0], 0);
    assert_eq!(meta[1], 0x77);
    assert_eq!(meta[2], 12);
    assert_eq!(meta[3], 0x0001_0100);
    assert_eq!(&meta[4..], &[0, 0, 0, 0]);
}
