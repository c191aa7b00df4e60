use mrvm_core::extinstr::ExtInstr;
use mrvm_core::instr::{Instr, RegOrLit1, RegOrLit2};
use mrvm_core::metadata::{
    ClockType, DeviceCategory, DeviceMetadata, DisplayType, KeyboardType, MemoryType, StorageType,
};
use mrvm_core::prog::{Program, ProgramWord};
use mrvm_core::reg::Reg;

#[test]
fn instr_to_lasm() {
    assert_eq!(Instr::HLT.to_lasm(), "halt");
    assert_eq!(Instr::RET.to_lasm(), "ret");
    assert_eq!(Instr::CPY(Reg::a0, RegOrLit2::Lit(0x1234)).to_lasm(), "cpy a0, 0x1234");
    assert_eq!(Instr::ADD(Reg::t3, RegOrLit2::Reg(Reg::s7)).to_lasm(), "add t3, s7");
    assert_eq!(Instr::NOT(Reg::avr).to_lasm(), "not avr");
    assert_eq!(Instr::SHL(Reg::a0, RegOrLit1::Lit(16)).to_lasm(), "shl a0, 0x10");
    assert_eq!(Instr::JMP(RegOrLit2::Lit(0xFFFC)).to_lasm(), "jmp 0xFFFC");
    assert_eq!(Instr::CALL(RegOrLit2::Reg(Reg::rr6)).to_lasm(), "call rr6");
    assert_eq!(
        Instr::LEA(RegOrLit1::Reg(Reg::avr), RegOrLit1::Lit(0), RegOrLit1::Lit(0)).to_lasm(),
        "lea avr, 0x00, 0x00",
    );
}

#[test]
fn raw_word_to_lasm() {
    assert_eq!(ProgramWord::Raw([0xDE, 0xAD, 0xBE, 0xEF]).to_lasm(), "#d32 0xDEADBEEF");
}

#[test]
fn program_to_lasm_joins_lines() {
    let p = Program::from_instr(vec![
        Instr::CPY(Reg::a0, RegOrLit2::Lit(0x1234)),
        Instr::HLT,
    ]);
    assert_eq!(p.to_lasm_lines(), vec!["cpy a0, 0x1234".to_string(), "halt".to_string()]);
    assert_eq!(p.to_lasm(false), "cpy a0, 0x1234\nhalt");
    assert_eq!(
        p.to_lasm_lines_annotated(),
        vec![
            "0x00000000: cpy a0, 0x1234".to_string(),
            "0x00000004: halt".to_string(),
        ],
    );
    assert_eq!(p.to_lasm(true), "0x00000000: cpy a0, 0x1234\n0x00000004: halt");
    assert_eq!(Program::new().to_lasm(false), "");
}

#[test]
fn set_reg_lowering_is_contractual() {
    let instrs = ExtInstr::SetReg(Reg::a0, 0xDEAD_BEEF).to_instr();
    assert_eq!(
        instrs,
        vec![
            Instr::CPY(Reg::a0, RegOrLit2::Lit(0xDEAD)),
            Instr::SHL(Reg::a0, RegOrLit1::Lit(16)),
            Instr::ADD(Reg::a0, RegOrLit2::Lit(0xBEEF)),
        ],
    );
    assert_eq!(
        ExtInstr::SetReg(Reg::a0, 0xDEAD_BEEF).encode_words(),
        vec![0x6300_DEAD, 0x5200_1000, 0x0B00_BEEF],
    );
    assert_eq!(
        ExtInstr::SetReg(Reg::a0, 0xDEAD_BEEF).encode(),
        vec![0x63, 0x00, 0xDE, 0xAD, 0x52, 0x00, 0x10, 0x00, 0x0B, 0x00, 0xBE, 0xEF],
    );
}

#[test]
fn other_lowerings() {
    let read = ExtInstr::ReadAddr(0x0001_0040).to_instr();
    assert_eq!(read.len(), 4);
    assert_eq!(read[0], Instr::CPY(Reg::avr, RegOrLit2::Lit(0x0001)));
    assert_eq!(read[2], Instr::ADD(Reg::avr, RegOrLit2::Lit(0x0040)));
    assert_eq!(
        read[3],
        Instr::LEA(RegOrLit1::Reg(Reg::avr), RegOrLit1::Lit(0), RegOrLit1::Lit(0)),
    );

    let read_to = ExtInstr::ReadAddrTo(Reg::a2, 0x40).to_instr();
    assert_eq!(read_to.len(), 5);
    assert_eq!(read_to[4], Instr::CPY(Reg::a2, RegOrLit2::Reg(Reg::avr)));

    let write = ExtInstr::WriteAddr(0x80, Reg::a5).to_instr();
    assert_eq!(write.len(), 5);
    assert_eq!(write[3], Instr::CPY(Reg::avr, RegOrLit2::Reg(Reg::a5)));
    assert_eq!(
        write[4],
        Instr::WEA(RegOrLit1::Reg(Reg::rr0), RegOrLit1::Lit(0), RegOrLit1::Lit(0)),
    );

    let write_lit = ExtInstr::WriteAddrLit(0x2000, 0x42).to_instr();
    assert_eq!(write_lit.len(), 7);
    assert_eq!(write_lit[0], Instr::CPY(Reg::rr0, RegOrLit2::Lit(0)));
    assert_eq!(write_lit[2], Instr::ADD(Reg::rr0, RegOrLit2::Lit(0x2000)));
}

#[test]
fn metadata_type_codes_roundtrip() {
    assert_eq!(ClockType::decode(ClockType::Realtime.code()), Ok(ClockType::Realtime));
    assert_eq!(MemoryType::decode(MemoryType::Volatile.code()), Ok(MemoryType::Volatile));
    assert_eq!(
        KeyboardType::decode(KeyboardType::ReadlineSynchronous.code()),
        Ok(KeyboardType::ReadlineSynchronous),
    );
    for t in [DisplayType::Number, DisplayType::Buffered] {
        assert_eq!(DisplayType::decode(t.code()), Ok(t));
    }
    for t in [StorageType::Readonly, StorageType::Flash, StorageType::Persistent] {
        assert_eq!(StorageType::decode(t.code()), Ok(t));
    }
    assert!(ClockType::decode(0xDEAD).is_err());
    assert!(DisplayType::decode(0).is_err());
    assert!(KeyboardType::decode(2).is_err());
    assert!(MemoryType::decode(0x101).is_err());
    assert!(StorageType::decode(0x22).is_err());
}

#[test]
fn category_encodings() {
    assert_eq!(MemoryType::Volatile.wrap(), DeviceCategory::Memory(MemoryType::Volatile));
    assert_eq!(MemoryType::Volatile.encode(), 0x0000_0001_0000_0100);
    assert_eq!(StorageType::Flash.encode(), 0x0000_0002_0000_0011);
    assert_eq!(DisplayType::Buffered.encode(), 0x0000_0003_0000_0100);
    assert_eq!(KeyboardType::ReadlineSynchronous.encode(), 0x0000_0004_0000_0100);
    assert_eq!(ClockType::Realtime.encode(), 0x0000_0005_0000_0001);
    assert_eq!(DeviceCategory::Clock(ClockType::Realtime).category_code(), 0x5);
    assert_eq!(DeviceCategory::Clock(ClockType::Realtime).type_code(), 0x1);
}

#[test]
fn metadata_block_layout() {
    let m = DeviceMetadata::new(
        0x1122_3344_5566_7788,
        0x1000,
        DeviceCategory::Storage(StorageType::Readonly),
        0,
    );
    assert_eq!(
        m.encode(),
        [0x1122_3344, 0x5566_7788, 0x1000, 0x0002_0100, 0, 0, 0, 0],
    );
}
