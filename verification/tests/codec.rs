use mrvm_core::bytes::{bytes_to_words, words_to_bytes, word_of, bytes_of};
use mrvm_core::instr::{Instr, InstrDecodingError, RegOrLit1, RegOrLit2};
use mrvm_core::prog::{Program, ProgramWord};
use mrvm_core::reg::Reg;

fn roundtrip(i: Instr) {
    let b = i.encode();
    assert_eq!(Instr::decode(b), Ok(i));
    let decoded = Instr::decode(b).unwrap();
    assert_eq!(decoded.encode(), b);
}

#[test]
fn instr_roundtrips() {
    roundtrip(Instr::HLT);
    roundtrip(Instr::RET);
    roundtrip(Instr::ADD(Reg::a0, RegOrLit2::Lit(0xBEEF)));
    roundtrip(Instr::SUB(Reg::t3, RegOrLit2::Reg(Reg::s7)));
    roundtrip(Instr::MUL(Reg::a1, RegOrLit2::Lit(7)));
    roundtrip(Instr::DIV(Reg::a2, RegOrLit2::Reg(Reg::a3)));
    roundtrip(Instr::MOD(Reg::a4, RegOrLit2::Lit(3)));
    roundtrip(Instr::AND(Reg::s0, RegOrLit2::Lit(0xFF00)));
    roundtrip(Instr::OR(Reg::s1, RegOrLit2::Reg(Reg::rr0)));
    roundtrip(Instr::XOR(Reg::s2, RegOrLit2::Lit(0xAAAA)));
    roundtrip(Instr::NOT(Reg::avr));
    roundtrip(Instr::SHL(Reg::a0, RegOrLit1::Lit(16)));
    roundtrip(Instr::SHR(Reg::a0, RegOrLit1::Reg(Reg::a1)));
    roundtrip(Instr::CPY(Reg::a0, RegOrLit2::Lit(0x1234)));
    roundtrip(Instr::CMP(Reg::a0, RegOrLit2::Reg(Reg::a1)));
    roundtrip(Instr::JMP(RegOrLit2::Lit(0xFFFC)));
    roundtrip(Instr::CALL(RegOrLit2::Reg(Reg::t0)));
    roundtrip(Instr::IFEQ(RegOrLit2::Lit(8)));
    roundtrip(Instr::IFNE(RegOrLit2::Reg(Reg::t1)));
    roundtrip(Instr::IFLT(RegOrLit2::Lit(4)));
    roundtrip(Instr::IFGT(RegOrLit2::Lit(12)));
    roundtrip(Instr::LEA(RegOrLit1::Reg(Reg::avr), RegOrLit1::Lit(0), RegOrLit1::Lit(0)));
    roundtrip(Instr::WEA(RegOrLit1::Reg(Reg::rr0), RegOrLit1::Lit(0), RegOrLit1::Lit(0)));
}

#[test]
fn hlt_encodes_to_zero_word() {
    assert_eq!(Instr::HLT.encode(), [0, 0, 0, 0]);
    assert_eq!(Instr::HLT.encode_word(), 0x0000_0000);
}

#[test]
fn cpy_imm_encoding() {
    let i = Instr::CPY(Reg::a0, RegOrLit2::Lit(0x1234));
    assert_eq!(i.encode(), [0x63, 0x00, 0x12, 0x34]);
    assert_eq!(i.encode_word(), 0x6300_1234);
}

#[test]
fn decode_rejects_unknown_opcode() {
    assert_eq!(
        Instr::decode([0xB8, 0, 0, 0]),
        Err(InstrDecodingError::UnknownOpCode(0xB8)),
    );
}

#[test]
fn decode_rejects_invalid_operand_kind() {
    // ADD with kind bits 001: no such operand layout.
    assert_eq!(
        Instr::decode([0x09, 0, 0, 0]),
        Err(InstrDecodingError::InvalidOperandKind(0x09)),
    );
    // HLT with a nonzero operand slot.
    assert_eq!(
        Instr::decode([0x00, 1, 0, 0]),
        Err(InstrDecodingError::InvalidOperandKind(0x00)),
    );
}

#[test]
fn decode_rejects_unknown_register() {
    // ADD reg, reg with a register selector of 32.
    assert_eq!(
        Instr::decode([0x08, 0x20, 0, 0]),
        Err(InstrDecodingError::UnknownRegister(0x20)),
    );
}

#[test]
fn register_selectors_roundtrip() {
    for code in 0u8..32 {
        let r = Reg::from_code(code).unwrap();
        assert_eq!(r.code(), code);
    }
    assert!(Reg::from_code(32).is_none());
    assert!(Reg::from_code(255).is_none());
}

#[test]
fn bytes_words_roundtrip() {
    let bytes = vec![0xDE, 0xAD, 0xBE, 0xEF, 0x00, 0x00, 0x12, 0x34];
    assert_eq!(bytes_to_words(&bytes), vec![0xDEAD_BEEF, 0x0000_1234]);
    let words = vec![0xDEAD_BEEF, 0x0000_1234, 0, u32::MAX];
    assert_eq!(bytes_to_words(&words_to_bytes(&words)), words);
}

#[test]
fn bytes_to_words_pads_partial_tail() {
    assert_eq!(bytes_to_words(&vec![0xDE]), vec![0xDE00_0000]);
    assert_eq!(bytes_to_words(&vec![0xDE, 0xAD, 0xBE]), vec![0xDEAD_BE00]);
    assert_eq!(bytes_to_words(&vec![]), Vec::<u32>::new());
}

#[test]
fn word_byte_helpers() {
    assert_eq!(word_of(0xDE, 0xAD, 0xBE, 0xEF), 0xDEAD_BEEF);
    assert_eq!(bytes_of(0xDEAD_BEEF), (0xDE, 0xAD, 0xBE, 0xEF));
}

#[test]
fn program_edits() {
    let mut p = Program::new();
    assert_eq!(p.size(), 0);
    p.append(ProgramWord::Instr(Instr::RET));
    p.prepend(ProgramWord::Instr(Instr::HLT));
    p.append_all(&vec![ProgramWord::Instr(Instr::NOT(Reg::a0))]);
    p.prepend_all(&vec![
        ProgramWord::Instr(Instr::CPY(Reg::a0, RegOrLit2::Lit(1))),
        ProgramWord::Instr(Instr::CPY(Reg::a1, RegOrLit2::Lit(2))),
    ]);
    assert_eq!(p.size(), 5);
    assert_eq!(
        p.prog_words().clone(),
        vec![
            ProgramWord::Instr(Instr::CPY(Reg::a0, RegOrLit2::Lit(1))),
            ProgramWord::Instr(Instr::CPY(Reg::a1, RegOrLit2::Lit(2))),
            ProgramWord::Instr(Instr::HLT),
            ProgramWord::Instr(Instr::RET),
            ProgramWord::Instr(Instr::NOT(Reg::a0)),
        ],
    );
}

#[test]
fn program_from_instr_and_encode() {
    let p = Program::from_instr(vec![
        Instr::CPY(Reg::a0, RegOrLit2::Lit(0x1234)),
        Instr::HLT,
    ]);
    assert_eq!(p.encode(), vec![0x63, 0x00, 0x12, 0x34, 0x00, 0x00, 0x00, 0x00]);
    assert_eq!(p.encode_words(), vec![0x6300_1234, 0x0000_0000]);
    assert_eq!(p.to_folded_bytes(), vec![[0x63, 0x00, 0x12, 0x34], [0, 0, 0, 0]]);
}

#[test]
fn program_decode_reencodes_bit_identically() {
    // A valid instruction, then a word that is raw data (unknown opcode).
    let bytes = vec![0x63, 0x00, 0x12, 0x34, 0xFF, 0x01, 0x02, 0x03];
    let p = Program::decode(&bytes, false).unwrap();
    assert_eq!(p.size(), 2);
    assert_eq!(
        p.prog_words()[0],
        ProgramWord::Instr(Instr::CPY(Reg::a0, RegOrLit2::Lit(0x1234))),
    );
    assert!(matches!(p.prog_words()[1], ProgramWord::Raw([0xFF, 0x01, 0x02, 0x03])));
    assert_eq!(p.encode(), bytes);
}

#[test]
fn program_decode_strict_reports_first_error() {
    let bytes = vec![0x00, 0x00, 0x00, 0x00, 0xFF, 0x01, 0x02, 0x03];
    assert_eq!(
        Program::decode(&bytes, true),
        Err((1, InstrDecodingError::UnknownOpCode(0xFF))),
    );
}

#[test]
fn program_decode_rejects_misaligned_source() {
    let bytes = vec![0x00, 0x00, 0x00, 0x00, 0x01];
    assert_eq!(
        Program::decode(&bytes, false),
        Err((0, InstrDecodingError::SourceNotMultipleOf4Bytes)),
    );
}
