//! The 32-bit fixed-width instruction codec.
//!
//! Layout of an instruction word (big-endian bytes):
//! byte 0 is the opcode byte, bytes 1..3 are the three operand slots. The
//! opcode byte packs a 5-bit instruction code (high) with 3 operand-kind bits
//! (low): bit 4 marks slot 1 as an immediate, bit 2 slot 2, bit 1 slot 3. A
//! register operand uses the low 5 bits of its slot; a 16-bit immediate
//! occupies two adjacent slots big-endian; unused slots must be zero, so that
//! encoding is bijective on the set of valid instructions.

use vstd::prelude::*;
use crate::reg::{Reg, spec_reg_code, spec_reg_of_code, lemma_reg_code_bijective};

verus! {

/// An operand slot holding a register or an 8-bit immediate.
#[derive(Copy, Clone, Debug, PartialEq, Eq, Structural)]
pub enum RegOrLit1 {
    Reg(Reg),
    Lit(u8),
}

/// An operand holding a register or a 16-bit immediate.
#[derive(Copy, Clone, Debug, PartialEq, Eq, Structural)]
pub enum RegOrLit2 {
    Reg(Reg),
    Lit(u16),
}

/// A decoded instruction. Every value of this type is a valid instruction.
#[derive(Copy, Clone, Debug, PartialEq, Eq, Structural)]
pub enum Instr {
    /// Halt the CPU; does not advance `pc`.
    HLT,
    /// Wrapping add; the carry goes to `cc`.
    ADD(Reg, RegOrLit2),
    /// Wrapping subtract; the borrow goes to `cc`.
    SUB(Reg, RegOrLit2),
    /// Wrapping multiply.
    MUL(Reg, RegOrLit2),
    /// Unsigned division; a zero divisor raises `DivByZero`.
    DIV(Reg, RegOrLit2),
    /// Unsigned remainder; a zero divisor raises `DivByZero`.
    MOD(Reg, RegOrLit2),
    /// Bitwise and.
    AND(Reg, RegOrLit2),
    /// Bitwise or.
    OR(Reg, RegOrLit2),
    /// Bitwise exclusive or.
    XOR(Reg, RegOrLit2),
    /// Bitwise complement.
    NOT(Reg),
    /// Left shift; a count of 32 or more yields 0.
    SHL(Reg, RegOrLit1),
    /// Logical right shift; a count of 32 or more yields 0.
    SHR(Reg, RegOrLit1),
    /// Copy; an immediate is zero-extended into the register.
    CPY(Reg, RegOrLit2),
    /// Compare; writes the ordering to `cc`.
    CMP(Reg, RegOrLit2),
    /// Jump: absolute through a register, or by a signed relative immediate.
    JMP(RegOrLit2),
    /// Call: push the return address on the system stack, then jump.
    CALL(RegOrLit2),
    /// Return: pop the return address from the system stack.
    RET,
    /// Branch if `cc` says equal.
    IFEQ(RegOrLit2),
    /// Branch if `cc` says not equal.
    IFNE(RegOrLit2),
    /// Branch if `cc` says below.
    IFLT(RegOrLit2),
    /// Branch if `cc` says above.
    IFGT(RegOrLit2),
    /// Read the word at the sum of the three operand values into `avr`.
    LEA(RegOrLit1, RegOrLit1, RegOrLit1),
    /// Write `avr` to the word at the sum of the three operand values.
    WEA(RegOrLit1, RegOrLit1, RegOrLit1),
}

/// Why a 4-byte group failed to decode.
#[derive(Copy, Clone, Debug, PartialEq, Eq, Structural)]
pub enum InstrDecodingError {
    /// The machine-code stream's length is not a multiple of 4 bytes.
    SourceNotMultipleOf4Bytes,
    /// The opcode byte holds an instruction code no instruction has.
    UnknownOpCode(u8),
    /// The opcode byte's kind bits do not fit the instruction, or an unused
    /// slot is not zero.
    InvalidOperandKind(u8),
    /// A register slot holds a selector out of range.
    UnknownRegister(u8),
}

/// Instruction codes (the high 5 bits of the opcode byte).
pub open spec fn spec_instr_code(i: Instr) -> u8 {
    match i {
        Instr::HLT => 0,
        Instr::ADD(..) => 1,
        Instr::SUB(..) => 2,
        Instr::MUL(..) => 3,
        Instr::DIV(..) => 4,
        Instr::MOD(..) => 5,
        Instr::AND(..) => 6,
        Instr::OR(..) => 7,
        Instr::XOR(..) => 8,
        Instr::NOT(..) => 9,
        Instr::SHL(..) => 10,
        Instr::SHR(..) => 11,
        Instr::CPY(..) => 12,
        Instr::CMP(..) => 13,
        Instr::JMP(..) => 14,
        Instr::CALL(..) => 15,
        Instr::RET => 16,
        Instr::IFEQ(..) => 17,
        Instr::IFNE(..) => 18,
        Instr::IFLT(..) => 19,
        Instr::IFGT(..) => 20,
        Instr::LEA(..) => 21,
        Instr::WEA(..) => 22,
    }
}

/// The opcode byte: 5-bit instruction code above 3 kind bits.
pub open spec fn spec_opcode_byte(code: u8, kinds: u8) -> u8 {
    (code * 8 + kinds) as u8
}

/// A 16-bit immediate from its two big-endian slots.
pub open spec fn spec_lit2(hi: u8, lo: u8) -> u16 {
    (hi * 0x100 + lo) as u16
}

pub open spec fn spec_is_alu2(code: u8) -> bool {
    1 <= code <= 8 || code == 12 || code == 13
}

pub open spec fn spec_is_branch(code: u8) -> bool {
    code == 14 || code == 15 || 17 <= code <= 20
}

pub open spec fn spec_mk_alu2(code: u8, r: Reg, v: RegOrLit2) -> Instr {
    if code == 1 { Instr::ADD(r, v) }
    else if code == 2 { Instr::SUB(r, v) }
    else if code == 3 { Instr::MUL(r, v) }
    else if code == 4 { Instr::DIV(r, v) }
    else if code == 5 { Instr::MOD(r, v) }
    else if code == 6 { Instr::AND(r, v) }
    else if code == 7 { Instr::OR(r, v) }
    else if code == 8 { Instr::XOR(r, v) }
    else if code == 12 { Instr::CPY(r, v) }
    else { Instr::CMP(r, v) }
}

pub open spec fn spec_mk_branch(code: u8, v: RegOrLit2) -> Instr {
    if code == 14 { Instr::JMP(v) }
    else if code == 15 { Instr::CALL(v) }
    else if code == 17 { Instr::IFEQ(v) }
    else if code == 18 { Instr::IFNE(v) }
    else if code == 19 { Instr::IFLT(v) }
    else { Instr::IFGT(v) }
}

pub open spec fn spec_enc_alu2(code: u8, r: Reg, v: RegOrLit2) -> Seq<u8> {
    match v {
        RegOrLit2::Reg(s) => seq![spec_opcode_byte(code, 0), spec_reg_code(r), spec_reg_code(s), 0],
        RegOrLit2::Lit(l) => seq![
            spec_opcode_byte(code, 3),
            spec_reg_code(r),
            (l / 0x100) as u8,
            (l % 0x100) as u8,
        ],
    }
}

pub open spec fn spec_enc_shift(code: u8, r: Reg, v: RegOrLit1) -> Seq<u8> {
    match v {
        RegOrLit1::Reg(s) => seq![spec_opcode_byte(code, 0), spec_reg_code(r), spec_reg_code(s), 0],
        RegOrLit1::Lit(l) => seq![spec_opcode_byte(code, 2), spec_reg_code(r), l, 0],
    }
}

pub open spec fn spec_enc_branch(code: u8, v: RegOrLit2) -> Seq<u8> {
    match v {
        RegOrLit2::Reg(s) => seq![spec_opcode_byte(code, 0), spec_reg_code(s), 0, 0],
        RegOrLit2::Lit(l) => seq![
            spec_opcode_byte(code, 6),
            (l / 0x100) as u8,
            (l % 0x100) as u8,
            0,
        ],
    }
}

pub open spec fn spec_kind_bit(v: RegOrLit1) -> u8 {
    match v {
        RegOrLit1::Reg(_) => 0,
        RegOrLit1::Lit(_) => 1,
    }
}

pub open spec fn spec_slot1(v: RegOrLit1) -> u8 {
    match v {
        RegOrLit1::Reg(s) => spec_reg_code(s),
        RegOrLit1::Lit(l) => l,
    }
}

pub open spec fn spec_enc_mem(code: u8, v1: RegOrLit1, v2: RegOrLit1, v3: RegOrLit1) -> Seq<u8> {
    seq![
        spec_opcode_byte(code, (spec_kind_bit(v1) * 4 + spec_kind_bit(v2) * 2 + spec_kind_bit(v3)) as u8),
        spec_slot1(v1),
        spec_slot1(v2),
        spec_slot1(v3),
    ]
}

/// The four bytes a valid instruction encodes to.
pub open spec fn spec_encode(i: Instr) -> Seq<u8> {
    match i {
        Instr::HLT => seq![0, 0, 0, 0],
        Instr::RET => seq![spec_opcode_byte(16, 0), 0, 0, 0],
        Instr::ADD(r, v) => spec_enc_alu2(1, r, v),
        Instr::SUB(r, v) => spec_enc_alu2(2, r, v),
        Instr::MUL(r, v) => spec_enc_alu2(3, r, v),
        Instr::DIV(r, v) => spec_enc_alu2(4, r, v),
        Instr::MOD(r, v) => spec_enc_alu2(5, r, v),
        Instr::AND(r, v) => spec_enc_alu2(6, r, v),
        Instr::OR(r, v) => spec_enc_alu2(7, r, v),
        Instr::XOR(r, v) => spec_enc_alu2(8, r, v),
        Instr::NOT(r) => seq![spec_opcode_byte(9, 0), spec_reg_code(r), 0, 0],
        Instr::SHL(r, v) => spec_enc_shift(10, r, v),
        Instr::SHR(r, v) => spec_enc_shift(11, r, v),
        Instr::CPY(r, v) => spec_enc_alu2(12, r, v),
        Instr::CMP(r, v) => spec_enc_alu2(13, r, v),
        Instr::JMP(v) => spec_enc_branch(14, v),
        Instr::CALL(v) => spec_enc_branch(15, v),
        Instr::IFEQ(v) => spec_enc_branch(17, v),
        Instr::IFNE(v) => spec_enc_branch(18, v),
        Instr::IFLT(v) => spec_enc_branch(19, v),
        Instr::IFGT(v) => spec_enc_branch(20, v),
        Instr::LEA(v1, v2, v3) => spec_enc_mem(21, v1, v2, v3),
        Instr::WEA(v1, v2, v3) => spec_enc_mem(22, v1, v2, v3),
    }
}

/// What one operand slot of a memory instruction decodes to.
pub open spec fn spec_dec_slot1(bit: u8, b: u8) -> Result<RegOrLit1, InstrDecodingError> {
    if bit != 0 {
        Ok(RegOrLit1::Lit(b))
    } else {
        match spec_reg_of_code(b) {
            Some(r) => Ok(RegOrLit1::Reg(r)),
            None => Err(InstrDecodingError::UnknownRegister(b)),
        }
    }
}

/// What four bytes decode to: a valid instruction, or the reason they are
/// rejected.
pub open spec fn spec_decode(b0: u8, b1: u8, b2: u8, b3: u8) -> Result<Instr, InstrDecodingError> {
    let code = b0 / 8;
    let kinds = b0 % 8;
    if code == 0 || code == 16 {
        if kinds != 0 || b1 != 0 || b2 != 0 || b3 != 0 {
            Err(InstrDecodingError::InvalidOperandKind(b0))
        } else if code == 0 {
            Ok(Instr::HLT)
        } else {
            Ok(Instr::RET)
        }
    } else if spec_is_alu2(code) {
        if kinds == 0 {
            match spec_reg_of_code(b1) {
                None => Err(InstrDecodingError::UnknownRegister(b1)),
                Some(r) => match spec_reg_of_code(b2) {
                    None => Err(InstrDecodingError::UnknownRegister(b2)),
                    Some(s) => if b3 != 0 {
                        Err(InstrDecodingError::InvalidOperandKind(b0))
                    } else {
                        Ok(spec_mk_alu2(code, r, RegOrLit2::Reg(s)))
                    },
                },
            }
        } else if kinds == 3 {
            match spec_reg_of_code(b1) {
                None => Err(InstrDecodingError::UnknownRegister(b1)),
                Some(r) => Ok(spec_mk_alu2(code, r, RegOrLit2::Lit(spec_lit2(b2, b3)))),
            }
        } else {
            Err(InstrDecodingError::InvalidOperandKind(b0))
        }
    } else if code == 9 {
        if kinds != 0 {
            Err(InstrDecodingError::InvalidOperandKind(b0))
        } else {
            match spec_reg_of_code(b1) {
                None => Err(InstrDecodingError::UnknownRegister(b1)),
                Some(r) => if b2 != 0 || b3 != 0 {
                    Err(InstrDecodingError::InvalidOperandKind(b0))
                } else {
                    Ok(Instr::NOT(r))
                },
            }
        }
    } else if code == 10 || code == 11 {
        if kinds == 0 {
            match spec_reg_of_code(b1) {
                None => Err(InstrDecodingError::UnknownRegister(b1)),
                Some(r) => match spec_reg_of_code(b2) {
                    None => Err(InstrDecodingError::UnknownRegister(b2)),
                    Some(s) => if b3 != 0 {
                        Err(InstrDecodingError::InvalidOperandKind(b0))
                    } else if code == 10 {
                        Ok(Instr::SHL(r, RegOrLit1::Reg(s)))
                    } else {
                        Ok(Instr::SHR(r, RegOrLit1::Reg(s)))
                    },
                },
            }
        } else if kinds == 2 {
            match spec_reg_of_code(b1) {
                None => Err(InstrDecodingError::UnknownRegister(b1)),
                Some(r) => if b3 != 0 {
                    Err(InstrDecodingError::InvalidOperandKind(b0))
                } else if code == 10 {
                    Ok(Instr::SHL(r, RegOrLit1::Lit(b2)))
                } else {
                    Ok(Instr::SHR(r, RegOrLit1::Lit(b2)))
                },
            }
        } else {
            Err(InstrDecodingError::InvalidOperandKind(b0))
        }
    } else if spec_is_branch(code) {
        if kinds == 0 {
            match spec_reg_of_code(b1) {
                None => Err(InstrDecodingError::UnknownRegister(b1)),
                Some(s) => if b2 != 0 || b3 != 0 {
                    Err(InstrDecodingError::InvalidOperandKind(b0))
                } else {
                    Ok(spec_mk_branch(code, RegOrLit2::Reg(s)))
                },
            }
        } else if kinds == 6 {
            if b3 != 0 {
                Err(InstrDecodingError::InvalidOperandKind(b0))
            } else {
                Ok(spec_mk_branch(code, RegOrLit2::Lit(spec_lit2(b1, b2))))
            }
        } else {
            Err(InstrDecodingError::InvalidOperandKind(b0))
        }
    } else if code == 21 || code == 22 {
        match spec_dec_slot1(kinds / 4, b1) {
            Err(e) => Err(e),
            Ok(v1) => match spec_dec_slot1((kinds / 2) % 2, b2) {
                Err(e) => Err(e),
                Ok(v2) => match spec_dec_slot1(kinds % 2, b3) {
                    Err(e) => Err(e),
                    Ok(v3) => if code == 21 {
                        Ok(Instr::LEA(v1, v2, v3))
                    } else {
                        Ok(Instr::WEA(v1, v2, v3))
                    },
                },
            },
        }
    } else {
        Err(InstrDecodingError::UnknownOpCode(b0))
    }
}

impl RegOrLit1 {
    /// A register operand.
    pub fn reg(r: Reg) -> (v: RegOrLit1)
        ensures v == RegOrLit1::Reg(r),
    {
        RegOrLit1::Reg(r)
    }

    /// An 8-bit immediate operand.
    pub fn lit(l: u8) -> (v: RegOrLit1)
        ensures v == RegOrLit1::Lit(l),
    {
        RegOrLit1::Lit(l)
    }
}

impl RegOrLit2 {
    /// A register operand.
    pub fn reg(r: Reg) -> (v: RegOrLit2)
        ensures v == RegOrLit2::Reg(r),
    {
        RegOrLit2::Reg(r)
    }

    /// A 16-bit immediate operand.
    pub fn lit(l: u16) -> (v: RegOrLit2)
        ensures v == RegOrLit2::Lit(l),
    {
        RegOrLit2::Lit(l)
    }
}

impl Instr {
    /// The instruction code (high 5 bits of the opcode byte).
    pub fn code(self) -> (c: u8)
        ensures c == spec_instr_code(self),
    {
        match self {
            Instr::HLT => 0,
            Instr::ADD(..) => 1,
            Instr::SUB(..) => 2,
            Instr::MUL(..) => 3,
            Instr::DIV(..) => 4,
            Instr::MOD(..) => 5,
            Instr::AND(..) => 6,
            Instr::OR(..) => 7,
            Instr::XOR(..) => 8,
            Instr::NOT(..) => 9,
            Instr::SHL(..) => 10,
            Instr::SHR(..) => 11,
            Instr::CPY(..) => 12,
            Instr::CMP(..) => 13,
            Instr::JMP(..) => 14,
            Instr::CALL(..) => 15,
            Instr::RET => 16,
            Instr::IFEQ(..) => 17,
            Instr::IFNE(..) => 18,
            Instr::IFLT(..) => 19,
            Instr::IFGT(..) => 20,
            Instr::LEA(..) => 21,
            Instr::WEA(..) => 22,
        }
    }

    /// Encode the instruction to its four bytes.
    pub fn encode(self) -> (b: [u8; 4])
        ensures b@ == spec_encode(self),
    {
        let code = self.code();
        let b: [u8; 4] = match self {
            Instr::HLT | Instr::RET => [code * 8, 0, 0, 0],
            Instr::ADD(r, v) | Instr::SUB(r, v) | Instr::MUL(r, v) | Instr::DIV(r, v)
            | Instr::MOD(r, v) | Instr::AND(r, v) | Instr::OR(r, v) | Instr::XOR(r, v)
            | Instr::CPY(r, v) | Instr::CMP(r, v) => match v {
                RegOrLit2::Reg(s) => [code * 8, r.code(), s.code(), 0],
                RegOrLit2::Lit(l) => [code * 8 + 3, r.code(), (l / 0x100) as u8, (l % 0x100) as u8],
            },
            Instr::NOT(r) => [code * 8, r.code(), 0, 0],
            Instr::SHL(r, v) | Instr::SHR(r, v) => match v {
                RegOrLit1::Reg(s) => [code * 8, r.code(), s.code(), 0],
                RegOrLit1::Lit(l) => [code * 8 + 2, r.code(), l, 0],
            },
            Instr::JMP(v) | Instr::CALL(v) | Instr::IFEQ(v) | Instr::IFNE(v)
            | Instr::IFLT(v) | Instr::IFGT(v) => match v {
                RegOrLit2::Reg(s) => [code * 8, s.code(), 0, 0],
                RegOrLit2::Lit(l) => [code * 8 + 6, (l / 0x100) as u8, (l % 0x100) as u8, 0],
            },
            Instr::LEA(v1, v2, v3) | Instr::WEA(v1, v2, v3) => {
                let (k1, s1) = Self::slot1(v1);
                let (k2, s2) = Self::slot1(v2);
                let (k3, s3) = Self::slot1(v3);
                [code * 8 + k1 * 4 + k2 * 2 + k3, s1, s2, s3]
            },
        };
        proof {
            assert(b@ =~= spec_encode(self));
        }
        b
    }

    /// The kind bit and slot byte of a memory-instruction operand.
    fn slot1(v: RegOrLit1) -> (r: (u8, u8))
        ensures
            r.0 == spec_kind_bit(v),
            r.1 == spec_slot1(v),
    {
        match v {
            RegOrLit1::Reg(s) => (0, s.code()),
            RegOrLit1::Lit(l) => (1, l),
        }
    }

    /// Encode the instruction to one 32-bit word, big-endian.
    pub fn encode_word(self) -> (w: u32)
        ensures ({
            let b = spec_encode(self);
            w == crate::bytes::spec_word_of(b[0], b[1], b[2], b[3])
        }),
    {
        let b = self.encode();
        crate::bytes::word_of(b[0], b[1], b[2], b[3])
    }

    /// Decode four bytes into an instruction, rejecting every byte group that
    /// no valid instruction encodes to.
    pub fn decode(bytes: [u8; 4]) -> (r: Result<Instr, InstrDecodingError>)
        ensures r == spec_decode(bytes[0], bytes[1], bytes[2], bytes[3]),
    {
        let b0 = bytes[0];
        let b1 = bytes[1];
        let b2 = bytes[2];
        let b3 = bytes[3];
        let code = b0 / 8;
        let kinds = b0 % 8;
        if code == 0 || code == 16 {
            if kinds != 0 || b1 != 0 || b2 != 0 || b3 != 0 {
                Err(InstrDecodingError::InvalidOperandKind(b0))
            } else if code == 0 {
                Ok(Instr::HLT)
            } else {
                Ok(Instr::RET)
            }
        } else if 1 <= code && code <= 8 || code == 12 || code == 13 {
            if kinds == 0 {
                match Reg::from_code(b1) {
                    None => Err(InstrDecodingError::UnknownRegister(b1)),
                    Some(r) => match Reg::from_code(b2) {
                        None => Err(InstrDecodingError::UnknownRegister(b2)),
                        Some(s) => if b3 != 0 {
                            Err(InstrDecodingError::InvalidOperandKind(b0))
                        } else {
                            Ok(Self::mk_alu2(code, r, RegOrLit2::Reg(s)))
                        },
                    },
                }
            } else if kinds == 3 {
                match Reg::from_code(b1) {
                    None => Err(InstrDecodingError::UnknownRegister(b1)),
                    Some(r) => Ok(Self::mk_alu2(code, r, RegOrLit2::Lit(b2 as u16 * 0x100 + b3 as u16))),
                }
            } else {
                Err(InstrDecodingError::InvalidOperandKind(b0))
            }
        } else if code == 9 {
            if kinds != 0 {
                Err(InstrDecodingError::InvalidOperandKind(b0))
            } else {
                match Reg::from_code(b1) {
                    None => Err(InstrDecodingError::UnknownRegister(b1)),
                    Some(r) => if b2 != 0 || b3 != 0 {
                        Err(InstrDecodingError::InvalidOperandKind(b0))
                    } else {
                        Ok(Instr::NOT(r))
                    },
                }
            }
        } else if code == 10 || code == 11 {
            if kinds == 0 {
                match Reg::from_code(b1) {
                    None => Err(InstrDecodingError::UnknownRegister(b1)),
                    Some(r) => match Reg::from_code(b2) {
                        None => Err(InstrDecodingError::UnknownRegister(b2)),
                        Some(s) => if b3 != 0 {
                            Err(InstrDecodingError::InvalidOperandKind(b0))
                        } else if code == 10 {
                            Ok(Instr::SHL(r, RegOrLit1::Reg(s)))
                        } else {
                            Ok(Instr::SHR(r, RegOrLit1::Reg(s)))
                        },
                    },
                }
            } else if kinds == 2 {
                match Reg::from_code(b1) {
                    None => Err(InstrDecodingError::UnknownRegister(b1)),
                    Some(r) => if b3 != 0 {
                        Err(InstrDecodingError::InvalidOperandKind(b0))
                    } else if code == 10 {
                        Ok(Instr::SHL(r, RegOrLit1::Lit(b2)))
                    } else {
                        Ok(Instr::SHR(r, RegOrLit1::Lit(b2)))
                    },
                }
            } else {
                Err(InstrDecodingError::InvalidOperandKind(b0))
            }
        } else if code == 14 || code == 15 || 17 <= code && code <= 20 {
            if kinds == 0 {
                match Reg::from_code(b1) {
                    None => Err(InstrDecodingError::UnknownRegister(b1)),
                    Some(s) => if b2 != 0 || b3 != 0 {
                        Err(InstrDecodingError::InvalidOperandKind(b0))
                    } else {
                        Ok(Self::mk_branch(code, RegOrLit2::Reg(s)))
                    },
                }
            } else if kinds == 6 {
                if b3 != 0 {
                    Err(InstrDecodingError::InvalidOperandKind(b0))
                } else {
                    Ok(Self::mk_branch(code, RegOrLit2::Lit(b1 as u16 * 0x100 + b2 as u16)))
                }
            } else {
                Err(InstrDecodingError::InvalidOperandKind(b0))
            }
        } else if code == 21 || code == 22 {
            match Self::dec_slot1(kinds / 4, b1) {
                Err(e) => Err(e),
                Ok(v1) => match Self::dec_slot1((kinds / 2) % 2, b2) {
                    Err(e) => Err(e),
                    Ok(v2) => match Self::dec_slot1(kinds % 2, b3) {
                        Err(e) => Err(e),
                        Ok(v3) => if code == 21 {
                            Ok(Instr::LEA(v1, v2, v3))
                        } else {
                            Ok(Instr::WEA(v1, v2, v3))
                        },
                    },
                },
            }
        } else {
            Err(InstrDecodingError::UnknownOpCode(b0))
        }
    }

    fn mk_alu2(code: u8, r: Reg, v: RegOrLit2) -> (i: Instr)
        requires spec_is_alu2(code),
        ensures i == spec_mk_alu2(code, r, v),
    {
        if code == 1 { Instr::ADD(r, v) }
        else if code == 2 { Instr::SUB(r, v) }
        else if code == 3 { Instr::MUL(r, v) }
        else if code == 4 { Instr::DIV(r, v) }
        else if code == 5 { Instr::MOD(r, v) }
        else if code == 6 { Instr::AND(r, v) }
        else if code == 7 { Instr::OR(r, v) }
        else if code == 8 { Instr::XOR(r, v) }
        else if code == 12 { Instr::CPY(r, v) }
        else { Instr::CMP(r, v) }
    }

    fn mk_branch(code: u8, v: RegOrLit2) -> (i: Instr)
        requires spec_is_branch(code),
        ensures i == spec_mk_branch(code, v),
    {
        if code == 14 { Instr::JMP(v) }
        else if code == 15 { Instr::CALL(v) }
        else if code == 17 { Instr::IFEQ(v) }
        else if code == 18 { Instr::IFNE(v) }
        else if code == 19 { Instr::IFLT(v) }
        else { Instr::IFGT(v) }
    }

    fn dec_slot1(bit: u8, b: u8) -> (r: Result<RegOrLit1, InstrDecodingError>)
        ensures r == spec_dec_slot1(bit, b),
    {
        if bit != 0 {
            Ok(RegOrLit1::Lit(b))
        } else {
            match Reg::from_code(b) {
                Some(r) => Ok(RegOrLit1::Reg(r)),
                None => Err(InstrDecodingError::UnknownRegister(b)),
            }
        }
    }
}

/// Round-trip law: decoding the encoding of any valid instruction yields that
/// instruction back.
pub proof fn lemma_decode_encode(i: Instr)
    ensures ({
        let b = spec_encode(i);
        spec_decode(b[0], b[1], b[2], b[3]) == Ok::<Instr, InstrDecodingError>(i)
    }),
{
    let b = spec_encode(i);
    match i {
        Instr::ADD(r, v) | Instr::SUB(r, v) | Instr::MUL(r, v) | Instr::DIV(r, v)
        | Instr::MOD(r, v) | Instr::AND(r, v) | Instr::OR(r, v) | Instr::XOR(r, v)
        | Instr::CPY(r, v) | Instr::CMP(r, v) => {
            lemma_reg_code_bijective(r, 0);
            match v {
                RegOrLit2::Reg(s) => { lemma_reg_code_bijective(s, 0); },
                RegOrLit2::Lit(l) => {},
            }
        },
        Instr::NOT(r) => { lemma_reg_code_bijective(r, 0); },
        Instr::SHL(r, v) | Instr::SHR(r, v) => {
            lemma_reg_code_bijective(r, 0);
            match v {
                RegOrLit1::Reg(s) => { lemma_reg_code_bijective(s, 0); },
                RegOrLit1::Lit(l) => {},
            }
        },
        Instr::JMP(v) | Instr::CALL(v) | Instr::IFEQ(v) | Instr::IFNE(v)
        | Instr::IFLT(v) | Instr::IFGT(v) => {
            match v {
                RegOrLit2::Reg(s) => { lemma_reg_code_bijective(s, 0); },
                RegOrLit2::Lit(l) => {},
            }
        },
        Instr::LEA(v1, v2, v3) | Instr::WEA(v1, v2, v3) => {
            lemma_slot1_roundtrip(v1);
            lemma_slot1_roundtrip(v2);
            lemma_slot1_roundtrip(v3);
        },
        _ => {},
    }
}

proof fn lemma_slot1_roundtrip(v: RegOrLit1)
    ensures
        spec_dec_slot1(spec_kind_bit(v), spec_slot1(v)) == Ok::<RegOrLit1, InstrDecodingError>(v),
        spec_kind_bit(v) <= 1,
{
    match v {
        RegOrLit1::Reg(s) => { lemma_reg_code_bijective(s, 0); },
        RegOrLit1::Lit(_) => {},
    }
}

/// Round-trip law: any four bytes that decode successfully re-encode to the
/// same four bytes, so decoding is injective on machine code.
pub proof fn lemma_encode_decode(b0: u8, b1: u8, b2: u8, b3: u8)
    ensures
        spec_decode(b0, b1, b2, b3) matches Ok(i) ==> spec_encode(i) =~= seq![b0, b1, b2, b3],
{
    if let Ok(i) = spec_decode(b0, b1, b2, b3) {
        let code = b0 / 8;
        let kinds = b0 % 8;
        assert(b0 == code * 8 + kinds);
        lemma_reg_code_bijective(Reg::a0, b1);
        lemma_reg_code_bijective(Reg::a0, b2);
        lemma_reg_code_bijective(Reg::a0, b3);
        if spec_is_alu2(code) && kinds == 3 {
            assert((spec_lit2(b2, b3) / 0x100) as u8 == b2 && (spec_lit2(b2, b3) % 0x100) as u8 == b3);
        }
        if spec_is_branch(code) && kinds == 6 {
            assert((spec_lit2(b1, b2) / 0x100) as u8 == b1 && (spec_lit2(b1, b2) % 0x100) as u8 == b2);
        }
        if code == 21 || code == 22 {
            assert(kinds == (kinds / 4) * 4 + ((kinds / 2) % 2) * 2 + kinds % 2);
        }
        assert(spec_encode(i) =~= seq![b0, b1, b2, b3]);
    }
}

} // verus!
