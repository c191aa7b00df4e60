//! Rendering programs as LASM assembly text.
//!
//! Mnemonics are lower case; immediates print as fixed-width upper-case
//! hexadecimal with a `0x` prefix; a raw data word prints as a `#d32`
//! directive.

use vstd::prelude::*;
use crate::instr::{Instr, RegOrLit1, RegOrLit2};
use crate::prog::{Program, ProgramWord, spec_pword_encode};
use crate::bytes::spec_word_of;
use crate::reg::Reg;

verus! {

/// The upper-case hexadecimal digit of a value below 16.
pub open spec fn spec_hex_digit(n: int) -> char {
    if n == 0 { '0' } else if n == 1 { '1' } else if n == 2 { '2' } else if n == 3 { '3' }
    else if n == 4 { '4' } else if n == 5 { '5' } else if n == 6 { '6' } else if n == 7 { '7' }
    else if n == 8 { '8' } else if n == 9 { '9' } else if n == 10 { 'A' } else if n == 11 { 'B' }
    else if n == 12 { 'C' } else if n == 13 { 'D' } else if n == 14 { 'E' } else { 'F' }
}

/// Two hexadecimal digits of a byte.
pub open spec fn spec_hex2(v: u8) -> Seq<char> {
    seq![spec_hex_digit(v as int / 16), spec_hex_digit(v as int % 16)]
}

/// Four hexadecimal digits of a 16-bit value.
pub open spec fn spec_hex4(v: u16) -> Seq<char> {
    seq![
        spec_hex_digit(v as int / 0x1000),
        spec_hex_digit((v as int / 0x100) % 16),
        spec_hex_digit((v as int / 16) % 16),
        spec_hex_digit(v as int % 16),
    ]
}

/// Eight hexadecimal digits of a 32-bit value.
pub open spec fn spec_hex8(v: u32) -> Seq<char> {
    spec_hex4((v / 0x1_0000) as u16) + spec_hex4((v % 0x1_0000) as u16)
}

/// A register's name.
pub open spec fn spec_reg_name(r: Reg) -> Seq<char> {
    match r {
        Reg::a0 => "a0"@, Reg::a1 => "a1"@, Reg::a2 => "a2"@, Reg::a3 => "a3"@,
        Reg::a4 => "a4"@, Reg::a5 => "a5"@, Reg::a6 => "a6"@, Reg::a7 => "a7"@,
        Reg::t0 => "t0"@, Reg::t1 => "t1"@, Reg::t2 => "t2"@, Reg::t3 => "t3"@,
        Reg::t4 => "t4"@, Reg::t5 => "t5"@, Reg::t6 => "t6"@, Reg::t7 => "t7"@,
        Reg::s0 => "s0"@, Reg::s1 => "s1"@, Reg::s2 => "s2"@, Reg::s3 => "s3"@,
        Reg::s4 => "s4"@, Reg::s5 => "s5"@, Reg::s6 => "s6"@, Reg::s7 => "s7"@,
        Reg::rr0 => "rr0"@, Reg::rr1 => "rr1"@, Reg::rr2 => "rr2"@, Reg::rr3 => "rr3"@,
        Reg::rr4 => "rr4"@, Reg::rr5 => "rr5"@, Reg::rr6 => "rr6"@,
        Reg::avr => "avr"@,
    }
}

/// A register-or-8-bit-immediate operand's text.
pub open spec fn spec_rol1_text(v: RegOrLit1) -> Seq<char> {
    match v {
        RegOrLit1::Reg(r) => spec_reg_name(r),
        RegOrLit1::Lit(l) => "0x"@ + spec_hex2(l),
    }
}

/// A register-or-16-bit-immediate operand's text.
pub open spec fn spec_rol2_text(v: RegOrLit2) -> Seq<char> {
    match v {
        RegOrLit2::Reg(r) => spec_reg_name(r),
        RegOrLit2::Lit(l) => "0x"@ + spec_hex4(l),
    }
}

/// An instruction's mnemonic.
pub open spec fn spec_mnemonic(i: Instr) -> Seq<char> {
    match i {
        Instr::HLT => "halt"@,
        Instr::ADD(..) => "add"@,
        Instr::SUB(..) => "sub"@,
        Instr::MUL(..) => "mul"@,
        Instr::DIV(..) => "div"@,
        Instr::MOD(..) => "mod"@,
        Instr::AND(..) => "and"@,
        Instr::OR(..) => "or"@,
        Instr::XOR(..) => "xor"@,
        Instr::NOT(..) => "not"@,
        Instr::SHL(..) => "shl"@,
        Instr::SHR(..) => "shr"@,
        Instr::CPY(..) => "cpy"@,
        Instr::CMP(..) => "cmp"@,
        Instr::JMP(..) => "jmp"@,
        Instr::CALL(..) => "call"@,
        Instr::RET => "ret"@,
        Instr::IFEQ(..) => "ifeq"@,
        Instr::IFNE(..) => "ifne"@,
        Instr::IFLT(..) => "iflt"@,
        Instr::IFGT(..) => "ifgt"@,
        Instr::LEA(..) => "lea"@,
        Instr::WEA(..) => "wea"@,
    }
}

/// An instruction's LASM line: the mnemonic, then its comma-separated
/// operands.
pub open spec fn spec_instr_lasm(i: Instr) -> Seq<char> {
    match i {
        Instr::HLT | Instr::RET => spec_mnemonic(i),
        Instr::ADD(r, v) | Instr::SUB(r, v) | Instr::MUL(r, v) | Instr::DIV(r, v)
        | Instr::MOD(r, v) | Instr::AND(r, v) | Instr::OR(r, v) | Instr::XOR(r, v)
        | Instr::CPY(r, v) | Instr::CMP(r, v) =>
            spec_mnemonic(i) + " "@ + spec_reg_name(r) + ", "@ + spec_rol2_text(v),
        Instr::NOT(r) => spec_mnemonic(i) + " "@ + spec_reg_name(r),
        Instr::SHL(r, v) | Instr::SHR(r, v) =>
            spec_mnemonic(i) + " "@ + spec_reg_name(r) + ", "@ + spec_rol1_text(v),
        Instr::JMP(t) | Instr::CALL(t) | Instr::IFEQ(t) | Instr::IFNE(t)
        | Instr::IFLT(t) | Instr::IFGT(t) => spec_mnemonic(i) + " "@ + spec_rol2_text(t),
        Instr::LEA(v1, v2, v3) | Instr::WEA(v1, v2, v3) =>
            spec_mnemonic(i) + " "@ + spec_rol1_text(v1) + ", "@ + spec_rol1_text(v2)
                + ", "@ + spec_rol1_text(v3),
    }
}

/// A program word's LASM line: an instruction's line, or a data directive for
/// a raw word.
pub open spec fn spec_pword_lasm(w: ProgramWord) -> Seq<char> {
    match w {
        ProgramWord::Instr(i) => spec_instr_lasm(i),
        ProgramWord::Raw(b) => "#d32 0x"@ + spec_hex8(spec_word_of(b@[0], b@[1], b@[2], b@[3])),
    }
}

/// The address annotation of line `j`.
pub open spec fn spec_annot_addr(j: int) -> u32 {
    ((4 * j) % 0x1_0000_0000) as u32
}

/// An annotated LASM line: the word's byte address, a colon, the line.
pub open spec fn spec_pword_lasm_annotated(w: ProgramWord, j: int) -> Seq<char> {
    "0x"@ + spec_hex8(spec_annot_addr(j)) + ": "@ + spec_pword_lasm(w)
}

/// The program's whole LASM source: its lines joined by newlines.
pub open spec fn spec_lasm_join(lines: Seq<Seq<char>>) -> Seq<char>
    decreases lines.len(),
{
    if lines.len() == 0 {
        Seq::empty()
    } else if lines.len() == 1 {
        lines[0]
    } else {
        spec_lasm_join(lines.drop_last()) + "\n"@ + lines.last()
    }
}

/// The upper-case hexadecimal digit of a value below 16.
fn hex_digit_str(n: u8) -> (r: &'static str)
    requires n < 16,
    ensures r@ == seq![spec_hex_digit(n as int)],
{
    proof {
        reveal_strlit("0"); reveal_strlit("1"); reveal_strlit("2"); reveal_strlit("3");
        reveal_strlit("4"); reveal_strlit("5"); reveal_strlit("6"); reveal_strlit("7");
        reveal_strlit("8"); reveal_strlit("9"); reveal_strlit("A"); reveal_strlit("B");
        reveal_strlit("C"); reveal_strlit("D"); reveal_strlit("E"); reveal_strlit("F");
    }
    match n {
        0 => "0", 1 => "1", 2 => "2", 3 => "3",
        4 => "4", 5 => "5", 6 => "6", 7 => "7",
        8 => "8", 9 => "9", 10 => "A", 11 => "B",
        12 => "C", 13 => "D", 14 => "E", _ => "F",
    }
}

/// Append a byte's two hexadecimal digits.
fn push_hex2(s: &mut String, v: u8)
    ensures final(s)@ == old(s)@ + spec_hex2(v),
{
    s.append(hex_digit_str(v / 16));
    s.append(hex_digit_str(v % 16));
    proof {
        assert(final(s)@ =~= old(s)@ + spec_hex2(v));
    }
}

/// Append a 16-bit value's four hexadecimal digits.
fn push_hex4(s: &mut String, v: u16)
    ensures final(s)@ == old(s)@ + spec_hex4(v),
{
    s.append(hex_digit_str((v / 0x1000) as u8));
    s.append(hex_digit_str(((v / 0x100) % 16) as u8));
    s.append(hex_digit_str(((v / 16) % 16) as u8));
    s.append(hex_digit_str((v % 16) as u8));
    proof {
        assert(final(s)@ =~= old(s)@ + spec_hex4(v));
    }
}

/// Append a 32-bit value's eight hexadecimal digits.
fn push_hex8(s: &mut String, v: u32)
    ensures final(s)@ == old(s)@ + spec_hex8(v),
{
    push_hex4(s, (v / 0x1_0000) as u16);
    push_hex4(s, (v % 0x1_0000) as u16);
    proof {
        assert(final(s)@ =~= old(s)@ + spec_hex8(v));
    }
}

/// A register's name.
fn reg_name(r: Reg) -> (n: &'static str)
    ensures n@ == spec_reg_name(r),
{
    match r {
        Reg::a0 => "a0", Reg::a1 => "a1", Reg::a2 => "a2", Reg::a3 => "a3",
        Reg::a4 => "a4", Reg::a5 => "a5", Reg::a6 => "a6", Reg::a7 => "a7",
        Reg::t0 => "t0", Reg::t1 => "t1", Reg::t2 => "t2", Reg::t3 => "t3",
        Reg::t4 => "t4", Reg::t5 => "t5", Reg::t6 => "t6", Reg::t7 => "t7",
        Reg::s0 => "s0", Reg::s1 => "s1", Reg::s2 => "s2", Reg::s3 => "s3",
        Reg::s4 => "s4", Reg::s5 => "s5", Reg::s6 => "s6", Reg::s7 => "s7",
        Reg::rr0 => "rr0", Reg::rr1 => "rr1", Reg::rr2 => "rr2", Reg::rr3 => "rr3",
        Reg::rr4 => "rr4", Reg::rr5 => "rr5", Reg::rr6 => "rr6",
        Reg::avr => "avr",
    }
}

/// Append a register-or-8-bit-immediate operand's text.
fn push_rol1(s: &mut String, v: RegOrLit1)
    ensures final(s)@ == old(s)@ + spec_rol1_text(v),
{
    match v {
        RegOrLit1::Reg(r) => {
            s.append(reg_name(r));
        },
        RegOrLit1::Lit(l) => {
            s.append("0x");
            push_hex2(s, l);
        },
    }
    proof {
        assert(final(s)@ =~= old(s)@ + spec_rol1_text(v));
    }
}

/// Append a register-or-16-bit-immediate operand's text.
fn push_rol2(s: &mut String, v: RegOrLit2)
    ensures final(s)@ == old(s)@ + spec_rol2_text(v),
{
    match v {
        RegOrLit2::Reg(r) => {
            s.append(reg_name(r));
        },
        RegOrLit2::Lit(l) => {
            s.append("0x");
            push_hex4(s, l);
        },
    }
    proof {
        assert(final(s)@ =~= old(s)@ + spec_rol2_text(v));
    }
}

/// An instruction's mnemonic.
fn mnemonic(i: Instr) -> (n: &'static str)
    ensures n@ == spec_mnemonic(i),
{
    match i {
        Instr::HLT => "halt",
        Instr::ADD(..) => "add",
        Instr::SUB(..) => "sub",
        Instr::MUL(..) => "mul",
        Instr::DIV(..) => "div",
        Instr::MOD(..) => "mod",
        Instr::AND(..) => "and",
        Instr::OR(..) => "or",
        Instr::XOR(..) => "xor",
        Instr::NOT(..) => "not",
        Instr::SHL(..) => "shl",
        Instr::SHR(..) => "shr",
        Instr::CPY(..) => "cpy",
        Instr::CMP(..) => "cmp",
        Instr::JMP(..) => "jmp",
        Instr::CALL(..) => "call",
        Instr::RET => "ret",
        Instr::IFEQ(..) => "ifeq",
        Instr::IFNE(..) => "ifne",
        Instr::IFLT(..) => "iflt",
        Instr::IFGT(..) => "ifgt",
        Instr::LEA(..) => "lea",
        Instr::WEA(..) => "wea",
    }
}

impl Instr {
    /// The instruction's LASM source line.
    pub fn to_lasm(self) -> (r: String)
        ensures r@ == spec_instr_lasm(self),
    {
        let mut s = String::new();
        s.append(mnemonic(self));
        match self {
            Instr::HLT | Instr::RET => {},
            Instr::ADD(r, v) | Instr::SUB(r, v) | Instr::MUL(r, v) | Instr::DIV(r, v)
            | Instr::MOD(r, v) | Instr::AND(r, v) | Instr::OR(r, v) | Instr::XOR(r, v)
            | Instr::CPY(r, v) | Instr::CMP(r, v) => {
                s.append(" ");
                s.append(reg_name(r));
                s.append(", ");
                push_rol2(&mut s, v);
            },
            Instr::NOT(r) => {
                s.append(" ");
                s.append(reg_name(r));
            },
            Instr::SHL(r, v) | Instr::SHR(r, v) => {
                s.append(" ");
                s.append(reg_name(r));
                s.append(", ");
                push_rol1(&mut s, v);
            },
            Instr::JMP(t) | Instr::CALL(t) | Instr::IFEQ(t) | Instr::IFNE(t)
            | Instr::IFLT(t) | Instr::IFGT(t) => {
                s.append(" ");
                push_rol2(&mut s, t);
            },
            Instr::LEA(v1, v2, v3) | Instr::WEA(v1, v2, v3) => {
                s.append(" ");
                push_rol1(&mut s, v1);
                s.append(", ");
                push_rol1(&mut s, v2);
                s.append(", ");
                push_rol1(&mut s, v3);
            },
        }
        proof {
            assert(s@ =~= spec_instr_lasm(self));
        }
        s
    }
}

impl ProgramWord {
    /// The program word's LASM source line.
    pub fn to_lasm(self) -> (r: String)
        ensures r@ == spec_pword_lasm(self),
    {
        match self {
            ProgramWord::Instr(i) => i.to_lasm(),
            ProgramWord::Raw(b) => {
                let mut s = String::new();
                s.append("#d32 0x");
                push_hex8(&mut s, crate::bytes::word_of(b[0], b[1], b[2], b[3]));
                proof {
                    assert(s@ =~= spec_pword_lasm(self));
                }
                s
            },
        }
    }
}

/// One annotated LASM line: the byte address, a colon, the word's line.
fn annotated_line(w: ProgramWord, counter: u32) -> (r: String)
    ensures r@ == "0x"@ + spec_hex8(counter) + ": "@ + spec_pword_lasm(w),
{
    let mut line = String::new();
    line.append("0x");
    push_hex8(&mut line, counter);
    line.append(": ");
    let body = w.to_lasm();
    line.append(body.as_str());
    proof {
        assert(line@ =~= "0x"@ + spec_hex8(counter) + ": "@ + spec_pword_lasm(w));
    }
    line
}

impl Program {
    /// Each program word's LASM source line, in order.
    pub fn to_lasm_lines(&self) -> (r: Vec<String>)
        ensures
            r@.len() == self.0@.len(),
            forall|j: int| 0 <= j < r@.len() ==> r@[j]@ == spec_pword_lasm(self.0@[j]),
    {
        let mut out: Vec<String> = Vec::new();
        let mut i: usize = 0;
        while i < self.0.len()
            invariant
                i <= self.0@.len(),
                out@.len() == i,
                forall|j: int| 0 <= j < i ==> out@[j]@ == spec_pword_lasm(self.0@[j]),
            decreases self.0@.len() - i,
        {
            out.push(self.0[i].to_lasm());
            i = i + 1;
        }
        out
    }

    /// Each program word's LASM source line, annotated with the word's byte
    /// address.
    #[verifier::rlimit(60)]
    pub fn to_lasm_lines_annotated(&self) -> (r: Vec<String>)
        ensures
            r@.len() == self.0@.len(),
            forall|j: int| 0 <= j < r@.len() ==> r@[j]@ == spec_pword_lasm_annotated(self.0@[j], j),
    {
        let mut out: Vec<String> = Vec::new();
        let mut counter: u32 = 0;
        let mut i: usize = 0;
        while i < self.0.len()
            invariant
                i <= self.0@.len(),
                out@.len() == i,
                counter == spec_annot_addr(i as int),
                forall|j: int| 0 <= j < i ==> out@[j]@ == spec_pword_lasm_annotated(self.0@[j], j),
            decreases self.0@.len() - i,
        {
            let line = annotated_line(self.0[i], counter);
            out.push(line);
            proof {
                vstd::arithmetic::div_mod::lemma_add_mod_noop(4 * i as int, 4, 0x1_0000_0000);
            }
            counter = ((counter as u64 + 4) % 0x1_0000_0000) as u32;
            i = i + 1;
        }
        out
    }

    /// The program's LASM source: its lines joined by newlines, annotated
    /// with each word's byte address on request.
    pub fn to_lasm(&self, annotate_instr_addr: bool) -> (r: String)
        ensures
            !annotate_instr_addr ==> r@ == spec_lasm_join(
                Seq::new(self.0@.len(), |j: int| spec_pword_lasm(self.0@[j])),
            ),
            annotate_instr_addr ==> r@ == spec_lasm_join(
                Seq::new(self.0@.len(), |j: int| spec_pword_lasm_annotated(self.0@[j], j)),
            ),
    {
        let lines = if annotate_instr_addr {
            self.to_lasm_lines_annotated()
        } else {
            self.to_lasm_lines()
        };
        let ghost all = if annotate_instr_addr {
            Seq::new(self.0@.len(), |j: int| spec_pword_lasm_annotated(self.0@[j], j))
        } else {
            Seq::new(self.0@.len(), |j: int| spec_pword_lasm(self.0@[j]))
        };
        let mut s = String::new();
        let mut i: usize = 0;
        while i < lines.len()
            invariant
                lines@.len() == all.len(),
                forall|j: int| 0 <= j < all.len() ==> lines@[j]@ == all[j],
                i <= all.len(),
                s@ == spec_lasm_join(all.take(i as int)),
            decreases all.len() - i,
        {
            if i > 0 {
                s.append("\n");
            }
            s.append(lines[i].as_str());
            proof {
                assert(all.take(i + 1).drop_last() =~= all.take(i as int));
                assert(all.take(i + 1).last() == all[i as int]);
                assert(s@ =~= spec_lasm_join(all.take(i + 1)));
            }
            i = i + 1;
        }
        proof {
            assert(all.take(all.len() as int) =~= all);
        }
        s
    }
}

} // verus!
