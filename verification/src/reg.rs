//! The register file's operand selectors.
//!
//! Instructions address registers through 5-bit selectors (the low 5 bits of
//! an 8-bit operand slot). The selector space holds 32 registers: the 24
//! general-purpose registers `a0..a7`, `t0..t7` and `s0..s7`, the
//! routine-return scratch registers `rr0..rr6`, and the address-value
//! register `avr`. The remaining named registers (`rr7`, `pc`, `ssp`, `usp`,
//! `pga`, `ec`, `ett`, `mtt`, `cc`) are part of the CPU state but are not
//! operand-addressable.

use vstd::prelude::*;

verus! {

/// An operand-addressable register.
#[allow(non_camel_case_types)]
#[derive(Copy, Clone, Debug, PartialEq, Eq, Structural)]
pub enum Reg {
    a0, a1, a2, a3, a4, a5, a6, a7,
    t0, t1, t2, t3, t4, t5, t6, t7,
    s0, s1, s2, s3, s4, s5, s6, s7,
    rr0, rr1, rr2, rr3, rr4, rr5, rr6,
    avr,
}

/// The 5-bit selector of a register.
pub open spec fn spec_reg_code(r: Reg) -> u8 {
    match r {
        Reg::a0 => 0, Reg::a1 => 1, Reg::a2 => 2, Reg::a3 => 3,
        Reg::a4 => 4, Reg::a5 => 5, Reg::a6 => 6, Reg::a7 => 7,
        Reg::t0 => 8, Reg::t1 => 9, Reg::t2 => 10, Reg::t3 => 11,
        Reg::t4 => 12, Reg::t5 => 13, Reg::t6 => 14, Reg::t7 => 15,
        Reg::s0 => 16, Reg::s1 => 17, Reg::s2 => 18, Reg::s3 => 19,
        Reg::s4 => 20, Reg::s5 => 21, Reg::s6 => 22, Reg::s7 => 23,
        Reg::rr0 => 24, Reg::rr1 => 25, Reg::rr2 => 26, Reg::rr3 => 27,
        Reg::rr4 => 28, Reg::rr5 => 29, Reg::rr6 => 30,
        Reg::avr => 31,
    }
}

/// The register a 5-bit selector names, if it names one.
pub open spec fn spec_reg_of_code(code: u8) -> Option<Reg> {
    match code {
        0 => Some(Reg::a0), 1 => Some(Reg::a1), 2 => Some(Reg::a2), 3 => Some(Reg::a3),
        4 => Some(Reg::a4), 5 => Some(Reg::a5), 6 => Some(Reg::a6), 7 => Some(Reg::a7),
        8 => Some(Reg::t0), 9 => Some(Reg::t1), 10 => Some(Reg::t2), 11 => Some(Reg::t3),
        12 => Some(Reg::t4), 13 => Some(Reg::t5), 14 => Some(Reg::t6), 15 => Some(Reg::t7),
        16 => Some(Reg::s0), 17 => Some(Reg::s1), 18 => Some(Reg::s2), 19 => Some(Reg::s3),
        20 => Some(Reg::s4), 21 => Some(Reg::s5), 22 => Some(Reg::s6), 23 => Some(Reg::s7),
        24 => Some(Reg::rr0), 25 => Some(Reg::rr1), 26 => Some(Reg::rr2), 27 => Some(Reg::rr3),
        28 => Some(Reg::rr4), 29 => Some(Reg::rr5), 30 => Some(Reg::rr6),
        31 => Some(Reg::avr),
        _ => None,
    }
}

/// Selectors and registers are in exact correspondence.
pub proof fn lemma_reg_code_bijective(r: Reg, code: u8)
    ensures
        spec_reg_code(r) < 32,
        spec_reg_of_code(spec_reg_code(r)) == Some(r),
        spec_reg_of_code(code) matches Some(s) ==> spec_reg_code(s) == code,
        code >= 32 ==> spec_reg_of_code(code) is None,
{
}

impl Reg {
    /// The 5-bit selector this register encodes to.
    pub fn code(self) -> (c: u8)
        ensures
            c == spec_reg_code(self),
            c < 32,
    {
        match self {
            Reg::a0 => 0, Reg::a1 => 1, Reg::a2 => 2, Reg::a3 => 3,
            Reg::a4 => 4, Reg::a5 => 5, Reg::a6 => 6, Reg::a7 => 7,
            Reg::t0 => 8, Reg::t1 => 9, Reg::t2 => 10, Reg::t3 => 11,
            Reg::t4 => 12, Reg::t5 => 13, Reg::t6 => 14, Reg::t7 => 15,
            Reg::s0 => 16, Reg::s1 => 17, Reg::s2 => 18, Reg::s3 => 19,
            Reg::s4 => 20, Reg::s5 => 21, Reg::s6 => 22, Reg::s7 => 23,
            Reg::rr0 => 24, Reg::rr1 => 25, Reg::rr2 => 26, Reg::rr3 => 27,
            Reg::rr4 => 28, Reg::rr5 => 29, Reg::rr6 => 30,
            Reg::avr => 31,
        }
    }

    /// The register a selector names; `None` for a selector out of range.
    pub fn from_code(code: u8) -> (r: Option<Reg>)
        ensures
            r == spec_reg_of_code(code),
    {
        match code {
            0 => Some(Reg::a0), 1 => Some(Reg::a1), 2 => Some(Reg::a2), 3 => Some(Reg::a3),
            4 => Some(Reg::a4), 5 => Some(Reg::a5), 6 => Some(Reg::a6), 7 => Some(Reg::a7),
            8 => Some(Reg::t0), 9 => Some(Reg::t1), 10 => Some(Reg::t2), 11 => Some(Reg::t3),
            12 => Some(Reg::t4), 13 => Some(Reg::t5), 14 => Some(Reg::t6), 15 => Some(Reg::t7),
            16 => Some(Reg::s0), 17 => Some(Reg::s1), 18 => Some(Reg::s2), 19 => Some(Reg::s3),
            20 => Some(Reg::s4), 21 => Some(Reg::s5), 22 => Some(Reg::s6), 23 => Some(Reg::s7),
            24 => Some(Reg::rr0), 25 => Some(Reg::rr1), 26 => Some(Reg::rr2), 27 => Some(Reg::rr3),
            28 => Some(Reg::rr4), 29 => Some(Reg::rr5), 30 => Some(Reg::rr6),
            31 => Some(Reg::avr),
            _ => None,
        }
    }
}

} // verus!
