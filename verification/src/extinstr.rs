//! Extended instructions: pseudo-ops that lower into fixed sequences of
//! native instructions. The lowerings are contractual, so that disassemblers
//! can recognize them.

use vstd::prelude::*;
use crate::reg::Reg;
use crate::instr::{Instr, RegOrLit1, RegOrLit2, spec_encode};
use crate::bytes::spec_word_of;

verus! {

/// An extended instruction.
#[derive(Copy, Clone, Debug, PartialEq, Eq, Structural)]
pub enum ExtInstr {
    /// Load a full 32-bit value into a register.
    SetReg(Reg, u32),
    /// Read the word at an absolute address into `avr`.
    ReadAddr(u32),
    /// Read the word at an absolute address into a register.
    ReadAddrTo(Reg, u32),
    /// Write a register's value to an absolute address.
    WriteAddr(u32, Reg),
    /// Write a 32-bit literal to an absolute address.
    WriteAddrLit(u32, u32),
}

/// The lowering of `SetReg(reg, value)`: load the high half, shift it up,
/// add the low half.
pub open spec fn spec_set_reg(reg: Reg, value: u32) -> Seq<Instr> {
    seq![
        Instr::CPY(reg, RegOrLit2::Lit((value / 0x1_0000) as u16)),
        Instr::SHL(reg, RegOrLit1::Lit(16)),
        Instr::ADD(reg, RegOrLit2::Lit((value % 0x1_0000) as u16)),
    ]
}

/// The native instructions an extended instruction lowers to.
pub open spec fn spec_ext_instrs(e: ExtInstr) -> Seq<Instr> {
    match e {
        ExtInstr::SetReg(reg, value) => spec_set_reg(reg, value),
        ExtInstr::ReadAddr(addr) => spec_set_reg(Reg::avr, addr) + seq![
            Instr::LEA(RegOrLit1::Reg(Reg::avr), RegOrLit1::Lit(0), RegOrLit1::Lit(0)),
        ],
        ExtInstr::ReadAddrTo(reg, addr) => spec_set_reg(Reg::avr, addr) + seq![
            Instr::LEA(RegOrLit1::Reg(Reg::avr), RegOrLit1::Lit(0), RegOrLit1::Lit(0)),
            Instr::CPY(reg, RegOrLit2::Reg(Reg::avr)),
        ],
        ExtInstr::WriteAddr(addr, reg_value) => spec_set_reg(Reg::rr0, addr) + seq![
            Instr::CPY(Reg::avr, RegOrLit2::Reg(reg_value)),
            Instr::WEA(RegOrLit1::Reg(Reg::rr0), RegOrLit1::Lit(0), RegOrLit1::Lit(0)),
        ],
        ExtInstr::WriteAddrLit(addr, value) => spec_set_reg(Reg::rr0, addr)
            + spec_set_reg(Reg::avr, value) + seq![
            Instr::WEA(RegOrLit1::Reg(Reg::rr0), RegOrLit1::Lit(0), RegOrLit1::Lit(0)),
        ],
    }
}

/// The `SetReg` lowering reconstructs its value: loading the high half,
/// shifting it up by 16 and adding the low half yields exactly the 32-bit
/// value, under the CPU's shift and wrapping-add semantics.
pub proof fn lemma_set_reg_reconstructs(value: u32)
    ensures
        crate::step::w_add(
            crate::step::spec_shl((value / 0x1_0000) as u32, 16),
            (value % 0x1_0000) as u32,
        ) == value,
{
    vstd::arithmetic::power2::lemma2_to64();
    let hi = (value / 0x1_0000) as u32;
    assert(crate::step::spec_shl(hi, 16) == hi * 0x1_0000);
}

impl ExtInstr {
    /// Convert the extended instruction into its sequence of native
    /// instructions.
    pub fn to_instr(&self) -> (r: Vec<Instr>)
        ensures r@ == spec_ext_instrs(*self),
    {
        let mut out: Vec<Instr> = Vec::new();
        match self {
            ExtInstr::SetReg(reg, value) => {
                Self::push_set_reg(&mut out, *reg, *value);
            },
            ExtInstr::ReadAddr(addr) => {
                Self::push_set_reg(&mut out, Reg::avr, *addr);
                out.push(Instr::LEA(RegOrLit1::Reg(Reg::avr), RegOrLit1::Lit(0), RegOrLit1::Lit(0)));
            },
            ExtInstr::ReadAddrTo(reg, addr) => {
                Self::push_set_reg(&mut out, Reg::avr, *addr);
                out.push(Instr::LEA(RegOrLit1::Reg(Reg::avr), RegOrLit1::Lit(0), RegOrLit1::Lit(0)));
                out.push(Instr::CPY(*reg, RegOrLit2::Reg(Reg::avr)));
            },
            ExtInstr::WriteAddr(addr, reg_value) => {
                Self::push_set_reg(&mut out, Reg::rr0, *addr);
                out.push(Instr::CPY(Reg::avr, RegOrLit2::Reg(*reg_value)));
                out.push(Instr::WEA(RegOrLit1::Reg(Reg::rr0), RegOrLit1::Lit(0), RegOrLit1::Lit(0)));
            },
            ExtInstr::WriteAddrLit(addr, value) => {
                Self::push_set_reg(&mut out, Reg::rr0, *addr);
                Self::push_set_reg(&mut out, Reg::avr, *value);
                out.push(Instr::WEA(RegOrLit1::Reg(Reg::rr0), RegOrLit1::Lit(0), RegOrLit1::Lit(0)));
            },
        }
        proof {
            assert(out@ =~= spec_ext_instrs(*self));
        }
        out
    }

    /// Push the three-instruction lowering of a 32-bit register load.
    fn push_set_reg(out: &mut Vec<Instr>, reg: Reg, value: u32)
        ensures final(out)@ == old(out)@ + spec_set_reg(reg, value),
    {
        out.push(Instr::CPY(reg, RegOrLit2::Lit((value / 0x1_0000) as u16)));
        out.push(Instr::SHL(reg, RegOrLit1::Lit(16)));
        out.push(Instr::ADD(reg, RegOrLit2::Lit((value % 0x1_0000) as u16)));
        proof {
            assert(final(out)@ =~= old(out)@ + spec_set_reg(reg, value));
        }
    }

    /// Convert the extended instruction into machine code, split into words.
    pub fn encode_words(&self) -> (r: Vec<u32>)
        ensures
            r@.len() == spec_ext_instrs(*self).len(),
            forall|j: int| 0 <= j < r@.len() ==> r@[j] == ({
                let b = spec_encode(spec_ext_instrs(*self)[j]);
                spec_word_of(b[0], b[1], b[2], b[3])
            }),
    {
        let instrs = self.to_instr();
        let mut out: Vec<u32> = Vec::new();
        let mut i: usize = 0;
        while i < instrs.len()
            invariant
                instrs@ == spec_ext_instrs(*self),
                i <= instrs@.len(),
                out@.len() == i,
                forall|j: int| 0 <= j < i ==> out@[j] == ({
                    let b = spec_encode(instrs@[j]);
                    spec_word_of(b[0], b[1], b[2], b[3])
                }),
            decreases instrs@.len() - i,
        {
            out.push(instrs[i].encode_word());
            i = i + 1;
        }
        out
    }

    /// Convert the extended instruction into flat machine code.
    pub fn encode(&self) -> (r: Vec<u8>)
        ensures
            r@.len() == 4 * spec_ext_instrs(*self).len(),
            forall|j: int| 0 <= j < r@.len()
                ==> r@[j] == spec_encode(spec_ext_instrs(*self)[j / 4])[j % 4],
    {
        let instrs = self.to_instr();
        let mut out: Vec<u8> = Vec::new();
        let mut i: usize = 0;
        while i < instrs.len()
            invariant
                instrs@ == spec_ext_instrs(*self),
                i <= instrs@.len(),
                out@.len() == 4 * i,
                forall|j: int| 0 <= j < 4 * i
                    ==> out@[j] == spec_encode(instrs@[j / 4])[j % 4],
            decreases instrs@.len() - i,
        {
            let b = instrs[i].encode();
            out.push(b[0]);
            out.push(b[1]);
            out.push(b[2]);
            out.push(b[3]);
            i = i + 1;
        }
        out
    }
}

} // verus!
