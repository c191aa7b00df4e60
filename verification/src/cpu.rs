//! The CPU's state: the register file, the halted flag, and the latched
//! exception registers.
//!
//! The 32 operand-addressable registers live in `regs`, indexed by their
//! 5-bit selector. The remaining named registers are fields of their own:
//! `rr7` (scratch, not operand-addressable), `pc` (program counter), `ssp`
//! and `usp` (system and user stack pointers), `pga` (pending guest address
//! of a memory fault), `ec` (latched exception code; zero means none), `ett`
//! (device type token of a device fault), `mtt` (memory type token), and
//! `cc` (condition / carry register).

use vstd::prelude::*;
use crate::reg::{Reg, spec_reg_code};

verus! {

/// Exception code: a memory access at an address that is not word-aligned.
pub const EX_UNALIGNED_ADDRESS: u16 = 0x01;

/// Exception code: a memory access at an unmapped address.
pub const EX_UNMAPPED_ADDRESS: u16 = 0x02;

/// Exception code: the opcode byte holds an unknown instruction code.
pub const EX_INVALID_OPCODE: u16 = 0x10;

/// Exception code: an operand slot does not fit the instruction.
pub const EX_INVALID_OPERAND_KIND: u16 = 0x11;

/// Exception code: a register slot holds a selector out of range.
pub const EX_UNKNOWN_REGISTER: u16 = 0x12;

/// Exception code: division or remainder by zero.
pub const EX_DIV_BY_ZERO: u16 = 0x20;

/// The CPU core's state.
pub struct Cpu {
    /// The 32 operand-addressable registers, indexed by selector.
    pub regs: Vec<u32>,
    /// The last routine-return scratch register (not operand-addressable).
    pub rr7: u32,
    /// Program counter.
    pub pc: u32,
    /// System stack pointer, used by `CALL` and `RET`.
    pub ssp: u32,
    /// User stack pointer.
    pub usp: u32,
    /// Pending guest address: the faulting address of a memory exception.
    pub pga: u32,
    /// Latched exception code; zero means no exception.
    pub ec: u32,
    /// Exception type token: the device category of a device fault.
    pub ett: u32,
    /// Memory type token: the device type of a device fault.
    pub mtt: u32,
    /// Condition / carry register, written by `CMP`, `ADD` and `SUB`.
    pub cc: u32,
    /// Whether the CPU has halted.
    pub halted: bool,
}

/// The value an operand-addressable register holds.
pub open spec fn spec_reg(c: Cpu, r: Reg) -> u32 {
    c.regs@[spec_reg_code(r) as int]
}

/// Whether all CPU state outside the selector-addressable register file is
/// equal.
pub open spec fn cpu_scalars_eq(a: Cpu, b: Cpu) -> bool {
    &&& b.rr7 == a.rr7
    &&& b.pc == a.pc
    &&& b.ssp == a.ssp
    &&& b.usp == a.usp
    &&& b.pga == a.pga
    &&& b.ec == a.ec
    &&& b.ett == a.ett
    &&& b.mtt == a.mtt
    &&& b.cc == a.cc
    &&& b.halted == a.halted
}

/// A CPU in the defined zero state: every register zero, not halted.
pub open spec fn cpu_zeroed(c: Cpu) -> bool {
    &&& c.regs@ == Seq::new(32, |i: int| 0u32)
    &&& c.rr7 == 0
    &&& c.pc == 0
    &&& c.ssp == 0
    &&& c.usp == 0
    &&& c.pga == 0
    &&& c.ec == 0
    &&& c.ett == 0
    &&& c.mtt == 0
    &&& c.cc == 0
    &&& !c.halted
}

impl Cpu {
    /// Well-formed: the register file holds exactly the 32 addressable
    /// registers.
    pub open spec fn wf(&self) -> bool {
        self.regs@.len() == 32
    }

    /// A CPU in the defined zero state.
    pub fn new() -> (c: Self)
        ensures
            c.wf(),
            cpu_zeroed(c),
    {
        let c = Cpu {
            regs: vec![0u32; 32],
            rr7: 0,
            pc: 0,
            ssp: 0,
            usp: 0,
            pga: 0,
            ec: 0,
            ett: 0,
            mtt: 0,
            cc: 0,
            halted: false,
        };
        proof {
            assert(c.regs@ =~= Seq::new(32, |i: int| 0u32));
        }
        c
    }

    /// Restore the defined zero state.
    pub fn reset(&mut self)
        ensures
            final(self).wf(),
            cpu_zeroed(*final(self)),
    {
        *self = Cpu::new();
    }

    /// Read an operand-addressable register.
    pub fn read_reg(&self, r: Reg) -> (v: u32)
        requires self.wf(),
        ensures v == spec_reg(*self, r),
    {
        self.regs[r.code() as usize]
    }

    /// Write an operand-addressable register; all other state is kept.
    pub fn write_reg(&mut self, r: Reg, v: u32)
        requires old(self).wf(),
        ensures
            final(self).wf(),
            final(self).regs@ == old(self).regs@.update(spec_reg_code(r) as int, v),
            cpu_scalars_eq(*old(self), *final(self)),
    {
        self.regs.set(r.code() as usize, v);
    }

    /// Whether the CPU has halted.
    pub fn halted(&self) -> (h: bool)
        ensures h == self.halted,
    {
        self.halted
    }
}

} // verus!
