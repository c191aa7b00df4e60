//! The fetch/decode/execute step.
//!
//! `next` performs exactly one instruction: on a halted CPU it does nothing;
//! otherwise it reads the word at `pc`, decodes it, and executes it. Any bus
//! or arithmetic fault latches an exception code into `ec` (with the faulting
//! address in `pga` for memory faults) and halts the CPU without advancing
//! `pc`. The whole step is pinned by [`step_rel`].

use vstd::prelude::*;
use vstd::arithmetic::power2::pow2;
use crate::board::{BusError, Motherboard};
use crate::bytes::spec_byte_of;
use crate::cpu::{
    Cpu, spec_reg, EX_DIV_BY_ZERO, EX_INVALID_OPCODE, EX_INVALID_OPERAND_KIND,
    EX_UNALIGNED_ADDRESS, EX_UNKNOWN_REGISTER, EX_UNMAPPED_ADDRESS,
};
use crate::instr::{Instr, InstrDecodingError, RegOrLit1, RegOrLit2, spec_decode};
use crate::reg::{Reg, spec_reg_code};

verus! {

/// Addition modulo 2^32.
pub open spec fn w_add(a: u32, b: u32) -> u32 {
    ((a + b) % 0x1_0000_0000) as u32
}

/// Subtraction modulo 2^32.
pub open spec fn w_sub(a: u32, b: u32) -> u32 {
    ((a - b + 0x1_0000_0000) % 0x1_0000_0000) as u32
}

/// Multiplication modulo 2^32.
pub open spec fn w_mul(a: u32, b: u32) -> u32 {
    ((a * b) % 0x1_0000_0000) as u32
}

/// Adding a signed offset, modulo 2^32.
pub open spec fn w_add_signed(a: u32, off: i32) -> u32 {
    if off >= 0 {
        w_add(a, off as u32)
    } else {
        w_sub(a, (-(off as int)) as u32)
    }
}

/// Left shift: multiplication by 2^n modulo 2^32; zero for counts of 32 or
/// more.
pub open spec fn spec_shl(a: u32, n: u32) -> u32 {
    if n >= 32 {
        0
    } else {
        ((a * pow2(n as nat)) % 0x1_0000_0000) as u32
    }
}

/// Logical right shift: division by 2^n; zero for counts of 32 or more.
pub open spec fn spec_shr(a: u32, n: u32) -> u32 {
    if n >= 32 {
        0
    } else {
        (a as nat / pow2(n as nat)) as u32
    }
}

/// What `CMP` writes to `cc`: 0 for equal, 1 for below, 2 for above
/// (unsigned).
pub open spec fn spec_cmp_cc(a: u32, b: u32) -> u32 {
    if a == b { 0 } else if a < b { 1 } else { 2 }
}

/// The value of a register-or-8-bit-immediate operand.
pub open spec fn spec_val1(c: Cpu, v: RegOrLit1) -> u32 {
    match v {
        RegOrLit1::Reg(r) => spec_reg(c, r),
        RegOrLit1::Lit(l) => l as u32,
    }
}

/// The value of a register-or-16-bit-immediate operand; an immediate is
/// zero-extended.
pub open spec fn spec_val2(c: Cpu, v: RegOrLit2) -> u32 {
    match v {
        RegOrLit2::Reg(r) => spec_reg(c, r),
        RegOrLit2::Lit(l) => l as u32,
    }
}

/// A branch target: absolute through a register, or `pc` plus the
/// sign-extended immediate.
pub open spec fn spec_target(c: Cpu, t: RegOrLit2) -> u32 {
    match t {
        RegOrLit2::Reg(r) => spec_reg(c, r),
        RegOrLit2::Lit(l) => w_add_signed(c.pc, l as i16 as i32),
    }
}

/// The exception code a decoding failure latches.
pub open spec fn spec_decode_ec(e: InstrDecodingError) -> u16 {
    match e {
        InstrDecodingError::SourceNotMultipleOf4Bytes => EX_INVALID_OPCODE,
        InstrDecodingError::UnknownOpCode(_) => EX_INVALID_OPCODE,
        InstrDecodingError::InvalidOperandKind(_) => EX_INVALID_OPERAND_KIND,
        InstrDecodingError::UnknownRegister(_) => EX_UNKNOWN_REGISTER,
    }
}

/// Pins every field of a CPU state.
pub open spec fn cpu_is(
    post: Cpu,
    regs: Seq<u32>,
    rr7: u32,
    pc: u32,
    ssp: u32,
    usp: u32,
    pga: u32,
    ec: u32,
    ett: u32,
    mtt: u32,
    cc: u32,
    halted: bool,
) -> bool {
    &&& post.regs@ == regs
    &&& post.rr7 == rr7
    &&& post.pc == pc
    &&& post.ssp == ssp
    &&& post.usp == usp
    &&& post.pga == pga
    &&& post.ec == ec
    &&& post.ett == ett
    &&& post.mtt == mtt
    &&& post.cc == cc
    &&& post.halted == halted
}

/// A latched memory fault: the exception code goes to `ec`, the faulting
/// address to `pga` (a device fault also fills `ett` and `mtt` with the
/// device's category and type codes), and the CPU halts at the faulting
/// `pc`.
pub open spec fn cpu_mem_fault(pre: Cpu, post: Cpu, e: BusError, addr: u32) -> bool {
    match e {
        BusError::Unaligned => cpu_is(
            post, pre.regs@, pre.rr7, pre.pc, pre.ssp, pre.usp,
            addr, EX_UNALIGNED_ADDRESS as u32, pre.ett, pre.mtt, pre.cc, true,
        ),
        BusError::Unmapped => cpu_is(
            post, pre.regs@, pre.rr7, pre.pc, pre.ssp, pre.usp,
            addr, EX_UNMAPPED_ADDRESS as u32, pre.ett, pre.mtt, pre.cc, true,
        ),
        BusError::Device(code, cat, ty) => cpu_is(
            post, pre.regs@, pre.rr7, pre.pc, pre.ssp, pre.usp,
            addr, code as u32, cat, ty, pre.cc, true,
        ),
    }
}

/// A latched decoding fault: the CPU halts at the faulting `pc`.
pub open spec fn cpu_decode_fault(pre: Cpu, post: Cpu, e: InstrDecodingError) -> bool {
    cpu_is(
        post, pre.regs@, pre.rr7, pre.pc, pre.ssp, pre.usp,
        pre.pga, spec_decode_ec(e) as u32, pre.ett, pre.mtt, pre.cc, true,
    )
}

/// An instruction that writes one register, sets `cc`, and advances `pc`.
pub open spec fn cpu_alu(pre: Cpu, post: Cpu, r: Reg, val: u32, cc: u32) -> bool {
    cpu_is(
        post, pre.regs@.update(spec_reg_code(r) as int, val), pre.rr7, w_add(pre.pc, 4),
        pre.ssp, pre.usp, pre.pga, pre.ec, pre.ett, pre.mtt, cc, false,
    )
}

/// An instruction that only moves `pc`.
pub open spec fn cpu_jump(pre: Cpu, post: Cpu, pc: u32) -> bool {
    cpu_is(
        post, pre.regs@, pre.rr7, pc, pre.ssp, pre.usp,
        pre.pga, pre.ec, pre.ett, pre.mtt, pre.cc, false,
    )
}

/// The division-by-zero fault: the CPU halts at the faulting `pc`.
pub open spec fn cpu_div_fault(pre: Cpu, post: Cpu) -> bool {
    cpu_is(
        post, pre.regs@, pre.rr7, pre.pc, pre.ssp, pre.usp,
        pre.pga, EX_DIV_BY_ZERO as u32, pre.ett, pre.mtt, pre.cc, true,
    )
}

/// The devices after the step are the devices before it.
pub open spec fn devices_unchanged(pre: Motherboard, post: Motherboard) -> bool {
    post.devices@ == pre.devices@
}

/// One word of one device was replaced: the device mapped at `addr` has the
/// word at the translated offset set to `w`; every other device is untouched.
pub open spec fn devices_written(pre: Motherboard, post: Motherboard, addr: u32, w: u32) -> bool {
    &&& pre.spec_lookup_addr(addr) is Some
    &&& {
        let (d, off) = pre.spec_lookup_addr(addr)->Some_0;
        &&& post.devices@.len() == pre.devices@.len()
        &&& forall|j: int| 0 <= j < pre.devices@.len() && j != d
            ==> post.devices@[j] == pre.devices@[j]
        &&& post.devices@[d as int].contents()
            == pre.devices@[d as int].contents().update(off as int / 4, w)
        &&& crate::device::Device::same_shape(pre.devices@[d as int], post.devices@[d as int])
    }
}

/// What executing one decoded instruction does, as a relation between the
/// machine before and after it.
pub open spec fn exec_rel(pre: Motherboard, post: Motherboard, i: Instr) -> bool {
    let c = pre.cpu;
    match i {
        Instr::HLT => devices_unchanged(pre, post) && cpu_is(
            post.cpu, c.regs@, c.rr7, c.pc, c.ssp, c.usp,
            c.pga, c.ec, c.ett, c.mtt, c.cc, true,
        ),
        Instr::ADD(r, v) => devices_unchanged(pre, post) && {
            let a = spec_reg(c, r);
            let b = spec_val2(c, v);
            cpu_alu(c, post.cpu, r, w_add(a, b), if a + b > 0xFFFF_FFFF { 1 } else { 0 })
        },
        Instr::SUB(r, v) => devices_unchanged(pre, post) && {
            let a = spec_reg(c, r);
            let b = spec_val2(c, v);
            cpu_alu(c, post.cpu, r, w_sub(a, b), if a < b { 1 } else { 0 })
        },
        Instr::MUL(r, v) => devices_unchanged(pre, post)
            && cpu_alu(c, post.cpu, r, w_mul(spec_reg(c, r), spec_val2(c, v)), c.cc),
        Instr::DIV(r, v) => devices_unchanged(pre, post) && {
            let b = spec_val2(c, v);
            if b == 0 {
                cpu_div_fault(c, post.cpu)
            } else {
                cpu_alu(c, post.cpu, r, (spec_reg(c, r) / b) as u32, c.cc)
            }
        },
        Instr::MOD(r, v) => devices_unchanged(pre, post) && {
            let b = spec_val2(c, v);
            if b == 0 {
                cpu_div_fault(c, post.cpu)
            } else {
                cpu_alu(c, post.cpu, r, (spec_reg(c, r) % b) as u32, c.cc)
            }
        },
        Instr::AND(r, v) => devices_unchanged(pre, post)
            && cpu_alu(c, post.cpu, r, spec_reg(c, r) & spec_val2(c, v), c.cc),
        Instr::OR(r, v) => devices_unchanged(pre, post)
            && cpu_alu(c, post.cpu, r, spec_reg(c, r) | spec_val2(c, v), c.cc),
        Instr::XOR(r, v) => devices_unchanged(pre, post)
            && cpu_alu(c, post.cpu, r, spec_reg(c, r) ^ spec_val2(c, v), c.cc),
        Instr::NOT(r) => devices_unchanged(pre, post)
            && cpu_alu(c, post.cpu, r, !spec_reg(c, r), c.cc),
        Instr::SHL(r, v) => devices_unchanged(pre, post)
            && cpu_alu(c, post.cpu, r, spec_shl(spec_reg(c, r), spec_val1(c, v)), c.cc),
        Instr::SHR(r, v) => devices_unchanged(pre, post)
            && cpu_alu(c, post.cpu, r, spec_shr(spec_reg(c, r), spec_val1(c, v)), c.cc),
        Instr::CPY(r, v) => devices_unchanged(pre, post)
            && cpu_alu(c, post.cpu, r, spec_val2(c, v), c.cc),
        Instr::CMP(r, v) => devices_unchanged(pre, post) && cpu_is(
            post.cpu, c.regs@, c.rr7, w_add(c.pc, 4), c.ssp, c.usp,
            c.pga, c.ec, c.ett, c.mtt, spec_cmp_cc(spec_reg(c, r), spec_val2(c, v)), false,
        ),
        Instr::JMP(t) => devices_unchanged(pre, post)
            && cpu_jump(c, post.cpu, spec_target(c, t)),
        Instr::CALL(t) => {
            let sp = w_sub(c.ssp, 4);
            if sp % 4 != 0 {
                devices_unchanged(pre, post)
                    && cpu_mem_fault(c, post.cpu, BusError::Unaligned, sp)
            } else if pre.spec_lookup_addr(sp) is None {
                devices_unchanged(pre, post)
                    && cpu_mem_fault(c, post.cpu, BusError::Unmapped, sp)
            } else {
                devices_written(pre, post, sp, w_add(c.pc, 4)) && cpu_is(
                    post.cpu, c.regs@, c.rr7, spec_target(c, t), sp, c.usp,
                    c.pga, c.ec, c.ett, c.mtt, c.cc, false,
                )
            }
        },
        Instr::RET => devices_unchanged(pre, post) && {
            if c.ssp % 4 != 0 {
                cpu_mem_fault(c, post.cpu, BusError::Unaligned, c.ssp)
            } else if pre.spec_lookup_addr(c.ssp) is None {
                cpu_mem_fault(c, post.cpu, BusError::Unmapped, c.ssp)
            } else {
                cpu_is(
                    post.cpu, c.regs@, c.rr7, pre.spec_mem_word(c.ssp), w_add(c.ssp, 4), c.usp,
                    c.pga, c.ec, c.ett, c.mtt, c.cc, false,
                )
            }
        },
        Instr::IFEQ(t) => devices_unchanged(pre, post)
            && cpu_jump(c, post.cpu, if c.cc == 0 { spec_target(c, t) } else { w_add(c.pc, 4) }),
        Instr::IFNE(t) => devices_unchanged(pre, post)
            && cpu_jump(c, post.cpu, if c.cc != 0 { spec_target(c, t) } else { w_add(c.pc, 4) }),
        Instr::IFLT(t) => devices_unchanged(pre, post)
            && cpu_jump(c, post.cpu, if c.cc == 1 { spec_target(c, t) } else { w_add(c.pc, 4) }),
        Instr::IFGT(t) => devices_unchanged(pre, post)
            && cpu_jump(c, post.cpu, if c.cc == 2 { spec_target(c, t) } else { w_add(c.pc, 4) }),
        Instr::LEA(v1, v2, v3) => {
            let a = w_add(w_add(spec_val1(c, v1), spec_val1(c, v2)), spec_val1(c, v3));
            if a % 4 != 0 {
                devices_unchanged(pre, post)
                    && cpu_mem_fault(c, post.cpu, BusError::Unaligned, a)
            } else if pre.spec_lookup_addr(a) is None {
                devices_unchanged(pre, post)
                    && cpu_mem_fault(c, post.cpu, BusError::Unmapped, a)
            } else {
                devices_unchanged(pre, post)
                    && cpu_alu(c, post.cpu, Reg::avr, pre.spec_mem_word(a), c.cc)
            }
        },
        Instr::WEA(v1, v2, v3) => {
            let a = w_add(w_add(spec_val1(c, v1), spec_val1(c, v2)), spec_val1(c, v3));
            if a % 4 != 0 {
                devices_unchanged(pre, post)
                    && cpu_mem_fault(c, post.cpu, BusError::Unaligned, a)
            } else if pre.spec_lookup_addr(a) is None {
                devices_unchanged(pre, post)
                    && cpu_mem_fault(c, post.cpu, BusError::Unmapped, a)
            } else {
                devices_written(pre, post, a, spec_reg(c, Reg::avr)) && cpu_is(
                    post.cpu, c.regs@, c.rr7, w_add(c.pc, 4), c.ssp, c.usp,
                    c.pga, c.ec, c.ett, c.mtt, c.cc, false,
                )
            }
        },
    }
}

/// What one `next` call does: nothing on a halted CPU; otherwise the word at
/// `pc` is fetched (a fetch fault latches and halts), decoded (a decoding
/// fault latches and halts at the faulting `pc`), and executed as
/// [`exec_rel`] says. The address-space map never changes.
pub open spec fn step_rel(pre: Motherboard, post: Motherboard) -> bool {
    if pre.cpu.halted {
        post == pre
    } else {
        post.mapper == pre.mapper && {
            let pc = pre.cpu.pc;
            if pc % 4 != 0 {
                devices_unchanged(pre, post)
                    && cpu_mem_fault(pre.cpu, post.cpu, BusError::Unaligned, pc)
            } else if pre.spec_lookup_addr(pc) is None {
                devices_unchanged(pre, post)
                    && cpu_mem_fault(pre.cpu, post.cpu, BusError::Unmapped, pc)
            } else {
                let w = pre.spec_mem_word(pc);
                match spec_decode(
                    spec_byte_of(w, 0), spec_byte_of(w, 1), spec_byte_of(w, 2), spec_byte_of(w, 3),
                ) {
                    Err(e) => devices_unchanged(pre, post)
                        && cpu_decode_fault(pre.cpu, post.cpu, e),
                    Ok(i) => exec_rel(pre, post, i),
                }
            }
        }
    }
}

/// Wrapping 32-bit addition.
fn add32(a: u32, b: u32) -> (r: u32)
    ensures r == w_add(a, b),
{
    ((a as u64 + b as u64) % 0x1_0000_0000) as u32
}

/// Wrapping 32-bit subtraction.
fn sub32(a: u32, b: u32) -> (r: u32)
    ensures r == w_sub(a, b),
{
    ((a as u64 + 0x1_0000_0000 - b as u64) % 0x1_0000_0000) as u32
}

/// Wrapping 32-bit multiplication.
fn mul32(a: u32, b: u32) -> (r: u32)
    ensures r == w_mul(a, b),
{
    proof {
        assert(a as u64 * b as u64 <= 0xFFFF_FFFFu64 * 0xFFFF_FFFFu64) by (nonlinear_arith)
            requires a <= 0xFFFF_FFFF && b <= 0xFFFF_FFFF;
    }
    ((a as u64 * b as u64) % 0x1_0000_0000) as u32
}

/// 2^n for a shift count below 32.
fn pow2_32(n: u32) -> (p: u64)
    requires n < 32,
    ensures p == pow2(n as nat),
{
    let mut p: u64 = 1;
    let mut i: u32 = 0;
    proof {
        vstd::arithmetic::power2::lemma2_to64();
    }
    while i < n
        invariant
            i <= n < 32,
            p == pow2(i as nat),
            p <= 0x8000_0000,
        decreases n - i,
    {
        proof {
            vstd::arithmetic::power2::lemma_pow2_unfold((i + 1) as nat);
            if i + 1 < 31 {
                vstd::arithmetic::power2::lemma_pow2_strictly_increases((i + 1) as nat, 31);
            }
            vstd::arithmetic::power2::lemma2_to64();
        }
        p = p * 2;
        i = i + 1;
    }
    p
}

/// The shift-left result.
fn shl32(a: u32, n: u32) -> (r: u32)
    ensures r == spec_shl(a, n),
{
    if n >= 32 {
        0
    } else {
        let p = pow2_32(n);
        proof {
            vstd::arithmetic::power2::lemma_pow2_strictly_increases(n as nat, 32);
            vstd::arithmetic::power2::lemma2_to64();
            assert(a as u64 * p <= 0xFFFF_FFFFu64 * 0x1_0000_0000u64) by (nonlinear_arith)
                requires a <= 0xFFFF_FFFF && p <= 0x1_0000_0000;
        }
        ((a as u64 * p) % 0x1_0000_0000) as u32
    }
}

/// The logical shift-right result.
fn shr32(a: u32, n: u32) -> (r: u32)
    ensures r == spec_shr(a, n),
{
    if n >= 32 {
        0
    } else {
        let p = pow2_32(n);
        proof {
            vstd::arithmetic::power2::lemma_pow2_pos(n as nat);
        }
        (a as u64 / p) as u32
    }
}

/// `pc` plus a sign-extended 16-bit offset, wrapping.
fn add_rel16(pc: u32, l: u16) -> (r: u32)
    ensures r == w_add_signed(pc, l as i16 as i32),
{
    let off = l as i16 as i32;
    if off >= 0 {
        add32(pc, off as u32)
    } else {
        sub32(pc, (-(off as i64)) as u32)
    }
}

/// The exception code a decoding failure latches.
fn decode_ec(e: InstrDecodingError) -> (c: u16)
    ensures c == spec_decode_ec(e),
{
    match e {
        InstrDecodingError::SourceNotMultipleOf4Bytes => EX_INVALID_OPCODE,
        InstrDecodingError::UnknownOpCode(_) => EX_INVALID_OPCODE,
        InstrDecodingError::InvalidOperandKind(_) => EX_INVALID_OPERAND_KIND,
        InstrDecodingError::UnknownRegister(_) => EX_UNKNOWN_REGISTER,
    }
}

impl Cpu {
    /// Latch a memory fault and halt, leaving `pc` at the faulting
    /// instruction.
    fn latch_fault(&mut self, e: BusError, addr: u32)
        ensures *final(self) == (match e {
            BusError::Unaligned => Cpu {
                pga: addr, ec: EX_UNALIGNED_ADDRESS as u32, halted: true, ..*old(self)
            },
            BusError::Unmapped => Cpu {
                pga: addr, ec: EX_UNMAPPED_ADDRESS as u32, halted: true, ..*old(self)
            },
            BusError::Device(code, cat, ty) => Cpu {
                pga: addr, ec: code as u32, ett: cat, mtt: ty, halted: true, ..*old(self)
            },
        }),
    {
        match e {
            BusError::Unaligned => {
                self.pga = addr;
                self.ec = EX_UNALIGNED_ADDRESS as u32;
            },
            BusError::Unmapped => {
                self.pga = addr;
                self.ec = EX_UNMAPPED_ADDRESS as u32;
            },
            BusError::Device(code, cat, ty) => {
                self.pga = addr;
                self.ec = code as u32;
                self.ett = cat;
                self.mtt = ty;
            },
        }
        self.halted = true;
    }

    /// The value of a register-or-8-bit-immediate operand.
    fn value1(&self, v: RegOrLit1) -> (r: u32)
        requires self.wf(),
        ensures r == spec_val1(*self, v),
    {
        match v {
            RegOrLit1::Reg(r) => self.read_reg(r),
            RegOrLit1::Lit(l) => l as u32,
        }
    }

    /// The value of a register-or-16-bit-immediate operand.
    fn value2(&self, v: RegOrLit2) -> (r: u32)
        requires self.wf(),
        ensures r == spec_val2(*self, v),
    {
        match v {
            RegOrLit2::Reg(r) => self.read_reg(r),
            RegOrLit2::Lit(l) => l as u32,
        }
    }

    /// A branch target.
    fn target(&self, t: RegOrLit2) -> (r: u32)
        requires self.wf(),
        ensures r == spec_target(*self, t),
    {
        match t {
            RegOrLit2::Reg(r) => self.read_reg(r),
            RegOrLit2::Lit(l) => add_rel16(self.pc, l),
        }
    }
}

impl Motherboard {
    /// Write a register, set `cc`, and advance `pc` by one instruction.
    fn alu_step(&mut self, r: Reg, val: u32, cc: u32)
        requires
            old(self).wf(),
            !old(self).cpu.halted,
        ensures
            final(self).wf(),
            final(self).devices == old(self).devices,
            final(self).mapper == old(self).mapper,
            cpu_alu(old(self).cpu, final(self).cpu, r, val, cc),
    {
        self.cpu.write_reg(r, val);
        self.cpu.cc = cc;
        let pc4 = add32(self.cpu.pc, 4);
        self.cpu.pc = pc4;
        self.cpu.halted = false;
    }

    /// Execute one decoded instruction.
    #[verifier::rlimit(100)]
    fn exec_instr(&mut self, i: Instr)
        requires
            old(self).wf(),
            !old(self).cpu.halted,
        ensures
            final(self).wf(),
            final(self).mapper == old(self).mapper,
            exec_rel(*old(self), *final(self), i),
    {
        match i {
            Instr::HLT => {
                self.cpu.halted = true;
            },
            Instr::ADD(r, v) => {
                let a = self.cpu.read_reg(r);
                let b = self.cpu.value2(v);
                let carry: u32 = if a as u64 + b as u64 > 0xFFFF_FFFFu64 { 1 } else { 0 };
                self.alu_step(r, add32(a, b), carry);
            },
            Instr::SUB(r, v) => {
                let a = self.cpu.read_reg(r);
                let b = self.cpu.value2(v);
                let borrow: u32 = if a < b { 1 } else { 0 };
                self.alu_step(r, sub32(a, b), borrow);
            },
            Instr::MUL(r, v) => {
                let a = self.cpu.read_reg(r);
                let b = self.cpu.value2(v);
                let cc = self.cpu.cc;
                self.alu_step(r, mul32(a, b), cc);
            },
            Instr::DIV(r, v) => {
                let a = self.cpu.read_reg(r);
                let b = self.cpu.value2(v);
                if b == 0 {
                    self.cpu.ec = EX_DIV_BY_ZERO as u32;
                    self.cpu.halted = true;
                } else {
                    let cc = self.cpu.cc;
                    self.alu_step(r, a / b, cc);
                }
            },
            Instr::MOD(r, v) => {
                let a = self.cpu.read_reg(r);
                let b = self.cpu.value2(v);
                if b == 0 {
                    self.cpu.ec = EX_DIV_BY_ZERO as u32;
                    self.cpu.halted = true;
                } else {
                    let cc = self.cpu.cc;
                    self.alu_step(r, a % b, cc);
                }
            },
            Instr::AND(r, v) => {
                let a = self.cpu.read_reg(r);
                let b = self.cpu.value2(v);
                let cc = self.cpu.cc;
                self.alu_step(r, a & b, cc);
            },
            Instr::OR(r, v) => {
                let a = self.cpu.read_reg(r);
                let b = self.cpu.value2(v);
                let cc = self.cpu.cc;
                self.alu_step(r, a | b, cc);
            },
            Instr::XOR(r, v) => {
                let a = self.cpu.read_reg(r);
                let b = self.cpu.value2(v);
                let cc = self.cpu.cc;
                self.alu_step(r, a ^ b, cc);
            },
            Instr::NOT(r) => {
                let a = self.cpu.read_reg(r);
                let cc = self.cpu.cc;
                self.alu_step(r, !a, cc);
            },
            Instr::SHL(r, v) => {
                let a = self.cpu.read_reg(r);
                let n = self.cpu.value1(v);
                let cc = self.cpu.cc;
                self.alu_step(r, shl32(a, n), cc);
            },
            Instr::SHR(r, v) => {
                let a = self.cpu.read_reg(r);
                let n = self.cpu.value1(v);
                let cc = self.cpu.cc;
                self.alu_step(r, shr32(a, n), cc);
            },
            Instr::CPY(r, v) => {
                let b = self.cpu.value2(v);
                let cc = self.cpu.cc;
                self.alu_step(r, b, cc);
            },
            Instr::CMP(r, v) => {
                let a = self.cpu.read_reg(r);
                let b = self.cpu.value2(v);
                self.cpu.cc = if a == b { 0 } else if a < b { 1 } else { 2 };
                let pc4 = add32(self.cpu.pc, 4);
                self.cpu.pc = pc4;
            },
            Instr::JMP(t) => {
                let target = self.cpu.target(t);
                self.cpu.pc = target;
            },
            Instr::CALL(t) => {
                self.exec_call(t);
            },
            Instr::RET => {
                self.exec_ret();
            },
            Instr::IFEQ(t) => {
                let target = self.cpu.target(t);
                let pc4 = add32(self.cpu.pc, 4);
                self.cpu.pc = if self.cpu.cc == 0 { target } else { pc4 };
            },
            Instr::IFNE(t) => {
                let target = self.cpu.target(t);
                let pc4 = add32(self.cpu.pc, 4);
                self.cpu.pc = if self.cpu.cc != 0 { target } else { pc4 };
            },
            Instr::IFLT(t) => {
                let target = self.cpu.target(t);
                let pc4 = add32(self.cpu.pc, 4);
                self.cpu.pc = if self.cpu.cc == 1 { target } else { pc4 };
            },
            Instr::IFGT(t) => {
                let target = self.cpu.target(t);
                let pc4 = add32(self.cpu.pc, 4);
                self.cpu.pc = if self.cpu.cc == 2 { target } else { pc4 };
            },
            Instr::LEA(v1, v2, v3) => {
                self.exec_lea(v1, v2, v3);
            },
            Instr::WEA(v1, v2, v3) => {
                self.exec_wea(v1, v2, v3);
            },
        }
    }

    /// Execute `CALL`: push the return address on the system stack, then
    /// jump.
    fn exec_call(&mut self, t: RegOrLit2)
        requires
            old(self).wf(),
            !old(self).cpu.halted,
        ensures
            final(self).wf(),
            final(self).mapper == old(self).mapper,
            exec_rel(*old(self), *final(self), Instr::CALL(t)),
    {
        let target = self.cpu.target(t);
        let sp = sub32(self.cpu.ssp, 4);
        let ret = add32(self.cpu.pc, 4);
        match self.mem_write(sp, ret) {
            Err(e) => {
                self.cpu.latch_fault(e, sp);
            },
            Ok(()) => {
                proof {
                    let pre = *old(self);
                    let d = pre.spec_lookup_addr(sp)->Some_0.0 as int;
                    crate::mapper::lemma_lookup_some(pre.mapper.entries@, sp, 0);
                    assert(0 <= d < pre.devices@.len());
                    assert forall|j: int| 0 <= j < pre.devices@.len() && j != d
                        implies self.devices@[j] == pre.devices@[j] by {
                        assert(self.devices@[j]
                            == pre.devices@.update(d, self.devices@[d])[j]);
                    }
                }
                self.cpu.ssp = sp;
                self.cpu.pc = target;
            },
        }
    }

    /// Execute `RET`: pop the return address from the system stack.
    fn exec_ret(&mut self)
        requires
            old(self).wf(),
            !old(self).cpu.halted,
        ensures
            final(self).wf(),
            final(self).mapper == old(self).mapper,
            exec_rel(*old(self), *final(self), Instr::RET),
    {
        let sp = self.cpu.ssp;
        match self.mem_read(sp) {
            Err(e) => {
                self.cpu.latch_fault(e, sp);
            },
            Ok(w) => {
                self.cpu.pc = w;
                let sp4 = add32(sp, 4);
                self.cpu.ssp = sp4;
            },
        }
    }

    /// Execute `LEA`: read the word at the sum of the operand values into
    /// `avr`.
    fn exec_lea(&mut self, v1: RegOrLit1, v2: RegOrLit1, v3: RegOrLit1)
        requires
            old(self).wf(),
            !old(self).cpu.halted,
        ensures
            final(self).wf(),
            final(self).mapper == old(self).mapper,
            exec_rel(*old(self), *final(self), Instr::LEA(v1, v2, v3)),
    {
        let a1 = self.cpu.value1(v1);
        let a2 = self.cpu.value1(v2);
        let a3 = self.cpu.value1(v3);
        let a = add32(add32(a1, a2), a3);
        match self.mem_read(a) {
            Err(e) => {
                self.cpu.latch_fault(e, a);
            },
            Ok(w) => {
                let cc = self.cpu.cc;
                self.alu_step(Reg::avr, w, cc);
            },
        }
    }

    /// Execute `WEA`: write `avr` to the word at the sum of the operand
    /// values.
    fn exec_wea(&mut self, v1: RegOrLit1, v2: RegOrLit1, v3: RegOrLit1)
        requires
            old(self).wf(),
            !old(self).cpu.halted,
        ensures
            final(self).wf(),
            final(self).mapper == old(self).mapper,
            exec_rel(*old(self), *final(self), Instr::WEA(v1, v2, v3)),
    {
        let a1 = self.cpu.value1(v1);
        let a2 = self.cpu.value1(v2);
        let a3 = self.cpu.value1(v3);
        let a = add32(add32(a1, a2), a3);
        let val = self.cpu.read_reg(Reg::avr);
        match self.mem_write(a, val) {
            Err(e) => {
                self.cpu.latch_fault(e, a);
            },
            Ok(()) => {
                proof {
                    let pre = *old(self);
                    let d = pre.spec_lookup_addr(a)->Some_0.0 as int;
                    crate::mapper::lemma_lookup_some(pre.mapper.entries@, a, 0);
                    assert(0 <= d < pre.devices@.len());
                    assert forall|j: int| 0 <= j < pre.devices@.len() && j != d
                        implies self.devices@[j] == pre.devices@[j] by {
                        assert(self.devices@[j]
                            == pre.devices@.update(d, self.devices@[d])[j]);
                    }
                }
                let pc4 = add32(self.cpu.pc, 4);
                self.cpu.pc = pc4;
            },
        }
    }

    /// Perform exactly one instruction: fetch the word at `pc`, decode it,
    /// execute it. On a halted CPU this is a no-op. A fetch, decode or
    /// execution fault latches its exception code and halts the CPU at the
    /// faulting `pc`.
    pub fn next(&mut self)
        requires old(self).wf(),
        ensures
            final(self).wf(),
            step_rel(*old(self), *final(self)),
    {
        if self.cpu.halted {
            return;
        }
        let pc = self.cpu.pc;
        let w = match self.mem_read(pc) {
            Err(e) => {
                self.cpu.latch_fault(e, pc);
                return;
            },
            Ok(w) => w,
        };
        let (b0, b1, b2, b3) = crate::bytes::bytes_of(w);
        match Instr::decode([b0, b1, b2, b3]) {
            Err(e) => {
                self.cpu.ec = decode_ec(e) as u32;
                self.cpu.halted = true;
            },
            Ok(i) => {
                self.exec_instr(i);
            },
        }
    }
}

} // verus!
