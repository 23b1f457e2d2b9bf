//! Functionality related to the CPU
//!
//! Contains the registers, the clock and the processor that executes
//! instructions against a memory unit.

use vstd::prelude::*;

use crate::alu::{
    add16, add_sp, alu, daa, dec, inc, make_flags, rot_a, shift, CARRY, HALF_CARRY, SUBTRACT, ZERO,
};
use crate::bytes::{hi_of, lo_of, word_of, ByteExt, WordExt};
use crate::decode::{decode, decode_cb, CbInstr, Instr, PREFIX};
use crate::memory::Mmu;
use crate::semantics::{
    advance, condition, exec_cb_spec, exec_spec, imm16, imm8, jr_target, operand, pair16,
    push_spec, reg8, stack_pair, step_spec, store, top_of_stack, with_pair16, with_reg8,
    with_stack_pair, wrap16,
};

verus! {

/// The registers.
#[derive(Debug, Clone, Copy, PartialEq, Eq, Structural)]
pub struct Registers {
    /// Accumulator
    pub a: u8,
    /// Flags
    pub f: u8,
    // General registers
    pub b: u8,
    pub c: u8,
    pub d: u8,
    pub e: u8,
    pub h: u8,
    pub l: u8,
    /// Program counter
    pub pc: u16,
    /// Stack pointer
    pub sp: u16,
}

impl Registers {
    /// The pair BC as one word (B is the high byte).
    pub open spec fn bc(self) -> u16 {
        word_of(self.b, self.c)
    }

    /// The pair DE as one word (D is the high byte).
    pub open spec fn de(self) -> u16 {
        word_of(self.d, self.e)
    }

    /// The pair HL as one word (H is the high byte).
    pub open spec fn hl(self) -> u16 {
        word_of(self.h, self.l)
    }

    /// These registers with BC replaced by `v`.
    pub open spec fn with_bc(self, v: u16) -> Registers {
        Registers { b: hi_of(v), c: lo_of(v), ..self }
    }

    /// These registers with DE replaced by `v`.
    pub open spec fn with_de(self, v: u16) -> Registers {
        Registers { d: hi_of(v), e: lo_of(v), ..self }
    }

    /// These registers with HL replaced by `v`.
    pub open spec fn with_hl(self, v: u16) -> Registers {
        Registers { h: hi_of(v), l: lo_of(v), ..self }
    }

    /// The all-zero register file.
    pub open spec fn zeroed() -> Registers {
        Registers { a: 0, f: 0, b: 0, c: 0, d: 0, e: 0, h: 0, l: 0, pc: 0, sp: 0 }
    }

    pub fn new() -> (r: Self)
        ensures
            r == Registers::zeroed(),
    {
        Registers { a: 0, f: 0, b: 0, c: 0, d: 0, e: 0, h: 0, l: 0, pc: 0, sp: 0 }
    }

    pub fn read_bc(&self) -> (r: u16)
        ensures
            r == self.bc(),
    {
        join(self.b, self.c)
    }

    pub fn read_de(&self) -> (r: u16)
        ensures
            r == self.de(),
    {
        join(self.d, self.e)
    }

    pub fn read_hl(&self) -> (r: u16)
        ensures
            r == self.hl(),
    {
        join(self.h, self.l)
    }

    pub fn write_bc(&mut self, value: u16)
        ensures
            *final(self) == old(self).with_bc(value),
    {
        proof {
            lemma_halves(value);
        }
        self.c = value as u8;
        self.b = (value >> 8) as u8;
    }

    pub fn write_de(&mut self, value: u16)
        ensures
            *final(self) == old(self).with_de(value),
    {
        proof {
            lemma_halves(value);
        }
        self.e = value as u8;
        self.d = (value >> 8) as u8;
    }

    pub fn write_hl(&mut self, value: u16)
        ensures
            *final(self) == old(self).with_hl(value),
    {
        proof {
            lemma_halves(value);
        }
        self.l = value as u8;
        self.h = (value >> 8) as u8;
    }
}

/// The word `lo + (hi << 8)`.
fn join(hi: u8, lo: u8) -> (r: u16)
    ensures
        r == word_of(hi, lo),
{
    let shifted = (hi as u16) << 8u16;
    assert(shifted <= 0xff00 && shifted == hi * 256) by (bit_vector)
        requires
            shifted == (hi as u16) << 8u16,
    ;
    let r = lo as u16 + shifted;
    assert(r == word_of(hi, lo)) by (bit_vector)
        requires
            r == lo as u16 + shifted,
            shifted == hi * 256,
    ;
    r
}

/// Truncation and shifting give the two bytes of a word.
proof fn lemma_halves(v: u16)
    ensures
        v as u8 == lo_of(v),
        (v >> 8u16) as u8 == hi_of(v),
{
    assert(v as u8 == lo_of(v) && (v >> 8u16) as u8 == hi_of(v)) by (bit_vector);
}

/// A register pair behaves as one word: reading a pair whose halves hold `b`
/// and `c` gives `c + (b << 8)`, reading back a pair written with `x` gives
/// `x`, and the halves of a pair written with `x` hold `hi(x)` and `lo(x)`.
pub proof fn lemma_register_pair(r: Registers, b: u8, c: u8, x: u16)
    ensures
        (Registers { b: b, c: c, ..r }).bc() == c + b * 256,
        (Registers { d: b, e: c, ..r }).de() == c + b * 256,
        (Registers { h: b, l: c, ..r }).hl() == c + b * 256,
        r.with_bc(x).bc() == x,
        r.with_de(x).de() == x,
        r.with_hl(x).hl() == x,
        r.with_bc(x).b == hi_of(x) && r.with_bc(x).c == lo_of(x),
        r.with_de(x).d == hi_of(x) && r.with_de(x).e == lo_of(x),
        r.with_hl(x).h == hi_of(x) && r.with_hl(x).l == lo_of(x),
{
    crate::bytes::lemma_split_join(x);
}

/// The clock.
#[derive(Debug, Clone, Copy, PartialEq, Eq, Structural)]
pub struct Clock {
    /// Machine cycle state. One machine cycle = 4 clock cycles.
    pub m: u32,
    /// Clock cycle state.
    pub t: u32,
}

impl Clock {
    pub fn new() -> (r: Self)
        ensures
            r.m == 0 && r.t == 0,
    {
        Clock { m: 0, t: 0 }
    }

    pub fn reset(&mut self)
        ensures
            final(self).m == 0 && final(self).t == 0,
    {
        self.m = 0;
        self.t = 0;
    }

    /// Adds `cycles` machine cycles, and four times as many clock cycles,
    /// wrapping around at the counters' width.
    pub fn tick(&mut self, cycles: u32)
        ensures
            final(self).m == (old(self).m + cycles) % 0x1_0000_0000,
            final(self).t == (old(self).t + 4 * cycles) % 0x1_0000_0000,
    {
        self.m = self.m.wrapping_add(cycles);
        self.t = self.t.wrapping_add(cycles.wrapping_mul(4));
    }
}

/// A failure of one step.
#[derive(Debug, Clone, Copy, PartialEq, Eq, Structural)]
pub enum StepError {
    /// The byte `opcode` at `address` names no operation.
    UnresolvedOpcode { opcode: u8, address: u16 },
}

/// `a + k`, wrapping at the word's width.
fn wadd(a: u16, k: u16) -> (r: u16)
    ensures
        r == wrap16(a + k),
{
    ((a as u32 + k as u32) % 0x10000) as u16
}

impl Registers {
    /// The 8-bit register with operand index `i`.
    pub fn get_r8(&self, i: u8) -> (v: u8)
        ensures
            v == reg8(*self, i),
    {
        match i {
            0 => self.b,
            1 => self.c,
            2 => self.d,
            3 => self.e,
            4 => self.h,
            5 => self.l,
            _ => self.a,
        }
    }

    /// Sets the 8-bit register with operand index `i`.
    pub fn set_r8(&mut self, i: u8, v: u8)
        ensures
            *final(self) == with_reg8(*old(self), i, v),
    {
        match i {
            0 => self.b = v,
            1 => self.c = v,
            2 => self.d = v,
            3 => self.e = v,
            4 => self.h = v,
            5 => self.l = v,
            _ => self.a = v,
        }
    }

    /// The pair with index `p`.
    pub fn get_pair(&self, p: u8) -> (v: u16)
        ensures
            v == pair16(*self, p),
    {
        match p {
            0 => self.read_bc(),
            1 => self.read_de(),
            2 => self.read_hl(),
            _ => self.sp,
        }
    }

    /// Sets the pair with index `p`.
    pub fn set_pair(&mut self, p: u8, v: u16)
        ensures
            *final(self) == with_pair16(*old(self), p, v),
    {
        match p {
            0 => self.write_bc(v),
            1 => self.write_de(v),
            2 => self.write_hl(v),
            _ => self.sp = v,
        }
    }

    /// The pair with index `p` as the stack instructions see it.
    pub fn get_stack_pair(&self, p: u8) -> (v: u16)
        ensures
            v == stack_pair(*self, p),
    {
        if p >= 3 {
            join(self.a, self.f)
        } else {
            self.get_pair(p)
        }
    }

    /// Sets the pair with index `p` as the stack instructions see it.
    pub fn set_stack_pair(&mut self, p: u8, v: u16)
        ensures
            *final(self) == with_stack_pair(*old(self), p, v),
    {
        if p >= 3 {
            self.a = v.hi();
            self.f = v.lo() / 16 * 16;
        } else {
            self.set_pair(p, v);
        }
    }

    /// Whether condition `cc` holds of the flags.
    pub fn condition(&self, cc: u8) -> (b: bool)
        ensures
            b == condition(self.f, cc),
    {
        match cc {
            0 => !self.f.has_bit_set(ZERO),
            1 => self.f.has_bit_set(ZERO),
            2 => !self.f.has_bit_set(CARRY),
            _ => self.f.has_bit_set(CARRY),
        }
    }
}

/// The CPU.
#[derive(Debug, Clone, Copy, PartialEq, Eq, Structural)]
pub struct Cpu {
    /// Registers
    pub r: Registers,
    /// The clock corresponding to the last instruction cycle.
    pub clock: Clock,
    /// Whether interrupts are enabled. Enabling takes effect at once.
    pub ime: bool,
    /// Whether the processor waits, after a halt or stop, for the shell to
    /// wake it (by clearing this flag when it services an interrupt).
    pub halted: bool,
}

impl Cpu {
    /// A processor with every register and counter at zero.
    pub fn new() -> (c: Cpu)
        ensures
            c.r == Registers::zeroed(),
            c.clock.m == 0 && c.clock.t == 0,
            !c.ime && !c.halted,
    {
        Cpu { r: Registers::new(), clock: Clock::new(), ime: false, halted: false }
    }

    /// The value of operand `i`.
    fn operand(&self, mmu: &Mmu, i: u8) -> (v: u8)
        requires
            mmu.wf(),
        ensures
            v == operand(self.r, mmu@, i),
    {
        if i == 6 {
            mmu.read(self.r.read_hl())
        } else {
            self.r.get_r8(i)
        }
    }

    /// Sets operand `i` to `v`.
    fn store(&mut self, mmu: &mut Mmu, i: u8, v: u8)
        requires
            old(mmu).wf(),
        ensures
            final(mmu).wf(),
            (final(self).r, final(mmu)@) == store(old(self).r, old(mmu)@, i, v),
            final(self).clock == old(self).clock,
            final(self).ime == old(self).ime,
            final(self).halted == old(self).halted,
    {
        if i == 6 {
            mmu.write(self.r.read_hl(), v);
        } else {
            self.r.set_r8(i, v);
        }
    }

    /// Reads the byte at PC and advances PC past it.
    fn fetch(&mut self, mmu: &Mmu) -> (v: u8)
        requires
            mmu.wf(),
        ensures
            v == imm8(old(self).r, mmu@),
            final(self).r == advance(old(self).r, 1),
            final(self).clock == old(self).clock,
            final(self).ime == old(self).ime,
            final(self).halted == old(self).halted,
    {
        let v = mmu.read(self.r.pc);
        self.r.pc = wadd(self.r.pc, 1);
        v
    }

    /// Reads the little-endian word at PC and advances PC past it.
    fn fetch16(&mut self, mmu: &Mmu) -> (v: u16)
        requires
            mmu.wf(),
        ensures
            v == imm16(old(self).r, mmu@),
            final(self).r == advance(old(self).r, 2),
            final(self).clock == old(self).clock,
            final(self).ime == old(self).ime,
            final(self).halted == old(self).halted,
    {
        let lo = self.fetch(mmu);
        let hi = self.fetch(mmu);
        proof {
            lemma_wrap_twice(old(self).r.pc as int);
        }
        join(hi, lo)
    }

    /// Pushes `v` onto the stack.
    fn push(&mut self, mmu: &mut Mmu, v: u16)
        requires
            old(mmu).wf(),
        ensures
            final(mmu).wf(),
            (final(self).r, final(mmu)@) == push_spec(old(self).r, old(mmu)@, v),
            final(self).clock == old(self).clock,
            final(self).ime == old(self).ime,
            final(self).halted == old(self).halted,
    {
        let s1 = wadd(self.r.sp, 0xFFFF);
        let s2 = wadd(self.r.sp, 0xFFFE);
        mmu.write(s1, v.hi());
        mmu.write(s2, v.lo());
        self.r.sp = s2;
    }

    /// Pops the word on top of the stack.
    fn pop(&mut self, mmu: &Mmu) -> (v: u16)
        requires
            mmu.wf(),
        ensures
            v == top_of_stack(old(self).r, mmu@),
            final(self).r == (Registers { sp: wrap16(old(self).r.sp + 2), ..old(self).r }),
            final(self).clock == old(self).clock,
            final(self).ime == old(self).ime,
            final(self).halted == old(self).halted,
    {
        let lo = mmu.read(self.r.sp);
        let hi = mmu.read(wadd(self.r.sp, 1));
        self.r.sp = wadd(self.r.sp, 2);
        join(hi, lo)
    }

    /// Jumps by the signed offset `e` from the current PC.
    fn jump_relative(&mut self, e: u8)
        ensures
            final(self).r == (Registers { pc: jr_target(old(self).r.pc, e), ..old(self).r }),
            final(self).clock == old(self).clock,
            final(self).ime == old(self).ime,
            final(self).halted == old(self).halted,
    {
        if e < 128 {
            self.r.pc = wadd(self.r.pc, e as u16);
        } else {
            self.r.pc = wadd(self.r.pc, e as u16 + 0xFF00);
        }
    }

    /// Executes a primary-table operation whose opcode has been fetched,
    /// returning its cost in machine cycles.
    #[verifier::rlimit(50)]
    fn execute(&mut self, mmu: &mut Mmu, i: Instr) -> (cost: u32)
        requires
            old(mmu).wf(),
        ensures
            final(mmu).wf(),
            (final(self).r, final(mmu)@, cost) == exec_spec(i, old(self).r, old(mmu)@),
            1 <= cost <= 6,
            final(self).clock == old(self).clock,
            final(self).ime == old(self).ime,
            final(self).halted == old(self).halted,
    {
        reveal(exec_spec);
        let cy = self.r.f.has_bit_set(CARRY);
        match i {
            Instr::Nop => 1,
            Instr::Ld { dst, src } => {
                let v = self.operand(mmu, src);
                self.store(mmu, dst, v);
                if dst == 6 || src == 6 {
                    2
                } else {
                    1
                }
            },
            Instr::LdImm { dst } => {
                let v = self.fetch(mmu);
                self.store(mmu, dst, v);
                if dst == 6 {
                    3
                } else {
                    2
                }
            },
            Instr::LdPairImm { pair } => {
                let v = self.fetch16(mmu);
                self.r.set_pair(pair, v);
                3
            },
            Instr::LdIndirect { kind, store } => {
                let hl = self.r.read_hl();
                let addr = match kind {
                    0 => self.r.read_bc(),
                    1 => self.r.read_de(),
                    _ => hl,
                };
                if store {
                    mmu.write(addr, self.r.a);
                } else {
                    self.r.a = mmu.read(addr);
                }
                if kind == 2 {
                    self.r.write_hl(wadd(hl, 1));
                } else if kind == 3 {
                    self.r.write_hl(wadd(hl, 0xFFFF));
                }
                2
            },
            Instr::IncPair { pair } => {
                let v = self.r.get_pair(pair);
                self.r.set_pair(pair, wadd(v, 1));
                2
            },
            Instr::DecPair { pair } => {
                let v = self.r.get_pair(pair);
                self.r.set_pair(pair, wadd(v, 0xFFFF));
                2
            },
            Instr::Inc { dst } => {
                let (v, f) = inc(self.operand(mmu, dst), cy);
                self.r.f = f;
                self.store(mmu, dst, v);
                if dst == 6 {
                    3
                } else {
                    1
                }
            },
            Instr::Dec { dst } => {
                let (v, f) = dec(self.operand(mmu, dst), cy);
                self.r.f = f;
                self.store(mmu, dst, v);
                if dst == 6 {
                    3
                } else {
                    1
                }
            },
            Instr::AddHl { pair } => {
                let w = self.r.get_pair(pair);
                let (v, f) = add16(self.r.read_hl(), w, self.r.f.has_bit_set(ZERO));
                self.r.f = f;
                self.r.write_hl(v);
                2
            },
            Instr::Alu { op, src } => {
                let b = self.operand(mmu, src);
                let (a, f) = alu(op, self.r.a, b, cy);
                self.r.a = a;
                self.r.f = f;
                if src == 6 {
                    2
                } else {
                    1
                }
            },
            Instr::AluImm { op } => {
                let b = self.fetch(mmu);
                let (a, f) = alu(op, self.r.a, b, cy);
                self.r.a = a;
                self.r.f = f;
                2
            },
            Instr::Jp => {
                self.r.pc = self.fetch16(mmu);
                4
            },
            Instr::JpIf { cond } => {
                let target = self.fetch16(mmu);
                if self.r.condition(cond) {
                    self.r.pc = target;
                    4
                } else {
                    3
                }
            },
            Instr::JpHl => {
                self.r.pc = self.r.read_hl();
                1
            },
            Instr::Jr => {
                let e = self.fetch(mmu);
                self.jump_relative(e);
                3
            },
            Instr::JrIf { cond } => {
                let e = self.fetch(mmu);
                if self.r.condition(cond) {
                    self.jump_relative(e);
                    3
                } else {
                    2
                }
            },
            Instr::Call => {
                let target = self.fetch16(mmu);
                let ret = self.r.pc;
                self.push(mmu, ret);
                self.r.pc = target;
                6
            },
            Instr::CallIf { cond } => {
                let target = self.fetch16(mmu);
                if self.r.condition(cond) {
                    let ret = self.r.pc;
                    self.push(mmu, ret);
                    self.r.pc = target;
                    6
                } else {
                    3
                }
            },
            Instr::Ret => {
                self.r.pc = self.pop(mmu);
                4
            },
            Instr::RetIf { cond } => {
                if self.r.condition(cond) {
                    self.r.pc = self.pop(mmu);
                    5
                } else {
                    2
                }
            },
            Instr::Rst { target } => {
                let ret = self.r.pc;
                self.push(mmu, ret);
                self.r.pc = target as u16;
                4
            },
            Instr::Push { pair } => {
                let v = self.r.get_stack_pair(pair);
                self.push(mmu, v);
                4
            },
            Instr::Pop { pair } => {
                let v = self.pop(mmu);
                self.r.set_stack_pair(pair, v);
                3
            },
            Instr::RotA { rot } => {
                let (a, f) = rot_a(rot, self.r.a, cy);
                self.r.a = a;
                self.r.f = f;
                1
            },
            Instr::Cpl => {
                let a = self.r.a;
                let z = self.r.f.has_bit_set(ZERO);
                let na = !a;
                assert(na == 255 - a) by (bit_vector)
                    requires
                        na == !a,
                ;
                self.r.a = na;
                self.r.f = make_flags(z, true, true, cy);
                1
            },
            Instr::Scf => {
                let z = self.r.f.has_bit_set(ZERO);
                self.r.f = make_flags(z, false, false, true);
                1
            },
            Instr::Ccf => {
                let z = self.r.f.has_bit_set(ZERO);
                self.r.f = make_flags(z, false, false, !cy);
                1
            },
            Instr::Daa => {
                let n = self.r.f.has_bit_set(SUBTRACT);
                let h = self.r.f.has_bit_set(HALF_CARRY);
                let (a, f) = daa(self.r.a, n, h, cy);
                self.r.a = a;
                self.r.f = f;
                1
            },
            Instr::LdHigh { store } => {
                let off = self.fetch(mmu);
                let addr = 0xFF00u16 + off as u16;
                if store {
                    mmu.write(addr, self.r.a);
                } else {
                    self.r.a = mmu.read(addr);
                }
                3
            },
            Instr::LdHighC { store } => {
                let addr = 0xFF00u16 + self.r.c as u16;
                if store {
                    mmu.write(addr, self.r.a);
                } else {
                    self.r.a = mmu.read(addr);
                }
                2
            },
            Instr::LdAbs { store } => {
                let addr = self.fetch16(mmu);
                if store {
                    mmu.write(addr, self.r.a);
                } else {
                    self.r.a = mmu.read(addr);
                }
                4
            },
            Instr::StoreSp => {
                let addr = self.fetch16(mmu);
                let sp = self.r.sp;
                mmu.write(addr, sp.lo());
                mmu.write(wadd(addr, 1), sp.hi());
                5
            },
            Instr::LdSpHl => {
                self.r.sp = self.r.read_hl();
                2
            },
            Instr::Halt | Instr::Di | Instr::Ei => 1,
            Instr::Stop => {
                self.r.pc = wadd(self.r.pc, 1);
                1
            },
            Instr::Reti => {
                self.r.pc = self.pop(mmu);
                4
            },
            Instr::AddSp => {
                let e = self.fetch(mmu);
                let (v, f) = add_sp(self.r.sp, e);
                self.r.sp = v;
                self.r.f = f;
                4
            },
            Instr::LdHlSp => {
                let e = self.fetch(mmu);
                let (v, f) = add_sp(self.r.sp, e);
                self.r.f = f;
                self.r.write_hl(v);
                3
            },
        }
    }

    /// Executes an extended-table operation whose two opcode bytes have been
    /// fetched, returning its cost in machine cycles.
    fn execute_cb(&mut self, mmu: &mut Mmu, i: CbInstr) -> (cost: u32)
        requires
            old(mmu).wf(),
            match i {
                CbInstr::Bit { bit, .. } => bit <= 7,
                CbInstr::ResBit { bit, .. } => bit <= 7,
                CbInstr::SetBit { bit, .. } => bit <= 7,
                CbInstr::Shift { .. } => true,
            },
        ensures
            final(mmu).wf(),
            (final(self).r, final(mmu)@, cost) == exec_cb_spec(i, old(self).r, old(mmu)@),
            2 <= cost <= 4,
            final(self).clock == old(self).clock,
            final(self).ime == old(self).ime,
            final(self).halted == old(self).halted,
    {
        reveal(exec_cb_spec);
        let cy = self.r.f.has_bit_set(CARRY);
        match i {
            CbInstr::Shift { op, dst } => {
                let (v, f) = shift(op, self.operand(mmu, dst), cy);
                self.r.f = f;
                self.store(mmu, dst, v);
                if dst == 6 {
                    4
                } else {
                    2
                }
            },
            CbInstr::Bit { bit, src } => {
                let v = self.operand(mmu, src);
                self.r.f = make_flags(!v.has_bit_set(bit), false, true, cy);
                if src == 6 {
                    3
                } else {
                    2
                }
            },
            CbInstr::ResBit { bit, dst } => {
                let mut v = self.operand(mmu, dst);
                v.set_bit(bit, false);
                self.store(mmu, dst, v);
                if dst == 6 {
                    4
                } else {
                    2
                }
            },
            CbInstr::SetBit { bit, dst } => {
                let mut v = self.operand(mmu, dst);
                v.set_bit(bit, true);
                self.store(mmu, dst, v);
                if dst == 6 {
                    4
                } else {
                    2
                }
            },
        }
    }

    /// Executes exactly one instruction from PC: fetches its opcode (and the
    /// second byte after the extended prefix), performs it, and leaves its
    /// cost in the clock. An opcode that names no operation leaves the
    /// processor and memory as they were and returns the error. A halted
    /// processor executes nothing and spends one machine cycle.
    pub fn step(&mut self, mmu: &mut Mmu) -> (res: Result<(), StepError>)
        requires
            old(mmu).wf(),
        ensures
            final(mmu).wf(),
            match step_spec(*old(self), old(mmu)@) {
                Ok((c, m)) => res is Ok && *final(self) == c && final(mmu)@ == m,
                Err(e) => res == Err::<(), StepError>(e) && *final(self) == *old(self)
                    && final(mmu)@ == old(mmu)@,
            },
    {
        let pc = self.r.pc;
        let op = mmu.read(pc);
        if self.halted {
            self.clock.reset();
            self.clock.tick(1);
            return Ok(());
        }
        let cost = if op == PREFIX {
            let ext = mmu.read(wadd(pc, 1));
            let i = decode_cb(ext);
            self.r.pc = wadd(pc, 2);
            self.execute_cb(mmu, i)
        } else {
            match decode(op) {
                Some(i) => {
                    self.r.pc = wadd(pc, 1);
                    let cost = self.execute(mmu, i);
                    match i {
                        Instr::Di => self.ime = false,
                        Instr::Ei | Instr::Reti => self.ime = true,
                        Instr::Halt | Instr::Stop => self.halted = true,
                        _ => {},
                    }
                    cost
                },
                None => {
                    return Err(StepError::UnresolvedOpcode { opcode: op, address: pc });
                },
            }
        };
        self.clock.reset();
        self.clock.tick(cost);
        Ok(())
    }
}

/// Two wrapped increments add up.
proof fn lemma_wrap_twice(x: int)
    requires
        0 <= x < 0x10000,
    ensures
        wrap16(wrap16(x + 1) + 1) == wrap16(x + 2),
{
}

} // verus!
