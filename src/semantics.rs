//! What each instruction does: the effect of one step on the registers,
//! the memory and the clock, stated over plain values.

use vstd::prelude::*;

use crate::alu::{
    add16_spec, add_sp_spec, alu_spec, daa_spec, dec_spec, flags, inc_spec, rot_a_spec,
    shift_spec, CARRY, HALF_CARRY, SUBTRACT, ZERO,
};
use crate::bytes::{bit_of, hi_of, lo_of, with_bit, word_of};
use crate::cpu::{Clock, Cpu, Registers, StepError};
use crate::decode::{decode_cb_spec, decode_spec, CbInstr, Instr, PREFIX};

verus! {

/// `x` reduced to a word.
pub open spec fn wrap16(x: int) -> u16 {
    (x % 0x10000) as u16
}

/// The 8-bit register with operand index `i` (6, the byte at HL, is no
/// register and reads as A here, as does any index above 7).
pub open spec fn reg8(r: Registers, i: u8) -> u8 {
    if i == 0 {
        r.b
    } else if i == 1 {
        r.c
    } else if i == 2 {
        r.d
    } else if i == 3 {
        r.e
    } else if i == 4 {
        r.h
    } else if i == 5 {
        r.l
    } else {
        r.a
    }
}

/// These registers with the 8-bit register of index `i` set to `v`.
pub open spec fn with_reg8(r: Registers, i: u8, v: u8) -> Registers {
    if i == 0 {
        Registers { b: v, ..r }
    } else if i == 1 {
        Registers { c: v, ..r }
    } else if i == 2 {
        Registers { d: v, ..r }
    } else if i == 3 {
        Registers { e: v, ..r }
    } else if i == 4 {
        Registers { h: v, ..r }
    } else if i == 5 {
        Registers { l: v, ..r }
    } else {
        Registers { a: v, ..r }
    }
}

/// The value of operand `i`: a register, or the byte at HL for 6.
pub open spec fn operand(r: Registers, m: Seq<u8>, i: u8) -> u8 {
    if i == 6 {
        m[r.hl() as int]
    } else {
        reg8(r, i)
    }
}

/// Registers and memory after operand `i` is set to `v`.
pub open spec fn store(r: Registers, m: Seq<u8>, i: u8, v: u8) -> (Registers, Seq<u8>) {
    if i == 6 {
        (r, m.update(r.hl() as int, v))
    } else {
        (with_reg8(r, i, v), m)
    }
}

/// The pair with index `p`: BC, DE, HL, or SP for 3 and above.
pub open spec fn pair16(r: Registers, p: u8) -> u16 {
    if p == 0 {
        r.bc()
    } else if p == 1 {
        r.de()
    } else if p == 2 {
        r.hl()
    } else {
        r.sp
    }
}

/// These registers with the pair of index `p` set to `v`.
pub open spec fn with_pair16(r: Registers, p: u8, v: u16) -> Registers {
    if p == 0 {
        r.with_bc(v)
    } else if p == 1 {
        r.with_de(v)
    } else if p == 2 {
        r.with_hl(v)
    } else {
        Registers { sp: v, ..r }
    }
}

/// The pair of index `p` as the stack instructions see it: AF for 3.
pub open spec fn stack_pair(r: Registers, p: u8) -> u16 {
    if p >= 3 {
        word_of(r.a, r.f)
    } else {
        pair16(r, p)
    }
}

/// These registers with the stack pair of index `p` set to `v`; the low
/// nibble of F stays zero.
pub open spec fn with_stack_pair(r: Registers, p: u8, v: u16) -> Registers {
    if p >= 3 {
        Registers { a: hi_of(v), f: (lo_of(v) / 16 * 16) as u8, ..r }
    } else {
        with_pair16(r, p, v)
    }
}

/// Whether condition `cc` holds of flags `f`: not-zero, zero, no-carry,
/// carry.
pub open spec fn condition(f: u8, cc: u8) -> bool {
    if cc == 0 {
        !bit_of(f, ZERO)
    } else if cc == 1 {
        bit_of(f, ZERO)
    } else if cc == 2 {
        !bit_of(f, CARRY)
    } else {
        bit_of(f, CARRY)
    }
}

/// These registers with PC advanced by `k`.
pub open spec fn advance(r: Registers, k: int) -> Registers {
    Registers { pc: wrap16(r.pc + k), ..r }
}

/// The byte at PC.
pub open spec fn imm8(r: Registers, m: Seq<u8>) -> u8 {
    m[r.pc as int]
}

/// The little-endian word at PC.
pub open spec fn imm16(r: Registers, m: Seq<u8>) -> u16 {
    word_of(m[wrap16(r.pc + 1) as int], m[r.pc as int])
}

/// The address `e` bytes from `pc`, `e` read as a signed byte.
pub open spec fn jr_target(pc: u16, e: u8) -> u16 {
    if e < 128 {
        wrap16(pc + e)
    } else {
        wrap16(pc + e - 256)
    }
}

/// Registers and memory after pushing `v`: SP steps down, the high byte is
/// written first, the low byte below it.
pub open spec fn push_spec(r: Registers, m: Seq<u8>, v: u16) -> (Registers, Seq<u8>) {
    let s1 = wrap16(r.sp + 0xFFFF);
    let s2 = wrap16(r.sp + 0xFFFE);
    (Registers { sp: s2, ..r }, m.update(s1 as int, hi_of(v)).update(s2 as int, lo_of(v)))
}

/// The word on top of the stack: the low byte at SP, the high byte above it.
pub open spec fn top_of_stack(r: Registers, m: Seq<u8>) -> u16 {
    word_of(m[wrap16(r.sp + 1) as int], m[r.sp as int])
}

/// These registers after popping into PC.
pub open spec fn ret_spec(r: Registers, m: Seq<u8>) -> Registers {
    Registers { pc: top_of_stack(r, m), sp: wrap16(r.sp + 2), ..r }
}

/// The address that a load through a pair uses: BC, DE, or HL.
pub open spec fn indirect_address(r: Registers, kind: u8) -> u16 {
    if kind == 0 {
        r.bc()
    } else if kind == 1 {
        r.de()
    } else {
        r.hl()
    }
}

/// HL after a load through a pair: incremented for 2, decremented for 3.
pub open spec fn indirect_after(r: Registers, kind: u8) -> Registers {
    if kind == 2 {
        r.with_hl(wrap16(r.hl() + 1))
    } else if kind == 3 {
        r.with_hl(wrap16(r.hl() + 0xFFFF))
    } else {
        r
    }
}

/// The effect of a primary-table operation, PC already past its opcode:
/// the new registers, the new memory, and the cost in machine cycles.
#[verifier::opaque]
pub open spec fn exec_spec(i: Instr, r: Registers, m: Seq<u8>) -> (Registers, Seq<u8>, u32) {
    let cy = bit_of(r.f, CARRY);
    match i {
        Instr::Nop => (r, m, 1),
        Instr::Ld { dst, src } => {
            let (r2, m2) = store(r, m, dst, operand(r, m, src));
            (r2, m2, if dst == 6 || src == 6 { 2 } else { 1 })
        },
        Instr::LdImm { dst } => {
            let (r2, m2) = store(advance(r, 1), m, dst, imm8(r, m));
            (r2, m2, if dst == 6 { 3 } else { 2 })
        },
        Instr::LdPairImm { pair } => (with_pair16(advance(r, 2), pair, imm16(r, m)), m, 3),
        Instr::LdIndirect { kind, store } => {
            let addr = indirect_address(r, kind);
            if store {
                (indirect_after(r, kind), m.update(addr as int, r.a), 2)
            } else {
                (indirect_after(Registers { a: m[addr as int], ..r }, kind), m, 2)
            }
        },
        Instr::IncPair { pair } => (with_pair16(r, pair, wrap16(pair16(r, pair) + 1)), m, 2),
        Instr::DecPair { pair } => (with_pair16(r, pair, wrap16(pair16(r, pair) + 0xFFFF)), m, 2),
        Instr::Inc { dst } => {
            let (v, f) = inc_spec(operand(r, m, dst), cy);
            let (r2, m2) = store(Registers { f: f, ..r }, m, dst, v);
            (r2, m2, if dst == 6 { 3 } else { 1 })
        },
        Instr::Dec { dst } => {
            let (v, f) = dec_spec(operand(r, m, dst), cy);
            let (r2, m2) = store(Registers { f: f, ..r }, m, dst, v);
            (r2, m2, if dst == 6 { 3 } else { 1 })
        },
        Instr::AddHl { pair } => {
            let (v, f) = add16_spec(r.hl(), pair16(r, pair), bit_of(r.f, ZERO));
            ((Registers { f: f, ..r }).with_hl(v), m, 2)
        },
        Instr::Alu { op, src } => {
            let (a, f) = alu_spec(op, r.a, operand(r, m, src), cy);
            (Registers { a: a, f: f, ..r }, m, if src == 6 { 2 } else { 1 })
        },
        Instr::AluImm { op } => {
            let (a, f) = alu_spec(op, r.a, imm8(r, m), cy);
            (Registers { a: a, f: f, ..advance(r, 1) }, m, 2)
        },
        Instr::Jp => (Registers { pc: imm16(r, m), ..r }, m, 4),
        Instr::JpIf { cond } => if condition(r.f, cond) {
            (Registers { pc: imm16(r, m), ..r }, m, 4)
        } else {
            (advance(r, 2), m, 3)
        },
        Instr::JpHl => (Registers { pc: r.hl(), ..r }, m, 1),
        Instr::Jr => (Registers { pc: jr_target(wrap16(r.pc + 1), imm8(r, m)), ..r }, m, 3),
        Instr::JrIf { cond } => if condition(r.f, cond) {
            (Registers { pc: jr_target(wrap16(r.pc + 1), imm8(r, m)), ..r }, m, 3)
        } else {
            (advance(r, 1), m, 2)
        },
        Instr::Call => {
            let (r2, m2) = push_spec(r, m, wrap16(r.pc + 2));
            (Registers { pc: imm16(r, m), ..r2 }, m2, 6)
        },
        Instr::CallIf { cond } => if condition(r.f, cond) {
            let (r2, m2) = push_spec(r, m, wrap16(r.pc + 2));
            (Registers { pc: imm16(r, m), ..r2 }, m2, 6)
        } else {
            (advance(r, 2), m, 3)
        },
        Instr::Ret => (ret_spec(r, m), m, 4),
        Instr::RetIf { cond } => if condition(r.f, cond) {
            (ret_spec(r, m), m, 5)
        } else {
            (r, m, 2)
        },
        Instr::Rst { target } => {
            let (r2, m2) = push_spec(r, m, r.pc);
            (Registers { pc: target as u16, ..r2 }, m2, 4)
        },
        Instr::Push { pair } => {
            let (r2, m2) = push_spec(r, m, stack_pair(r, pair));
            (r2, m2, 4)
        },
        Instr::Pop { pair } => (
            with_stack_pair(Registers { sp: wrap16(r.sp + 2), ..r }, pair, top_of_stack(r, m)),
            m,
            3,
        ),
        Instr::RotA { rot } => {
            let (a, f) = rot_a_spec(rot, r.a, cy);
            (Registers { a: a, f: f, ..r }, m, 1)
        },
        Instr::Cpl => (
            Registers { a: (255 - r.a) as u8, f: flags(bit_of(r.f, ZERO), true, true, cy), ..r },
            m,
            1,
        ),
        Instr::Scf => (Registers { f: flags(bit_of(r.f, ZERO), false, false, true), ..r }, m, 1),
        Instr::Ccf => (Registers { f: flags(bit_of(r.f, ZERO), false, false, !cy), ..r }, m, 1),
        Instr::Daa => {
            let (a, f) = daa_spec(r.a, bit_of(r.f, SUBTRACT), bit_of(r.f, HALF_CARRY), cy);
            (Registers { a: a, f: f, ..r }, m, 1)
        },
        Instr::LdHigh { store } => {
            let addr = 0xFF00 + imm8(r, m);
            if store {
                (advance(r, 1), m.update(addr, r.a), 3)
            } else {
                (Registers { a: m[addr], ..advance(r, 1) }, m, 3)
            }
        },
        Instr::LdHighC { store } => {
            let addr = 0xFF00 + r.c;
            if store {
                (r, m.update(addr, r.a), 2)
            } else {
                (Registers { a: m[addr], ..r }, m, 2)
            }
        },
        Instr::LdAbs { store } => {
            let addr = imm16(r, m) as int;
            if store {
                (advance(r, 2), m.update(addr, r.a), 4)
            } else {
                (Registers { a: m[addr], ..advance(r, 2) }, m, 4)
            }
        },
        Instr::StoreSp => {
            let addr = imm16(r, m);
            (
                advance(r, 2),
                m.update(addr as int, lo_of(r.sp)).update(wrap16(addr + 1) as int, hi_of(r.sp)),
                5,
            )
        },
        Instr::LdSpHl => (Registers { sp: r.hl(), ..r }, m, 2),
        Instr::Halt | Instr::Di | Instr::Ei => (r, m, 1),
        Instr::Stop => (advance(r, 1), m, 1),
        Instr::Reti => (ret_spec(r, m), m, 4),
        Instr::AddSp => {
            let (v, f) = add_sp_spec(r.sp, imm8(r, m));
            (Registers { sp: v, f: f, ..advance(r, 1) }, m, 4)
        },
        Instr::LdHlSp => {
            let (v, f) = add_sp_spec(r.sp, imm8(r, m));
            ((Registers { f: f, ..advance(r, 1) }).with_hl(v), m, 3)
        },
    }
}

/// The effect of an extended-table operation, PC already past both opcode
/// bytes: the new registers, the new memory, and the cost in machine cycles.
#[verifier::opaque]
pub open spec fn exec_cb_spec(i: CbInstr, r: Registers, m: Seq<u8>) -> (Registers, Seq<u8>, u32) {
    match i {
        CbInstr::Shift { op, dst } => {
            let (v, f) = shift_spec(op, operand(r, m, dst), bit_of(r.f, CARRY));
            let (r2, m2) = store(Registers { f: f, ..r }, m, dst, v);
            (r2, m2, if dst == 6 { 4 } else { 2 })
        },
        CbInstr::Bit { bit, src } => {
            let f = flags(!bit_of(operand(r, m, src), bit), false, true, bit_of(r.f, CARRY));
            (Registers { f: f, ..r }, m, if src == 6 { 3 } else { 2 })
        },
        CbInstr::ResBit { bit, dst } => {
            let (r2, m2) = store(r, m, dst, with_bit(operand(r, m, dst), bit, false));
            (r2, m2, if dst == 6 { 4 } else { 2 })
        },
        CbInstr::SetBit { bit, dst } => {
            let (r2, m2) = store(r, m, dst, with_bit(operand(r, m, dst), bit, true));
            (r2, m2, if dst == 6 { 4 } else { 2 })
        },
    }
}

/// The interrupt-enable and halted flags after operation `i`, interrupts
/// having been enabled or not (`ime`) before it.
pub open spec fn control_after(i: Instr, ime: bool) -> (bool, bool) {
    match i {
        Instr::Di => (false, false),
        Instr::Ei | Instr::Reti => (true, false),
        Instr::Halt | Instr::Stop => (ime, true),
        _ => (ime, false),
    }
}

/// One instruction executed from state `c` over memory `m`: the new state
/// and memory, or the error. The clock holds the instruction's cost.
pub open spec fn step_spec(c: Cpu, m: Seq<u8>) -> Result<(Cpu, Seq<u8>), StepError> {
    let pc = c.r.pc;
    let op = m[pc as int];
    if c.halted {
        Ok((Cpu { clock: Clock { m: 1, t: 4 }, ..c }, m))
    } else if op == PREFIX {
        let (r, m2, cost) = exec_cb_spec(
            decode_cb_spec(m[wrap16(pc + 1) as int]),
            advance(c.r, 2),
            m,
        );
        Ok((Cpu { r: r, clock: Clock { m: cost, t: (4 * cost) as u32 }, ..c }, m2))
    } else {
        match decode_spec(op) {
            Some(i) => {
                let (r, m2, cost) = exec_spec(i, advance(c.r, 1), m);
                let (ime, halted) = control_after(i, c.ime);
                Ok(
                    (
                        Cpu {
                            r: r,
                            clock: Clock { m: cost, t: (4 * cost) as u32 },
                            ime: ime,
                            halted: halted,
                        },
                        m2,
                    ),
                )
            },
            None => Err(StepError::UnresolvedOpcode { opcode: op, address: pc }),
        }
    }
}

/// Executing the no-operation opcode advances PC by one, costs one machine
/// cycle (four clock cycles), and changes no other register, no flag and no
/// byte of memory.
pub proof fn lemma_nop_step(c: Cpu, m: Seq<u8>)
    requires
        m.len() == crate::memory::SIZE,
        m[c.r.pc as int] == 0x00,
        !c.halted,
    ensures
        step_spec(c, m) == Ok::<(Cpu, Seq<u8>), StepError>(
            (
                Cpu {
                    r: Registers { pc: wrap16(c.r.pc + 1), ..c.r },
                    clock: Clock { m: 1, t: 4 },
                    ..c
                },
                m,
            ),
        ),
{
    reveal(decode_spec);
    reveal(exec_spec);
}

} // verus!
