//! Arithmetic and logic of the instruction set, with its flag effects.
//!
//! The flags register holds zero (bit 7), subtract (bit 6), half-carry
//! (bit 5) and carry (bit 4); its low nibble always reads as zero.

use vstd::prelude::*;

use crate::bytes::bit_of;

verus! {

/// Bit of the zero flag.
pub const ZERO: u8 = 7;
/// Bit of the subtract flag.
pub const SUBTRACT: u8 = 6;
/// Bit of the half-carry flag.
pub const HALF_CARRY: u8 = 5;
/// Bit of the carry flag.
pub const CARRY: u8 = 4;

/// The flags byte with the four flags given.
pub open spec fn flags(z: bool, n: bool, h: bool, c: bool) -> u8 {
    ((if z { 0x80int } else { 0 }) + (if n { 0x40int } else { 0 }) + (if h { 0x20int } else { 0 })
        + (if c { 0x10int } else { 0 })) as u8
}

/// One if `b` holds, zero otherwise.
pub open spec fn bit_val(b: bool) -> int {
    if b { 1 } else { 0 }
}

/// Builds the flags byte.
pub fn make_flags(z: bool, n: bool, h: bool, c: bool) -> (r: u8)
    ensures
        r == flags(z, n, h, c),
{
    let mut r: u8 = 0;
    if z {
        r = r + 0x80;
    }
    if n {
        r = r + 0x40;
    }
    if h {
        r = r + 0x20;
    }
    if c {
        r = r + 0x10;
    }
    r
}

/// Each flag of a flags byte reads back as it was given.
pub proof fn lemma_flags_read_back(z: bool, n: bool, h: bool, c: bool)
    ensures
        bit_of(flags(z, n, h, c), ZERO) == z,
        bit_of(flags(z, n, h, c), SUBTRACT) == n,
        bit_of(flags(z, n, h, c), HALF_CARRY) == h,
        bit_of(flags(z, n, h, c), CARRY) == c,
        flags(z, n, h, c) % 16 == 0,
{
    let f = flags(z, n, h, c);
    let zi: u8 = if z { 1 } else { 0 };
    let ni: u8 = if n { 1 } else { 0 };
    let hi: u8 = if h { 1 } else { 0 };
    let ci: u8 = if c { 1 } else { 0 };
    assert(f == zi * 0x80 + ni * 0x40 + hi * 0x20 + ci * 0x10);
    assert(((f >> 7u8) & 1u8 == 1u8) == (zi == 1) && ((f >> 6u8) & 1u8 == 1u8) == (ni == 1) && ((f
        >> 5u8) & 1u8 == 1u8) == (hi == 1) && ((f >> 4u8) & 1u8 == 1u8) == (ci == 1) && f % 16 == 0)
        by (bit_vector)
        requires
            zi <= 1 && ni <= 1 && hi <= 1 && ci <= 1,
            f == zi * 0x80 + ni * 0x40 + hi * 0x20 + ci * 0x10,
    ;
}

/// The eight accumulator operations, in opcode order.
#[derive(Debug, Clone, Copy, PartialEq, Eq, Structural)]
pub enum AluOp {
    Add,
    Adc,
    Sub,
    Sbc,
    And,
    Xor,
    Or,
    Cp,
}

/// The operation selected by bits 3-5 of an accumulator opcode.
pub open spec fn alu_op_of(k: u8) -> AluOp {
    if k == 0 {
        AluOp::Add
    } else if k == 1 {
        AluOp::Adc
    } else if k == 2 {
        AluOp::Sub
    } else if k == 3 {
        AluOp::Sbc
    } else if k == 4 {
        AluOp::And
    } else if k == 5 {
        AluOp::Xor
    } else if k == 6 {
        AluOp::Or
    } else {
        AluOp::Cp
    }
}

/// The new accumulator and flags of `op` on accumulator `a`, operand `b` and
/// incoming carry `cy`.
pub open spec fn alu_spec(op: AluOp, a: u8, b: u8, cy: bool) -> (u8, u8) {
    let ci = bit_val(cy);
    match op {
        AluOp::Add => {
            let s = a + b;
            ((s % 256) as u8, flags(s % 256 == 0, false, a % 16 + b % 16 > 15, s > 255))
        },
        AluOp::Adc => {
            let s = a + b + ci;
            ((s % 256) as u8, flags(s % 256 == 0, false, a % 16 + b % 16 + ci > 15, s > 255))
        },
        AluOp::Sub | AluOp::Cp => {
            let d = (a - b + 256) % 256;
            let res = if op == AluOp::Sub { d as u8 } else { a };
            (res, flags(d == 0, true, a % 16 < b % 16, a < b))
        },
        AluOp::Sbc => {
            let d = (a - b - ci + 512) % 256;
            (d as u8, flags(d == 0, true, a % 16 < b % 16 + ci, a < b + ci))
        },
        AluOp::And => ((a & b), flags(a & b == 0, false, true, false)),
        AluOp::Xor => ((a ^ b), flags(a ^ b == 0, false, false, false)),
        AluOp::Or => ((a | b), flags(a | b == 0, false, false, false)),
    }
}

/// Performs `op` on accumulator `a` and operand `b` with incoming carry `cy`,
/// returning the new accumulator and flags.
pub fn alu(op: AluOp, a: u8, b: u8, cy: bool) -> (r: (u8, u8))
    ensures
        r == alu_spec(op, a, b, cy),
{
    let ci: u16 = if cy { 1 } else { 0 };
    let a16 = a as u16;
    let b16 = b as u16;
    match op {
        AluOp::Add => {
            let s = a16 + b16;
            let res = (s % 256) as u8;
            (res, make_flags(res == 0, false, a16 % 16 + b16 % 16 > 15, s > 255))
        },
        AluOp::Adc => {
            let s = a16 + b16 + ci;
            let res = (s % 256) as u8;
            (res, make_flags(res == 0, false, a16 % 16 + b16 % 16 + ci > 15, s > 255))
        },
        AluOp::Sub | AluOp::Cp => {
            let d = ((a16 + 256) - b16) % 256;
            let res = if op == AluOp::Sub { d as u8 } else { a };
            (res, make_flags(d == 0, true, a16 % 16 < b16 % 16, a < b))
        },
        AluOp::Sbc => {
            let d = ((a16 + 512) - b16 - ci) % 256;
            (d as u8, make_flags(d == 0, true, a16 % 16 < b16 % 16 + ci, a16 < b16 + ci))
        },
        AluOp::And => {
            let res = a & b;
            (res, make_flags(res == 0, false, true, false))
        },
        AluOp::Xor => {
            let res = a ^ b;
            (res, make_flags(res == 0, false, false, false))
        },
        AluOp::Or => {
            let res = a | b;
            (res, make_flags(res == 0, false, false, false))
        },
    }
}

/// An 8-bit addition that carries out of bit 7 sets the carry flag, clears
/// the subtract flag, and sets the zero flag exactly when the truncated sum
/// is zero; a subtraction that borrows sets the subtract and carry flags and
/// clears the zero flag.
pub proof fn lemma_add_carry_sub_borrow(a: u8, b: u8, cy: bool)
    ensures
        a + b > 255 ==> {
            let (r, f) = alu_spec(AluOp::Add, a, b, cy);
            &&& bit_of(f, CARRY)
            &&& bit_of(f, ZERO) == (r == 0)
            &&& !bit_of(f, SUBTRACT)
        },
        a < b ==> {
            let (r, f) = alu_spec(AluOp::Sub, a, b, cy);
            &&& bit_of(f, SUBTRACT)
            &&& bit_of(f, CARRY)
            &&& !bit_of(f, ZERO)
            &&& r == a + 256 - b
        },
{
    let s = a + b;
    lemma_flags_read_back(s % 256 == 0, false, a % 16 + b % 16 > 15, s > 255);
    let d = (a - b + 256) % 256;
    lemma_flags_read_back(d == 0, true, a % 16 < b % 16, a < b);
}

/// Incrementing `v`: the new value and flags, carry kept from `cy`.
pub open spec fn inc_spec(v: u8, cy: bool) -> (u8, u8) {
    let r = (v + 1) % 256;
    (r as u8, flags(r == 0, false, v % 16 == 15, cy))
}

/// Decrementing `v`: the new value and flags, carry kept from `cy`.
pub open spec fn dec_spec(v: u8, cy: bool) -> (u8, u8) {
    let r = (v + 255) % 256;
    (r as u8, flags(r == 0, true, v % 16 == 0, cy))
}

pub fn inc(v: u8, cy: bool) -> (r: (u8, u8))
    ensures
        r == inc_spec(v, cy),
{
    let res = ((v as u16 + 1) % 256) as u8;
    (res, make_flags(res == 0, false, v % 16 == 15, cy))
}

pub fn dec(v: u8, cy: bool) -> (r: (u8, u8))
    ensures
        r == dec_spec(v, cy),
{
    let res = ((v as u16 + 255) % 256) as u8;
    (res, make_flags(res == 0, true, v % 16 == 0, cy))
}

/// Adding the word `w` to `hl`: the new HL and flags, zero kept from `z`.
/// Half-carry and carry come from bits 11 and 15.
pub open spec fn add16_spec(hl: u16, w: u16, z: bool) -> (u16, u8) {
    let s = hl + w;
    ((s % 65536) as u16, flags(z, false, hl % 4096 + w % 4096 > 4095, s > 65535))
}

pub fn add16(hl: u16, w: u16, z: bool) -> (r: (u16, u8))
    ensures
        r == add16_spec(hl, w, z),
{
    let s = hl as u32 + w as u32;
    ((s % 65536) as u16, make_flags(z, false, hl % 4096 + w % 4096 > 4095, s > 65535))
}

/// The rotate and shift operations of the extended table, in opcode order.
#[derive(Debug, Clone, Copy, PartialEq, Eq, Structural)]
pub enum ShiftOp {
    Rlc,
    Rrc,
    Rl,
    Rr,
    Sla,
    Sra,
    Swap,
    Srl,
}

/// The operation selected by bits 3-5 of an extended rotate/shift opcode.
pub open spec fn shift_op_of(k: u8) -> ShiftOp {
    if k == 0 {
        ShiftOp::Rlc
    } else if k == 1 {
        ShiftOp::Rrc
    } else if k == 2 {
        ShiftOp::Rl
    } else if k == 3 {
        ShiftOp::Rr
    } else if k == 4 {
        ShiftOp::Sla
    } else if k == 5 {
        ShiftOp::Sra
    } else if k == 6 {
        ShiftOp::Swap
    } else {
        ShiftOp::Srl
    }
}

/// The value and the bit shifted out of `op` on `v`, with incoming carry `cy`.
pub open spec fn shift_value(op: ShiftOp, v: u8, cy: bool) -> (int, bool) {
    let ci = bit_val(cy);
    match op {
        ShiftOp::Rlc => ((v * 2) % 256 + v / 128, v >= 128),
        ShiftOp::Rrc => (v / 2 + (v % 2) * 128, v % 2 == 1),
        ShiftOp::Rl => ((v * 2) % 256 + ci, v >= 128),
        ShiftOp::Rr => (v / 2 + ci * 128, v % 2 == 1),
        ShiftOp::Sla => ((v * 2) % 256, v >= 128),
        ShiftOp::Sra => (v / 2 + (v / 128) * 128, v % 2 == 1),
        ShiftOp::Swap => ((v % 16) * 16 + v / 16, false),
        ShiftOp::Srl => ((v / 2) as int, v % 2 == 1),
    }
}

/// The new value and flags of `op` on `v`, with incoming carry `cy`.
pub open spec fn shift_spec(op: ShiftOp, v: u8, cy: bool) -> (u8, u8) {
    let (r, c) = shift_value(op, v, cy);
    (r as u8, flags(r == 0, false, false, c))
}

pub fn shift(op: ShiftOp, v: u8, cy: bool) -> (r: (u8, u8))
    ensures
        r == shift_spec(op, v, cy),
{
    let w = v as u16;
    let ci: u16 = if cy { 1 } else { 0 };
    let (res, c) = match op {
        ShiftOp::Rlc => ((w * 2) % 256 + w / 128, w >= 128),
        ShiftOp::Rrc => (w / 2 + (w % 2) * 128, w % 2 == 1),
        ShiftOp::Rl => ((w * 2) % 256 + ci, w >= 128),
        ShiftOp::Rr => (w / 2 + ci * 128, w % 2 == 1),
        ShiftOp::Sla => ((w * 2) % 256, w >= 128),
        ShiftOp::Sra => (w / 2 + (w / 128) * 128, w % 2 == 1),
        ShiftOp::Swap => ((w % 16) * 16 + w / 16, false),
        ShiftOp::Srl => (w / 2, w % 2 == 1),
    };
    (res as u8, make_flags(res == 0, false, false, c))
}

/// The accumulator rotates: the value of `op` on `a`, with the zero flag
/// always clear.
pub open spec fn rot_a_spec(op: ShiftOp, a: u8, cy: bool) -> (u8, u8) {
    let (r, c) = shift_value(op, a, cy);
    (r as u8, flags(false, false, false, c))
}

pub fn rot_a(op: ShiftOp, a: u8, cy: bool) -> (r: (u8, u8))
    ensures
        r == rot_a_spec(op, a, cy),
{
    let (v, _) = shift(op, a, cy);
    let w = a as u16;
    let c = match op {
        ShiftOp::Rlc | ShiftOp::Rl | ShiftOp::Sla => w >= 128,
        ShiftOp::Swap => false,
        _ => w % 2 == 1,
    };
    (v, make_flags(false, false, false, c))
}

/// Decimal adjustment of `a` after a BCD addition or subtraction (`n`),
/// with the half-carry `h` and carry `c` that it left.
pub open spec fn daa_spec(a: u8, n: bool, h: bool, c: bool) -> (u8, u8) {
    let adj_lo = h || (!n && a % 16 > 9);
    let adj_hi = c || (!n && a > 0x99);
    let adjust = 6 * bit_val(adj_lo) + 0x60 * bit_val(adj_hi);
    let r = if n { (a - adjust + 256) % 256 } else { (a + adjust) % 256 };
    (r as u8, flags(r == 0, n, false, adj_hi))
}

pub fn daa(a: u8, n: bool, h: bool, c: bool) -> (r: (u8, u8))
    ensures
        r == daa_spec(a, n, h, c),
{
    let adj_lo = h || (!n && a % 16 > 9);
    let adj_hi = c || (!n && a > 0x99);
    let mut adjust: u16 = 0;
    if adj_lo {
        adjust = adjust + 6;
    }
    if adj_hi {
        adjust = adjust + 0x60;
    }
    let r = if n {
        (a as u16 + 256 - adjust) % 256
    } else {
        (a as u16 + adjust) % 256
    };
    (r as u8, make_flags(r == 0, n, false, adj_hi))
}

/// `sp` plus the signed byte `e`, with the flags of the addition: half-carry
/// out of bit 3 and carry out of bit 7 of the low byte, zero and subtract
/// clear.
pub open spec fn add_sp_spec(sp: u16, e: u8) -> (u16, u8) {
    let signed = if e < 128 { e as int } else { e - 256 };
    (((sp + signed + 0x10000) % 0x10000) as u16, flags(
        false,
        false,
        sp % 16 + e % 16 > 15,
        sp % 256 + e > 255,
    ))
}

pub fn add_sp(sp: u16, e: u8) -> (r: (u16, u8))
    ensures
        r == add_sp_spec(sp, e),
{
    let offset: u32 = if e < 128 { e as u32 } else { e as u32 + 0xFF00 };
    let v = ((sp as u32 + offset) % 0x10000) as u16;
    (v, make_flags(false, false, sp % 16 + (e as u16) % 16 > 15, sp % 256 + e as u16 > 255))
}

} // verus!
