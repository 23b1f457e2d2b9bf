//! The opcode tables: what operation each opcode byte stands for.
//!
//! An 8-bit operand index names B, C, D, E, H, L, the byte at HL, or A
//! (0 to 7, in opcode order). A pair index names BC, DE, HL and SP (0 to 3),
//! or AF in place of SP for the stack instructions. A condition index names
//! not-zero, zero, no-carry and carry (0 to 3).

use vstd::prelude::*;

use crate::alu::{alu_op_of, shift_op_of, AluOp, ShiftOp};

verus! {

/// The opcode that selects the extended table for the byte after it.
pub const PREFIX: u8 = 0xCB;

/// An operation of the primary table.
#[derive(Debug, Clone, Copy, PartialEq, Eq, Structural)]
pub enum Instr {
    /// Does nothing.
    Nop,
    /// Copies operand `src` into operand `dst`.
    Ld { dst: u8, src: u8 },
    /// Loads the immediate byte into operand `dst`.
    LdImm { dst: u8 },
    /// Loads the immediate word into a pair.
    LdPairImm { pair: u8 },
    /// Loads A from, or stores A to, the byte at BC, DE, HL (then
    /// incremented) or HL (then decremented), by `kind` 0 to 3.
    LdIndirect { kind: u8, store: bool },
    /// Increments a pair, without flags.
    IncPair { pair: u8 },
    /// Decrements a pair, without flags.
    DecPair { pair: u8 },
    /// Increments an operand.
    Inc { dst: u8 },
    /// Decrements an operand.
    Dec { dst: u8 },
    /// Adds a pair to HL.
    AddHl { pair: u8 },
    /// Combines A with operand `src`.
    Alu { op: AluOp, src: u8 },
    /// Combines A with the immediate byte.
    AluImm { op: AluOp },
    /// Jumps to the immediate address.
    Jp,
    /// Jumps to the immediate address when the condition holds.
    JpIf { cond: u8 },
    /// Jumps to the address in HL.
    JpHl,
    /// Jumps by the signed immediate offset.
    Jr,
    /// Jumps by the signed immediate offset when the condition holds.
    JrIf { cond: u8 },
    /// Pushes the return address and jumps to the immediate address.
    Call,
    /// Calls the immediate address when the condition holds.
    CallIf { cond: u8 },
    /// Pops the program counter.
    Ret,
    /// Pops the program counter when the condition holds.
    RetIf { cond: u8 },
    /// Pushes the return address and jumps to a fixed address.
    Rst { target: u8 },
    /// Pushes a pair (AF in place of SP).
    Push { pair: u8 },
    /// Pops a pair (AF in place of SP).
    Pop { pair: u8 },
    /// Rotates A (RLCA, RRCA, RLA, RRA).
    RotA { rot: ShiftOp },
    /// Complements A.
    Cpl,
    /// Sets the carry flag.
    Scf,
    /// Complements the carry flag.
    Ccf,
    /// Adjusts A to binary-coded decimal.
    Daa,
    /// Stores A to, or loads A from, the high page at the immediate offset.
    LdHigh { store: bool },
    /// Stores A to, or loads A from, the high page at offset C.
    LdHighC { store: bool },
    /// Stores A to, or loads A from, the immediate address.
    LdAbs { store: bool },
    /// Stores SP at the immediate address.
    StoreSp,
    /// Copies HL into SP.
    LdSpHl,
    /// Adds the signed immediate byte to SP.
    AddSp,
    /// Loads SP plus the signed immediate byte into HL.
    LdHlSp,
    /// Stops executing until the shell wakes the processor.
    Halt,
    /// Stops the processor (its second byte is skipped).
    Stop,
    /// Disables interrupts.
    Di,
    /// Enables interrupts.
    Ei,
    /// Returns and enables interrupts.
    Reti,
}

/// An operation of the extended table.
#[derive(Debug, Clone, Copy, PartialEq, Eq, Structural)]
pub enum CbInstr {
    /// Rotates or shifts an operand.
    Shift { op: ShiftOp, dst: u8 },
    /// Tests bit `bit` of an operand.
    Bit { bit: u8, src: u8 },
    /// Clears bit `bit` of an operand.
    ResBit { bit: u8, dst: u8 },
    /// Sets bit `bit` of an operand.
    SetBit { bit: u8, dst: u8 },
}

/// The primary table: the operation of opcode `op`, or `None` when the
/// table leaves it unresolved.
#[verifier::opaque]
pub open spec fn decode_spec(op: u8) -> Option<Instr> {
    if op == 0x00 {
        Some(Instr::Nop)
    } else if op < 0x40 && op % 16 == 1 {
        Some(Instr::LdPairImm { pair: op / 16 })
    } else if op < 0x40 && op % 16 == 2 {
        Some(Instr::LdIndirect { kind: op / 16, store: true })
    } else if op < 0x40 && op % 16 == 10 {
        Some(Instr::LdIndirect { kind: op / 16, store: false })
    } else if op < 0x40 && op % 16 == 3 {
        Some(Instr::IncPair { pair: op / 16 })
    } else if op < 0x40 && op % 16 == 11 {
        Some(Instr::DecPair { pair: op / 16 })
    } else if op < 0x40 && op % 16 == 9 {
        Some(Instr::AddHl { pair: op / 16 })
    } else if op < 0x40 && op % 8 == 4 {
        Some(Instr::Inc { dst: op / 8 })
    } else if op < 0x40 && op % 8 == 5 {
        Some(Instr::Dec { dst: op / 8 })
    } else if op < 0x40 && op % 8 == 6 {
        Some(Instr::LdImm { dst: op / 8 })
    } else if op == 0x18 {
        Some(Instr::Jr)
    } else if 0x20 <= op < 0x40 && op % 8 == 0 {
        Some(Instr::JrIf { cond: (op / 8 - 4) as u8 })
    } else if 0x40 <= op < 0x80 && op != 0x76 {
        Some(Instr::Ld { dst: op / 8 % 8, src: op % 8 })
    } else if 0x80 <= op < 0xC0 {
        Some(Instr::Alu { op: alu_op_of(op / 8 % 8), src: op % 8 })
    } else if 0xC0 <= op && op % 8 == 6 {
        Some(Instr::AluImm { op: alu_op_of(op / 8 % 8) })
    } else if 0xC0 <= op && op % 8 == 7 {
        Some(Instr::Rst { target: (op - 0xC7) as u8 })
    } else if op == 0xC3 {
        Some(Instr::Jp)
    } else if op == 0xCD {
        Some(Instr::Call)
    } else if op == 0xC9 {
        Some(Instr::Ret)
    } else if op == 0xE9 {
        Some(Instr::JpHl)
    } else if 0xC0 <= op < 0xE0 && op % 8 == 2 {
        Some(Instr::JpIf { cond: op / 8 % 4 })
    } else if 0xC0 <= op < 0xE0 && op % 8 == 4 {
        Some(Instr::CallIf { cond: op / 8 % 4 })
    } else if 0xC0 <= op < 0xE0 && op % 8 == 0 {
        Some(Instr::RetIf { cond: op / 8 % 4 })
    } else if 0xC0 <= op && op % 16 == 5 {
        Some(Instr::Push { pair: (op / 16 - 12) as u8 })
    } else if 0xC0 <= op && op % 16 == 1 {
        Some(Instr::Pop { pair: (op / 16 - 12) as u8 })
    } else if op == 0x07 || op == 0x0F || op == 0x17 || op == 0x1F {
        Some(Instr::RotA { rot: shift_op_of(op / 8) })
    } else if op == 0x27 {
        Some(Instr::Daa)
    } else if op == 0x2F {
        Some(Instr::Cpl)
    } else if op == 0x37 {
        Some(Instr::Scf)
    } else if op == 0x3F {
        Some(Instr::Ccf)
    } else if op == 0x08 {
        Some(Instr::StoreSp)
    } else if op == 0xE0 || op == 0xF0 {
        Some(Instr::LdHigh { store: op == 0xE0 })
    } else if op == 0xE2 || op == 0xF2 {
        Some(Instr::LdHighC { store: op == 0xE2 })
    } else if op == 0xEA || op == 0xFA {
        Some(Instr::LdAbs { store: op == 0xEA })
    } else if op == 0xF9 {
        Some(Instr::LdSpHl)
    } else if op == 0xE8 {
        Some(Instr::AddSp)
    } else if op == 0xF8 {
        Some(Instr::LdHlSp)
    } else if op == 0x76 {
        Some(Instr::Halt)
    } else if op == 0x10 {
        Some(Instr::Stop)
    } else if op == 0xF3 {
        Some(Instr::Di)
    } else if op == 0xFB {
        Some(Instr::Ei)
    } else if op == 0xD9 {
        Some(Instr::Reti)
    } else {
        None
    }
}

/// The extended table: every byte after the prefix names an operation.
pub open spec fn decode_cb_spec(op: u8) -> CbInstr {
    let x = op % 8;
    let k = op / 8 % 8;
    if op < 0x40 {
        CbInstr::Shift { op: shift_op_of(k), dst: x }
    } else if op < 0x80 {
        CbInstr::Bit { bit: k, src: x }
    } else if op < 0xC0 {
        CbInstr::ResBit { bit: k, dst: x }
    } else {
        CbInstr::SetBit { bit: k, dst: x }
    }
}

/// The accumulator operation with index `k` (bits 3-5 of its opcode).
fn alu_op(k: u8) -> (r: AluOp)
    ensures
        r == alu_op_of(k),
{
    match k {
        0 => AluOp::Add,
        1 => AluOp::Adc,
        2 => AluOp::Sub,
        3 => AluOp::Sbc,
        4 => AluOp::And,
        5 => AluOp::Xor,
        6 => AluOp::Or,
        _ => AluOp::Cp,
    }
}

/// The rotate or shift with index `k` (bits 3-5 of its extended opcode).
fn shift_op(k: u8) -> (r: ShiftOp)
    ensures
        r == shift_op_of(k),
{
    match k {
        0 => ShiftOp::Rlc,
        1 => ShiftOp::Rrc,
        2 => ShiftOp::Rl,
        3 => ShiftOp::Rr,
        4 => ShiftOp::Sla,
        5 => ShiftOp::Sra,
        6 => ShiftOp::Swap,
        _ => ShiftOp::Srl,
    }
}

/// Looks opcode `op` up in the primary table.
pub fn decode(op: u8) -> (r: Option<Instr>)
    ensures
        r == decode_spec(op),
{
    reveal(decode_spec);
    if op == 0x00 {
        Some(Instr::Nop)
    } else if op < 0x40 && op % 16 == 1 {
        Some(Instr::LdPairImm { pair: op / 16 })
    } else if op < 0x40 && op % 16 == 2 {
        Some(Instr::LdIndirect { kind: op / 16, store: true })
    } else if op < 0x40 && op % 16 == 10 {
        Some(Instr::LdIndirect { kind: op / 16, store: false })
    } else if op < 0x40 && op % 16 == 3 {
        Some(Instr::IncPair { pair: op / 16 })
    } else if op < 0x40 && op % 16 == 11 {
        Some(Instr::DecPair { pair: op / 16 })
    } else if op < 0x40 && op % 16 == 9 {
        Some(Instr::AddHl { pair: op / 16 })
    } else if op < 0x40 && op % 8 == 4 {
        Some(Instr::Inc { dst: op / 8 })
    } else if op < 0x40 && op % 8 == 5 {
        Some(Instr::Dec { dst: op / 8 })
    } else if op < 0x40 && op % 8 == 6 {
        Some(Instr::LdImm { dst: op / 8 })
    } else if op == 0x18 {
        Some(Instr::Jr)
    } else if 0x20 <= op && op < 0x40 && op % 8 == 0 {
        Some(Instr::JrIf { cond: op / 8 - 4 })
    } else if 0x40 <= op && op < 0x80 && op != 0x76 {
        Some(Instr::Ld { dst: op / 8 % 8, src: op % 8 })
    } else if 0x80 <= op && op < 0xC0 {
        Some(Instr::Alu { op: alu_op(op / 8 % 8), src: op % 8 })
    } else if 0xC0 <= op && op % 8 == 6 {
        Some(Instr::AluImm { op: alu_op(op / 8 % 8) })
    } else if 0xC0 <= op && op % 8 == 7 {
        Some(Instr::Rst { target: op - 0xC7 })
    } else if op == 0xC3 {
        Some(Instr::Jp)
    } else if op == 0xCD {
        Some(Instr::Call)
    } else if op == 0xC9 {
        Some(Instr::Ret)
    } else if op == 0xE9 {
        Some(Instr::JpHl)
    } else if 0xC0 <= op && op < 0xE0 && op % 8 == 2 {
        Some(Instr::JpIf { cond: op / 8 % 4 })
    } else if 0xC0 <= op && op < 0xE0 && op % 8 == 4 {
        Some(Instr::CallIf { cond: op / 8 % 4 })
    } else if 0xC0 <= op && op < 0xE0 && op % 8 == 0 {
        Some(Instr::RetIf { cond: op / 8 % 4 })
    } else if 0xC0 <= op && op % 16 == 5 {
        Some(Instr::Push { pair: op / 16 - 12 })
    } else if 0xC0 <= op && op % 16 == 1 {
        Some(Instr::Pop { pair: op / 16 - 12 })
    } else if op == 0x07 || op == 0x0F || op == 0x17 || op == 0x1F {
        Some(Instr::RotA { rot: shift_op(op / 8) })
    } else if op == 0x27 {
        Some(Instr::Daa)
    } else if op == 0x2F {
        Some(Instr::Cpl)
    } else if op == 0x37 {
        Some(Instr::Scf)
    } else if op == 0x3F {
        Some(Instr::Ccf)
    } else if op == 0x08 {
        Some(Instr::StoreSp)
    } else if op == 0xE0 || op == 0xF0 {
        Some(Instr::LdHigh { store: op == 0xE0 })
    } else if op == 0xE2 || op == 0xF2 {
        Some(Instr::LdHighC { store: op == 0xE2 })
    } else if op == 0xEA || op == 0xFA {
        Some(Instr::LdAbs { store: op == 0xEA })
    } else if op == 0xF9 {
        Some(Instr::LdSpHl)
    } else if op == 0xE8 {
        Some(Instr::AddSp)
    } else if op == 0xF8 {
        Some(Instr::LdHlSp)
    } else if op == 0x76 {
        Some(Instr::Halt)
    } else if op == 0x10 {
        Some(Instr::Stop)
    } else if op == 0xF3 {
        Some(Instr::Di)
    } else if op == 0xFB {
        Some(Instr::Ei)
    } else if op == 0xD9 {
        Some(Instr::Reti)
    } else {
        None
    }
}

/// Looks opcode `op` up in the extended table.
pub fn decode_cb(op: u8) -> (r: CbInstr)
    ensures
        r == decode_cb_spec(op),
{
    let x = op % 8;
    let k = op / 8 % 8;
    if op < 0x40 {
        CbInstr::Shift { op: shift_op(k), dst: x }
    } else if op < 0x80 {
        CbInstr::Bit { bit: k, src: x }
    } else if op < 0xC0 {
        CbInstr::ResBit { bit: k, dst: x }
    } else {
        CbInstr::SetBit { bit: k, dst: x }
    }
}

/// The opcodes that the machine leaves undefined.
pub open spec fn undefined_opcode(op: u8) -> bool {
    op == 0xD3 || op == 0xDB || op == 0xDD || op == 0xE3 || op == 0xE4 || op == 0xEB || op == 0xEC
        || op == 0xED || op == 0xF4 || op == 0xFC || op == 0xFD
}

/// The primary table resolves every opcode but the prefix and the
/// undefined ones.
pub proof fn lemma_primary_table_complete(op: u8)
    ensures
        decode_spec(op) is None <==> (op == PREFIX || undefined_opcode(op)),
{
    reveal(decode_spec);
}

} // verus!
