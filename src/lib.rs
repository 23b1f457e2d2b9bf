//! The instruction-execution core of a Sharp LR35902-class processor:
//! bit helpers, the register file, the cycle clock, a flat memory unit and
//! the fetch-decode-execute engine.

pub mod bytes;
pub mod alu;
pub mod cpu;
pub mod decode;
pub mod memory;
pub mod semantics;
