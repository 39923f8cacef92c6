//! The register file: sixteen 8-bit registers, the index register and the
//! program counter.

use vstd::prelude::*;
use crate::memory::PROGRAM_START_ADDR;

verus! {

/// Index of `VF`, which doubles as the carry, borrow and collision flag.
pub const FLAG_REGISTER: usize = 0xF;

/// CPU registers.
#[derive(Clone, Copy, Debug, PartialEq, Eq)]
pub struct Registers {
    /// Index register `I`, used as a memory pointer.
    pub i: u16,
    /// Program counter.
    pub pc: u16,
    /// General registers `V0..VF`.
    pub v: [u8; 16],
}

impl Registers {
    /// A register file with every general register and `I` at zero and the
    /// program counter at the program start address.
    pub fn new() -> (reg: Self)
        ensures
            reg.i == 0,
            reg.pc == PROGRAM_START_ADDR,
            reg.v@ == Seq::new(16, |k: int| 0u8),
    {
        Self { i: 0, pc: PROGRAM_START_ADDR as u16, v: [0; 16] }
    }
}

} // verus!
