//! The register file.

use vstd::prelude::*;

verus! {

/// The program counter, the stack pointer, the accumulator and the two index
/// registers.
#[derive(Debug, Clone, Copy, PartialEq, Eq, Structural)]
pub struct Registers {
    pub program_counter: u16,
    pub stack_pointer: u8,
    pub accumulator: u8,
    pub x: u8,
    pub y: u8,
}

impl Registers {
    /// The register file after power-up: the stack pointer at the top of the
    /// stack page, everything else zero.
    pub open spec fn initial() -> Registers {
        Registers {
            program_counter: 0x00,
            stack_pointer: 0xff,
            accumulator: 0x00,
            x: 0x00,
            y: 0x00,
        }
    }

    pub fn new() -> (registers: Self)
        ensures
            registers == Self::initial(),
    {
        Self { program_counter: 0x00, stack_pointer: 0xff, accumulator: 0x00, x: 0x00, y: 0x00 }
    }
}

impl Default for Registers {
    fn default() -> (registers: Self)
        ensures
            registers == Self::initial(),
    {
        Self::new()
    }
}

/// Every register stays within its width: eight bits for the accumulator, the
/// index registers and the stack pointer, sixteen for the program counter.
pub proof fn lemma_registers_in_range(registers: Registers)
    ensures
        0 <= registers.accumulator <= 255,
        0 <= registers.x <= 255,
        0 <= registers.y <= 255,
        0 <= registers.stack_pointer <= 255,
        0 <= registers.program_counter <= 65535,
{
}

} // verus!
