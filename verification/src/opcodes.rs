//! The decoder: which instruction and addressing mode each opcode byte stands for.

use crate::instruction::Instruction;
use crate::mode::Mode;
use crate::semantics::supported;
use vstd::prelude::*;

verus! {

/// A decoded opcode, or `None` for a byte that no instruction is assigned to.
pub type OpCode = Option<(Instruction, Mode)>;

/// The opcode matrix: the instruction and addressing mode assigned to each
/// byte, and `None` for the unassigned ones.
#[verifier::opaque]
pub open spec fn decode(opcode: u8) -> OpCode {
    match opcode {
        0x00 => Some((Instruction::Break, Mode::Implied)),
        0x01 => Some((Instruction::OrWithAccumulator, Mode::XIndirect)),
        0x05 => Some((Instruction::OrWithAccumulator, Mode::ZeroPage)),
        0x06 => Some((Instruction::ArithmeticShiftLeft, Mode::ZeroPage)),
        0x08 => Some((Instruction::PushProcessorStatus, Mode::Implied)),
        0x09 => Some((Instruction::OrWithAccumulator, Mode::Immediate)),
        0x0A => Some((Instruction::ArithmeticShiftLeft, Mode::Accumulator)),
        0x0D => Some((Instruction::OrWithAccumulator, Mode::Absolute)),
        0x0E => Some((Instruction::ArithmeticShiftLeft, Mode::Absolute)),
        0x10 => Some((Instruction::BranchIfPlus, Mode::Relative)),
        0x11 => Some((Instruction::OrWithAccumulator, Mode::IndirectY)),
        0x15 => Some((Instruction::OrWithAccumulator, Mode::ZeroPageX)),
        0x16 => Some((Instruction::ArithmeticShiftLeft, Mode::ZeroPageX)),
        0x18 => Some((Instruction::ClearCarry, Mode::Implied)),
        0x19 => Some((Instruction::OrWithAccumulator, Mode::AbsoluteY)),
        0x1D => Some((Instruction::OrWithAccumulator, Mode::AbsoluteX)),
        0x1E => Some((Instruction::ArithmeticShiftLeft, Mode::AbsoluteX)),
        0x20 => Some((Instruction::JumpSubroutine, Mode::Absolute)),
        0x21 => Some((Instruction::AndWithAccumulator, Mode::XIndirect)),
        0x24 => Some((Instruction::BitSet, Mode::ZeroPage)),
        0x25 => Some((Instruction::AndWithAccumulator, Mode::ZeroPage)),
        0x26 => Some((Instruction::RotateLeft, Mode::ZeroPage)),
        0x28 => Some((Instruction::PullProcessorStatus, Mode::Implied)),
        0x29 => Some((Instruction::AndWithAccumulator, Mode::Immediate)),
        0x2A => Some((Instruction::RotateLeft, Mode::Accumulator)),
        0x2C => Some((Instruction::BitSet, Mode::Absolute)),
        0x2D => Some((Instruction::AndWithAccumulator, Mode::Absolute)),
        0x2E => Some((Instruction::RotateLeft, Mode::Absolute)),
        0x30 => Some((Instruction::BranchIfMinus, Mode::Relative)),
        0x31 => Some((Instruction::AndWithAccumulator, Mode::IndirectY)),
        0x35 => Some((Instruction::AndWithAccumulator, Mode::ZeroPageX)),
        0x36 => Some((Instruction::RotateLeft, Mode::ZeroPageX)),
        0x38 => Some((Instruction::SetCarry, Mode::Implied)),
        0x39 => Some((Instruction::AndWithAccumulator, Mode::AbsoluteY)),
        0x3D => Some((Instruction::AndWithAccumulator, Mode::AbsoluteX)),
        0x3E => Some((Instruction::RotateLeft, Mode::AbsoluteX)),
        0x40 => Some((Instruction::ReturnFromInterrupt, Mode::Implied)),
        0x41 => Some((Instruction::ExclusiveOrWithAccumulator, Mode::XIndirect)),
        0x45 => Some((Instruction::ExclusiveOrWithAccumulator, Mode::ZeroPage)),
        0x46 => Some((Instruction::LogicalShiftRight, Mode::ZeroPage)),
        0x48 => Some((Instruction::PushAccumulator, Mode::Implied)),
        0x49 => Some((Instruction::ExclusiveOrWithAccumulator, Mode::Immediate)),
        0x4A => Some((Instruction::LogicalShiftRight, Mode::Accumulator)),
        0x4C => Some((Instruction::Jump, Mode::Absolute)),
        0x4D => Some((Instruction::ExclusiveOrWithAccumulator, Mode::Absolute)),
        0x4E => Some((Instruction::LogicalShiftRight, Mode::Absolute)),
        0x50 => Some((Instruction::BranchIfOverflowClear, Mode::Relative)),
        0x51 => Some((Instruction::ExclusiveOrWithAccumulator, Mode::IndirectY)),
        0x55 => Some((Instruction::ExclusiveOrWithAccumulator, Mode::ZeroPageX)),
        0x56 => Some((Instruction::LogicalShiftRight, Mode::ZeroPageX)),
        0x58 => Some((Instruction::ClearInterrupt, Mode::Implied)),
        0x59 => Some((Instruction::ExclusiveOrWithAccumulator, Mode::AbsoluteY)),
        0x5D => Some((Instruction::ExclusiveOrWithAccumulator, Mode::AbsoluteX)),
        0x5E => Some((Instruction::LogicalShiftRight, Mode::AbsoluteX)),
        0x60 => Some((Instruction::ReturnFromSubroutine, Mode::Implied)),
        0x61 => Some((Instruction::AddWithCarry, Mode::XIndirect)),
        0x65 => Some((Instruction::AddWithCarry, Mode::ZeroPage)),
        0x66 => Some((Instruction::RotateRight, Mode::ZeroPage)),
        0x68 => Some((Instruction::PullAccumulator, Mode::Implied)),
        0x69 => Some((Instruction::AddWithCarry, Mode::Immediate)),
        0x6A => Some((Instruction::RotateRight, Mode::Accumulator)),
        0x6C => Some((Instruction::Jump, Mode::Indirect)),
        0x6D => Some((Instruction::AddWithCarry, Mode::Absolute)),
        0x6E => Some((Instruction::RotateRight, Mode::Absolute)),
        0x70 => Some((Instruction::BranchIfOverflowSet, Mode::Relative)),
        0x71 => Some((Instruction::AddWithCarry, Mode::IndirectY)),
        0x75 => Some((Instruction::AddWithCarry, Mode::ZeroPageX)),
        0x76 => Some((Instruction::RotateRight, Mode::ZeroPageX)),
        0x78 => Some((Instruction::SetInterruptDisable, Mode::Implied)),
        0x79 => Some((Instruction::AddWithCarry, Mode::AbsoluteY)),
        0x7D => Some((Instruction::AddWithCarry, Mode::AbsoluteX)),
        0x7E => Some((Instruction::RotateRight, Mode::AbsoluteX)),
        0x81 => Some((Instruction::StoreAccumulator, Mode::XIndirect)),
        0x84 => Some((Instruction::StoreY, Mode::ZeroPage)),
        0x85 => Some((Instruction::StoreAccumulator, Mode::ZeroPage)),
        0x86 => Some((Instruction::StoreX, Mode::ZeroPage)),
        0x88 => Some((Instruction::DecrementY, Mode::Implied)),
        0x8A => Some((Instruction::TransferXToAccumulator, Mode::Implied)),
        0x8C => Some((Instruction::StoreY, Mode::Absolute)),
        0x8D => Some((Instruction::StoreAccumulator, Mode::Absolute)),
        0x8E => Some((Instruction::StoreX, Mode::Absolute)),
        0x90 => Some((Instruction::BranchIfCarryClear, Mode::Relative)),
        0x91 => Some((Instruction::StoreAccumulator, Mode::IndirectY)),
        0x94 => Some((Instruction::StoreY, Mode::ZeroPageX)),
        0x95 => Some((Instruction::StoreAccumulator, Mode::ZeroPageX)),
        0x96 => Some((Instruction::StoreX, Mode::ZeroPageY)),
        0x98 => Some((Instruction::TransferYToAccumulator, Mode::Implied)),
        0x99 => Some((Instruction::StoreAccumulator, Mode::AbsoluteY)),
        0x9A => Some((Instruction::TransferXToStackPointer, Mode::Implied)),
        0x9D => Some((Instruction::StoreAccumulator, Mode::AbsoluteX)),
        0xA0 => Some((Instruction::LoadY, Mode::Immediate)),
        0xA1 => Some((Instruction::LoadAccumulator, Mode::XIndirect)),
        0xA2 => Some((Instruction::LoadX, Mode::Immediate)),
        0xA4 => Some((Instruction::LoadY, Mode::ZeroPage)),
        0xA5 => Some((Instruction::LoadAccumulator, Mode::ZeroPage)),
        0xA6 => Some((Instruction::LoadX, Mode::ZeroPage)),
        0xA8 => Some((Instruction::TransferAccumulatorToY, Mode::Implied)),
        0xA9 => Some((Instruction::LoadAccumulator, Mode::Immediate)),
        0xAA => Some((Instruction::TransferAccumulatorToX, Mode::Implied)),
        0xAC => Some((Instruction::LoadY, Mode::Absolute)),
        0xAD => Some((Instruction::LoadAccumulator, Mode::Absolute)),
        0xAE => Some((Instruction::LoadX, Mode::Absolute)),
        0xB0 => Some((Instruction::BranchIfCarrySet, Mode::Relative)),
        0xB1 => Some((Instruction::LoadAccumulator, Mode::IndirectY)),
        0xB4 => Some((Instruction::LoadY, Mode::ZeroPageX)),
        0xB5 => Some((Instruction::LoadAccumulator, Mode::ZeroPageX)),
        0xB6 => Some((Instruction::LoadX, Mode::ZeroPageY)),
        0xB8 => Some((Instruction::ClearOverflow, Mode::Implied)),
        0xB9 => Some((Instruction::LoadAccumulator, Mode::AbsoluteY)),
        0xBA => Some((Instruction::TransferStackPointerToX, Mode::Implied)),
        0xBC => Some((Instruction::LoadY, Mode::AbsoluteX)),
        0xBD => Some((Instruction::LoadAccumulator, Mode::AbsoluteX)),
        0xBE => Some((Instruction::LoadX, Mode::AbsoluteY)),
        0xC0 => Some((Instruction::CompareWithY, Mode::Immediate)),
        0xC1 => Some((Instruction::CompareWithAccumulator, Mode::XIndirect)),
        0xC4 => Some((Instruction::CompareWithY, Mode::ZeroPage)),
        0xC5 => Some((Instruction::CompareWithAccumulator, Mode::ZeroPage)),
        0xC6 => Some((Instruction::Decrement, Mode::ZeroPage)),
        0xC8 => Some((Instruction::IncrementY, Mode::Implied)),
        0xC9 => Some((Instruction::CompareWithAccumulator, Mode::Immediate)),
        0xCA => Some((Instruction::DecrementX, Mode::Implied)),
        0xCC => Some((Instruction::CompareWithY, Mode::Absolute)),
        0xCD => Some((Instruction::CompareWithAccumulator, Mode::Absolute)),
        0xCE => Some((Instruction::Decrement, Mode::Absolute)),
        0xD0 => Some((Instruction::BranchIfNotEqual, Mode::Relative)),
        0xD1 => Some((Instruction::CompareWithAccumulator, Mode::IndirectY)),
        0xD5 => Some((Instruction::CompareWithAccumulator, Mode::ZeroPageX)),
        0xD6 => Some((Instruction::Decrement, Mode::ZeroPageX)),
        0xD8 => Some((Instruction::ClearDecimal, Mode::Implied)),
        0xD9 => Some((Instruction::CompareWithAccumulator, Mode::AbsoluteY)),
        0xDD => Some((Instruction::CompareWithAccumulator, Mode::AbsoluteX)),
        0xDE => Some((Instruction::Decrement, Mode::AbsoluteX)),
        0xE0 => Some((Instruction::CompareWithX, Mode::Immediate)),
        0xE1 => Some((Instruction::SubtractWithCarry, Mode::XIndirect)),
        0xE4 => Some((Instruction::CompareWithX, Mode::ZeroPage)),
        0xE5 => Some((Instruction::SubtractWithCarry, Mode::ZeroPage)),
        0xE6 => Some((Instruction::Increment, Mode::ZeroPage)),
        0xE8 => Some((Instruction::IncrementX, Mode::Implied)),
        0xE9 => Some((Instruction::SubtractWithCarry, Mode::Immediate)),
        0xEA => Some((Instruction::NoOperation, Mode::Implied)),
        0xEC => Some((Instruction::CompareWithX, Mode::Absolute)),
        0xED => Some((Instruction::SubtractWithCarry, Mode::Absolute)),
        0xEE => Some((Instruction::Increment, Mode::Absolute)),
        0xF0 => Some((Instruction::BranchIfEqual, Mode::Relative)),
        0xF1 => Some((Instruction::SubtractWithCarry, Mode::IndirectY)),
        0xF5 => Some((Instruction::SubtractWithCarry, Mode::ZeroPageX)),
        0xF6 => Some((Instruction::Increment, Mode::ZeroPageX)),
        0xF8 => Some((Instruction::SetDecimal, Mode::Implied)),
        0xF9 => Some((Instruction::SubtractWithCarry, Mode::AbsoluteY)),
        0xFD => Some((Instruction::SubtractWithCarry, Mode::AbsoluteX)),
        0xFE => Some((Instruction::Increment, Mode::AbsoluteX)),
        _ => None,
    }
}

/// The opcode byte that stands for an instruction in an addressing mode, or
/// `None` where the instruction does not exist in that mode.
pub open spec fn encode(instruction: Instruction, mode: Mode) -> Option<u8> {
    match (instruction, mode) {
        (Instruction::AddWithCarry, Mode::Immediate) => Some(0x69u8),
        (Instruction::AddWithCarry, Mode::ZeroPage) => Some(0x65u8),
        (Instruction::AddWithCarry, Mode::ZeroPageX) => Some(0x75u8),
        (Instruction::AddWithCarry, Mode::Absolute) => Some(0x6du8),
        (Instruction::AddWithCarry, Mode::AbsoluteX) => Some(0x7du8),
        (Instruction::AddWithCarry, Mode::AbsoluteY) => Some(0x79u8),
        (Instruction::AddWithCarry, Mode::XIndirect) => Some(0x61u8),
        (Instruction::AddWithCarry, Mode::IndirectY) => Some(0x71u8),
        (Instruction::AndWithAccumulator, Mode::Immediate) => Some(0x29u8),
        (Instruction::AndWithAccumulator, Mode::ZeroPage) => Some(0x25u8),
        (Instruction::AndWithAccumulator, Mode::ZeroPageX) => Some(0x35u8),
        (Instruction::AndWithAccumulator, Mode::Absolute) => Some(0x2du8),
        (Instruction::AndWithAccumulator, Mode::AbsoluteX) => Some(0x3du8),
        (Instruction::AndWithAccumulator, Mode::AbsoluteY) => Some(0x39u8),
        (Instruction::AndWithAccumulator, Mode::XIndirect) => Some(0x21u8),
        (Instruction::AndWithAccumulator, Mode::IndirectY) => Some(0x31u8),
        (Instruction::ArithmeticShiftLeft, Mode::Accumulator) => Some(0x0au8),
        (Instruction::ArithmeticShiftLeft, Mode::ZeroPage) => Some(0x06u8),
        (Instruction::ArithmeticShiftLeft, Mode::ZeroPageX) => Some(0x16u8),
        (Instruction::ArithmeticShiftLeft, Mode::Absolute) => Some(0x0eu8),
        (Instruction::ArithmeticShiftLeft, Mode::AbsoluteX) => Some(0x1eu8),
        (Instruction::BranchIfCarryClear, Mode::Relative) => Some(0x90u8),
        (Instruction::BranchIfCarrySet, Mode::Relative) => Some(0xb0u8),
        (Instruction::BranchIfEqual, Mode::Relative) => Some(0xf0u8),
        (Instruction::BitSet, Mode::ZeroPage) => Some(0x24u8),
        (Instruction::BitSet, Mode::Absolute) => Some(0x2cu8),
        (Instruction::BranchIfMinus, Mode::Relative) => Some(0x30u8),
        (Instruction::BranchIfNotEqual, Mode::Relative) => Some(0xd0u8),
        (Instruction::BranchIfPlus, Mode::Relative) => Some(0x10u8),
        (Instruction::Break, Mode::Implied) => Some(0x00u8),
        (Instruction::BranchIfOverflowClear, Mode::Relative) => Some(0x50u8),
        (Instruction::BranchIfOverflowSet, Mode::Relative) => Some(0x70u8),
        (Instruction::ClearCarry, Mode::Implied) => Some(0x18u8),
        (Instruction::ClearDecimal, Mode::Implied) => Some(0xd8u8),
        (Instruction::ClearInterrupt, Mode::Implied) => Some(0x58u8),
        (Instruction::ClearOverflow, Mode::Implied) => Some(0xb8u8),
        (Instruction::CompareWithAccumulator, Mode::Immediate) => Some(0xc9u8),
        (Instruction::CompareWithAccumulator, Mode::ZeroPage) => Some(0xc5u8),
        (Instruction::CompareWithAccumulator, Mode::ZeroPageX) => Some(0xd5u8),
        (Instruction::CompareWithAccumulator, Mode::Absolute) => Some(0xcdu8),
        (Instruction::CompareWithAccumulator, Mode::AbsoluteX) => Some(0xddu8),
        (Instruction::CompareWithAccumulator, Mode::AbsoluteY) => Some(0xd9u8),
        (Instruction::CompareWithAccumulator, Mode::XIndirect) => Some(0xc1u8),
        (Instruction::CompareWithAccumulator, Mode::IndirectY) => Some(0xd1u8),
        (Instruction::CompareWithX, Mode::Immediate) => Some(0xe0u8),
        (Instruction::CompareWithX, Mode::ZeroPage) => Some(0xe4u8),
        (Instruction::CompareWithX, Mode::Absolute) => Some(0xecu8),
        (Instruction::CompareWithY, Mode::Immediate) => Some(0xc0u8),
        (Instruction::CompareWithY, Mode::ZeroPage) => Some(0xc4u8),
        (Instruction::CompareWithY, Mode::Absolute) => Some(0xccu8),
        (Instruction::Decrement, Mode::ZeroPage) => Some(0xc6u8),
        (Instruction::Decrement, Mode::ZeroPageX) => Some(0xd6u8),
        (Instruction::Decrement, Mode::Absolute) => Some(0xceu8),
        (Instruction::Decrement, Mode::AbsoluteX) => Some(0xdeu8),
        (Instruction::DecrementX, Mode::Implied) => Some(0xcau8),
        (Instruction::DecrementY, Mode::Implied) => Some(0x88u8),
        (Instruction::ExclusiveOrWithAccumulator, Mode::Immediate) => Some(0x49u8),
        (Instruction::ExclusiveOrWithAccumulator, Mode::ZeroPage) => Some(0x45u8),
        (Instruction::ExclusiveOrWithAccumulator, Mode::ZeroPageX) => Some(0x55u8),
        (Instruction::ExclusiveOrWithAccumulator, Mode::Absolute) => Some(0x4du8),
        (Instruction::ExclusiveOrWithAccumulator, Mode::AbsoluteX) => Some(0x5du8),
        (Instruction::ExclusiveOrWithAccumulator, Mode::AbsoluteY) => Some(0x59u8),
        (Instruction::ExclusiveOrWithAccumulator, Mode::XIndirect) => Some(0x41u8),
        (Instruction::ExclusiveOrWithAccumulator, Mode::IndirectY) => Some(0x51u8),
        (Instruction::Increment, Mode::ZeroPage) => Some(0xe6u8),
        (Instruction::Increment, Mode::ZeroPageX) => Some(0xf6u8),
        (Instruction::Increment, Mode::Absolute) => Some(0xeeu8),
        (Instruction::Increment, Mode::AbsoluteX) => Some(0xfeu8),
        (Instruction::IncrementX, Mode::Implied) => Some(0xe8u8),
        (Instruction::IncrementY, Mode::Implied) => Some(0xc8u8),
        (Instruction::Jump, Mode::Absolute) => Some(0x4cu8),
        (Instruction::Jump, Mode::Indirect) => Some(0x6cu8),
        (Instruction::JumpSubroutine, Mode::Absolute) => Some(0x20u8),
        (Instruction::LoadAccumulator, Mode::Immediate) => Some(0xa9u8),
        (Instruction::LoadAccumulator, Mode::ZeroPage) => Some(0xa5u8),
        (Instruction::LoadAccumulator, Mode::ZeroPageX) => Some(0xb5u8),
        (Instruction::LoadAccumulator, Mode::Absolute) => Some(0xadu8),
        (Instruction::LoadAccumulator, Mode::AbsoluteX) => Some(0xbdu8),
        (Instruction::LoadAccumulator, Mode::AbsoluteY) => Some(0xb9u8),
        (Instruction::LoadAccumulator, Mode::XIndirect) => Some(0xa1u8),
        (Instruction::LoadAccumulator, Mode::IndirectY) => Some(0xb1u8),
        (Instruction::LoadX, Mode::Immediate) => Some(0xa2u8),
        (Instruction::LoadX, Mode::ZeroPage) => Some(0xa6u8),
        (Instruction::LoadX, Mode::ZeroPageY) => Some(0xb6u8),
        (Instruction::LoadX, Mode::Absolute) => Some(0xaeu8),
        (Instruction::LoadX, Mode::AbsoluteY) => Some(0xbeu8),
        (Instruction::LoadY, Mode::Immediate) => Some(0xa0u8),
        (Instruction::LoadY, Mode::ZeroPage) => Some(0xa4u8),
        (Instruction::LoadY, Mode::ZeroPageX) => Some(0xb4u8),
        (Instruction::LoadY, Mode::Absolute) => Some(0xacu8),
        (Instruction::LoadY, Mode::AbsoluteX) => Some(0xbcu8),
        (Instruction::LogicalShiftRight, Mode::Accumulator) => Some(0x4au8),
        (Instruction::LogicalShiftRight, Mode::ZeroPage) => Some(0x46u8),
        (Instruction::LogicalShiftRight, Mode::ZeroPageX) => Some(0x56u8),
        (Instruction::LogicalShiftRight, Mode::Absolute) => Some(0x4eu8),
        (Instruction::LogicalShiftRight, Mode::AbsoluteX) => Some(0x5eu8),
        (Instruction::NoOperation, Mode::Implied) => Some(0xeau8),
        (Instruction::OrWithAccumulator, Mode::Immediate) => Some(0x09u8),
        (Instruction::OrWithAccumulator, Mode::ZeroPage) => Some(0x05u8),
        (Instruction::OrWithAccumulator, Mode::ZeroPageX) => Some(0x15u8),
        (Instruction::OrWithAccumulator, Mode::Absolute) => Some(0x0du8),
        (Instruction::OrWithAccumulator, Mode::AbsoluteX) => Some(0x1du8),
        (Instruction::OrWithAccumulator, Mode::AbsoluteY) => Some(0x19u8),
        (Instruction::OrWithAccumulator, Mode::XIndirect) => Some(0x01u8),
        (Instruction::OrWithAccumulator, Mode::IndirectY) => Some(0x11u8),
        (Instruction::PushAccumulator, Mode::Implied) => Some(0x48u8),
        (Instruction::PushProcessorStatus, Mode::Implied) => Some(0x08u8),
        (Instruction::PullAccumulator, Mode::Implied) => Some(0x68u8),
        (Instruction::PullProcessorStatus, Mode::Implied) => Some(0x28u8),
        (Instruction::RotateLeft, Mode::Accumulator) => Some(0x2au8),
        (Instruction::RotateLeft, Mode::ZeroPage) => Some(0x26u8),
        (Instruction::RotateLeft, Mode::ZeroPageX) => Some(0x36u8),
        (Instruction::RotateLeft, Mode::Absolute) => Some(0x2eu8),
        (Instruction::RotateLeft, Mode::AbsoluteX) => Some(0x3eu8),
        (Instruction::RotateRight, Mode::Accumulator) => Some(0x6au8),
        (Instruction::RotateRight, Mode::ZeroPage) => Some(0x66u8),
        (Instruction::RotateRight, Mode::ZeroPageX) => Some(0x76u8),
        (Instruction::RotateRight, Mode::Absolute) => Some(0x6eu8),
        (Instruction::RotateRight, Mode::AbsoluteX) => Some(0x7eu8),
        (Instruction::ReturnFromInterrupt, Mode::Implied) => Some(0x40u8),
        (Instruction::ReturnFromSubroutine, Mode::Implied) => Some(0x60u8),
        (Instruction::SubtractWithCarry, Mode::Immediate) => Some(0xe9u8),
        (Instruction::SubtractWithCarry, Mode::ZeroPage) => Some(0xe5u8),
        (Instruction::SubtractWithCarry, Mode::ZeroPageX) => Some(0xf5u8),
        (Instruction::SubtractWithCarry, Mode::Absolute) => Some(0xedu8),
        (Instruction::SubtractWithCarry, Mode::AbsoluteX) => Some(0xfdu8),
        (Instruction::SubtractWithCarry, Mode::AbsoluteY) => Some(0xf9u8),
        (Instruction::SubtractWithCarry, Mode::XIndirect) => Some(0xe1u8),
        (Instruction::SubtractWithCarry, Mode::IndirectY) => Some(0xf1u8),
        (Instruction::SetCarry, Mode::Implied) => Some(0x38u8),
        (Instruction::SetDecimal, Mode::Implied) => Some(0xf8u8),
        (Instruction::SetInterruptDisable, Mode::Implied) => Some(0x78u8),
        (Instruction::StoreAccumulator, Mode::ZeroPage) => Some(0x85u8),
        (Instruction::StoreAccumulator, Mode::ZeroPageX) => Some(0x95u8),
        (Instruction::StoreAccumulator, Mode::Absolute) => Some(0x8du8),
        (Instruction::StoreAccumulator, Mode::AbsoluteX) => Some(0x9du8),
        (Instruction::StoreAccumulator, Mode::AbsoluteY) => Some(0x99u8),
        (Instruction::StoreAccumulator, Mode::XIndirect) => Some(0x81u8),
        (Instruction::StoreAccumulator, Mode::IndirectY) => Some(0x91u8),
        (Instruction::StoreX, Mode::ZeroPage) => Some(0x86u8),
        (Instruction::StoreX, Mode::ZeroPageY) => Some(0x96u8),
        (Instruction::StoreX, Mode::Absolute) => Some(0x8eu8),
        (Instruction::StoreY, Mode::ZeroPage) => Some(0x84u8),
        (Instruction::StoreY, Mode::ZeroPageX) => Some(0x94u8),
        (Instruction::StoreY, Mode::Absolute) => Some(0x8cu8),
        (Instruction::TransferAccumulatorToX, Mode::Implied) => Some(0xaau8),
        (Instruction::TransferAccumulatorToY, Mode::Implied) => Some(0xa8u8),
        (Instruction::TransferStackPointerToX, Mode::Implied) => Some(0xbau8),
        (Instruction::TransferXToAccumulator, Mode::Implied) => Some(0x8au8),
        (Instruction::TransferXToStackPointer, Mode::Implied) => Some(0x9au8),
        (Instruction::TransferYToAccumulator, Mode::Implied) => Some(0x98u8),
        _ => None,
    }
}

/// Looks an opcode byte up in the opcode matrix.
pub fn get(opcode: u8) -> (decoded: OpCode)
    ensures
        decoded == decode(opcode),
{
    reveal(decode);
    match opcode {
        0x00 => Some((Instruction::Break, Mode::Implied)),
        0x01 => Some((Instruction::OrWithAccumulator, Mode::XIndirect)),
        0x05 => Some((Instruction::OrWithAccumulator, Mode::ZeroPage)),
        0x06 => Some((Instruction::ArithmeticShiftLeft, Mode::ZeroPage)),
        0x08 => Some((Instruction::PushProcessorStatus, Mode::Implied)),
        0x09 => Some((Instruction::OrWithAccumulator, Mode::Immediate)),
        0x0A => Some((Instruction::ArithmeticShiftLeft, Mode::Accumulator)),
        0x0D => Some((Instruction::OrWithAccumulator, Mode::Absolute)),
        0x0E => Some((Instruction::ArithmeticShiftLeft, Mode::Absolute)),
        0x10 => Some((Instruction::BranchIfPlus, Mode::Relative)),
        0x11 => Some((Instruction::OrWithAccumulator, Mode::IndirectY)),
        0x15 => Some((Instruction::OrWithAccumulator, Mode::ZeroPageX)),
        0x16 => Some((Instruction::ArithmeticShiftLeft, Mode::ZeroPageX)),
        0x18 => Some((Instruction::ClearCarry, Mode::Implied)),
        0x19 => Some((Instruction::OrWithAccumulator, Mode::AbsoluteY)),
        0x1D => Some((Instruction::OrWithAccumulator, Mode::AbsoluteX)),
        0x1E => Some((Instruction::ArithmeticShiftLeft, Mode::AbsoluteX)),
        0x20 => Some((Instruction::JumpSubroutine, Mode::Absolute)),
        0x21 => Some((Instruction::AndWithAccumulator, Mode::XIndirect)),
        0x24 => Some((Instruction::BitSet, Mode::ZeroPage)),
        0x25 => Some((Instruction::AndWithAccumulator, Mode::ZeroPage)),
        0x26 => Some((Instruction::RotateLeft, Mode::ZeroPage)),
        0x28 => Some((Instruction::PullProcessorStatus, Mode::Implied)),
        0x29 => Some((Instruction::AndWithAccumulator, Mode::Immediate)),
        0x2A => Some((Instruction::RotateLeft, Mode::Accumulator)),
        0x2C => Some((Instruction::BitSet, Mode::Absolute)),
        0x2D => Some((Instruction::AndWithAccumulator, Mode::Absolute)),
        0x2E => Some((Instruction::RotateLeft, Mode::Absolute)),
        0x30 => Some((Instruction::BranchIfMinus, Mode::Relative)),
        0x31 => Some((Instruction::AndWithAccumulator, Mode::IndirectY)),
        0x35 => Some((Instruction::AndWithAccumulator, Mode::ZeroPageX)),
        0x36 => Some((Instruction::RotateLeft, Mode::ZeroPageX)),
        0x38 => Some((Instruction::SetCarry, Mode::Implied)),
        0x39 => Some((Instruction::AndWithAccumulator, Mode::AbsoluteY)),
        0x3D => Some((Instruction::AndWithAccumulator, Mode::AbsoluteX)),
        0x3E => Some((Instruction::RotateLeft, Mode::AbsoluteX)),
        0x40 => Some((Instruction::ReturnFromInterrupt, Mode::Implied)),
        0x41 => Some((Instruction::ExclusiveOrWithAccumulator, Mode::XIndirect)),
        0x45 => Some((Instruction::ExclusiveOrWithAccumulator, Mode::ZeroPage)),
        0x46 => Some((Instruction::LogicalShiftRight, Mode::ZeroPage)),
        0x48 => Some((Instruction::PushAccumulator, Mode::Implied)),
        0x49 => Some((Instruction::ExclusiveOrWithAccumulator, Mode::Immediate)),
        0x4A => Some((Instruction::LogicalShiftRight, Mode::Accumulator)),
        0x4C => Some((Instruction::Jump, Mode::Absolute)),
        0x4D => Some((Instruction::ExclusiveOrWithAccumulator, Mode::Absolute)),
        0x4E => Some((Instruction::LogicalShiftRight, Mode::Absolute)),
        0x50 => Some((Instruction::BranchIfOverflowClear, Mode::Relative)),
        0x51 => Some((Instruction::ExclusiveOrWithAccumulator, Mode::IndirectY)),
        0x55 => Some((Instruction::ExclusiveOrWithAccumulator, Mode::ZeroPageX)),
        0x56 => Some((Instruction::LogicalShiftRight, Mode::ZeroPageX)),
        0x58 => Some((Instruction::ClearInterrupt, Mode::Implied)),
        0x59 => Some((Instruction::ExclusiveOrWithAccumulator, Mode::AbsoluteY)),
        0x5D => Some((Instruction::ExclusiveOrWithAccumulator, Mode::AbsoluteX)),
        0x5E => Some((Instruction::LogicalShiftRight, Mode::AbsoluteX)),
        0x60 => Some((Instruction::ReturnFromSubroutine, Mode::Implied)),
        0x61 => Some((Instruction::AddWithCarry, Mode::XIndirect)),
        0x65 => Some((Instruction::AddWithCarry, Mode::ZeroPage)),
        0x66 => Some((Instruction::RotateRight, Mode::ZeroPage)),
        0x68 => Some((Instruction::PullAccumulator, Mode::Implied)),
        0x69 => Some((Instruction::AddWithCarry, Mode::Immediate)),
        0x6A => Some((Instruction::RotateRight, Mode::Accumulator)),
        0x6C => Some((Instruction::Jump, Mode::Indirect)),
        0x6D => Some((Instruction::AddWithCarry, Mode::Absolute)),
        0x6E => Some((Instruction::RotateRight, Mode::Absolute)),
        0x70 => Some((Instruction::BranchIfOverflowSet, Mode::Relative)),
        0x71 => Some((Instruction::AddWithCarry, Mode::IndirectY)),
        0x75 => Some((Instruction::AddWithCarry, Mode::ZeroPageX)),
        0x76 => Some((Instruction::RotateRight, Mode::ZeroPageX)),
        0x78 => Some((Instruction::SetInterruptDisable, Mode::Implied)),
        0x79 => Some((Instruction::AddWithCarry, Mode::AbsoluteY)),
        0x7D => Some((Instruction::AddWithCarry, Mode::AbsoluteX)),
        0x7E => Some((Instruction::RotateRight, Mode::AbsoluteX)),
        0x81 => Some((Instruction::StoreAccumulator, Mode::XIndirect)),
        0x84 => Some((Instruction::StoreY, Mode::ZeroPage)),
        0x85 => Some((Instruction::StoreAccumulator, Mode::ZeroPage)),
        0x86 => Some((Instruction::StoreX, Mode::ZeroPage)),
        0x88 => Some((Instruction::DecrementY, Mode::Implied)),
        0x8A => Some((Instruction::TransferXToAccumulator, Mode::Implied)),
        0x8C => Some((Instruction::StoreY, Mode::Absolute)),
        0x8D => Some((Instruction::StoreAccumulator, Mode::Absolute)),
        0x8E => Some((Instruction::StoreX, Mode::Absolute)),
        0x90 => Some((Instruction::BranchIfCarryClear, Mode::Relative)),
        0x91 => Some((Instruction::StoreAccumulator, Mode::IndirectY)),
        0x94 => Some((Instruction::StoreY, Mode::ZeroPageX)),
        0x95 => Some((Instruction::StoreAccumulator, Mode::ZeroPageX)),
        0x96 => Some((Instruction::StoreX, Mode::ZeroPageY)),
        0x98 => Some((Instruction::TransferYToAccumulator, Mode::Implied)),
        0x99 => Some((Instruction::StoreAccumulator, Mode::AbsoluteY)),
        0x9A => Some((Instruction::TransferXToStackPointer, Mode::Implied)),
        0x9D => Some((Instruction::StoreAccumulator, Mode::AbsoluteX)),
        0xA0 => Some((Instruction::LoadY, Mode::Immediate)),
        0xA1 => Some((Instruction::LoadAccumulator, Mode::XIndirect)),
        0xA2 => Some((Instruction::LoadX, Mode::Immediate)),
        0xA4 => Some((Instruction::LoadY, Mode::ZeroPage)),
        0xA5 => Some((Instruction::LoadAccumulator, Mode::ZeroPage)),
        0xA6 => Some((Instruction::LoadX, Mode::ZeroPage)),
        0xA8 => Some((Instruction::TransferAccumulatorToY, Mode::Implied)),
        0xA9 => Some((Instruction::LoadAccumulator, Mode::Immediate)),
        0xAA => Some((Instruction::TransferAccumulatorToX, Mode::Implied)),
        0xAC => Some((Instruction::LoadY, Mode::Absolute)),
        0xAD => Some((Instruction::LoadAccumulator, Mode::Absolute)),
        0xAE => Some((Instruction::LoadX, Mode::Absolute)),
        0xB0 => Some((Instruction::BranchIfCarrySet, Mode::Relative)),
        0xB1 => Some((Instruction::LoadAccumulator, Mode::IndirectY)),
        0xB4 => Some((Instruction::LoadY, Mode::ZeroPageX)),
        0xB5 => Some((Instruction::LoadAccumulator, Mode::ZeroPageX)),
        0xB6 => Some((Instruction::LoadX, Mode::ZeroPageY)),
        0xB8 => Some((Instruction::ClearOverflow, Mode::Implied)),
        0xB9 => Some((Instruction::LoadAccumulator, Mode::AbsoluteY)),
        0xBA => Some((Instruction::TransferStackPointerToX, Mode::Implied)),
        0xBC => Some((Instruction::LoadY, Mode::AbsoluteX)),
        0xBD => Some((Instruction::LoadAccumulator, Mode::AbsoluteX)),
        0xBE => Some((Instruction::LoadX, Mode::AbsoluteY)),
        0xC0 => Some((Instruction::CompareWithY, Mode::Immediate)),
        0xC1 => Some((Instruction::CompareWithAccumulator, Mode::XIndirect)),
        0xC4 => Some((Instruction::CompareWithY, Mode::ZeroPage)),
        0xC5 => Some((Instruction::CompareWithAccumulator, Mode::ZeroPage)),
        0xC6 => Some((Instruction::Decrement, Mode::ZeroPage)),
        0xC8 => Some((Instruction::IncrementY, Mode::Implied)),
        0xC9 => Some((Instruction::CompareWithAccumulator, Mode::Immediate)),
        0xCA => Some((Instruction::DecrementX, Mode::Implied)),
        0xCC => Some((Instruction::CompareWithY, Mode::Absolute)),
        0xCD => Some((Instruction::CompareWithAccumulator, Mode::Absolute)),
        0xCE => Some((Instruction::Decrement, Mode::Absolute)),
        0xD0 => Some((Instruction::BranchIfNotEqual, Mode::Relative)),
        0xD1 => Some((Instruction::CompareWithAccumulator, Mode::IndirectY)),
        0xD5 => Some((Instruction::CompareWithAccumulator, Mode::ZeroPageX)),
        0xD6 => Some((Instruction::Decrement, Mode::ZeroPageX)),
        0xD8 => Some((Instruction::ClearDecimal, Mode::Implied)),
        0xD9 => Some((Instruction::CompareWithAccumulator, Mode::AbsoluteY)),
        0xDD => Some((Instruction::CompareWithAccumulator, Mode::AbsoluteX)),
        0xDE => Some((Instruction::Decrement, Mode::AbsoluteX)),
        0xE0 => Some((Instruction::CompareWithX, Mode::Immediate)),
        0xE1 => Some((Instruction::SubtractWithCarry, Mode::XIndirect)),
        0xE4 => Some((Instruction::CompareWithX, Mode::ZeroPage)),
        0xE5 => Some((Instruction::SubtractWithCarry, Mode::ZeroPage)),
        0xE6 => Some((Instruction::Increment, Mode::ZeroPage)),
        0xE8 => Some((Instruction::IncrementX, Mode::Implied)),
        0xE9 => Some((Instruction::SubtractWithCarry, Mode::Immediate)),
        0xEA => Some((Instruction::NoOperation, Mode::Implied)),
        0xEC => Some((Instruction::CompareWithX, Mode::Absolute)),
        0xED => Some((Instruction::SubtractWithCarry, Mode::Absolute)),
        0xEE => Some((Instruction::Increment, Mode::Absolute)),
        0xF0 => Some((Instruction::BranchIfEqual, Mode::Relative)),
        0xF1 => Some((Instruction::SubtractWithCarry, Mode::IndirectY)),
        0xF5 => Some((Instruction::SubtractWithCarry, Mode::ZeroPageX)),
        0xF6 => Some((Instruction::Increment, Mode::ZeroPageX)),
        0xF8 => Some((Instruction::SetDecimal, Mode::Implied)),
        0xF9 => Some((Instruction::SubtractWithCarry, Mode::AbsoluteY)),
        0xFD => Some((Instruction::SubtractWithCarry, Mode::AbsoluteX)),
        0xFE => Some((Instruction::Increment, Mode::AbsoluteX)),
        _ => None,
    }
}

/// Every assigned opcode pairs its instruction with an addressing mode in
/// which the instruction can be carried out.
pub proof fn lemma_decoded_is_supported(opcode: u8)
    ensures
        decode(opcode) matches Some((instruction, mode)) ==> supported(instruction, mode),
{
    reveal(decode);
}

/// The opcode matrix and the table of encodings are each other's inverse: a
/// byte decodes to an instruction and a mode exactly where that instruction in
/// that mode is encoded by the byte.
pub proof fn lemma_decode_inverts_encode(opcode: u8, instruction: Instruction, mode: Mode)
    ensures
        decode(opcode) == Some((instruction, mode)) <==> encode(instruction, mode) == Some(opcode),
{
    reveal(decode);
}

} // verus!
