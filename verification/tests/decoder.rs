use mos6502::instruction::Instruction;
use mos6502::mode::Mode;
use mos6502::opcodes;

#[test]
fn the_matrix_assigns_151_opcodes() {
    let assigned = (0..=255u8).filter(|opcode| opcodes::get(*opcode).is_some()).count();
    assert_eq!(assigned, 151);
}

#[test]
fn unassigned_opcodes_decode_to_none() {
    for opcode in [0x02u8, 0x03, 0x1a, 0x80, 0x9e, 0xcb, 0xff] {
        assert_eq!(opcodes::get(opcode), None);
    }
}

#[test]
fn load_accumulator_has_eight_modes() {
    assert_eq!(opcodes::get(0xa9), Some((Instruction::LoadAccumulator, Mode::Immediate)));
    assert_eq!(opcodes::get(0xa5), Some((Instruction::LoadAccumulator, Mode::ZeroPage)));
    assert_eq!(opcodes::get(0xb5), Some((Instruction::LoadAccumulator, Mode::ZeroPageX)));
    assert_eq!(opcodes::get(0xad), Some((Instruction::LoadAccumulator, Mode::Absolute)));
    assert_eq!(opcodes::get(0xbd), Some((Instruction::LoadAccumulator, Mode::AbsoluteX)));
    assert_eq!(opcodes::get(0xb9), Some((Instruction::LoadAccumulator, Mode::AbsoluteY)));
    assert_eq!(opcodes::get(0xa1), Some((Instruction::LoadAccumulator, Mode::XIndirect)));
    assert_eq!(opcodes::get(0xb1), Some((Instruction::LoadAccumulator, Mode::IndirectY)));
}

#[test]
fn branches_are_relative() {
    assert_eq!(opcodes::get(0x10), Some((Instruction::BranchIfPlus, Mode::Relative)));
    assert_eq!(opcodes::get(0x30), Some((Instruction::BranchIfMinus, Mode::Relative)));
    assert_eq!(opcodes::get(0x50), Some((Instruction::BranchIfOverflowClear, Mode::Relative)));
    assert_eq!(opcodes::get(0x70), Some((Instruction::BranchIfOverflowSet, Mode::Relative)));
    assert_eq!(opcodes::get(0x90), Some((Instruction::BranchIfCarryClear, Mode::Relative)));
    assert_eq!(opcodes::get(0xb0), Some((Instruction::BranchIfCarrySet, Mode::Relative)));
    assert_eq!(opcodes::get(0xd0), Some((Instruction::BranchIfNotEqual, Mode::Relative)));
    assert_eq!(opcodes::get(0xf0), Some((Instruction::BranchIfEqual, Mode::Relative)));
}

#[test]
fn irregular_opcodes_decode() {
    assert_eq!(opcodes::get(0x00), Some((Instruction::Break, Mode::Implied)));
    assert_eq!(opcodes::get(0x20), Some((Instruction::JumpSubroutine, Mode::Absolute)));
    assert_eq!(opcodes::get(0x40), Some((Instruction::ReturnFromInterrupt, Mode::Implied)));
    assert_eq!(opcodes::get(0x60), Some((Instruction::ReturnFromSubroutine, Mode::Implied)));
    assert_eq!(opcodes::get(0x4c), Some((Instruction::Jump, Mode::Absolute)));
    assert_eq!(opcodes::get(0x6c), Some((Instruction::Jump, Mode::Indirect)));
    assert_eq!(opcodes::get(0xea), Some((Instruction::NoOperation, Mode::Implied)));
    assert_eq!(opcodes::get(0x0a), Some((Instruction::ArithmeticShiftLeft, Mode::Accumulator)));
    assert_eq!(opcodes::get(0x96), Some((Instruction::StoreX, Mode::ZeroPageY)));
    assert_eq!(opcodes::get(0xb6), Some((Instruction::LoadX, Mode::ZeroPageY)));
    assert_eq!(opcodes::get(0xbe), Some((Instruction::LoadX, Mode::AbsoluteY)));
    assert_eq!(opcodes::get(0x24), Some((Instruction::BitSet, Mode::ZeroPage)));
    assert_eq!(opcodes::get(0x48), Some((Instruction::PushAccumulator, Mode::Implied)));
    assert_eq!(opcodes::get(0x68), Some((Instruction::PullAccumulator, Mode::Implied)));
    assert_eq!(opcodes::get(0x08), Some((Instruction::PushProcessorStatus, Mode::Implied)));
    assert_eq!(opcodes::get(0x28), Some((Instruction::PullProcessorStatus, Mode::Implied)));
}

#[test]
fn every_instruction_kind_is_assigned() {
    let mut kinds: Vec<Instruction> = Vec::new();
    for opcode in 0..=255u8 {
        if let Some((instruction, _)) = opcodes::get(opcode) {
            if !kinds.contains(&instruction) {
                kinds.push(instruction);
            }
        }
    }
    assert_eq!(kinds.len(), 56);
}
