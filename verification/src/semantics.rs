//! What the instructions mean: a description of the processor as functions on
//! a machine state, against which the engine is verified.

use crate::instruction::Instruction;
use crate::memory::Memory;
use crate::mode::Mode;
use crate::opcodes::decode;
use crate::registers::Registers;
use crate::status_flags::{digit, StatusFlags};
use vstd::prelude::*;

verus! {

/// The state that instructions act on: the registers, the flags and the memory.
pub struct Machine<M: Memory> {
    pub registers: Registers,
    pub status_flags: StatusFlags,
    /// The memory, as the model that its implementation gives of it.
    pub memory: M::V,
}

/// `n` reduced to eight bits.
#[verifier::opaque]
pub open spec fn wrap8(n: int) -> u8 {
    (n % 256) as u8
}

/// `n` reduced to sixteen bits.
#[verifier::opaque]
pub open spec fn wrap16(n: int) -> u16 {
    (n % 65536) as u16
}

/// The number of the 256-byte page that an address lies in.
#[verifier::opaque]
pub open spec fn page(address: u16) -> int {
    address as int / 256
}

/// A byte read as a signed displacement.
pub open spec fn signed(offset: u8) -> int {
    if offset >= 128 {
        offset - 256
    } else {
        offset as int
    }
}

/// Whether a byte is negative when read as a signed number.
pub open spec fn negative(value: u8) -> bool {
    value >= 128
}

/// The address in the stack page that a stack pointer designates.
pub open spec fn stack_address(stack_pointer: u8) -> u16 {
    (0x100 + stack_pointer) as u16
}

/// The little-endian word at `address`: the low byte there, the high byte at
/// the next address, which follows 0xFFFF with 0x0000.
pub open spec fn word<M: Memory>(memory: M::V, address: u16) -> u16 {
    (M::peek(memory, address) + 256 * M::peek(memory, wrap16(address + 1))) as u16
}

/// The number of operand bytes that follow the opcode.
pub open spec fn operand_bytes(mode: Mode) -> int {
    match mode {
        Mode::Implied | Mode::Accumulator => 0,
        Mode::Immediate
        | Mode::Relative
        | Mode::ZeroPage
        | Mode::ZeroPageX
        | Mode::ZeroPageY
        | Mode::XIndirect
        | Mode::IndirectY => 1,
        Mode::Absolute | Mode::AbsoluteX | Mode::AbsoluteY | Mode::Indirect => 2,
    }
}

/// Whether an instruction can read its operand in this mode.
pub open spec fn readable(mode: Mode) -> bool {
    mode != Mode::Relative && mode != Mode::Indirect
}

/// Whether a read-modify-write instruction can work in this mode.
pub open spec fn modifiable(mode: Mode) -> bool {
    mode == Mode::Accumulator || mode == Mode::ZeroPage || mode == Mode::ZeroPageX || mode
        == Mode::Absolute || mode == Mode::AbsoluteX
}

/// Whether a store instruction can work in this mode.
pub open spec fn storable(mode: Mode) -> bool {
    mode == Mode::ZeroPage || mode == Mode::ZeroPageX || mode == Mode::ZeroPageY || mode
        == Mode::Absolute || mode == Mode::AbsoluteX || mode == Mode::AbsoluteY || mode
        == Mode::XIndirect || mode == Mode::IndirectY
}

/// One cycle where the condition holds, none where it does not.
pub open spec fn penalty(condition: bool) -> int {
    if condition {
        1
    } else {
        0
    }
}

/// The cycles that reading an operand costs, before any page-cross penalty.
/// For `Relative` this is the cost of reading a branch offset, and for
/// `Indirect` that of an indirect jump: no other operand is read in these modes.
pub open spec fn read_cycles(mode: Mode) -> int {
    match mode {
        Mode::Implied | Mode::Immediate | Mode::Accumulator | Mode::Relative => 2,
        Mode::ZeroPage => 3,
        Mode::ZeroPageX | Mode::ZeroPageY | Mode::Absolute | Mode::AbsoluteX | Mode::AbsoluteY => 4,
        Mode::IndirectY | Mode::Indirect => 5,
        Mode::XIndirect => 6,
    }
}

/// The cycles that writing a modified operand back costs on top of reading it.
/// With `AbsoluteX` the total does not depend on a page cross: the penalty of
/// the read is taken off again.
pub open spec fn write_back_cycles(mode: Mode, crossed: bool) -> int {
    match mode {
        Mode::Accumulator => 0,
        Mode::AbsoluteX => if crossed {
            2
        } else {
            3
        },
        _ => 2,
    }
}

/// The cycles that a read-modify-write instruction takes: those of the read
/// and of the write-back together, whether or not a page is crossed.
pub open spec fn modify_cycles(mode: Mode) -> int {
    match mode {
        Mode::Accumulator => 2,
        Mode::ZeroPage => 5,
        Mode::AbsoluteX => 7,
        _ => 6,
    }
}

/// The cycles that a store costs, before any page-cross penalty.
pub open spec fn store_cycles(mode: Mode) -> int {
    match mode {
        Mode::Accumulator => 0,
        Mode::ZeroPage => 3,
        Mode::IndirectY => 5,
        Mode::XIndirect => 6,
        _ => 4,
    }
}

/// The cycles that a jump, a subroutine call, a return or a break takes. A
/// break takes two, as every instruction without an operand does at least.
pub open spec fn flow_cycles(instruction: Instruction, mode: Mode) -> int {
    match instruction {
        Instruction::Jump => if mode == Mode::Indirect {
            5
        } else {
            3
        },
        Instruction::JumpSubroutine
        | Instruction::ReturnFromSubroutine
        | Instruction::ReturnFromInterrupt => 6,
        _ => 2,
    }
}

/// The cycles that a push or a pull takes.
pub open spec fn stack_cycles(instruction: Instruction) -> int {
    match instruction {
        Instruction::PushAccumulator | Instruction::PushProcessorStatus => 3,
        _ => 4,
    }
}

/// The instructions that read an operand and keep the result in a register or
/// in the flags.
pub open spec fn reads_operand(instruction: Instruction) -> bool {
    match instruction {
        Instruction::AddWithCarry
        | Instruction::AndWithAccumulator
        | Instruction::BitSet
        | Instruction::CompareWithAccumulator
        | Instruction::CompareWithX
        | Instruction::CompareWithY
        | Instruction::ExclusiveOrWithAccumulator
        | Instruction::LoadAccumulator
        | Instruction::LoadX
        | Instruction::LoadY
        | Instruction::OrWithAccumulator
        | Instruction::SubtractWithCarry => true,
        _ => false,
    }
}

/// The instructions that read an operand, change it and write it back.
pub open spec fn modifies_operand(instruction: Instruction) -> bool {
    match instruction {
        Instruction::ArithmeticShiftLeft
        | Instruction::LogicalShiftRight
        | Instruction::RotateLeft
        | Instruction::RotateRight
        | Instruction::Increment
        | Instruction::Decrement => true,
        _ => false,
    }
}

/// The instructions that store a register.
pub open spec fn stores_register(instruction: Instruction) -> bool {
    match instruction {
        Instruction::StoreAccumulator | Instruction::StoreX | Instruction::StoreY => true,
        _ => false,
    }
}

/// The conditional branches.
pub open spec fn branches(instruction: Instruction) -> bool {
    match instruction {
        Instruction::BranchIfCarryClear
        | Instruction::BranchIfCarrySet
        | Instruction::BranchIfEqual
        | Instruction::BranchIfMinus
        | Instruction::BranchIfNotEqual
        | Instruction::BranchIfPlus
        | Instruction::BranchIfOverflowClear
        | Instruction::BranchIfOverflowSet => true,
        _ => false,
    }
}

/// The jumps, the subroutine call and the returns, and the break.
pub open spec fn controls_flow(instruction: Instruction) -> bool {
    match instruction {
        Instruction::Jump
        | Instruction::JumpSubroutine
        | Instruction::ReturnFromSubroutine
        | Instruction::ReturnFromInterrupt
        | Instruction::Break => true,
        _ => false,
    }
}

/// The instructions that push a register or pull one.
pub open spec fn uses_stack(instruction: Instruction) -> bool {
    match instruction {
        Instruction::PushAccumulator
        | Instruction::PushProcessorStatus
        | Instruction::PullAccumulator
        | Instruction::PullProcessorStatus => true,
        _ => false,
    }
}

/// The transfers between registers, and the increments and decrements of the
/// index registers.
pub open spec fn moves_registers(instruction: Instruction) -> bool {
    match instruction {
        Instruction::TransferAccumulatorToX
        | Instruction::TransferAccumulatorToY
        | Instruction::TransferStackPointerToX
        | Instruction::TransferXToAccumulator
        | Instruction::TransferXToStackPointer
        | Instruction::TransferYToAccumulator
        | Instruction::IncrementX
        | Instruction::IncrementY
        | Instruction::DecrementX
        | Instruction::DecrementY => true,
        _ => false,
    }
}

/// Whether the instruction can be carried out in the given addressing mode.
pub open spec fn supported(instruction: Instruction, mode: Mode) -> bool {
    if reads_operand(instruction) {
        readable(mode)
    } else if modifies_operand(instruction) {
        modifiable(mode)
    } else if stores_register(instruction) {
        storable(mode)
    } else if instruction == Instruction::Jump {
        mode == Mode::Absolute || mode == Mode::Indirect
    } else {
        true
    }
}

/// Whether a conditional branch is taken with the given flags.
pub open spec fn branch_taken(instruction: Instruction, flags: StatusFlags) -> bool {
    match instruction {
        Instruction::BranchIfCarryClear => !flags.carry,
        Instruction::BranchIfCarrySet => flags.carry,
        Instruction::BranchIfEqual => flags.zero,
        Instruction::BranchIfNotEqual => !flags.zero,
        Instruction::BranchIfMinus => flags.negative,
        Instruction::BranchIfPlus => !flags.negative,
        Instruction::BranchIfOverflowClear => !flags.overflow,
        Instruction::BranchIfOverflowSet => flags.overflow,
        _ => false,
    }
}

/// What a read-modify-write instruction makes of an operand, given the carry
/// flag before it.
pub open spec fn modified(instruction: Instruction, operand: u8, carry: bool) -> u8 {
    match instruction {
        Instruction::ArithmeticShiftLeft => wrap8(operand * 2),
        Instruction::RotateLeft => wrap8(
            operand * 2 + if carry {
                1int
            } else {
                0int
            },
        ),
        Instruction::LogicalShiftRight => wrap8(operand as int / 2),
        Instruction::RotateRight => wrap8(
            operand as int / 2 + if carry {
                128int
            } else {
                0int
            },
        ),
        Instruction::Increment => wrap8(operand + 1),
        Instruction::Decrement => wrap8(operand - 1),
        _ => operand,
    }
}

/// The carry flag after a read-modify-write instruction: the bit that a shift
/// or rotation pushes out. Increments and decrements leave the flag alone.
pub open spec fn modified_carry(instruction: Instruction, operand: u8, carry: bool) -> bool {
    match instruction {
        Instruction::ArithmeticShiftLeft | Instruction::RotateLeft => operand >= 128,
        Instruction::LogicalShiftRight | Instruction::RotateRight => digit(operand, 0x01),
        _ => carry,
    }
}

impl<M: Memory> Machine<M> {
    /// The byte that the program counter points at.
    pub open spec fn imm8(self) -> u8 {
        M::peek(self.memory, self.registers.program_counter)
    }

    /// The word that the program counter points at.
    pub open spec fn imm16(self) -> u16 {
        word::<M>(self.memory, self.registers.program_counter)
    }

    /// The machine with the program counter moved on by `n`.
    pub open spec fn advance(self, n: int) -> Self {
        Machine {
            registers: Registers {
                program_counter: wrap16(self.registers.program_counter + n),
                ..self.registers
            },
            ..self
        }
    }

    /// The machine with the program counter set to `target`.
    pub open spec fn jump(self, target: u16) -> Self {
        Machine { registers: Registers { program_counter: target, ..self.registers }, ..self }
    }

    /// The machine with `value` in the accumulator.
    pub open spec fn with_a(self, value: u8) -> Self {
        Machine { registers: Registers { accumulator: value, ..self.registers }, ..self }
    }

    /// The machine with `value` in the X register.
    pub open spec fn with_x(self, value: u8) -> Self {
        Machine { registers: Registers { x: value, ..self.registers }, ..self }
    }

    /// The machine with `value` in the Y register.
    pub open spec fn with_y(self, value: u8) -> Self {
        Machine { registers: Registers { y: value, ..self.registers }, ..self }
    }

    /// The machine with `value` in the stack pointer.
    pub open spec fn with_sp(self, value: u8) -> Self {
        Machine { registers: Registers { stack_pointer: value, ..self.registers }, ..self }
    }

    /// The machine with the given flags.
    pub open spec fn with_flags(self, flags: StatusFlags) -> Self {
        Machine { status_flags: flags, ..self }
    }

    /// The machine with the zero and negative flags set from `value`.
    pub open spec fn with_zn(self, value: u8) -> Self {
        self.with_flags(
            StatusFlags { zero: value == 0, negative: negative(value), ..self.status_flags },
        )
    }

    /// The machine with the carry flag set to `carry`.
    pub open spec fn with_carry(self, carry: bool) -> Self {
        self.with_flags(StatusFlags { carry, ..self.status_flags })
    }

    /// The machine after `value` was written to `address`.
    pub open spec fn store(self, address: u16, value: u8) -> Self {
        Machine { memory: M::poke(self.memory, address, value), ..self }
    }

    /// The machine after a push: the value goes where the stack pointer
    /// points, and the stack pointer moves down by one, from 0x00 to 0xFF.
    pub open spec fn push(self, value: u8) -> Self {
        self.store(stack_address(self.registers.stack_pointer), value).with_sp(
            wrap8(self.registers.stack_pointer - 1),
        )
    }

    /// The machine after a pop: the stack pointer moves up by one, from 0xFF
    /// to 0x00.
    pub open spec fn pop(self) -> Self {
        self.with_sp(wrap8(self.registers.stack_pointer + 1))
    }

    /// The value that a pop returns: the byte that the stack pointer points at
    /// once it has moved up.
    pub open spec fn top(self) -> u8 {
        M::peek(self.memory, stack_address(wrap8(self.registers.stack_pointer + 1)))
    }

    /// The address that the operand at the program counter designates, or
    /// `None` in the modes whose operand is not in memory (`Immediate`,
    /// `Accumulator`, `Implied`).
    #[verifier::opaque]
    pub open spec fn effective_address(self, mode: Mode) -> Option<u16> {
        match mode {
            Mode::Implied | Mode::Accumulator | Mode::Immediate => None,
            Mode::ZeroPage => Some(self.imm8() as u16),
            Mode::ZeroPageX => Some(wrap8(self.imm8() + self.registers.x) as u16),
            Mode::ZeroPageY => Some(wrap8(self.imm8() + self.registers.y) as u16),
            Mode::Absolute => Some(self.imm16()),
            Mode::AbsoluteX => Some(wrap16(self.imm16() + self.registers.x)),
            Mode::AbsoluteY => Some(wrap16(self.imm16() + self.registers.y)),
            Mode::Indirect => Some(word::<M>(self.memory, self.imm16())),
            Mode::XIndirect => Some(
                word::<M>(self.memory, wrap8(self.imm8() + self.registers.x) as u16),
            ),
            Mode::IndirectY => Some(
                wrap16(word::<M>(self.memory, self.imm8() as u16) + self.registers.y),
            ),
            Mode::Relative => Some(
                wrap16(self.registers.program_counter + 1 + signed(self.imm8())),
            ),
        }
    }

    /// Whether indexing takes the effective address into another page than
    /// the one that the address before indexing lies in.
    #[verifier::opaque]
    pub open spec fn page_crossed(self, mode: Mode) -> bool {
        match mode {
            Mode::AbsoluteX => page(self.imm16()) != page(
                wrap16(self.imm16() + self.registers.x),
            ),
            Mode::AbsoluteY => page(self.imm16()) != page(
                wrap16(self.imm16() + self.registers.y),
            ),
            Mode::IndirectY => page(word::<M>(self.memory, self.imm8() as u16)) != page(
                wrap16(word::<M>(self.memory, self.imm8() as u16) + self.registers.y),
            ),
            _ => false,
        }
    }

    /// The operand that an instruction reads in the given mode.
    #[verifier::opaque]
    pub open spec fn operand(self, mode: Mode) -> u8 {
        match mode {
            Mode::Implied => 0,
            Mode::Accumulator => self.registers.accumulator,
            Mode::Immediate => self.imm8(),
            _ => M::peek(self.memory, self.effective_address(mode).unwrap()),
        }
    }

    /// The machine after `value` took the operand's place: in the accumulator
    /// or at the effective address.
    #[verifier::opaque]
    pub open spec fn replace_operand(self, mode: Mode, value: u8) -> Self {
        match self.effective_address(mode) {
            Some(address) => self.store(address, value),
            None => self.with_a(value),
        }
    }

    /// The machine after `operand` and the carry flag were added to the
    /// accumulator, in binary whatever the decimal flag says. The carry flag
    /// takes the ninth bit of the sum, and the overflow flag is set where the
    /// new carry and negative flags differ.
    pub open spec fn add_with_carry(self, operand: u8) -> Self {
        let sum = self.registers.accumulator + operand + if self.status_flags.carry {
            1int
        } else {
            0int
        };
        let result = wrap8(sum);
        let carry = sum > 0xff;
        self.with_a(result).with_flags(
            StatusFlags {
                carry,
                zero: result == 0,
                negative: negative(result),
                overflow: carry != negative(result),
                ..self.status_flags
            },
        )
    }

    /// The machine after `register` was compared with `operand`: only flags
    /// change.
    pub open spec fn compare(self, register: u8, operand: u8) -> Self {
        self.with_flags(
            StatusFlags {
                carry: register >= operand,
                zero: register == operand,
                negative: negative(wrap8(register - operand)),
                ..self.status_flags
            },
        )
    }

    /// The machine after an instruction that reads its operand into a register
    /// or into the flags.
    #[verifier::opaque]
    pub open spec fn read_instruction(self, instruction: Instruction, mode: Mode) -> Self {
        let operand = self.operand(mode);
        let next = self.advance(operand_bytes(mode));
        let accumulator = self.registers.accumulator;
        match instruction {
            Instruction::LoadAccumulator => next.with_a(operand).with_zn(operand),
            Instruction::LoadX => next.with_x(operand).with_zn(operand),
            Instruction::LoadY => next.with_y(operand).with_zn(operand),
            Instruction::AndWithAccumulator => next.with_a(accumulator & operand).with_zn(
                accumulator & operand,
            ),
            Instruction::OrWithAccumulator => next.with_a(accumulator | operand).with_zn(
                accumulator | operand,
            ),
            Instruction::ExclusiveOrWithAccumulator => next.with_a(accumulator ^ operand).with_zn(
                accumulator ^ operand,
            ),
            Instruction::AddWithCarry => next.add_with_carry(operand),
            Instruction::SubtractWithCarry => next.add_with_carry((255 - operand) as u8),
            Instruction::CompareWithAccumulator => next.compare(accumulator, operand),
            Instruction::CompareWithX => next.compare(self.registers.x, operand),
            Instruction::CompareWithY => next.compare(self.registers.y, operand),
            Instruction::BitSet => next.with_flags(
                StatusFlags {
                    zero: accumulator & operand == 0,
                    negative: negative(operand),
                    overflow: digit(operand, 0x40),
                    ..self.status_flags
                },
            ),
            _ => next,
        }
    }

    /// The machine after an instruction that reads its operand, changes it and
    /// writes it back.
    #[verifier::opaque]
    pub open spec fn modify_instruction(self, instruction: Instruction, mode: Mode) -> Self {
        let result = modified(instruction, self.operand(mode), self.status_flags.carry);
        let carry = modified_carry(instruction, self.operand(mode), self.status_flags.carry);
        self.replace_operand(mode, result).advance(operand_bytes(mode)).with_carry(carry).with_zn(
            result,
        )
    }

    /// The machine after an instruction that stores a register.
    #[verifier::opaque]
    pub open spec fn store_instruction(self, instruction: Instruction, mode: Mode) -> Self {
        let value = match instruction {
            Instruction::StoreX => self.registers.x,
            Instruction::StoreY => self.registers.y,
            _ => self.registers.accumulator,
        };
        self.replace_operand(mode, value).advance(operand_bytes(mode))
    }

    /// The machine after a jump, a subroutine call, a return or a break. A
    /// return from an interrupt returns as one from a subroutine does and
    /// leaves the flags alone; a break sets the program counter to zero and
    /// touches neither the stack nor the flags.
    #[verifier::opaque]
    pub open spec fn flow_instruction(self, instruction: Instruction, mode: Mode) -> Self {
        match instruction {
            Instruction::Jump => self.jump(self.effective_address(mode).unwrap()),
            Instruction::JumpSubroutine => self.call(),
            Instruction::ReturnFromSubroutine | Instruction::ReturnFromInterrupt => self.ret(),
            Instruction::Break => self.jump(0),
            _ => self,
        }
    }

    /// The machine after a push or a pull of the accumulator or of the status
    /// byte.
    #[verifier::opaque]
    pub open spec fn stack_instruction(self, instruction: Instruction) -> Self {
        match instruction {
            Instruction::PushAccumulator => self.push(self.registers.accumulator),
            Instruction::PushProcessorStatus => self.push(self.status_flags.packed() as u8),
            Instruction::PullAccumulator => self.pop().with_a(self.top()).with_zn(self.top()),
            Instruction::PullProcessorStatus => self.pop().with_flags(
                StatusFlags::unpacked(self.top()),
            ),
            _ => self,
        }
    }

    /// The machine after a transfer between registers, or after an increment or
    /// a decrement of an index register. All but the transfer to the stack
    /// pointer set the zero and negative flags from what they write.
    #[verifier::opaque]
    pub open spec fn register_instruction(self, instruction: Instruction) -> Self {
        let registers = self.registers;
        match instruction {
            Instruction::TransferAccumulatorToX => self.with_x(registers.accumulator).with_zn(
                registers.accumulator,
            ),
            Instruction::TransferAccumulatorToY => self.with_y(registers.accumulator).with_zn(
                registers.accumulator,
            ),
            Instruction::TransferStackPointerToX => self.with_x(registers.stack_pointer).with_zn(
                registers.stack_pointer,
            ),
            Instruction::TransferXToAccumulator => self.with_a(registers.x).with_zn(registers.x),
            Instruction::TransferYToAccumulator => self.with_a(registers.y).with_zn(registers.y),
            Instruction::TransferXToStackPointer => self.with_sp(registers.x),
            Instruction::IncrementX => self.with_x(wrap8(registers.x + 1)).with_zn(
                wrap8(registers.x + 1),
            ),
            Instruction::IncrementY => self.with_y(wrap8(registers.y + 1)).with_zn(
                wrap8(registers.y + 1),
            ),
            Instruction::DecrementX => self.with_x(wrap8(registers.x - 1)).with_zn(
                wrap8(registers.x - 1),
            ),
            Instruction::DecrementY => self.with_y(wrap8(registers.y - 1)).with_zn(
                wrap8(registers.y - 1),
            ),
            _ => self,
        }
    }

    /// The machine after an instruction that sets or clears one flag, or does
    /// nothing at all.
    #[verifier::opaque]
    pub open spec fn flag_instruction(self, instruction: Instruction) -> Self {
        let flags = self.status_flags;
        match instruction {
            Instruction::ClearCarry => self.with_carry(false),
            Instruction::SetCarry => self.with_carry(true),
            Instruction::ClearDecimal => self.with_flags(StatusFlags { decimal: false, ..flags }),
            Instruction::SetDecimal => self.with_flags(StatusFlags { decimal: true, ..flags }),
            Instruction::ClearInterrupt => self.with_flags(
                StatusFlags { interrupt: false, ..flags },
            ),
            Instruction::SetInterruptDisable => self.with_flags(
                StatusFlags { interrupt: true, ..flags },
            ),
            Instruction::ClearOverflow => self.with_flags(StatusFlags { overflow: false, ..flags }),
            _ => self,
        }
    }

    /// The machine after the instruction was carried out, where the program
    /// counter of `self` points just behind the opcode.
    pub open spec fn execute(self, instruction: Instruction, mode: Mode) -> Self {
        if reads_operand(instruction) {
            self.read_instruction(instruction, mode)
        } else if modifies_operand(instruction) {
            self.modify_instruction(instruction, mode)
        } else if stores_register(instruction) {
            self.store_instruction(instruction, mode)
        } else if branches(instruction) {
            self.branch(branch_taken(instruction, self.status_flags))
        } else if controls_flow(instruction) {
            self.flow_instruction(instruction, mode)
        } else if uses_stack(instruction) {
            self.stack_instruction(instruction)
        } else if moves_registers(instruction) {
            self.register_instruction(instruction)
        } else {
            self.flag_instruction(instruction)
        }
    }

    /// The machine after a conditional branch whose offset byte the program
    /// counter points at: the program counter moves past the offset and, where
    /// the branch is taken, on by the signed offset.
    pub open spec fn branch(self, taken: bool) -> Self {
        if taken {
            self.jump(self.effective_address(Mode::Relative).unwrap())
        } else {
            self.advance(1)
        }
    }

    /// The address that a subroutine call pushes: that of the last byte of
    /// the call instruction, whose operand the program counter points at.
    pub open spec fn return_address(self) -> u16 {
        wrap16(self.registers.program_counter + 1)
    }

    /// The machine after a subroutine call whose operand the program counter
    /// points at. The return address is pushed, high byte first, and the
    /// target is read after that.
    pub open spec fn call(self) -> Self {
        let pushed = self.push(page(self.return_address()) as u8).push(
            wrap8(self.return_address() as int),
        );
        pushed.jump(pushed.imm16())
    }

    /// The machine after a return: two bytes are popped, low byte first, and
    /// the program counter is set to the address behind the one they give.
    pub open spec fn ret(self) -> Self {
        let low = self.top();
        let high = self.pop().top();
        self.pop().pop().jump(wrap16(low + 256 * high + 1))
    }

    /// The cycles that a conditional branch takes: two, and one more where it
    /// is taken into another page than the one behind the offset byte.
    pub open spec fn branch_cycles(self, taken: bool) -> int {
        2 + penalty(
            taken && page(self.advance(1).registers.program_counter) != page(
                self.branch(true).registers.program_counter,
            ),
        )
    }

    /// The cycles that the instruction takes, where the program counter of
    /// `self` points just behind the opcode.
    pub open spec fn cycles(self, instruction: Instruction, mode: Mode) -> int {
        let crossed = self.page_crossed(mode);
        if reads_operand(instruction) {
            read_cycles(mode) + penalty(crossed)
        } else if modifies_operand(instruction) {
            modify_cycles(mode)
        } else if stores_register(instruction) {
            store_cycles(mode) + penalty(mode == Mode::AbsoluteY && crossed)
        } else if branches(instruction) {
            self.branch_cycles(branch_taken(instruction, self.status_flags))
        } else if controls_flow(instruction) {
            flow_cycles(instruction, mode)
        } else if uses_stack(instruction) {
            stack_cycles(instruction)
        } else {
            2
        }
    }

    /// The opcode byte that the next step fetches.
    pub open spec fn opcode(self) -> u8 {
        self.imm8()
    }

    /// The machine after one step: the opcode at the program counter is
    /// fetched and the instruction it stands for is carried out. An unassigned
    /// opcode leaves the machine with the program counter behind the opcode.
    pub open spec fn step(self) -> Self {
        match decode(self.opcode()) {
            Some((instruction, mode)) => self.advance(1).execute(instruction, mode),
            None => self.advance(1),
        }
    }

    /// The cycles that one step takes; none for an unassigned opcode.
    pub open spec fn step_cycles(self) -> int {
        match decode(self.opcode()) {
            Some((instruction, mode)) => self.advance(1).cycles(instruction, mode),
            None => 0,
        }
    }

    /// The machine after `n` steps.
    pub open spec fn steps(self, n: nat) -> Self
        decreases n,
    {
        if n == 0 {
            self
        } else {
            self.steps((n - 1) as nat).step()
        }
    }

    /// The cycles that `n` steps take together.
    pub open spec fn steps_cycles(self, n: nat) -> int
        decreases n,
    {
        if n == 0 {
            0
        } else {
            self.steps_cycles((n - 1) as nat) + self.steps((n - 1) as nat).step_cycles()
        }
    }

    /// The machine after the bytes of `values` were pushed, the first one
    /// first.
    pub open spec fn push_all(self, values: Seq<u8>) -> Self
        decreases values.len(),
    {
        if values.len() == 0 {
            self
        } else {
            self.push(values.first()).push_all(values.drop_first())
        }
    }

    /// The machine after `n` pops.
    pub open spec fn pop_times(self, n: nat) -> Self
        decreases n,
    {
        if n == 0 {
            self
        } else {
            self.pop().pop_times((n - 1) as nat)
        }
    }
}

/// Reducing to eight bits leaves a byte as it is; one step past either end of
/// the range comes back in at the other end.
pub proof fn lemma_wrap8(n: int)
    ensures
        0 <= n < 0x100 ==> wrap8(n) == n,
        0x100 <= n < 0x200 ==> wrap8(n) == n - 0x100,
        -0x100 <= n < 0 ==> wrap8(n) == n + 0x100,
{
    reveal(wrap8);
}

/// Reducing a sum to eight bits does not depend on whether a summand was
/// reduced before.
pub proof fn lemma_wrap8_add(a: int, b: int)
    ensures
        wrap8(wrap8(a) + b) == wrap8(a + b),
{
    reveal(wrap8);
    let q = a / 256;
    assert(a % 256 == a - 256 * q);
    assert((a - 256 * q + b) % 256 == (a + b) % 256) by {
        vstd::arithmetic::div_mod::lemma_mod_multiples_vanish(-q, a + b, 256);
    }
}

/// Reducing a sum to sixteen bits does not depend on whether a summand was
/// reduced before.
pub proof fn lemma_wrap16_add(a: int, b: int)
    ensures
        wrap16(wrap16(a) + b) == wrap16(a + b),
{
    reveal(wrap16);
    let q = a / 65536;
    assert(a % 65536 == a - 65536 * q);
    assert((a - 65536 * q + b) % 65536 == (a + b) % 65536) by {
        vstd::arithmetic::div_mod::lemma_mod_multiples_vanish(-q, a + b, 65536);
    }
}

/// Moving the program counter by nothing changes nothing.
pub proof fn lemma_advance_zero<M: Memory>(machine: Machine<M>)
    ensures
        machine.advance(0) == machine,
{
    reveal(wrap16);
}

/// Moving the program counter on and back by the same distance changes
/// nothing.
pub proof fn lemma_advance_back<M: Memory>(machine: Machine<M>, n: int)
    ensures
        machine.advance(n).advance(-n) == machine,
{
    lemma_wrap16_add(machine.registers.program_counter + n, -n);
    lemma_advance_zero(machine);
}

} // verus!
