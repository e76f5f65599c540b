//! The core of a cycle-counting interpreter for an 8-bit microprocessor of the
//! MOS 6502 family.
//!
//! The engine, [`CPU`], executes one instruction at a time against a 64 KiB
//! address space that an embedder supplies through the [`memory::Memory`]
//! trait. [`opcodes`] holds the decoder, [`semantics`] describes what each
//! instruction does to the registers, the flags and the memory and how many
//! cycles it takes, and [`laws`] proves what follows from that description.
//! Every function of the engine is verified against it.

mod bits;
pub mod instruction;
pub mod laws;
pub mod memory;
pub mod mode;
pub mod observer;
pub mod opcodes;
pub mod registers;
pub mod semantics;
pub mod sid;
pub mod status_flags;

use bits::{
    add16, add8, bit_six, complement, high_byte, is_negative, low_byte, make_word, pages_differ,
    shift_left, shift_right, sub16, sub8,
};
use instruction::Instruction;
use memory::Memory;
use mode::Mode;
use observer::StepObserver;
use opcodes::{decode, lemma_decoded_is_supported, OpCode};
use registers::Registers;
use semantics::{
    controls_flow, flow_cycles, lemma_advance_back, lemma_advance_zero, lemma_wrap16_add,
    modifiable, modifies_operand, modify_cycles, moves_registers, operand_bytes, penalty,
    read_cycles, readable, reads_operand, signed, stack_cycles, storable, store_cycles,
    stores_register, supported, uses_stack, word, write_back_cycles, Machine,
};
use status_flags::StatusFlags;
use vstd::pervasive::unreached;
use vstd::prelude::*;

verus! {

/// Why a step failed.
#[derive(Debug, Clone, Copy, PartialEq, Eq, Structural)]
pub enum StepError {
    /// The byte at the program counter is no assigned opcode.
    UnknownOpcode(u8),
}

/// The processor, bound to its memory.
pub struct CPU<M: Memory> {
    pub registers: Registers,
    pub status_flags: StatusFlags,
    pub memory: M,
    /// The cycles that the current step has taken so far.
    pub cycles: u64,
    /// The opcode that the last step decoded.
    pub current_opcode: OpCode,
    pub step_callback: Option<Box<dyn StepObserver>>,
}

impl<M: Memory> View for CPU<M> {
    type V = Machine<M>;

    open spec fn view(&self) -> Machine<M> {
        Machine {
            registers: self.registers,
            status_flags: self.status_flags,
            memory: self.memory@,
        }
    }
}

impl<M: Memory> CPU<M> {
    /// Whether `self` is `before` with the machine replaced by `machine` and
    /// the cycle count by `cycles`.
    pub open spec fn follows(self, before: Self, machine: Machine<M>, cycles: int) -> bool {
        &&& self@ == machine
        &&& self.cycles == cycles
        &&& self.current_opcode == before.current_opcode
        &&& self.step_callback == before.step_callback
    }

    /// Whether the cycle count can grow by `cycles` without overflow.
    pub open spec fn has_room(self, cycles: int) -> bool {
        self.cycles + cycles <= u64::MAX
    }

    pub fn new(memory: M) -> (cpu: CPU<M>)
        ensures
            cpu@ == (Machine::<M> {
                registers: Registers::initial(),
                status_flags: StatusFlags::cleared(),
                memory: memory@,
            }),
            cpu.cycles == 0,
            cpu.current_opcode is None,
            cpu.step_callback is None,
    {
        let cycles: u64 = 0;
        let registers = Registers::new();
        let status_flags = StatusFlags::new();
        let current_opcode = None;
        let step_callback = None;

        CPU { registers, memory, cycles, status_flags, current_opcode, step_callback }
    }

    /// Installs the observer, in place of an earlier one.
    pub fn set_step_callback(&mut self, fun: Box<dyn StepObserver>)
        ensures
            final(self).step_callback == Some(fun),
            final(self)@ == old(self)@,
            final(self).cycles == old(self).cycles,
            final(self).current_opcode == old(self).current_opcode,
    {
        let callback = Some(fun);
        self.step_callback = callback;
    }

    /// Resets the registers and the flags, and takes the program counter from
    /// the reset vector at 0xFFFC.
    pub fn reset(&mut self)
        ensures
            final(self).follows(
                *old(self),
                Machine {
                    registers: Registers {
                        program_counter: word::<M>(old(self).memory@, 0xfffc),
                        ..Registers::initial()
                    },
                    status_flags: StatusFlags::cleared(),
                    memory: old(self).memory@,
                },
                old(self).cycles as int,
            ),
    {
        let program_counter: u16 = self.read_word(0xfffc);
        self.reset_to(program_counter, 0x00);
    }

    /// Resets the registers and the flags, with the given program counter and
    /// accumulator.
    pub fn reset_to(&mut self, program_counter: u16, accumulator: u8)
        ensures
            final(self).follows(
                *old(self),
                Machine {
                    registers: Registers { program_counter, accumulator, ..Registers::initial() },
                    status_flags: StatusFlags::cleared(),
                    memory: old(self).memory@,
                },
                old(self).cycles as int,
            ),
    {
        self.registers = Registers::new();
        self.status_flags = StatusFlags::new();

        self.registers.accumulator = accumulator;
        self.registers.program_counter = program_counter;
    }

    /// Executes one instruction and returns the cycles it took.
    ///
    /// The byte at the program counter is fetched and decoded, the observer is
    /// called if there is one, and the instruction is carried out. A byte that
    /// is no assigned opcode fails the step, with the program counter behind
    /// that byte.
    pub fn step(&mut self) -> (result: Result<u64, StepError>)
        ensures
            final(self)@ == old(self)@.step(),
            final(self).current_opcode == decode(old(self)@.opcode()),
            final(self).step_callback == old(self).step_callback,
            final(self).cycles == old(self)@.step_cycles(),
            old(self).step_callback matches Some(observer) ==> observer.observed(
                &old(self)@.advance(1).registers,
                &old(self).status_flags,
                decode(old(self)@.opcode()),
                0,
            ),
            match result {
                Ok(cycles) => decode(old(self)@.opcode()) is Some && cycles == old(
                    self,
                )@.step_cycles() && cycles >= 2,
                Err(error) => decode(old(self)@.opcode()) is None && error
                    == StepError::UnknownOpcode(old(self)@.opcode()),
            },
    {
        self.cycles = 0;
        let opcode: u8 = self.read_byte_and_increment_pc();
        self.current_opcode = opcodes::get(opcode);

        match &self.step_callback {
            Some(step_callback) => {
                step_callback.observe(
                    &self.registers,
                    &self.status_flags,
                    self.current_opcode,
                    self.cycles,
                );
            },
            None => {},
        }

        proof {
            lemma_decoded_is_supported(opcode);
        }

        match self.current_opcode {
            Some((instruction, mode)) => {
                match instruction {
                    Instruction::AddWithCarry
                    | Instruction::AndWithAccumulator
                    | Instruction::BitSet
                    | Instruction::CompareWithAccumulator
                    | Instruction::CompareWithX
                    | Instruction::CompareWithY
                    | Instruction::ExclusiveOrWithAccumulator
                    | Instruction::LoadAccumulator
                    | Instruction::LoadX
                    | Instruction::LoadY
                    | Instruction::OrWithAccumulator
                    | Instruction::SubtractWithCarry => {
                        self.read_instruction(instruction, mode);
                    },
                    Instruction::ArithmeticShiftLeft
                    | Instruction::LogicalShiftRight
                    | Instruction::RotateLeft
                    | Instruction::RotateRight
                    | Instruction::Increment
                    | Instruction::Decrement => {
                        self.modify_instruction(instruction, mode);
                    },
                    Instruction::StoreAccumulator | Instruction::StoreX | Instruction::StoreY => {
                        self.store_instruction(instruction, mode);
                    },
                    Instruction::BranchIfCarryClear => {
                        self.branch(!self.status_flags.carry);
                    },
                    Instruction::BranchIfCarrySet => {
                        self.branch(self.status_flags.carry);
                    },
                    Instruction::BranchIfEqual => {
                        self.branch(self.status_flags.zero);
                    },
                    Instruction::BranchIfMinus => {
                        self.branch(self.status_flags.negative);
                    },
                    Instruction::BranchIfNotEqual => {
                        self.branch(!self.status_flags.zero);
                    },
                    Instruction::BranchIfPlus => {
                        self.branch(!self.status_flags.negative);
                    },
                    Instruction::BranchIfOverflowClear => {
                        self.branch(!self.status_flags.overflow);
                    },
                    Instruction::BranchIfOverflowSet => {
                        self.branch(self.status_flags.overflow);
                    },
                    Instruction::Jump
                    | Instruction::JumpSubroutine
                    | Instruction::ReturnFromSubroutine
                    | Instruction::ReturnFromInterrupt
                    | Instruction::Break => {
                        self.flow_instruction(instruction, mode);
                    },
                    Instruction::PushAccumulator
                    | Instruction::PushProcessorStatus
                    | Instruction::PullAccumulator
                    | Instruction::PullProcessorStatus => {
                        self.stack_instruction(instruction);
                    },
                    Instruction::TransferAccumulatorToX
                    | Instruction::TransferAccumulatorToY
                    | Instruction::TransferStackPointerToX
                    | Instruction::TransferXToAccumulator
                    | Instruction::TransferXToStackPointer
                    | Instruction::TransferYToAccumulator
                    | Instruction::IncrementX
                    | Instruction::IncrementY
                    | Instruction::DecrementX
                    | Instruction::DecrementY => {
                        self.register_instruction(instruction);
                    },
                    Instruction::ClearCarry
                    | Instruction::SetCarry
                    | Instruction::ClearDecimal
                    | Instruction::SetDecimal
                    | Instruction::ClearInterrupt
                    | Instruction::SetInterruptDisable
                    | Instruction::ClearOverflow
                    | Instruction::NoOperation => {
                        self.flag_instruction(instruction);
                    },
                };
                Ok(self.cycles)
            },
            None => Err(StepError::UnknownOpcode(opcode)),
        }
    }

    /// Carries out an instruction that reads its operand into a register or
    /// into the flags.
    fn read_instruction(&mut self, instruction: Instruction, mode: Mode)
        requires
            reads_operand(instruction),
            readable(mode),
            old(self).has_room(7),
        ensures
            final(self).follows(
                *old(self),
                old(self)@.read_instruction(instruction, mode),
                old(self).cycles + read_cycles(mode) + penalty(old(self)@.page_crossed(mode)),
            ),
    {
        proof {
            reveal(Machine::read_instruction);
        }
        let accumulator: u8 = self.registers.accumulator;
        let x: u8 = self.registers.x;
        let y: u8 = self.registers.y;
        let operand: u8 = self.get_address(mode);
        match instruction {
            Instruction::AddWithCarry => {
                self.add_to_accumulator(operand);
            },
            Instruction::SubtractWithCarry => {
                self.add_to_accumulator(complement(operand));
            },
            Instruction::AndWithAccumulator => {
                self.load_accumulator(accumulator & operand);
            },
            Instruction::OrWithAccumulator => {
                self.load_accumulator(accumulator | operand);
            },
            Instruction::ExclusiveOrWithAccumulator => {
                self.load_accumulator(accumulator ^ operand);
            },
            Instruction::LoadAccumulator => {
                self.load_accumulator(operand);
            },
            Instruction::LoadX => {
                self.load_x(operand);
            },
            Instruction::LoadY => {
                self.load_y(operand);
            },
            Instruction::CompareWithAccumulator => {
                self.compare_with(accumulator, operand);
            },
            Instruction::CompareWithX => {
                self.compare_with(x, operand);
            },
            Instruction::CompareWithY => {
                self.compare_with(y, operand);
            },
            Instruction::BitSet => {
                self.status_flags.zero = (accumulator & operand) == 0;
                self.status_flags.negative = is_negative(operand);
                self.status_flags.overflow = bit_six(operand);
            },
            _ => unreached(),
        }
    }

    /// Carries out an instruction that reads its operand, changes it and
    /// writes it back: a shift, a rotation, an increment or a decrement.
    fn modify_instruction(&mut self, instruction: Instruction, mode: Mode)
        requires
            modifies_operand(instruction),
            modifiable(mode),
            old(self).has_room(10),
        ensures
            final(self).follows(
                *old(self),
                old(self)@.modify_instruction(instruction, mode),
                old(self).cycles + modify_cycles(mode),
            ),
    {
        proof {
            reveal(Machine::modify_instruction);
            reveal(Machine::page_crossed);
            lemma_advance_back(self@, operand_bytes(mode));
        }
        let carry: bool = self.status_flags.carry;
        let operand: u8 = self.get_address(mode);
        let (result, carry): (u8, bool) = match instruction {
            Instruction::ArithmeticShiftLeft => shift_left(operand, false),
            Instruction::RotateLeft => shift_left(operand, carry),
            Instruction::LogicalShiftRight => shift_right(operand, false),
            Instruction::RotateRight => shift_right(operand, carry),
            Instruction::Increment => (add8(operand, 1), carry),
            Instruction::Decrement => (sub8(operand, 1), carry),
            _ => unreached(),
        };
        self.set_address(mode, result);
        self.status_flags.carry = carry;
        self.status_flags.zero = result == 0;
        self.status_flags.negative = is_negative(result);
    }

    /// Carries out an instruction that stores a register.
    fn store_instruction(&mut self, instruction: Instruction, mode: Mode)
        requires
            stores_register(instruction),
            storable(mode),
            old(self).has_room(6),
        ensures
            final(self).follows(
                *old(self),
                old(self)@.store_instruction(instruction, mode),
                old(self).cycles + store_cycles(mode) + penalty(
                    mode == Mode::AbsoluteY && old(self)@.page_crossed(mode),
                ),
            ),
    {
        proof {
            reveal(Machine::store_instruction);
        }
        match instruction {
            Instruction::StoreX => {
                self.put_address(mode, self.registers.x);
            },
            Instruction::StoreY => {
                self.put_address(mode, self.registers.y);
            },
            Instruction::StoreAccumulator => {
                self.put_address(mode, self.registers.accumulator);
            },
            _ => unreached(),
        }
    }

    /// Carries out a jump, a subroutine call, a return or a break.
    fn flow_instruction(&mut self, instruction: Instruction, mode: Mode)
        requires
            controls_flow(instruction),
            supported(instruction, mode),
            old(self).has_room(6),
        ensures
            final(self).follows(
                *old(self),
                old(self)@.flow_instruction(instruction, mode),
                old(self).cycles + flow_cycles(instruction, mode),
            ),
    {
        proof {
            reveal(Machine::flow_instruction);
            reveal(Machine::effective_address);
        }
        match instruction {
            Instruction::Jump => {
                self.cycles += 3;

                let address: u16 = self.read_word_and_increment_pc();
                match mode {
                    Mode::Indirect => {
                        let address2: u16 = self.read_word(address);
                        self.registers.program_counter = address2;
                        self.cycles += 2;
                    },
                    _ => {
                        self.registers.program_counter = address;
                    },
                }
            },
            Instruction::JumpSubroutine => {
                self.cycles += 6;
                self.call();
            },
            Instruction::ReturnFromInterrupt | Instruction::ReturnFromSubroutine => {
                self.cycles += 6;
                self.ret();
            },
            Instruction::Break => {
                self.cycles += 2;
                self.registers.program_counter = 0;
            },
            _ => unreached(),
        }
    }

    /// Pushes the address of the last byte of the call instruction, high byte
    /// first, and jumps to the target that the program counter points at.
    fn call(&mut self)
        ensures
            final(self).follows(*old(self), old(self)@.call(), old(self).cycles as int),
    {
        let return_address: u16 = add16(self.registers.program_counter, 1);
        self.push(high_byte(return_address));
        self.push(low_byte(return_address));
        self.registers.program_counter = self.read_word_and_increment_pc();
    }

    /// Pops an address, low byte first, and jumps to the address behind it.
    fn ret(&mut self)
        ensures
            final(self).follows(*old(self), old(self)@.ret(), old(self).cycles as int),
    {
        let low: u8 = self.pop();
        let high: u8 = self.pop();
        self.registers.program_counter = add16(make_word(low, high), 1);
    }

    /// Carries out a push or a pull of the accumulator or of the status byte.
    fn stack_instruction(&mut self, instruction: Instruction)
        requires
            uses_stack(instruction),
            old(self).has_room(4),
        ensures
            final(self).follows(
                *old(self),
                old(self)@.stack_instruction(instruction),
                old(self).cycles + stack_cycles(instruction),
            ),
    {
        proof {
            reveal(Machine::stack_instruction);
        }
        match instruction {
            Instruction::PushAccumulator => {
                self.cycles += 3;
                self.push(self.registers.accumulator);
            },
            Instruction::PushProcessorStatus => {
                self.cycles += 3;
                self.push(self.status_flags.to_byte());
            },
            Instruction::PullAccumulator => {
                self.cycles += 4;
                let value: u8 = self.pop();
                self.load_accumulator(value);
            },
            Instruction::PullProcessorStatus => {
                self.cycles += 4;
                let value: u8 = self.pop();
                self.status_flags = self.status_flags.from_byte(value);
            },
            _ => unreached(),
        }
    }

    /// Carries out a transfer between registers, or an increment or a
    /// decrement of an index register.
    fn register_instruction(&mut self, instruction: Instruction)
        requires
            moves_registers(instruction),
            old(self).has_room(2),
        ensures
            final(self).follows(
                *old(self),
                old(self)@.register_instruction(instruction),
                old(self).cycles + 2,
            ),
    {
        proof {
            reveal(Machine::register_instruction);
        }
        self.cycles += 2;
        match instruction {
            Instruction::TransferAccumulatorToX => {
                self.load_x(self.registers.accumulator);
            },
            Instruction::TransferAccumulatorToY => {
                self.load_y(self.registers.accumulator);
            },
            Instruction::TransferStackPointerToX => {
                self.load_x(self.registers.stack_pointer);
            },
            Instruction::TransferXToAccumulator => {
                self.load_accumulator(self.registers.x);
            },
            Instruction::TransferYToAccumulator => {
                self.load_accumulator(self.registers.y);
            },
            Instruction::TransferXToStackPointer => {
                self.registers.stack_pointer = self.registers.x;
            },
            Instruction::IncrementX => {
                self.load_x(add8(self.registers.x, 1));
            },
            Instruction::IncrementY => {
                self.load_y(add8(self.registers.y, 1));
            },
            Instruction::DecrementX => {
                self.load_x(sub8(self.registers.x, 1));
            },
            Instruction::DecrementY => {
                self.load_y(sub8(self.registers.y, 1));
            },
            _ => unreached(),
        }
    }

    /// Carries out an instruction that sets or clears one flag, or the
    /// instruction that does nothing.
    fn flag_instruction(&mut self, instruction: Instruction)
        requires
            old(self).has_room(2),
        ensures
            final(self).follows(
                *old(self),
                old(self)@.flag_instruction(instruction),
                old(self).cycles + 2,
            ),
    {
        proof {
            reveal(Machine::flag_instruction);
        }
        self.cycles += 2;
        match instruction {
            Instruction::ClearCarry => {
                self.status_flags.carry = false;
            },
            Instruction::SetCarry => {
                self.status_flags.carry = true;
            },
            Instruction::ClearDecimal => {
                self.status_flags.decimal = false;
            },
            Instruction::SetDecimal => {
                self.status_flags.decimal = true;
            },
            Instruction::ClearInterrupt => {
                self.status_flags.interrupt = false;
            },
            Instruction::SetInterruptDisable => {
                self.status_flags.interrupt = true;
            },
            Instruction::ClearOverflow => {
                self.status_flags.overflow = false;
            },
            _ => {},
        }
    }

    /// Puts `value` into the accumulator and sets the zero and negative flags
    /// from it.
    fn load_accumulator(&mut self, value: u8)
        ensures
            final(self).follows(
                *old(self),
                old(self)@.with_a(value).with_zn(value),
                old(self).cycles as int,
            ),
    {
        self.registers.accumulator = value;
        self.status_flags.zero = value == 0;
        self.status_flags.negative = is_negative(value);
    }

    /// Puts `value` into the X register and sets the zero and negative flags
    /// from it.
    fn load_x(&mut self, value: u8)
        ensures
            final(self).follows(
                *old(self),
                old(self)@.with_x(value).with_zn(value),
                old(self).cycles as int,
            ),
    {
        self.registers.x = value;
        self.status_flags.zero = value == 0;
        self.status_flags.negative = is_negative(value);
    }

    /// Puts `value` into the Y register and sets the zero and negative flags
    /// from it.
    fn load_y(&mut self, value: u8)
        ensures
            final(self).follows(
                *old(self),
                old(self)@.with_y(value).with_zn(value),
                old(self).cycles as int,
            ),
    {
        self.registers.y = value;
        self.status_flags.zero = value == 0;
        self.status_flags.negative = is_negative(value);
    }

    /// Adds `operand` and the carry flag to the accumulator and sets the
    /// carry, zero, negative and overflow flags from the sum.
    fn add_to_accumulator(&mut self, operand: u8)
        ensures
            final(self).follows(
                *old(self),
                old(self)@.add_with_carry(operand),
                old(self).cycles as int,
            ),
    {
        let carry: u16 = if self.status_flags.carry {
            1
        } else {
            0
        };
        let tmp: u16 = self.registers.accumulator as u16 + operand as u16 + carry;
        self.status_flags.carry = tmp > 0xff;
        self.registers.accumulator = low_byte(tmp);
        self.status_flags.zero = self.registers.accumulator == 0;
        self.status_flags.negative = is_negative(self.registers.accumulator);
        self.status_flags.overflow = self.status_flags.carry != self.status_flags.negative;
    }

    /// Sets the carry, zero and negative flags from comparing `register` with
    /// `operand`.
    fn compare_with(&mut self, register: u8, operand: u8)
        ensures
            final(self).follows(
                *old(self),
                old(self)@.compare(register, operand),
                old(self).cycles as int,
            ),
    {
        let tmp: u8 = sub8(register, operand);
        self.status_flags.zero = register == operand;
        self.status_flags.negative = is_negative(tmp);
        self.status_flags.carry = register >= operand;
    }

    /// Writes `value` where the stack pointer points and moves the stack
    /// pointer down.
    pub fn push(&mut self, value: u8)
        ensures
            final(self).follows(*old(self), old(self)@.push(value), old(self).cycles as int),
    {
        self.write_memory(0x100 + self.registers.stack_pointer as u16, value);
        self.registers.stack_pointer = sub8(self.registers.stack_pointer, 1);
    }

    /// Moves the stack pointer up and reads the byte that it then points at.
    pub fn pop(&mut self) -> (value: u8)
        ensures
            value == old(self)@.top(),
            final(self).follows(*old(self), old(self)@.pop(), old(self).cycles as int),
    {
        self.registers.stack_pointer = add8(self.registers.stack_pointer, 1);
        self.read_byte(0x100 + self.registers.stack_pointer as u16)
    }

    /// Carries out a conditional branch whose offset byte the program counter
    /// points at. Reading the offset takes two cycles; a branch that is taken
    /// into another page takes one more.
    pub fn branch(&mut self, condition: bool)
        requires
            old(self).has_room(3),
        ensures
            final(self).follows(
                *old(self),
                old(self)@.branch(condition),
                old(self).cycles + old(self)@.branch_cycles(condition),
            ),
    {
        let offset: u8 = self.get_address(Mode::Immediate);
        let next: u16 = self.registers.program_counter;
        let target: u16 = if offset >= 0x80 {
            sub16(next, 0x100 - offset as u16)
        } else {
            add16(next, offset as u16)
        };
        proof {
            reveal(Machine::operand);
            reveal(Machine::page_crossed);
            reveal(Machine::effective_address);
            lemma_wrap16_add(old(self).registers.program_counter + 1, signed(offset));
        }
        if condition {
            if pages_differ(next, target) {
                self.cycles += 1;
            }
            self.registers.program_counter = target;
        }
    }

    /// Reads the little-endian word at `address`.
    pub fn read_word(&self, address: u16) -> (value: u16)
        ensures
            value == word::<M>(self.memory@, address),
    {
        make_word(self.read_byte(address), self.read_byte(add16(address, 1)))
    }

    /// Reads the byte at `address`.
    pub fn read_byte(&self, address: u16) -> (value: u8)
        ensures
            value == M::peek(self.memory@, address),
    {
        self.memory.read(address)
    }

    /// Reads the word at the program counter and moves the program counter
    /// past it.
    pub fn read_word_and_increment_pc(&mut self) -> (value: u16)
        ensures
            value == old(self)@.imm16(),
            final(self).follows(*old(self), old(self)@.advance(2), old(self).cycles as int),
    {
        let val: u16 = self.read_word(self.registers.program_counter);
        self.registers.program_counter = add16(self.registers.program_counter, 2);
        val
    }

    /// Reads the byte at the program counter and moves the program counter
    /// past it.
    pub fn read_byte_and_increment_pc(&mut self) -> (value: u8)
        ensures
            value == old(self)@.imm8(),
            final(self).follows(*old(self), old(self)@.advance(1), old(self).cycles as int),
    {
        let mem: u8 = self.read_byte(self.registers.program_counter);
        self.increment_pc();
        mem
    }

    fn write_memory(&mut self, address: u16, value: u8)
        ensures
            final(self).follows(
                *old(self),
                old(self)@.store(address, value),
                old(self).cycles as int,
            ),
    {
        self.memory.write(address, value);
    }

    fn increment_pc(&mut self)
        ensures
            final(self).follows(*old(self), old(self)@.advance(1), old(self).cycles as int),
    {
        self.registers.program_counter = add16(self.registers.program_counter, 1);
    }

    /// Reads the operand of an instruction whose operand bytes the program
    /// counter points at, and moves the program counter past them.
    fn get_address(&mut self, mode: Mode) -> (operand: u8)
        requires
            readable(mode),
            old(self).has_room(read_cycles(mode) + 1),
        ensures
            operand == old(self)@.operand(mode),
            final(self).follows(
                *old(self),
                old(self)@.advance(operand_bytes(mode)),
                old(self).cycles + read_cycles(mode) + penalty(old(self)@.page_crossed(mode)),
            ),
    {
        proof {
            reveal(Machine::effective_address);
            reveal(Machine::page_crossed);
            reveal(Machine::operand);
            lemma_advance_zero(self@);
        }
        match mode {
            Mode::Implied => {
                self.cycles += 2;
                0
            },
            Mode::Immediate => {
                self.cycles += 2;
                self.read_byte_and_increment_pc()
            },
            Mode::Absolute => {
                self.cycles += 4;
                let address: u16 = self.read_word_and_increment_pc();
                self.read_byte(address)
            },
            Mode::AbsoluteX => {
                self.cycles += 4;
                let address: u16 = self.read_word_and_increment_pc();
                let address2: u16 = add16(address, self.registers.x as u16);
                if pages_differ(address, address2) {
                    self.cycles += 1
                };
                self.read_byte(address2)
            },
            Mode::AbsoluteY => {
                self.cycles += 4;
                let address: u16 = self.read_word_and_increment_pc();
                let address2: u16 = add16(address, self.registers.y as u16);
                if pages_differ(address, address2) {
                    self.cycles += 1
                };
                self.read_byte(address2)
            },
            Mode::ZeroPage => {
                self.cycles += 3;
                let address: u16 = self.read_byte_and_increment_pc() as u16;
                self.read_byte(address)
            },
            Mode::ZeroPageX => {
                self.cycles += 4;
                let address: u8 = add8(self.read_byte_and_increment_pc(), self.registers.x);
                self.read_byte(address as u16)
            },
            Mode::ZeroPageY => {
                self.cycles += 4;
                let address: u8 = add8(self.read_byte_and_increment_pc(), self.registers.y);
                self.read_byte(address as u16)
            },
            Mode::IndirectY => {
                self.cycles += 5;
                let pointer: u16 = self.read_byte_and_increment_pc() as u16;
                let address2: u16 = self.read_word(pointer);
                let address: u16 = add16(address2, self.registers.y as u16);
                if pages_differ(address2, address) {
                    self.cycles += 1
                }
                self.read_byte(address)
            },
            Mode::XIndirect => {
                self.cycles += 6;
                let pointer: u8 = add8(self.read_byte_and_increment_pc(), self.registers.x);
                let address2: u16 = self.read_word(pointer as u16);
                self.read_byte(address2)
            },
            Mode::Accumulator => {
                self.cycles += 2;
                self.registers.accumulator
            },
            _ => unreached(),
        }
    }

    /// Writes `value` back in place of the operand that was just read: the
    /// operand bytes end where the program counter points.
    fn set_address(&mut self, mode: Mode, value: u8)
        requires
            modifiable(mode),
            old(self).has_room(3),
        ensures
            final(self).follows(
                *old(self),
                old(self)@.advance(-operand_bytes(mode)).replace_operand(mode, value).advance(
                    operand_bytes(mode),
                ),
                old(self).cycles + write_back_cycles(
                    mode,
                    old(self)@.advance(-operand_bytes(mode)).page_crossed(mode),
                ),
            ),
    {
        proof {
            reveal(Machine::effective_address);
            reveal(Machine::page_crossed);
            reveal(Machine::replace_operand);
            lemma_advance_zero(self@);
            lemma_advance_back(self@, -operand_bytes(mode));
        }
        match mode {
            Mode::Absolute => {
                self.cycles += 2;
                let address: u16 = self.read_word(sub16(self.registers.program_counter, 2));
                self.write_memory(address, value);
            },
            Mode::AbsoluteX => {
                self.cycles += 3;
                let address: u16 = self.read_word(sub16(self.registers.program_counter, 2));
                let address2: u16 = add16(address, self.registers.x as u16);
                if pages_differ(address, address2) {
                    self.cycles -= 1;
                }
                self.write_memory(address2, value);
            },
            Mode::ZeroPage => {
                self.cycles += 2;
                let address: u16 = self.read_byte(sub16(self.registers.program_counter, 1)) as u16;
                self.write_memory(address, value);
            },
            Mode::ZeroPageX => {
                self.cycles += 2;
                let address: u8 = add8(
                    self.read_byte(sub16(self.registers.program_counter, 1)),
                    self.registers.x,
                );
                self.write_memory(address as u16, value);
            },
            Mode::Accumulator => {
                self.registers.accumulator = value;
            },
            _ => unreached(),
        }
    }

    /// Stores `value` as the operand of an instruction whose operand bytes the
    /// program counter points at, and moves the program counter past them.
    fn put_address(&mut self, mode: Mode, value: u8)
        requires
            storable(mode) || mode == Mode::Accumulator,
            old(self).has_room(6),
        ensures
            final(self).follows(
                *old(self),
                old(self)@.replace_operand(mode, value).advance(operand_bytes(mode)),
                old(self).cycles + store_cycles(mode) + penalty(
                    mode == Mode::AbsoluteY && old(self)@.page_crossed(mode),
                ),
            ),
    {
        proof {
            reveal(Machine::effective_address);
            reveal(Machine::page_crossed);
            reveal(Machine::replace_operand);
            lemma_advance_zero(self@);
        }
        match mode {
            Mode::Absolute => {
                self.cycles += 4;
                let address: u16 = self.read_word_and_increment_pc();
                self.write_memory(address, value);
            },
            Mode::AbsoluteX => {
                self.cycles += 4;
                let address: u16 = self.read_word_and_increment_pc();
                let address2: u16 = add16(address, self.registers.x as u16);
                self.write_memory(address2, value);
            },
            Mode::AbsoluteY => {
                self.cycles += 4;
                let address: u16 = self.read_word_and_increment_pc();
                let address2: u16 = add16(address, self.registers.y as u16);
                if pages_differ(address, address2) {
                    self.cycles += 1
                };
                self.write_memory(address2, value);
            },
            Mode::ZeroPage => {
                self.cycles += 3;
                let address: u16 = self.read_byte_and_increment_pc() as u16;
                self.write_memory(address, value);
            },
            Mode::ZeroPageX => {
                self.cycles += 4;
                let address: u8 = add8(self.read_byte_and_increment_pc(), self.registers.x);
                self.write_memory(address as u16, value);
            },
            Mode::ZeroPageY => {
                self.cycles += 4;
                let address: u8 = add8(self.read_byte_and_increment_pc(), self.registers.y);
                self.write_memory(address as u16, value);
            },
            Mode::XIndirect => {
                self.cycles += 6;
                let pointer: u8 = add8(self.read_byte_and_increment_pc(), self.registers.x);
                let address2: u16 = self.read_word(pointer as u16);
                self.write_memory(address2, value);
            },
            Mode::IndirectY => {
                self.cycles += 5;
                let pointer: u16 = self.read_byte_and_increment_pc() as u16;
                let address2: u16 = self.read_word(pointer);
                let address: u16 = add16(address2, self.registers.y as u16);
                self.write_memory(address, value);
            },
            Mode::Accumulator => {
                self.registers.accumulator = value;
            },
            _ => unreached(),
        }
    }
}

} // verus!
