//! Laws of the instruction set, proved of the description in
//! [`crate::semantics`] that the engine is verified against.

use crate::instruction::Instruction;
use crate::memory::{Memory, Ram};
use crate::mode::Mode;
use crate::opcodes::{decode, lemma_decoded_is_supported};
use crate::semantics::{
    lemma_advance_zero, lemma_wrap16_add, lemma_wrap8, lemma_wrap8_add, negative, page,
    stack_address, wrap16, wrap8, Machine,
};
use crate::status_flags::lemma_pack_unpack;
use vstd::prelude::*;

verus! {

/// A step that executes an instruction takes at least two cycles.
pub proof fn lemma_step_takes_two_cycles<M: Memory>(machine: Machine<M>)
    requires
        decode(machine.opcode()) is Some,
    ensures
        machine.step_cycles() >= 2,
{
    lemma_decoded_is_supported(machine.opcode());
}

/// The stack pointer after the bytes of `values` were pushed lies below the
/// one before by their number, modulo 256.
pub proof fn lemma_push_all_moves_stack_pointer<M: Memory>(machine: Machine<M>, values: Seq<u8>)
    ensures
        machine.push_all(values).registers.stack_pointer == wrap8(
            machine.registers.stack_pointer - values.len(),
        ),
    decreases values.len(),
{
    let sp = machine.registers.stack_pointer as int;
    if values.len() == 0 {
        lemma_wrap8(sp);
    } else {
        lemma_push_all_moves_stack_pointer(machine.push(values.first()), values.drop_first());
        lemma_wrap8_add(sp - 1, -(values.len() - 1));
    }
}

/// The stack pointer after `n` pops lies above the one before by `n`, modulo
/// 256.
pub proof fn lemma_pop_times_moves_stack_pointer<M: Memory>(machine: Machine<M>, n: nat)
    ensures
        machine.pop_times(n).registers.stack_pointer == wrap8(machine.registers.stack_pointer + n),
    decreases n,
{
    let sp = machine.registers.stack_pointer as int;
    if n == 0 {
        lemma_wrap8(sp);
    } else {
        lemma_pop_times_moves_stack_pointer(machine.pop(), (n - 1) as nat);
        lemma_wrap8_add(sp + 1, n - 1);
    }
}

/// Pushing any number of bytes and popping as many restores the stack
/// pointer, however often it wrapped around on the way.
pub proof fn lemma_push_pop_restores_stack_pointer<M: Memory>(machine: Machine<M>, values: Seq<u8>)
    ensures
        machine.push_all(values).pop_times(values.len()).registers.stack_pointer
            == machine.registers.stack_pointer,
{
    let sp = machine.registers.stack_pointer as int;
    lemma_push_all_moves_stack_pointer(machine, values);
    lemma_pop_times_moves_stack_pointer(machine.push_all(values), values.len());
    lemma_wrap8_add(sp - values.len(), values.len() as int);
    lemma_wrap8(sp);
}

/// Whether the `n` bytes from the program counter on all decode to the
/// instruction that does nothing.
pub open spec fn only_no_operations<M: Memory>(machine: Machine<M>, n: nat) -> bool {
    forall|k: nat|
        k < n ==> decode(
            #[trigger] M::peek(machine.memory, wrap16(machine.registers.program_counter + k)),
        ) == Some((Instruction::NoOperation, Mode::Implied))
}

/// Stepping through `n` instructions that do nothing moves the program counter
/// on by `n` and leaves the other registers, the flags and the memory as they
/// were; each step takes two cycles.
pub proof fn lemma_no_operations<M: Memory>(machine: Machine<M>, n: nat)
    requires
        only_no_operations(machine, n),
    ensures
        machine.steps(n) == machine.advance(n as int),
        machine.steps_cycles(n) == 2 * n,
    decreases n,
{
    if n == 0 {
        lemma_advance_zero(machine);
    } else {
        let k = (n - 1) as nat;
        lemma_no_operations(machine, k);
        let before = machine.advance(k as int);
        assert(decode(before.opcode()) == Some((Instruction::NoOperation, Mode::Implied))) by {
            assert(before.opcode() == M::peek(
                machine.memory,
                wrap16(machine.registers.program_counter + k),
            ));
        }
        reveal(Machine::flag_instruction);
        reveal(Machine::page_crossed);
        lemma_wrap16_add(machine.registers.program_counter + k, 1);
    }
}

/// Pushing the accumulator and pulling it again leaves the accumulator and the
/// stack pointer as they were and sets the zero and negative flags from the
/// accumulator, provided that the memory gives back the byte that was pushed.
pub proof fn lemma_push_pull_accumulator<M: Memory>(machine: Machine<M>)
    requires
        decode(machine.opcode()) == Some((Instruction::PushAccumulator, Mode::Implied)),
        decode(machine.step().opcode()) == Some((Instruction::PullAccumulator, Mode::Implied)),
        M::peek(machine.step().memory, stack_address(machine.registers.stack_pointer))
            == machine.registers.accumulator,
    ensures
        machine.steps(2).registers.accumulator == machine.registers.accumulator,
        machine.steps(2).registers.stack_pointer == machine.registers.stack_pointer,
        machine.steps(2).status_flags.zero == (machine.registers.accumulator == 0),
        machine.steps(2).status_flags.negative == negative(machine.registers.accumulator),
{
    reveal(Machine::stack_instruction);
    reveal_with_fuel(Machine::steps, 3);
    let sp = machine.registers.stack_pointer as int;
    lemma_wrap8_add(sp - 1, 1);
    lemma_wrap8(sp);
}

/// Pushing the status byte and pulling it again leaves the flags and the stack
/// pointer as they were, provided that the memory gives back the byte that
/// was pushed.
pub proof fn lemma_push_pull_status<M: Memory>(machine: Machine<M>)
    requires
        decode(machine.opcode()) == Some((Instruction::PushProcessorStatus, Mode::Implied)),
        decode(machine.step().opcode()) == Some((Instruction::PullProcessorStatus, Mode::Implied)),
        M::peek(machine.step().memory, stack_address(machine.registers.stack_pointer))
            == machine.status_flags.packed(),
    ensures
        machine.steps(2).status_flags == machine.status_flags,
        machine.steps(2).status_flags.packed() == machine.status_flags.packed(),
        machine.steps(2).registers.stack_pointer == machine.registers.stack_pointer,
{
    reveal(Machine::stack_instruction);
    reveal_with_fuel(Machine::steps, 3);
    let sp = machine.registers.stack_pointer as int;
    lemma_wrap8_add(sp - 1, 1);
    lemma_wrap8(sp);
    lemma_pack_unpack(machine.status_flags);
}

/// A subroutine call followed at once by a return brings the program counter
/// to the instruction after the call, three bytes behind the call's opcode,
/// and restores the stack pointer, provided that the memory gives back the two
/// bytes that were pushed.
pub proof fn lemma_call_return<M: Memory>(machine: Machine<M>)
    requires
        decode(machine.opcode()) == Some((Instruction::JumpSubroutine, Mode::Absolute)),
        decode(machine.step().opcode()) == Some((Instruction::ReturnFromSubroutine, Mode::Implied)),
        M::peek(machine.step().memory, stack_address(machine.registers.stack_pointer)) == page(
            wrap16(machine.registers.program_counter + 2),
        ),
        M::peek(
            machine.step().memory,
            stack_address(wrap8(machine.registers.stack_pointer - 1)),
        ) == wrap8(wrap16(machine.registers.program_counter + 2) as int),
    ensures
        machine.steps(2).registers.program_counter == wrap16(
            machine.registers.program_counter + 3,
        ),
        machine.steps(2).registers.stack_pointer == machine.registers.stack_pointer,
{
    reveal(Machine::flow_instruction);
    reveal_with_fuel(Machine::steps, 3);
    let sp = machine.registers.stack_pointer as int;
    let pc = machine.registers.program_counter as int;
    let pushed = wrap16(pc + 2);
    lemma_wrap16_add(pc + 1, 1);
    lemma_wrap8_add(sp - 1, -1);
    lemma_wrap8_add(sp - 2, 1);
    lemma_wrap8_add(sp - 1, 1);
    lemma_wrap8(sp);
    assert(wrap8(pushed as int) + 256 * page(pushed) == pushed) by {
        reveal(wrap8);
        reveal(page);
    }
    lemma_wrap16_add(pc + 2, 1);
}

/// In plain memory, pushing the accumulator and pulling it again leaves the
/// accumulator and the stack pointer as they were and sets the zero and
/// negative flags from the accumulator.
pub proof fn lemma_push_pull_accumulator_in_ram(machine: Machine<Ram>)
    requires
        decode(machine.opcode()) == Some((Instruction::PushAccumulator, Mode::Implied)),
        decode(machine.step().opcode()) == Some((Instruction::PullAccumulator, Mode::Implied)),
    ensures
        machine.steps(2).registers.accumulator == machine.registers.accumulator,
        machine.steps(2).registers.stack_pointer == machine.registers.stack_pointer,
        machine.steps(2).status_flags.zero == (machine.registers.accumulator == 0),
        machine.steps(2).status_flags.negative == negative(machine.registers.accumulator),
{
    reveal(Machine::stack_instruction);
    lemma_push_pull_accumulator(machine);
}

/// In plain memory, pushing the status byte and pulling it again leaves the
/// flags and the stack pointer as they were.
pub proof fn lemma_push_pull_status_in_ram(machine: Machine<Ram>)
    requires
        decode(machine.opcode()) == Some((Instruction::PushProcessorStatus, Mode::Implied)),
        decode(machine.step().opcode()) == Some((Instruction::PullProcessorStatus, Mode::Implied)),
    ensures
        machine.steps(2).status_flags == machine.status_flags,
        machine.steps(2).status_flags.packed() == machine.status_flags.packed(),
        machine.steps(2).registers.stack_pointer == machine.registers.stack_pointer,
{
    reveal(Machine::stack_instruction);
    lemma_push_pull_status(machine);
}

/// In plain memory, a subroutine call followed at once by a return brings the
/// program counter to the instruction after the call and restores the stack
/// pointer.
pub proof fn lemma_call_return_in_ram(machine: Machine<Ram>)
    requires
        decode(machine.opcode()) == Some((Instruction::JumpSubroutine, Mode::Absolute)),
        decode(machine.step().opcode()) == Some((Instruction::ReturnFromSubroutine, Mode::Implied)),
    ensures
        machine.steps(2).registers.program_counter == wrap16(
            machine.registers.program_counter + 3,
        ),
        machine.steps(2).registers.stack_pointer == machine.registers.stack_pointer,
{
    reveal(Machine::flow_instruction);
    let sp = machine.registers.stack_pointer as int;
    let pc = machine.registers.program_counter as int;
    lemma_wrap8(sp - 1);
    lemma_wrap16_add(pc + 1, 1);
    assert(0 <= page(wrap16(pc + 2)) < 256) by {
        reveal(page);
    }
    lemma_call_return(machine);
}

} // verus!
