//! Observers of the engine.

use crate::opcodes::OpCode;
use crate::registers::Registers;
use crate::status_flags::StatusFlags;
use vstd::prelude::*;

verus! {

/// An observer of the engine, called once in each step, after the opcode was
/// decoded and before the instruction is carried out. It sees the registers,
/// the flags, the decoded opcode and the cycle count, and can change none of
/// them.
pub trait StepObserver {
    /// What holds after the observer was called with these arguments. An
    /// implementor that promises nothing leaves this as it is.
    open spec fn observed(
        &self,
        registers: &Registers,
        status_flags: &StatusFlags,
        opcode: OpCode,
        cycles: u64,
    ) -> bool {
        true
    }

    fn observe(
        &self,
        registers: &Registers,
        status_flags: &StatusFlags,
        opcode: OpCode,
        cycles: u64,
    )
        ensures
            self.observed(registers, status_flags, opcode, cycles),
    ;
}

/// An observer made of a function or a closure that can be called with any
/// arguments.
pub struct Callback<F: Fn(&Registers, &StatusFlags, OpCode, u64)> {
    function: F,
}

impl<F: Fn(&Registers, &StatusFlags, OpCode, u64)> Callback<F> {
    /// The function that the observer calls.
    pub closed spec fn function(self) -> F {
        self.function
    }

    #[verifier::type_invariant]
    spec fn callable(self) -> bool {
        forall|registers: &Registers, status_flags: &StatusFlags, opcode: OpCode, cycles: u64|
            call_requires(self.function, (registers, status_flags, opcode, cycles))
    }

    pub fn new(function: F) -> (callback: Self)
        requires
            forall|registers: &Registers, status_flags: &StatusFlags, opcode: OpCode, cycles: u64|
                call_requires(function, (registers, status_flags, opcode, cycles)),
        ensures
            callback.function() == function,
    {
        Callback { function }
    }
}

impl<F: Fn(&Registers, &StatusFlags, OpCode, u64)> StepObserver for Callback<F> {
    /// The function's own postcondition holds of the arguments.
    open spec fn observed(
        &self,
        registers: &Registers,
        status_flags: &StatusFlags,
        opcode: OpCode,
        cycles: u64,
    ) -> bool {
        call_ensures(self.function(), (registers, status_flags, opcode, cycles), ())
    }

    fn observe(
        &self,
        registers: &Registers,
        status_flags: &StatusFlags,
        opcode: OpCode,
        cycles: u64,
    ) {
        proof {
            use_type_invariant(self);
        }
        (self.function)(registers, status_flags, opcode, cycles);
    }
}

} // verus!
