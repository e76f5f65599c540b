//! Instruction kinds.

use vstd::prelude::*;

verus! {

/// What an instruction does, apart from how it finds its operand.
#[derive(Debug, Clone, Copy, PartialEq, Eq, Structural)]
pub enum Instruction {
    /// ADC
    AddWithCarry,
    /// AND
    AndWithAccumulator,
    /// ASL
    ArithmeticShiftLeft,
    /// BCC
    BranchIfCarryClear,
    /// BCS
    BranchIfCarrySet,
    /// BEQ
    BranchIfEqual,
    /// BIT
    BitSet,
    /// BMI
    BranchIfMinus,
    /// BNE
    BranchIfNotEqual,
    /// BPL
    BranchIfPlus,
    /// BRK
    Break,
    /// BVC
    BranchIfOverflowClear,
    /// BVS
    BranchIfOverflowSet,
    /// CLC
    ClearCarry,
    /// CLD
    ClearDecimal,
    /// CLI
    ClearInterrupt,
    /// CLV
    ClearOverflow,
    /// Compare memory with the accumulator
    CompareWithAccumulator,
    /// CPX
    CompareWithX,
    /// CPY
    CompareWithY,
    /// DEC
    Decrement,
    /// DEX
    DecrementX,
    /// DEY
    DecrementY,
    /// EOR
    ExclusiveOrWithAccumulator,
    /// INC
    Increment,
    /// INX
    IncrementX,
    /// INY
    IncrementY,
    /// JMP
    Jump,
    /// JSR
    JumpSubroutine,
    /// LDA
    LoadAccumulator,
    /// LDX
    LoadX,
    /// LDY
    LoadY,
    /// LSR
    LogicalShiftRight,
    /// NOP
    NoOperation,
    /// ORA
    OrWithAccumulator,
    /// PHA
    PushAccumulator,
    /// PHP
    PushProcessorStatus,
    /// PLA
    PullAccumulator,
    /// PLP
    PullProcessorStatus,
    /// ROL
    RotateLeft,
    /// ROR
    RotateRight,
    /// RTI
    ReturnFromInterrupt,
    /// RTS
    ReturnFromSubroutine,
    /// SBC
    SubtractWithCarry,
    /// SEC
    SetCarry,
    /// SED
    SetDecimal,
    /// SEI
    SetInterruptDisable,
    /// STA
    StoreAccumulator,
    /// STX
    StoreX,
    /// STY
    StoreY,
    /// TAX
    TransferAccumulatorToX,
    /// TAY
    TransferAccumulatorToY,
    /// TSX
    TransferStackPointerToX,
    /// TXA
    TransferXToAccumulator,
    /// TXS
    TransferXToStackPointer,
    /// TYA
    TransferYToAccumulator,
}

} // verus!
