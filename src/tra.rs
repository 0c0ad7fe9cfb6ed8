//! Traps: the exceptions an instruction can raise.
use vstd::prelude::*;

verus! {

/// The cause of a trap.
#[derive(Debug, Clone, Copy, PartialEq, Eq, Hash, Structural)]
pub enum TrapKind {
    InstructionAddressMisaligned,
    InstructionAccessFault,
    IllegalInstruction,
    Breakpoint,
    LoadAddressMisaligned,
    LoadAccessFault,
    StoreAddressMisaligned,
    StoreAccessFault,
    EnvironmentCallFromU,
    EnvironmentCallFromS,
    EnvironmentCallFromM,
    InstructionPageFault,
    LoadPageFault,
    StorePageFault,
}

/// A trap: its cause, the address of the instruction that raised it, and
/// the faulting address or instruction word where one applies (else zero).
#[derive(Debug, Clone, Copy, PartialEq, Eq, Hash, Structural)]
pub struct Trap {
    pub kind: TrapKind,
    pub pc: u64,
    pub value: u64,
}

impl Trap {
    pub fn new(kind: TrapKind, pc: u64, value: u64) -> (r: Trap)
        ensures
            r == (Trap { kind, pc, value }),
    {
        Trap { kind, pc, value }
    }

    /// The same trap, recorded as raised by the instruction at `pc`.
    pub fn at(self, pc: u64) -> (r: Trap)
        ensures
            r == (Trap { pc, ..self }),
    {
        Trap { kind: self.kind, pc, value: self.value }
    }
}

} // verus!
