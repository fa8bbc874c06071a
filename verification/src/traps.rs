//! Trap causes and trap values. A [`Trap`] is the transient description of a
//! synchronous exception (or, in principle, an interrupt): a cause drawn
//! from the standard RISC-V numbering and an associated faulting value. It
//! is consumed by the trap controller, which copies it into the `mcause`
//! and `mtval` CSRs.

use vstd::prelude::*;

verus! {

/// The closed set of RISC-V trap causes. Synchronous exception causes are
/// numbered 0 to 15; asynchronous interrupt causes carry the interrupt bit
/// (the top bit) in their numeric encoding. Only the synchronous causes are
/// ever raised by the execution engine; interrupts are never injected.
#[derive(Debug, PartialEq, Eq, Structural, Clone, Copy)]
pub enum TrapType {
    InstructionAddressMisaligned,
    InstructionAccessFault,
    IllegalInstruction,
    Breakpoint,
    LoadAddressMisaligned,
    LoadAccessFault,
    StoreAddressMisaligned,
    StoreAccessFault,
    EnvironmentCallFromUMode,
    EnvironmentCallFromSMode,
    EnvironmentCallFromMMode,
    InstructionPageFault,
    LoadPageFault,
    StorePageFault,
    UserSoftwareInterrupt,
    SupervisorSoftwareInterrupt,
    MachineSoftwareInterrupt,
    UserTimerInterrupt,
    SupervisorTimerInterrupt,
    MachineTimerInterrupt,
    UserExternalInterrupt,
    SupervisorExternalInterrupt,
    MachineExternalInterrupt,
}

/// The standard RISC-V numeric encoding of each trap cause; interrupt
/// causes have bit 31 set.
pub open spec fn spec_cause_code(t: TrapType) -> u32 {
    match t {
        TrapType::InstructionAddressMisaligned => 0,
        TrapType::InstructionAccessFault => 1,
        TrapType::IllegalInstruction => 2,
        TrapType::Breakpoint => 3,
        TrapType::LoadAddressMisaligned => 4,
        TrapType::LoadAccessFault => 5,
        TrapType::StoreAddressMisaligned => 6,
        TrapType::StoreAccessFault => 7,
        TrapType::EnvironmentCallFromUMode => 8,
        TrapType::EnvironmentCallFromSMode => 9,
        TrapType::EnvironmentCallFromMMode => 11,
        TrapType::InstructionPageFault => 12,
        TrapType::LoadPageFault => 13,
        TrapType::StorePageFault => 15,
        TrapType::UserSoftwareInterrupt => 0x8000_0000,
        TrapType::SupervisorSoftwareInterrupt => 0x8000_0001,
        TrapType::MachineSoftwareInterrupt => 0x8000_0003,
        TrapType::UserTimerInterrupt => 0x8000_0004,
        TrapType::SupervisorTimerInterrupt => 0x8000_0005,
        TrapType::MachineTimerInterrupt => 0x8000_0007,
        TrapType::UserExternalInterrupt => 0x8000_0008,
        TrapType::SupervisorExternalInterrupt => 0x8000_0009,
        TrapType::MachineExternalInterrupt => 0x8000_000B,
    }
}

/// A trap: its cause and the faulting value that accompanies it (the
/// offending address for access faults, the instruction word for illegal
/// instructions, the program counter for environment calls).
#[derive(Debug, PartialEq, Eq, Structural, Clone, Copy)]
pub struct Trap {
    pub tcause: TrapType,
    pub tval: u32,
}

impl Trap {
    /// The numeric cause code that belongs in `mcause`.
    pub fn get_trap_cause(&self) -> (r: u32)
        ensures
            r == spec_cause_code(self.tcause),
    {
        match self.tcause {
            TrapType::InstructionAddressMisaligned => 0,
            TrapType::InstructionAccessFault => 1,
            TrapType::IllegalInstruction => 2,
            TrapType::Breakpoint => 3,
            TrapType::LoadAddressMisaligned => 4,
            TrapType::LoadAccessFault => 5,
            TrapType::StoreAddressMisaligned => 6,
            TrapType::StoreAccessFault => 7,
            TrapType::EnvironmentCallFromUMode => 8,
            TrapType::EnvironmentCallFromSMode => 9,
            TrapType::EnvironmentCallFromMMode => 11,
            TrapType::InstructionPageFault => 12,
            TrapType::LoadPageFault => 13,
            TrapType::StorePageFault => 15,
            TrapType::UserSoftwareInterrupt => 0x8000_0000,
            TrapType::SupervisorSoftwareInterrupt => 0x8000_0001,
            TrapType::MachineSoftwareInterrupt => 0x8000_0003,
            TrapType::UserTimerInterrupt => 0x8000_0004,
            TrapType::SupervisorTimerInterrupt => 0x8000_0005,
            TrapType::MachineTimerInterrupt => 0x8000_0007,
            TrapType::UserExternalInterrupt => 0x8000_0008,
            TrapType::SupervisorExternalInterrupt => 0x8000_0009,
            TrapType::MachineExternalInterrupt => 0x8000_000B,
        }
    }
}

/// A condition that the trap controller cannot recover from and reports to
/// the host run loop, which stops executing.
#[derive(Debug, PartialEq, Eq, Structural, Clone, Copy)]
pub enum FatalError {
    /// A trap had to be delivered while `mtvec` was zero: the emulated
    /// program never installed a handler, so redirecting would loop at
    /// address zero forever.
    UnsetTrapHandler,
    /// A trap had to be delivered while `mtvec` selected a vector mode
    /// other than direct mode; vectored delivery is not implemented.
    UnsupportedTrapVectorMode,
}

} // verus!
