//! The assembled machine: one hart owning one address space. The loader
//! that turns a program image into RAM contents and an entry address is an
//! external collaborator; it hands both to [`Emulator::new`].

use crate::cpu::CPU;
use crate::cpu::spec_initial_bank;
use crate::cpu::spec_initial_regs;
use crate::mmu::MMU;
use vstd::prelude::*;

verus! {

/// A whole emulated machine.
pub struct Emulator {
    pub cpu: CPU,
}

impl Emulator {
    /// A machine over an already-loaded address space, about to execute
    /// its first instruction at `entry_pc`.
    pub fn new(mmu: MMU, entry_pc: u32) -> (r: Emulator)
        requires
            mmu.wf(),
        ensures
            r.cpu.wf(),
            r.cpu.pc == entry_pc,
            r.cpu.mmu == mmu,
            r.cpu.x@ == spec_initial_regs(),
            r.cpu.bank() == spec_initial_bank(),
    {
        let mut cpu = CPU::new(mmu);
        cpu.pc = entry_pc;
        Emulator { cpu }
    }
}

} // verus!
