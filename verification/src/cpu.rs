//! The CPU: architectural register file, program counter, privilege mode
//! and CSR bank, the fetch/decode/dispatch/execute cycle, and the trap
//! controller that redirects control flow when any of those faults.
//!
//! Dispatch convention: the caller of the dispatch ([`CPU::execute`])
//! unconditionally adds the consumed instruction length (4) to the program
//! counter afterwards, so jump, branch and `mret` handlers set the counter
//! to their true target minus 4 and the increment restores it. The
//! contracts carry that offset explicitly: [`spec_execute_rel`] with
//! offset 4 describes the state between dispatch and increment, with
//! offset 0 the state after a whole [`CPU::execute_instruction`] cycle.

use crate::insn::CsrOp;
use crate::insn::Instr;
use crate::insn::LoadKind;
use crate::insn::StoreKind;
use crate::insn::alu_compute;
use crate::insn::branch_take;
use crate::insn::decode_instr;
use crate::insn::sext16;
use crate::insn::sext8;
use crate::insn::spec_alu;
use crate::insn::spec_branch_taken;
use crate::insn::spec_decode;
use crate::insn::spec_sext16;
use crate::insn::spec_sext8;
use crate::insn::wadd;
use crate::insn::wsub;
use crate::mmu::MMU;
use crate::mmu::PRIMITIVE_AUDIO_ADDRESS;
use crate::mmu::RAM_ADDRESS_END;
use crate::mmu::UART_ADDRESS;
use crate::mmu::spec_ram_halfword;
use crate::mmu::spec_ram_index;
use crate::mmu::spec_ram_span;
use crate::mmu::spec_ram_word;
use crate::traps::FatalError;
use crate::traps::Trap;
use crate::traps::TrapType;
use crate::traps::spec_cause_code;
use vstd::prelude::*;

verus! {

/// The RISC-V privilege levels. Only machine mode is exercised: the CPU
/// starts in it and trap entry forces it.
#[derive(Debug, PartialEq, Eq, Structural, Clone, Copy)]
pub enum PrivilegeMode {
    Machine,
    Supervisor,
    Reserved,
    User,
}

/// An RV32IMA hart: 32 general registers (index 0 hardwired to zero), the
/// program counter, the owned address space, and the machine-mode CSR
/// bank.
pub struct CPU {
    pub x: Vec<u32>,
    pub pc: u32,
    pub mmu: MMU,
    pub mstatus: u32,
    pub mstatush: u32,
    pub cyclel: u32,
    pub cycleh: u32,
    pub timerl: u32,
    pub timerh: u32,
    pub timermatchl: u32,
    pub timermatchh: u32,
    pub mscratch: u32,
    pub mtvec: u32,
    pub mie: u32,
    pub mip: u32,
    pub mepc: u32,
    pub mtval: u32,
    pub mcause: u32,
    pub privilege: PrivilegeMode,
    pub wfi: bool,
    pub reservation_slot: Option<u32>,
}

/// The machine state beside registers, counter and memory: the CSR fields
/// with the privilege mode, the wait-for-interrupt flag and the
/// load-reservation slot. Contracts compare and update whole banks.
pub struct CsrBank {
    pub mstatus: u32,
    pub mstatush: u32,
    pub cyclel: u32,
    pub cycleh: u32,
    pub timerl: u32,
    pub timerh: u32,
    pub timermatchl: u32,
    pub timermatchh: u32,
    pub mscratch: u32,
    pub mtvec: u32,
    pub mie: u32,
    pub mip: u32,
    pub mepc: u32,
    pub mtval: u32,
    pub mcause: u32,
    pub privilege: PrivilegeMode,
    pub wfi: bool,
    pub reservation_slot: Option<u32>,
}

/// Writing register `idx`: a write to index 0 is silently discarded.
pub open spec fn spec_set_x(x: Seq<u32>, idx: u8, val: u32) -> Seq<u32> {
    if idx == 0 {
        x
    } else {
        x.update(idx as int, val)
    }
}

/// The register file a fresh CPU starts with: zero everywhere except the
/// stack pointer (x2), which points at the last word-aligned RAM address.
pub open spec fn spec_initial_regs() -> Seq<u32> {
    Seq::new(32, |i: int| if i == 2 { (RAM_ADDRESS_END - 3) as u32 } else { 0u32 })
}

/// The CSR bank a fresh CPU starts with: every CSR zero, machine mode,
/// not waiting, no reservation.
pub open spec fn spec_initial_bank() -> CsrBank {
    CsrBank {
        mstatus: 0,
        mstatush: 0,
        cyclel: 0,
        cycleh: 0,
        timerl: 0,
        timerh: 0,
        timermatchl: 0,
        timermatchh: 0,
        mscratch: 0,
        mtvec: 0,
        mie: 0,
        mip: 0,
        mepc: 0,
        mtval: 0,
        mcause: 0,
        privilege: PrivilegeMode::Machine,
        wfi: false,
        reservation_slot: None,
    }
}

/// What reading CSR `csr` yields: the backing field for the modeled
/// read-write CSRs, a computed constant for the identity registers and
/// `misa` (XLEN=32, extensions I, M, A and X), and `None` for every index
/// this machine does not model.
pub open spec fn spec_csr_read(c: &CPU, csr: u16) -> Option<u32> {
    if csr == 0x340 {
        Some(c.mscratch)
    } else if csr == 0x305 {
        Some(c.mtvec)
    } else if csr == 0x304 {
        Some(c.mie)
    } else if csr == 0xC00 {
        Some(c.cyclel)
    } else if csr == 0xC80 {
        Some(c.cycleh)
    } else if csr == 0x344 {
        Some(c.mip)
    } else if csr == 0x341 {
        Some(c.mepc)
    } else if csr == 0x300 {
        Some(c.mstatus)
    } else if csr == 0x342 {
        Some(c.mcause)
    } else if csr == 0x343 {
        Some(c.mtval)
    } else if csr == 0xf11 {
        Some(0xff0ff0ff)
    } else if 0xf12 <= csr && csr <= 0xf15 {
        Some(0)
    } else if csr == 0x301 {
        Some(0b01_0_10000_00000000_00010001_00000001)
    } else {
        None
    }
}

/// The CSRs that accept a write.
pub open spec fn spec_csr_writable(csr: u16) -> bool {
    csr == 0x340 || csr == 0x305 || csr == 0x304 || csr == 0x344 || csr == 0x341 || csr == 0x300
        || csr == 0x310 || csr == 0x342 || csr == 0x343
}

/// The CSRs the write path recognizes at all: the writable ones plus the
/// read-only counters, identity registers and `misa`, whose writes are
/// reported as rejected rather than silently dropped.
pub open spec fn spec_csr_write_known(csr: u16) -> bool {
    spec_csr_writable(csr) || csr == 0xC00 || csr == 0xC80 || (0xf11 <= csr && csr <= 0xf15)
        || csr == 0x301
}

/// The bank after writing `v` to a writable CSR; any other index leaves
/// the bank as it was.
pub open spec fn spec_bank_write(b: CsrBank, csr: u16, v: u32) -> CsrBank {
    if csr == 0x340 {
        CsrBank { mscratch: v, ..b }
    } else if csr == 0x305 {
        CsrBank { mtvec: v, ..b }
    } else if csr == 0x304 {
        CsrBank { mie: v, ..b }
    } else if csr == 0x344 {
        CsrBank { mip: v, ..b }
    } else if csr == 0x341 {
        CsrBank { mepc: v, ..b }
    } else if csr == 0x300 {
        CsrBank { mstatus: v, ..b }
    } else if csr == 0x310 {
        CsrBank { mstatush: v, ..b }
    } else if csr == 0x342 {
        CsrBank { mcause: v, ..b }
    } else if csr == 0x343 {
        CsrBank { mtval: v, ..b }
    } else {
        b
    }
}

impl CPU {
    /// The machine state beside registers, counter and memory, as one
    /// value.
    pub open spec fn bank(&self) -> CsrBank {
        CsrBank {
            mstatus: self.mstatus,
            mstatush: self.mstatush,
            cyclel: self.cyclel,
            cycleh: self.cycleh,
            timerl: self.timerl,
            timerh: self.timerh,
            timermatchl: self.timermatchl,
            timermatchh: self.timermatchh,
            mscratch: self.mscratch,
            mtvec: self.mtvec,
            mie: self.mie,
            mip: self.mip,
            mepc: self.mepc,
            mtval: self.mtval,
            mcause: self.mcause,
            privilege: self.privilege,
            wfi: self.wfi,
            reservation_slot: self.reservation_slot,
        }
    }

    /// Well-formedness: exactly 32 registers, register 0 reading zero, and
    /// a full-size RAM buffer. Established by the constructor, preserved
    /// by every operation.
    pub open spec fn wf(&self) -> bool {
        self.x@.len() == 32 && self.x@[0] == 0 && self.mmu.wf()
    }

    /// A fresh hart owning `mmu`: registers per [`spec_initial_regs`],
    /// counter at zero, CSR bank per [`spec_initial_bank`].
    pub fn new(mmu: MMU) -> (r: CPU)
        requires
            mmu.wf(),
        ensures
            r.wf(),
            r.x@ == spec_initial_regs(),
            r.pc == 0,
            r.mmu == mmu,
            r.bank() == spec_initial_bank(),
    {
        let mut x: Vec<u32> = Vec::new();
        let mut i: usize = 0;
        while i < 32
            invariant
                i <= 32,
                x@.len() == i,
                forall|j: int| 0 <= j < i ==> x@[j] == 0u32,
            decreases 32 - i,
        {
            x.push(0);
            i += 1;
        }
        x[2] = RAM_ADDRESS_END - 3;
        proof {
            assert(x@ =~= spec_initial_regs());
        }
        CPU {
            x,
            pc: 0,
            mmu,
            mstatus: 0,
            mstatush: 0,
            cyclel: 0,
            cycleh: 0,
            timerl: 0,
            timerh: 0,
            timermatchl: 0,
            timermatchh: 0,
            mscratch: 0,
            mtvec: 0,
            mie: 0,
            mip: 0,
            mepc: 0,
            mtval: 0,
            mcause: 0,
            privilege: PrivilegeMode::Machine,
            wfi: false,
            reservation_slot: None,
        }
    }

    /// A snapshot of the register file for the debug bridge.
    pub fn get_registers(&self) -> (r: Vec<u32>)
        ensures
            r@ == self.x@,
    {
        let mut r: Vec<u32> = Vec::new();
        let mut i: usize = 0;
        while i < self.x.len()
            invariant
                i <= self.x@.len(),
                r@ == self.x@.take(i as int),
            decreases self.x@.len() - i,
        {
            r.push(self.x[i]);
            i += 1;
        }
        proof {
            assert(r@ =~= self.x@);
        }
        r
    }

    /// Replaces the whole register file from the debug bridge; the
    /// hardwired zero register stays zero whatever the caller supplies.
    pub fn set_registers(&mut self, regs: Vec<u32>)
        requires
            old(self).wf(),
            regs@.len() == 32,
        ensures
            final(self).wf(),
            final(self).x@ == regs@.update(0, 0u32),
            final(self).pc == old(self).pc,
            final(self).mmu == old(self).mmu,
            final(self).bank() == old(self).bank(),
    {
        let mut regs = regs;
        regs[0] = 0;
        self.x = regs;
    }

    /// Writes register `x`: index 0 discards the write and leaves the
    /// file untouched; any other index takes `val` and leaves every other
    /// register as it was.
    fn set_x(&mut self, x: u8, val: u32)
        requires
            old(self).wf(),
            x < 32,
        ensures
            final(self).wf(),
            final(self).x@ == spec_set_x(old(self).x@, x, val),
            x == 0 ==> final(self).x@ == old(self).x@,
            x != 0 ==> final(self).x@[x as int] == val && (forall|j: int|
                0 <= j < 32 && j != x ==> final(self).x@[j] == old(self).x@[j]),
            final(self).pc == old(self).pc,
            final(self).mmu == old(self).mmu,
            final(self).bank() == old(self).bank(),
    {
        if x != 0 {
            self.x[x as usize] = val;
        }
    }

    /// Reads register `x`; index 0 always yields 0.
    fn get_x(&self, x: u8) -> (r: u32)
        requires
            self.wf(),
            x < 32,
        ensures
            r == self.x@[x as int],
    {
        self.x[x as usize]
    }

    /// The read path of the CSR bank, exactly [`spec_csr_read`].
    fn get_csr(&self, csr: u16) -> (r: Option<u32>)
        ensures
            r == spec_csr_read(self, csr),
    {
        if csr == 0x340 {
            Some(self.mscratch)
        } else if csr == 0x305 {
            Some(self.mtvec)
        } else if csr == 0x304 {
            Some(self.mie)
        } else if csr == 0xC00 {
            Some(self.cyclel)
        } else if csr == 0xC80 {
            Some(self.cycleh)
        } else if csr == 0x344 {
            Some(self.mip)
        } else if csr == 0x341 {
            Some(self.mepc)
        } else if csr == 0x300 {
            Some(self.mstatus)
        } else if csr == 0x342 {
            Some(self.mcause)
        } else if csr == 0x343 {
            Some(self.mtval)
        } else if csr == 0xf11 {
            Some(0xff0ff0ff)
        } else if 0xf12 <= csr && csr <= 0xf15 {
            Some(0)
        } else if csr == 0x301 {
            Some(0b01_0_10000_00000000_00010001_00000001)
        } else {
            None
        }
    }

    /// The write path of the CSR bank: `Some(true)` and the field updated
    /// for a writable CSR, `Some(false)` and no change for a recognized
    /// read-only CSR, `None` and no change for an unmodeled index.
    fn set_csr(&mut self, csr: u16, new_val: u32) -> (r: Option<bool>)
        requires
            old(self).wf(),
        ensures
            final(self).wf(),
            r == Some(true) <==> spec_csr_writable(csr),
            r is Some <==> spec_csr_write_known(csr),
            spec_csr_writable(csr) ==> final(self).bank() == spec_bank_write(
                old(self).bank(),
                csr,
                new_val,
            ) && final(self).x@ == old(self).x@ && final(self).pc == old(self).pc
                && final(self).mmu == old(self).mmu,
            !spec_csr_writable(csr) ==> *final(self) == *old(self),
    {
        if csr == 0x340 {
            self.mscratch = new_val;
            Some(true)
        } else if csr == 0x305 {
            self.mtvec = new_val;
            Some(true)
        } else if csr == 0x304 {
            self.mie = new_val;
            Some(true)
        } else if csr == 0xC00 {
            Some(false)
        } else if csr == 0xC80 {
            Some(false)
        } else if csr == 0x344 {
            self.mip = new_val;
            Some(true)
        } else if csr == 0x341 {
            self.mepc = new_val;
            Some(true)
        } else if csr == 0x300 {
            self.mstatus = new_val;
            Some(true)
        } else if csr == 0x310 {
            self.mstatush = new_val;
            Some(true)
        } else if csr == 0x342 {
            self.mcause = new_val;
            Some(true)
        } else if csr == 0x343 {
            self.mtval = new_val;
            Some(true)
        } else if 0xf11 <= csr && csr <= 0xf15 {
            Some(false)
        } else if csr == 0x301 {
            Some(false)
        } else {
            None
        }
    }

    /// Converts an execution fault into a redirected control transfer:
    /// with a direct-mode handler installed in `mtvec`, it forces machine
    /// mode, latches `mepc` (the faulting instruction's address), `mcause`
    /// and `mtval`, and redirects the counter to the handler base. An
    /// unset `mtvec`, or one selecting an unimplemented vector mode,
    /// is an unrecoverable configuration fault reported to the host with
    /// the machine untouched.
    pub fn process_trap(&mut self, trap: Trap) -> (r: Result<(), FatalError>)
        requires
            old(self).wf(),
        ensures
            final(self).wf(),
            old(self).mtvec == 0 ==> r == Err::<(), FatalError>(FatalError::UnsetTrapHandler)
                && *final(self) == *old(self),
            old(self).mtvec != 0 && old(self).mtvec & 0b11 != 0 ==> r == Err::<(), FatalError>(
                FatalError::UnsupportedTrapVectorMode,
            ) && *final(self) == *old(self),
            old(self).mtvec != 0 && old(self).mtvec & 0b11 == 0 ==> r == Ok::<(), FatalError>(())
                && spec_trap_entry(*old(self), *final(self), trap),
    {
        if self.mtvec == 0 {
            return Err(FatalError::UnsetTrapHandler);
        }
        let mode = self.mtvec & 0b11;
        if mode != 0 {
            return Err(FatalError::UnsupportedTrapVectorMode);
        }
        self.privilege = PrivilegeMode::Machine;
        self.mepc = self.pc;
        self.mcause = trap.get_trap_cause();
        self.mtval = trap.tval;
        self.pc = self.mtvec & !0b11;
        Ok(())
    }
}

/// Trap entry: machine mode forced, `mepc` latched with the faulting
/// instruction's address, `mcause` and `mtval` latched from the trap, the
/// counter redirected to the direct-mode handler base (`mtvec` with its
/// low two bits cleared), and everything else untouched.
pub open spec fn spec_trap_entry(pre: CPU, post: CPU, t: Trap) -> bool {
    &&& post.x@ == pre.x@
    &&& post.mmu == pre.mmu
    &&& post.pc == pre.mtvec & !0b11u32
    &&& post.bank() == CsrBank {
        privilege: PrivilegeMode::Machine,
        mepc: pre.pc,
        mcause: spec_cause_code(t.tcause),
        mtval: t.tval,
        ..pre.bank()
    }
}

/// The trap an illegal or unsupported encoding raises: its value is the
/// instruction word itself.
pub open spec fn spec_illegal(w: u32) -> Trap {
    Trap { tcause: TrapType::IllegalInstruction, tval: w }
}

/// The trap a faulting load raises.
pub open spec fn spec_load_fault(addr: u32) -> Trap {
    Trap { tcause: TrapType::LoadAccessFault, tval: addr }
}

/// The trap a faulting store raises.
pub open spec fn spec_store_fault(addr: u32) -> Trap {
    Trap { tcause: TrapType::StoreAccessFault, tval: addr }
}

/// The dispatch succeeded and consumed a full-width instruction.
pub open spec fn spec_ok4(r: Result<u8, Trap>) -> bool {
    r == Ok::<u8, Trap>(4u8)
}

/// A step that writes one register and moves the counter to `pre.pc + 4`,
/// leaving memory, devices and the CSR bank alone. `off` is the part of
/// the advance the dispatch caller still owes (see the module comment).
pub open spec fn spec_reg_step(pre: CPU, post: CPU, rd: u8, val: u32, off: u32) -> bool {
    &&& post.x@ == spec_set_x(pre.x@, rd, val)
    &&& post.pc == wsub(wadd(pre.pc, 4), off)
    &&& post.mmu == pre.mmu
    &&& post.bank() == pre.bank()
}

/// A jump: the return address `pre.pc + 4` lands in `rd` and the counter
/// moves to `target`.
pub open spec fn spec_jump_step(pre: CPU, post: CPU, rd: u8, target: u32, off: u32) -> bool {
    &&& post.x@ == spec_set_x(pre.x@, rd, wadd(pre.pc, 4))
    &&& post.pc == wsub(target, off)
    &&& post.mmu == pre.mmu
    &&& post.bank() == pre.bank()
}

/// A step that only moves the counter to `target`.
pub open spec fn spec_pc_step(pre: CPU, post: CPU, target: u32, off: u32) -> bool {
    &&& post.x@ == pre.x@
    &&& post.pc == wsub(target, off)
    &&& post.mmu == pre.mmu
    &&& post.bank() == pre.bank()
}

/// A step that replaces the RAM contents with `newram` and moves the
/// counter to `pre.pc + 4`, leaving the devices alone.
pub open spec fn spec_ram_step(pre: CPU, post: CPU, newram: Seq<u8>, off: u32) -> bool {
    &&& post.x@ == pre.x@
    &&& post.pc == wsub(wadd(pre.pc, 4), off)
    &&& post.mmu.ram() == newram
    &&& post.mmu.uart == pre.mmu.uart
    &&& post.mmu.audio == pre.mmu.audio
    &&& post.bank() == pre.bank()
}

/// What a load leaves behind, by width: a spanning RAM address reads the
/// bytes little-endian (sign- or zero-extended per kind) into `rd`; a
/// word load of the audio register reads the momentary fill level (some
/// word); anything else raises `LoadAccessFault` carrying the address and
/// leaves the machine untouched.
pub open spec fn spec_load_rel(
    pre: CPU,
    post: CPU,
    kind: LoadKind,
    rd: u8,
    addr: u32,
    r: Result<u8, Trap>,
    off: u32,
) -> bool {
    match kind {
        LoadKind::B => if spec_ram_span(addr, 1) {
            spec_ok4(r) && spec_reg_step(
                pre,
                post,
                rd,
                spec_sext8(pre.mmu.ram()[spec_ram_index(addr)]),
                off,
            )
        } else {
            r == Err::<u8, Trap>(spec_load_fault(addr)) && post == pre
        },
        LoadKind::Bu => if spec_ram_span(addr, 1) {
            spec_ok4(r) && spec_reg_step(
                pre,
                post,
                rd,
                pre.mmu.ram()[spec_ram_index(addr)] as u32,
                off,
            )
        } else {
            r == Err::<u8, Trap>(spec_load_fault(addr)) && post == pre
        },
        LoadKind::H => if spec_ram_span(addr, 2) {
            spec_ok4(r) && spec_reg_step(
                pre,
                post,
                rd,
                spec_sext16(spec_ram_halfword(pre.mmu.ram(), spec_ram_index(addr))),
                off,
            )
        } else {
            r == Err::<u8, Trap>(spec_load_fault(addr)) && post == pre
        },
        LoadKind::Hu => if spec_ram_span(addr, 2) {
            spec_ok4(r) && spec_reg_step(
                pre,
                post,
                rd,
                spec_ram_halfword(pre.mmu.ram(), spec_ram_index(addr)) as u32,
                off,
            )
        } else {
            r == Err::<u8, Trap>(spec_load_fault(addr)) && post == pre
        },
        LoadKind::W => if spec_ram_span(addr, 4) {
            spec_ok4(r) && spec_reg_step(
                pre,
                post,
                rd,
                spec_ram_word(pre.mmu.ram(), spec_ram_index(addr)),
                off,
            )
        } else if addr == PRIMITIVE_AUDIO_ADDRESS {
            spec_ok4(r) && exists|v: u32| spec_reg_step(pre, post, rd, v, off)
        } else {
            r == Err::<u8, Trap>(spec_load_fault(addr)) && post == pre
        },
    }
}

/// What a store leaves behind, by width: a spanning RAM address takes the
/// value's bytes little-endian; a byte store to the UART queue register
/// appends the byte to the outbound queue; a halfword store to the audio
/// register hands the value to the device as exactly one signed sample
/// (the device's log of handed samples grows by it) and touches nothing
/// else; anything else raises `StoreAccessFault` carrying the address and
/// leaves the machine untouched.
pub open spec fn spec_store_rel(
    pre: CPU,
    post: CPU,
    kind: StoreKind,
    v: u32,
    addr: u32,
    r: Result<u8, Trap>,
    off: u32,
) -> bool {
    match kind {
        StoreKind::B => if spec_ram_span(addr, 1) {
            spec_ok4(r) && spec_ram_step(
                pre,
                post,
                pre.mmu.ram().update(spec_ram_index(addr), v as u8),
                off,
            )
        } else if addr == UART_ADDRESS {
            spec_ok4(r) && post.x@ == pre.x@ && post.pc == wsub(wadd(pre.pc, 4), off)
                && post.mmu.ram() == pre.mmu.ram() && post.mmu.uart.from_emu()
                == pre.mmu.uart.from_emu().push(v as u8) && post.mmu.uart.to_emu()
                == pre.mmu.uart.to_emu() && post.mmu.audio == pre.mmu.audio && post.bank()
                == pre.bank()
        } else {
            r == Err::<u8, Trap>(spec_store_fault(addr)) && post == pre
        },
        StoreKind::H => if spec_ram_span(addr, 2) {
            spec_ok4(r) && spec_ram_step(
                pre,
                post,
                pre.mmu.ram().update(spec_ram_index(addr), v as u16 as u8).update(
                    spec_ram_index(addr) + 1,
                    ((v as u16) >> 8) as u8,
                ),
                off,
            )
        } else if addr == PRIMITIVE_AUDIO_ADDRESS {
            spec_ok4(r) && post.x@ == pre.x@ && post.pc == wsub(wadd(pre.pc, 4), off)
                && post.mmu.ram() == pre.mmu.ram() && post.mmu.uart == pre.mmu.uart
                && post.mmu.audio.handed_log() == pre.mmu.audio.handed_log().push(v as u16 as i16)
                && post.bank() == pre.bank()
        } else {
            r == Err::<u8, Trap>(spec_store_fault(addr)) && post == pre
        },
        StoreKind::W => if spec_ram_span(addr, 4) {
            spec_ok4(r) && spec_ram_step(
                pre,
                post,
                pre.mmu.ram().update(spec_ram_index(addr), v as u8).update(
                    spec_ram_index(addr) + 1,
                    (v >> 8) as u8,
                ).update(spec_ram_index(addr) + 2, (v >> 16) as u8).update(
                    spec_ram_index(addr) + 3,
                    (v >> 24) as u8,
                ),
                off,
            )
        } else {
            r == Err::<u8, Trap>(spec_store_fault(addr)) && post == pre
        },
    }
}

/// What a CSRRW or CSRRWI with source value `v` leaves behind. With a
/// destination register, the CSR must be readable: its old value lands in
/// `rd` and `v` lands in the CSR. Without one, the CSR is not read.
/// Either way a write to a read-only or unmodeled CSR raises the
/// illegal-instruction trap and changes nothing.
pub open spec fn spec_csr_rw_rel(
    pre: CPU,
    post: CPU,
    csr: u16,
    v: u32,
    rd: u8,
    w: u32,
    r: Result<u8, Trap>,
    off: u32,
) -> bool {
    if rd != 0 {
        match spec_csr_read(&pre, csr) {
            Option::None => r == Err::<u8, Trap>(spec_illegal(w)) && post == pre,
            Option::Some(oldv) => if spec_csr_writable(csr) {
                spec_ok4(r) && post.x@ == spec_set_x(pre.x@, rd, oldv) && post.bank()
                    == spec_bank_write(pre.bank(), csr, v) && post.pc == wsub(wadd(pre.pc, 4), off)
                    && post.mmu == pre.mmu
            } else {
                r == Err::<u8, Trap>(spec_illegal(w)) && post == pre
            },
        }
    } else {
        if spec_csr_writable(csr) {
            spec_ok4(r) && post.x@ == pre.x@ && post.bank() == spec_bank_write(pre.bank(), csr, v)
                && post.pc == wsub(wadd(pre.pc, 4), off) && post.mmu == pre.mmu
        } else {
            r == Err::<u8, Trap>(spec_illegal(w)) && post == pre
        }
    }
}

/// The full dispatch relation: given the word `w` that was fetched, what
/// [`CPU::execute`] returns and how the machine moves, case by case over
/// [`spec_decode`]. Every fault leaves the machine exactly as it was;
/// every recognized-but-unimplemented encoding (SRET, WFI, the CSR
/// set/clear forms, the atomics, the compressed quadrants) degrades to
/// the illegal-instruction trap.
pub open spec fn spec_execute_rel(
    pre: CPU,
    post: CPU,
    w: u32,
    r: Result<u8, Trap>,
    off: u32,
) -> bool {
    match spec_decode(w) {
        Instr::Lui { rd, imm } => spec_ok4(r) && spec_reg_step(pre, post, rd, imm, off),
        Instr::Auipc { rd, imm } => spec_ok4(r) && spec_reg_step(
            pre,
            post,
            rd,
            wadd(imm, pre.pc),
            off,
        ),
        Instr::Jal { rd, imm } => spec_ok4(r) && spec_jump_step(
            pre,
            post,
            rd,
            wadd(pre.pc, imm),
            off,
        ),
        Instr::Jalr { rd, rs1, imm } => spec_ok4(r) && spec_jump_step(
            pre,
            post,
            rd,
            wadd(pre.x@[rs1 as int], imm) & !1u32,
            off,
        ),
        Instr::Branch { cond, rs1, rs2, imm } => spec_ok4(r) && spec_pc_step(
            pre,
            post,
            if spec_branch_taken(cond, pre.x@[rs1 as int], pre.x@[rs2 as int]) {
                wadd(pre.pc, imm)
            } else {
                wadd(pre.pc, 4)
            },
            off,
        ),
        Instr::Load { kind, rd, rs1, imm } => spec_load_rel(
            pre,
            post,
            kind,
            rd,
            wadd(pre.x@[rs1 as int], imm),
            r,
            off,
        ),
        Instr::Store { kind, rs1, rs2, imm } => spec_store_rel(
            pre,
            post,
            kind,
            pre.x@[rs2 as int],
            wadd(pre.x@[rs1 as int], imm),
            r,
            off,
        ),
        Instr::AluImm { op, rd, rs1, imm } => spec_ok4(r) && spec_reg_step(
            pre,
            post,
            rd,
            spec_alu(op, pre.x@[rs1 as int], imm),
            off,
        ),
        Instr::AluReg { op, rd, rs1, rs2 } => spec_ok4(r) && spec_reg_step(
            pre,
            post,
            rd,
            spec_alu(op, pre.x@[rs1 as int], pre.x@[rs2 as int]),
            off,
        ),
        Instr::Fence => spec_ok4(r) && spec_pc_step(pre, post, wadd(pre.pc, 4), off),
        Instr::FenceI => spec_ok4(r) && spec_pc_step(pre, post, wadd(pre.pc, 4), off),
        Instr::Ecall => r == Err::<u8, Trap>(
            Trap { tcause: TrapType::EnvironmentCallFromMMode, tval: pre.pc },
        ) && post == pre,
        Instr::Ebreak => r == Err::<u8, Trap>(Trap { tcause: TrapType::Breakpoint, tval: pre.pc })
            && post == pre,
        Instr::Mret => spec_ok4(r) && spec_pc_step(pre, post, pre.mepc, off),
        Instr::Sret => r == Err::<u8, Trap>(spec_illegal(w)) && post == pre,
        Instr::Wfi => r == Err::<u8, Trap>(spec_illegal(w)) && post == pre,
        Instr::Csr { op, csr, src, rd } => match op {
            CsrOp::Rw => spec_csr_rw_rel(pre, post, csr, pre.x@[src as int], rd, w, r, off),
            CsrOp::Rwi => spec_csr_rw_rel(pre, post, csr, src as u32, rd, w, r, off),
            _ => r == Err::<u8, Trap>(spec_illegal(w)) && post == pre,
        },
        Instr::Amo { .. } => r == Err::<u8, Trap>(spec_illegal(w)) && post == pre,
        Instr::Compressed { .. } => r == Err::<u8, Trap>(spec_illegal(w)) && post == pre,
        Instr::Illegal => r == Err::<u8, Trap>(spec_illegal(w)) && post == pre,
    }
}

/// What fetching at the current counter yields: the RAM word at `pc`, or
/// an `InstructionAccessFault` carrying `pc` when the word does not lie
/// in RAM.
pub open spec fn spec_fetch(c: &CPU) -> Result<u32, Trap> {
    if spec_ram_span(c.pc, 4) {
        Ok(spec_ram_word(c.mmu.ram(), spec_ram_index(c.pc)))
    } else {
        Err(Trap { tcause: TrapType::InstructionAccessFault, tval: c.pc })
    }
}

/// Undoing the dispatch convention's offset: subtracting 4 before an
/// unconditional wrapping add of 4 is the identity, and a zero offset
/// subtracts nothing.
proof fn lemma_wrap_offsets()
    ensures
        forall|t: u32| #[trigger] wadd(wsub(t, 4), 4) == t,
        forall|t: u32| #[trigger] wsub(t, 0) == t,
{
    assert forall|t: u32| #[trigger] wadd(wsub(t, 4), 4) == t by {
        reveal(vstd::wrapping::u32_specs::wrapping_add);
        reveal(vstd::wrapping::u32_specs::wrapping_sub);
    }
    assert forall|t: u32| #[trigger] wsub(t, 0) == t by {
        reveal(vstd::wrapping::u32_specs::wrapping_sub);
    }
}

/// After the dispatch of `w` moved `pre` to `mid` (with the counter still
/// 4 short), adding the consumed length yields a state that stands in the
/// dispatch relation with no outstanding offset.
proof fn lemma_rel_advance(pre: CPU, mid: CPU, post: CPU, w: u32)
    requires
        spec_execute_rel(pre, mid, w, Ok::<u8, Trap>(4u8), 4),
        post == (CPU { pc: wadd(mid.pc, 4), ..mid }),
    ensures
        spec_execute_rel(pre, post, w, Ok::<u8, Trap>(4u8), 0),
{
    lemma_wrap_offsets();
    match spec_decode(w) {
        Instr::Load { kind, rd, rs1, imm } => {
            let addr = wadd(pre.x@[rs1 as int], imm);
            if kind == LoadKind::W && !spec_ram_span(addr, 4) && addr == PRIMITIVE_AUDIO_ADDRESS {
                let v = choose|v: u32| spec_reg_step(pre, mid, rd, v, 4);
                assert(spec_reg_step(pre, post, rd, v, 0));
            }
        },
        _ => {},
    }
}

impl CPU {
    /// One load, routed through the MMU and widened per its kind.
    fn load_op(&mut self, kind: LoadKind, rd: u8, addr: u32) -> (r: Result<u8, Trap>)
        requires
            old(self).wf(),
            rd < 32,
        ensures
            final(self).wf(),
            spec_load_rel(*old(self), *final(self), kind, rd, addr, r, 4),
    {
        match kind {
            LoadKind::B => match self.mmu.read_byte(addr) {
                Ok(v) => {
                    self.set_x(rd, sext8(v));
                    Ok(4)
                },
                Err(t) => Err(t),
            },
            LoadKind::Bu => match self.mmu.read_byte(addr) {
                Ok(v) => {
                    self.set_x(rd, v as u32);
                    Ok(4)
                },
                Err(t) => Err(t),
            },
            LoadKind::H => match self.mmu.read_halfword(addr) {
                Ok(v) => {
                    self.set_x(rd, sext16(v));
                    Ok(4)
                },
                Err(t) => Err(t),
            },
            LoadKind::Hu => match self.mmu.read_halfword(addr) {
                Ok(v) => {
                    self.set_x(rd, v as u32);
                    Ok(4)
                },
                Err(t) => Err(t),
            },
            LoadKind::W => match self.mmu.read_word(addr) {
                Ok(v) => {
                    self.set_x(rd, v);
                    proof {
                        assert(spec_reg_step(*old(self), *self, rd, v, 4));
                    }
                    Ok(4)
                },
                Err(t) => Err(t),
            },
        }
    }

    /// One store, routed through the MMU with the value narrowed per its
    /// kind.
    fn store_op(&mut self, kind: StoreKind, v: u32, addr: u32) -> (r: Result<u8, Trap>)
        requires
            old(self).wf(),
        ensures
            final(self).wf(),
            spec_store_rel(*old(self), *final(self), kind, v, addr, r, 4),
    {
        let res = match kind {
            StoreKind::B => self.mmu.write_byte(addr, v as u8),
            StoreKind::H => self.mmu.write_halfword(addr, v as u16),
            StoreKind::W => self.mmu.write_word(addr, v),
        };
        match res {
            Ok(_) => Ok(4),
            Err(t) => Err(t),
        }
    }

    /// One CSRRW or CSRRWI: reads the old CSR value into `rd` when `rd`
    /// names a register, writes `v` into the CSR, and raises the
    /// illegal-instruction trap on a read-only or unmodeled CSR.
    fn csr_write_op(&mut self, csr: u16, v: u32, rd: u8, instr: u32) -> (r: Result<u8, Trap>)
        requires
            old(self).wf(),
            rd < 32,
        ensures
            final(self).wf(),
            spec_csr_rw_rel(*old(self), *final(self), csr, v, rd, instr, r, 4),
    {
        if rd != 0 {
            match self.get_csr(csr) {
                Option::Some(val) => match self.set_csr(csr, v) {
                    Option::Some(true) => {
                        self.set_x(rd, val);
                        Ok(4)
                    },
                    _ => Err(Trap { tcause: TrapType::IllegalInstruction, tval: instr }),
                },
                Option::None => Err(Trap { tcause: TrapType::IllegalInstruction, tval: instr }),
            }
        } else {
            match self.set_csr(csr, v) {
                Option::Some(true) => Ok(4),
                _ => Err(Trap { tcause: TrapType::IllegalInstruction, tval: instr }),
            }
        }
    }

    /// Dispatches and executes one already-fetched instruction word,
    /// leaving the counter 4 short of its true successor (the caller adds
    /// the consumed length). Faults are returned, not delivered.
    #[verifier::rlimit(100)]
    fn execute(&mut self, instr: u32) -> (r: Result<u8, Trap>)
        requires
            old(self).wf(),
        ensures
            final(self).wf(),
            spec_execute_rel(*old(self), *final(self), instr, r, 4),
    {
        proof {
            crate::ops_decode::lemma_field_extraction(instr);
        }
        match decode_instr(instr) {
            Instr::Lui { rd, imm } => {
                self.set_x(rd, imm);
                Ok(4)
            },
            Instr::Auipc { rd, imm } => {
                let val = imm.wrapping_add(self.pc);
                self.set_x(rd, val);
                Ok(4)
            },
            Instr::Jal { rd, imm } => {
                let t = self.pc.wrapping_add(imm);
                let ra = self.pc.wrapping_add(4);
                self.set_x(rd, ra);
                self.pc = t.wrapping_sub(4);
                Ok(4)
            },
            Instr::Jalr { rd, rs1, imm } => {
                let t = self.get_x(rs1).wrapping_add(imm) & !1;
                let ra = self.pc.wrapping_add(4);
                self.set_x(rd, ra);
                self.pc = t.wrapping_sub(4);
                Ok(4)
            },
            Instr::Branch { cond, rs1, rs2, imm } => {
                let a = self.get_x(rs1);
                let b = self.get_x(rs2);
                if branch_take(cond, a, b) {
                    self.pc = self.pc.wrapping_sub(4).wrapping_add(imm);
                }
                Ok(4)
            },
            Instr::Load { kind, rd, rs1, imm } => {
                let addr = self.get_x(rs1).wrapping_add(imm);
                self.load_op(kind, rd, addr)
            },
            Instr::Store { kind, rs1, rs2, imm } => {
                let addr = self.get_x(rs1).wrapping_add(imm);
                let v = self.get_x(rs2);
                self.store_op(kind, v, addr)
            },
            Instr::AluImm { op, rd, rs1, imm } => {
                let a = self.get_x(rs1);
                self.set_x(rd, alu_compute(op, a, imm));
                Ok(4)
            },
            Instr::AluReg { op, rd, rs1, rs2 } => {
                let a = self.get_x(rs1);
                let b = self.get_x(rs2);
                self.set_x(rd, alu_compute(op, a, b));
                Ok(4)
            },
            Instr::Fence => Ok(4),
            Instr::FenceI => Ok(4),
            Instr::Ecall => Err(
                Trap { tcause: TrapType::EnvironmentCallFromMMode, tval: self.pc },
            ),
            Instr::Ebreak => Err(Trap { tcause: TrapType::Breakpoint, tval: self.pc }),
            Instr::Mret => {
                self.pc = self.mepc.wrapping_sub(4);
                Ok(4)
            },
            Instr::Sret => Err(Trap { tcause: TrapType::IllegalInstruction, tval: instr }),
            Instr::Wfi => Err(Trap { tcause: TrapType::IllegalInstruction, tval: instr }),
            Instr::Csr { op, csr, src, rd } => match op {
                CsrOp::Rw => {
                    let v = self.get_x(src);
                    self.csr_write_op(csr, v, rd, instr)
                },
                CsrOp::Rwi => self.csr_write_op(csr, src as u32, rd, instr),
                _ => Err(Trap { tcause: TrapType::IllegalInstruction, tval: instr }),
            },
            Instr::Amo { .. } => Err(Trap { tcause: TrapType::IllegalInstruction, tval: instr }),
            Instr::Compressed { .. } => Err(
                Trap { tcause: TrapType::IllegalInstruction, tval: instr },
            ),
            Instr::Illegal => Err(Trap { tcause: TrapType::IllegalInstruction, tval: instr }),
        }
    }

    /// Fetches the word at the current counter through the MMU.
    fn fetch(&mut self) -> (r: Result<u32, Trap>)
        requires
            old(self).wf(),
        ensures
            final(self).wf(),
            *final(self) == *old(self),
            r == spec_fetch(&*old(self)),
    {
        self.mmu.fetch_word(self.pc)
    }

    /// One full instruction cycle: fetch at the counter, dispatch and
    /// execute, then advance the counter by the consumed length, so that
    /// jumps and branches land on their true target. A fault at any stage
    /// is returned with the machine exactly as it was; on success the
    /// executed word (never zero) is returned.
    pub fn execute_instruction(&mut self) -> (r: Result<u32, Trap>)
        requires
            old(self).wf(),
        ensures
            final(self).wf(),
            match spec_fetch(&*old(self)) {
                Result::Err(t) => r == Err::<u32, Trap>(t) && *final(self) == *old(self),
                Result::Ok(w) => match r {
                    Result::Ok(v) => v == w && spec_execute_rel(
                        *old(self),
                        *final(self),
                        w,
                        Ok::<u8, Trap>(4u8),
                        0,
                    ),
                    Result::Err(t) => spec_execute_rel(
                        *old(self),
                        *final(self),
                        w,
                        Err::<u8, Trap>(t),
                        0,
                    ) && *final(self) == *old(self),
                },
            },
    {
        let instr = match self.fetch() {
            Ok(w) => w,
            Err(t) => {
                return Err(t);
            },
        };
        let instr_len = match self.execute(instr) {
            Ok(l) => l,
            Err(t) => {
                proof {
                    lemma_wrap_offsets();
                }
                return Err(t);
            },
        };
        let ghost mid = *self;
        self.pc = self.pc.wrapping_add(instr_len as u32);
        proof {
            lemma_rel_advance(*old(self), mid, *self, instr);
        }
        Ok(instr)
    }

    /// One step of the run loop: execute one instruction; if it faults,
    /// deliver the trap instead. On plain success the executed word
    /// (never zero) is returned; a delivered trap returns zero; a trap
    /// that cannot be delivered is the fatal error, with the machine
    /// exactly as it was.
    pub fn step(&mut self) -> (r: Result<u32, FatalError>)
        requires
            old(self).wf(),
        ensures
            final(self).wf(),
            match spec_fetch(&*old(self)) {
                Result::Err(ft) => spec_trap_outcome(*old(self), *final(self), ft, r),
                Result::Ok(w) => (r == Ok::<u32, FatalError>(w) && w != 0 && spec_execute_rel(
                    *old(self),
                    *final(self),
                    w,
                    Ok::<u8, Trap>(4u8),
                    0,
                )) || (exists|t: Trap|
                    #[trigger] spec_execute_traps(*old(self), w, t) && spec_trap_outcome(
                        *old(self),
                        *final(self),
                        t,
                        r,
                    )),
            },
    {
        match self.execute_instruction() {
            Ok(v) => {
                proof {
                    if v == 0 {
                        assert(0u32 & 0x7f == 0u32) by (bit_vector);
                        assert(0u8 & 0b11 != 0b11) by (bit_vector);
                        assert(spec_decode(0u32) is Compressed);
                    }
                }
                Ok(v)
            },
            Err(t) => {
                proof {
                    let pre = *old(self);
                    if spec_fetch(&pre) is Ok {
                        let w = spec_fetch(&pre)->Ok_0;
                        assert(spec_execute_rel(pre, pre, w, Err::<u8, Trap>(t), 4));
                        assert(spec_execute_traps(pre, w, t));
                    }
                }
                match self.process_trap(t) {
                    Ok(_) => Ok(0),
                    Err(e) => Err(e),
                }
            },
        }
    }
}

/// How a trap that must be delivered ends: with no handler installed or a
/// vector mode other than direct, the fatal configuration error and an
/// untouched machine; otherwise a completed trap entry and the zero word.
pub open spec fn spec_trap_outcome(pre: CPU, post: CPU, t: Trap, r: Result<
    u32,
    FatalError,
>) -> bool {
    if pre.mtvec == 0 {
        r == Err::<u32, FatalError>(FatalError::UnsetTrapHandler) && post == pre
    } else if pre.mtvec & 0b11 != 0 {
        r == Err::<u32, FatalError>(FatalError::UnsupportedTrapVectorMode) && post == pre
    } else {
        r == Ok::<u32, FatalError>(0u32) && spec_trap_entry(pre, post, t)
    }
}

/// Executing the fetched word `w` in state `pre` faults with `t`: stated
/// through the dispatch relation at an unchanged state, which holds
/// exactly for the faulting cases.
pub open spec fn spec_execute_traps(pre: CPU, w: u32, t: Trap) -> bool {
    spec_execute_rel(pre, pre, w, Err::<u8, Trap>(t), 4)
}

/// Register x0 is hardwired to zero: a write aimed at index 0 is
/// discarded, so after any sequence of register writes a well-formed
/// register file still reads zero at index 0.
pub proof fn lemma_x0_invariant(x: Seq<u32>, rd: u8, val: u32)
    requires
        x.len() == 32,
        x[0] == 0,
        rd < 32,
    ensures
        spec_set_x(x, rd, val).len() == 32,
        spec_set_x(x, rd, val)[0] == 0,
{
}

/// The dispatch convention is lossless: a handler that sets the counter
/// to its target minus 4 lands exactly on the target after the caller's
/// unconditional wrapping increment, for every target.
pub proof fn lemma_dispatch_convention(target: u32)
    ensures
        wadd(wsub(target, 4), 4) == target,
{
    lemma_wrap_offsets();
}

} // verus!
