//! Core of a 32-bit RISC-V (RV32IMA subset) hart emulator: instruction
//! decoding, instruction execution against a register file and CSR bank,
//! machine-mode trap handling, and a memory-management unit that routes
//! accesses to RAM and to memory-mapped devices.

pub mod cpu;
pub mod emulator;
pub mod insn;
pub mod mmu;
pub mod ops_decode;
pub mod primitive_audio;
pub mod traps;
pub mod uart;
