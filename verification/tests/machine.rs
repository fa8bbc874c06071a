//! Whole-machine tests: instruction semantics through the fetch/decode/
//! dispatch/execute cycle, MMU routing and faults, UART and audio device
//! behavior, and the trap controller.

use rv32_core::emulator::Emulator;
use rv32_core::mmu::MMU;
use rv32_core::mmu::PRIMITIVE_AUDIO_ADDRESS;
use rv32_core::mmu::RAM_ADDRESS;
use rv32_core::mmu::UART_ADDRESS;
use rv32_core::ops_decode::encode_i_type;
use rv32_core::ops_decode::encode_r_type;
use rv32_core::ops_decode::encode_u_type;
use rb::RbConsumer;
use rv32_core::traps::FatalError;
use rv32_core::traps::Trap;
use rv32_core::traps::TrapType;

/// A machine whose RAM starts with the given instruction words, entered
/// at the first of them.
fn machine_with(words: &[u32]) -> Emulator {
    let (mut mmu, _audio) = MMU::new();
    let mut a = RAM_ADDRESS;
    for &w in words {
        mmu.write_word(a, w).unwrap();
        a += 4;
    }
    Emulator::new(mmu, RAM_ADDRESS)
}

fn addi(rd: u8, rs1: u8, imm: i16) -> u32 {
    encode_i_type(0b0010011, rd, 0b000, rs1, imm)
}

fn alu_reg(funct3: u8, funct7: u8, rd: u8, rs1: u8, rs2: u8) -> u32 {
    encode_r_type(0b0110011, rd, funct3, rs1, rs2, funct7)
}

fn store(funct3: u8, rs1: u8, rs2: u8, imm: i16) -> u32 {
    encode_r_type(0b0100011, (imm & 0x1f) as u8, funct3, rs1, rs2, ((imm >> 5) & 0x7f) as u8)
}

fn load(funct3: u8, rd: u8, rs1: u8, imm: i16) -> u32 {
    encode_i_type(0b0000011, rd, funct3, rs1, imm)
}

fn csrrw(rd: u8, rs1: u8, csr: i16) -> u32 {
    encode_i_type(0b1110011, rd, 0b001, rs1, csr)
}

fn jal(rd: u8, imm: i32) -> u32 {
    let imm = imm as u32;
    0b1101111u32
        | ((rd as u32) << 7)
        | (((imm >> 12) & 0xff) << 12)
        | (((imm >> 11) & 1) << 20)
        | (((imm >> 1) & 0x3ff) << 21)
        | (((imm >> 20) & 1) << 31)
}

const EBREAK: u32 = 0x00100073;
const ECALL: u32 = 0x00000073;
const MRET: u32 = 0x30200073;
const SRET: u32 = 0x10200073;
const WFI: u32 = 0x10500073;

fn reg(emu: &Emulator, i: usize) -> u32 {
    emu.cpu.get_registers()[i]
}

fn run_steps(emu: &mut Emulator, n: usize) {
    for _ in 0..n {
        emu.cpu.execute_instruction().unwrap();
    }
}

#[test]
fn x0_stays_zero() {
    let mut emu = machine_with(&[addi(0, 0, 123), addi(1, 0, 7)]);
    run_steps(&mut emu, 2);
    assert_eq!(reg(&emu, 0), 0);
    assert_eq!(reg(&emu, 1), 7);
}

#[test]
fn set_registers_keeps_zero_register() {
    let mut emu = machine_with(&[]);
    let mut regs = vec![9u32; 32];
    regs[5] = 55;
    emu.cpu.set_registers(regs);
    assert_eq!(reg(&emu, 0), 0);
    assert_eq!(reg(&emu, 1), 9);
    assert_eq!(reg(&emu, 5), 55);
}

#[test]
fn addi_round_trip() {
    let mut emu = machine_with(&[
        addi(5, 0, 100),
        addi(5, 5, 1023),
        addi(5, 5, -1023),
        addi(6, 0, -5),
        addi(6, 6, 37),
        addi(6, 6, -37),
    ]);
    run_steps(&mut emu, 3);
    assert_eq!(reg(&emu, 5), 100);
    run_steps(&mut emu, 3);
    assert_eq!(reg(&emu, 6), (-5i32) as u32);
}

#[test]
fn divide_by_zero_convention() {
    let mut emu = machine_with(&[
        addi(1, 0, 1234),
        alu_reg(0b100, 1, 3, 1, 0), // div
        alu_reg(0b101, 1, 4, 1, 0), // divu
        alu_reg(0b110, 1, 5, 1, 0), // rem
        alu_reg(0b111, 1, 6, 1, 0), // remu
    ]);
    run_steps(&mut emu, 5);
    assert_eq!(reg(&emu, 3), 0xFFFF_FFFF);
    assert_eq!(reg(&emu, 4), 0xFFFF_FFFF);
    assert_eq!(reg(&emu, 5), 1234);
    assert_eq!(reg(&emu, 6), 1234);
}

#[test]
fn signed_division_rounds_toward_zero() {
    let mut emu = machine_with(&[
        addi(1, 0, -7),
        addi(2, 0, 2),
        alu_reg(0b100, 1, 3, 1, 2), // div -> -3
        alu_reg(0b110, 1, 4, 1, 2), // rem -> -1
        addi(5, 0, 7),
        addi(6, 0, -2),
        alu_reg(0b100, 1, 7, 5, 6), // div -> -3
        alu_reg(0b110, 1, 8, 5, 6), // rem -> 1
    ]);
    run_steps(&mut emu, 8);
    assert_eq!(reg(&emu, 3), (-3i32) as u32);
    assert_eq!(reg(&emu, 4), (-1i32) as u32);
    assert_eq!(reg(&emu, 7), (-3i32) as u32);
    assert_eq!(reg(&emu, 8), 1);
}

#[test]
fn division_overflow_wraps() {
    let mut emu = machine_with(&[
        encode_u_type(0b0110111, 1, i32::MIN), // lui x1, 0x80000000
        addi(2, 0, -1),
        alu_reg(0b100, 1, 3, 1, 2), // div MIN / -1 -> MIN
        alu_reg(0b110, 1, 4, 1, 2), // rem MIN % -1 -> 0
    ]);
    run_steps(&mut emu, 4);
    assert_eq!(reg(&emu, 3), 0x8000_0000);
    assert_eq!(reg(&emu, 4), 0);
}

#[test]
fn mul_high_words() {
    let mut emu = machine_with(&[
        addi(1, 0, -1),
        alu_reg(0b011, 1, 3, 1, 1), // mulhu -> 0xFFFFFFFE
        alu_reg(0b001, 1, 4, 1, 1), // mulh (-1 * -1 = 1) -> 0
        alu_reg(0b010, 1, 5, 1, 1), // mulhsu (-1 * 0xFFFFFFFF) -> 0xFFFFFFFF
        alu_reg(0b000, 1, 6, 1, 1), // mul -> 1
    ]);
    run_steps(&mut emu, 5);
    assert_eq!(reg(&emu, 3), 0xFFFF_FFFE);
    assert_eq!(reg(&emu, 4), 0);
    assert_eq!(reg(&emu, 5), 0xFFFF_FFFF);
    assert_eq!(reg(&emu, 6), 1);
}

#[test]
fn shift_semantics() {
    let mut emu = machine_with(&[
        addi(1, 0, -8),
        encode_i_type(0b0010011, 2, 0b101, 1, 0x402), // srai x2, x1, 2 -> -2
        encode_i_type(0b0010011, 3, 0b101, 1, 2),     // srli x3, x1, 2
        addi(4, 0, 33),                               // shift amount masked to 1
        alu_reg(0b001, 0, 5, 1, 4),                   // sll x5, x1, x4
    ]);
    run_steps(&mut emu, 5);
    assert_eq!(reg(&emu, 2), (-2i32) as u32);
    assert_eq!(reg(&emu, 3), 0x3FFF_FFFE);
    assert_eq!(reg(&emu, 5), 0xFFFF_FFF0);
}

#[test]
fn branch_signed_and_unsigned() {
    // blt x1, x2 taken (-1 < 1 signed): skips the poison addi;
    // bltu x1, x2 not taken (0xFFFFFFFF > 1 unsigned): poison addi runs.
    let blt = |rs1: u8, rs2: u8, imm: i16, funct3: u8| -> u32 {
        let imm = imm as u32;
        encode_r_type(
            0b1100011,
            (((imm >> 11) & 1) | (imm & 0x1e)) as u8,
            funct3,
            rs1,
            rs2,
            (((imm >> 12) & 1) << 6) as u8 | ((imm >> 5) & 0x3f) as u8,
        )
    };
    let mut emu = machine_with(&[
        addi(1, 0, -1),
        addi(2, 0, 1),
        blt(1, 2, 8, 0b100),  // blt: taken, skip next
        addi(3, 0, 111),      // skipped
        blt(1, 2, 8, 0b110),  // bltu: not taken
        addi(4, 0, 222),      // runs
    ]);
    run_steps(&mut emu, 5);
    assert_eq!(reg(&emu, 3), 0);
    assert_eq!(reg(&emu, 4), 222);
}

#[test]
fn jal_lands_on_target() {
    let mut emu = machine_with(&[jal(1, 8), addi(6, 0, 11), addi(7, 0, 13)]);
    emu.cpu.execute_instruction().unwrap();
    assert_eq!(emu.cpu.pc, RAM_ADDRESS + 8);
    assert_eq!(reg(&emu, 1), RAM_ADDRESS + 4);
    emu.cpu.execute_instruction().unwrap();
    assert_eq!(reg(&emu, 6), 0);
    assert_eq!(reg(&emu, 7), 13);
}

#[test]
fn jalr_clears_low_bit() {
    // jalr x2, x1, 0 with x1 = RAM_ADDRESS + 13: the target drops its
    // low bit, and x2 receives the return address.
    let jalr = encode_i_type(0b1100111, 2, 0, 1, 0);
    let mut emu = machine_with(&[jalr]);
    let mut regs = emu.cpu.get_registers();
    regs[1] = RAM_ADDRESS + 13;
    emu.cpu.set_registers(regs);
    emu.cpu.execute_instruction().unwrap();
    assert_eq!(emu.cpu.pc, RAM_ADDRESS + 12);
    assert_eq!(reg(&emu, 2), RAM_ADDRESS + 4);
}

#[test]
fn mmu_boundary_faults() {
    let (mmu, _audio) = MMU::new();
    assert_eq!(
        mmu.read_byte(RAM_ADDRESS - 1),
        Err(Trap { tcause: TrapType::LoadAccessFault, tval: RAM_ADDRESS - 1 })
    );
    assert_eq!(mmu.read_byte(RAM_ADDRESS), Ok(0));
}

#[test]
fn load_below_ram_faults_with_address() {
    let mut emu = machine_with(&[
        encode_u_type(0b0110111, 1, RAM_ADDRESS as i32), // lui x1, RAM base
        load(0b010, 2, 1, -1),                           // lw x2, -1(x1)
    ]);
    emu.cpu.execute_instruction().unwrap();
    let res = emu.cpu.execute_instruction();
    assert_eq!(
        res,
        Err(Trap { tcause: TrapType::LoadAccessFault, tval: RAM_ADDRESS - 1 })
    );
}

#[test]
fn store_and_load_little_endian() {
    let mut emu = machine_with(&[
        encode_u_type(0b0110111, 1, RAM_ADDRESS as i32),
        encode_u_type(0b0110111, 2, 0x12345000u32 as i32),
        addi(2, 2, 0x678),
        store(0b010, 1, 2, 0x100),  // sw x2, 0x100(x1)
        load(0b000, 3, 1, 0x100),   // lb  -> sign-extended 0x78
        load(0b100, 4, 1, 0x101),   // lbu -> 0x56
        load(0b001, 5, 1, 0x102),   // lh  -> 0x1234
        load(0b010, 6, 1, 0x100),   // lw  -> whole word
    ]);
    run_steps(&mut emu, 8);
    assert_eq!(reg(&emu, 2), 0x12345678);
    assert_eq!(reg(&emu, 3), 0x78);
    assert_eq!(reg(&emu, 4), 0x56);
    assert_eq!(reg(&emu, 5), 0x1234);
    assert_eq!(reg(&emu, 6), 0x12345678);
    assert_eq!(emu.cpu.mmu.read_byte(RAM_ADDRESS + 0x100), Ok(0x78));
    assert_eq!(emu.cpu.mmu.read_byte(RAM_ADDRESS + 0x103), Ok(0x12));
}

#[test]
fn uart_end_to_end() {
    // Writes 'y' then a test id to the UART register, then hits an
    // illegal instruction with no trap handler installed: the run stops
    // and the queue holds exactly the two bytes, in order.
    let mut emu = machine_with(&[
        encode_u_type(0b0110111, 1, UART_ADDRESS as i32),
        addi(2, 0, b'y' as i16),
        store(0b000, 1, 2, 0), // sb x2, 0(x1)
        addi(3, 0, 42),
        store(0b000, 1, 3, 0), // sb x3, 0(x1)
        0xFFFF_FFFF,           // illegal
    ]);
    while emu.cpu.execute_instruction().is_ok() {}
    let mut out = Vec::new();
    while let Some(b) = emu.cpu.mmu.uart.try_get_byte() {
        out.push(b);
    }
    assert_eq!(out, vec![b'y', 42]);
}

#[test]
fn uart_queue_is_fifo() {
    let (mut mmu, _audio) = MMU::new();
    assert_eq!(mmu.uart.try_get_byte(), None);
    mmu.write_byte(UART_ADDRESS, 1).unwrap();
    mmu.write_byte(UART_ADDRESS, 2).unwrap();
    mmu.write_byte(UART_ADDRESS, 3).unwrap();
    assert_eq!(mmu.uart.try_get_byte(), Some(1));
    assert_eq!(mmu.uart.try_get_byte(), Some(2));
    assert_eq!(mmu.uart.try_get_byte(), Some(3));
    assert_eq!(mmu.uart.try_get_byte(), None);
    // A store elsewhere in the UART region is an unimplemented register:
    // it faults rather than queueing.
    assert_eq!(
        mmu.write_byte(UART_ADDRESS + 1, 9),
        Err(Trap { tcause: TrapType::StoreAccessFault, tval: UART_ADDRESS + 1 })
    );
}

#[test]
fn audio_register_counts_samples() {
    let (mut mmu, _audio) = MMU::new();
    assert_eq!(mmu.read_word(PRIMITIVE_AUDIO_ADDRESS), Ok(0));
    mmu.write_halfword(PRIMITIVE_AUDIO_ADDRESS, 0x7FFF).unwrap();
    assert_eq!(mmu.read_word(PRIMITIVE_AUDIO_ADDRESS), Ok(1));
    mmu.write_halfword(PRIMITIVE_AUDIO_ADDRESS, 0x8000).unwrap();
    assert_eq!(mmu.read_word(PRIMITIVE_AUDIO_ADDRESS), Ok(2));
    // Word-sized stores to the audio register are not implemented.
    assert_eq!(
        mmu.write_word(PRIMITIVE_AUDIO_ADDRESS, 5),
        Err(Trap { tcause: TrapType::StoreAccessFault, tval: PRIMITIVE_AUDIO_ADDRESS })
    );
}

#[test]
fn audio_playback_half_drains_samples() {
    let (mut mmu, audio) = MMU::new();
    mmu.write_halfword(PRIMITIVE_AUDIO_ADDRESS, 123).unwrap();
    mmu.write_halfword(PRIMITIVE_AUDIO_ADDRESS, 456).unwrap();
    let mut buf = [0i16; 2];
    assert_eq!(audio.internal_buffer.read(&mut buf).unwrap(), 2);
    assert_eq!(buf, [123, 456]);
    assert_eq!(mmu.read_word(PRIMITIVE_AUDIO_ADDRESS), Ok(0));
}

#[test]
fn trap_round_trip() {
    let mut emu = machine_with(&[EBREAK]);
    emu.cpu.mtvec = RAM_ADDRESS + 0x100;
    assert_eq!(emu.cpu.step(), Ok(0));
    assert_eq!(emu.cpu.mepc, RAM_ADDRESS);
    assert_eq!(emu.cpu.mcause, 3);
    assert_eq!(emu.cpu.mtval, RAM_ADDRESS);
    assert_eq!(emu.cpu.pc, RAM_ADDRESS + 0x100);
}

#[test]
fn step_returns_word_on_success() {
    let mut emu = machine_with(&[addi(1, 0, 5)]);
    assert_eq!(emu.cpu.step(), Ok(addi(1, 0, 5)));
    assert_eq!(reg(&emu, 1), 5);
}

#[test]
fn unset_trap_handler_is_fatal() {
    let mut emu = machine_with(&[EBREAK]);
    assert_eq!(emu.cpu.step(), Err(FatalError::UnsetTrapHandler));
    assert_eq!(emu.cpu.pc, RAM_ADDRESS);
}

#[test]
fn vectored_trap_mode_is_fatal() {
    let mut emu = machine_with(&[EBREAK]);
    emu.cpu.mtvec = (RAM_ADDRESS + 0x100) | 1;
    assert_eq!(emu.cpu.step(), Err(FatalError::UnsupportedTrapVectorMode));
}

#[test]
fn ecall_cause_and_value() {
    let mut emu = machine_with(&[ECALL]);
    assert_eq!(
        emu.cpu.execute_instruction(),
        Err(Trap { tcause: TrapType::EnvironmentCallFromMMode, tval: RAM_ADDRESS })
    );
}

#[test]
fn illegal_instruction_carries_word() {
    let w = 0xDEAD_BE7F; // full-width, unassigned opcode
    let mut emu = machine_with(&[w]);
    assert_eq!(
        emu.cpu.execute_instruction(),
        Err(Trap { tcause: TrapType::IllegalInstruction, tval: w })
    );
}

#[test]
fn unimplemented_encodings_degrade_to_illegal() {
    for w in [
        SRET,
        WFI,
        0x1000_A1AF, // lr.w: an atomic, recognized but unimplemented
        0x0000_0001, // compressed quadrant
        encode_i_type(0b1110011, 1, 0b010, 2, 0x340), // csrrs
        encode_i_type(0b1110011, 1, 0b011, 2, 0x340), // csrrc
    ] {
        let mut emu = machine_with(&[w]);
        assert_eq!(
            emu.cpu.execute_instruction(),
            Err(Trap { tcause: TrapType::IllegalInstruction, tval: w }),
            "word {w:#010x}"
        );
    }
}

#[test]
fn fetch_outside_ram_faults() {
    let (mmu, _audio) = MMU::new();
    let mut emu = Emulator::new(mmu, 0x1000);
    assert_eq!(
        emu.cpu.execute_instruction(),
        Err(Trap { tcause: TrapType::InstructionAccessFault, tval: 0x1000 })
    );
}

#[test]
fn csr_write_and_read_back() {
    let mut emu = machine_with(&[
        addi(2, 0, 77),
        csrrw(1, 2, 0x340),  // mscratch <- 77, x1 <- old (0)
        csrrw(3, 0, 0x340),  // mscratch <- 0, x3 <- 77
    ]);
    run_steps(&mut emu, 3);
    assert_eq!(reg(&emu, 1), 0);
    assert_eq!(reg(&emu, 3), 77);
    assert_eq!(emu.cpu.mscratch, 0);
}

#[test]
fn csrrwi_writes_immediate() {
    let mut emu = machine_with(&[
        encode_i_type(0b1110011, 1, 0b101, 21, 0x340), // csrrwi x1, mscratch, 21
        encode_i_type(0b1110011, 0, 0b101, 9, 0x340),  // csrrwi x0, mscratch, 9
    ]);
    run_steps(&mut emu, 2);
    assert_eq!(reg(&emu, 1), 0);
    assert_eq!(emu.cpu.mscratch, 9);
}

#[test]
fn write_to_read_only_csr_is_illegal() {
    let w = csrrw(1, 2, 0x301); // misa is read-only
    let mut emu = machine_with(&[w]);
    assert_eq!(
        emu.cpu.execute_instruction(),
        Err(Trap { tcause: TrapType::IllegalInstruction, tval: w })
    );
    // The identity registers read as constants.
    let mut emu = machine_with(&[csrrw(1, 0, 0xF11u16 as i16)]);
    emu.cpu.execute_instruction().unwrap_err(); // write rejected, rd untouched
}

#[test]
fn mret_returns_to_mepc() {
    let mut emu = machine_with(&[MRET]);
    emu.cpu.mepc = RAM_ADDRESS + 0x40;
    emu.cpu.execute_instruction().unwrap();
    assert_eq!(emu.cpu.pc, RAM_ADDRESS + 0x40);
}

#[test]
fn raw_ram_access_is_bounded() {
    let (mut mmu, _audio) = MMU::new();
    assert!(mmu.write_raw_to_ram(RAM_ADDRESS + 5, 0xAB));
    assert_eq!(mmu.read_raw_from_ram(RAM_ADDRESS + 5), Some(0xAB));
    assert!(!mmu.write_raw_to_ram(RAM_ADDRESS - 1, 0xAB));
    assert_eq!(mmu.read_raw_from_ram(RAM_ADDRESS - 1), None);
    assert_eq!(mmu.read_raw_from_ram(UART_ADDRESS), None);
}

#[test]
fn trap_cause_codes_follow_the_standard() {
    let t = |tcause: TrapType| Trap { tcause, tval: 0 }.get_trap_cause();
    assert_eq!(t(TrapType::InstructionAddressMisaligned), 0);
    assert_eq!(t(TrapType::IllegalInstruction), 2);
    assert_eq!(t(TrapType::Breakpoint), 3);
    assert_eq!(t(TrapType::LoadAccessFault), 5);
    assert_eq!(t(TrapType::StoreAccessFault), 7);
    assert_eq!(t(TrapType::EnvironmentCallFromMMode), 11);
    assert_eq!(t(TrapType::MachineTimerInterrupt), 0x8000_0007);
    assert_eq!(t(TrapType::MachineExternalInterrupt), 0x8000_000B);
}

#[test]
fn initial_state() {
    let (mmu, _audio) = MMU::new();
    let emu = Emulator::new(mmu, RAM_ADDRESS + 0x20);
    assert_eq!(emu.cpu.pc, RAM_ADDRESS + 0x20);
    let regs = emu.cpu.get_registers();
    assert_eq!(regs.len(), 32);
    assert_eq!(regs[2], 0x83FF_FFFC); // sp at the last word-aligned RAM address
    for (i, &v) in regs.iter().enumerate() {
        if i != 2 {
            assert_eq!(v, 0);
        }
    }
    assert_eq!(emu.cpu.mtvec, 0);
    assert_eq!(emu.cpu.mstatus, 0);
}
