//! Pure bit-field extraction for the RISC-V instruction formats (R, I, S, B,
//! U, J, CSR, rs3), the corresponding immediate decoders with exact
//! sign-extension, the compressed (16-bit) field and immediate decoders, and
//! a few encoders used to assemble instruction words.
//!
//! Every extractor is a pure function of the instruction word, specified
//! against a direct statement of the RISC-V base encoding, and each
//! immediate decoder is proved equal to an independently written reference
//! decoder (`parse_format_*`).

use vstd::prelude::*;

verus! {

/// A mask keeping the low `n` bits, for `1 <= n <= 32`.
pub open spec fn low_mask32(n: u32) -> u32 {
    u32::MAX >> ((32 - n) as u32)
}

/// A mask keeping the low `n` bits of a 16-bit word, for `1 <= n <= 16`.
pub open spec fn low_mask16(n: u16) -> u16 {
    u16::MAX >> ((16 - n) as u16)
}

/// What the field extractors return: bits `[31:0]` of `data` shifted right by
/// `shift` and masked to `mask` bits.
pub open spec fn spec_shift_and_trim(data: u32, shift: u32, mask: u32) -> u32 {
    (data >> shift) & low_mask32(mask)
}

fn shift_and_trim(data: u32, shift: u32, mask: u32) -> (r: u32)
    requires
        shift < 32,
        1 <= mask <= 32,
    ensures
        r == spec_shift_and_trim(data, shift, mask),
{
    data >> shift & (u32::MAX >> (32 - mask))
}

/// Bits `[end:begin]` of `data`, placed so that bit `begin` lands on bit
/// `start` of the result.
pub open spec fn spec_from_to_get(data: u32, begin: u32, end: u32, start: u32) -> u32 {
    spec_shift_and_trim(data, begin, (end - begin + 1) as u32) << start
}

fn from_to_get(data: u32, begin: u32, end: u32, start: u32) -> (r: u32)
    requires
        begin <= end < 32,
        start < 32,
    ensures
        r == spec_from_to_get(data, begin, end, start),
{
    shift_and_trim(data, begin, end - begin + 1) << start
}

/// Replicates bit `size - 1` of `data` into all higher bits; bits of `data`
/// at or above `size` do not influence the result.
pub open spec fn spec_sign_extend32(data: u32, size: u32) -> u32 {
    if size >= 32 {
        data
    } else if (data >> (size - 1) as u32) & 1 == 1 {
        (data & low_mask32(size)) | !low_mask32(size)
    } else {
        data & low_mask32(size)
    }
}

fn sign_extend32(data: u32, size: u32) -> (r: u32)
    requires
        1 <= size <= 32,
    ensures
        r == spec_sign_extend32(data, size),
{
    if size >= 32 {
        data
    } else {
        let mask: u32 = u32::MAX >> (32 - size);
        if (data >> (size - 1)) & 1 == 1 {
            (data & mask) | !mask
        } else {
            data & mask
        }
    }
}

/// The 16-bit analogue of [`spec_sign_extend32`].
pub open spec fn spec_sign_extend16(data: u16, size: u16) -> u16 {
    if size >= 16 {
        data
    } else if (data >> (size - 1) as u16) & 1 == 1 {
        (data & low_mask16(size)) | !low_mask16(size)
    } else {
        data & low_mask16(size)
    }
}

fn sign_extend16(data: u16, size: u16) -> (r: u16)
    requires
        1 <= size <= 16,
    ensures
        r == spec_sign_extend16(data, size),
{
    if size >= 16 {
        data
    } else {
        let mask: u16 = u16::MAX >> (16 - size);
        if (data >> (size - 1)) & 1 == 1 {
            (data & mask) | !mask
        } else {
            data & mask
        }
    }
}

/// The primary opcode: bits `[6:0]`.
pub open spec fn spec_opcode(w: u32) -> u8 {
    (w & 0x7f) as u8
}

/// The destination register index: bits `[11:7]`.
pub open spec fn spec_rd(w: u32) -> u8 {
    ((w >> 7) & 0x1f) as u8
}

/// The minor opcode: bits `[14:12]`.
pub open spec fn spec_funct3(w: u32) -> u8 {
    ((w >> 12) & 0x7) as u8
}

/// The first source register index: bits `[19:15]`.
pub open spec fn spec_rs1(w: u32) -> u8 {
    ((w >> 15) & 0x1f) as u8
}

/// The second source register index: bits `[24:20]`.
pub open spec fn spec_rs2(w: u32) -> u8 {
    ((w >> 20) & 0x1f) as u8
}

/// The funct7 field: bits `[31:25]`.
pub open spec fn spec_funct7(w: u32) -> u8 {
    ((w >> 25) & 0x7f) as u8
}

/// The third source register index of fused ops: bits `[31:27]`.
pub open spec fn spec_rs3(w: u32) -> u8 {
    ((w >> 27) & 0x1f) as u8
}

/// The CSR index of the SYSTEM opcode area: bits `[31:20]`.
pub open spec fn spec_csr_num(w: u32) -> u16 {
    ((w >> 20) & 0xfff) as u16
}

/// Bit facts connecting the executable extraction route (shift, mask, cast)
/// with the direct field specifications.
pub(crate) proof fn lemma_field_extraction(w: u32)
    by (bit_vector)
    ensures
        (w >> 0) & (u32::MAX >> 25) == (w & 0x7f),
        (w & 0x7f) < 0x80,
        (w >> 7) & (u32::MAX >> 27) == ((w >> 7) & 0x1f),
        ((w >> 7) & 0x1f) < 0x20,
        (w >> 12) & (u32::MAX >> 29) == ((w >> 12) & 0x7),
        ((w >> 12) & 0x7) < 0x8,
        (w >> 15) & (u32::MAX >> 27) == ((w >> 15) & 0x1f),
        ((w >> 15) & 0x1f) < 0x20,
        (w >> 20) & (u32::MAX >> 27) == ((w >> 20) & 0x1f),
        ((w >> 20) & 0x1f) < 0x20,
        (w >> 25) & (u32::MAX >> 25) == ((w >> 25) & 0x7f),
        ((w >> 25) & 0x7f) < 0x80,
        ((w >> 27) & (u32::MAX >> 27)) << 0 == ((w >> 27) & 0x1f),
        ((w >> 27) & 0x1f) < 0x20,
        (w >> 20) == ((w >> 20) & 0xfff) || (w >> 20) > 0xfff,
        (w >> 20) < 0x1000,
{
}

pub fn get_opcode(instruction: u32) -> (r: u8)
    ensures
        r == spec_opcode(instruction),
{
    proof { lemma_field_extraction(instruction); }
    shift_and_trim(instruction, 0, 7) as u8
}

pub fn get_rd(instruction: u32) -> (r: u8)
    ensures
        r == spec_rd(instruction),
{
    proof { lemma_field_extraction(instruction); }
    shift_and_trim(instruction, 7, 5) as u8
}

pub fn get_funct3(instruction: u32) -> (r: u8)
    ensures
        r == spec_funct3(instruction),
{
    proof { lemma_field_extraction(instruction); }
    shift_and_trim(instruction, 12, 3) as u8
}

pub fn get_rs1(instruction: u32) -> (r: u8)
    ensures
        r == spec_rs1(instruction),
{
    proof { lemma_field_extraction(instruction); }
    shift_and_trim(instruction, 15, 5) as u8
}

pub fn get_rs2(instruction: u32) -> (r: u8)
    ensures
        r == spec_rs2(instruction),
{
    proof { lemma_field_extraction(instruction); }
    shift_and_trim(instruction, 20, 5) as u8
}

pub fn get_funct7(instruction: u32) -> (r: u8)
    ensures
        r == spec_funct7(instruction),
{
    proof { lemma_field_extraction(instruction); }
    shift_and_trim(instruction, 25, 7) as u8
}

pub fn get_rs3(instruction: u32) -> (r: u8)
    ensures
        r == spec_rs3(instruction),
{
    proof { lemma_field_extraction(instruction); }
    from_to_get(instruction, 27, 31, 0) as u8
}

pub fn get_csr_num(instruction: u32) -> (r: u16)
    ensures
        r == spec_csr_num(instruction),
{
    proof { lemma_field_extraction(instruction); }
    (instruction >> 20) as u16
}

/// The I-type immediate: bits `[31:20]`, sign-extended from 12 bits.
pub open spec fn spec_imm_i(w: u32) -> u32 {
    let low = (w >> 20) & 0xfff;
    if (w >> 31) & 1 == 1 {
        low | 0xffff_f000
    } else {
        low
    }
}

pub fn get_imm_i_type(instruction: u32) -> (r: u32)
    ensures
        r == spec_imm_i(instruction),
{
    proof {
        assert(spec_sign_extend32(spec_shift_and_trim(instruction, 20, 12), 12)
            == spec_imm_i(instruction)) by (bit_vector);
    }
    sign_extend32(shift_and_trim(instruction, 20, 12), 12)
}

/// The S-type immediate: bits `[31:25]` over bits `[11:7]`, sign-extended
/// from 12 bits.
pub open spec fn spec_imm_s(w: u32) -> u32 {
    let low = (((w >> 25) & 0x7f) << 5) | ((w >> 7) & 0x1f);
    if (w >> 31) & 1 == 1 {
        low | 0xffff_f000
    } else {
        low
    }
}

pub fn get_imm_s_type(instruction: u32) -> (r: u32)
    ensures
        r == spec_imm_s(instruction),
{
    let funct7 = get_funct7(instruction);
    let rd = get_rd(instruction);
    proof {
        assert(spec_sign_extend32(
            ((((instruction >> 25) & 0x7f) as u8 as u32) << 5) | (((instruction >> 7) & 0x1f) as u8 as u32),
            12,
        ) == spec_imm_s(instruction)) by (bit_vector);
    }
    sign_extend32((funct7 as u32) << 5 | rd as u32, 12)
}

/// The B-type immediate: four disjoint bit groups reassembled into a 13-bit
/// offset whose low bit is zero, sign-extended from 13 bits.
pub open spec fn spec_imm_b(w: u32) -> u32 {
    let low = (((w >> 8) & 0xf) << 1) | (((w >> 25) & 0x3f) << 5) | (((w >> 7) & 1) << 11);
    if (w >> 31) & 1 == 1 {
        low | 0xffff_f000
    } else {
        low
    }
}

pub fn get_imm_b_type(instruction: u32) -> (r: u32)
    ensures
        r == spec_imm_b(instruction),
{
    let i_11_8: u32 = from_to_get(instruction, 8, 11, 1);
    let i_30_25: u32 = from_to_get(instruction, 25, 30, 5);
    let i_31: u32 = from_to_get(instruction, 31, 31, 12);
    let i_7: u32 = from_to_get(instruction, 7, 7, 11);
    proof {
        assert(spec_sign_extend32(
            spec_from_to_get(instruction, 7, 7, 11) | spec_from_to_get(instruction, 8, 11, 1)
                | spec_from_to_get(instruction, 25, 30, 5) | spec_from_to_get(instruction, 31, 31, 12),
            13,
        ) == spec_imm_b(instruction)) by (bit_vector);
    }
    sign_extend32(i_7 | i_11_8 | i_30_25 | i_31, 13)
}

/// The U-type immediate: bits `[31:12]` of the word, low 12 bits zeroed.
pub open spec fn spec_imm_u(w: u32) -> u32 {
    w & 0xffff_f000
}

pub fn get_imm_u_type(instruction: u32) -> (r: u32)
    ensures
        r == spec_imm_u(instruction),
{
    proof {
        assert(instruction & !0xfffu32 == instruction & 0xffff_f000) by (bit_vector);
    }
    instruction & !0b1111_1111_1111
}

/// The J-type immediate: five disjoint bit groups reassembled into a 21-bit
/// offset whose low bit is zero, sign-extended from 21 bits.
pub open spec fn spec_imm_j(w: u32) -> u32 {
    let low = (((w >> 21) & 0x3ff) << 1) | (((w >> 20) & 1) << 11) | (((w >> 12) & 0xff) << 12);
    if (w >> 31) & 1 == 1 {
        low | 0xfff0_0000
    } else {
        low
    }
}

pub fn get_imm_j_type(instruction: u32) -> (r: u32)
    ensures
        r == spec_imm_j(instruction),
{
    let i_24_21: u32 = from_to_get(instruction, 21, 24, 1);
    let i_30_25: u32 = from_to_get(instruction, 25, 30, 5);
    let i_20: u32 = from_to_get(instruction, 20, 20, 11);
    let i_19_12: u32 = from_to_get(instruction, 12, 19, 12);
    let i_31: u32 = from_to_get(instruction, 31, 31, 20);
    proof {
        assert(spec_sign_extend32(
            spec_from_to_get(instruction, 21, 24, 1) | spec_from_to_get(instruction, 25, 30, 5)
                | spec_from_to_get(instruction, 20, 20, 11) | spec_from_to_get(instruction, 12, 19, 12)
                | spec_from_to_get(instruction, 31, 31, 20),
            21,
        ) == spec_imm_j(instruction)) by (bit_vector);
    }
    sign_extend32(i_24_21 | i_30_25 | i_20 | i_19_12 | i_31, 21)
}

/// The three function bits `[15:13]` of a compressed instruction.
pub open spec fn spec_compressed_func3(w: u16) -> u16 {
    w >> 13
}

pub fn get_compressed_func3(instruction: u16) -> (r: u16)
    ensures
        r == spec_compressed_func3(instruction),
{
    instruction >> 13
}

/// The four function bits `[15:12]` of a compressed instruction.
pub open spec fn spec_compressed_func4(w: u16) -> u16 {
    w >> 12
}

pub fn get_compressed_func4(instruction: u16) -> (r: u16)
    ensures
        r == spec_compressed_func4(instruction),
{
    instruction >> 12
}

/// The six function bits `[15:10]` of a compressed instruction.
pub open spec fn spec_compressed_func6(w: u16) -> u16 {
    w >> 10
}

pub fn get_compressed_func6(instruction: u16) -> (r: u16)
    ensures
        r == spec_compressed_func6(instruction),
{
    instruction >> 10
}

/// The two function bits `[11:10]` of a compressed instruction.
pub open spec fn spec_compressed_func2(w: u16) -> u16 {
    (w >> 10) & 0x3
}

pub fn get_compressed_func2(instruction: u16) -> (r: u16)
    ensures
        r == spec_compressed_func2(instruction),
{
    (instruction >> 10) & 0x3
}

/// The two function bits `[6:5]` of a compressed instruction.
pub open spec fn spec_compressed_func(w: u16) -> u16 {
    (w >> 5) & 0x3
}

pub fn get_compressed_func(instruction: u16) -> (r: u16)
    ensures
        r == spec_compressed_func(instruction),
{
    (instruction >> 5) & 0x3
}

/// The compact rs1' register index: bits `[9:7]`.
pub open spec fn spec_compressed_rs1c(w: u16) -> u8 {
    ((w >> 7) & 0x7) as u8
}

pub fn get_compressed_rs1c(instruction: u16) -> (r: u8)
    ensures
        r == spec_compressed_rs1c(instruction),
{
    ((instruction >> 7) & 0x7) as u8
}

/// The compact rs2'/rd' register index: bits `[4:2]`.
pub open spec fn spec_compressed_rdc(w: u16) -> u8 {
    ((w >> 2) & 0x7) as u8
}

pub fn get_compressed_rdc(instruction: u16) -> (r: u8)
    ensures
        r == spec_compressed_rdc(instruction),
{
    ((instruction >> 2) & 0x7) as u8
}

/// The full rs2 register index of a compressed instruction: bits `[6:2]`.
pub open spec fn spec_compressed_rs2(w: u16) -> u8 {
    ((w >> 2) & 0x1f) as u8
}

pub fn get_compressed_rs2(instruction: u16) -> (r: u8)
    ensures
        r == spec_compressed_rs2(instruction),
{
    ((instruction >> 2) & 0x1f) as u8
}

/// The full rd register index of a compressed instruction: bits `[11:7]`.
pub open spec fn spec_compressed_rd(w: u16) -> u8 {
    ((w >> 7) & 0x1f) as u8
}

pub fn get_compressed_rd(instruction: u16) -> (r: u8)
    ensures
        r == spec_compressed_rd(instruction),
{
    ((instruction >> 7) & 0x1f) as u8
}

/// The CJ-format jump offset, reassembled from bits `[12:2]` and
/// sign-extended from 12 bits.
pub open spec fn spec_compressed_cj_imm(w: u16) -> u32 {
    let raw: u32 = ((w >> 2) & 0x7ff) as u32;
    spec_sign_extend32(
        ((raw >> 1) & 0x7) << 1 | ((raw >> 9) & 1) << 4 | (raw & 1) << 5 | ((raw >> 5) & 1) << 6
            | ((raw >> 4) & 1) << 7 | ((raw >> 7) & 0x3) << 8 | ((raw >> 6) & 1) << 10
            | ((raw >> 10) & 1) << 11,
        12,
    )
}

pub fn get_compressed_cj_jump_imm(instruction: u16) -> (r: u32)
    ensures
        r == spec_compressed_cj_imm(instruction),
{
    let raw_imm: u32 = ((instruction >> 2) & 0x7ff) as u32;
    let off5: u32 = raw_imm & 1;
    let off3_1: u32 = (raw_imm >> 1) & 0x7;
    let off7: u32 = (raw_imm >> 4) & 1;
    let off6: u32 = (raw_imm >> 5) & 1;
    let off10: u32 = (raw_imm >> 6) & 1;
    let off9_8: u32 = (raw_imm >> 7) & 0x3;
    let off4: u32 = (raw_imm >> 9) & 1;
    let off11: u32 = (raw_imm >> 10) & 1;
    sign_extend32(
        off3_1 << 1 | off4 << 4 | off5 << 5 | off6 << 6 | off7 << 7 | off9_8 << 8 | off10 << 10
            | off11 << 11,
        12,
    )
}

/// The CI-format stack-relative load offset of 32-bit loads.
pub open spec fn spec_compressed_ci_stack_load_32_imm(w: u16) -> u32 {
    ((((w >> 2) & 0x3) as u32) << 6) | ((((w >> 12) & 1) as u32) << 5) | ((((w >> 4) & 0x7) as u32)
        << 2)
}

pub fn get_compressed_ci_stack_load_32_imm(instruction: u16) -> (r: u32)
    ensures
        r == spec_compressed_ci_stack_load_32_imm(instruction),
{
    let off5: u32 = ((instruction >> 12) & 1) as u32;
    let off7_6: u32 = ((instruction >> 2) & 0x3) as u32;
    let off4_2: u32 = ((instruction >> 4) & 0x7) as u32;
    off7_6 << 6 | off5 << 5 | off4_2 << 2
}

/// The CSS-format stack-relative store offset of 32-bit stores.
pub open spec fn spec_compressed_css_stack_write_32_imm(w: u16) -> u32 {
    ((((w >> 8) & 0xf) as u32) << 2) | ((((w >> 6) & 0x3) as u32) << 6)
}

pub fn get_compressed_css_stack_write_32_imm(instruction: u16) -> (r: u32)
    ensures
        r == spec_compressed_css_stack_write_32_imm(instruction),
{
    let off7_6: u32 = ((instruction >> 6) & 0x3) as u32;
    let off5_2: u32 = ((instruction >> 8) & 0xf) as u32;
    off5_2 << 2 | off7_6 << 6
}

/// The CL-format register-relative load offset of 32-bit loads.
pub open spec fn spec_compressed_cl_mem_load_32_imm(w: u16) -> u32 {
    ((((w >> 2) & 0x3) as u32) << 6) | ((((w >> 10) & 0x7) as u32) << 3) | ((((w >> 4) & 0x7)
        as u32) << 2)
}

pub fn get_compressed_cl_mem_load_32_imm(instruction: u16) -> (r: u32)
    ensures
        r == spec_compressed_cl_mem_load_32_imm(instruction),
{
    let off5_3: u32 = ((instruction >> 10) & 0x7) as u32;
    let off6: u32 = ((instruction >> 2) & 0x3) as u32;
    let off2: u32 = ((instruction >> 4) & 0x7) as u32;
    off6 << 6 | off5_3 << 3 | off2 << 2
}

/// The CS-format register-relative store offset of 32-bit stores.
pub open spec fn spec_compressed_cs_mem_store_32_imm(w: u16) -> u32 {
    ((((w >> 2) & 0x3) as u32) << 6) | ((((w >> 10) & 0x7) as u32) << 3) | ((((w >> 4) & 0x7)
        as u32) << 2)
}

pub fn get_compressed_cs_mem_store_32_imm(instruction: u16) -> (r: u32)
    ensures
        r == spec_compressed_cs_mem_store_32_imm(instruction),
{
    let off5_3: u32 = ((instruction >> 10) & 0x7) as u32;
    let off6: u32 = ((instruction >> 2) & 0x3) as u32;
    let off2: u32 = ((instruction >> 4) & 0x7) as u32;
    off6 << 6 | off5_3 << 3 | off2 << 2
}

/// The CB-format shift amount: an unsigned 6-bit value.
pub open spec fn spec_compressed_cb_shift_imm(w: u16) -> u32 {
    ((((w >> 12) & 1) as u32) << 5) | (((w >> 2) & 0x1f) as u32)
}

pub fn get_compressed_cb_shift_imm(instruction: u16) -> (r: u32)
    ensures
        r == spec_compressed_cb_shift_imm(instruction),
{
    let shamt5: u32 = ((instruction >> 12) & 1) as u32;
    let shamt4_0: u32 = ((instruction >> 2) & 0x1f) as u32;
    shamt5 << 5 | shamt4_0
}

/// The CB-format and-immediate: a 6-bit value sign-extended from 6 bits.
pub open spec fn spec_compressed_cb_and_imm(w: u16) -> u32 {
    spec_sign_extend32(((((w >> 12) & 1) as u32) << 5) | (((w >> 2) & 0x1f) as u32), 6)
}

pub fn get_compressed_cb_and_imm(instruction: u16) -> (r: u32)
    ensures
        r == spec_compressed_cb_and_imm(instruction),
{
    let shamt5: u32 = ((instruction >> 12) & 1) as u32;
    let shamt4_0: u32 = ((instruction >> 2) & 0x1f) as u32;
    sign_extend32(shamt5 << 5 | shamt4_0, 6)
}

/// The CB-format branch offset, sign-extended from 9 bits.
pub open spec fn spec_compressed_cb_branch_imm(w: u16) -> u32 {
    spec_sign_extend32(
        ((((w >> 12) & 1) as u32) << 8) | ((((w >> 5) & 0x3) as u32) << 6) | ((((w >> 2) & 1)
            as u32) << 5) | ((((w >> 10) & 0x3) as u32) << 3) | ((((w >> 3) & 0x3) as u32) << 1),
        9,
    )
}

pub fn get_compressed_cb_branch_imm(instruction: u16) -> (r: u32)
    ensures
        r == spec_compressed_cb_branch_imm(instruction),
{
    let off5: u32 = ((instruction >> 2) & 1) as u32;
    let off2_1: u32 = ((instruction >> 3) & 0x3) as u32;
    let off7_6: u32 = ((instruction >> 5) & 0x3) as u32;
    let off4_3: u32 = ((instruction >> 10) & 0x3) as u32;
    let off8: u32 = ((instruction >> 12) & 1) as u32;
    sign_extend32(off8 << 8 | off7_6 << 6 | off5 << 5 | off4_3 << 3 | off2_1 << 1, 9)
}

/// The CI-format stack-pointer adjustment, sign-extended from 10 bits.
pub open spec fn spec_compressed_ci_addi16sp_imm(w: u16) -> u32 {
    spec_sign_extend32(
        ((((w >> 6) & 1) as u32) << 4) | ((((w >> 2) & 1) as u32) << 5) | ((((w >> 5) & 1) as u32)
            << 6) | ((((w >> 3) & 0x3) as u32) << 7) | ((((w >> 12) & 1) as u32) << 9),
        10,
    )
}

pub fn get_compressed_ci_addi16sp_imm(instruction: u16) -> (r: u32)
    ensures
        r == spec_compressed_ci_addi16sp_imm(instruction),
{
    let nzimm9: u32 = ((instruction >> 12) & 1) as u32;
    let nzimm5: u32 = ((instruction >> 2) & 1) as u32;
    let nzimm8_7: u32 = ((instruction >> 3) & 0x3) as u32;
    let nzimm6: u32 = ((instruction >> 5) & 1) as u32;
    let nzimm4: u32 = ((instruction >> 6) & 1) as u32;
    sign_extend32(nzimm4 << 4 | nzimm5 << 5 | nzimm6 << 6 | nzimm8_7 << 7 | nzimm9 << 9, 10)
}

/// The CI-format load/add immediate, sign-extended from 6 bits.
pub open spec fn spec_compressed_ci_li_addi_imm(w: u16) -> u32 {
    spec_sign_extend32(((((w >> 12) & 1) as u32) << 5) | (((w >> 2) & 0x1f) as u32), 6)
}

pub fn get_compressed_ci_li_addi_imm(instruction: u16) -> (r: u32)
    ensures
        r == spec_compressed_ci_li_addi_imm(instruction),
{
    let imm5: u32 = ((instruction >> 12) & 1) as u32;
    let imm4_0: u32 = ((instruction >> 2) & 0x1f) as u32;
    sign_extend32(imm5 << 5 | imm4_0, 6)
}

/// The CI-format upper immediate, sign-extended from 18 bits.
pub open spec fn spec_compressed_ci_lui_imm(w: u16) -> u32 {
    spec_sign_extend32(
        ((((w >> 12) & 1) as u32) << 17) | ((((w >> 2) & 0x1f) as u32) << 12),
        18,
    )
}

pub fn get_compressed_ci_lui_imm(instruction: u16) -> (r: u32)
    ensures
        r == spec_compressed_ci_lui_imm(instruction),
{
    let imm17: u32 = ((instruction >> 12) & 1) as u32;
    let imm16_12: u32 = ((instruction >> 2) & 0x1f) as u32;
    sign_extend32(imm17 << 17 | imm16_12 << 12, 18)
}

/// The CIW-format stack-pointer-relative offset: an unsigned 10-bit value.
pub open spec fn spec_compressed_ciw_addi4spn_imm(w: u16) -> u32 {
    ((((w >> 7) & 0xf) as u32) << 6) | ((((w >> 11) & 0x3) as u32) << 4) | ((((w >> 5) & 1) as u32)
        << 3) | ((((w >> 6) & 1) as u32) << 2)
}

pub fn get_compressed_ciw_addi4spn_imm(instruction: u16) -> (r: u32)
    ensures
        r == spec_compressed_ciw_addi4spn_imm(instruction),
{
    let nzimm3: u32 = ((instruction >> 5) & 1) as u32;
    let nzimm2: u32 = ((instruction >> 6) & 1) as u32;
    let nzimm9_6: u32 = ((instruction >> 7) & 0xf) as u32;
    let nzimm5_4: u32 = ((instruction >> 11) & 0x3) as u32;
    nzimm9_6 << 6 | nzimm5_4 << 4 | nzimm3 << 3 | nzimm2 << 2
}

/// Assembles an R-type instruction word. With every field in range, each
/// field extractor recovers the field that went in.
pub fn encode_r_type(opcode: u8, rd: u8, funct3: u8, rs1: u8, rs2: u8, funct7: u8) -> (r: u32)
    ensures
        r == (opcode as u32) | ((rd as u32) << 7) | ((funct3 as u32) << 12) | ((rs1 as u32) << 15)
            | ((rs2 as u32) << 20) | ((funct7 as u32) << 25),
        opcode < 0x80 && rd < 0x20 && funct3 < 0x8 && rs1 < 0x20 && rs2 < 0x20 && funct7 < 0x80
            ==> spec_opcode(r) == opcode && spec_rd(r) == rd && spec_funct3(r) == funct3
                && spec_rs1(r) == rs1 && spec_rs2(r) == rs2 && spec_funct7(r) == funct7,
{
    let word = (opcode as u32) | ((rd as u32) << 7) | ((funct3 as u32) << 12) | ((rs1 as u32)
        << 15) | ((rs2 as u32) << 20) | ((funct7 as u32) << 25);
    proof {
        assert({
            let w = (opcode as u32) | ((rd as u32) << 7) | ((funct3 as u32) << 12) | ((rs1 as u32)
                << 15) | ((rs2 as u32) << 20) | ((funct7 as u32) << 25);
            opcode < 0x80 && rd < 0x20 && funct3 < 0x8 && rs1 < 0x20 && rs2 < 0x20 && funct7 < 0x80
                ==> (w & 0x7f) == opcode && ((w >> 7) & 0x1f) == rd && ((w >> 12) & 0x7) == funct3
                && ((w >> 15) & 0x1f) == rs1 && ((w >> 20) & 0x1f) == rs2 && ((w >> 25) & 0x7f)
                == funct7
        }) by (bit_vector);
    }
    word
}

/// Assembles an I-type instruction word; the low 12 bits of `imm` are placed
/// in bits `[31:20]`. With every field in range, decoding recovers the
/// fields, and the decoded immediate is `imm` sign-extended from 12 bits.
pub fn encode_i_type(opcode: u8, rd: u8, funct3: u8, rs1: u8, imm: i16) -> (r: u32)
    ensures
        opcode < 0x80 && rd < 0x20 && funct3 < 0x8 && rs1 < 0x20 ==> spec_opcode(r) == opcode
            && spec_rd(r) == rd && spec_funct3(r) == funct3 && spec_rs1(r) == rs1 && spec_imm_i(r)
            == spec_sign_extend32((imm as u16 as u32) & 0xfff, 12),
{
    let word = (opcode as u32) | ((rd as u32) << 7) | ((funct3 as u32) << 12) | ((rs1 as u32)
        << 15) | (((imm & 0x0FFF) as u16 as u32) << 20);
    proof {
        assert({
            let w = (opcode as u32) | ((rd as u32) << 7) | ((funct3 as u32) << 12) | ((rs1 as u32)
                << 15) | (((imm & 0x0FFF) as u16 as u32) << 20);
            opcode < 0x80 && rd < 0x20 && funct3 < 0x8 && rs1 < 0x20 ==> (w & 0x7f) == opcode && ((
            w >> 7) & 0x1f) == rd && ((w >> 12) & 0x7) == funct3 && ((w >> 15) & 0x1f) == rs1
                && spec_imm_i(w) == spec_sign_extend32((imm as u16 as u32) & 0xfff, 12)
        }) by (bit_vector);
    }
    word
}

/// Assembles a U-type instruction word; the high 20 bits of `imm` are kept.
/// With `opcode` and `rd` in range, decoding recovers the fields and the
/// decoded U-immediate equals `imm` with its low 12 bits cleared.
pub fn encode_u_type(opcode: u8, rd: u8, imm: i32) -> (r: u32)
    ensures
        opcode < 0x80 && rd < 0x20 ==> spec_opcode(r) == opcode && spec_rd(r) == rd && spec_imm_u(
            r,
        ) == (imm as u32) & 0xffff_f000,
{
    let word = (opcode as u32) | ((rd as u32) << 7) | (imm as u32 & !0x0FFF);
    proof {
        assert({
            let w = (opcode as u32) | ((rd as u32) << 7) | ((imm as u32) & !0x0FFFu32);
            opcode < 0x80 && rd < 0x20 ==> (w & 0x7f) == opcode && ((w >> 7) & 0x1f) == rd && (w
                & 0xffff_f000) == (imm as u32) & 0xffff_f000
        }) by (bit_vector);
    }
    word
}

/// A decoded B-type instruction, produced by the independent reference
/// decoder [`parse_format_b`].
pub struct FormatB {
    pub rs1: u8,
    pub rs2: u8,
    pub imm: u32,
}

/// Reference decoder for the B format, written bit group by bit group; it
/// is proved to agree with [`get_imm_b_type`] on every word.
pub fn parse_format_b(word: u32) -> (r: FormatB)
    ensures
        r.rs1 == spec_rs1(word),
        r.rs2 == spec_rs2(word),
        r.imm == spec_imm_b(word),
{
    let sign: u32 = if word & 0x80000000 == 0x80000000 {
        0xfffff000
    } else {
        0
    };
    let imm = sign | ((word << 4) & 0x00000800) | ((word >> 20) & 0x000007e0) | ((word >> 7)
        & 0x0000001e);
    proof {
        assert({
            let s: u32 = if word & 0x80000000 == 0x80000000 {
                0xfffff000u32
            } else {
                0u32
            };
            s | ((word << 4) & 0x00000800) | ((word >> 20) & 0x000007e0) | ((word >> 7)
                & 0x0000001e) == spec_imm_b(word)
        }) by (bit_vector);
    }
    FormatB { rs1: ((word >> 15) & 0x1f) as u8, rs2: ((word >> 20) & 0x1f) as u8, imm }
}

/// A decoded CSR-form instruction, produced by [`parse_format_csr`].
pub struct FormatCSR {
    pub csr: u16,
    pub rs: u8,
    pub rd: u8,
}

/// Reference decoder for the CSR instruction form: the CSR index with the
/// source (also the immediate of the `*I` variants) and destination fields.
pub fn parse_format_csr(word: u32) -> (r: FormatCSR)
    ensures
        r.csr == spec_csr_num(word),
        r.rs == spec_rs1(word),
        r.rd == spec_rd(word),
{
    FormatCSR {
        csr: ((word >> 20) & 0xfff) as u16,
        rs: ((word >> 15) & 0x1f) as u8,
        rd: ((word >> 7) & 0x1f) as u8,
    }
}

/// A decoded I-type instruction, produced by the independent reference
/// decoder [`parse_format_i`].
pub struct FormatI {
    pub rd: u8,
    pub rs1: u8,
    pub imm: u32,
}

/// Reference decoder for the I format; it is proved to agree with
/// [`get_imm_i_type`] on every word.
pub fn parse_format_i(word: u32) -> (r: FormatI)
    ensures
        r.rd == spec_rd(word),
        r.rs1 == spec_rs1(word),
        r.imm == spec_imm_i(word),
{
    let sign: u32 = if word & 0x80000000 == 0x80000000 {
        0xfffff800
    } else {
        0
    };
    let imm = sign | ((word >> 20) & 0x000007ff);
    proof {
        assert({
            let s: u32 = if word & 0x80000000 == 0x80000000 {
                0xfffff800u32
            } else {
                0u32
            };
            s | ((word >> 20) & 0x000007ff) == spec_imm_i(word)
        }) by (bit_vector);
    }
    FormatI { rd: ((word >> 7) & 0x1f) as u8, rs1: ((word >> 15) & 0x1f) as u8, imm }
}

/// A decoded J-type instruction, produced by the independent reference
/// decoder [`parse_format_j`].
pub struct FormatJ {
    pub rd: u8,
    pub imm: u32,
}

/// Reference decoder for the J format; it is proved to agree with
/// [`get_imm_j_type`] on every word.
pub fn parse_format_j(word: u32) -> (r: FormatJ)
    ensures
        r.rd == spec_rd(word),
        r.imm == spec_imm_j(word),
{
    let sign: u32 = if word & 0x80000000 == 0x80000000 {
        0xfff00000
    } else {
        0
    };
    let imm = sign | (word & 0x000ff000) | ((word & 0x00100000) >> 9) | ((word & 0x7fe00000)
        >> 20);
    proof {
        assert({
            let s: u32 = if word & 0x80000000 == 0x80000000 {
                0xfff00000u32
            } else {
                0u32
            };
            s | (word & 0x000ff000) | ((word & 0x00100000) >> 9) | ((word & 0x7fe00000) >> 20)
                == spec_imm_j(word)
        }) by (bit_vector);
    }
    FormatJ { rd: ((word >> 7) & 0x1f) as u8, imm }
}

/// A decoded R-type instruction, produced by [`parse_format_r`].
pub struct FormatR {
    pub rd: u8,
    pub rs1: u8,
    pub rs2: u8,
}

/// Reference decoder for the R format's register fields.
pub fn parse_format_r(word: u32) -> (r: FormatR)
    ensures
        r.rd == spec_rd(word),
        r.rs1 == spec_rs1(word),
        r.rs2 == spec_rs2(word),
{
    FormatR {
        rd: ((word >> 7) & 0x1f) as u8,
        rs1: ((word >> 15) & 0x1f) as u8,
        rs2: ((word >> 20) & 0x1f) as u8,
    }
}

/// A decoded R-type instruction with an rs3 field, produced by
/// [`parse_format_r2`].
pub struct FormatR2 {
    pub rd: u8,
    pub rs1: u8,
    pub rs2: u8,
    pub rs3: u8,
}

/// Reference decoder for the R format extended with the rs3 field.
pub fn parse_format_r2(word: u32) -> (r: FormatR2)
    ensures
        r.rd == spec_rd(word),
        r.rs1 == spec_rs1(word),
        r.rs2 == spec_rs2(word),
        r.rs3 == spec_rs3(word),
{
    FormatR2 {
        rd: ((word >> 7) & 0x1f) as u8,
        rs1: ((word >> 15) & 0x1f) as u8,
        rs2: ((word >> 20) & 0x1f) as u8,
        rs3: ((word >> 27) & 0x1f) as u8,
    }
}

/// A decoded S-type instruction, produced by the independent reference
/// decoder [`parse_format_s`].
pub struct FormatS {
    pub rs1: u8,
    pub rs2: u8,
    pub imm: u32,
}

/// Reference decoder for the S format; it is proved to agree with
/// [`get_imm_s_type`] on every word.
pub fn parse_format_s(word: u32) -> (r: FormatS)
    ensures
        r.rs1 == spec_rs1(word),
        r.rs2 == spec_rs2(word),
        r.imm == spec_imm_s(word),
{
    let sign: u32 = if word & 0x80000000 == 0x80000000 {
        0xfffff000
    } else {
        0
    };
    let imm = sign | ((word >> 20) & 0xfe0) | ((word >> 7) & 0x1f);
    proof {
        assert({
            let s: u32 = if word & 0x80000000 == 0x80000000 {
                0xfffff000u32
            } else {
                0u32
            };
            s | ((word >> 20) & 0xfe0) | ((word >> 7) & 0x1f) == spec_imm_s(word)
        }) by (bit_vector);
    }
    FormatS { rs1: ((word >> 15) & 0x1f) as u8, rs2: ((word >> 20) & 0x1f) as u8, imm }
}

/// A decoded U-type instruction, produced by [`parse_format_u`]; the
/// immediate is widened to 64 bits with its sign replicated.
pub struct FormatU {
    pub rd: usize,
    pub imm: u64,
}

/// Reference decoder for the U format. The low 32 bits of the widened
/// immediate agree with [`get_imm_u_type`] on every word.
pub fn parse_format_u(word: u32) -> (r: FormatU)
    ensures
        r.rd == spec_rd(word) as usize,
        r.imm == if (word >> 31) & 1 == 1 {
            ((word & 0xffff_f000) as u64) | 0xffff_ffff_0000_0000u64
        } else {
            (word & 0xffff_f000) as u64
        },
        r.imm as u32 == spec_imm_u(word),
{
    let sign: u64 = if word & 0x80000000 == 0x80000000 {
        0xffffffff00000000
    } else {
        0
    };
    let imm = sign | ((word as u64) & 0xfffff000);
    proof {
        lemma_field_extraction(word);
        assert({
            let s: u64 = if word & 0x80000000 == 0x80000000 {
                0xffffffff00000000u64
            } else {
                0u64
            };
            let i = s | ((word as u64) & 0xfffff000);
            i == (if (word >> 31) & 1 == 1 {
                ((word & 0xffff_f000) as u64) | 0xffff_ffff_0000_0000u64
            } else {
                (word & 0xffff_f000) as u64
            }) && i as u32 == (word & 0xffff_f000)
        }) by (bit_vector);
    }
    FormatU { rd: ((word >> 7) & 0x1f) as usize, imm }
}

} // verus!
