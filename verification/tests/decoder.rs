//! Decoder tests: field extraction, immediate decoding against the
//! independent reference parsers, compressed immediates, and encoding
//! round trips.

use rv32_core::ops_decode::encode_i_type;
use rv32_core::ops_decode::encode_r_type;
use rv32_core::ops_decode::encode_u_type;
use rv32_core::ops_decode::get_compressed_cj_jump_imm;
use rv32_core::ops_decode::get_funct3;
use rv32_core::ops_decode::get_funct7;
use rv32_core::ops_decode::get_imm_b_type;
use rv32_core::ops_decode::get_imm_i_type;
use rv32_core::ops_decode::get_imm_j_type;
use rv32_core::ops_decode::get_imm_s_type;
use rv32_core::ops_decode::get_imm_u_type;
use rv32_core::ops_decode::get_opcode;
use rv32_core::ops_decode::get_rd;
use rv32_core::ops_decode::get_rs1;
use rv32_core::ops_decode::get_rs2;
use rv32_core::ops_decode::parse_format_b;
use rv32_core::ops_decode::parse_format_i;
use rv32_core::ops_decode::parse_format_j;
use rv32_core::ops_decode::parse_format_s;
use rv32_core::ops_decode::parse_format_u;
use rv32_core::ops_decode::get_compressed_func;
use rv32_core::ops_decode::get_compressed_func2;
use rv32_core::ops_decode::get_compressed_func3;
use rv32_core::ops_decode::get_compressed_func4;
use rv32_core::ops_decode::get_compressed_func6;
use rv32_core::ops_decode::get_compressed_rd;
use rv32_core::ops_decode::get_compressed_rdc;
use rv32_core::ops_decode::get_compressed_rs1c;
use rv32_core::ops_decode::get_compressed_rs2;
use rv32_core::ops_decode::get_csr_num;
use rv32_core::ops_decode::get_rs3;
use rv32_core::ops_decode::get_compressed_ci_stack_load_32_imm;
use rv32_core::ops_decode::get_compressed_cl_mem_load_32_imm;
use rv32_core::ops_decode::get_compressed_cs_mem_store_32_imm;
use rv32_core::ops_decode::get_compressed_css_stack_write_32_imm;
use rv32_core::ops_decode::get_compressed_cb_and_imm;
use rv32_core::ops_decode::get_compressed_cb_branch_imm;
use rv32_core::ops_decode::get_compressed_cb_shift_imm;
use rv32_core::ops_decode::get_compressed_ci_addi16sp_imm;
use rv32_core::ops_decode::get_compressed_ci_li_addi_imm;
use rv32_core::ops_decode::get_compressed_ci_lui_imm;
use rv32_core::ops_decode::get_compressed_ciw_addi4spn_imm;

#[test]
fn test_r_type() {
    let n: u32 = 0b10101010_10101010_10101010_10101010;
    assert_eq!(get_opcode(n), 0b0101010);
    assert_eq!(get_rd(n), 0b10101);
    assert_eq!(get_funct3(n), 0b010);
    assert_eq!(get_rs1(n), 0b10101);
    assert_eq!(get_rs2(n), 0b1010);
    assert_eq!(get_funct7(n), 0b1010101);
}

#[test]
fn test_i_type() {
    let n: u32 = 0b10101010_10101010_10101010_10101010;
    assert_eq!(get_opcode(n), 0b0101010);
    assert_eq!(get_rd(n), 0b10101);
    assert_eq!(get_funct3(n), 0b010);
    assert_eq!(get_rs1(n), 0b10101);
    assert_eq!(get_imm_i_type(n), 0b11111111_11111111_11111010_10101010);
}

#[test]
fn test_s_type() {
    let n: u32 = 0b10101010_10101010_10101010_10101010;
    assert_eq!(get_opcode(n), 0b0101010);
    assert_eq!(get_rd(n), 0b10101);
    assert_eq!(get_funct3(n), 0b010);
    assert_eq!(get_rs1(n), 0b10101);
    assert_eq!(get_rs2(n), 0b1010);
    assert_eq!(get_imm_s_type(n), 0b11111111_11111111_11111010_10110101);
}

#[test]
fn test_b_imm() {
    let n: u32 = 0b10101010_10101010_10101010_10101010;
    let left = get_imm_b_type(n);
    let right = 0b1111_1111_1111_1111_1111_1010_1011_0100;
    assert_eq!(left, right)
}

#[test]
fn test_cj_imm() {
    let n: u16 = 0b000_10000000000_00;
    let left = get_compressed_cj_jump_imm(n);
    let right = 0b11111111111111111111100000000000;
    assert_eq!(left, right);
    let n: u16 = 0b000_01000000000_00;
    let left = get_compressed_cj_jump_imm(n);
    let right = 0b10000;
    assert_eq!(left, right);
    let n: u16 = 0b000_00110000000_00;
    let left = get_compressed_cj_jump_imm(n);
    let right = 0b1100000000;
    assert_eq!(left, right);
    let n: u16 = 0b000_00001000000_00;
    let left = get_compressed_cj_jump_imm(n);
    let right = 0b10000000000;
    assert_eq!(left, right);
    let n: u16 = 0b000_00000100000_00;
    let left = get_compressed_cj_jump_imm(n);
    let right = 0b1000000;
    assert_eq!(left, right);
    let n: u16 = 0b000_00000010000_00;
    let left = get_compressed_cj_jump_imm(n);
    let right = 0b10000000;
    assert_eq!(left, right);
    let n: u16 = 0b000_00000001110_00;
    let left = get_compressed_cj_jump_imm(n);
    let right = 0b1110;
    assert_eq!(left, right);
    let n: u16 = 0b000_00000000001_00;
    let left = get_compressed_cj_jump_imm(n);
    let right = 0b100000;
    assert_eq!(left, right);
}

#[test]
fn test_i_encoding() {
    let opcode = 0b0010011;
    let rd = 6;
    let funct3 = 0b101;
    let rs1 = 4;
    let imm = 10;
    let n = encode_i_type(opcode, rd, funct3, rs1, imm);
    assert_eq!(get_opcode(n), opcode);
    assert_eq!(get_rd(n), rd);
    assert_eq!(get_funct3(n), funct3);
    assert_eq!(get_rs1(n), rs1);
    assert_eq!(get_imm_i_type(n), imm as i32 as u32);
}

/// A deterministic pattern generator: every single-bit word, every
/// two-adjacent-bit word, dense alternating patterns, boundary values,
/// and a long multiplicative-congruential tail covering all byte mixes.
fn bit_patterns() -> Vec<u32> {
    let mut v: Vec<u32> = Vec::new();
    for i in 0..32 {
        v.push(1u32 << i);
        v.push(!(1u32 << i));
        v.push(3u32.wrapping_shl(i));
        v.push(0x8000_0001u32.rotate_left(i));
    }
    v.extend([0, u32::MAX, 0xAAAA_AAAA, 0x5555_5555, 0x7FFF_FFFF, 0x8000_0000, 0xFFF0_0000]);
    let mut s: u32 = 0x12345;
    for _ in 0..100_000 {
        s = s.wrapping_mul(1664525).wrapping_add(1013904223);
        v.push(s);
    }
    v
}

#[test]
fn imm_i_matches_reference() {
    for w in bit_patterns() {
        assert_eq!(get_imm_i_type(w), parse_format_i(w).imm, "word {w:#010x}");
    }
}

#[test]
fn imm_s_matches_reference() {
    for w in bit_patterns() {
        assert_eq!(get_imm_s_type(w), parse_format_s(w).imm, "word {w:#010x}");
    }
}

#[test]
fn imm_b_matches_reference() {
    for w in bit_patterns() {
        assert_eq!(get_imm_b_type(w), parse_format_b(w).imm, "word {w:#010x}");
    }
}

#[test]
fn imm_j_matches_reference() {
    for w in bit_patterns() {
        assert_eq!(get_imm_j_type(w), parse_format_j(w).imm, "word {w:#010x}");
    }
}

#[test]
fn imm_u_matches_reference() {
    for w in bit_patterns() {
        let f = parse_format_u(w);
        assert_eq!(get_imm_u_type(w), f.imm as u32, "word {w:#010x}");
        assert_eq!(f.rd, ((w >> 7) & 0x1f) as usize);
    }
}

#[test]
fn r_type_encoding_round_trip() {
    let n = encode_r_type(0b0110011, 3, 0b101, 7, 21, 0b0100000);
    assert_eq!(get_opcode(n), 0b0110011);
    assert_eq!(get_rd(n), 3);
    assert_eq!(get_funct3(n), 0b101);
    assert_eq!(get_rs1(n), 7);
    assert_eq!(get_rs2(n), 21);
    assert_eq!(get_funct7(n), 0b0100000);
}

#[test]
fn u_type_encoding_round_trip() {
    let n = encode_u_type(0b0110111, 10, 0x12345000u32 as i32);
    assert_eq!(get_opcode(n), 0b0110111);
    assert_eq!(get_rd(n), 10);
    assert_eq!(get_imm_u_type(n), 0x12345000);
}

#[test]
fn compressed_fields() {
    let w: u16 = 0xAAAA;
    assert_eq!(get_compressed_func3(w), 0b101);
    assert_eq!(get_compressed_func4(w), 0b1010);
    assert_eq!(get_compressed_func6(w), 0b101010);
    assert_eq!(get_compressed_func2(w), 0b10);
    assert_eq!(get_compressed_func(w), 0b01);
    assert_eq!(get_compressed_rs1c(w), 0b101);
    assert_eq!(get_compressed_rdc(w), 0b010);
    assert_eq!(get_compressed_rs2(w), 0b01010);
    assert_eq!(get_compressed_rd(w), 0b10101);
}

#[test]
fn rs3_and_csr_fields() {
    let w: u32 = 0xABCD_EF12;
    assert_eq!(get_rs3(w), 0b10101);
    assert_eq!(get_csr_num(w), 0xABC);
}

#[test]
fn compressed_stack_and_memory_offsets() {
    assert_eq!(get_compressed_ci_stack_load_32_imm(0x1000), 32);
    assert_eq!(get_compressed_ci_stack_load_32_imm(0x000C), 192);
    assert_eq!(get_compressed_ci_stack_load_32_imm(0x0070), 28);
    assert_eq!(get_compressed_css_stack_write_32_imm(0x0F00), 60);
    assert_eq!(get_compressed_css_stack_write_32_imm(0x00C0), 192);
    assert_eq!(get_compressed_cl_mem_load_32_imm(0x1C00), 56);
    assert_eq!(get_compressed_cl_mem_load_32_imm(0x000C), 192);
    assert_eq!(get_compressed_cl_mem_load_32_imm(0x0070), 28);
    assert_eq!(get_compressed_cs_mem_store_32_imm(0x1C00), 56);
    assert_eq!(get_compressed_cs_mem_store_32_imm(0x000C), 192);
}

#[test]
fn compressed_signed_immediates() {
    assert_eq!(get_compressed_cb_shift_imm(0x1000), 32);
    assert_eq!(get_compressed_cb_shift_imm(0x007C), 31);
    assert_eq!(get_compressed_cb_and_imm(0x1000), (-32i32) as u32);
    assert_eq!(get_compressed_cb_and_imm(0x0074), 29);
    assert_eq!(get_compressed_cb_branch_imm(0x1000), (-256i32) as u32);
    assert_eq!(get_compressed_cb_branch_imm(0x0004), 32);
    assert_eq!(get_compressed_ci_li_addi_imm(0x1028), (-22i32) as u32);
    assert_eq!(get_compressed_ci_li_addi_imm(0x0028), 10);
    assert_eq!(get_compressed_ci_lui_imm(0x1000), 0xFFFE_0000);
    assert_eq!(get_compressed_ci_lui_imm(0x0004), 0x1000);
    assert_eq!(get_compressed_ci_addi16sp_imm(0x1000), (-512i32) as u32);
    assert_eq!(get_compressed_ci_addi16sp_imm(0x0040), 16);
    assert_eq!(get_compressed_ci_addi16sp_imm(0x0004), 32);
    assert_eq!(get_compressed_ci_addi16sp_imm(0x0018), 384);
    assert_eq!(get_compressed_ci_addi16sp_imm(0x0020), 64);
    assert_eq!(get_compressed_ciw_addi4spn_imm(0x0780), 960);
    assert_eq!(get_compressed_ciw_addi4spn_imm(0x0020), 8);
    assert_eq!(get_compressed_ciw_addi4spn_imm(0x0040), 4);
    assert_eq!(get_compressed_ciw_addi4spn_imm(0x1800), 48);
}

#[test]
fn i_encoding_negative_immediate() {
    let n = encode_i_type(0b0010011, 5, 0b000, 6, -2048);
    assert_eq!(get_imm_i_type(n), (-2048i32) as u32);
    let n = encode_i_type(0b0010011, 5, 0b000, 6, -1);
    assert_eq!(get_imm_i_type(n), u32::MAX);
}
