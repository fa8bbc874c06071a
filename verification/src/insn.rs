//! The decoded instruction set and its arithmetic semantics.
//!
//! [`spec_decode`] states which instruction a 32-bit word denotes,
//! mirroring the two-level dispatch of the execution engine: primary
//! opcode, then funct3/funct7 (or the SYSTEM immediate, or the atomic
//! funct5), with an illegal-instruction fallthrough at every level.
//! [`decode_instr`] is the executable decoder, proved to return exactly
//! that instruction for every word. Encodings that are recognized but not
//! implemented (the atomics, the compressed quadrants, SRET, WFI, and the
//! CSR set/clear forms) decode to their own variants; the execution engine
//! degrades them to an illegal-instruction trap instead of stopping.

use crate::ops_decode::spec_csr_num;
use crate::ops_decode::spec_funct3;
use crate::ops_decode::spec_funct7;
use crate::ops_decode::spec_imm_b;
use crate::ops_decode::spec_imm_i;
use crate::ops_decode::spec_imm_j;
use crate::ops_decode::spec_imm_s;
use crate::ops_decode::spec_imm_u;
use crate::ops_decode::spec_opcode;
use crate::ops_decode::spec_rd;
use crate::ops_decode::spec_rs1;
use crate::ops_decode::spec_rs2;
use crate::ops_decode::spec_rs3;
use vstd::prelude::*;

verus! {

/// Wrapping 32-bit addition, as the hardware performs it.
pub open spec fn wadd(a: u32, b: u32) -> u32 {
    vstd::wrapping::u32_specs::wrapping_add(a, b)
}

/// Wrapping 32-bit subtraction.
pub open spec fn wsub(a: u32, b: u32) -> u32 {
    vstd::wrapping::u32_specs::wrapping_sub(a, b)
}

/// The two's-complement reading of a 32-bit word.
pub open spec fn spec_signed(v: u32) -> int {
    if v < 0x8000_0000 {
        v as int
    } else {
        v - 0x1_0000_0000
    }
}

/// A 32-bit word sign-extended into the low half of a 64-bit word.
pub open spec fn spec_sext64(v: u32) -> u64 {
    if v >= 0x8000_0000 {
        (v as u64) | 0xffff_ffff_0000_0000u64
    } else {
        v as u64
    }
}

/// A byte sign-extended to 32 bits.
pub open spec fn spec_sext8(v: u8) -> u32 {
    if v >= 0x80 {
        (v as u32) | 0xffff_ff00
    } else {
        v as u32
    }
}

/// A halfword sign-extended to 32 bits.
pub open spec fn spec_sext16(v: u16) -> u32 {
    if v >= 0x8000 {
        (v as u32) | 0xffff_0000
    } else {
        v as u32
    }
}

/// The two's-complement magnitude of a word read as signed.
pub open spec fn spec_abs_u32(v: u32) -> u32 {
    if v >= 0x8000_0000 {
        vstd::wrapping::u32_specs::wrapping_sub(0, v)
    } else {
        v
    }
}

/// An arithmetic right shift: the sign bit fills the vacated positions.
/// Meaningful for `s < 32`.
pub open spec fn spec_sra(a: u32, s: u32) -> u32 {
    if s == 0 {
        a
    } else if a >= 0x8000_0000 {
        (a >> s) | !(u32::MAX >> s)
    } else {
        a >> s
    }
}

/// The register-register and register-immediate ALU operations, the
/// M-extension multiplies and divides included.
#[derive(Debug, PartialEq, Eq, Structural, Clone, Copy)]
pub enum AluOp {
    Add,
    Sub,
    Slt,
    Sltu,
    Xor,
    Or,
    And,
    Sll,
    Srl,
    Sra,
    Mul,
    Mulh,
    Mulhsu,
    Mulhu,
    Div,
    Divu,
    Rem,
    Remu,
}

/// What each ALU operation computes, bit-exactly: add, subtract and the
/// shifts wrap as two's-complement hardware does; the shift amount is the
/// low five bits of the second operand; the high-word multiplies take the
/// upper half of the 64-bit product with the operands read signed, signed
/// by unsigned, or unsigned; the divides follow the RISC-V divide-by-zero
/// convention (all-ones quotient, dividend unchanged as remainder), round
/// towards zero, and wrap silently on the one overflowing division.
pub open spec fn spec_alu(op: AluOp, a: u32, b: u32) -> u32 {
    match op {
        AluOp::Add => wadd(a, b),
        AluOp::Sub => wsub(a, b),
        AluOp::Slt => if spec_signed(a) < spec_signed(b) {
            1
        } else {
            0
        },
        AluOp::Sltu => if a < b {
            1
        } else {
            0
        },
        AluOp::Xor => a ^ b,
        AluOp::Or => a | b,
        AluOp::And => a & b,
        AluOp::Sll => a << (b & 0x1f),
        AluOp::Srl => a >> (b & 0x1f),
        AluOp::Sra => spec_sra(a, b & 0x1f),
        AluOp::Mul => vstd::wrapping::u32_specs::wrapping_mul(a, b),
        AluOp::Mulh => (vstd::wrapping::u64_specs::wrapping_mul(spec_sext64(a), spec_sext64(b))
            >> 32) as u32,
        AluOp::Mulhsu => (vstd::wrapping::u64_specs::wrapping_mul(spec_sext64(a), b as u64)
            >> 32) as u32,
        AluOp::Mulhu => (vstd::wrapping::u64_specs::wrapping_mul(a as u64, b as u64) >> 32) as u32,
        AluOp::Div => if b == 0 {
            0xffff_ffff
        } else {
            let q = spec_abs_u32(a) / spec_abs_u32(b);
            if (a >= 0x8000_0000) != (b >= 0x8000_0000) {
                vstd::wrapping::u32_specs::wrapping_sub(0, q)
            } else {
                q
            }
        },
        AluOp::Divu => if b == 0 {
            u32::MAX
        } else {
            a / b
        },
        AluOp::Rem => if b == 0 {
            a
        } else {
            let m = spec_abs_u32(a) % spec_abs_u32(b);
            if a >= 0x8000_0000 {
                vstd::wrapping::u32_specs::wrapping_sub(0, m)
            } else {
                m
            }
        },
        AluOp::Remu => if b == 0 {
            a
        } else {
            a % b
        },
    }
}

/// The six conditional-branch comparisons.
#[derive(Debug, PartialEq, Eq, Structural, Clone, Copy)]
pub enum BranchCond {
    Eq,
    Ne,
    Lt,
    Ge,
    Ltu,
    Geu,
}

/// Whether a branch with condition `c` is taken on operands `a` and `b`.
pub open spec fn spec_branch_taken(c: BranchCond, a: u32, b: u32) -> bool {
    match c {
        BranchCond::Eq => a == b,
        BranchCond::Ne => a != b,
        BranchCond::Lt => spec_signed(a) < spec_signed(b),
        BranchCond::Ge => spec_signed(a) >= spec_signed(b),
        BranchCond::Ltu => a < b,
        BranchCond::Geu => a >= b,
    }
}

/// The load widths, with their sign- or zero-extension.
#[derive(Debug, PartialEq, Eq, Structural, Clone, Copy)]
pub enum LoadKind {
    B,
    H,
    W,
    Bu,
    Hu,
}

/// The store widths.
#[derive(Debug, PartialEq, Eq, Structural, Clone, Copy)]
pub enum StoreKind {
    B,
    H,
    W,
}

/// The six CSR access forms. Only the two write forms are implemented;
/// the set and clear forms degrade to an illegal-instruction trap.
#[derive(Debug, PartialEq, Eq, Structural, Clone, Copy)]
pub enum CsrOp {
    Rw,
    Rs,
    Rc,
    Rwi,
    Rsi,
    Rci,
}

/// A decoded instruction: one variant per handler of the execution engine,
/// plus variants for the recognized-but-unimplemented encodings and the
/// illegal fallthrough.
#[derive(Debug, PartialEq, Eq, Structural, Clone, Copy)]
pub enum Instr {
    Lui { rd: u8, imm: u32 },
    Auipc { rd: u8, imm: u32 },
    Jal { rd: u8, imm: u32 },
    Jalr { rd: u8, rs1: u8, imm: u32 },
    Branch { cond: BranchCond, rs1: u8, rs2: u8, imm: u32 },
    Load { kind: LoadKind, rd: u8, rs1: u8, imm: u32 },
    Store { kind: StoreKind, rs1: u8, rs2: u8, imm: u32 },
    AluImm { op: AluOp, rd: u8, rs1: u8, imm: u32 },
    AluReg { op: AluOp, rd: u8, rs1: u8, rs2: u8 },
    Fence,
    FenceI,
    Ecall,
    Ebreak,
    Sret,
    Mret,
    Wfi,
    Csr { op: CsrOp, csr: u16, src: u8, rd: u8 },
    Amo { funct5: u8, rd: u8, rs1: u8, rs2: u8 },
    Compressed { word: u16 },
    Illegal,
}

/// Which instruction a word denotes, mirroring the dispatch tree: the low
/// two opcode bits separate the compressed quadrants from full-width
/// instructions; the primary opcode picks the group; funct3, funct7, the
/// SYSTEM-area immediate or the atomic funct5 picks the instruction; and
/// every unmatched pattern falls through to `Illegal`.
pub open spec fn spec_decode(w: u32) -> Instr {
    let opcode = spec_opcode(w);
    let funct3 = spec_funct3(w);
    let funct7 = spec_funct7(w);
    let rd = spec_rd(w);
    let rs1 = spec_rs1(w);
    let rs2 = spec_rs2(w);
    if opcode & 0b11 != 0b11 {
        Instr::Compressed { word: w as u16 }
    } else if opcode == 0b0110111 {
        Instr::Lui { rd, imm: spec_imm_u(w) }
    } else if opcode == 0b0010111 {
        Instr::Auipc { rd, imm: spec_imm_u(w) }
    } else if opcode == 0b1101111 {
        Instr::Jal { rd, imm: spec_imm_j(w) }
    } else if opcode == 0b1100111 {
        if funct3 == 0 {
            Instr::Jalr { rd, rs1, imm: spec_imm_i(w) }
        } else {
            Instr::Illegal
        }
    } else if opcode == 0b1100011 {
        let imm = spec_imm_b(w);
        if funct3 == 0b000 {
            Instr::Branch { cond: BranchCond::Eq, rs1, rs2, imm }
        } else if funct3 == 0b001 {
            Instr::Branch { cond: BranchCond::Ne, rs1, rs2, imm }
        } else if funct3 == 0b100 {
            Instr::Branch { cond: BranchCond::Lt, rs1, rs2, imm }
        } else if funct3 == 0b101 {
            Instr::Branch { cond: BranchCond::Ge, rs1, rs2, imm }
        } else if funct3 == 0b110 {
            Instr::Branch { cond: BranchCond::Ltu, rs1, rs2, imm }
        } else if funct3 == 0b111 {
            Instr::Branch { cond: BranchCond::Geu, rs1, rs2, imm }
        } else {
            Instr::Illegal
        }
    } else if opcode == 0b0000011 {
        let imm = spec_imm_i(w);
        if funct3 == 0b000 {
            Instr::Load { kind: LoadKind::B, rd, rs1, imm }
        } else if funct3 == 0b001 {
            Instr::Load { kind: LoadKind::H, rd, rs1, imm }
        } else if funct3 == 0b010 {
            Instr::Load { kind: LoadKind::W, rd, rs1, imm }
        } else if funct3 == 0b100 {
            Instr::Load { kind: LoadKind::Bu, rd, rs1, imm }
        } else if funct3 == 0b101 {
            Instr::Load { kind: LoadKind::Hu, rd, rs1, imm }
        } else {
            Instr::Illegal
        }
    } else if opcode == 0b0100011 {
        let imm = spec_imm_s(w);
        if funct3 == 0b000 {
            Instr::Store { kind: StoreKind::B, rs1, rs2, imm }
        } else if funct3 == 0b001 {
            Instr::Store { kind: StoreKind::H, rs1, rs2, imm }
        } else if funct3 == 0b010 {
            Instr::Store { kind: StoreKind::W, rs1, rs2, imm }
        } else {
            Instr::Illegal
        }
    } else if opcode == 0b0010011 {
        let imm = spec_imm_i(w);
        if funct3 == 0b000 {
            Instr::AluImm { op: AluOp::Add, rd, rs1, imm }
        } else if funct3 == 0b010 {
            Instr::AluImm { op: AluOp::Slt, rd, rs1, imm }
        } else if funct3 == 0b011 {
            Instr::AluImm { op: AluOp::Sltu, rd, rs1, imm }
        } else if funct3 == 0b100 {
            Instr::AluImm { op: AluOp::Xor, rd, rs1, imm }
        } else if funct3 == 0b110 {
            Instr::AluImm { op: AluOp::Or, rd, rs1, imm }
        } else if funct3 == 0b111 {
            Instr::AluImm { op: AluOp::And, rd, rs1, imm }
        } else if funct3 == 0b001 {
            if funct7 == 0 {
                Instr::AluImm { op: AluOp::Sll, rd, rs1, imm }
            } else {
                Instr::Illegal
            }
        } else {
            if funct7 == 0 {
                Instr::AluImm { op: AluOp::Srl, rd, rs1, imm }
            } else if funct7 == 0b0100000 {
                Instr::AluImm { op: AluOp::Sra, rd, rs1, imm }
            } else {
                Instr::Illegal
            }
        }
    } else if opcode == 0b0110011 {
        if funct3 == 0b000 {
            if funct7 == 0 {
                Instr::AluReg { op: AluOp::Add, rd, rs1, rs2 }
            } else if funct7 == 1 {
                Instr::AluReg { op: AluOp::Mul, rd, rs1, rs2 }
            } else if funct7 == 0b0100000 {
                Instr::AluReg { op: AluOp::Sub, rd, rs1, rs2 }
            } else {
                Instr::Illegal
            }
        } else if funct3 == 0b001 {
            if funct7 == 0 {
                Instr::AluReg { op: AluOp::Sll, rd, rs1, rs2 }
            } else if funct7 == 1 {
                Instr::AluReg { op: AluOp::Mulh, rd, rs1, rs2 }
            } else {
                Instr::Illegal
            }
        } else if funct3 == 0b010 {
            if funct7 == 0 {
                Instr::AluReg { op: AluOp::Slt, rd, rs1, rs2 }
            } else if funct7 == 1 {
                Instr::AluReg { op: AluOp::Mulhsu, rd, rs1, rs2 }
            } else {
                Instr::Illegal
            }
        } else if funct3 == 0b011 {
            if funct7 == 0 {
                Instr::AluReg { op: AluOp::Sltu, rd, rs1, rs2 }
            } else if funct7 == 1 {
                Instr::AluReg { op: AluOp::Mulhu, rd, rs1, rs2 }
            } else {
                Instr::Illegal
            }
        } else if funct3 == 0b100 {
            if funct7 == 0 {
                Instr::AluReg { op: AluOp::Xor, rd, rs1, rs2 }
            } else if funct7 == 1 {
                Instr::AluReg { op: AluOp::Div, rd, rs1, rs2 }
            } else {
                Instr::Illegal
            }
        } else if funct3 == 0b101 {
            if funct7 == 0 {
                Instr::AluReg { op: AluOp::Srl, rd, rs1, rs2 }
            } else if funct7 == 1 {
                Instr::AluReg { op: AluOp::Divu, rd, rs1, rs2 }
            } else if funct7 == 0b0100000 {
                Instr::AluReg { op: AluOp::Sra, rd, rs1, rs2 }
            } else {
                Instr::Illegal
            }
        } else if funct3 == 0b110 {
            if funct7 == 0 {
                Instr::AluReg { op: AluOp::Or, rd, rs1, rs2 }
            } else if funct7 == 1 {
                Instr::AluReg { op: AluOp::Rem, rd, rs1, rs2 }
            } else {
                Instr::Illegal
            }
        } else {
            if funct7 == 0 {
                Instr::AluReg { op: AluOp::And, rd, rs1, rs2 }
            } else if funct7 == 1 {
                Instr::AluReg { op: AluOp::Remu, rd, rs1, rs2 }
            } else {
                Instr::Illegal
            }
        }
    } else if opcode == 0b0001111 {
        if funct3 == 0b000 {
            Instr::Fence
        } else if funct3 == 0b001 {
            Instr::FenceI
        } else {
            Instr::Illegal
        }
    } else if opcode == 0b1110011 {
        let csr = spec_csr_num(w);
        if funct3 == 0b000 {
            let imm = spec_imm_i(w);
            if imm == 0 {
                Instr::Ecall
            } else if imm == 1 {
                Instr::Ebreak
            } else if rs1 == 0 && rd == 0 {
                if imm == 0b000100000010 {
                    Instr::Sret
                } else if imm == 0b001100000010 {
                    Instr::Mret
                } else if imm == 0b000100000101 {
                    Instr::Wfi
                } else {
                    Instr::Illegal
                }
            } else {
                Instr::Illegal
            }
        } else if funct3 == 0b001 {
            Instr::Csr { op: CsrOp::Rw, csr, src: rs1, rd }
        } else if funct3 == 0b010 {
            Instr::Csr { op: CsrOp::Rs, csr, src: rs1, rd }
        } else if funct3 == 0b011 {
            Instr::Csr { op: CsrOp::Rc, csr, src: rs1, rd }
        } else if funct3 == 0b101 {
            Instr::Csr { op: CsrOp::Rwi, csr, src: rs1, rd }
        } else if funct3 == 0b110 {
            Instr::Csr { op: CsrOp::Rsi, csr, src: rs1, rd }
        } else if funct3 == 0b111 {
            Instr::Csr { op: CsrOp::Rci, csr, src: rs1, rd }
        } else {
            Instr::Illegal
        }
    } else if opcode == 0b0101111 {
        if funct3 == 0b010 {
            let funct5 = spec_rs3(w);
            if funct5 == 0b00010 || funct5 == 0b00011 || funct5 == 0b00001 || funct5 == 0b00000
                || funct5 == 0b00100 || funct5 == 0b01100 || funct5 == 0b01000 || funct5
                == 0b10000 || funct5 == 0b10100 || funct5 == 0b11000 || funct5 == 0b11100 {
                Instr::Amo { funct5, rd, rs1, rs2 }
            } else {
                Instr::Illegal
            }
        } else {
            Instr::Illegal
        }
    } else {
        Instr::Illegal
    }
}

/// The reading `(a as i32)` agrees with [`spec_signed`], and that value is
/// a proper 32-bit signed quantity.
proof fn lemma_signed(a: u32)
    by (bit_vector)
    ensures
        (a as i32) as int == spec_signed(a),
        -0x8000_0000 <= spec_signed(a) < 0x8000_0000,
{
}

/// A masked shift amount is a legal 32-bit shift.
proof fn lemma_shift_amount(b: u32)
    by (bit_vector)
    ensures
        b & 0x1f < 32,
{
}

fn sext64(v: u32) -> (r: u64)
    ensures
        r == spec_sext64(v),
{
    if v >= 0x8000_0000 {
        (v as u64) | 0xffff_ffff_0000_0000u64
    } else {
        v as u64
    }
}

/// A byte sign-extended to 32 bits, as the LB instruction widens it.
pub fn sext8(v: u8) -> (r: u32)
    ensures
        r == spec_sext8(v),
{
    if v >= 0x80 {
        (v as u32) | 0xffff_ff00
    } else {
        v as u32
    }
}

/// A halfword sign-extended to 32 bits, as the LH instruction widens it.
pub fn sext16(v: u16) -> (r: u32)
    ensures
        r == spec_sext16(v),
{
    if v >= 0x8000 {
        (v as u32) | 0xffff_0000
    } else {
        v as u32
    }
}

/// Computes one ALU operation, bit-exactly as [`spec_alu`] states it.
pub fn alu_compute(op: AluOp, a: u32, b: u32) -> (r: u32)
    ensures
        r == spec_alu(op, a, b),
{
    match op {
        AluOp::Add => a.wrapping_add(b),
        AluOp::Sub => a.wrapping_sub(b),
        AluOp::Slt => {
            proof {
                lemma_signed(a);
                lemma_signed(b);
            }
            if (a as i32) < (b as i32) {
                1
            } else {
                0
            }
        },
        AluOp::Sltu => if a < b {
            1
        } else {
            0
        },
        AluOp::Xor => a ^ b,
        AluOp::Or => a | b,
        AluOp::And => a & b,
        AluOp::Sll => {
            let s = b & 0x1f;
            proof {
                lemma_shift_amount(b);
            }
            a << s
        },
        AluOp::Srl => {
            let s = b & 0x1f;
            proof {
                lemma_shift_amount(b);
            }
            a >> s
        },
        AluOp::Sra => {
            let s = b & 0x1f;
            proof {
                lemma_shift_amount(b);
            }
            if s == 0 {
                a
            } else if a >= 0x8000_0000 {
                (a >> s) | !(u32::MAX >> s)
            } else {
                a >> s
            }
        },
        AluOp::Mul => a.wrapping_mul(b),
        AluOp::Mulh => {
            let p = sext64(a).wrapping_mul(sext64(b));
            (p >> 32) as u32
        },
        AluOp::Mulhsu => {
            let p = sext64(a).wrapping_mul(b as u64);
            (p >> 32) as u32
        },
        AluOp::Mulhu => {
            let p = (a as u64).wrapping_mul(b as u64);
            (p >> 32) as u32
        },
        AluOp::Div => {
            if b == 0 {
                0xffff_ffff
            } else {
                let qa = if a >= 0x8000_0000 {
                    0u32.wrapping_sub(a)
                } else {
                    a
                };
                let qb = if b >= 0x8000_0000 {
                    0u32.wrapping_sub(b)
                } else {
                    b
                };
                let q = qa / qb;
                if (a >= 0x8000_0000) != (b >= 0x8000_0000) {
                    0u32.wrapping_sub(q)
                } else {
                    q
                }
            }
        },
        AluOp::Divu => if b == 0 {
            u32::MAX
        } else {
            a / b
        },
        AluOp::Rem => {
            if b == 0 {
                a
            } else {
                let qa = if a >= 0x8000_0000 {
                    0u32.wrapping_sub(a)
                } else {
                    a
                };
                let qb = if b >= 0x8000_0000 {
                    0u32.wrapping_sub(b)
                } else {
                    b
                };
                let m = qa % qb;
                if a >= 0x8000_0000 {
                    0u32.wrapping_sub(m)
                } else {
                    m
                }
            }
        },
        AluOp::Remu => if b == 0 {
            a
        } else {
            a % b
        },
    }
}

/// Decides one branch comparison, exactly as [`spec_branch_taken`] states
/// it.
pub fn branch_take(c: BranchCond, a: u32, b: u32) -> (r: bool)
    ensures
        r == spec_branch_taken(c, a, b),
{
    proof {
        lemma_signed(a);
        lemma_signed(b);
    }
    match c {
        BranchCond::Eq => a == b,
        BranchCond::Ne => a != b,
        BranchCond::Lt => (a as i32) < (b as i32),
        BranchCond::Ge => (a as i32) >= (b as i32),
        BranchCond::Ltu => a < b,
        BranchCond::Geu => a >= b,
    }
}

/// Adding an immediate and then its two's-complement negation restores
/// the original value: ADDI rd, rs1, imm followed by ADDI rd, rd, -imm
/// returns the register to where it was, with wrapping arithmetic and no
/// overflow fault, for every value and every immediate.
pub proof fn lemma_addi_round_trip(v: u32, imm: u32)
    ensures
        spec_alu(AluOp::Add, spec_alu(AluOp::Add, v, imm), wsub(0, imm)) == v,
{
}

/// The RISC-V divide-by-zero convention, with no trap raised: a zero
/// divisor yields an all-ones quotient from DIV and DIVU and leaves the
/// dividend unchanged as the remainder of REM and REMU, whatever the
/// dividend.
pub proof fn lemma_divide_by_zero(a: u32)
    ensures
        spec_alu(AluOp::Div, a, 0) == 0xffff_ffffu32,
        spec_alu(AluOp::Divu, a, 0) == u32::MAX,
        spec_alu(AluOp::Rem, a, 0) == a,
        spec_alu(AluOp::Remu, a, 0) == a,
{
}

/// Signed division truncated toward zero, as the M extension defines it:
/// the quotient of the magnitudes, negated when the signs differ.
pub open spec fn spec_trunc_div(p: int, q: int) -> int {
    if (p < 0) != (q < 0) {
        -(vstd::math::abs(p) as int / vstd::math::abs(q) as int)
    } else {
        vstd::math::abs(p) as int / vstd::math::abs(q) as int
    }
}

/// The magnitude-and-sign form DIV computes agrees with mathematical
/// signed division truncated toward zero: away from a zero divisor and
/// the one overflowing case, reading DIV's result as signed gives exactly
/// the truncated quotient, and reading REM's gives the matching
/// remainder, which takes the dividend's sign.
pub proof fn lemma_division_truncates(a: u32, b: u32)
    requires
        b != 0,
        !(a == 0x8000_0000 && b == 0xffff_ffff),
    ensures
        spec_signed(spec_alu(AluOp::Div, a, b)) == spec_trunc_div(spec_signed(a), spec_signed(b)),
        spec_signed(spec_alu(AluOp::Rem, a, b)) == spec_signed(a) - spec_trunc_div(
            spec_signed(a),
            spec_signed(b),
        ) * spec_signed(b),
{
    let p = spec_signed(a);
    let q = spec_signed(b);
    let ma = spec_abs_u32(a) as int;
    let mb = spec_abs_u32(b) as int;
    assert(ma == vstd::math::abs(p));
    assert(mb == vstd::math::abs(q));
    let m = ma / mb;
    let r = ma % mb;
    vstd::arithmetic::div_mod::lemma_fundamental_div_mod(ma, mb);
    vstd::arithmetic::div_mod::lemma_remainder_lower(ma, mb);
    vstd::arithmetic::div_mod::lemma_remainder_upper(ma, mb);
    vstd::arithmetic::div_mod::lemma_div_is_ordered_by_denominator(ma, 1, mb);
    vstd::arithmetic::div_mod::lemma_div_pos_is_pos(ma, mb);
    assert(ma / 1 == ma) by (nonlinear_arith);
    assert(0 <= m <= ma);
    assert(0 <= r < mb);
    if (a >= 0x8000_0000) == (b >= 0x8000_0000) {
        // Same signs: the quotient is the plain magnitude quotient, and
        // it fits below the sign bit (the overflowing pair is excluded).
        if ma == 0x8000_0000 {
            assert(mb >= 2);
            vstd::arithmetic::div_mod::lemma_div_is_ordered_by_denominator(ma, 2, mb);
            assert(ma / 2 == 0x4000_0000) by (nonlinear_arith)
                requires
                    ma == 0x8000_0000,
            ;
        }
        assert(m < 0x8000_0000);
    }
    assert(spec_signed(spec_alu(AluOp::Div, a, b)) == spec_trunc_div(p, q));
    // The remainder identity: |a| = m * |b| + r, so the signed remainder
    // (the magnitude remainder carrying the dividend's sign) is exactly
    // p - trunc_div(p, q) * q, sign case by sign case.
    assert(ma == mb * m + r);
    if (p < 0) == (q < 0) {
        assert(p - m * q == if p < 0 { -r } else { r }) by (nonlinear_arith)
            requires
                ma == mb * m + r,
                ma == vstd::math::abs(p),
                mb == vstd::math::abs(q),
                (p < 0) == (q < 0),
                q != 0,
        ;
    } else {
        assert(p - (-m) * q == if p < 0 { -r } else { r }) by (nonlinear_arith)
            requires
                ma == mb * m + r,
                ma == vstd::math::abs(p),
                mb == vstd::math::abs(q),
                (p < 0) != (q < 0),
                q != 0,
        ;
    }
    assert(spec_signed(spec_alu(AluOp::Rem, a, b)) == if p < 0 {
        -r
    } else {
        r
    });
}

/// The modular computation of MULH yields the true upper half of the
/// signed 64-bit product: reading the result as signed gives the product
/// of the two signed readings, arithmetically shifted down 32 bits
/// (floor division by 2^32), for every pair of operands.
pub proof fn lemma_mulh_high_word(a: u32, b: u32)
    ensures
        spec_signed(spec_alu(AluOp::Mulh, a, b)) == (spec_signed(a) * spec_signed(b))
            / 0x1_0000_0000,
{
    let p = spec_signed(a);
    let q = spec_signed(b);
    let sa = spec_sext64(a) as int;
    let sb = spec_sext64(b) as int;
    let m64: int = 0x1_0000_0000_0000_0000;
    let m32: int = 0x1_0000_0000;
    // Setting the high half of the widened word is the same as adding it:
    // the low 32 bits are already in place.
    assert(forall|v: u32|
        v >= 0x8000_0000 ==> #[trigger] ((v as u64) | 0xffff_ffff_0000_0000u64) == (v as u64)
            + 0xffff_ffff_0000_0000u64) by (bit_vector);
    // The sign-extended operands are the 64-bit residues of the signed
    // readings.
    if p < 0 {
        vstd::arithmetic::div_mod::lemma_mod_multiples_vanish(1, p, m64);
        vstd::arithmetic::div_mod::lemma_small_mod((p + m64) as nat, m64 as nat);
    } else {
        vstd::arithmetic::div_mod::lemma_small_mod(p as nat, m64 as nat);
    }
    if q < 0 {
        vstd::arithmetic::div_mod::lemma_mod_multiples_vanish(1, q, m64);
        vstd::arithmetic::div_mod::lemma_small_mod((q + m64) as nat, m64 as nat);
    } else {
        vstd::arithmetic::div_mod::lemma_small_mod(q as nat, m64 as nat);
    }
    assert(p % m64 == sa);
    assert(q % m64 == sb);
    // So the wrapped product of the operands is the residue of the
    // signed product.
    let w = vstd::wrapping::u64_specs::wrapping_mul(spec_sext64(a), spec_sext64(b));
    vstd::arithmetic::div_mod::lemma_mul_mod_noop_general(p, q, m64);
    let bigp = p * q;
    assert((sa * sb) % m64 == bigp % m64);
    assert(sa as nat * sb as nat == (sa * sb) as nat);
    assert(w as int == (sa * sb) % m64);
    assert(w as int == bigp % m64);
    assert(-0x4000_0000_0000_0000 <= p * q <= 0x4000_0000_0000_0000) by (nonlinear_arith)
        requires
            -0x8000_0000 <= p <= 0x8000_0000,
            -0x8000_0000 <= q <= 0x8000_0000,
    ;
    // The shift by 32 is division by 2^32.
    vstd::bits::lemma_u64_shr_is_div(w, 32);
    vstd::arithmetic::power2::lemma2_to64();
    assert((w >> 32) as int == (w as int) / m32);
    let hh = bigp / m32;
    let rr = bigp % m32;
    vstd::arithmetic::div_mod::lemma_fundamental_div_mod(bigp, m32);
    vstd::arithmetic::div_mod::lemma_div_is_ordered(bigp, 0x4000_0000_0000_0000, m32);
    vstd::arithmetic::div_mod::lemma_div_is_ordered(-0x4000_0000_0000_0000, bigp, m32);
    assert(0x4000_0000_0000_0000int / 0x1_0000_0000int == 0x4000_0000int) by (nonlinear_arith);
    assert((-0x4000_0000_0000_0000int) / 0x1_0000_0000int == -0x4000_0000int)
        by (nonlinear_arith);
    assert(-0x4000_0000 <= hh <= 0x4000_0000);
    if bigp >= 0 {
        vstd::arithmetic::div_mod::lemma_small_mod(bigp as nat, m64 as nat);
        assert(w as int == bigp);
    } else {
        vstd::arithmetic::div_mod::lemma_mod_multiples_vanish(1, bigp, m64);
        vstd::arithmetic::div_mod::lemma_small_mod((bigp + m64) as nat, m64 as nat);
        assert(w as int == bigp + m64);
        assert(w as int == m32 * (hh + m32) + rr) by (nonlinear_arith)
            requires
                w as int == bigp + m64,
                bigp == m32 * hh + rr,
                m64 == 0x1_0000_0000_0000_0000,
                m32 == 0x1_0000_0000,
        ;
        vstd::arithmetic::div_mod::lemma_div_multiples_vanish_fancy(hh + m32, rr, m32);
        assert((w as int) / m32 == hh + m32);
    }
}

/// MULHU computes the true upper half of the unsigned 64-bit product.
pub proof fn lemma_mulhu_high_word(a: u32, b: u32)
    ensures
        spec_alu(AluOp::Mulhu, a, b) == (a * b) / 0x1_0000_0000,
{
    let m64: int = 0x1_0000_0000_0000_0000;
    let m32: int = 0x1_0000_0000;
    let w = vstd::wrapping::u64_specs::wrapping_mul(a as u64, b as u64);
    assert(0 <= a * b < 0x1_0000_0000_0000_0000) by (nonlinear_arith)
        requires
            0 <= a < 0x1_0000_0000,
            0 <= b < 0x1_0000_0000,
    ;
    vstd::arithmetic::div_mod::lemma_small_mod((a * b) as nat, m64 as nat);
    assert(w as int == a * b);
    vstd::bits::lemma_u64_shr_is_div(w, 32);
    vstd::arithmetic::power2::lemma2_to64();
    vstd::arithmetic::div_mod::lemma_div_is_ordered(w as int, m64 - 1, m32);
    assert((0x1_0000_0000_0000_0000int - 1) / 0x1_0000_0000int == 0xffff_ffffint)
        by (nonlinear_arith);
}

/// MULHSU computes the true upper half of the 64-bit product of the first
/// operand read signed with the second read unsigned: its result read
/// signed is that product floor-divided by 2^32.
pub proof fn lemma_mulhsu_high_word(a: u32, b: u32)
    ensures
        spec_signed(spec_alu(AluOp::Mulhsu, a, b)) == (spec_signed(a) * b) / 0x1_0000_0000,
{
    let p = spec_signed(a);
    let sa = spec_sext64(a) as int;
    let m64: int = 0x1_0000_0000_0000_0000;
    let m32: int = 0x1_0000_0000;
    assert(forall|v: u32|
        v >= 0x8000_0000 ==> #[trigger] ((v as u64) | 0xffff_ffff_0000_0000u64) == (v as u64)
            + 0xffff_ffff_0000_0000u64) by (bit_vector);
    if p < 0 {
        vstd::arithmetic::div_mod::lemma_mod_multiples_vanish(1, p, m64);
        vstd::arithmetic::div_mod::lemma_small_mod((p + m64) as nat, m64 as nat);
    } else {
        vstd::arithmetic::div_mod::lemma_small_mod(p as nat, m64 as nat);
    }
    assert(p % m64 == sa);
    let w = vstd::wrapping::u64_specs::wrapping_mul(spec_sext64(a), b as u64);
    vstd::arithmetic::div_mod::lemma_mul_mod_noop_general(p, b as int, m64);
    let bigp = p * b;
    assert((sa * b) % m64 == bigp % m64);
    assert(sa as nat * (b as u64) as nat == (sa * b) as nat);
    assert(w as int == (sa * b) % m64);
    assert(w as int == bigp % m64);
    assert(-0x8000_0000_0000_0000 < p * b && p * b < 0x8000_0000_0000_0000) by (nonlinear_arith)
        requires
            -0x8000_0000 <= p <= 0x8000_0000,
            0 <= b < 0x1_0000_0000,
    ;
    vstd::bits::lemma_u64_shr_is_div(w, 32);
    vstd::arithmetic::power2::lemma2_to64();
    assert((w >> 32) as int == (w as int) / m32);
    let hh = bigp / m32;
    let rr = bigp % m32;
    vstd::arithmetic::div_mod::lemma_fundamental_div_mod(bigp, m32);
    vstd::arithmetic::div_mod::lemma_div_is_ordered(bigp, 0x8000_0000_0000_0000 - 1, m32);
    vstd::arithmetic::div_mod::lemma_div_is_ordered(-0x8000_0000_0000_0000, bigp, m32);
    assert((0x8000_0000_0000_0000int - 1) / 0x1_0000_0000int == 0x7fff_ffffint)
        by (nonlinear_arith);
    assert((-0x8000_0000_0000_0000int) / 0x1_0000_0000int == -0x8000_0000int)
        by (nonlinear_arith);
    assert(-0x8000_0000 <= hh <= 0x7fff_ffff);
    if bigp >= 0 {
        vstd::arithmetic::div_mod::lemma_small_mod(bigp as nat, m64 as nat);
        assert(w as int == bigp);
    } else {
        vstd::arithmetic::div_mod::lemma_mod_multiples_vanish(1, bigp, m64);
        vstd::arithmetic::div_mod::lemma_small_mod((bigp + m64) as nat, m64 as nat);
        assert(w as int == bigp + m64);
        assert(w as int == m32 * (hh + m32) + rr) by (nonlinear_arith)
            requires
                w as int == bigp + m64,
                bigp == m32 * hh + rr,
                m64 == 0x1_0000_0000_0000_0000,
                m32 == 0x1_0000_0000,
        ;
        vstd::arithmetic::div_mod::lemma_div_multiples_vanish_fancy(hh + m32, rr, m32);
        assert((w as int) / m32 == hh + m32);
    }
}

/// The high word of the widest unsigned product: MULHU of `0xffff_ffff`
/// with itself is `0xffff_fffe`.
pub proof fn lemma_mulhu_all_ones()
    ensures
        spec_alu(AluOp::Mulhu, 0xffff_ffffu32, 0xffff_ffffu32) == 0xffff_fffeu32,
{
    assert(0xffff_ffffu64 * 0xffff_ffffu64 == 0xffff_fffe_0000_0001u64) by (nonlinear_arith);
    assert(0xffff_fffe_0000_0001u64 >> 32 == 0xffff_fffeu64) by (bit_vector);
}

/// Decodes one 32-bit word into exactly the instruction [`spec_decode`]
/// assigns to it.
pub fn decode_instr(w: u32) -> (r: Instr)
    ensures
        r == spec_decode(w),
{
    let opcode = crate::ops_decode::get_opcode(w);
    if opcode & 0b11 != 0b11 {
        return Instr::Compressed { word: w as u16 };
    }
    let funct3 = crate::ops_decode::get_funct3(w);
    let funct7 = crate::ops_decode::get_funct7(w);
    let rd = crate::ops_decode::get_rd(w);
    let rs1 = crate::ops_decode::get_rs1(w);
    let rs2 = crate::ops_decode::get_rs2(w);
    if opcode == 0b0110111 {
        Instr::Lui { rd, imm: crate::ops_decode::get_imm_u_type(w) }
    } else if opcode == 0b0010111 {
        Instr::Auipc { rd, imm: crate::ops_decode::get_imm_u_type(w) }
    } else if opcode == 0b1101111 {
        Instr::Jal { rd, imm: crate::ops_decode::get_imm_j_type(w) }
    } else if opcode == 0b1100111 {
        if funct3 == 0 {
            Instr::Jalr { rd, rs1, imm: crate::ops_decode::get_imm_i_type(w) }
        } else {
            Instr::Illegal
        }
    } else if opcode == 0b1100011 {
        let imm = crate::ops_decode::get_imm_b_type(w);
        let cond = match funct3 {
            0b000 => Some(BranchCond::Eq),
            0b001 => Some(BranchCond::Ne),
            0b100 => Some(BranchCond::Lt),
            0b101 => Some(BranchCond::Ge),
            0b110 => Some(BranchCond::Ltu),
            0b111 => Some(BranchCond::Geu),
            _ => None,
        };
        match cond {
            Some(cond) => Instr::Branch { cond, rs1, rs2, imm },
            None => Instr::Illegal,
        }
    } else if opcode == 0b0000011 {
        let imm = crate::ops_decode::get_imm_i_type(w);
        let kind = match funct3 {
            0b000 => Some(LoadKind::B),
            0b001 => Some(LoadKind::H),
            0b010 => Some(LoadKind::W),
            0b100 => Some(LoadKind::Bu),
            0b101 => Some(LoadKind::Hu),
            _ => None,
        };
        match kind {
            Some(kind) => Instr::Load { kind, rd, rs1, imm },
            None => Instr::Illegal,
        }
    } else if opcode == 0b0100011 {
        let imm = crate::ops_decode::get_imm_s_type(w);
        let kind = match funct3 {
            0b000 => Some(StoreKind::B),
            0b001 => Some(StoreKind::H),
            0b010 => Some(StoreKind::W),
            _ => None,
        };
        match kind {
            Some(kind) => Instr::Store { kind, rs1, rs2, imm },
            None => Instr::Illegal,
        }
    } else if opcode == 0b0010011 {
        let imm = crate::ops_decode::get_imm_i_type(w);
        let op = match funct3 {
            0b000 => Some(AluOp::Add),
            0b010 => Some(AluOp::Slt),
            0b011 => Some(AluOp::Sltu),
            0b100 => Some(AluOp::Xor),
            0b110 => Some(AluOp::Or),
            0b111 => Some(AluOp::And),
            0b001 => if funct7 == 0 {
                Some(AluOp::Sll)
            } else {
                None
            },
            _ => if funct7 == 0 {
                Some(AluOp::Srl)
            } else if funct7 == 0b0100000 {
                Some(AluOp::Sra)
            } else {
                None
            },
        };
        match op {
            Some(op) => Instr::AluImm { op, rd, rs1, imm },
            None => Instr::Illegal,
        }
    } else if opcode == 0b0110011 {
        let op = match funct3 {
            0b000 => if funct7 == 0 {
                Some(AluOp::Add)
            } else if funct7 == 1 {
                Some(AluOp::Mul)
            } else if funct7 == 0b0100000 {
                Some(AluOp::Sub)
            } else {
                None
            },
            0b001 => if funct7 == 0 {
                Some(AluOp::Sll)
            } else if funct7 == 1 {
                Some(AluOp::Mulh)
            } else {
                None
            },
            0b010 => if funct7 == 0 {
                Some(AluOp::Slt)
            } else if funct7 == 1 {
                Some(AluOp::Mulhsu)
            } else {
                None
            },
            0b011 => if funct7 == 0 {
                Some(AluOp::Sltu)
            } else if funct7 == 1 {
                Some(AluOp::Mulhu)
            } else {
                None
            },
            0b100 => if funct7 == 0 {
                Some(AluOp::Xor)
            } else if funct7 == 1 {
                Some(AluOp::Div)
            } else {
                None
            },
            0b101 => if funct7 == 0 {
                Some(AluOp::Srl)
            } else if funct7 == 1 {
                Some(AluOp::Divu)
            } else if funct7 == 0b0100000 {
                Some(AluOp::Sra)
            } else {
                None
            },
            0b110 => if funct7 == 0 {
                Some(AluOp::Or)
            } else if funct7 == 1 {
                Some(AluOp::Rem)
            } else {
                None
            },
            _ => if funct7 == 0 {
                Some(AluOp::And)
            } else if funct7 == 1 {
                Some(AluOp::Remu)
            } else {
                None
            },
        };
        match op {
            Some(op) => Instr::AluReg { op, rd, rs1, rs2 },
            None => Instr::Illegal,
        }
    } else if opcode == 0b0001111 {
        if funct3 == 0b000 {
            Instr::Fence
        } else if funct3 == 0b001 {
            Instr::FenceI
        } else {
            Instr::Illegal
        }
    } else if opcode == 0b1110011 {
        let csr = crate::ops_decode::get_csr_num(w);
        if funct3 == 0b000 {
            let imm = crate::ops_decode::get_imm_i_type(w);
            if imm == 0 {
                Instr::Ecall
            } else if imm == 1 {
                Instr::Ebreak
            } else if rs1 == 0 && rd == 0 {
                if imm == 0b000100000010 {
                    Instr::Sret
                } else if imm == 0b001100000010 {
                    Instr::Mret
                } else if imm == 0b000100000101 {
                    Instr::Wfi
                } else {
                    Instr::Illegal
                }
            } else {
                Instr::Illegal
            }
        } else {
            let op = match funct3 {
                0b001 => Some(CsrOp::Rw),
                0b010 => Some(CsrOp::Rs),
                0b011 => Some(CsrOp::Rc),
                0b101 => Some(CsrOp::Rwi),
                0b110 => Some(CsrOp::Rsi),
                0b111 => Some(CsrOp::Rci),
                _ => None,
            };
            match op {
                Some(op) => Instr::Csr { op, csr, src: rs1, rd },
                None => Instr::Illegal,
            }
        }
    } else if opcode == 0b0101111 {
        if funct3 == 0b010 {
            let funct5 = crate::ops_decode::get_rs3(w);
            match funct5 {
                0b00010 | 0b00011 | 0b00001 | 0b00000 | 0b00100 | 0b01100 | 0b01000 | 0b10000
                    | 0b10100 | 0b11000 | 0b11100 => Instr::Amo { funct5, rd, rs1, rs2 },
                _ => Instr::Illegal,
            }
        } else {
            Instr::Illegal
        }
    } else {
        Instr::Illegal
    }
}

} // verus!
