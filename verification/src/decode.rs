//! The instruction decoder.
//!
//! A word is classified in two steps.  Its two lowest bits, the quadrant,
//! tell a 16-bit encoding (quadrants 0 to 2) from a 32-bit one (quadrant 3).
//! Within a quadrant the opcode field and the function fields select the
//! operation, and the operation's format says where the operands lie.
//!
//! `spec_decode` states the whole encoding as tables over the fields of the
//! word; `insn_try_decode` computes it.
use crate::arith::{signed32, to_i32};
use crate::rvemu::{Insn, InsnType};
use vstd::prelude::*;

verus! {

// ---------------------------------------------------------------------
// Fields of an instruction word
// ---------------------------------------------------------------------
/// The field of `w` that starts at bit `lo` and is selected by `mask`.
pub open spec fn field(w: u32, lo: u32, mask: u32) -> u32 {
    (w >> lo) & mask
}

/// Bits 1..0: the quadrant, which tells the width of the encoding.
pub open spec fn spec_quadrant(w: u32) -> u32 {
    field(w, 0, 0x3)
}

/// Bits 6..2: the major opcode of a 32-bit instruction.
pub open spec fn spec_op_code(w: u32) -> u32 {
    field(w, 2, 0x1f)
}

/// Bits 11..7: the destination register.
pub open spec fn spec_rd(w: u32) -> u32 {
    field(w, 7, 0x1f)
}

/// Bits 19..15: the first source register.
pub open spec fn spec_rs1(w: u32) -> u32 {
    field(w, 15, 0x1f)
}

/// Bits 24..20: the second source register.
pub open spec fn spec_rs2(w: u32) -> u32 {
    field(w, 20, 0x1f)
}

/// Bits 31..27: the third source register of a fused operation.
pub open spec fn spec_rs3(w: u32) -> u32 {
    field(w, 27, 0x1f)
}

/// Bits 26..25: the precision of a fused floating-point operation.
pub open spec fn spec_func_t2(w: u32) -> u32 {
    field(w, 25, 0x3)
}

/// Bits 14..12: the minor opcode.
pub open spec fn spec_func_t3(w: u32) -> u32 {
    field(w, 12, 0x7)
}

/// Bits 31..25: the function code of a register-register operation.
pub open spec fn spec_func_t7(w: u32) -> u32 {
    field(w, 25, 0x7f)
}

/// Bits 31..26: the part of a shift immediate above the shift amount.
pub open spec fn spec_imm_116(w: u32) -> u32 {
    field(w, 26, 0x3f)
}

/// Bits 15..13: the opcode of a 16-bit instruction.
pub open spec fn spec_cop_code(w: u32) -> u32 {
    field(w, 13, 0x7)
}

/// Bit 12 of a 16-bit instruction, which refines some opcodes.
pub open spec fn spec_cfunc_t1(w: u32) -> u32 {
    field(w, 12, 0x1)
}

/// Bits 6..5 of a 16-bit instruction, which select an arithmetic operation.
pub open spec fn spec_cfunc_t2_low(w: u32) -> u32 {
    field(w, 5, 0x3)
}

/// Bits 11..10 of a 16-bit instruction, which select an arithmetic group.
pub open spec fn spec_cfunc_t2_high(w: u32) -> u32 {
    field(w, 10, 0x3)
}

/// The 3-bit register field at bits 9..7, before the bias of 8.
pub open spec fn spec_rp1(w: u32) -> u32 {
    field(w, 7, 0x7)
}

/// The 3-bit register field at bits 4..2, before the bias of 8.
pub open spec fn spec_rp2(w: u32) -> u32 {
    field(w, 2, 0x7)
}

/// Bits 11..7 of a 16-bit instruction: a full-width register.
pub open spec fn spec_rc1(w: u32) -> u32 {
    field(w, 7, 0x1f)
}

/// Bits 6..2 of a 16-bit instruction: a full-width register.
pub open spec fn spec_rc2(w: u32) -> u32 {
    field(w, 2, 0x1f)
}

/// A field is at most its mask.
pub proof fn lemma_field_bound(x: u32, lo: u32, mask: u32)
    by (bit_vector)
    ensures
        (x >> lo) & mask <= mask,
{
}

/// Extracts the field of `w` that starts at bit `lo` and is selected by
/// `mask`.
pub fn get_field(w: u32, lo: u32, mask: u32) -> (r: u32)
    requires
        lo < 32,
    ensures
        r == field(w, lo, mask),
        r <= mask,
{
    proof {
        lemma_field_bound(w, lo, mask);
    }
    (w >> lo) & mask
}

/// A register number read from a 5-bit field.
fn reg_field(w: u32, lo: u32) -> (r: i8)
    requires
        lo < 32,
    ensures
        r == field(w, lo, 0x1f),
        0 <= r < 32,
{
    get_field(w, lo, 0x1f) as i8
}

/// A register number read from a 3-bit field: one of x8..x15 or f8..f15.
fn popular_reg_field(w: u32, lo: u32) -> (r: i8)
    requires
        lo < 32,
    ensures
        r == field(w, lo, 0x7) + 8,
        8 <= r < 16,
{
    get_field(w, lo, 0x7) as i8 + 8
}

// ---------------------------------------------------------------------
// Immediates
// ---------------------------------------------------------------------
/// The integer that a field of `2 * half` possible values stands for when
/// its top bit is a sign bit.
pub open spec fn sext(v: u32, half: u32) -> int {
    if v >= half {
        v as int - 2 * (half as int)
    } else {
        v as int
    }
}

/// Sign-extends a field of `2 * half` possible values.
pub fn sign_extend(v: u32, half: u32) -> (r: i32)
    requires
        half <= 0x4000_0000,
        v < 2 * half,
    ensures
        r as int == sext(v, half),
{
    if v >= half {
        (v as i64 - 2 * (half as i64)) as i32
    } else {
        v as i32
    }
}

/// U-type: bits 31..12 of the word are bits 31..12 of the immediate.
pub open spec fn utype_imm(w: u32) -> int {
    signed32(w & 0xfffff000)
}

/// I-type: bits 31..20 of the word are imm[11:0].
pub open spec fn itype_imm_bits(w: u32) -> u32 {
    w >> 20
}

/// S-type: imm[11:5] at bits 31..25, imm[4:0] at bits 11..7.
pub open spec fn stype_imm_bits(w: u32) -> u32 {
    ((w >> 25) & 0x7f) << 5 | ((w >> 7) & 0x1f)
}

/// B-type: imm[12] at bit 31, imm[10:5] at bits 30..25, imm[4:1] at bits
/// 11..8, imm[11] at bit 7.
pub open spec fn btype_imm_bits(w: u32) -> u32 {
    ((w >> 31) & 0x1) << 12 | ((w >> 7) & 0x1) << 11 | ((w >> 25) & 0x3f) << 5 | ((w >> 8)
        & 0xf) << 1
}

/// J-type: imm[20] at bit 31, imm[10:1] at bits 30..21, imm[11] at bit 20,
/// imm[19:12] at bits 19..12.
pub open spec fn jtype_imm_bits(w: u32) -> u32 {
    ((w >> 31) & 0x1) << 20 | ((w >> 12) & 0xff) << 12 | ((w >> 20) & 0x1) << 11 | ((w >> 21)
        & 0x3ff) << 1
}

/// CI: imm[5] at bit 12, imm[4:0] at bits 6..2.
pub open spec fn ci_imm_bits(w: u32) -> u32 {
    ((w >> 12) & 0x1) << 5 | ((w >> 2) & 0x1f)
}

/// CI, stack-relative doubleword load: uimm[5] at bit 12, uimm[4:3] at bits
/// 6..5, uimm[8:6] at bits 4..2.
pub open spec fn ci_ldsp_imm_bits(w: u32) -> u32 {
    ((w >> 2) & 0x7) << 6 | ((w >> 5) & 0x3) << 3 | ((w >> 12) & 0x1) << 5
}

/// CI, stack-pointer adjustment: imm[9] at bit 12, imm[4] at bit 6, imm[6]
/// at bit 5, imm[8:7] at bits 4..3, imm[5] at bit 2.
pub open spec fn ci_addi16sp_imm_bits(w: u32) -> u32 {
    ((w >> 2) & 0x1) << 5 | ((w >> 3) & 0x3) << 7 | ((w >> 5) & 0x1) << 6 | ((w >> 6) & 0x1)
        << 4 | ((w >> 12) & 0x1) << 9
}

/// CI, stack-relative word load: uimm[5] at bit 12, uimm[4:2] at bits 6..4,
/// uimm[7:6] at bits 3..2.
pub open spec fn ci_lwsp_imm_bits(w: u32) -> u32 {
    ((w >> 12) & 0x1) << 5 | ((w >> 4) & 0x7) << 2 | ((w >> 2) & 0x3) << 6
}

/// CI, load upper immediate: imm[17] at bit 12, imm[16:12] at bits 6..2.
pub open spec fn ci_lui_imm_bits(w: u32) -> u32 {
    ((w >> 2) & 0x1f) << 12 | ((w >> 12) & 0x1) << 17
}

/// CB: imm[8] at bit 12, imm[4:3] at bits 11..10, imm[7:6] at bits 6..5,
/// imm[2:1] at bits 4..3, imm[5] at bit 2.
pub open spec fn cb_imm_bits(w: u32) -> u32 {
    ((w >> 12) & 0x1) << 8 | ((w >> 5) & 0x3) << 6 | ((w >> 2) & 0x1) << 5 | ((w >> 10) & 0x3)
        << 3 | ((w >> 3) & 0x3) << 1
}

/// CL and CS, doubleword access: uimm[5:3] at bits 12..10, uimm[7:6] at
/// bits 6..5.
pub open spec fn cls_d_imm_bits(w: u32) -> u32 {
    ((w >> 5) & 0x3) << 6 | ((w >> 10) & 0x7) << 3
}

/// CL and CS, word access: uimm[5:3] at bits 12..10, uimm[2] at bit 6,
/// uimm[6] at bit 5.
pub open spec fn cls_w_imm_bits(w: u32) -> u32 {
    ((w >> 5) & 0x1) << 6 | ((w >> 6) & 0x1) << 2 | ((w >> 10) & 0x7) << 3
}

/// CJ: imm[11] at bit 12, imm[4] at bit 11, imm[9:8] at bits 10..9, imm[10]
/// at bit 8, imm[6] at bit 7, imm[7] at bit 6, imm[3:1] at bits 5..3,
/// imm[5] at bit 2.
pub open spec fn cj_imm_bits(w: u32) -> u32 {
    ((w >> 2) & 0x1) << 5 | ((w >> 3) & 0x7) << 1 | ((w >> 6) & 0x1) << 7 | ((w >> 7) & 0x1)
        << 6 | ((w >> 8) & 0x1) << 10 | ((w >> 9) & 0x3) << 8 | ((w >> 11) & 0x1) << 4 | ((w
        >> 12) & 0x1) << 11
}

/// CSS, doubleword store: uimm[5:3] at bits 12..10, uimm[8:6] at bits 9..7.
pub open spec fn css_d_imm_bits(w: u32) -> u32 {
    ((w >> 7) & 0x7) << 6 | ((w >> 10) & 0x7) << 3
}

/// CSS, word store: uimm[5:2] at bits 12..9, uimm[7:6] at bits 8..7.
pub open spec fn css_w_imm_bits(w: u32) -> u32 {
    ((w >> 7) & 0x3) << 6 | ((w >> 9) & 0xf) << 2
}

/// CIW: uimm[5:4] at bits 12..11, uimm[9:6] at bits 10..7, uimm[2] at bit
/// 6, uimm[3] at bit 5.
pub open spec fn ciw_imm_bits(w: u32) -> u32 {
    ((w >> 5) & 0x1) << 3 | ((w >> 6) & 0x1) << 2 | ((w >> 7) & 0xf) << 6 | ((w >> 11) & 0x3)
        << 4
}

/// The gathered bits of every immediate fit the width of its format.
pub proof fn lemma_imm_bits_bounds(w: u32)
    by (bit_vector)
    ensures
        itype_imm_bits(w) < 0x1000,
        stype_imm_bits(w) < 0x1000,
        btype_imm_bits(w) < 0x2000,
        jtype_imm_bits(w) < 0x20_0000,
        ci_imm_bits(w) < 0x40,
        ci_ldsp_imm_bits(w) < 0x200,
        ci_addi16sp_imm_bits(w) < 0x400,
        ci_lwsp_imm_bits(w) < 0x100,
        ci_lui_imm_bits(w) < 0x4_0000,
        cb_imm_bits(w) < 0x200,
        cls_d_imm_bits(w) < 0x100,
        cls_w_imm_bits(w) < 0x80,
        cj_imm_bits(w) < 0x1000,
        css_d_imm_bits(w) < 0x200,
        css_w_imm_bits(w) < 0x100,
        ciw_imm_bits(w) < 0x400,
        w >> 20 < 0x1000,
{
}

// ---------------------------------------------------------------------
// Operand formats
// ---------------------------------------------------------------------
/// U-type: a destination and the upper 20 bits of the immediate.
pub open spec fn spec_utype(data: u32) -> Insn {
    Insn { imm: utype_imm(data) as i32, rd: spec_rd(data) as i8, ..Insn::blank() }
}

/// U-type: a destination and the upper 20 bits of the immediate.
pub fn insn_utype_read(data: u32) -> (r: Insn)
    ensures
        r == spec_utype(data),
        r.wf(),
{
    let w: u32 = data;
    let imm: i32 = to_i32(w & 0xfffff000);
    let rd: i8 = reg_field(w, 7);
    Insn {
        rd,
        rs1: 0,
        rs2: 0,
        rs3: 0,
        imm,
        csr: 0,
        i_type: InsnType::InsnAddi,
        rvc: false,
        cont: false,
    }
}

/// I-type: a destination, one source and a 12-bit signed immediate.
pub open spec fn spec_itype(data: u32) -> Insn {
    Insn {
        imm: sext(itype_imm_bits(data), 0x800) as i32,
        rd: spec_rd(data) as i8,
        rs1: spec_rs1(data) as i8,
        ..Insn::blank()
    }
}

/// I-type: a destination, one source and a 12-bit signed immediate.
pub fn insn_itype_read(data: u32) -> (r: Insn)
    ensures
        r == spec_itype(data),
        r.wf(),
{
    let w: u32 = data;
    proof {
        lemma_imm_bits_bounds(w);
    }
    let bits: u32 = w >> 20;
    let imm: i32 = sign_extend(bits, 0x800);
    let rd: i8 = reg_field(w, 7);
    let rs1: i8 = reg_field(w, 15);
    Insn {
        rd,
        rs1,
        rs2: 0,
        rs3: 0,
        imm,
        csr: 0,
        i_type: InsnType::InsnAddi,
        rvc: false,
        cont: false,
    }
}

/// J-type: a destination and a 21-bit signed, even jump offset.
pub open spec fn spec_jtype(data: u32) -> Insn {
    Insn {
        imm: sext(jtype_imm_bits(data), 0x10_0000) as i32,
        rd: spec_rd(data) as i8,
        ..Insn::blank()
    }
}

/// J-type: a destination and a 21-bit signed, even jump offset.
pub fn insn_jtype_read(data: u32) -> (r: Insn)
    ensures
        r == spec_jtype(data),
        r.wf(),
{
    let w: u32 = data;
    proof {
        lemma_imm_bits_bounds(w);
    }
    let bits: u32 = get_field(w, 31, 0x1) << 20
        | get_field(w, 12, 0xff) << 12
        | get_field(w, 20, 0x1) << 11
        | get_field(w, 21, 0x3ff) << 1;
    let imm: i32 = sign_extend(bits, 0x10_0000);
    let rd: i8 = reg_field(w, 7);
    Insn {
        rd,
        rs1: 0,
        rs2: 0,
        rs3: 0,
        imm,
        csr: 0,
        i_type: InsnType::InsnAddi,
        rvc: false,
        cont: false,
    }
}

/// B-type: two sources and a 13-bit signed, even branch offset.
pub open spec fn spec_btype(data: u32) -> Insn {
    Insn {
        imm: sext(btype_imm_bits(data), 0x1000) as i32,
        rs1: spec_rs1(data) as i8,
        rs2: spec_rs2(data) as i8,
        ..Insn::blank()
    }
}

/// B-type: two sources and a 13-bit signed, even branch offset.
pub fn insn_btype_read(data: u32) -> (r: Insn)
    ensures
        r == spec_btype(data),
        r.wf(),
{
    let w: u32 = data;
    proof {
        lemma_imm_bits_bounds(w);
    }
    let bits: u32 = get_field(w, 31, 0x1) << 12
        | get_field(w, 7, 0x1) << 11
        | get_field(w, 25, 0x3f) << 5
        | get_field(w, 8, 0xf) << 1;
    let imm: i32 = sign_extend(bits, 0x1000);
    let rs1: i8 = reg_field(w, 15);
    let rs2: i8 = reg_field(w, 20);
    Insn {
        rd: 0,
        rs1,
        rs2,
        rs3: 0,
        imm,
        csr: 0,
        i_type: InsnType::InsnAddi,
        rvc: false,
        cont: false,
    }
}

/// R-type: a destination and two sources.
pub open spec fn spec_rtype(data: u32) -> Insn {
    Insn {
        rd: spec_rd(data) as i8,
        rs1: spec_rs1(data) as i8,
        rs2: spec_rs2(data) as i8,
        ..Insn::blank()
    }
}

/// R-type: a destination and two sources.
pub fn insn_rtype_read(data: u32) -> (r: Insn)
    ensures
        r == spec_rtype(data),
        r.wf(),
{
    let w: u32 = data;
    let rd: i8 = reg_field(w, 7);
    let rs1: i8 = reg_field(w, 15);
    let rs2: i8 = reg_field(w, 20);
    Insn {
        rd,
        rs1,
        rs2,
        rs3: 0,
        imm: 0,
        csr: 0,
        i_type: InsnType::InsnAddi,
        rvc: false,
        cont: false,
    }
}

/// S-type: two sources and a 12-bit signed store offset.
pub open spec fn spec_stype(data: u32) -> Insn {
    Insn {
        imm: sext(stype_imm_bits(data), 0x800) as i32,
        rs1: spec_rs1(data) as i8,
        rs2: spec_rs2(data) as i8,
        ..Insn::blank()
    }
}

/// S-type: two sources and a 12-bit signed store offset.
pub fn insn_stype_read(data: u32) -> (r: Insn)
    ensures
        r == spec_stype(data),
        r.wf(),
{
    let w: u32 = data;
    proof {
        lemma_imm_bits_bounds(w);
    }
    let bits: u32 = get_field(w, 25, 0x7f) << 5 | get_field(w, 7, 0x1f);
    let imm: i32 = sign_extend(bits, 0x800);
    let rs1: i8 = reg_field(w, 15);
    let rs2: i8 = reg_field(w, 20);
    Insn {
        rd: 0,
        rs1,
        rs2,
        rs3: 0,
        imm,
        csr: 0,
        i_type: InsnType::InsnAddi,
        rvc: false,
        cont: false,
    }
}

/// A destination, one source and a 12-bit register index.
pub open spec fn spec_csrtype(data: u32) -> Insn {
    Insn {
        csr: (data >> 20) as i16,
        rd: spec_rd(data) as i8,
        rs1: spec_rs1(data) as i8,
        ..Insn::blank()
    }
}

/// A destination, one source and a 12-bit register index.
pub fn insn_csrtype_read(data: u32) -> (r: Insn)
    ensures
        r == spec_csrtype(data),
        r.wf(),
{
    let w: u32 = data;
    proof {
        lemma_imm_bits_bounds(w);
    }
    let csr: i16 = (w >> 20) as i16;
    let rd: i8 = reg_field(w, 7);
    let rs1: i8 = reg_field(w, 15);
    Insn {
        rd,
        rs1,
        rs2: 0,
        rs3: 0,
        imm: 0,
        csr,
        i_type: InsnType::InsnAddi,
        rvc: false,
        cont: false,
    }
}

/// R4-type: a destination and three sources.
pub open spec fn spec_fprtype(data: u32) -> Insn {
    Insn {
        rd: spec_rd(data) as i8,
        rs1: spec_rs1(data) as i8,
        rs2: spec_rs2(data) as i8,
        rs3: spec_rs3(data) as i8,
        ..Insn::blank()
    }
}

/// R4-type: a destination and three sources.
pub fn insn_fprtype_read(data: u32) -> (r: Insn)
    ensures
        r == spec_fprtype(data),
        r.wf(),
{
    let w: u32 = data;
    let rd: i8 = reg_field(w, 7);
    let rs1: i8 = reg_field(w, 15);
    let rs2: i8 = reg_field(w, 20);
    let rs3: i8 = reg_field(w, 27);
    Insn { rd, rs1, rs2, rs3, imm: 0, csr: 0, i_type: InsnType::InsnAddi, rvc: false, cont: false }
}

/// CA: a destination and a second source, both from x8..x15.
pub open spec fn spec_catype(data: u16) -> Insn {
    Insn {
        rd: (spec_rp1(data as u32) + 8) as i8,
        rs2: (spec_rp2(data as u32) + 8) as i8,
        rvc: true,
        ..Insn::blank()
    }
}

/// CA: a destination and a second source, both from x8..x15.
pub fn insn_catype_read(data: u16) -> (r: Insn)
    ensures
        r == spec_catype(data),
        r.wf(),
{
    let w: u32 = data as u32;
    let rd: i8 = popular_reg_field(w, 7);
    let rs2: i8 = popular_reg_field(w, 2);
    Insn {
        rd,
        rs1: 0,
        rs2,
        rs3: 0,
        imm: 0,
        csr: 0,
        i_type: InsnType::InsnAddi,
        rvc: true,
        cont: false,
    }
}

/// CR: two full-width source registers.
pub open spec fn spec_crtype(data: u16) -> Insn {
    Insn {
        rs1: spec_rc1(data as u32) as i8,
        rs2: spec_rc2(data as u32) as i8,
        rvc: true,
        ..Insn::blank()
    }
}

/// CR: two full-width source registers.
pub fn insn_crtype_read(data: u16) -> (r: Insn)
    ensures
        r == spec_crtype(data),
        r.wf(),
{
    let w: u32 = data as u32;
    let rs1: i8 = reg_field(w, 7);
    let rs2: i8 = reg_field(w, 2);
    Insn {
        rd: 0,
        rs1,
        rs2,
        rs3: 0,
        imm: 0,
        csr: 0,
        i_type: InsnType::InsnAddi,
        rvc: true,
        cont: false,
    }
}

/// CI: a destination and a 6-bit signed immediate.
pub open spec fn spec_citype(data: u16) -> Insn {
    Insn {
        imm: sext(ci_imm_bits(data as u32), 0x20) as i32,
        rd: spec_rc1(data as u32) as i8,
        rvc: true,
        ..Insn::blank()
    }
}

/// CI: a destination and a 6-bit signed immediate.
pub fn insn_citype_read(data: u16) -> (r: Insn)
    ensures
        r == spec_citype(data),
        r.wf(),
{
    let w: u32 = data as u32;
    proof {
        lemma_imm_bits_bounds(w);
    }
    let bits: u32 = get_field(w, 12, 0x1) << 5 | get_field(w, 2, 0x1f);
    let imm: i32 = sign_extend(bits, 0x20);
    let rd: i8 = reg_field(w, 7);
    Insn {
        rd,
        rs1: 0,
        rs2: 0,
        rs3: 0,
        imm,
        csr: 0,
        i_type: InsnType::InsnAddi,
        rvc: true,
        cont: false,
    }
}

/// CI: a destination and an unsigned offset scaled by 8.
pub open spec fn spec_citype2(data: u16) -> Insn {
    Insn {
        imm: ci_ldsp_imm_bits(data as u32) as i32,
        rd: spec_rc1(data as u32) as i8,
        rvc: true,
        ..Insn::blank()
    }
}

/// CI: a destination and an unsigned offset scaled by 8.
pub fn insn_citype_read2(data: u16) -> (r: Insn)
    ensures
        r == spec_citype2(data),
        r.wf(),
{
    let w: u32 = data as u32;
    proof {
        lemma_imm_bits_bounds(w);
    }
    let bits: u32 = get_field(w, 2, 0x7) << 6
        | get_field(w, 5, 0x3) << 3
        | get_field(w, 12, 0x1) << 5;
    let imm: i32 = bits as i32;
    let rd: i8 = reg_field(w, 7);
    Insn {
        rd,
        rs1: 0,
        rs2: 0,
        rs3: 0,
        imm,
        csr: 0,
        i_type: InsnType::InsnAddi,
        rvc: true,
        cont: false,
    }
}

/// CI: a destination and a 10-bit signed immediate scaled by 16.
pub open spec fn spec_citype3(data: u16) -> Insn {
    Insn {
        imm: sext(ci_addi16sp_imm_bits(data as u32), 0x200) as i32,
        rd: spec_rc1(data as u32) as i8,
        rvc: true,
        ..Insn::blank()
    }
}

/// CI: a destination and a 10-bit signed immediate scaled by 16.
pub fn insn_citype_read3(data: u16) -> (r: Insn)
    ensures
        r == spec_citype3(data),
        r.wf(),
{
    let w: u32 = data as u32;
    proof {
        lemma_imm_bits_bounds(w);
    }
    let bits: u32 = get_field(w, 2, 0x1) << 5
        | get_field(w, 3, 0x3) << 7
        | get_field(w, 5, 0x1) << 6
        | get_field(w, 6, 0x1) << 4
        | get_field(w, 12, 0x1) << 9;
    let imm: i32 = sign_extend(bits, 0x200);
    let rd: i8 = reg_field(w, 7);
    Insn {
        rd,
        rs1: 0,
        rs2: 0,
        rs3: 0,
        imm,
        csr: 0,
        i_type: InsnType::InsnAddi,
        rvc: true,
        cont: false,
    }
}

/// CI: a destination and an unsigned offset scaled by 4.
pub open spec fn spec_citype4(data: u16) -> Insn {
    Insn {
        imm: ci_lwsp_imm_bits(data as u32) as i32,
        rd: spec_rc1(data as u32) as i8,
        rvc: true,
        ..Insn::blank()
    }
}

/// CI: a destination and an unsigned offset scaled by 4.
pub fn insn_citype_read4(data: u16) -> (r: Insn)
    ensures
        r == spec_citype4(data),
        r.wf(),
{
    let w: u32 = data as u32;
    proof {
        lemma_imm_bits_bounds(w);
    }
    let bits: u32 = get_field(w, 12, 0x1) << 5
        | get_field(w, 4, 0x7) << 2
        | get_field(w, 2, 0x3) << 6;
    let imm: i32 = bits as i32;
    let rd: i8 = reg_field(w, 7);
    Insn {
        rd,
        rs1: 0,
        rs2: 0,
        rs3: 0,
        imm,
        csr: 0,
        i_type: InsnType::InsnAddi,
        rvc: true,
        cont: false,
    }
}

/// CI: a destination and an 18-bit signed immediate scaled by 4096.
pub open spec fn spec_citype5(data: u16) -> Insn {
    Insn {
        imm: sext(ci_lui_imm_bits(data as u32), 0x2_0000) as i32,
        rd: spec_rc1(data as u32) as i8,
        rvc: true,
        ..Insn::blank()
    }
}

/// CI: a destination and an 18-bit signed immediate scaled by 4096.
pub fn insn_citype_read5(data: u16) -> (r: Insn)
    ensures
        r == spec_citype5(data),
        r.wf(),
{
    let w: u32 = data as u32;
    proof {
        lemma_imm_bits_bounds(w);
    }
    let bits: u32 = get_field(w, 2, 0x1f) << 12 | get_field(w, 12, 0x1) << 17;
    let imm: i32 = sign_extend(bits, 0x2_0000);
    let rd: i8 = reg_field(w, 7);
    Insn {
        rd,
        rs1: 0,
        rs2: 0,
        rs3: 0,
        imm,
        csr: 0,
        i_type: InsnType::InsnAddi,
        rvc: true,
        cont: false,
    }
}

/// CB: a source from x8..x15 and a 9-bit signed, even branch offset.
pub open spec fn spec_cbtype(data: u16) -> Insn {
    Insn {
        imm: sext(cb_imm_bits(data as u32), 0x100) as i32,
        rs1: (spec_rp1(data as u32) + 8) as i8,
        rvc: true,
        ..Insn::blank()
    }
}

/// CB: a source from x8..x15 and a 9-bit signed, even branch offset.
pub fn insn_cbtype_read(data: u16) -> (r: Insn)
    ensures
        r == spec_cbtype(data),
        r.wf(),
{
    let w: u32 = data as u32;
    proof {
        lemma_imm_bits_bounds(w);
    }
    let bits: u32 = get_field(w, 12, 0x1) << 8
        | get_field(w, 5, 0x3) << 6
        | get_field(w, 2, 0x1) << 5
        | get_field(w, 10, 0x3) << 3
        | get_field(w, 3, 0x3) << 1;
    let imm: i32 = sign_extend(bits, 0x100);
    let rs1: i8 = popular_reg_field(w, 7);
    Insn {
        rd: 0,
        rs1,
        rs2: 0,
        rs3: 0,
        imm,
        csr: 0,
        i_type: InsnType::InsnAddi,
        rvc: true,
        cont: false,
    }
}

/// CB: a destination from x8..x15 and a 6-bit signed immediate.
pub open spec fn spec_cbtype2(data: u16) -> Insn {
    Insn {
        imm: sext(ci_imm_bits(data as u32), 0x20) as i32,
        rd: (spec_rp1(data as u32) + 8) as i8,
        rvc: true,
        ..Insn::blank()
    }
}

/// CB: a destination from x8..x15 and a 6-bit signed immediate.
pub fn insn_cbtype_read2(data: u16) -> (r: Insn)
    ensures
        r == spec_cbtype2(data),
        r.wf(),
{
    let w: u32 = data as u32;
    proof {
        lemma_imm_bits_bounds(w);
    }
    let bits: u32 = get_field(w, 12, 0x1) << 5 | get_field(w, 2, 0x1f);
    let imm: i32 = sign_extend(bits, 0x20);
    let rd: i8 = popular_reg_field(w, 7);
    Insn {
        rd,
        rs1: 0,
        rs2: 0,
        rs3: 0,
        imm,
        csr: 0,
        i_type: InsnType::InsnAddi,
        rvc: true,
        cont: false,
    }
}

/// CS: two sources from x8..x15 and an unsigned offset scaled by 8.
pub open spec fn spec_cstype(data: u16) -> Insn {
    Insn {
        imm: cls_d_imm_bits(data as u32) as i32,
        rs1: (spec_rp1(data as u32) + 8) as i8,
        rs2: (spec_rp2(data as u32) + 8) as i8,
        rvc: true,
        ..Insn::blank()
    }
}

/// CS: two sources from x8..x15 and an unsigned offset scaled by 8.
pub fn insn_cstype_read(data: u16) -> (r: Insn)
    ensures
        r == spec_cstype(data),
        r.wf(),
{
    let w: u32 = data as u32;
    proof {
        lemma_imm_bits_bounds(w);
    }
    let bits: u32 = get_field(w, 5, 0x3) << 6 | get_field(w, 10, 0x7) << 3;
    let imm: i32 = bits as i32;
    let rs1: i8 = popular_reg_field(w, 7);
    let rs2: i8 = popular_reg_field(w, 2);
    Insn {
        rd: 0,
        rs1,
        rs2,
        rs3: 0,
        imm,
        csr: 0,
        i_type: InsnType::InsnAddi,
        rvc: true,
        cont: false,
    }
}

/// CS: two sources from x8..x15 and an unsigned offset scaled by 4.
pub open spec fn spec_cstype2(data: u16) -> Insn {
    Insn {
        imm: cls_w_imm_bits(data as u32) as i32,
        rs1: (spec_rp1(data as u32) + 8) as i8,
        rs2: (spec_rp2(data as u32) + 8) as i8,
        rvc: true,
        ..Insn::blank()
    }
}

/// CS: two sources from x8..x15 and an unsigned offset scaled by 4.
pub fn insn_cstype_read2(data: u16) -> (r: Insn)
    ensures
        r == spec_cstype2(data),
        r.wf(),
{
    let w: u32 = data as u32;
    proof {
        lemma_imm_bits_bounds(w);
    }
    let bits: u32 = get_field(w, 5, 0x1) << 6
        | get_field(w, 6, 0x1) << 2
        | get_field(w, 10, 0x7) << 3;
    let imm: i32 = bits as i32;
    let rs1: i8 = popular_reg_field(w, 7);
    let rs2: i8 = popular_reg_field(w, 2);
    Insn {
        rd: 0,
        rs1,
        rs2,
        rs3: 0,
        imm,
        csr: 0,
        i_type: InsnType::InsnAddi,
        rvc: true,
        cont: false,
    }
}

/// CJ: a 12-bit signed, even jump offset.
pub open spec fn spec_cjtype(data: u16) -> Insn {
    Insn { imm: sext(cj_imm_bits(data as u32), 0x800) as i32, rvc: true, ..Insn::blank() }
}

/// CJ: a 12-bit signed, even jump offset.
pub fn insn_cjtype_read(data: u16) -> (r: Insn)
    ensures
        r == spec_cjtype(data),
        r.wf(),
{
    let w: u32 = data as u32;
    proof {
        lemma_imm_bits_bounds(w);
    }
    let bits: u32 = get_field(w, 2, 0x1) << 5
        | get_field(w, 3, 0x7) << 1
        | get_field(w, 6, 0x1) << 7
        | get_field(w, 7, 0x1) << 6
        | get_field(w, 8, 0x1) << 10
        | get_field(w, 9, 0x3) << 8
        | get_field(w, 11, 0x1) << 4
        | get_field(w, 12, 0x1) << 11;
    let imm: i32 = sign_extend(bits, 0x800);
    Insn {
        rd: 0,
        rs1: 0,
        rs2: 0,
        rs3: 0,
        imm,
        csr: 0,
        i_type: InsnType::InsnAddi,
        rvc: true,
        cont: false,
    }
}

/// CL: a base and a destination from x8..x15 and an unsigned offset scaled by 4.
pub open spec fn spec_cltype(data: u16) -> Insn {
    Insn {
        imm: cls_w_imm_bits(data as u32) as i32,
        rs1: (spec_rp1(data as u32) + 8) as i8,
        rd: (spec_rp2(data as u32) + 8) as i8,
        rvc: true,
        ..Insn::blank()
    }
}

/// CL: a base and a destination from x8..x15 and an unsigned offset scaled by 4.
pub fn insn_cltype_read(data: u16) -> (r: Insn)
    ensures
        r == spec_cltype(data),
        r.wf(),
{
    let w: u32 = data as u32;
    proof {
        lemma_imm_bits_bounds(w);
    }
    let bits: u32 = get_field(w, 5, 0x1) << 6
        | get_field(w, 6, 0x1) << 2
        | get_field(w, 10, 0x7) << 3;
    let imm: i32 = bits as i32;
    let rs1: i8 = popular_reg_field(w, 7);
    let rd: i8 = popular_reg_field(w, 2);
    Insn {
        rd,
        rs1,
        rs2: 0,
        rs3: 0,
        imm,
        csr: 0,
        i_type: InsnType::InsnAddi,
        rvc: true,
        cont: false,
    }
}

/// CL: a base and a destination from x8..x15 and an unsigned offset scaled by 8.
pub open spec fn spec_cltype2(data: u16) -> Insn {
    Insn {
        imm: cls_d_imm_bits(data as u32) as i32,
        rs1: (spec_rp1(data as u32) + 8) as i8,
        rd: (spec_rp2(data as u32) + 8) as i8,
        rvc: true,
        ..Insn::blank()
    }
}

/// CL: a base and a destination from x8..x15 and an unsigned offset scaled by 8.
pub fn insn_cltype_read2(data: u16) -> (r: Insn)
    ensures
        r == spec_cltype2(data),
        r.wf(),
{
    let w: u32 = data as u32;
    proof {
        lemma_imm_bits_bounds(w);
    }
    let bits: u32 = get_field(w, 5, 0x3) << 6 | get_field(w, 10, 0x7) << 3;
    let imm: i32 = bits as i32;
    let rs1: i8 = popular_reg_field(w, 7);
    let rd: i8 = popular_reg_field(w, 2);
    Insn {
        rd,
        rs1,
        rs2: 0,
        rs3: 0,
        imm,
        csr: 0,
        i_type: InsnType::InsnAddi,
        rvc: true,
        cont: false,
    }
}

/// CSS: a source and an unsigned stack offset scaled by 8.
pub open spec fn spec_csstype(data: u16) -> Insn {
    Insn {
        imm: css_d_imm_bits(data as u32) as i32,
        rs2: spec_rc2(data as u32) as i8,
        rvc: true,
        ..Insn::blank()
    }
}

/// CSS: a source and an unsigned stack offset scaled by 8.
pub fn insn_csstype_read(data: u16) -> (r: Insn)
    ensures
        r == spec_csstype(data),
        r.wf(),
{
    let w: u32 = data as u32;
    proof {
        lemma_imm_bits_bounds(w);
    }
    let bits: u32 = get_field(w, 7, 0x7) << 6 | get_field(w, 10, 0x7) << 3;
    let imm: i32 = bits as i32;
    let rs2: i8 = reg_field(w, 2);
    Insn {
        rd: 0,
        rs1: 0,
        rs2,
        rs3: 0,
        imm,
        csr: 0,
        i_type: InsnType::InsnAddi,
        rvc: true,
        cont: false,
    }
}

/// CSS: a source and an unsigned stack offset scaled by 4.
pub open spec fn spec_csstype2(data: u16) -> Insn {
    Insn {
        imm: css_w_imm_bits(data as u32) as i32,
        rs2: spec_rc2(data as u32) as i8,
        rvc: true,
        ..Insn::blank()
    }
}

/// CSS: a source and an unsigned stack offset scaled by 4.
pub fn insn_csstype_read2(data: u16) -> (r: Insn)
    ensures
        r == spec_csstype2(data),
        r.wf(),
{
    let w: u32 = data as u32;
    proof {
        lemma_imm_bits_bounds(w);
    }
    let bits: u32 = get_field(w, 7, 0x3) << 6 | get_field(w, 9, 0xf) << 2;
    let imm: i32 = bits as i32;
    let rs2: i8 = reg_field(w, 2);
    Insn {
        rd: 0,
        rs1: 0,
        rs2,
        rs3: 0,
        imm,
        csr: 0,
        i_type: InsnType::InsnAddi,
        rvc: true,
        cont: false,
    }
}

/// CIW: a destination from x8..x15 and an unsigned immediate scaled by 4.
pub open spec fn spec_ciwtype(data: u16) -> Insn {
    Insn {
        imm: ciw_imm_bits(data as u32) as i32,
        rd: (spec_rp2(data as u32) + 8) as i8,
        rvc: true,
        ..Insn::blank()
    }
}

/// CIW: a destination from x8..x15 and an unsigned immediate scaled by 4.
pub fn insn_ciwtype_read(data: u16) -> (r: Insn)
    ensures
        r == spec_ciwtype(data),
        r.wf(),
{
    let w: u32 = data as u32;
    proof {
        lemma_imm_bits_bounds(w);
    }
    let bits: u32 = get_field(w, 5, 0x1) << 3
        | get_field(w, 6, 0x1) << 2
        | get_field(w, 7, 0xf) << 6
        | get_field(w, 11, 0x3) << 4;
    let imm: i32 = bits as i32;
    let rd: i8 = popular_reg_field(w, 2);
    Insn {
        rd,
        rs1: 0,
        rs2: 0,
        rs3: 0,
        imm,
        csr: 0,
        i_type: InsnType::InsnAddi,
        rvc: true,
        cont: false,
    }
}

// ---------------------------------------------------------------------
// The encoding tables of the 32-bit instructions
// ---------------------------------------------------------------------

/// Integer loads, by width and signedness.
pub open spec fn load_kind(f3: u32) -> Option<InsnType> {
    if f3 == 0x0 {
        Some(InsnType::InsnLb)
    } else if f3 == 0x1 {
        Some(InsnType::InsnLh)
    } else if f3 == 0x2 {
        Some(InsnType::InsnLw)
    } else if f3 == 0x3 {
        Some(InsnType::InsnLd)
    } else if f3 == 0x4 {
        Some(InsnType::InsnLbu)
    } else if f3 == 0x5 {
        Some(InsnType::InsnLhu)
    } else if f3 == 0x6 {
        Some(InsnType::InsnLwu)
    } else {
        None
    }
}

/// Floating-point loads, by width.
pub open spec fn fp_load_kind(f3: u32) -> Option<InsnType> {
    if f3 == 0x2 {
        Some(InsnType::InsnFlw)
    } else if f3 == 0x3 {
        Some(InsnType::InsnFld)
    } else {
        None
    }
}

/// Memory ordering instructions.
pub open spec fn fence_kind(f3: u32) -> Option<InsnType> {
    if f3 == 0x0 {
        Some(InsnType::InsnFence)
    } else if f3 == 0x1 {
        Some(InsnType::InsnFenceI)
    } else {
        None
    }
}

/// Register-immediate operations.  The shifts keep their amount in the low
/// six bits of the immediate and their variant in its upper six bits.
pub open spec fn op_imm_kind(f3: u32, imm116: u32) -> Option<InsnType> {
    if f3 == 0x0 {
        Some(InsnType::InsnAddi)
    } else if f3 == 0x1 && imm116 == 0x0 {
        Some(InsnType::InsnSlli)
    } else if f3 == 0x2 {
        Some(InsnType::InsnSlti)
    } else if f3 == 0x3 {
        Some(InsnType::InsnSltiu)
    } else if f3 == 0x4 {
        Some(InsnType::InsnXori)
    } else if f3 == 0x5 && imm116 == 0x0 {
        Some(InsnType::InsnSrli)
    } else if f3 == 0x5 && imm116 == 0x10 {
        Some(InsnType::InsnSrai)
    } else if f3 == 0x6 {
        Some(InsnType::InsnOri)
    } else if f3 == 0x7 {
        Some(InsnType::InsnAndi)
    } else {
        None
    }
}

/// Register-immediate operations on the low word.
pub open spec fn op_imm32_kind(f3: u32, f7: u32) -> Option<InsnType> {
    if f3 == 0x0 {
        Some(InsnType::InsnAddiw)
    } else if f3 == 0x1 && f7 == 0x0 {
        Some(InsnType::InsnSlliw)
    } else if f3 == 0x5 && f7 == 0x0 {
        Some(InsnType::InsnSrliw)
    } else if f3 == 0x5 && f7 == 0x20 {
        Some(InsnType::InsnSraiw)
    } else {
        None
    }
}

/// Integer stores, by width.
pub open spec fn store_kind(f3: u32) -> Option<InsnType> {
    if f3 == 0x0 {
        Some(InsnType::InsnSb)
    } else if f3 == 0x1 {
        Some(InsnType::InsnSh)
    } else if f3 == 0x2 {
        Some(InsnType::InsnSw)
    } else if f3 == 0x3 {
        Some(InsnType::InsnSd)
    } else {
        None
    }
}

/// Floating-point stores, by width.
pub open spec fn fp_store_kind(f3: u32) -> Option<InsnType> {
    if f3 == 0x2 {
        Some(InsnType::InsnFsw)
    } else if f3 == 0x3 {
        Some(InsnType::InsnFsd)
    } else {
        None
    }
}

/// Register-register operations, multiplication and division included.
pub open spec fn op_kind(f7: u32, f3: u32) -> Option<InsnType> {
    if f7 == 0x0 && f3 == 0x0 {
        Some(InsnType::InsnAdd)
    } else if f7 == 0x0 && f3 == 0x1 {
        Some(InsnType::InsnSll)
    } else if f7 == 0x0 && f3 == 0x2 {
        Some(InsnType::InsnSlt)
    } else if f7 == 0x0 && f3 == 0x3 {
        Some(InsnType::InsnSltu)
    } else if f7 == 0x0 && f3 == 0x4 {
        Some(InsnType::InsnXor)
    } else if f7 == 0x0 && f3 == 0x5 {
        Some(InsnType::InsnSrl)
    } else if f7 == 0x0 && f3 == 0x6 {
        Some(InsnType::InsnOr)
    } else if f7 == 0x0 && f3 == 0x7 {
        Some(InsnType::InsnAnd)
    } else if f7 == 0x1 && f3 == 0x0 {
        Some(InsnType::InsnMul)
    } else if f7 == 0x1 && f3 == 0x1 {
        Some(InsnType::InsnMulh)
    } else if f7 == 0x1 && f3 == 0x2 {
        Some(InsnType::InsnMulhsu)
    } else if f7 == 0x1 && f3 == 0x3 {
        Some(InsnType::InsnMulhu)
    } else if f7 == 0x1 && f3 == 0x4 {
        Some(InsnType::InsnDiv)
    } else if f7 == 0x1 && f3 == 0x5 {
        Some(InsnType::InsnDivu)
    } else if f7 == 0x1 && f3 == 0x6 {
        Some(InsnType::InsnRem)
    } else if f7 == 0x1 && f3 == 0x7 {
        Some(InsnType::InsnRemu)
    } else if f7 == 0x20 && f3 == 0x0 {
        Some(InsnType::InsnSub)
    } else if f7 == 0x20 && f3 == 0x5 {
        Some(InsnType::InsnSra)
    } else {
        None
    }
}

/// Register-register operations on the low word.
pub open spec fn op32_kind(f7: u32, f3: u32) -> Option<InsnType> {
    if f7 == 0x0 && f3 == 0x0 {
        Some(InsnType::InsnAddw)
    } else if f7 == 0x0 && f3 == 0x1 {
        Some(InsnType::InsnSllw)
    } else if f7 == 0x0 && f3 == 0x5 {
        Some(InsnType::InsnSrlw)
    } else if f7 == 0x1 && f3 == 0x0 {
        Some(InsnType::InsnMulw)
    } else if f7 == 0x1 && f3 == 0x4 {
        Some(InsnType::InsnDivw)
    } else if f7 == 0x1 && f3 == 0x5 {
        Some(InsnType::InsnDivuw)
    } else if f7 == 0x1 && f3 == 0x6 {
        Some(InsnType::InsnRemw)
    } else if f7 == 0x1 && f3 == 0x7 {
        Some(InsnType::InsnRemuw)
    } else if f7 == 0x20 && f3 == 0x0 {
        Some(InsnType::InsnSubw)
    } else if f7 == 0x20 && f3 == 0x5 {
        Some(InsnType::InsnSraw)
    } else {
        None
    }
}

/// Fused multiply-add, by opcode and precision.
pub open spec fn fma_kind(op: u32, f2: u32) -> Option<InsnType> {
    if op == 0x10 && f2 == 0x0 {
        Some(InsnType::InsnFmaddS)
    } else if op == 0x10 && f2 == 0x1 {
        Some(InsnType::InsnFmaddD)
    } else if op == 0x11 && f2 == 0x0 {
        Some(InsnType::InsnFmsubS)
    } else if op == 0x11 && f2 == 0x1 {
        Some(InsnType::InsnFmsubD)
    } else if op == 0x12 && f2 == 0x0 {
        Some(InsnType::InsnFnmsubS)
    } else if op == 0x12 && f2 == 0x1 {
        Some(InsnType::InsnFnmsubD)
    } else if op == 0x13 && f2 == 0x0 {
        Some(InsnType::InsnFnmaddS)
    } else if op == 0x13 && f2 == 0x1 {
        Some(InsnType::InsnFnmaddD)
    } else {
        None
    }
}

/// Floating-point operations.  The low bit of `f7` is the precision; where
/// an operation has one source only, the second source field `r2` refines
/// the operation.
pub open spec fn op_fp_kind(f7: u32, f3: u32, r2: u32) -> Option<InsnType> {
    if f7 == 0x0 {
        Some(InsnType::InsnFaddS)
    } else if f7 == 0x1 {
        Some(InsnType::InsnFaddD)
    } else if f7 == 0x4 {
        Some(InsnType::InsnFsubS)
    } else if f7 == 0x5 {
        Some(InsnType::InsnFsubD)
    } else if f7 == 0x8 {
        Some(InsnType::InsnFmulS)
    } else if f7 == 0x9 {
        Some(InsnType::InsnFmulD)
    } else if f7 == 0xc {
        Some(InsnType::InsnFdivS)
    } else if f7 == 0xd {
        Some(InsnType::InsnFdivD)
    } else if f7 == 0x10 && f3 == 0x0 {
        Some(InsnType::InsnFsgnjS)
    } else if f7 == 0x10 && f3 == 0x1 {
        Some(InsnType::InsnFsgnjnS)
    } else if f7 == 0x10 && f3 == 0x2 {
        Some(InsnType::InsnFsgnjxS)
    } else if f7 == 0x11 && f3 == 0x0 {
        Some(InsnType::InsnFsgnjD)
    } else if f7 == 0x11 && f3 == 0x1 {
        Some(InsnType::InsnFsgnjnD)
    } else if f7 == 0x11 && f3 == 0x2 {
        Some(InsnType::InsnFsgnjxD)
    } else if f7 == 0x14 && f3 == 0x0 {
        Some(InsnType::InsnFminS)
    } else if f7 == 0x14 && f3 == 0x1 {
        Some(InsnType::InsnFmaxS)
    } else if f7 == 0x15 && f3 == 0x0 {
        Some(InsnType::InsnFminD)
    } else if f7 == 0x15 && f3 == 0x1 {
        Some(InsnType::InsnFmaxD)
    } else if f7 == 0x20 && r2 == 0x1 {
        Some(InsnType::InsnFcvtSD)
    } else if f7 == 0x21 && r2 == 0x0 {
        Some(InsnType::InsnFcvtDS)
    } else if f7 == 0x2c && r2 == 0x0 {
        Some(InsnType::InsnFsqrtS)
    } else if f7 == 0x2d && r2 == 0x0 {
        Some(InsnType::InsnFsqrtD)
    } else if f7 == 0x50 && f3 == 0x0 {
        Some(InsnType::InsnFleS)
    } else if f7 == 0x50 && f3 == 0x1 {
        Some(InsnType::InsnFltS)
    } else if f7 == 0x50 && f3 == 0x2 {
        Some(InsnType::InsnFeqS)
    } else if f7 == 0x51 && f3 == 0x0 {
        Some(InsnType::InsnFleD)
    } else if f7 == 0x51 && f3 == 0x1 {
        Some(InsnType::InsnFltD)
    } else if f7 == 0x51 && f3 == 0x2 {
        Some(InsnType::InsnFeqD)
    } else if f7 == 0x60 && r2 == 0x0 {
        Some(InsnType::InsnFcvtWS)
    } else if f7 == 0x60 && r2 == 0x1 {
        Some(InsnType::InsnFcvtWuS)
    } else if f7 == 0x60 && r2 == 0x2 {
        Some(InsnType::InsnFcvtLS)
    } else if f7 == 0x60 && r2 == 0x3 {
        Some(InsnType::InsnFcvtLuS)
    } else if f7 == 0x61 && r2 == 0x0 {
        Some(InsnType::InsnFcvtWD)
    } else if f7 == 0x61 && r2 == 0x1 {
        Some(InsnType::InsnFcvtWuD)
    } else if f7 == 0x61 && r2 == 0x2 {
        Some(InsnType::InsnFcvtLD)
    } else if f7 == 0x61 && r2 == 0x3 {
        Some(InsnType::InsnFcvtLuD)
    } else if f7 == 0x68 && r2 == 0x0 {
        Some(InsnType::InsnFcvtSW)
    } else if f7 == 0x68 && r2 == 0x1 {
        Some(InsnType::InsnFcvtSWu)
    } else if f7 == 0x68 && r2 == 0x2 {
        Some(InsnType::InsnFcvtSL)
    } else if f7 == 0x68 && r2 == 0x3 {
        Some(InsnType::InsnFcvtSLu)
    } else if f7 == 0x69 && r2 == 0x0 {
        Some(InsnType::InsnFcvtDW)
    } else if f7 == 0x69 && r2 == 0x1 {
        Some(InsnType::InsnFcvtDWu)
    } else if f7 == 0x69 && r2 == 0x2 {
        Some(InsnType::InsnFcvtDL)
    } else if f7 == 0x69 && r2 == 0x3 {
        Some(InsnType::InsnFcvtDLu)
    } else if f7 == 0x70 && r2 == 0x0 && f3 == 0x0 {
        Some(InsnType::InsnFmvXW)
    } else if f7 == 0x70 && r2 == 0x0 && f3 == 0x1 {
        Some(InsnType::InsnFclassS)
    } else if f7 == 0x71 && r2 == 0x0 && f3 == 0x0 {
        Some(InsnType::InsnFmvXD)
    } else if f7 == 0x71 && r2 == 0x0 && f3 == 0x1 {
        Some(InsnType::InsnFclassD)
    } else if f7 == 0x78 && r2 == 0x0 && f3 == 0x0 {
        Some(InsnType::InsnFmvWX)
    } else if f7 == 0x79 && r2 == 0x0 && f3 == 0x0 {
        Some(InsnType::InsnFmvDX)
    } else {
        None
    }
}

/// Conditional branches, by relation.
pub open spec fn branch_kind(f3: u32) -> Option<InsnType> {
    if f3 == 0x0 {
        Some(InsnType::InsnBeq)
    } else if f3 == 0x1 {
        Some(InsnType::InsnBne)
    } else if f3 == 0x4 {
        Some(InsnType::InsnBlt)
    } else if f3 == 0x5 {
        Some(InsnType::InsnBge)
    } else if f3 == 0x6 {
        Some(InsnType::InsnBltu)
    } else if f3 == 0x7 {
        Some(InsnType::InsnBgeu)
    } else {
        None
    }
}

/// Accesses to control and status registers.
pub open spec fn csr_kind(f3: u32) -> Option<InsnType> {
    if f3 == 0x1 {
        Some(InsnType::InsnCsrrw)
    } else if f3 == 0x2 {
        Some(InsnType::InsnCsrrs)
    } else if f3 == 0x3 {
        Some(InsnType::InsnCsrrc)
    } else if f3 == 0x5 {
        Some(InsnType::InsnCsrrwi)
    } else if f3 == 0x6 {
        Some(InsnType::InsnCsrrsi)
    } else if f3 == 0x7 {
        Some(InsnType::InsnCsrrci)
    } else {
        None
    }
}

/// The word that encodes the environment call.
pub const ECALL_WORD: u32 = 0x73;

/// The operation that a 32-bit word encodes, if any.  The major opcode
/// selects the table; opcodes without a table are reserved.
pub open spec fn spec_kind32(w: u32) -> Option<InsnType> {
    let op = spec_op_code(w);
    let f3 = spec_func_t3(w);
    let f7 = spec_func_t7(w);
    if op == 0x0 {
        load_kind(f3)
    } else if op == 0x1 {
        fp_load_kind(f3)
    } else if op == 0x3 {
        fence_kind(f3)
    } else if op == 0x4 {
        op_imm_kind(f3, spec_imm_116(w))
    } else if op == 0x5 {
        Some(InsnType::InsnAuipc)
    } else if op == 0x6 {
        op_imm32_kind(f3, f7)
    } else if op == 0x8 {
        store_kind(f3)
    } else if op == 0x9 {
        fp_store_kind(f3)
    } else if op == 0xc {
        op_kind(f7, f3)
    } else if op == 0xd {
        Some(InsnType::InsnLui)
    } else if op == 0xe {
        op32_kind(f7, f3)
    } else if 0x10 <= op <= 0x13 {
        fma_kind(op, spec_func_t2(w))
    } else if op == 0x14 {
        op_fp_kind(f7, f3, spec_rs2(w))
    } else if op == 0x18 {
        branch_kind(f3)
    } else if op == 0x19 {
        if f3 == 0x0 {
            Some(InsnType::InsnJalr)
        } else {
            None
        }
    } else if op == 0x1b {
        Some(InsnType::InsnJal)
    } else if op == 0x1c {
        if w == ECALL_WORD {
            Some(InsnType::InsnEcall)
        } else {
            csr_kind(f3)
        }
    } else {
        None
    }
}

/// The operands of a 32-bit word, read in the format of its major opcode.
pub open spec fn spec_operands32(w: u32) -> Insn {
    let op = spec_op_code(w);
    if op == 0x0 || op == 0x1 || op == 0x4 || op == 0x6 || op == 0x19 {
        spec_itype(w)
    } else if op == 0x5 || op == 0xd {
        spec_utype(w)
    } else if op == 0x8 || op == 0x9 {
        spec_stype(w)
    } else if op == 0xc || op == 0xe || op == 0x14 {
        spec_rtype(w)
    } else if 0x10 <= op <= 0x13 {
        spec_fprtype(w)
    } else if op == 0x18 {
        spec_btype(w)
    } else if op == 0x1b {
        spec_jtype(w)
    } else if op == 0x1c && w != ECALL_WORD {
        spec_csrtype(w)
    } else {
        Insn::blank()
    }
}

/// Jumps and the environment call end straight-line execution as soon as
/// they are decoded; a branch does so only when it is taken.
pub open spec fn ends_block(k: InsnType) -> bool {
    k == InsnType::InsnJal || k == InsnType::InsnJalr || k == InsnType::InsnEcall
}

/// What a 32-bit word decodes to.
pub open spec fn spec_decode32(w: u32) -> Option<Insn> {
    match spec_kind32(w) {
        Some(k) => Some(Insn { i_type: k, cont: ends_block(k), ..spec_operands32(w) }),
        None => None,
    }
}

// ---------------------------------------------------------------------
// The encoding table of the 16-bit instructions
// ---------------------------------------------------------------------
/// Register number of the stack pointer.
pub const SP: i8 = 2;

/// Register number of the return address.
pub const RA: i8 = 1;

/// `i` as the operation `k`.
pub open spec fn as_kind(i: Insn, k: InsnType) -> Option<Insn> {
    Some(Insn { i_type: k, cont: ends_block(k), ..i })
}

/// What a 16-bit word decodes to: each form stands for one 32-bit
/// instruction, whose operands it names in fewer bits.
pub open spec fn spec_decode16(h: u16) -> Option<Insn> {
    let w = h as u32;
    let q = spec_quadrant(w);
    let cop = spec_cop_code(w);
    if q == 0x0 {
        if cop == 0x0 {
            // add a scaled immediate to the stack pointer
            let i = spec_ciwtype(h);
            if i.imm != 0 {
                as_kind(Insn { rs1: SP, ..i }, InsnType::InsnAddi)
            } else {
                None
            }
        } else if cop == 0x1 {
            as_kind(spec_cltype2(h), InsnType::InsnFld)
        } else if cop == 0x2 {
            as_kind(spec_cltype(h), InsnType::InsnLw)
        } else if cop == 0x3 {
            as_kind(spec_cltype2(h), InsnType::InsnLd)
        } else if cop == 0x5 {
            as_kind(spec_cstype(h), InsnType::InsnFsd)
        } else if cop == 0x6 {
            as_kind(spec_cstype2(h), InsnType::InsnSw)
        } else if cop == 0x7 {
            as_kind(spec_cstype(h), InsnType::InsnSd)
        } else {
            None
        }
    } else if q == 0x1 {
        if cop == 0x0 {
            let i = spec_citype(h);
            as_kind(Insn { rs1: i.rd, ..i }, InsnType::InsnAddi)
        } else if cop == 0x1 {
            let i = spec_citype(h);
            if i.rd != 0 {
                as_kind(Insn { rs1: i.rd, ..i }, InsnType::InsnAddiw)
            } else {
                None
            }
        } else if cop == 0x2 {
            // load immediate
            as_kind(spec_citype(h), InsnType::InsnAddi)
        } else if cop == 0x3 {
            if spec_rc1(w) == 2 {
                // adjust the stack pointer
                let i = spec_citype3(h);
                if i.imm != 0 {
                    as_kind(Insn { rs1: i.rd, ..i }, InsnType::InsnAddi)
                } else {
                    None
                }
            } else {
                let i = spec_citype5(h);
                if i.imm != 0 {
                    as_kind(i, InsnType::InsnLui)
                } else {
                    None
                }
            }
        } else if cop == 0x4 {
            let hi = spec_cfunc_t2_high(w);
            let lo = spec_cfunc_t2_low(w);
            if hi != 0x3 {
                let i = spec_cbtype2(h);
                let i = Insn { rs1: i.rd, ..i };
                if hi == 0x0 {
                    as_kind(i, InsnType::InsnSrli)
                } else if hi == 0x1 {
                    as_kind(i, InsnType::InsnSrai)
                } else {
                    as_kind(i, InsnType::InsnAndi)
                }
            } else {
                let i = spec_catype(h);
                let i = Insn { rs1: i.rd, ..i };
                if spec_cfunc_t1(w) == 0x0 {
                    if lo == 0x0 {
                        as_kind(i, InsnType::InsnSub)
                    } else if lo == 0x1 {
                        as_kind(i, InsnType::InsnXor)
                    } else if lo == 0x2 {
                        as_kind(i, InsnType::InsnOr)
                    } else {
                        as_kind(i, InsnType::InsnAnd)
                    }
                } else {
                    if lo == 0x0 {
                        as_kind(i, InsnType::InsnSubw)
                    } else if lo == 0x1 {
                        as_kind(i, InsnType::InsnAddw)
                    } else {
                        None
                    }
                }
            }
        } else if cop == 0x5 {
            // jump
            as_kind(spec_cjtype(h), InsnType::InsnJal)
        } else if cop == 0x6 {
            // branch if zero
            as_kind(spec_cbtype(h), InsnType::InsnBeq)
        } else {
            // branch if not zero
            as_kind(spec_cbtype(h), InsnType::InsnBne)
        }
    } else {
        if cop == 0x0 {
            let i = spec_citype(h);
            as_kind(Insn { rs1: i.rd, ..i }, InsnType::InsnSlli)
        } else if cop == 0x1 {
            as_kind(Insn { rs1: SP, ..spec_citype2(h) }, InsnType::InsnFld)
        } else if cop == 0x2 {
            let i = spec_citype4(h);
            if i.rd != 0 {
                as_kind(Insn { rs1: SP, ..i }, InsnType::InsnLw)
            } else {
                None
            }
        } else if cop == 0x3 {
            let i = spec_citype2(h);
            if i.rd != 0 {
                as_kind(Insn { rs1: SP, ..i }, InsnType::InsnLd)
            } else {
                None
            }
        } else if cop == 0x4 {
            let i = spec_crtype(h);
            if spec_cfunc_t1(w) == 0x0 {
                if i.rs2 == 0 {
                    // jump to register
                    if i.rs1 != 0 {
                        as_kind(i, InsnType::InsnJalr)
                    } else {
                        None
                    }
                } else {
                    // move
                    as_kind(Insn { rd: i.rs1, rs1: 0, ..i }, InsnType::InsnAdd)
                }
            } else {
                if i.rs2 == 0 {
                    // jump to register and link; with no register, a breakpoint
                    if i.rs1 != 0 {
                        as_kind(Insn { rd: RA, ..i }, InsnType::InsnJalr)
                    } else {
                        None
                    }
                } else {
                    as_kind(Insn { rd: i.rs1, ..i }, InsnType::InsnAdd)
                }
            }
        } else if cop == 0x5 {
            as_kind(Insn { rs1: SP, ..spec_csstype(h) }, InsnType::InsnFsd)
        } else if cop == 0x6 {
            as_kind(Insn { rs1: SP, ..spec_csstype2(h) }, InsnType::InsnSw)
        } else {
            as_kind(Insn { rs1: SP, ..spec_csstype(h) }, InsnType::InsnSd)
        }
    }
}

/// The low half of a word, where a 16-bit encoding lies.
pub open spec fn low_half(w: u32) -> u16 {
    (w & 0xffff) as u16
}

/// What a fetched word decodes to: `None` for a word that encodes no
/// supported instruction.
pub open spec fn spec_decode(w: u32) -> Option<Insn> {
    if spec_quadrant(w) == 0x3 {
        spec_decode32(w)
    } else {
        spec_decode16(low_half(w))
    }
}

// ---------------------------------------------------------------------
// The decoder
// ---------------------------------------------------------------------

/// Bits 1..0: the quadrant, which tells the width of the encoding.
pub fn quadrant(data: u32) -> (r: u32)
    ensures
        r == spec_quadrant(data),
        r <= 0x3,
{
    get_field(data, 0, 0x3)
}

/// Bits 6..2: the major opcode of a 32-bit instruction.
pub fn op_code(data: u32) -> (r: u32)
    ensures
        r == spec_op_code(data),
        r <= 0x1f,
{
    get_field(data, 2, 0x1f)
}

/// Bits 26..25: the precision of a fused floating-point operation.
pub fn func_t2(data: u32) -> (r: u32)
    ensures
        r == spec_func_t2(data),
        r <= 0x3,
{
    get_field(data, 25, 0x3)
}

/// Bits 14..12: the minor opcode.
pub fn func_t3(data: u32) -> (r: u32)
    ensures
        r == spec_func_t3(data),
        r <= 0x7,
{
    get_field(data, 12, 0x7)
}

/// Bits 31..25: the function code of a register-register operation.
pub fn func_t7(data: u32) -> (r: u32)
    ensures
        r == spec_func_t7(data),
        r <= 0x7f,
{
    get_field(data, 25, 0x7f)
}

/// Bits 31..26: the part of a shift immediate above the shift amount.
pub fn imm_116(data: u32) -> (r: u32)
    ensures
        r == spec_imm_116(data),
        r <= 0x3f,
{
    get_field(data, 26, 0x3f)
}

/// Bits 15..13: the opcode of a 16-bit instruction.
pub fn cop_code(data: u32) -> (r: u32)
    ensures
        r == spec_cop_code(data),
        r <= 0x7,
{
    get_field(data, 13, 0x7)
}

/// Bit 12 of a 16-bit instruction, which refines some opcodes.
pub fn cfunc_t1(data: u32) -> (r: u32)
    ensures
        r == spec_cfunc_t1(data),
        r <= 0x1,
{
    get_field(data, 12, 0x1)
}

/// Bits 6..5 of a 16-bit instruction, which select an arithmetic operation.
pub fn cfunc_t2_low(data: u32) -> (r: u32)
    ensures
        r == spec_cfunc_t2_low(data),
        r <= 0x3,
{
    get_field(data, 5, 0x3)
}

/// Bits 11..10 of a 16-bit instruction, which select an arithmetic group.
pub fn cfunc_t2_high(data: u32) -> (r: u32)
    ensures
        r == spec_cfunc_t2_high(data),
        r <= 0x3,
{
    get_field(data, 10, 0x3)
}

/// Gives a decoded instruction its operation, and marks the operations
/// that end straight-line execution.
fn finish(i: Insn, k: InsnType) -> (r: Option<Insn>)
    ensures
        r == as_kind(i, k),
{
    let cont = match k {
        InsnType::InsnJal => true,
        InsnType::InsnJalr => true,
        InsnType::InsnEcall => true,
        _ => false,
    };
    Some(
        Insn {
            rd: i.rd,
            rs1: i.rs1,
            rs2: i.rs2,
            rs3: i.rs3,
            imm: i.imm,
            csr: i.csr,
            i_type: k,
            rvc: i.rvc,
            cont,
        },
    )
}

/// Decodes the register-register operations of one width.
fn decode_op(data: u32, wide: bool) -> (r: Option<Insn>)
    ensures
        r == (match (if wide {
            op_kind(spec_func_t7(data), spec_func_t3(data))
        } else {
            op32_kind(spec_func_t7(data), spec_func_t3(data))
        }) {
            Some(k) => as_kind(spec_rtype(data), k),
            None => None,
        }),
{
    let i = insn_rtype_read(data);
    let funct3 = func_t3(data);
    let funct7 = func_t7(data);
    if wide {
        match funct7 {
            0x0 => match funct3 {
                0x0 => finish(i, InsnType::InsnAdd),
                0x1 => finish(i, InsnType::InsnSll),
                0x2 => finish(i, InsnType::InsnSlt),
                0x3 => finish(i, InsnType::InsnSltu),
                0x4 => finish(i, InsnType::InsnXor),
                0x5 => finish(i, InsnType::InsnSrl),
                0x6 => finish(i, InsnType::InsnOr),
                _ => finish(i, InsnType::InsnAnd),
            },
            0x1 => match funct3 {
                0x0 => finish(i, InsnType::InsnMul),
                0x1 => finish(i, InsnType::InsnMulh),
                0x2 => finish(i, InsnType::InsnMulhsu),
                0x3 => finish(i, InsnType::InsnMulhu),
                0x4 => finish(i, InsnType::InsnDiv),
                0x5 => finish(i, InsnType::InsnDivu),
                0x6 => finish(i, InsnType::InsnRem),
                _ => finish(i, InsnType::InsnRemu),
            },
            0x20 => match funct3 {
                0x0 => finish(i, InsnType::InsnSub),
                0x5 => finish(i, InsnType::InsnSra),
                _ => None,
            },
            _ => None,
        }
    } else {
        match funct7 {
            0x0 => match funct3 {
                0x0 => finish(i, InsnType::InsnAddw),
                0x1 => finish(i, InsnType::InsnSllw),
                0x5 => finish(i, InsnType::InsnSrlw),
                _ => None,
            },
            0x1 => match funct3 {
                0x0 => finish(i, InsnType::InsnMulw),
                0x4 => finish(i, InsnType::InsnDivw),
                0x5 => finish(i, InsnType::InsnDivuw),
                0x6 => finish(i, InsnType::InsnRemw),
                0x7 => finish(i, InsnType::InsnRemuw),
                _ => None,
            },
            0x20 => match funct3 {
                0x0 => finish(i, InsnType::InsnSubw),
                0x5 => finish(i, InsnType::InsnSraw),
                _ => None,
            },
            _ => None,
        }
    }
}

/// Decodes the floating-point operations that are not fused.
fn decode_op_fp(data: u32) -> (r: Option<Insn>)
    ensures
        r == (match op_fp_kind(spec_func_t7(data), spec_func_t3(data), spec_rs2(data)) {
            Some(k) => as_kind(spec_rtype(data), k),
            None => None,
        }),
{
    let i = insn_rtype_read(data);
    let funct3 = func_t3(data);
    let funct7 = func_t7(data);
    let r2 = get_field(data, 20, 0x1f);
    match funct7 {
        0x0 => finish(i, InsnType::InsnFaddS),
        0x1 => finish(i, InsnType::InsnFaddD),
        0x4 => finish(i, InsnType::InsnFsubS),
        0x5 => finish(i, InsnType::InsnFsubD),
        0x8 => finish(i, InsnType::InsnFmulS),
        0x9 => finish(i, InsnType::InsnFmulD),
        0xc => finish(i, InsnType::InsnFdivS),
        0xd => finish(i, InsnType::InsnFdivD),
        0x10 => match funct3 {
            0x0 => finish(i, InsnType::InsnFsgnjS),
            0x1 => finish(i, InsnType::InsnFsgnjnS),
            0x2 => finish(i, InsnType::InsnFsgnjxS),
            _ => None,
        },
        0x11 => match funct3 {
            0x0 => finish(i, InsnType::InsnFsgnjD),
            0x1 => finish(i, InsnType::InsnFsgnjnD),
            0x2 => finish(i, InsnType::InsnFsgnjxD),
            _ => None,
        },
        0x14 => match funct3 {
            0x0 => finish(i, InsnType::InsnFminS),
            0x1 => finish(i, InsnType::InsnFmaxS),
            _ => None,
        },
        0x15 => match funct3 {
            0x0 => finish(i, InsnType::InsnFminD),
            0x1 => finish(i, InsnType::InsnFmaxD),
            _ => None,
        },
        0x20 => if r2 == 0x1 {
            finish(i, InsnType::InsnFcvtSD)
        } else {
            None
        },
        0x21 => if r2 == 0x0 {
            finish(i, InsnType::InsnFcvtDS)
        } else {
            None
        },
        0x2c => if r2 == 0x0 {
            finish(i, InsnType::InsnFsqrtS)
        } else {
            None
        },
        0x2d => if r2 == 0x0 {
            finish(i, InsnType::InsnFsqrtD)
        } else {
            None
        },
        0x50 => match funct3 {
            0x0 => finish(i, InsnType::InsnFleS),
            0x1 => finish(i, InsnType::InsnFltS),
            0x2 => finish(i, InsnType::InsnFeqS),
            _ => None,
        },
        0x51 => match funct3 {
            0x0 => finish(i, InsnType::InsnFleD),
            0x1 => finish(i, InsnType::InsnFltD),
            0x2 => finish(i, InsnType::InsnFeqD),
            _ => None,
        },
        0x60 => match r2 {
            0x0 => finish(i, InsnType::InsnFcvtWS),
            0x1 => finish(i, InsnType::InsnFcvtWuS),
            0x2 => finish(i, InsnType::InsnFcvtLS),
            0x3 => finish(i, InsnType::InsnFcvtLuS),
            _ => None,
        },
        0x61 => match r2 {
            0x0 => finish(i, InsnType::InsnFcvtWD),
            0x1 => finish(i, InsnType::InsnFcvtWuD),
            0x2 => finish(i, InsnType::InsnFcvtLD),
            0x3 => finish(i, InsnType::InsnFcvtLuD),
            _ => None,
        },
        0x68 => match r2 {
            0x0 => finish(i, InsnType::InsnFcvtSW),
            0x1 => finish(i, InsnType::InsnFcvtSWu),
            0x2 => finish(i, InsnType::InsnFcvtSL),
            0x3 => finish(i, InsnType::InsnFcvtSLu),
            _ => None,
        },
        0x69 => match r2 {
            0x0 => finish(i, InsnType::InsnFcvtDW),
            0x1 => finish(i, InsnType::InsnFcvtDWu),
            0x2 => finish(i, InsnType::InsnFcvtDL),
            0x3 => finish(i, InsnType::InsnFcvtDLu),
            _ => None,
        },
        0x70 => if r2 == 0x0 && funct3 == 0x0 {
            finish(i, InsnType::InsnFmvXW)
        } else if r2 == 0x0 && funct3 == 0x1 {
            finish(i, InsnType::InsnFclassS)
        } else {
            None
        },
        0x71 => if r2 == 0x0 && funct3 == 0x0 {
            finish(i, InsnType::InsnFmvXD)
        } else if r2 == 0x0 && funct3 == 0x1 {
            finish(i, InsnType::InsnFclassD)
        } else {
            None
        },
        0x78 => if r2 == 0x0 && funct3 == 0x0 {
            finish(i, InsnType::InsnFmvWX)
        } else {
            None
        },
        0x79 => if r2 == 0x0 && funct3 == 0x0 {
            finish(i, InsnType::InsnFmvDX)
        } else {
            None
        },
        _ => None,
    }
}

/// Decodes a word of quadrant 3: a 32-bit instruction.
fn decode32(data: u32) -> (r: Option<Insn>)
    ensures
        r == spec_decode32(data),
{
    let opcode = op_code(data);
    let funct3 = func_t3(data);
    let funct7 = func_t7(data);
    match opcode {
        0x0 => {
            let i = insn_itype_read(data);
            match funct3 {
                0x0 => finish(i, InsnType::InsnLb),
                0x1 => finish(i, InsnType::InsnLh),
                0x2 => finish(i, InsnType::InsnLw),
                0x3 => finish(i, InsnType::InsnLd),
                0x4 => finish(i, InsnType::InsnLbu),
                0x5 => finish(i, InsnType::InsnLhu),
                0x6 => finish(i, InsnType::InsnLwu),
                _ => None,
            }
        },
        0x1 => {
            let i = insn_itype_read(data);
            match funct3 {
                0x2 => finish(i, InsnType::InsnFlw),
                0x3 => finish(i, InsnType::InsnFld),
                _ => None,
            }
        },
        0x3 => {
            let i = Insn::new();
            match funct3 {
                0x0 => finish(i, InsnType::InsnFence),
                0x1 => finish(i, InsnType::InsnFenceI),
                _ => None,
            }
        },
        0x4 => {
            let i = insn_itype_read(data);
            let imm116 = imm_116(data);
            match funct3 {
                0x0 => finish(i, InsnType::InsnAddi),
                0x1 => if imm116 == 0x0 {
                    finish(i, InsnType::InsnSlli)
                } else {
                    None
                },
                0x2 => finish(i, InsnType::InsnSlti),
                0x3 => finish(i, InsnType::InsnSltiu),
                0x4 => finish(i, InsnType::InsnXori),
                0x5 => if imm116 == 0x0 {
                    finish(i, InsnType::InsnSrli)
                } else if imm116 == 0x10 {
                    finish(i, InsnType::InsnSrai)
                } else {
                    None
                },
                0x6 => finish(i, InsnType::InsnOri),
                _ => finish(i, InsnType::InsnAndi),
            }
        },
        0x5 => finish(insn_utype_read(data), InsnType::InsnAuipc),
        0x6 => {
            let i = insn_itype_read(data);
            match funct3 {
                0x0 => finish(i, InsnType::InsnAddiw),
                0x1 => if funct7 == 0x0 {
                    finish(i, InsnType::InsnSlliw)
                } else {
                    None
                },
                0x5 => match funct7 {
                    0x0 => finish(i, InsnType::InsnSrliw),
                    0x20 => finish(i, InsnType::InsnSraiw),
                    _ => None,
                },
                _ => None,
            }
        },
        0x8 => {
            let i = insn_stype_read(data);
            match funct3 {
                0x0 => finish(i, InsnType::InsnSb),
                0x1 => finish(i, InsnType::InsnSh),
                0x2 => finish(i, InsnType::InsnSw),
                0x3 => finish(i, InsnType::InsnSd),
                _ => None,
            }
        },
        0x9 => {
            let i = insn_stype_read(data);
            match funct3 {
                0x2 => finish(i, InsnType::InsnFsw),
                0x3 => finish(i, InsnType::InsnFsd),
                _ => None,
            }
        },
        0xc => decode_op(data, true),
        0xd => finish(insn_utype_read(data), InsnType::InsnLui),
        0xe => decode_op(data, false),
        0x10 => {
            let i = insn_fprtype_read(data);
            match func_t2(data) {
                0x0 => finish(i, InsnType::InsnFmaddS),
                0x1 => finish(i, InsnType::InsnFmaddD),
                _ => None,
            }
        },
        0x11 => {
            let i = insn_fprtype_read(data);
            match func_t2(data) {
                0x0 => finish(i, InsnType::InsnFmsubS),
                0x1 => finish(i, InsnType::InsnFmsubD),
                _ => None,
            }
        },
        0x12 => {
            let i = insn_fprtype_read(data);
            match func_t2(data) {
                0x0 => finish(i, InsnType::InsnFnmsubS),
                0x1 => finish(i, InsnType::InsnFnmsubD),
                _ => None,
            }
        },
        0x13 => {
            let i = insn_fprtype_read(data);
            match func_t2(data) {
                0x0 => finish(i, InsnType::InsnFnmaddS),
                0x1 => finish(i, InsnType::InsnFnmaddD),
                _ => None,
            }
        },
        0x14 => decode_op_fp(data),
        0x18 => {
            let i = insn_btype_read(data);
            match funct3 {
                0x0 => finish(i, InsnType::InsnBeq),
                0x1 => finish(i, InsnType::InsnBne),
                0x4 => finish(i, InsnType::InsnBlt),
                0x5 => finish(i, InsnType::InsnBge),
                0x6 => finish(i, InsnType::InsnBltu),
                0x7 => finish(i, InsnType::InsnBgeu),
                _ => None,
            }
        },
        0x19 => if funct3 == 0x0 {
            finish(insn_itype_read(data), InsnType::InsnJalr)
        } else {
            None
        },
        0x1b => finish(insn_jtype_read(data), InsnType::InsnJal),
        0x1c => {
            if data == ECALL_WORD {
                finish(Insn::new(), InsnType::InsnEcall)
            } else {
                let i = insn_csrtype_read(data);
                match funct3 {
                    0x1 => finish(i, InsnType::InsnCsrrw),
                    0x2 => finish(i, InsnType::InsnCsrrs),
                    0x3 => finish(i, InsnType::InsnCsrrc),
                    0x5 => finish(i, InsnType::InsnCsrrwi),
                    0x6 => finish(i, InsnType::InsnCsrrsi),
                    0x7 => finish(i, InsnType::InsnCsrrci),
                    _ => None,
                }
            }
        },
        _ => None,
    }
}

/// `i` with the first source `rs1`.
fn with_rs1(i: Insn, rs1: i8) -> (r: Insn)
    ensures
        r == (Insn { rs1, ..i }),
{
    Insn {
        rd: i.rd,
        rs1,
        rs2: i.rs2,
        rs3: i.rs3,
        imm: i.imm,
        csr: i.csr,
        i_type: i.i_type,
        rvc: i.rvc,
        cont: i.cont,
    }
}

/// `i` with the destination `rd`.
fn with_rd(i: Insn, rd: i8) -> (r: Insn)
    ensures
        r == (Insn { rd, ..i }),
{
    Insn {
        rd,
        rs1: i.rs1,
        rs2: i.rs2,
        rs3: i.rs3,
        imm: i.imm,
        csr: i.csr,
        i_type: i.i_type,
        rvc: i.rvc,
        cont: i.cont,
    }
}

/// Decodes a 16-bit instruction of quadrant 0: stack-pointer-based
/// address generation, and loads and stores through x8..x15.
fn decode_q0(h: u16) -> (r: Option<Insn>)
    requires
        spec_quadrant(h as u32) == 0x0,
    ensures
        r == spec_decode16(h),
{
    match cop_code(h as u32) {
        0x0 => {
            let i = insn_ciwtype_read(h);
            if i.imm != 0 {
                finish(with_rs1(i, SP), InsnType::InsnAddi)
            } else {
                None
            }
        },
        0x1 => finish(insn_cltype_read2(h), InsnType::InsnFld),
        0x2 => finish(insn_cltype_read(h), InsnType::InsnLw),
        0x3 => finish(insn_cltype_read2(h), InsnType::InsnLd),
        0x5 => finish(insn_cstype_read(h), InsnType::InsnFsd),
        0x6 => finish(insn_cstype_read2(h), InsnType::InsnSw),
        0x7 => finish(insn_cstype_read(h), InsnType::InsnSd),
        _ => None,
    }
}

/// Decodes a 16-bit instruction of quadrant 1: immediates, arithmetic on
/// x8..x15, jumps and branches.
fn decode_q1(h: u16) -> (r: Option<Insn>)
    requires
        spec_quadrant(h as u32) == 0x1,
    ensures
        r == spec_decode16(h),
{
    let w: u32 = h as u32;
    match cop_code(w) {
        0x0 => {
            let i = insn_citype_read(h);
            finish(with_rs1(i, i.rd), InsnType::InsnAddi)
        },
        0x1 => {
            let i = insn_citype_read(h);
            if i.rd != 0 {
                finish(with_rs1(i, i.rd), InsnType::InsnAddiw)
            } else {
                None
            }
        },
        0x2 => finish(insn_citype_read(h), InsnType::InsnAddi),
        0x3 => {
            if get_field(w, 7, 0x1f) == 2 {
                let i = insn_citype_read3(h);
                if i.imm != 0 {
                    finish(with_rs1(i, i.rd), InsnType::InsnAddi)
                } else {
                    None
                }
            } else {
                let i = insn_citype_read5(h);
                if i.imm != 0 {
                    finish(i, InsnType::InsnLui)
                } else {
                    None
                }
            }
        },
        0x4 => {
            let cfunct2high = cfunc_t2_high(w);
            let cfunct2low = cfunc_t2_low(w);
            match cfunct2high {
                0x0 | 0x1 | 0x2 => {
                    let i = insn_cbtype_read2(h);
                    let i = with_rs1(i, i.rd);
                    if cfunct2high == 0x0 {
                        finish(i, InsnType::InsnSrli)
                    } else if cfunct2high == 0x1 {
                        finish(i, InsnType::InsnSrai)
                    } else {
                        finish(i, InsnType::InsnAndi)
                    }
                },
                _ => {
                    let i = insn_catype_read(h);
                    let i = with_rs1(i, i.rd);
                    match cfunc_t1(w) {
                        0x0 => match cfunct2low {
                            0x0 => finish(i, InsnType::InsnSub),
                            0x1 => finish(i, InsnType::InsnXor),
                            0x2 => finish(i, InsnType::InsnOr),
                            _ => finish(i, InsnType::InsnAnd),
                        },
                        _ => match cfunct2low {
                            0x0 => finish(i, InsnType::InsnSubw),
                            0x1 => finish(i, InsnType::InsnAddw),
                            _ => None,
                        },
                    }
                },
            }
        },
        0x5 => finish(insn_cjtype_read(h), InsnType::InsnJal),
        0x6 => finish(insn_cbtype_read(h), InsnType::InsnBeq),
        _ => finish(insn_cbtype_read(h), InsnType::InsnBne),
    }
}

/// Decodes a 16-bit instruction of quadrant 2: stack-relative loads and
/// stores, register jumps, moves and additions.
fn decode_q2(h: u16) -> (r: Option<Insn>)
    requires
        spec_quadrant(h as u32) == 0x2,
    ensures
        r == spec_decode16(h),
{
    let w: u32 = h as u32;
    match cop_code(w) {
        0x0 => {
            let i = insn_citype_read(h);
            finish(with_rs1(i, i.rd), InsnType::InsnSlli)
        },
        0x1 => finish(with_rs1(insn_citype_read2(h), SP), InsnType::InsnFld),
        0x2 => {
            let i = insn_citype_read4(h);
            if i.rd != 0 {
                finish(with_rs1(i, SP), InsnType::InsnLw)
            } else {
                None
            }
        },
        0x3 => {
            let i = insn_citype_read2(h);
            if i.rd != 0 {
                finish(with_rs1(i, SP), InsnType::InsnLd)
            } else {
                None
            }
        },
        0x4 => {
            let i = insn_crtype_read(h);
            match cfunc_t1(w) {
                0x0 => {
                    if i.rs2 == 0 {
                        if i.rs1 != 0 {
                            finish(i, InsnType::InsnJalr)
                        } else {
                            None
                        }
                    } else {
                        finish(with_rs1(with_rd(i, i.rs1), 0), InsnType::InsnAdd)
                    }
                },
                _ => {
                    if i.rs2 == 0 {
                        if i.rs1 != 0 {
                            finish(with_rd(i, RA), InsnType::InsnJalr)
                        } else {
                            None
                        }
                    } else {
                        finish(with_rd(i, i.rs1), InsnType::InsnAdd)
                    }
                },
            }
        },
        0x5 => finish(with_rs1(insn_csstype_read(h), SP), InsnType::InsnFsd),
        0x6 => finish(with_rs1(insn_csstype_read2(h), SP), InsnType::InsnSw),
        _ => finish(with_rs1(insn_csstype_read(h), SP), InsnType::InsnSd),
    }
}

proof fn lemma_low_half(w: u32)
    by (bit_vector)
    ensures
        w & 0xffff <= 0xffff,
        ((w & 0xffff) >> 0) & 0x3 == (w >> 0) & 0x3,
{
}

/// Decodes a fetched word.  A word of quadrant 0, 1 or 2 holds a 16-bit
/// instruction in its low half, and its high half is ignored; a word of
/// quadrant 3 is a 32-bit instruction.  The result is `None` exactly for
/// the words that encode no supported instruction.
pub fn insn_try_decode(data: u32) -> (r: Option<Insn>)
    ensures
        r == spec_decode(data),
        r is Some ==> r->0.wf(),
{
    proof {
        lemma_low_half(data);
        lemma_decoded_wf(data);
    }
    let q = quadrant(data);
    let h: u16 = (data & 0xffff) as u16;
    match q {
        0x0 => decode_q0(h),
        0x1 => decode_q1(h),
        0x2 => decode_q2(h),
        _ => decode32(data),
    }
}

/// Decodes a fetched word that encodes a supported instruction into
/// `insn`.
pub fn insn_decode(insn: &mut Insn, data: u32)
    requires
        spec_decode(data) is Some,
    ensures
        Some(*final(insn)) == spec_decode(data),
        final(insn).wf(),
{
    match insn_try_decode(data) {
        Some(i) => {
            *insn = i;
        },
        None => {},
    }
}

/// Every decoded instruction names an operation and registers that exist.
/// It is marked as 16 bits wide exactly if its word lies outside quadrant
/// 3, and as ending its block exactly if it is a jump or the environment
/// call.
pub proof fn lemma_decoded_wf(w: u32)
    ensures
        spec_decode(w) is Some ==> {
            let i = spec_decode(w)->0;
            &&& i.wf()
            &&& i.rvc == (spec_quadrant(w) != 0x3)
            &&& i.cont == ends_block(i.i_type)
        },
{
    lemma_field_bounds(w);
    lemma_field_bounds(low_half(w) as u32);
}

proof fn lemma_field_bounds(w: u32)
    by (bit_vector)
    ensures
        (w >> 7) & 0x1f <= 0x1f,
        (w >> 15) & 0x1f <= 0x1f,
        (w >> 20) & 0x1f <= 0x1f,
        (w >> 27) & 0x1f <= 0x1f,
        (w >> 2) & 0x1f <= 0x1f,
        (w >> 7) & 0x7 <= 0x7,
        (w >> 2) & 0x7 <= 0x7,
{
}

/// The major opcodes of quadrant 3 that no table is defined for.
pub open spec fn reserved_opcode(op: u32) -> bool {
    op == 0x2 || op == 0x7 || op == 0xa || op == 0xb || op == 0xf || op == 0x15 || op == 0x16
        || op == 0x17 || op == 0x1a || op == 0x1d || op == 0x1e || op == 0x1f
}

/// A 32-bit word with a reserved major opcode decodes to no instruction,
/// whatever its other bits.
pub proof fn lemma_reserved_opcode_rejected(w: u32)
    requires
        spec_quadrant(w) == 0x3,
        reserved_opcode(spec_op_code(w)),
    ensures
        spec_decode(w) is None,
{
}

/// A 16-bit instruction is decoded from the low half of the fetched word
/// alone.
pub proof fn lemma_high_half_ignored(w: u32, v: u32)
    requires
        spec_quadrant(w) != 0x3,
        low_half(w) == low_half(v),
    ensures
        spec_decode(w) == spec_decode(v),
{
    lemma_low_half(w);
    lemma_low_half(v);
}

} // verus!
