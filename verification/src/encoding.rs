//! Immediates the other way round: where the bits of an immediate lie in
//! an instruction word, and that reading a word gives back the immediate
//! that was placed in it.
//!
//! Each `*_imm_encode` places the bits of an immediate in the immediate
//! field of its format and leaves every other bit zero.  Each law says: a
//! word whose immediate field holds the encoding of `imm` reads as `imm`,
//! sign included.
use crate::decode::{
    field, spec_func_t3, spec_func_t7, spec_op_code, spec_quadrant, spec_rtype,
    btype_imm_bits, cb_imm_bits, ci_addi16sp_imm_bits, ci_imm_bits, ci_ldsp_imm_bits,
    ci_lui_imm_bits, ci_lwsp_imm_bits, cj_imm_bits, ciw_imm_bits, cls_d_imm_bits,
    cls_w_imm_bits, css_d_imm_bits, css_w_imm_bits, itype_imm_bits, jtype_imm_bits, sext,
    spec_btype, spec_cbtype, spec_cbtype2, spec_citype, spec_citype2, spec_citype3,
    spec_citype4, spec_citype5, spec_ciwtype, spec_cjtype, spec_cltype, spec_cltype2,
    spec_csstype, spec_csstype2, spec_cstype, spec_cstype2, spec_itype, spec_jtype,
    spec_stype, spec_utype, stype_imm_bits,
};
use vstd::prelude::*;

verus! {

/// The bits of a word that a U-type immediate occupies.
pub const UTYPE_IMM_MASK: u32 = 0xffff_f000;

/// U-type: the immediate is the word's upper 20 bits, in place.
pub open spec fn utype_imm_encode(imm: i32) -> u32 {
    imm as u32
}

proof fn lemma_utype_bits(w: u32, imm: i32)
    by (bit_vector)
    requires
        imm % 4096 == 0,
        w & 0xffff_f000 == imm as u32,
    ensures
        (if w & 0xffff_f000 < 0x8000_0000u32 {
            (w & 0xffff_f000) as int
        } else {
            (w & 0xffff_f000) as int - 0x1_0000_0000
        }) == imm as int,
{
}

/// A U-type word reads as the multiple of 4096 that was placed in it.
pub proof fn lemma_utype_round_trip(w: u32, imm: i32)
    requires
        imm % 4096 == 0,
        w & UTYPE_IMM_MASK == utype_imm_encode(imm),
    ensures
        spec_utype(w).imm == imm,
{
    lemma_utype_bits(w, imm);
}

/// The bits of a word that the immediate of the format I-type occupies.
pub const ITYPE_IMM_MASK: u32 = 0xfff0_0000;

/// I-type: the bits of `imm` in their places in the word.
pub open spec fn itype_imm_encode(imm: i32) -> u32 {
    let u = imm as u32;
    (u & 0xfff) << 20
}

proof fn lemma_itype_bits(w: u32, imm: i32)
    by (bit_vector)
    requires
        -0x800 <= imm < 0x800,
        w & 0xfff0_0000 == itype_imm_encode(imm),
    ensures
        sext(itype_imm_bits(w), 0x800) == imm as int,
{
}

/// A word of the format I-type reads as the immediate that was placed in
/// it, for every immediate from -0x800 up to, not including, 0x800.
pub proof fn lemma_itype_round_trip(w: u32, imm: i32)
    requires
        -0x800 <= imm < 0x800,
        w & ITYPE_IMM_MASK == itype_imm_encode(imm),
    ensures
        spec_itype(w).imm == imm,
{
    lemma_itype_bits(w, imm);
}

/// The bits of a word that the immediate of the format S-type occupies.
pub const STYPE_IMM_MASK: u32 = 0xfe00_0f80;

/// S-type: the bits of `imm` in their places in the word.
pub open spec fn stype_imm_encode(imm: i32) -> u32 {
    let u = imm as u32;
    ((u >> 5) & 0x7f) << 25 | (u & 0x1f) << 7
}

proof fn lemma_stype_bits(w: u32, imm: i32)
    by (bit_vector)
    requires
        -0x800 <= imm < 0x800,
        w & 0xfe00_0f80 == stype_imm_encode(imm),
    ensures
        sext(stype_imm_bits(w), 0x800) == imm as int,
{
}

/// A word of the format S-type reads as the immediate that was placed in
/// it, for every immediate from -0x800 up to, not including, 0x800.
pub proof fn lemma_stype_round_trip(w: u32, imm: i32)
    requires
        -0x800 <= imm < 0x800,
        w & STYPE_IMM_MASK == stype_imm_encode(imm),
    ensures
        spec_stype(w).imm == imm,
{
    lemma_stype_bits(w, imm);
}

/// The bits of a word that the immediate of the format B-type occupies.
pub const BTYPE_IMM_MASK: u32 = 0xfe00_0f80;

/// B-type: the bits of `imm` in their places in the word.
pub open spec fn btype_imm_encode(imm: i32) -> u32 {
    let u = imm as u32;
    ((u >> 12) & 0x1) << 31 | ((u >> 5) & 0x3f) << 25 | ((u >> 1) & 0xf) << 8
        | ((u >> 11) & 0x1) << 7
}

proof fn lemma_btype_bits(w: u32, imm: i32)
    by (bit_vector)
    requires
        -0x1000 <= imm < 0x1000,
        imm % 2 == 0,
        w & 0xfe00_0f80 == btype_imm_encode(imm),
    ensures
        sext(btype_imm_bits(w), 0x1000) == imm as int,
{
}

/// A word of the format B-type reads as the even immediate that was placed in
/// it, for every immediate from -0x1000 up to, not including, 0x1000.
pub proof fn lemma_btype_round_trip(w: u32, imm: i32)
    requires
        -0x1000 <= imm < 0x1000,
        imm % 2 == 0,
        w & BTYPE_IMM_MASK == btype_imm_encode(imm),
    ensures
        spec_btype(w).imm == imm,
{
    lemma_btype_bits(w, imm);
}

/// The bits of a word that the immediate of the format J-type occupies.
pub const JTYPE_IMM_MASK: u32 = 0xffff_f000;

/// J-type: the bits of `imm` in their places in the word.
pub open spec fn jtype_imm_encode(imm: i32) -> u32 {
    let u = imm as u32;
    ((u >> 20) & 0x1) << 31 | ((u >> 1) & 0x3ff) << 21 | ((u >> 11) & 0x1) << 20
        | ((u >> 12) & 0xff) << 12
}

proof fn lemma_jtype_bits(w: u32, imm: i32)
    by (bit_vector)
    requires
        -0x100000 <= imm < 0x100000,
        imm % 2 == 0,
        w & 0xffff_f000 == jtype_imm_encode(imm),
    ensures
        sext(jtype_imm_bits(w), 0x10_0000) == imm as int,
{
}

/// A word of the format J-type reads as the even immediate that was placed in
/// it, for every immediate from -0x100000 up to, not including, 0x100000.
pub proof fn lemma_jtype_round_trip(w: u32, imm: i32)
    requires
        -0x100000 <= imm < 0x100000,
        imm % 2 == 0,
        w & JTYPE_IMM_MASK == jtype_imm_encode(imm),
    ensures
        spec_jtype(w).imm == imm,
{
    lemma_jtype_bits(w, imm);
}

/// The bits of a word that the immediate of the format CI occupies.
pub const CITYPE_IMM_MASK: u32 = 0x107c;

/// CI: the bits of `imm` in their places in the word.
pub open spec fn citype_imm_encode(imm: i32) -> u32 {
    let u = imm as u32;
    ((u >> 5) & 0x1) << 12 | (u & 0x1f) << 2
}

proof fn lemma_citype_bits(w: u32, imm: i32)
    by (bit_vector)
    requires
        -0x20 <= imm < 0x20,
        w & 0x107c == citype_imm_encode(imm),
    ensures
        sext(ci_imm_bits(w), 0x20) == imm as int,
{
}

/// A word of the format CI reads as the immediate that was placed in
/// it, for every immediate from -0x20 up to, not including, 0x20.
pub proof fn lemma_citype_round_trip(h: u16, imm: i32)
    requires
        -0x20 <= imm < 0x20,
        (h as u32) & CITYPE_IMM_MASK == citype_imm_encode(imm),
    ensures
        spec_citype(h).imm == imm,
{
    lemma_citype_bits(h as u32, imm);
}

/// The bits of a word that the immediate of the format CI with an offset scaled by 8 occupies.
pub const CITYPE2_IMM_MASK: u32 = 0x107c;

/// CI with an offset scaled by 8: the bits of `imm` in their places in the word.
pub open spec fn citype2_imm_encode(imm: i32) -> u32 {
    let u = imm as u32;
    ((u >> 6) & 0x7) << 2 | ((u >> 3) & 0x3) << 5 | ((u >> 5) & 0x1) << 12
}

proof fn lemma_citype2_bits(w: u32, imm: i32)
    by (bit_vector)
    requires
        0x0 <= imm < 0x200,
        imm % 8 == 0,
        w & 0x107c == citype2_imm_encode(imm),
    ensures
        ci_ldsp_imm_bits(w) as int == imm as int,
{
}

/// A word of the format CI with an offset scaled by 8 reads as the multiple of 8 that was placed in
/// it, for every immediate from 0x0 up to, not including, 0x200.
pub proof fn lemma_citype2_round_trip(h: u16, imm: i32)
    requires
        0x0 <= imm < 0x200,
        imm % 8 == 0,
        (h as u32) & CITYPE2_IMM_MASK == citype2_imm_encode(imm),
    ensures
        spec_citype2(h).imm == imm,
{
    lemma_citype2_bits(h as u32, imm);
}

/// The bits of a word that the immediate of the format CI with an immediate scaled by 16 occupies.
pub const CITYPE3_IMM_MASK: u32 = 0x107c;

/// CI with an immediate scaled by 16: the bits of `imm` in their places in the word.
pub open spec fn citype3_imm_encode(imm: i32) -> u32 {
    let u = imm as u32;
    ((u >> 5) & 0x1) << 2 | ((u >> 7) & 0x3) << 3 | ((u >> 6) & 0x1) << 5
        | ((u >> 4) & 0x1) << 6 | ((u >> 9) & 0x1) << 12
}

proof fn lemma_citype3_bits(w: u32, imm: i32)
    by (bit_vector)
    requires
        -0x200 <= imm < 0x200,
        imm % 16 == 0,
        w & 0x107c == citype3_imm_encode(imm),
    ensures
        sext(ci_addi16sp_imm_bits(w), 0x200) == imm as int,
{
}

/// A word of the format CI with an immediate scaled by 16 reads as the multiple
/// of 16 that was placed in
/// it, for every immediate from -0x200 up to, not including, 0x200.
pub proof fn lemma_citype3_round_trip(h: u16, imm: i32)
    requires
        -0x200 <= imm < 0x200,
        imm % 16 == 0,
        (h as u32) & CITYPE3_IMM_MASK == citype3_imm_encode(imm),
    ensures
        spec_citype3(h).imm == imm,
{
    lemma_citype3_bits(h as u32, imm);
}

/// The bits of a word that the immediate of the format CI with an offset scaled by 4 occupies.
pub const CITYPE4_IMM_MASK: u32 = 0x107c;

/// CI with an offset scaled by 4: the bits of `imm` in their places in the word.
pub open spec fn citype4_imm_encode(imm: i32) -> u32 {
    let u = imm as u32;
    ((u >> 5) & 0x1) << 12 | ((u >> 2) & 0x7) << 4 | ((u >> 6) & 0x3) << 2
}

proof fn lemma_citype4_bits(w: u32, imm: i32)
    by (bit_vector)
    requires
        0x0 <= imm < 0x100,
        imm % 4 == 0,
        w & 0x107c == citype4_imm_encode(imm),
    ensures
        ci_lwsp_imm_bits(w) as int == imm as int,
{
}

/// A word of the format CI with an offset scaled by 4 reads as the multiple of 4 that was placed in
/// it, for every immediate from 0x0 up to, not including, 0x100.
pub proof fn lemma_citype4_round_trip(h: u16, imm: i32)
    requires
        0x0 <= imm < 0x100,
        imm % 4 == 0,
        (h as u32) & CITYPE4_IMM_MASK == citype4_imm_encode(imm),
    ensures
        spec_citype4(h).imm == imm,
{
    lemma_citype4_bits(h as u32, imm);
}

/// The bits of a word that the immediate of the format CI with an immediate
/// scaled by 4096 occupies.
pub const CITYPE5_IMM_MASK: u32 = 0x107c;

/// CI with an immediate scaled by 4096: the bits of `imm` in their places in the word.
pub open spec fn citype5_imm_encode(imm: i32) -> u32 {
    let u = imm as u32;
    ((u >> 12) & 0x1f) << 2 | ((u >> 17) & 0x1) << 12
}

proof fn lemma_citype5_bits(w: u32, imm: i32)
    by (bit_vector)
    requires
        -0x20000 <= imm < 0x20000,
        imm % 4096 == 0,
        w & 0x107c == citype5_imm_encode(imm),
    ensures
        sext(ci_lui_imm_bits(w), 0x2_0000) == imm as int,
{
}

/// A word of the format CI with an immediate scaled by 4096 reads as the
/// multiple of 4096 that was placed in
/// it, for every immediate from -0x20000 up to, not including, 0x20000.
pub proof fn lemma_citype5_round_trip(h: u16, imm: i32)
    requires
        -0x20000 <= imm < 0x20000,
        imm % 4096 == 0,
        (h as u32) & CITYPE5_IMM_MASK == citype5_imm_encode(imm),
    ensures
        spec_citype5(h).imm == imm,
{
    lemma_citype5_bits(h as u32, imm);
}

/// The bits of a word that the immediate of the format CB occupies.
pub const CBTYPE_IMM_MASK: u32 = 0x1c7c;

/// CB: the bits of `imm` in their places in the word.
pub open spec fn cbtype_imm_encode(imm: i32) -> u32 {
    let u = imm as u32;
    ((u >> 8) & 0x1) << 12 | ((u >> 6) & 0x3) << 5 | ((u >> 5) & 0x1) << 2
        | ((u >> 3) & 0x3) << 10 | ((u >> 1) & 0x3) << 3
}

proof fn lemma_cbtype_bits(w: u32, imm: i32)
    by (bit_vector)
    requires
        -0x100 <= imm < 0x100,
        imm % 2 == 0,
        w & 0x1c7c == cbtype_imm_encode(imm),
    ensures
        sext(cb_imm_bits(w), 0x100) == imm as int,
{
}

/// A word of the format CB reads as the even immediate that was placed in
/// it, for every immediate from -0x100 up to, not including, 0x100.
pub proof fn lemma_cbtype_round_trip(h: u16, imm: i32)
    requires
        -0x100 <= imm < 0x100,
        imm % 2 == 0,
        (h as u32) & CBTYPE_IMM_MASK == cbtype_imm_encode(imm),
    ensures
        spec_cbtype(h).imm == imm,
{
    lemma_cbtype_bits(h as u32, imm);
}

/// The bits of a word that the immediate of the format CB with a 6-bit immediate occupies.
pub const CBTYPE2_IMM_MASK: u32 = 0x107c;

/// CB with a 6-bit immediate: the bits of `imm` in their places in the word.
pub open spec fn cbtype2_imm_encode(imm: i32) -> u32 {
    let u = imm as u32;
    ((u >> 5) & 0x1) << 12 | (u & 0x1f) << 2
}

proof fn lemma_cbtype2_bits(w: u32, imm: i32)
    by (bit_vector)
    requires
        -0x20 <= imm < 0x20,
        w & 0x107c == cbtype2_imm_encode(imm),
    ensures
        sext(ci_imm_bits(w), 0x20) == imm as int,
{
}

/// A word of the format CB with a 6-bit immediate reads as the immediate that was placed in
/// it, for every immediate from -0x20 up to, not including, 0x20.
pub proof fn lemma_cbtype2_round_trip(h: u16, imm: i32)
    requires
        -0x20 <= imm < 0x20,
        (h as u32) & CBTYPE2_IMM_MASK == cbtype2_imm_encode(imm),
    ensures
        spec_cbtype2(h).imm == imm,
{
    lemma_cbtype2_bits(h as u32, imm);
}

/// The bits of a word that the immediate of the format CS with an offset scaled by 8 occupies.
pub const CSTYPE_IMM_MASK: u32 = 0x1c60;

/// CS with an offset scaled by 8: the bits of `imm` in their places in the word.
pub open spec fn cstype_imm_encode(imm: i32) -> u32 {
    let u = imm as u32;
    ((u >> 6) & 0x3) << 5 | ((u >> 3) & 0x7) << 10
}

proof fn lemma_cstype_bits(w: u32, imm: i32)
    by (bit_vector)
    requires
        0x0 <= imm < 0x100,
        imm % 8 == 0,
        w & 0x1c60 == cstype_imm_encode(imm),
    ensures
        cls_d_imm_bits(w) as int == imm as int,
{
}

/// A word of the format CS with an offset scaled by 8 reads as the multiple of 8 that was placed in
/// it, for every immediate from 0x0 up to, not including, 0x100.
pub proof fn lemma_cstype_round_trip(h: u16, imm: i32)
    requires
        0x0 <= imm < 0x100,
        imm % 8 == 0,
        (h as u32) & CSTYPE_IMM_MASK == cstype_imm_encode(imm),
    ensures
        spec_cstype(h).imm == imm,
{
    lemma_cstype_bits(h as u32, imm);
}

/// The bits of a word that the immediate of the format CS with an offset scaled by 4 occupies.
pub const CSTYPE2_IMM_MASK: u32 = 0x1c60;

/// CS with an offset scaled by 4: the bits of `imm` in their places in the word.
pub open spec fn cstype2_imm_encode(imm: i32) -> u32 {
    let u = imm as u32;
    ((u >> 6) & 0x1) << 5 | ((u >> 2) & 0x1) << 6 | ((u >> 3) & 0x7) << 10
}

proof fn lemma_cstype2_bits(w: u32, imm: i32)
    by (bit_vector)
    requires
        0x0 <= imm < 0x80,
        imm % 4 == 0,
        w & 0x1c60 == cstype2_imm_encode(imm),
    ensures
        cls_w_imm_bits(w) as int == imm as int,
{
}

/// A word of the format CS with an offset scaled by 4 reads as the multiple of 4 that was placed in
/// it, for every immediate from 0x0 up to, not including, 0x80.
pub proof fn lemma_cstype2_round_trip(h: u16, imm: i32)
    requires
        0x0 <= imm < 0x80,
        imm % 4 == 0,
        (h as u32) & CSTYPE2_IMM_MASK == cstype2_imm_encode(imm),
    ensures
        spec_cstype2(h).imm == imm,
{
    lemma_cstype2_bits(h as u32, imm);
}

/// The bits of a word that the immediate of the format CJ occupies.
pub const CJTYPE_IMM_MASK: u32 = 0x1ffc;

/// CJ: the bits of `imm` in their places in the word.
pub open spec fn cjtype_imm_encode(imm: i32) -> u32 {
    let u = imm as u32;
    ((u >> 5) & 0x1) << 2 | ((u >> 1) & 0x7) << 3 | ((u >> 7) & 0x1) << 6
        | ((u >> 6) & 0x1) << 7 | ((u >> 10) & 0x1) << 8 | ((u >> 8) & 0x3) << 9
        | ((u >> 4) & 0x1) << 11 | ((u >> 11) & 0x1) << 12
}

proof fn lemma_cjtype_bits(w: u32, imm: i32)
    by (bit_vector)
    requires
        -0x800 <= imm < 0x800,
        imm % 2 == 0,
        w & 0x1ffc == cjtype_imm_encode(imm),
    ensures
        sext(cj_imm_bits(w), 0x800) == imm as int,
{
}

/// A word of the format CJ reads as the even immediate that was placed in
/// it, for every immediate from -0x800 up to, not including, 0x800.
pub proof fn lemma_cjtype_round_trip(h: u16, imm: i32)
    requires
        -0x800 <= imm < 0x800,
        imm % 2 == 0,
        (h as u32) & CJTYPE_IMM_MASK == cjtype_imm_encode(imm),
    ensures
        spec_cjtype(h).imm == imm,
{
    lemma_cjtype_bits(h as u32, imm);
}

/// The bits of a word that the immediate of the format CL with an offset scaled by 4 occupies.
pub const CLTYPE_IMM_MASK: u32 = 0x1c60;

/// CL with an offset scaled by 4: the bits of `imm` in their places in the word.
pub open spec fn cltype_imm_encode(imm: i32) -> u32 {
    let u = imm as u32;
    ((u >> 6) & 0x1) << 5 | ((u >> 2) & 0x1) << 6 | ((u >> 3) & 0x7) << 10
}

proof fn lemma_cltype_bits(w: u32, imm: i32)
    by (bit_vector)
    requires
        0x0 <= imm < 0x80,
        imm % 4 == 0,
        w & 0x1c60 == cltype_imm_encode(imm),
    ensures
        cls_w_imm_bits(w) as int == imm as int,
{
}

/// A word of the format CL with an offset scaled by 4 reads as the multiple of 4 that was placed in
/// it, for every immediate from 0x0 up to, not including, 0x80.
pub proof fn lemma_cltype_round_trip(h: u16, imm: i32)
    requires
        0x0 <= imm < 0x80,
        imm % 4 == 0,
        (h as u32) & CLTYPE_IMM_MASK == cltype_imm_encode(imm),
    ensures
        spec_cltype(h).imm == imm,
{
    lemma_cltype_bits(h as u32, imm);
}

/// The bits of a word that the immediate of the format CL with an offset scaled by 8 occupies.
pub const CLTYPE2_IMM_MASK: u32 = 0x1c60;

/// CL with an offset scaled by 8: the bits of `imm` in their places in the word.
pub open spec fn cltype2_imm_encode(imm: i32) -> u32 {
    let u = imm as u32;
    ((u >> 6) & 0x3) << 5 | ((u >> 3) & 0x7) << 10
}

proof fn lemma_cltype2_bits(w: u32, imm: i32)
    by (bit_vector)
    requires
        0x0 <= imm < 0x100,
        imm % 8 == 0,
        w & 0x1c60 == cltype2_imm_encode(imm),
    ensures
        cls_d_imm_bits(w) as int == imm as int,
{
}

/// A word of the format CL with an offset scaled by 8 reads as the multiple of 8 that was placed in
/// it, for every immediate from 0x0 up to, not including, 0x100.
pub proof fn lemma_cltype2_round_trip(h: u16, imm: i32)
    requires
        0x0 <= imm < 0x100,
        imm % 8 == 0,
        (h as u32) & CLTYPE2_IMM_MASK == cltype2_imm_encode(imm),
    ensures
        spec_cltype2(h).imm == imm,
{
    lemma_cltype2_bits(h as u32, imm);
}

/// The bits of a word that the immediate of the format CSS with an offset scaled by 8 occupies.
pub const CSSTYPE_IMM_MASK: u32 = 0x1f80;

/// CSS with an offset scaled by 8: the bits of `imm` in their places in the word.
pub open spec fn csstype_imm_encode(imm: i32) -> u32 {
    let u = imm as u32;
    ((u >> 6) & 0x7) << 7 | ((u >> 3) & 0x7) << 10
}

proof fn lemma_csstype_bits(w: u32, imm: i32)
    by (bit_vector)
    requires
        0x0 <= imm < 0x200,
        imm % 8 == 0,
        w & 0x1f80 == csstype_imm_encode(imm),
    ensures
        css_d_imm_bits(w) as int == imm as int,
{
}

/// A word of the format CSS with an offset scaled by 8 reads as the multiple of
/// 8 that was placed in
/// it, for every immediate from 0x0 up to, not including, 0x200.
pub proof fn lemma_csstype_round_trip(h: u16, imm: i32)
    requires
        0x0 <= imm < 0x200,
        imm % 8 == 0,
        (h as u32) & CSSTYPE_IMM_MASK == csstype_imm_encode(imm),
    ensures
        spec_csstype(h).imm == imm,
{
    lemma_csstype_bits(h as u32, imm);
}

/// The bits of a word that the immediate of the format CSS with an offset scaled by 4 occupies.
pub const CSSTYPE2_IMM_MASK: u32 = 0x1f80;

/// CSS with an offset scaled by 4: the bits of `imm` in their places in the word.
pub open spec fn csstype2_imm_encode(imm: i32) -> u32 {
    let u = imm as u32;
    ((u >> 6) & 0x3) << 7 | ((u >> 2) & 0xf) << 9
}

proof fn lemma_csstype2_bits(w: u32, imm: i32)
    by (bit_vector)
    requires
        0x0 <= imm < 0x100,
        imm % 4 == 0,
        w & 0x1f80 == csstype2_imm_encode(imm),
    ensures
        css_w_imm_bits(w) as int == imm as int,
{
}

/// A word of the format CSS with an offset scaled by 4 reads as the multiple of
/// 4 that was placed in
/// it, for every immediate from 0x0 up to, not including, 0x100.
pub proof fn lemma_csstype2_round_trip(h: u16, imm: i32)
    requires
        0x0 <= imm < 0x100,
        imm % 4 == 0,
        (h as u32) & CSSTYPE2_IMM_MASK == csstype2_imm_encode(imm),
    ensures
        spec_csstype2(h).imm == imm,
{
    lemma_csstype2_bits(h as u32, imm);
}

/// The bits of a word that the immediate of the format CIW occupies.
pub const CIWTYPE_IMM_MASK: u32 = 0x1fe0;

/// CIW: the bits of `imm` in their places in the word.
pub open spec fn ciwtype_imm_encode(imm: i32) -> u32 {
    let u = imm as u32;
    ((u >> 3) & 0x1) << 5 | ((u >> 2) & 0x1) << 6 | ((u >> 6) & 0xf) << 7 | ((u >> 4) & 0x3) << 11
}

proof fn lemma_ciwtype_bits(w: u32, imm: i32)
    by (bit_vector)
    requires
        0x0 <= imm < 0x400,
        imm % 4 == 0,
        w & 0x1fe0 == ciwtype_imm_encode(imm),
    ensures
        ciw_imm_bits(w) as int == imm as int,
{
}

/// A word of the format CIW reads as the multiple of 4 that was placed in
/// it, for every immediate from 0x0 up to, not including, 0x400.
pub proof fn lemma_ciwtype_round_trip(h: u16, imm: i32)
    requires
        0x0 <= imm < 0x400,
        imm % 4 == 0,
        (h as u32) & CIWTYPE_IMM_MASK == ciwtype_imm_encode(imm),
    ensures
        spec_ciwtype(h).imm == imm,
{
    lemma_ciwtype_bits(h as u32, imm);
}

// ---------------------------------------------------------------------
// Whole instruction words
// ---------------------------------------------------------------------
/// The fields that every 32-bit format shares lie where the format says:
/// the 7-bit opcode in bits 6..0, of which the low two are the quadrant.
pub open spec fn has_opcode(w: u32, opcode: u32) -> bool {
    spec_quadrant(w) == opcode % 4 && spec_op_code(w) == opcode / 4
}

/// An R-type word: `funct7 | rs2 | rs1 | funct3 | rd | opcode`.
pub open spec fn encode_rtype(f7: u32, rs2: u32, rs1: u32, f3: u32, rd: u32, opcode: u32) -> u32 {
    f7 << 25 | rs2 << 20 | rs1 << 15 | f3 << 12 | rd << 7 | opcode
}

/// An I-type word: `imm[11:0] | rs1 | funct3 | rd | opcode`.
pub open spec fn encode_itype(imm: i32, rs1: u32, f3: u32, rd: u32, opcode: u32) -> u32 {
    itype_imm_encode(imm) | rs1 << 15 | f3 << 12 | rd << 7 | opcode
}

/// An S-type word: `imm[11:5] | rs2 | rs1 | funct3 | imm[4:0] | opcode`.
pub open spec fn encode_stype(imm: i32, rs2: u32, rs1: u32, f3: u32, opcode: u32) -> u32 {
    stype_imm_encode(imm) | rs2 << 20 | rs1 << 15 | f3 << 12 | opcode
}

/// A B-type word: `imm[12|10:5] | rs2 | rs1 | funct3 | imm[4:1|11] |
/// opcode`.
pub open spec fn encode_btype(imm: i32, rs2: u32, rs1: u32, f3: u32, opcode: u32) -> u32 {
    btype_imm_encode(imm) | rs2 << 20 | rs1 << 15 | f3 << 12 | opcode
}

/// A U-type word: `imm[31:12] | rd | opcode`.
pub open spec fn encode_utype(imm: i32, rd: u32, opcode: u32) -> u32 {
    utype_imm_encode(imm) | rd << 7 | opcode
}

/// A J-type word: `imm[20|10:1|11|19:12] | rd | opcode`.
pub open spec fn encode_jtype(imm: i32, rd: u32, opcode: u32) -> u32 {
    jtype_imm_encode(imm) | rd << 7 | opcode
}

proof fn lemma_rtype_word(f7: u32, rs2: u32, rs1: u32, f3: u32, rd: u32, opcode: u32)
    by (bit_vector)
    requires
        f7 < 128,
        rs2 < 32,
        rs1 < 32,
        f3 < 8,
        rd < 32,
        opcode < 128,
    ensures
        field(encode_rtype(f7, rs2, rs1, f3, rd, opcode), 0, 0x3) == opcode % 4,
        field(encode_rtype(f7, rs2, rs1, f3, rd, opcode), 2, 0x1f) == opcode / 4,
        field(encode_rtype(f7, rs2, rs1, f3, rd, opcode), 7, 0x1f) == rd,
        field(encode_rtype(f7, rs2, rs1, f3, rd, opcode), 12, 0x7) == f3,
        field(encode_rtype(f7, rs2, rs1, f3, rd, opcode), 15, 0x1f) == rs1,
        field(encode_rtype(f7, rs2, rs1, f3, rd, opcode), 20, 0x1f) == rs2,
        field(encode_rtype(f7, rs2, rs1, f3, rd, opcode), 25, 0x7f) == f7,
{
}

/// An R-type word reads as the fields that were placed in it.
pub proof fn lemma_rtype_fields(f7: u32, rs2: u32, rs1: u32, f3: u32, rd: u32, opcode: u32)
    requires
        f7 < 128,
        rs2 < 32,
        rs1 < 32,
        f3 < 8,
        rd < 32,
        opcode < 128,
    ensures
        has_opcode(encode_rtype(f7, rs2, rs1, f3, rd, opcode), opcode),
        spec_func_t3(encode_rtype(f7, rs2, rs1, f3, rd, opcode)) == f3,
        spec_func_t7(encode_rtype(f7, rs2, rs1, f3, rd, opcode)) == f7,
        spec_rtype(encode_rtype(f7, rs2, rs1, f3, rd, opcode)).rd == rd,
        spec_rtype(encode_rtype(f7, rs2, rs1, f3, rd, opcode)).rs1 == rs1,
        spec_rtype(encode_rtype(f7, rs2, rs1, f3, rd, opcode)).rs2 == rs2,
{
    lemma_rtype_word(f7, rs2, rs1, f3, rd, opcode);
}

proof fn lemma_itype_word(imm: i32, rs1: u32, f3: u32, rd: u32, opcode: u32)
    by (bit_vector)
    requires
        -0x800 <= imm < 0x800,
        rs1 < 32,
        f3 < 8,
        rd < 32,
        opcode < 128,
    ensures
        field(encode_itype(imm, rs1, f3, rd, opcode), 0, 0x3) == opcode % 4,
        field(encode_itype(imm, rs1, f3, rd, opcode), 2, 0x1f) == opcode / 4,
        field(encode_itype(imm, rs1, f3, rd, opcode), 7, 0x1f) == rd,
        field(encode_itype(imm, rs1, f3, rd, opcode), 12, 0x7) == f3,
        field(encode_itype(imm, rs1, f3, rd, opcode), 15, 0x1f) == rs1,
        encode_itype(imm, rs1, f3, rd, opcode) & 0xfff0_0000 == itype_imm_encode(imm),
{
}

/// An I-type word reads as the fields and the immediate that were placed
/// in it.
pub proof fn lemma_itype_fields(imm: i32, rs1: u32, f3: u32, rd: u32, opcode: u32)
    requires
        -0x800 <= imm < 0x800,
        rs1 < 32,
        f3 < 8,
        rd < 32,
        opcode < 128,
    ensures
        has_opcode(encode_itype(imm, rs1, f3, rd, opcode), opcode),
        spec_func_t3(encode_itype(imm, rs1, f3, rd, opcode)) == f3,
        spec_itype(encode_itype(imm, rs1, f3, rd, opcode)).rd == rd,
        spec_itype(encode_itype(imm, rs1, f3, rd, opcode)).rs1 == rs1,
        spec_itype(encode_itype(imm, rs1, f3, rd, opcode)).imm == imm,
{
    lemma_itype_word(imm, rs1, f3, rd, opcode);
    lemma_itype_round_trip(encode_itype(imm, rs1, f3, rd, opcode), imm);
}

proof fn lemma_stype_word(imm: i32, rs2: u32, rs1: u32, f3: u32, opcode: u32)
    by (bit_vector)
    requires
        -0x800 <= imm < 0x800,
        rs2 < 32,
        rs1 < 32,
        f3 < 8,
        opcode < 128,
    ensures
        field(encode_stype(imm, rs2, rs1, f3, opcode), 0, 0x3) == opcode % 4,
        field(encode_stype(imm, rs2, rs1, f3, opcode), 2, 0x1f) == opcode / 4,
        field(encode_stype(imm, rs2, rs1, f3, opcode), 12, 0x7) == f3,
        field(encode_stype(imm, rs2, rs1, f3, opcode), 15, 0x1f) == rs1,
        field(encode_stype(imm, rs2, rs1, f3, opcode), 20, 0x1f) == rs2,
        encode_stype(imm, rs2, rs1, f3, opcode) & 0xfe00_0f80 == stype_imm_encode(imm),
{
}

/// An S-type word reads as the fields and the immediate that were placed
/// in it.
pub proof fn lemma_stype_fields(imm: i32, rs2: u32, rs1: u32, f3: u32, opcode: u32)
    requires
        -0x800 <= imm < 0x800,
        rs2 < 32,
        rs1 < 32,
        f3 < 8,
        opcode < 128,
    ensures
        has_opcode(encode_stype(imm, rs2, rs1, f3, opcode), opcode),
        spec_func_t3(encode_stype(imm, rs2, rs1, f3, opcode)) == f3,
        spec_stype(encode_stype(imm, rs2, rs1, f3, opcode)).rs1 == rs1,
        spec_stype(encode_stype(imm, rs2, rs1, f3, opcode)).rs2 == rs2,
        spec_stype(encode_stype(imm, rs2, rs1, f3, opcode)).imm == imm,
{
    lemma_stype_word(imm, rs2, rs1, f3, opcode);
    lemma_stype_round_trip(encode_stype(imm, rs2, rs1, f3, opcode), imm);
}

proof fn lemma_btype_word(imm: i32, rs2: u32, rs1: u32, f3: u32, opcode: u32)
    by (bit_vector)
    requires
        -0x1000 <= imm < 0x1000,
        imm % 2 == 0,
        rs2 < 32,
        rs1 < 32,
        f3 < 8,
        opcode < 128,
    ensures
        field(encode_btype(imm, rs2, rs1, f3, opcode), 0, 0x3) == opcode % 4,
        field(encode_btype(imm, rs2, rs1, f3, opcode), 2, 0x1f) == opcode / 4,
        field(encode_btype(imm, rs2, rs1, f3, opcode), 12, 0x7) == f3,
        field(encode_btype(imm, rs2, rs1, f3, opcode), 15, 0x1f) == rs1,
        field(encode_btype(imm, rs2, rs1, f3, opcode), 20, 0x1f) == rs2,
        encode_btype(imm, rs2, rs1, f3, opcode) & 0xfe00_0f80 == btype_imm_encode(imm),
{
}

/// A B-type word reads as the fields and the even offset that were placed
/// in it.
pub proof fn lemma_btype_fields(imm: i32, rs2: u32, rs1: u32, f3: u32, opcode: u32)
    requires
        -0x1000 <= imm < 0x1000,
        imm % 2 == 0,
        rs2 < 32,
        rs1 < 32,
        f3 < 8,
        opcode < 128,
    ensures
        has_opcode(encode_btype(imm, rs2, rs1, f3, opcode), opcode),
        spec_func_t3(encode_btype(imm, rs2, rs1, f3, opcode)) == f3,
        spec_btype(encode_btype(imm, rs2, rs1, f3, opcode)).rs1 == rs1,
        spec_btype(encode_btype(imm, rs2, rs1, f3, opcode)).rs2 == rs2,
        spec_btype(encode_btype(imm, rs2, rs1, f3, opcode)).imm == imm,
{
    lemma_btype_word(imm, rs2, rs1, f3, opcode);
    lemma_btype_round_trip(encode_btype(imm, rs2, rs1, f3, opcode), imm);
}

proof fn lemma_utype_word(imm: i32, rd: u32, opcode: u32)
    by (bit_vector)
    requires
        imm % 4096 == 0,
        rd < 32,
        opcode < 128,
    ensures
        field(encode_utype(imm, rd, opcode), 0, 0x3) == opcode % 4,
        field(encode_utype(imm, rd, opcode), 2, 0x1f) == opcode / 4,
        field(encode_utype(imm, rd, opcode), 7, 0x1f) == rd,
        encode_utype(imm, rd, opcode) & 0xffff_f000 == utype_imm_encode(imm),
{
}

/// A U-type word reads as the destination and the multiple of 4096 that
/// were placed in it.
pub proof fn lemma_utype_fields(imm: i32, rd: u32, opcode: u32)
    requires
        imm % 4096 == 0,
        rd < 32,
        opcode < 128,
    ensures
        has_opcode(encode_utype(imm, rd, opcode), opcode),
        spec_utype(encode_utype(imm, rd, opcode)).rd == rd,
        spec_utype(encode_utype(imm, rd, opcode)).imm == imm,
{
    lemma_utype_word(imm, rd, opcode);
    lemma_utype_round_trip(encode_utype(imm, rd, opcode), imm);
}

proof fn lemma_jtype_word(imm: i32, rd: u32, opcode: u32)
    by (bit_vector)
    requires
        -0x10_0000 <= imm < 0x10_0000,
        imm % 2 == 0,
        rd < 32,
        opcode < 128,
    ensures
        field(encode_jtype(imm, rd, opcode), 0, 0x3) == opcode % 4,
        field(encode_jtype(imm, rd, opcode), 2, 0x1f) == opcode / 4,
        field(encode_jtype(imm, rd, opcode), 7, 0x1f) == rd,
        encode_jtype(imm, rd, opcode) & 0xffff_f000 == jtype_imm_encode(imm),
{
}

/// A J-type word reads as the destination and the even offset that were
/// placed in it.
pub proof fn lemma_jtype_fields(imm: i32, rd: u32, opcode: u32)
    requires
        -0x10_0000 <= imm < 0x10_0000,
        imm % 2 == 0,
        rd < 32,
        opcode < 128,
    ensures
        has_opcode(encode_jtype(imm, rd, opcode), opcode),
        spec_jtype(encode_jtype(imm, rd, opcode)).rd == rd,
        spec_jtype(encode_jtype(imm, rd, opcode)).imm == imm,
{
    lemma_jtype_word(imm, rd, opcode);
    lemma_jtype_round_trip(encode_jtype(imm, rd, opcode), imm);
}

} // verus!
