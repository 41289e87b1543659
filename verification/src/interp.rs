//! What each instruction does, and the loop that runs them.
//!
//! The first part states the effect of every operation on the register
//! files, the program counter and guest memory as functions on models.  The
//! second part holds one execution function per operation, each proved
//! against that statement.  The last part fetches, decodes and executes
//! instructions until control leaves straight-line code.
//!
//! The arithmetic of floating-point operations is not computed here: the
//! loop stops in front of such an instruction and reports it.  Which
//! registers its operands come from and where its result goes is stated
//! and implemented here, on bit patterns.
use crate::arith::{
    add64, add_imm, add_imm_word, add_word, div_i64, div_trunc, from_i32, from_i64, imm_to_u64,
    low32, mul64, mul_word, rem_i64, rem_trunc, sext32, sign_extend_word, signed16, signed32,
    signed64, signed8, sub64, sub_word, to_i32, to_i64, wrap32, wrap64,
};
use crate::decode::{
    ends_block, insn_try_decode, lemma_decoded_wf, lemma_field_bound, lemma_imm_bits_bounds,
    quadrant, spec_ciwtype, spec_cop_code, spec_decode, spec_itype, spec_quadrant, SP,
};
use crate::encoding::{encode_itype, lemma_itype_fields};
use crate::interp_utils::{
    f32_classify, f64_classify, fsgnj32, fsgnj64, mulh, mulhsu, mulhu, spec_f32_classify,
    spec_f64_classify, spec_fsgnj32, spec_fsgnj64, spec_mulh, spec_mulhsu, spec_mulhu,
};
use crate::memory::{GuestMemory, MemView};
use crate::reg::{nan_box, FpRegT};
use crate::rvemu::{ExitReason, Insn, InsnType, State, StateView};
use vstd::prelude::*;

verus! {

// ---------------------------------------------------------------------
// Values that the operations compute
// ---------------------------------------------------------------------
/// The 64-bit pattern `a` shifted right by `s` with copies of its sign bit
/// moving in.
pub open spec fn sra64(a: u64, s: u64) -> u64 {
    wrap64(((signed64(a) as i64) >> s) as int)
}

/// The 32-bit pattern `a` shifted right by `s` with copies of its sign bit
/// moving in.
pub open spec fn sra32(a: u32, s: u32) -> u32 {
    wrap32(((signed32(a) as i32) >> s) as int)
}

/// 1 if `c`, else 0: the result of a comparison in a register.
pub open spec fn flag(c: bool) -> u64 {
    if c {
        1
    } else {
        0
    }
}

/// The result of a register-immediate operation on the source `a`.  The
/// immediate is sign-extended to 64 bits; a shift uses its low 6 bits, or
/// its low 5 bits on the low word.  An operation on the low word
/// sign-extends its 32-bit result.
pub open spec fn alu_imm(k: InsnType, a: u64, imm: i32) -> u64 {
    let i = wrap64(imm as int);
    match k {
        InsnType::InsnAddi => wrap64(a + imm),
        InsnType::InsnSlli => a << (i % 64),
        InsnType::InsnSlti => flag(signed64(a) < imm),
        InsnType::InsnSltiu => flag(a < i),
        InsnType::InsnXori => a ^ i,
        InsnType::InsnSrli => a >> (i % 64),
        InsnType::InsnSrai => sra64(a, (i % 64) as u64),
        InsnType::InsnOri => a | i,
        InsnType::InsnAndi => a & i,
        InsnType::InsnAddiw => sext32(wrap32(a + imm)),
        InsnType::InsnSlliw => sext32(wrap32(a as int) << (i % 32)),
        InsnType::InsnSrliw => sext32(wrap32(a as int) >> (i % 32)),
        InsnType::InsnSraiw => sext32(sra32(wrap32(a as int), (i % 32) as u32)),
        _ => 0,
    }
}

/// Signed division: all ones for a zero divisor, the dividend when the
/// quotient overflows, else the quotient rounded toward zero.
pub open spec fn spec_div(a: u64, b: u64) -> u64 {
    if b == 0 {
        u64::MAX
    } else if signed64(a) == i64::MIN && signed64(b) == -1 {
        a
    } else {
        wrap64(div_trunc(signed64(a), signed64(b)))
    }
}

/// Unsigned division: all ones for a zero divisor.
pub open spec fn spec_divu(a: u64, b: u64) -> u64 {
    if b == 0 {
        u64::MAX
    } else {
        a / b
    }
}

/// Signed remainder: the dividend for a zero divisor, zero when the
/// quotient overflows.
pub open spec fn spec_rem(a: u64, b: u64) -> u64 {
    if b == 0 {
        a
    } else if signed64(a) == i64::MIN && signed64(b) == -1 {
        0
    } else {
        wrap64(rem_trunc(signed64(a), signed64(b)))
    }
}

/// Unsigned remainder: the dividend for a zero divisor.
pub open spec fn spec_remu(a: u64, b: u64) -> u64 {
    if b == 0 {
        a
    } else {
        a % b
    }
}

/// Signed division of the low words.
pub open spec fn spec_divw(a: u64, b: u64) -> u64 {
    let x = wrap32(a as int);
    let y = wrap32(b as int);
    if y == 0 {
        u64::MAX
    } else if signed32(x) == i32::MIN && signed32(y) == -1 {
        sext32(x)
    } else {
        sext32(wrap32(div_trunc(signed32(x), signed32(y))))
    }
}

/// Unsigned division of the low words.
pub open spec fn spec_divuw(a: u64, b: u64) -> u64 {
    let x = wrap32(a as int);
    let y = wrap32(b as int);
    if y == 0 {
        u64::MAX
    } else {
        sext32(x / y)
    }
}

/// Signed remainder of the low words.
pub open spec fn spec_remw(a: u64, b: u64) -> u64 {
    let x = wrap32(a as int);
    let y = wrap32(b as int);
    if y == 0 {
        sext32(x)
    } else if signed32(x) == i32::MIN && signed32(y) == -1 {
        0
    } else {
        sext32(wrap32(rem_trunc(signed32(x), signed32(y))))
    }
}

/// Unsigned remainder of the low words.
pub open spec fn spec_remuw(a: u64, b: u64) -> u64 {
    let x = wrap32(a as int);
    let y = wrap32(b as int);
    if y == 0 {
        sext32(x)
    } else {
        sext32(x % y)
    }
}

/// The result of a register-register operation on the sources `a` and
/// `b`.  A shift uses the low 6 bits of `b`, or its low 5 bits on the low
/// word.
pub open spec fn alu_reg(k: InsnType, a: u64, b: u64) -> u64 {
    match k {
        InsnType::InsnAdd => wrap64(a + b),
        InsnType::InsnSub => wrap64(a - b),
        InsnType::InsnSll => a << (b % 64),
        InsnType::InsnSlt => flag(signed64(a) < signed64(b)),
        InsnType::InsnSltu => flag(a < b),
        InsnType::InsnXor => a ^ b,
        InsnType::InsnSrl => a >> (b % 64),
        InsnType::InsnSra => sra64(a, (b % 64) as u64),
        InsnType::InsnOr => a | b,
        InsnType::InsnAnd => a & b,
        InsnType::InsnMul => wrap64(a * b),
        InsnType::InsnMulh => wrap64(spec_mulh(signed64(a) as i64, signed64(b) as i64) as int),
        InsnType::InsnMulhsu => wrap64(spec_mulhsu(signed64(a) as i64, b) as int),
        InsnType::InsnMulhu => spec_mulhu(a, b),
        InsnType::InsnDiv => spec_div(a, b),
        InsnType::InsnDivu => spec_divu(a, b),
        InsnType::InsnRem => spec_rem(a, b),
        InsnType::InsnRemu => spec_remu(a, b),
        InsnType::InsnAddw => sext32(wrap32(a + b)),
        InsnType::InsnSubw => sext32(wrap32(a - b)),
        InsnType::InsnSllw => sext32(wrap32(a as int) << (b % 32)),
        InsnType::InsnSrlw => sext32(wrap32(a as int) >> (b % 32)),
        InsnType::InsnSraw => sext32(sra32(wrap32(a as int), (b % 32) as u32)),
        InsnType::InsnMulw => sext32(wrap32(a * b)),
        InsnType::InsnDivw => spec_divw(a, b),
        InsnType::InsnDivuw => spec_divuw(a, b),
        InsnType::InsnRemw => spec_remw(a, b),
        InsnType::InsnRemuw => spec_remuw(a, b),
        _ => 0,
    }
}

/// Whether a branch on the sources `a` and `b` is taken.  `BLT` and `BGE`
/// compare the registers as signed integers, `BLTU` and `BGEU` as unsigned.
pub open spec fn branch_taken(k: InsnType, a: u64, b: u64) -> bool {
    match k {
        InsnType::InsnBeq => a == b,
        InsnType::InsnBne => a != b,
        InsnType::InsnBlt => signed64(a) < signed64(b),
        InsnType::InsnBge => signed64(a) >= signed64(b),
        InsnType::InsnBltu => a < b,
        InsnType::InsnBgeu => a >= b,
        _ => false,
    }
}

/// Number of bytes that a load or store moves; 0 for other operations.
pub open spec fn access_width(k: InsnType) -> nat {
    match k {
        InsnType::InsnLb | InsnType::InsnLbu | InsnType::InsnSb => 1,
        InsnType::InsnLh | InsnType::InsnLhu | InsnType::InsnSh => 2,
        InsnType::InsnLw | InsnType::InsnLwu | InsnType::InsnSw | InsnType::InsnFlw
        | InsnType::InsnFsw => 4,
        InsnType::InsnLd | InsnType::InsnSd | InsnType::InsnFld | InsnType::InsnFsd => 8,
        _ => 0,
    }
}

/// What a load writes to its destination, given the little-endian value
/// `raw` of the bytes read: sign- or zero-extended for an integer load,
/// NaN-boxed for a single-precision load.
pub open spec fn loaded_value(k: InsnType, raw: int) -> u64 {
    match k {
        InsnType::InsnLb => wrap64(signed8(raw as u8)),
        InsnType::InsnLh => wrap64(signed16(raw as u16)),
        InsnType::InsnLw => sext32(raw as u32),
        InsnType::InsnFlw => nan_box(raw as u32),
        _ => raw as u64,
    }
}

// ---------------------------------------------------------------------
// Effects on the machine
// ---------------------------------------------------------------------
/// The address of a load or store: base register plus offset, modulo 2^64.
pub open spec fn eff_addr(s: StateView, insn: Insn) -> u64 {
    wrap64(s.gp[insn.rs1 as int] + insn.imm)
}

/// The address of the instruction after `insn`.
pub open spec fn next_pc(s: StateView, insn: Insn) -> u64 {
    wrap64(s.pc + insn.spec_len())
}

/// A register-immediate operation writes its result to `rd`.
pub open spec fn imm_effect(k: InsnType, s: StateView, insn: Insn) -> StateView {
    s.write_gp(insn.rd as int, alu_imm(k, s.gp[insn.rs1 as int], insn.imm))
}

/// A register-register operation writes its result to `rd`.
pub open spec fn reg_effect(k: InsnType, s: StateView, insn: Insn) -> StateView {
    s.write_gp(insn.rd as int, alu_reg(k, s.gp[insn.rs1 as int], s.gp[insn.rs2 as int]))
}

/// A load writes the value at the effective address to `rd`, in the
/// integer file or, for `FLW` and `FLD`, in the floating-point file.
pub open spec fn load_effect(k: InsnType, s: StateView, m: MemView, insn: Insn) -> StateView {
    let v = loaded_value(k, m.value_at(eff_addr(s, insn), access_width(k)));
    if k == InsnType::InsnFlw || k == InsnType::InsnFld {
        s.write_fp(insn.rd as int, v)
    } else {
        s.write_gp(insn.rd as int, v)
    }
}

/// A store writes the low bytes of `rs2` at the effective address, from
/// the integer file or, for `FSW` and `FSD`, from the floating-point file.
pub open spec fn store_effect(k: InsnType, s: StateView, m: MemView, insn: Insn) -> MemView {
    let v = if k == InsnType::InsnFsw || k == InsnType::InsnFsd {
        s.fp[insn.rs2 as int]
    } else {
        s.gp[insn.rs2 as int]
    };
    m.stored(eff_addr(s, insn), v, access_width(k))
}

/// A taken branch redirects the program counter and ends the block; a
/// branch that is not taken changes nothing.
pub open spec fn branch_effect(k: InsnType, s: StateView, insn: Insn) -> (StateView, Insn) {
    if branch_taken(k, s.gp[insn.rs1 as int], s.gp[insn.rs2 as int]) {
        let target = wrap64(s.pc + insn.imm);
        (
            StateView {
                pc: target,
                reenter_pc: target,
                exit_reason: ExitReason::DirectBranch,
                ..s
            },
            Insn { cont: true, ..insn },
        )
    } else {
        (s, insn)
    }
}

/// `JALR` links the next instruction in `rd` and continues at the sum of
/// `rs1` and the offset with bit 0 cleared.
pub open spec fn jalr_effect(s: StateView, insn: Insn) -> StateView {
    let sum = wrap64(s.gp[insn.rs1 as int] + insn.imm);
    StateView {
        reenter_pc: (sum - sum % 2) as u64,
        exit_reason: ExitReason::IndirectBranch,
        ..s.write_gp(insn.rd as int, next_pc(s, insn))
    }
}

/// `JAL` links the next instruction in `rd` and continues at the program
/// counter plus the offset.
pub open spec fn jal_effect(s: StateView, insn: Insn) -> StateView {
    let target = wrap64(s.pc + insn.imm);
    StateView {
        pc: target,
        reenter_pc: target,
        exit_reason: ExitReason::IndirectBranch,
        ..s.write_gp(insn.rd as int, next_pc(s, insn))
    }
}

/// `ECALL` hands control to the host, to return after the instruction.
pub open spec fn ecall_effect(s: StateView) -> StateView {
    StateView { exit_reason: ExitReason::Ecall, reenter_pc: wrap64(s.pc + 4), ..s }
}

/// The control and status registers that exist: the floating-point flags,
/// rounding mode and status.  They read as zero and ignore writes.
pub open spec fn csr_supported(csr: i16) -> bool {
    csr == 0 || csr == 1 || csr == 2
}

/// The low word of floating-point register `i`.
pub open spec fn fp_low(s: StateView, i: int) -> u32 {
    wrap32(s.fp[i] as int)
}

/// The effect of the floating-point operations that only move or inspect
/// bits: sign injection, moves between the register files and
/// classification.
pub open spec fn fp_bits_effect(k: InsnType, s: StateView, insn: Insn) -> StateView {
    let rd = insn.rd as int;
    let rs1 = insn.rs1 as int;
    let rs2 = insn.rs2 as int;
    match k {
        InsnType::InsnFsgnjS => s.write_fp(
            rd,
            nan_box(spec_fsgnj32(fp_low(s, rs1), fp_low(s, rs2), false, false)),
        ),
        InsnType::InsnFsgnjnS => s.write_fp(
            rd,
            nan_box(spec_fsgnj32(fp_low(s, rs1), fp_low(s, rs2), true, false)),
        ),
        InsnType::InsnFsgnjxS => s.write_fp(
            rd,
            nan_box(spec_fsgnj32(fp_low(s, rs1), fp_low(s, rs2), false, true)),
        ),
        InsnType::InsnFsgnjD => s.write_fp(rd, spec_fsgnj64(s.fp[rs1], s.fp[rs2], false, false)),
        InsnType::InsnFsgnjnD => s.write_fp(rd, spec_fsgnj64(s.fp[rs1], s.fp[rs2], true, false)),
        InsnType::InsnFsgnjxD => s.write_fp(rd, spec_fsgnj64(s.fp[rs1], s.fp[rs2], false, true)),
        InsnType::InsnFmvXW => s.write_gp(rd, sext32(fp_low(s, rs1))),
        InsnType::InsnFmvWX => s.write_fp(rd, nan_box(wrap32(s.gp[rs1] as int))),
        InsnType::InsnFmvXD => s.write_gp(rd, s.fp[rs1]),
        InsnType::InsnFmvDX => s.write_fp(rd, s.gp[rs1]),
        InsnType::InsnFclassS => s.write_gp(rd, spec_f32_classify(fp_low(s, rs1)) as u64),
        InsnType::InsnFclassD => s.write_gp(rd, spec_f64_classify(s.fp[rs1]) as u64),
        _ => s,
    }
}

// ---------------------------------------------------------------------
// Execution functions: integer arithmetic
// ---------------------------------------------------------------------
/// Signed division of two words, widened to a register.
fn div_word(x: u32, y: u32) -> (r: u64)
    ensures
        r == (if y == 0 {
            u64::MAX
        } else if signed32(x) == i32::MIN && signed32(y) == -1 {
            sext32(x)
        } else {
            sext32(wrap32(div_trunc(signed32(x), signed32(y))))
        }),
{
    if y == 0 {
        u64::MAX
    } else if x == 0x8000_0000 && y == 0xffff_ffff {
        sign_extend_word(x)
    } else {
        let q: i64 = div_i64(to_i32(x) as i64, to_i32(y) as i64);
        sign_extend_word(low32(from_i64(q)))
    }
}

/// Unsigned division of two words, widened to a register.
fn divu_word(x: u32, y: u32) -> (r: u64)
    ensures
        r == (if y == 0 {
            u64::MAX
        } else {
            sext32(x / y)
        }),
{
    if y == 0 {
        u64::MAX
    } else {
        sign_extend_word(x / y)
    }
}

/// Signed remainder of two words, widened to a register.
fn rem_word(x: u32, y: u32) -> (r: u64)
    ensures
        r == (if y == 0 {
            sext32(x)
        } else if signed32(x) == i32::MIN && signed32(y) == -1 {
            0
        } else {
            sext32(wrap32(rem_trunc(signed32(x), signed32(y))))
        }),
{
    if y == 0 {
        sign_extend_word(x)
    } else if x == 0x8000_0000 && y == 0xffff_ffff {
        0
    } else {
        let q: i64 = rem_i64(to_i32(x) as i64, to_i32(y) as i64);
        sign_extend_word(low32(from_i64(q)))
    }
}

/// Unsigned remainder of two words, widened to a register.
fn remu_word(x: u32, y: u32) -> (r: u64)
    ensures
        r == (if y == 0 {
            sext32(x)
        } else {
            sext32(x % y)
        }),
{
    if y == 0 {
        sign_extend_word(x)
    } else {
        sign_extend_word(x % y)
    }
}

/// `ADDI`: adds the immediate.
pub fn func_addi(state: &mut State, insn: &mut Insn)
    requires
        old(insn).wf(),
    ensures
        final(state)@ == imm_effect(InsnType::InsnAddi, old(state)@, *old(insn)),
        *final(insn) == *old(insn),
{
    let rs1: u64 = state.gp_regs[insn.rs1 as usize];
    let value: u64 = add_imm(rs1, insn.imm);
    state.set_gp(insn.rd as usize, value);
}

/// `SLLI`: shifts left by the immediate.
pub fn func_slli(state: &mut State, insn: &mut Insn)
    requires
        old(insn).wf(),
    ensures
        final(state)@ == imm_effect(InsnType::InsnSlli, old(state)@, *old(insn)),
        *final(insn) == *old(insn),
{
    let rs1: u64 = state.gp_regs[insn.rs1 as usize];
    let imm: u64 = imm_to_u64(insn.imm);
    let value: u64 = rs1 << (imm % 64);
    state.set_gp(insn.rd as usize, value);
}

/// `SLTI`: sets `rd` if `rs1` is below the immediate, both signed.
pub fn func_slti(state: &mut State, insn: &mut Insn)
    requires
        old(insn).wf(),
    ensures
        final(state)@ == imm_effect(InsnType::InsnSlti, old(state)@, *old(insn)),
        *final(insn) == *old(insn),
{
    let rs1: u64 = state.gp_regs[insn.rs1 as usize];
    let value: u64 = if to_i64(rs1) < insn.imm as i64 {
        1
    } else {
        0
    };
    state.set_gp(insn.rd as usize, value);
}

/// `SLTIU`: sets `rd` if `rs1` is below the sign-extended immediate, both unsigned.
pub fn func_sltiu(state: &mut State, insn: &mut Insn)
    requires
        old(insn).wf(),
    ensures
        final(state)@ == imm_effect(InsnType::InsnSltiu, old(state)@, *old(insn)),
        *final(insn) == *old(insn),
{
    let rs1: u64 = state.gp_regs[insn.rs1 as usize];
    let imm: u64 = imm_to_u64(insn.imm);
    let value: u64 = if rs1 < imm {
        1
    } else {
        0
    };
    state.set_gp(insn.rd as usize, value);
}

/// `XORI`: exclusive or with the immediate.
pub fn func_xori(state: &mut State, insn: &mut Insn)
    requires
        old(insn).wf(),
    ensures
        final(state)@ == imm_effect(InsnType::InsnXori, old(state)@, *old(insn)),
        *final(insn) == *old(insn),
{
    let rs1: u64 = state.gp_regs[insn.rs1 as usize];
    let imm: u64 = imm_to_u64(insn.imm);
    let value: u64 = rs1 ^ imm;
    state.set_gp(insn.rd as usize, value);
}

/// `SRLI`: shifts right by the immediate, zeros moving in.
pub fn func_srli(state: &mut State, insn: &mut Insn)
    requires
        old(insn).wf(),
    ensures
        final(state)@ == imm_effect(InsnType::InsnSrli, old(state)@, *old(insn)),
        *final(insn) == *old(insn),
{
    let rs1: u64 = state.gp_regs[insn.rs1 as usize];
    let imm: u64 = imm_to_u64(insn.imm);
    let value: u64 = rs1 >> (imm % 64);
    state.set_gp(insn.rd as usize, value);
}

/// `SRAI`: shifts right by the immediate, the sign moving in.
pub fn func_srai(state: &mut State, insn: &mut Insn)
    requires
        old(insn).wf(),
    ensures
        final(state)@ == imm_effect(InsnType::InsnSrai, old(state)@, *old(insn)),
        *final(insn) == *old(insn),
{
    let rs1: u64 = state.gp_regs[insn.rs1 as usize];
    let imm: u64 = imm_to_u64(insn.imm);
    let value: u64 = from_i64(to_i64(rs1) >> (imm % 64));
    state.set_gp(insn.rd as usize, value);
}

/// `ORI`: or with the immediate.
pub fn func_ori(state: &mut State, insn: &mut Insn)
    requires
        old(insn).wf(),
    ensures
        final(state)@ == imm_effect(InsnType::InsnOri, old(state)@, *old(insn)),
        *final(insn) == *old(insn),
{
    let rs1: u64 = state.gp_regs[insn.rs1 as usize];
    let imm: u64 = imm_to_u64(insn.imm);
    let value: u64 = rs1 | imm;
    state.set_gp(insn.rd as usize, value);
}

/// `ANDI`: and with the immediate.
pub fn func_andi(state: &mut State, insn: &mut Insn)
    requires
        old(insn).wf(),
    ensures
        final(state)@ == imm_effect(InsnType::InsnAndi, old(state)@, *old(insn)),
        *final(insn) == *old(insn),
{
    let rs1: u64 = state.gp_regs[insn.rs1 as usize];
    let imm: u64 = imm_to_u64(insn.imm);
    let value: u64 = rs1 & imm;
    state.set_gp(insn.rd as usize, value);
}

/// `ADDIW`: adds the immediate on the low word.
pub fn func_addiw(state: &mut State, insn: &mut Insn)
    requires
        old(insn).wf(),
    ensures
        final(state)@ == imm_effect(InsnType::InsnAddiw, old(state)@, *old(insn)),
        *final(insn) == *old(insn),
{
    let rs1: u64 = state.gp_regs[insn.rs1 as usize];
    let value: u64 = add_imm_word(rs1, insn.imm);
    state.set_gp(insn.rd as usize, value);
}

/// `SLLIW`: shifts the low word left by the immediate.
pub fn func_slliw(state: &mut State, insn: &mut Insn)
    requires
        old(insn).wf(),
    ensures
        final(state)@ == imm_effect(InsnType::InsnSlliw, old(state)@, *old(insn)),
        *final(insn) == *old(insn),
{
    let rs1: u64 = state.gp_regs[insn.rs1 as usize];
    let imm: u64 = imm_to_u64(insn.imm);
    let value: u64 = sign_extend_word(low32(rs1) << (imm % 32));
    state.set_gp(insn.rd as usize, value);
}

/// `SRLIW`: shifts the low word right by the immediate, zeros moving in.
pub fn func_srliw(state: &mut State, insn: &mut Insn)
    requires
        old(insn).wf(),
    ensures
        final(state)@ == imm_effect(InsnType::InsnSrliw, old(state)@, *old(insn)),
        *final(insn) == *old(insn),
{
    let rs1: u64 = state.gp_regs[insn.rs1 as usize];
    let imm: u64 = imm_to_u64(insn.imm);
    let value: u64 = sign_extend_word(low32(rs1) >> (imm % 32));
    state.set_gp(insn.rd as usize, value);
}

/// `SRAIW`: shifts the low word right by the immediate, the sign moving in.
pub fn func_sraiw(state: &mut State, insn: &mut Insn)
    requires
        old(insn).wf(),
    ensures
        final(state)@ == imm_effect(InsnType::InsnSraiw, old(state)@, *old(insn)),
        *final(insn) == *old(insn),
{
    let rs1: u64 = state.gp_regs[insn.rs1 as usize];
    let imm: u64 = imm_to_u64(insn.imm);
    let value: u64 = sign_extend_word(from_i32(to_i32(low32(rs1)) >> (imm % 32)));
    state.set_gp(insn.rd as usize, value);
}

/// `ADD`.
pub fn func_add(state: &mut State, insn: &mut Insn)
    requires
        old(insn).wf(),
    ensures
        final(state)@ == reg_effect(InsnType::InsnAdd, old(state)@, *old(insn)),
        *final(insn) == *old(insn),
{
    let rs1: u64 = state.gp_regs[insn.rs1 as usize];
    let rs2: u64 = state.gp_regs[insn.rs2 as usize];
    let value: u64 = add64(rs1, rs2);
    state.set_gp(insn.rd as usize, value);
}

/// `SLL`: shifts left by the low six bits of `rs2`.
pub fn func_sll(state: &mut State, insn: &mut Insn)
    requires
        old(insn).wf(),
    ensures
        final(state)@ == reg_effect(InsnType::InsnSll, old(state)@, *old(insn)),
        *final(insn) == *old(insn),
{
    let rs1: u64 = state.gp_regs[insn.rs1 as usize];
    let rs2: u64 = state.gp_regs[insn.rs2 as usize];
    let value: u64 = rs1 << (rs2 % 64);
    state.set_gp(insn.rd as usize, value);
}

/// `SLT`: sets `rd` if `rs1` is below `rs2`, both signed.
pub fn func_slt(state: &mut State, insn: &mut Insn)
    requires
        old(insn).wf(),
    ensures
        final(state)@ == reg_effect(InsnType::InsnSlt, old(state)@, *old(insn)),
        *final(insn) == *old(insn),
{
    let rs1: u64 = state.gp_regs[insn.rs1 as usize];
    let rs2: u64 = state.gp_regs[insn.rs2 as usize];
    let value: u64 = if to_i64(rs1) < to_i64(rs2) {
        1
    } else {
        0
    };
    state.set_gp(insn.rd as usize, value);
}

/// `SLTU`: sets `rd` if `rs1` is below `rs2`, both unsigned.
pub fn func_sltu(state: &mut State, insn: &mut Insn)
    requires
        old(insn).wf(),
    ensures
        final(state)@ == reg_effect(InsnType::InsnSltu, old(state)@, *old(insn)),
        *final(insn) == *old(insn),
{
    let rs1: u64 = state.gp_regs[insn.rs1 as usize];
    let rs2: u64 = state.gp_regs[insn.rs2 as usize];
    let value: u64 = if rs1 < rs2 {
        1
    } else {
        0
    };
    state.set_gp(insn.rd as usize, value);
}

/// `XOR`.
pub fn func_xor(state: &mut State, insn: &mut Insn)
    requires
        old(insn).wf(),
    ensures
        final(state)@ == reg_effect(InsnType::InsnXor, old(state)@, *old(insn)),
        *final(insn) == *old(insn),
{
    let rs1: u64 = state.gp_regs[insn.rs1 as usize];
    let rs2: u64 = state.gp_regs[insn.rs2 as usize];
    let value: u64 = rs1 ^ rs2;
    state.set_gp(insn.rd as usize, value);
}

/// `SRL`: shifts right by the low six bits of `rs2`, zeros moving in.
pub fn func_srl(state: &mut State, insn: &mut Insn)
    requires
        old(insn).wf(),
    ensures
        final(state)@ == reg_effect(InsnType::InsnSrl, old(state)@, *old(insn)),
        *final(insn) == *old(insn),
{
    let rs1: u64 = state.gp_regs[insn.rs1 as usize];
    let rs2: u64 = state.gp_regs[insn.rs2 as usize];
    let value: u64 = rs1 >> (rs2 % 64);
    state.set_gp(insn.rd as usize, value);
}

/// `OR`.
pub fn func_or(state: &mut State, insn: &mut Insn)
    requires
        old(insn).wf(),
    ensures
        final(state)@ == reg_effect(InsnType::InsnOr, old(state)@, *old(insn)),
        *final(insn) == *old(insn),
{
    let rs1: u64 = state.gp_regs[insn.rs1 as usize];
    let rs2: u64 = state.gp_regs[insn.rs2 as usize];
    let value: u64 = rs1 | rs2;
    state.set_gp(insn.rd as usize, value);
}

/// `AND`.
pub fn func_and(state: &mut State, insn: &mut Insn)
    requires
        old(insn).wf(),
    ensures
        final(state)@ == reg_effect(InsnType::InsnAnd, old(state)@, *old(insn)),
        *final(insn) == *old(insn),
{
    let rs1: u64 = state.gp_regs[insn.rs1 as usize];
    let rs2: u64 = state.gp_regs[insn.rs2 as usize];
    let value: u64 = rs1 & rs2;
    state.set_gp(insn.rd as usize, value);
}

/// `MUL`: the low 64 bits of the product.
pub fn func_mul(state: &mut State, insn: &mut Insn)
    requires
        old(insn).wf(),
    ensures
        final(state)@ == reg_effect(InsnType::InsnMul, old(state)@, *old(insn)),
        *final(insn) == *old(insn),
{
    let rs1: u64 = state.gp_regs[insn.rs1 as usize];
    let rs2: u64 = state.gp_regs[insn.rs2 as usize];
    let value: u64 = mul64(rs1, rs2);
    state.set_gp(insn.rd as usize, value);
}

/// `MULH`: the high 64 bits of the signed product.
pub fn func_mulh(state: &mut State, insn: &mut Insn)
    requires
        old(insn).wf(),
    ensures
        final(state)@ == reg_effect(InsnType::InsnMulh, old(state)@, *old(insn)),
        *final(insn) == *old(insn),
{
    let rs1: u64 = state.gp_regs[insn.rs1 as usize];
    let rs2: u64 = state.gp_regs[insn.rs2 as usize];
    let value: u64 = from_i64(mulh(to_i64(rs1), to_i64(rs2)));
    state.set_gp(insn.rd as usize, value);
}

/// `MULHSU`: the high 64 bits of the product of signed `rs1` and unsigned `rs2`.
pub fn func_mulhsu(state: &mut State, insn: &mut Insn)
    requires
        old(insn).wf(),
    ensures
        final(state)@ == reg_effect(InsnType::InsnMulhsu, old(state)@, *old(insn)),
        *final(insn) == *old(insn),
{
    let rs1: u64 = state.gp_regs[insn.rs1 as usize];
    let rs2: u64 = state.gp_regs[insn.rs2 as usize];
    let value: u64 = from_i64(mulhsu(to_i64(rs1), rs2));
    state.set_gp(insn.rd as usize, value);
}

/// `MULHU`: the high 64 bits of the unsigned product.
pub fn func_mulhu(state: &mut State, insn: &mut Insn)
    requires
        old(insn).wf(),
    ensures
        final(state)@ == reg_effect(InsnType::InsnMulhu, old(state)@, *old(insn)),
        *final(insn) == *old(insn),
{
    let rs1: u64 = state.gp_regs[insn.rs1 as usize];
    let rs2: u64 = state.gp_regs[insn.rs2 as usize];
    let value: u64 = mulhu(rs1, rs2);
    state.set_gp(insn.rd as usize, value);
}

/// `SUB`.
pub fn func_sub(state: &mut State, insn: &mut Insn)
    requires
        old(insn).wf(),
    ensures
        final(state)@ == reg_effect(InsnType::InsnSub, old(state)@, *old(insn)),
        *final(insn) == *old(insn),
{
    let rs1: u64 = state.gp_regs[insn.rs1 as usize];
    let rs2: u64 = state.gp_regs[insn.rs2 as usize];
    let value: u64 = sub64(rs1, rs2);
    state.set_gp(insn.rd as usize, value);
}

/// `SRA`: shifts right by the low six bits of `rs2`, the sign moving in.
pub fn func_sra(state: &mut State, insn: &mut Insn)
    requires
        old(insn).wf(),
    ensures
        final(state)@ == reg_effect(InsnType::InsnSra, old(state)@, *old(insn)),
        *final(insn) == *old(insn),
{
    let rs1: u64 = state.gp_regs[insn.rs1 as usize];
    let rs2: u64 = state.gp_regs[insn.rs2 as usize];
    let value: u64 = from_i64(to_i64(rs1) >> (rs2 % 64));
    state.set_gp(insn.rd as usize, value);
}

/// `REMU`: unsigned remainder; the dividend for a zero divisor.
pub fn func_remu(state: &mut State, insn: &mut Insn)
    requires
        old(insn).wf(),
    ensures
        final(state)@ == reg_effect(InsnType::InsnRemu, old(state)@, *old(insn)),
        *final(insn) == *old(insn),
{
    let rs1: u64 = state.gp_regs[insn.rs1 as usize];
    let rs2: u64 = state.gp_regs[insn.rs2 as usize];
    let value: u64 = if rs2 == 0 {
        rs1
    } else {
        rs1 % rs2
    };
    state.set_gp(insn.rd as usize, value);
}

/// `ADDW`.
pub fn func_addw(state: &mut State, insn: &mut Insn)
    requires
        old(insn).wf(),
    ensures
        final(state)@ == reg_effect(InsnType::InsnAddw, old(state)@, *old(insn)),
        *final(insn) == *old(insn),
{
    let rs1: u64 = state.gp_regs[insn.rs1 as usize];
    let rs2: u64 = state.gp_regs[insn.rs2 as usize];
    let value: u64 = add_word(rs1, rs2);
    state.set_gp(insn.rd as usize, value);
}

/// `SLLW`.
pub fn func_sllw(state: &mut State, insn: &mut Insn)
    requires
        old(insn).wf(),
    ensures
        final(state)@ == reg_effect(InsnType::InsnSllw, old(state)@, *old(insn)),
        *final(insn) == *old(insn),
{
    let rs1: u64 = state.gp_regs[insn.rs1 as usize];
    let rs2: u64 = state.gp_regs[insn.rs2 as usize];
    let value: u64 = sign_extend_word(low32(rs1) << (rs2 % 32));
    state.set_gp(insn.rd as usize, value);
}

/// `SRLW`.
pub fn func_srlw(state: &mut State, insn: &mut Insn)
    requires
        old(insn).wf(),
    ensures
        final(state)@ == reg_effect(InsnType::InsnSrlw, old(state)@, *old(insn)),
        *final(insn) == *old(insn),
{
    let rs1: u64 = state.gp_regs[insn.rs1 as usize];
    let rs2: u64 = state.gp_regs[insn.rs2 as usize];
    let value: u64 = sign_extend_word(low32(rs1) >> (rs2 % 32));
    state.set_gp(insn.rd as usize, value);
}

/// `MULW`.
pub fn func_mulw(state: &mut State, insn: &mut Insn)
    requires
        old(insn).wf(),
    ensures
        final(state)@ == reg_effect(InsnType::InsnMulw, old(state)@, *old(insn)),
        *final(insn) == *old(insn),
{
    let rs1: u64 = state.gp_regs[insn.rs1 as usize];
    let rs2: u64 = state.gp_regs[insn.rs2 as usize];
    let value: u64 = mul_word(rs1, rs2);
    state.set_gp(insn.rd as usize, value);
}

/// `DIVW`: signed division of the low words.
pub fn func_divw(state: &mut State, insn: &mut Insn)
    requires
        old(insn).wf(),
    ensures
        final(state)@ == reg_effect(InsnType::InsnDivw, old(state)@, *old(insn)),
        *final(insn) == *old(insn),
{
    let rs1: u64 = state.gp_regs[insn.rs1 as usize];
    let rs2: u64 = state.gp_regs[insn.rs2 as usize];
    let value: u64 = div_word(low32(rs1), low32(rs2));
    state.set_gp(insn.rd as usize, value);
}

/// `DIVUW`: unsigned division of the low words.
pub fn func_divuw(state: &mut State, insn: &mut Insn)
    requires
        old(insn).wf(),
    ensures
        final(state)@ == reg_effect(InsnType::InsnDivuw, old(state)@, *old(insn)),
        *final(insn) == *old(insn),
{
    let rs1: u64 = state.gp_regs[insn.rs1 as usize];
    let rs2: u64 = state.gp_regs[insn.rs2 as usize];
    let value: u64 = divu_word(low32(rs1), low32(rs2));
    state.set_gp(insn.rd as usize, value);
}

/// `REMW`: signed remainder of the low words.
pub fn func_remw(state: &mut State, insn: &mut Insn)
    requires
        old(insn).wf(),
    ensures
        final(state)@ == reg_effect(InsnType::InsnRemw, old(state)@, *old(insn)),
        *final(insn) == *old(insn),
{
    let rs1: u64 = state.gp_regs[insn.rs1 as usize];
    let rs2: u64 = state.gp_regs[insn.rs2 as usize];
    let value: u64 = rem_word(low32(rs1), low32(rs2));
    state.set_gp(insn.rd as usize, value);
}

/// `REMUW`: unsigned remainder of the low words.
pub fn func_remuw(state: &mut State, insn: &mut Insn)
    requires
        old(insn).wf(),
    ensures
        final(state)@ == reg_effect(InsnType::InsnRemuw, old(state)@, *old(insn)),
        *final(insn) == *old(insn),
{
    let rs1: u64 = state.gp_regs[insn.rs1 as usize];
    let rs2: u64 = state.gp_regs[insn.rs2 as usize];
    let value: u64 = remu_word(low32(rs1), low32(rs2));
    state.set_gp(insn.rd as usize, value);
}

/// `SUBW`.
pub fn func_subw(state: &mut State, insn: &mut Insn)
    requires
        old(insn).wf(),
    ensures
        final(state)@ == reg_effect(InsnType::InsnSubw, old(state)@, *old(insn)),
        *final(insn) == *old(insn),
{
    let rs1: u64 = state.gp_regs[insn.rs1 as usize];
    let rs2: u64 = state.gp_regs[insn.rs2 as usize];
    let value: u64 = sub_word(rs1, rs2);
    state.set_gp(insn.rd as usize, value);
}

/// `SRAW`.
pub fn func_sraw(state: &mut State, insn: &mut Insn)
    requires
        old(insn).wf(),
    ensures
        final(state)@ == reg_effect(InsnType::InsnSraw, old(state)@, *old(insn)),
        *final(insn) == *old(insn),
{
    let rs1: u64 = state.gp_regs[insn.rs1 as usize];
    let rs2: u64 = state.gp_regs[insn.rs2 as usize];
    let value: u64 = sign_extend_word(from_i32(to_i32(low32(rs1)) >> (rs2 % 32)));
    state.set_gp(insn.rd as usize, value);
}

/// `DIV`: signed division.  A zero divisor gives all ones, the overflowing
/// quotient gives the dividend; neither traps.
pub fn func_div(state: &mut State, insn: &mut Insn)
    requires
        old(insn).wf(),
    ensures
        final(state)@ == reg_effect(InsnType::InsnDiv, old(state)@, *old(insn)),
        *final(insn) == *old(insn),
{
    let rs1: u64 = state.gp_regs[insn.rs1 as usize];
    let rs2: u64 = state.gp_regs[insn.rs2 as usize];
    let value: u64 = if rs2 == 0 {
        u64::MAX
    } else if rs1 == 0x8000_0000_0000_0000 && rs2 == u64::MAX {
        rs1
    } else {
        from_i64(div_i64(to_i64(rs1), to_i64(rs2)))
    };
    state.set_gp(insn.rd as usize, value);
}

/// `DIVU`: unsigned division; all ones for a zero divisor.
pub fn func_divu(state: &mut State, insn: &mut Insn)
    requires
        old(insn).wf(),
    ensures
        final(state)@ == reg_effect(InsnType::InsnDivu, old(state)@, *old(insn)),
        *final(insn) == *old(insn),
{
    let rs1: u64 = state.gp_regs[insn.rs1 as usize];
    let rs2: u64 = state.gp_regs[insn.rs2 as usize];
    let value: u64 = if rs2 == 0 {
        u64::MAX
    } else {
        rs1 / rs2
    };
    state.set_gp(insn.rd as usize, value);
}

/// `REM`: signed remainder.  A zero divisor gives the dividend, the
/// overflowing quotient gives zero.
pub fn func_rem(state: &mut State, insn: &mut Insn)
    requires
        old(insn).wf(),
    ensures
        final(state)@ == reg_effect(InsnType::InsnRem, old(state)@, *old(insn)),
        *final(insn) == *old(insn),
{
    let rs1: u64 = state.gp_regs[insn.rs1 as usize];
    let rs2: u64 = state.gp_regs[insn.rs2 as usize];
    let value: u64 = if rs2 == 0 {
        rs1
    } else if rs1 == 0x8000_0000_0000_0000 && rs2 == u64::MAX {
        0
    } else {
        from_i64(rem_i64(to_i64(rs1), to_i64(rs2)))
    };
    state.set_gp(insn.rd as usize, value);
}

// ---------------------------------------------------------------------
// Execution functions: upper immediates, loads and stores
// ---------------------------------------------------------------------
/// `LUI` loads the immediate, whose low 12 bits are zero.
pub open spec fn lui_effect(s: StateView, insn: Insn) -> StateView {
    s.write_gp(insn.rd as int, wrap64(insn.imm as int))
}

/// `AUIPC` adds the immediate to the address of the instruction.
pub open spec fn auipc_effect(s: StateView, insn: Insn) -> StateView {
    s.write_gp(insn.rd as int, wrap64(s.pc + insn.imm))
}

/// A supported control and status register reads as zero.
pub open spec fn csr_effect(s: StateView, insn: Insn) -> StateView {
    s.write_gp(insn.rd as int, 0)
}

/// `FENCE` and `FENCE.I`: nothing to do with one hart and no cache.
pub fn func_empty(_state: &mut State, _insn: &mut Insn)
    ensures
        *final(_state) == *old(_state),
        *final(_insn) == *old(_insn),
{
}

/// `LUI`.
pub fn func_lui(state: &mut State, insn: &mut Insn)
    requires
        old(insn).wf(),
    ensures
        final(state)@ == lui_effect(old(state)@, *old(insn)),
        *final(insn) == *old(insn),
{
    let value: u64 = imm_to_u64(insn.imm);
    state.set_gp(insn.rd as usize, value);
}

/// `AUIPC`.
pub fn func_auipc(state: &mut State, insn: &mut Insn)
    requires
        old(insn).wf(),
    ensures
        final(state)@ == auipc_effect(old(state)@, *old(insn)),
        *final(insn) == *old(insn),
{
    let value: u64 = add_imm(state.pc, insn.imm);
    state.set_gp(insn.rd as usize, value);
}

/// The address that a load or store accesses.
pub fn effective_address(state: &State, insn: &Insn) -> (r: u64)
    requires
        insn.wf(),
    ensures
        r == eff_addr(state@, *insn),
{
    add_imm(state.gp_regs[insn.rs1 as usize], insn.imm)
}

/// `LB`: loads a byte and sign-extends it.
pub fn func_lb(state: &mut State, mem: &GuestMemory, insn: &mut Insn)
    requires
        old(insn).wf(),
        mem@.readable(eff_addr(old(state)@, *old(insn)), 1),
    ensures
        final(state)@ == load_effect(InsnType::InsnLb, old(state)@, mem@, *old(insn)),
        *final(insn) == *old(insn),
{
    let addr: u64 = effective_address(state, insn);
    let raw: u8 = mem.read_u8(addr);
    let value: u64 = if raw >= 0x80 {
        0xffff_ffff_ffff_ff00 + raw as u64
    } else {
        raw as u64
    };
    state.set_gp(insn.rd as usize, value);
}

/// `LH`: loads a halfword and sign-extends it.
pub fn func_lh(state: &mut State, mem: &GuestMemory, insn: &mut Insn)
    requires
        old(insn).wf(),
        mem@.readable(eff_addr(old(state)@, *old(insn)), 2),
    ensures
        final(state)@ == load_effect(InsnType::InsnLh, old(state)@, mem@, *old(insn)),
        *final(insn) == *old(insn),
{
    let addr: u64 = effective_address(state, insn);
    let raw: u16 = mem.read_u16(addr);
    let value: u64 = if raw >= 0x8000 {
        0xffff_ffff_ffff_0000 + raw as u64
    } else {
        raw as u64
    };
    state.set_gp(insn.rd as usize, value);
}

/// `LW`: loads a word and sign-extends it.
pub fn func_lw(state: &mut State, mem: &GuestMemory, insn: &mut Insn)
    requires
        old(insn).wf(),
        mem@.readable(eff_addr(old(state)@, *old(insn)), 4),
    ensures
        final(state)@ == load_effect(InsnType::InsnLw, old(state)@, mem@, *old(insn)),
        *final(insn) == *old(insn),
{
    let addr: u64 = effective_address(state, insn);
    let raw: u32 = mem.read_u32(addr);
    let value: u64 = sign_extend_word(raw);
    state.set_gp(insn.rd as usize, value);
}

/// `LD`: loads a doubleword.
pub fn func_ld(state: &mut State, mem: &GuestMemory, insn: &mut Insn)
    requires
        old(insn).wf(),
        mem@.readable(eff_addr(old(state)@, *old(insn)), 8),
    ensures
        final(state)@ == load_effect(InsnType::InsnLd, old(state)@, mem@, *old(insn)),
        *final(insn) == *old(insn),
{
    let addr: u64 = effective_address(state, insn);
    let raw: u64 = mem.read_u64(addr);
    let value: u64 = raw;
    state.set_gp(insn.rd as usize, value);
}

/// `LBU`: loads a byte and zero-extends it.
pub fn func_lbu(state: &mut State, mem: &GuestMemory, insn: &mut Insn)
    requires
        old(insn).wf(),
        mem@.readable(eff_addr(old(state)@, *old(insn)), 1),
    ensures
        final(state)@ == load_effect(InsnType::InsnLbu, old(state)@, mem@, *old(insn)),
        *final(insn) == *old(insn),
{
    let addr: u64 = effective_address(state, insn);
    let raw: u8 = mem.read_u8(addr);
    let value: u64 = raw as u64;
    state.set_gp(insn.rd as usize, value);
}

/// `LHU`: loads a halfword and zero-extends it.
pub fn func_lhu(state: &mut State, mem: &GuestMemory, insn: &mut Insn)
    requires
        old(insn).wf(),
        mem@.readable(eff_addr(old(state)@, *old(insn)), 2),
    ensures
        final(state)@ == load_effect(InsnType::InsnLhu, old(state)@, mem@, *old(insn)),
        *final(insn) == *old(insn),
{
    let addr: u64 = effective_address(state, insn);
    let raw: u16 = mem.read_u16(addr);
    let value: u64 = raw as u64;
    state.set_gp(insn.rd as usize, value);
}

/// `LWU`: loads a word and zero-extends it.
pub fn func_lwu(state: &mut State, mem: &GuestMemory, insn: &mut Insn)
    requires
        old(insn).wf(),
        mem@.readable(eff_addr(old(state)@, *old(insn)), 4),
    ensures
        final(state)@ == load_effect(InsnType::InsnLwu, old(state)@, mem@, *old(insn)),
        *final(insn) == *old(insn),
{
    let addr: u64 = effective_address(state, insn);
    let raw: u32 = mem.read_u32(addr);
    let value: u64 = raw as u64;
    state.set_gp(insn.rd as usize, value);
}

/// `FLW`: loads a single-precision value and NaN-boxes it.
pub fn func_flw(state: &mut State, mem: &GuestMemory, insn: &mut Insn)
    requires
        old(insn).wf(),
        mem@.readable(eff_addr(old(state)@, *old(insn)), 4),
    ensures
        final(state)@ == load_effect(InsnType::InsnFlw, old(state)@, mem@, *old(insn)),
        *final(insn) == *old(insn),
{
    let addr: u64 = effective_address(state, insn);
    let raw: u32 = mem.read_u32(addr);
    let value: u64 = FpRegT::boxed(raw).v;
    state.set_fp(insn.rd as usize, value);
}

/// `FLD`: loads a double-precision value.
pub fn func_fld(state: &mut State, mem: &GuestMemory, insn: &mut Insn)
    requires
        old(insn).wf(),
        mem@.readable(eff_addr(old(state)@, *old(insn)), 8),
    ensures
        final(state)@ == load_effect(InsnType::InsnFld, old(state)@, mem@, *old(insn)),
        *final(insn) == *old(insn),
{
    let addr: u64 = effective_address(state, insn);
    let raw: u64 = mem.read_u64(addr);
    let value: u64 = raw;
    state.set_fp(insn.rd as usize, value);
}

/// `SB`: stores the low byte of `rs2`.
pub fn func_sb(state: &mut State, mem: &mut GuestMemory, insn: &mut Insn)
    requires
        old(insn).wf(),
        old(mem)@.writable(eff_addr(old(state)@, *old(insn)), 1),
    ensures
        final(mem)@ == store_effect(InsnType::InsnSb, old(state)@, old(mem)@, *old(insn)),
        *final(state) == *old(state),
        *final(insn) == *old(insn),
{
    let addr: u64 = effective_address(state, insn);
    let rs2: u64 = state.gp_regs[insn.rs2 as usize];
    mem.write(addr, rs2, 1);
}

/// `SH`: stores the low halfword of `rs2`.
pub fn func_sh(state: &mut State, mem: &mut GuestMemory, insn: &mut Insn)
    requires
        old(insn).wf(),
        old(mem)@.writable(eff_addr(old(state)@, *old(insn)), 2),
    ensures
        final(mem)@ == store_effect(InsnType::InsnSh, old(state)@, old(mem)@, *old(insn)),
        *final(state) == *old(state),
        *final(insn) == *old(insn),
{
    let addr: u64 = effective_address(state, insn);
    let rs2: u64 = state.gp_regs[insn.rs2 as usize];
    mem.write(addr, rs2, 2);
}

/// `SW`: stores the low word of `rs2`.
pub fn func_sw(state: &mut State, mem: &mut GuestMemory, insn: &mut Insn)
    requires
        old(insn).wf(),
        old(mem)@.writable(eff_addr(old(state)@, *old(insn)), 4),
    ensures
        final(mem)@ == store_effect(InsnType::InsnSw, old(state)@, old(mem)@, *old(insn)),
        *final(state) == *old(state),
        *final(insn) == *old(insn),
{
    let addr: u64 = effective_address(state, insn);
    let rs2: u64 = state.gp_regs[insn.rs2 as usize];
    mem.write(addr, rs2, 4);
}

/// `SD`: stores `rs2`.
pub fn func_sd(state: &mut State, mem: &mut GuestMemory, insn: &mut Insn)
    requires
        old(insn).wf(),
        old(mem)@.writable(eff_addr(old(state)@, *old(insn)), 8),
    ensures
        final(mem)@ == store_effect(InsnType::InsnSd, old(state)@, old(mem)@, *old(insn)),
        *final(state) == *old(state),
        *final(insn) == *old(insn),
{
    let addr: u64 = effective_address(state, insn);
    let rs2: u64 = state.gp_regs[insn.rs2 as usize];
    mem.write(addr, rs2, 8);
}

/// `FSW`: stores the single-precision value in the low word of `rs2`.
pub fn func_fsw(state: &mut State, mem: &mut GuestMemory, insn: &mut Insn)
    requires
        old(insn).wf(),
        old(mem)@.writable(eff_addr(old(state)@, *old(insn)), 4),
    ensures
        final(mem)@ == store_effect(InsnType::InsnFsw, old(state)@, old(mem)@, *old(insn)),
        *final(state) == *old(state),
        *final(insn) == *old(insn),
{
    let addr: u64 = effective_address(state, insn);
    let rs2: u64 = state.fp_regs[insn.rs2 as usize].v;
    mem.write(addr, rs2, 4);
}

/// `FSD`: stores the double-precision value in `rs2`.
pub fn func_fsd(state: &mut State, mem: &mut GuestMemory, insn: &mut Insn)
    requires
        old(insn).wf(),
        old(mem)@.writable(eff_addr(old(state)@, *old(insn)), 8),
    ensures
        final(mem)@ == store_effect(InsnType::InsnFsd, old(state)@, old(mem)@, *old(insn)),
        *final(state) == *old(state),
        *final(insn) == *old(insn),
{
    let addr: u64 = effective_address(state, insn);
    let rs2: u64 = state.fp_regs[insn.rs2 as usize].v;
    mem.write(addr, rs2, 8);
}

// ---------------------------------------------------------------------
// Execution functions: control transfer
// ---------------------------------------------------------------------
/// Redirects the program counter to a taken branch's target.
fn take_branch(state: &mut State, insn: &mut Insn)
    ensures
        final(state)@ == (StateView {
            pc: wrap64(old(state).pc + old(insn).imm),
            reenter_pc: wrap64(old(state).pc + old(insn).imm),
            exit_reason: ExitReason::DirectBranch,
            ..old(state)@
        }),
        *final(insn) == (Insn { cont: true, ..*old(insn) }),
{
    let target: u64 = add_imm(state.pc, insn.imm);
    state.pc = target;
    state.reenter_pc = target;
    state.exit_reason = ExitReason::DirectBranch;
    insn.cont = true;
}

/// `BEQ`: branches if the sources are equal.
pub fn func_beq(state: &mut State, insn: &mut Insn)
    requires
        old(insn).wf(),
    ensures
        (final(state)@, *final(insn)) == branch_effect(InsnType::InsnBeq, old(state)@, *old(insn)),
{
    let rs1: u64 = state.gp_regs[insn.rs1 as usize];
    let rs2: u64 = state.gp_regs[insn.rs2 as usize];
    if rs1 == rs2 {
        take_branch(state, insn);
    }
}

/// `BNE`: branches if the sources differ.
pub fn func_bne(state: &mut State, insn: &mut Insn)
    requires
        old(insn).wf(),
    ensures
        (final(state)@, *final(insn)) == branch_effect(InsnType::InsnBne, old(state)@, *old(insn)),
{
    let rs1: u64 = state.gp_regs[insn.rs1 as usize];
    let rs2: u64 = state.gp_regs[insn.rs2 as usize];
    if rs1 != rs2 {
        take_branch(state, insn);
    }
}

/// `BLT`: branches if `rs1` is below `rs2`, both signed.
pub fn func_blt(state: &mut State, insn: &mut Insn)
    requires
        old(insn).wf(),
    ensures
        (final(state)@, *final(insn)) == branch_effect(InsnType::InsnBlt, old(state)@, *old(insn)),
{
    let rs1: u64 = state.gp_regs[insn.rs1 as usize];
    let rs2: u64 = state.gp_regs[insn.rs2 as usize];
    if to_i64(rs1) < to_i64(rs2) {
        take_branch(state, insn);
    }
}

/// `BGE`: branches if `rs1` is not below `rs2`, both signed.
pub fn func_bge(state: &mut State, insn: &mut Insn)
    requires
        old(insn).wf(),
    ensures
        (final(state)@, *final(insn)) == branch_effect(InsnType::InsnBge, old(state)@, *old(insn)),
{
    let rs1: u64 = state.gp_regs[insn.rs1 as usize];
    let rs2: u64 = state.gp_regs[insn.rs2 as usize];
    if to_i64(rs1) >= to_i64(rs2) {
        take_branch(state, insn);
    }
}

/// `BLTU`: branches if `rs1` is below `rs2`, both unsigned.
pub fn func_bltu(state: &mut State, insn: &mut Insn)
    requires
        old(insn).wf(),
    ensures
        (final(state)@, *final(insn)) == branch_effect(InsnType::InsnBltu, old(state)@, *old(insn)),
{
    let rs1: u64 = state.gp_regs[insn.rs1 as usize];
    let rs2: u64 = state.gp_regs[insn.rs2 as usize];
    if rs1 < rs2 {
        take_branch(state, insn);
    }
}

/// `BGEU`: branches if `rs1` is not below `rs2`, both unsigned.
pub fn func_bgeu(state: &mut State, insn: &mut Insn)
    requires
        old(insn).wf(),
    ensures
        (final(state)@, *final(insn)) == branch_effect(InsnType::InsnBgeu, old(state)@, *old(insn)),
{
    let rs1: u64 = state.gp_regs[insn.rs1 as usize];
    let rs2: u64 = state.gp_regs[insn.rs2 as usize];
    if rs1 >= rs2 {
        take_branch(state, insn);
    }
}

/// The address of the instruction after `insn`, where a jump links.
fn link_address(state: &State, insn: &Insn) -> (r: u64)
    ensures
        r == next_pc(state@, *insn),
{
    let len: u64 = if insn.rvc {
        2
    } else {
        4
    };
    add64(state.pc, len)
}

/// `JALR`: jumps to a register-relative target and links.
pub fn func_jalr(state: &mut State, insn: &mut Insn)
    requires
        old(insn).wf(),
    ensures
        final(state)@ == jalr_effect(old(state)@, *old(insn)),
        *final(insn) == *old(insn),
{
    let sum: u64 = effective_address(state, insn);
    let link: u64 = link_address(state, insn);
    state.set_gp(insn.rd as usize, link);
    state.exit_reason = ExitReason::IndirectBranch;
    state.reenter_pc = sum - sum % 2;
}

/// `JAL`: jumps to a target relative to the program counter and links.
pub fn func_jal(state: &mut State, insn: &mut Insn)
    requires
        old(insn).wf(),
    ensures
        final(state)@ == jal_effect(old(state)@, *old(insn)),
        *final(insn) == *old(insn),
{
    let link: u64 = link_address(state, insn);
    let target: u64 = add_imm(state.pc, insn.imm);
    state.set_gp(insn.rd as usize, link);
    state.pc = target;
    state.reenter_pc = target;
    state.exit_reason = ExitReason::IndirectBranch;
}

/// `ECALL`: leaves the interpreter for the host's system call.
pub fn func_ecall(state: &mut State, _insn: &mut Insn)
    ensures
        final(state)@ == ecall_effect(old(state)@),
        *final(_insn) == *old(_insn),
{
    state.exit_reason = ExitReason::Ecall;
    state.reenter_pc = add64(state.pc, 4);
}

// ---------------------------------------------------------------------
// Execution functions: control and status registers
// ---------------------------------------------------------------------

/// `CSRRW` on a supported register: reads zero, writes nothing.
pub fn func_csrrw(state: &mut State, insn: &mut Insn)
    requires
        old(insn).wf(),
        csr_supported(old(insn).csr),
    ensures
        final(state)@ == csr_effect(old(state)@, *old(insn)),
        *final(insn) == *old(insn),
{
    state.set_gp(insn.rd as usize, 0);
}

/// `CSRRS` on a supported register: reads zero, writes nothing.
pub fn func_csrrs(state: &mut State, insn: &mut Insn)
    requires
        old(insn).wf(),
        csr_supported(old(insn).csr),
    ensures
        final(state)@ == csr_effect(old(state)@, *old(insn)),
        *final(insn) == *old(insn),
{
    state.set_gp(insn.rd as usize, 0);
}

/// `CSRRC` on a supported register: reads zero, writes nothing.
pub fn func_csrrc(state: &mut State, insn: &mut Insn)
    requires
        old(insn).wf(),
        csr_supported(old(insn).csr),
    ensures
        final(state)@ == csr_effect(old(state)@, *old(insn)),
        *final(insn) == *old(insn),
{
    state.set_gp(insn.rd as usize, 0);
}

/// `CSRRWI` on a supported register: reads zero, writes nothing.
pub fn func_csrrwi(state: &mut State, insn: &mut Insn)
    requires
        old(insn).wf(),
        csr_supported(old(insn).csr),
    ensures
        final(state)@ == csr_effect(old(state)@, *old(insn)),
        *final(insn) == *old(insn),
{
    state.set_gp(insn.rd as usize, 0);
}

/// `CSRRSI` on a supported register: reads zero, writes nothing.
pub fn func_csrrsi(state: &mut State, insn: &mut Insn)
    requires
        old(insn).wf(),
        csr_supported(old(insn).csr),
    ensures
        final(state)@ == csr_effect(old(state)@, *old(insn)),
        *final(insn) == *old(insn),
{
    state.set_gp(insn.rd as usize, 0);
}

/// `CSRRCI` on a supported register: reads zero, writes nothing.
pub fn func_csrrci(state: &mut State, insn: &mut Insn)
    requires
        old(insn).wf(),
        csr_supported(old(insn).csr),
    ensures
        final(state)@ == csr_effect(old(state)@, *old(insn)),
        *final(insn) == *old(insn),
{
    state.set_gp(insn.rd as usize, 0);
}

// ---------------------------------------------------------------------
// Execution functions: floating-point bit operations
// ---------------------------------------------------------------------

/// `FSGNJ.S`: sign injection on single-precision values.
pub fn func_fsgnj_s(state: &mut State, insn: &mut Insn)
    requires
        old(insn).wf(),
    ensures
        final(state)@ == fp_bits_effect(InsnType::InsnFsgnjS, old(state)@, *old(insn)),
        *final(insn) == *old(insn),
{
    let rs1: u32 = state.fp_regs[insn.rs1 as usize].w();
    let rs2: u32 = state.fp_regs[insn.rs2 as usize].w();
    let value: FpRegT = FpRegT::boxed(fsgnj32(rs1, rs2, false, false));
    state.set_fp(insn.rd as usize, value.v);
}

/// `FSGNJN.S`: sign injection on single-precision values.
pub fn func_fsgnjn_s(state: &mut State, insn: &mut Insn)
    requires
        old(insn).wf(),
    ensures
        final(state)@ == fp_bits_effect(InsnType::InsnFsgnjnS, old(state)@, *old(insn)),
        *final(insn) == *old(insn),
{
    let rs1: u32 = state.fp_regs[insn.rs1 as usize].w();
    let rs2: u32 = state.fp_regs[insn.rs2 as usize].w();
    let value: FpRegT = FpRegT::boxed(fsgnj32(rs1, rs2, true, false));
    state.set_fp(insn.rd as usize, value.v);
}

/// `FSGNJX.S`: sign injection on single-precision values.
pub fn func_fsgnjx_s(state: &mut State, insn: &mut Insn)
    requires
        old(insn).wf(),
    ensures
        final(state)@ == fp_bits_effect(InsnType::InsnFsgnjxS, old(state)@, *old(insn)),
        *final(insn) == *old(insn),
{
    let rs1: u32 = state.fp_regs[insn.rs1 as usize].w();
    let rs2: u32 = state.fp_regs[insn.rs2 as usize].w();
    let value: FpRegT = FpRegT::boxed(fsgnj32(rs1, rs2, false, true));
    state.set_fp(insn.rd as usize, value.v);
}

/// `FSGNJ.D`: sign injection on double-precision values.
pub fn func_fsgnj_d(state: &mut State, insn: &mut Insn)
    requires
        old(insn).wf(),
    ensures
        final(state)@ == fp_bits_effect(InsnType::InsnFsgnjD, old(state)@, *old(insn)),
        *final(insn) == *old(insn),
{
    let rs1: u64 = state.fp_regs[insn.rs1 as usize].v;
    let rs2: u64 = state.fp_regs[insn.rs2 as usize].v;
    let value: u64 = fsgnj64(rs1, rs2, false, false);
    state.set_fp(insn.rd as usize, value);
}

/// `FSGNJN.D`: sign injection on double-precision values.
pub fn func_fsgnjn_d(state: &mut State, insn: &mut Insn)
    requires
        old(insn).wf(),
    ensures
        final(state)@ == fp_bits_effect(InsnType::InsnFsgnjnD, old(state)@, *old(insn)),
        *final(insn) == *old(insn),
{
    let rs1: u64 = state.fp_regs[insn.rs1 as usize].v;
    let rs2: u64 = state.fp_regs[insn.rs2 as usize].v;
    let value: u64 = fsgnj64(rs1, rs2, true, false);
    state.set_fp(insn.rd as usize, value);
}

/// `FSGNJX.D`: sign injection on double-precision values.
pub fn func_fsgnjx_d(state: &mut State, insn: &mut Insn)
    requires
        old(insn).wf(),
    ensures
        final(state)@ == fp_bits_effect(InsnType::InsnFsgnjxD, old(state)@, *old(insn)),
        *final(insn) == *old(insn),
{
    let rs1: u64 = state.fp_regs[insn.rs1 as usize].v;
    let rs2: u64 = state.fp_regs[insn.rs2 as usize].v;
    let value: u64 = fsgnj64(rs1, rs2, false, true);
    state.set_fp(insn.rd as usize, value);
}

/// `FMV.X.W`: copies the low word of `rs1` to the integer file, sign-extended.
pub fn func_fmv_x_w(state: &mut State, insn: &mut Insn)
    requires
        old(insn).wf(),
    ensures
        final(state)@ == fp_bits_effect(InsnType::InsnFmvXW, old(state)@, *old(insn)),
        *final(insn) == *old(insn),
{
    let value: u64 = sign_extend_word(state.fp_regs[insn.rs1 as usize].w());
    state.set_gp(insn.rd as usize, value);
}

/// `FMV.W.X`: copies the low word of `rs1` to the floating-point file, NaN-boxed.
pub fn func_fmv_w_x(state: &mut State, insn: &mut Insn)
    requires
        old(insn).wf(),
    ensures
        final(state)@ == fp_bits_effect(InsnType::InsnFmvWX, old(state)@, *old(insn)),
        *final(insn) == *old(insn),
{
    let value: u64 = FpRegT::boxed(low32(state.gp_regs[insn.rs1 as usize])).v;
    state.set_fp(insn.rd as usize, value);
}

/// `FMV.X.D`: copies `rs1` to the integer file.
pub fn func_fmv_x_d(state: &mut State, insn: &mut Insn)
    requires
        old(insn).wf(),
    ensures
        final(state)@ == fp_bits_effect(InsnType::InsnFmvXD, old(state)@, *old(insn)),
        *final(insn) == *old(insn),
{
    let value: u64 = state.fp_regs[insn.rs1 as usize].v;
    state.set_gp(insn.rd as usize, value);
}

/// `FMV.D.X`: copies `rs1` to the floating-point file.
pub fn func_fmv_d_x(state: &mut State, insn: &mut Insn)
    requires
        old(insn).wf(),
    ensures
        final(state)@ == fp_bits_effect(InsnType::InsnFmvDX, old(state)@, *old(insn)),
        *final(insn) == *old(insn),
{
    let value: u64 = state.gp_regs[insn.rs1 as usize];
    state.set_fp(insn.rd as usize, value);
}

/// `FCLASS.S`: classifies the single-precision value in `rs1`.
pub fn func_fclass_s(state: &mut State, insn: &mut Insn)
    requires
        old(insn).wf(),
    ensures
        final(state)@ == fp_bits_effect(InsnType::InsnFclassS, old(state)@, *old(insn)),
        *final(insn) == *old(insn),
{
    let value: u64 = f32_classify(state.fp_regs[insn.rs1 as usize].w()) as u64;
    state.set_gp(insn.rd as usize, value);
}

/// `FCLASS.D`: classifies the double-precision value in `rs1`.
pub fn func_fclass_d(state: &mut State, insn: &mut Insn)
    requires
        old(insn).wf(),
    ensures
        final(state)@ == fp_bits_effect(InsnType::InsnFclassD, old(state)@, *old(insn)),
        *final(insn) == *old(insn),
{
    let value: u64 = f64_classify(state.fp_regs[insn.rs1 as usize].v) as u64;
    state.set_gp(insn.rd as usize, value);
}

// ---------------------------------------------------------------------
// One instruction
// ---------------------------------------------------------------------
/// The operations by the shape of their effect.
#[derive(Clone, Copy, Debug, PartialEq, Eq, Structural)]
pub enum InsnClass {
    Load,
    Store,
    AluImm,
    AluReg,
    Lui,
    Auipc,
    Branch,
    Jalr,
    Jal,
    Ecall,
    Csr,
    /// Sign injection, moves between the register files, classification.
    FpBits,
    /// Fences, which have nothing to order here.
    NoEffect,
    /// Floating-point arithmetic, comparison and conversion.
    FloatArith,
}

/// The class of an operation.
pub open spec fn class_of(k: InsnType) -> InsnClass {
    match k {
        InsnType::InsnLb | InsnType::InsnLh | InsnType::InsnLw | InsnType::InsnLd
        | InsnType::InsnLbu | InsnType::InsnLhu | InsnType::InsnLwu | InsnType::InsnFlw
        | InsnType::InsnFld => InsnClass::Load,
        InsnType::InsnSb | InsnType::InsnSh | InsnType::InsnSw | InsnType::InsnSd
        | InsnType::InsnFsw | InsnType::InsnFsd => InsnClass::Store,
        InsnType::InsnAddi | InsnType::InsnSlli | InsnType::InsnSlti
        | InsnType::InsnSltiu | InsnType::InsnXori | InsnType::InsnSrli
        | InsnType::InsnSrai | InsnType::InsnOri | InsnType::InsnAndi
        | InsnType::InsnAddiw | InsnType::InsnSlliw | InsnType::InsnSrliw
        | InsnType::InsnSraiw => InsnClass::AluImm,
        InsnType::InsnAdd | InsnType::InsnSll | InsnType::InsnSlt | InsnType::InsnSltu
        | InsnType::InsnXor | InsnType::InsnSrl | InsnType::InsnOr | InsnType::InsnAnd
        | InsnType::InsnMul | InsnType::InsnMulh | InsnType::InsnMulhsu
        | InsnType::InsnMulhu | InsnType::InsnDiv | InsnType::InsnDivu
        | InsnType::InsnRem | InsnType::InsnRemu | InsnType::InsnSub | InsnType::InsnSra
        | InsnType::InsnAddw | InsnType::InsnSllw | InsnType::InsnSrlw
        | InsnType::InsnMulw | InsnType::InsnDivw | InsnType::InsnDivuw
        | InsnType::InsnRemw | InsnType::InsnRemuw | InsnType::InsnSubw
        | InsnType::InsnSraw => InsnClass::AluReg,
        InsnType::InsnLui => InsnClass::Lui,
        InsnType::InsnAuipc => InsnClass::Auipc,
        InsnType::InsnBeq | InsnType::InsnBne | InsnType::InsnBlt | InsnType::InsnBge
        | InsnType::InsnBltu | InsnType::InsnBgeu => InsnClass::Branch,
        InsnType::InsnJalr => InsnClass::Jalr,
        InsnType::InsnJal => InsnClass::Jal,
        InsnType::InsnEcall => InsnClass::Ecall,
        InsnType::InsnCsrrc | InsnType::InsnCsrrci | InsnType::InsnCsrrs
        | InsnType::InsnCsrrsi | InsnType::InsnCsrrw | InsnType::InsnCsrrwi => InsnClass::Csr,
        InsnType::InsnFsgnjS | InsnType::InsnFsgnjnS | InsnType::InsnFsgnjxS
        | InsnType::InsnFmvXW | InsnType::InsnFclassS | InsnType::InsnFmvWX
        | InsnType::InsnFsgnjD | InsnType::InsnFsgnjnD | InsnType::InsnFsgnjxD
        | InsnType::InsnFclassD | InsnType::InsnFmvXD | InsnType::InsnFmvDX => InsnClass::FpBits,
        InsnType::InsnFence | InsnType::InsnFenceI | InsnType::NumInsns => InsnClass::NoEffect,
        _ => InsnClass::FloatArith,
    }
}

/// Why the interpreter stopped in front of an instruction, or between two.
#[derive(Clone, Copy, Debug, PartialEq, Eq, Structural)]
pub enum Trap {
    /// The step budget is used up.
    OutOfSteps,
    /// The program counter, given here, points outside guest memory or at
    /// bytes that may not be read.
    FetchFault(u64),
    /// The fetched word, given here, encodes no supported instruction.
    IllegalInstruction(u32),
    /// A load or store at the address given here touches bytes outside
    /// guest memory, or bytes whose protection forbids the access.
    MemoryFault(u64),
    /// The control and status register, given here, does not exist.
    UnsupportedCsr(i16),
    /// The instruction computes on floating-point values: the host's
    /// floating-point unit has to execute it.
    FloatUnit(Insn),
}

/// The machine after one instruction: the state, guest memory, and the
/// instruction as the execution left it.
pub struct Effect {
    pub state: StateView,
    pub mem: MemView,
    pub insn: Insn,
}

/// The trap that `insn` raises in the state `s`, if any.  An instruction
/// that traps has no effect.
pub open spec fn spec_trap(s: StateView, m: MemView, insn: Insn) -> Option<Trap> {
    let k = insn.i_type;
    match class_of(k) {
        InsnClass::Load | InsnClass::Store => if m.accessible(
            eff_addr(s, insn),
            access_width(k),
            class_of(k) == InsnClass::Store,
        ) {
            None
        } else {
            Some(Trap::MemoryFault(eff_addr(s, insn)))
        },
        InsnClass::Csr => if csr_supported(insn.csr) {
            None
        } else {
            Some(Trap::UnsupportedCsr(insn.csr))
        },
        InsnClass::FloatArith => Some(Trap::FloatUnit(insn)),
        _ => None,
    }
}

/// The effect of `insn` on the state `s` and the memory `m`, for an
/// instruction that does not trap.
pub open spec fn spec_execute(s: StateView, m: MemView, insn: Insn) -> Effect {
    let k = insn.i_type;
    let same = Effect { state: s, mem: m, insn };
    match class_of(k) {
        InsnClass::Load => Effect { state: load_effect(k, s, m, insn), ..same },
        InsnClass::Store => Effect { mem: store_effect(k, s, m, insn), ..same },
        InsnClass::AluImm => Effect { state: imm_effect(k, s, insn), ..same },
        InsnClass::AluReg => Effect { state: reg_effect(k, s, insn), ..same },
        InsnClass::Lui => Effect { state: lui_effect(s, insn), ..same },
        InsnClass::Auipc => Effect { state: auipc_effect(s, insn), ..same },
        InsnClass::Branch => Effect {
            state: branch_effect(k, s, insn).0,
            insn: branch_effect(k, s, insn).1,
            ..same
        },
        InsnClass::Jalr => Effect { state: jalr_effect(s, insn), ..same },
        InsnClass::Jal => Effect { state: jal_effect(s, insn), ..same },
        InsnClass::Ecall => Effect { state: ecall_effect(s), ..same },
        InsnClass::Csr => Effect { state: csr_effect(s, insn), ..same },
        InsnClass::FpBits => Effect { state: fp_bits_effect(k, s, insn), ..same },
        InsnClass::NoEffect | InsnClass::FloatArith => same,
    }
}

/// The machine as the arguments of an execution function hold it.
pub open spec fn effect_of(state: State, mem: GuestMemory, insn: Insn) -> Effect {
    Effect { state: state@, mem: mem@, insn }
}

/// Executes a load from bytes that may be read.
fn exec_load(state: &mut State, mem: &GuestMemory, insn: &mut Insn)
    requires
        old(insn).wf(),
        class_of(old(insn).i_type) == InsnClass::Load,
        mem@.readable(eff_addr(old(state)@, *old(insn)), access_width(old(insn).i_type)),
    ensures
        effect_of(*final(state), *mem, *final(insn)) == spec_execute(
            old(state)@,
            mem@,
            *old(insn),
        ),
{
    match insn.i_type {
        InsnType::InsnLb => func_lb(state, mem, insn),
        InsnType::InsnLh => func_lh(state, mem, insn),
        InsnType::InsnLw => func_lw(state, mem, insn),
        InsnType::InsnLd => func_ld(state, mem, insn),
        InsnType::InsnLbu => func_lbu(state, mem, insn),
        InsnType::InsnLhu => func_lhu(state, mem, insn),
        InsnType::InsnLwu => func_lwu(state, mem, insn),
        InsnType::InsnFlw => func_flw(state, mem, insn),
        InsnType::InsnFld => func_fld(state, mem, insn),
        _ => {},
    }
}

/// Executes a store to bytes that may be written.
fn exec_store(state: &mut State, mem: &mut GuestMemory, insn: &mut Insn)
    requires
        old(insn).wf(),
        class_of(old(insn).i_type) == InsnClass::Store,
        old(mem)@.writable(eff_addr(old(state)@, *old(insn)), access_width(old(insn).i_type)),
    ensures
        effect_of(*final(state), *final(mem), *final(insn)) == spec_execute(
            old(state)@,
            old(mem)@,
            *old(insn),
        ),
{
    match insn.i_type {
        InsnType::InsnSb => func_sb(state, mem, insn),
        InsnType::InsnSh => func_sh(state, mem, insn),
        InsnType::InsnSw => func_sw(state, mem, insn),
        InsnType::InsnSd => func_sd(state, mem, insn),
        InsnType::InsnFsw => func_fsw(state, mem, insn),
        InsnType::InsnFsd => func_fsd(state, mem, insn),
        _ => {},
    }
}

/// Executes a register-immediate operation.
fn exec_alu_imm(state: &mut State, insn: &mut Insn)
    requires
        old(insn).wf(),
        class_of(old(insn).i_type) == InsnClass::AluImm,
    ensures
        forall|m: MemView|
            (Effect { state: final(state)@, mem: m, insn: *final(insn) }) == spec_execute(
                old(state)@,
                m,
                *old(insn),
            ),
{
    match insn.i_type {
        InsnType::InsnAddi => func_addi(state, insn),
        InsnType::InsnSlli => func_slli(state, insn),
        InsnType::InsnSlti => func_slti(state, insn),
        InsnType::InsnSltiu => func_sltiu(state, insn),
        InsnType::InsnXori => func_xori(state, insn),
        InsnType::InsnSrli => func_srli(state, insn),
        InsnType::InsnSrai => func_srai(state, insn),
        InsnType::InsnOri => func_ori(state, insn),
        InsnType::InsnAndi => func_andi(state, insn),
        InsnType::InsnAddiw => func_addiw(state, insn),
        InsnType::InsnSlliw => func_slliw(state, insn),
        InsnType::InsnSrliw => func_srliw(state, insn),
        InsnType::InsnSraiw => func_sraiw(state, insn),
        _ => {},
    }
}

/// Executes a register-register operation.
fn exec_alu_reg(state: &mut State, insn: &mut Insn)
    requires
        old(insn).wf(),
        class_of(old(insn).i_type) == InsnClass::AluReg,
    ensures
        forall|m: MemView|
            (Effect { state: final(state)@, mem: m, insn: *final(insn) }) == spec_execute(
                old(state)@,
                m,
                *old(insn),
            ),
{
    match insn.i_type {
        InsnType::InsnAdd => func_add(state, insn),
        InsnType::InsnSll => func_sll(state, insn),
        InsnType::InsnSlt => func_slt(state, insn),
        InsnType::InsnSltu => func_sltu(state, insn),
        InsnType::InsnXor => func_xor(state, insn),
        InsnType::InsnSrl => func_srl(state, insn),
        InsnType::InsnOr => func_or(state, insn),
        InsnType::InsnAnd => func_and(state, insn),
        InsnType::InsnMul => func_mul(state, insn),
        InsnType::InsnMulh => func_mulh(state, insn),
        InsnType::InsnMulhsu => func_mulhsu(state, insn),
        InsnType::InsnMulhu => func_mulhu(state, insn),
        InsnType::InsnDiv => func_div(state, insn),
        InsnType::InsnDivu => func_divu(state, insn),
        InsnType::InsnRem => func_rem(state, insn),
        InsnType::InsnRemu => func_remu(state, insn),
        InsnType::InsnSub => func_sub(state, insn),
        InsnType::InsnSra => func_sra(state, insn),
        InsnType::InsnAddw => func_addw(state, insn),
        InsnType::InsnSllw => func_sllw(state, insn),
        InsnType::InsnSrlw => func_srlw(state, insn),
        InsnType::InsnMulw => func_mulw(state, insn),
        InsnType::InsnDivw => func_divw(state, insn),
        InsnType::InsnDivuw => func_divuw(state, insn),
        InsnType::InsnRemw => func_remw(state, insn),
        InsnType::InsnRemuw => func_remuw(state, insn),
        InsnType::InsnSubw => func_subw(state, insn),
        InsnType::InsnSraw => func_sraw(state, insn),
        _ => {},
    }
}

/// Executes a conditional branch.
fn exec_branch(state: &mut State, insn: &mut Insn)
    requires
        old(insn).wf(),
        class_of(old(insn).i_type) == InsnClass::Branch,
    ensures
        forall|m: MemView|
            (Effect { state: final(state)@, mem: m, insn: *final(insn) }) == spec_execute(
                old(state)@,
                m,
                *old(insn),
            ),
{
    match insn.i_type {
        InsnType::InsnBeq => func_beq(state, insn),
        InsnType::InsnBne => func_bne(state, insn),
        InsnType::InsnBlt => func_blt(state, insn),
        InsnType::InsnBge => func_bge(state, insn),
        InsnType::InsnBltu => func_bltu(state, insn),
        InsnType::InsnBgeu => func_bgeu(state, insn),
        _ => {},
    }
}

/// Executes an access to a supported control and status register.
fn exec_csr(state: &mut State, insn: &mut Insn)
    requires
        old(insn).wf(),
        class_of(old(insn).i_type) == InsnClass::Csr,
        csr_supported(old(insn).csr),
    ensures
        forall|m: MemView|
            (Effect { state: final(state)@, mem: m, insn: *final(insn) }) == spec_execute(
                old(state)@,
                m,
                *old(insn),
            ),
{
    match insn.i_type {
        InsnType::InsnCsrrc => func_csrrc(state, insn),
        InsnType::InsnCsrrci => func_csrrci(state, insn),
        InsnType::InsnCsrrs => func_csrrs(state, insn),
        InsnType::InsnCsrrsi => func_csrrsi(state, insn),
        InsnType::InsnCsrrw => func_csrrw(state, insn),
        InsnType::InsnCsrrwi => func_csrrwi(state, insn),
        _ => {},
    }
}

/// Executes a floating-point operation that moves or inspects bits.
fn exec_fp_bits(state: &mut State, insn: &mut Insn)
    requires
        old(insn).wf(),
        class_of(old(insn).i_type) == InsnClass::FpBits,
    ensures
        forall|m: MemView|
            (Effect { state: final(state)@, mem: m, insn: *final(insn) }) == spec_execute(
                old(state)@,
                m,
                *old(insn),
            ),
{
    match insn.i_type {
        InsnType::InsnFsgnjS => func_fsgnj_s(state, insn),
        InsnType::InsnFsgnjnS => func_fsgnjn_s(state, insn),
        InsnType::InsnFsgnjxS => func_fsgnjx_s(state, insn),
        InsnType::InsnFmvXW => func_fmv_x_w(state, insn),
        InsnType::InsnFclassS => func_fclass_s(state, insn),
        InsnType::InsnFmvWX => func_fmv_w_x(state, insn),
        InsnType::InsnFsgnjD => func_fsgnj_d(state, insn),
        InsnType::InsnFsgnjnD => func_fsgnjn_d(state, insn),
        InsnType::InsnFsgnjxD => func_fsgnjx_d(state, insn),
        InsnType::InsnFclassD => func_fclass_d(state, insn),
        InsnType::InsnFmvXD => func_fmv_x_d(state, insn),
        InsnType::InsnFmvDX => func_fmv_d_x(state, insn),
        _ => {},
    }
}

/// The class of an operation.
pub fn insn_class(k: InsnType) -> (r: InsnClass)
    ensures
        r == class_of(k),
{
    match k {
        InsnType::InsnLb | InsnType::InsnLh | InsnType::InsnLw | InsnType::InsnLd
        | InsnType::InsnLbu | InsnType::InsnLhu | InsnType::InsnLwu | InsnType::InsnFlw
        | InsnType::InsnFld => InsnClass::Load,
        InsnType::InsnSb | InsnType::InsnSh | InsnType::InsnSw | InsnType::InsnSd
        | InsnType::InsnFsw | InsnType::InsnFsd => InsnClass::Store,
        InsnType::InsnAddi | InsnType::InsnSlli | InsnType::InsnSlti
        | InsnType::InsnSltiu | InsnType::InsnXori | InsnType::InsnSrli
        | InsnType::InsnSrai | InsnType::InsnOri | InsnType::InsnAndi
        | InsnType::InsnAddiw | InsnType::InsnSlliw | InsnType::InsnSrliw
        | InsnType::InsnSraiw => InsnClass::AluImm,
        InsnType::InsnAdd | InsnType::InsnSll | InsnType::InsnSlt | InsnType::InsnSltu
        | InsnType::InsnXor | InsnType::InsnSrl | InsnType::InsnOr | InsnType::InsnAnd
        | InsnType::InsnMul | InsnType::InsnMulh | InsnType::InsnMulhsu
        | InsnType::InsnMulhu | InsnType::InsnDiv | InsnType::InsnDivu
        | InsnType::InsnRem | InsnType::InsnRemu | InsnType::InsnSub | InsnType::InsnSra
        | InsnType::InsnAddw | InsnType::InsnSllw | InsnType::InsnSrlw
        | InsnType::InsnMulw | InsnType::InsnDivw | InsnType::InsnDivuw
        | InsnType::InsnRemw | InsnType::InsnRemuw | InsnType::InsnSubw
        | InsnType::InsnSraw => InsnClass::AluReg,
        InsnType::InsnLui => InsnClass::Lui,
        InsnType::InsnAuipc => InsnClass::Auipc,
        InsnType::InsnBeq | InsnType::InsnBne | InsnType::InsnBlt | InsnType::InsnBge
        | InsnType::InsnBltu | InsnType::InsnBgeu => InsnClass::Branch,
        InsnType::InsnJalr => InsnClass::Jalr,
        InsnType::InsnJal => InsnClass::Jal,
        InsnType::InsnEcall => InsnClass::Ecall,
        InsnType::InsnCsrrc | InsnType::InsnCsrrci | InsnType::InsnCsrrs
        | InsnType::InsnCsrrsi | InsnType::InsnCsrrw | InsnType::InsnCsrrwi => InsnClass::Csr,
        InsnType::InsnFsgnjS | InsnType::InsnFsgnjnS | InsnType::InsnFsgnjxS
        | InsnType::InsnFmvXW | InsnType::InsnFclassS | InsnType::InsnFmvWX
        | InsnType::InsnFsgnjD | InsnType::InsnFsgnjnD | InsnType::InsnFsgnjxD
        | InsnType::InsnFclassD | InsnType::InsnFmvXD | InsnType::InsnFmvDX => InsnClass::FpBits,
        InsnType::InsnFence | InsnType::InsnFenceI | InsnType::NumInsns => InsnClass::NoEffect,
        _ => InsnClass::FloatArith,
    }
}

/// Number of bytes that a load or store moves.
fn width_of(k: InsnType) -> (r: u64)
    ensures
        r == access_width(k),
{
    match k {
        InsnType::InsnLb | InsnType::InsnLbu | InsnType::InsnSb => 1,
        InsnType::InsnLh | InsnType::InsnLhu | InsnType::InsnSh => 2,
        InsnType::InsnLw | InsnType::InsnLwu | InsnType::InsnSw | InsnType::InsnFlw
        | InsnType::InsnFsw => 4,
        InsnType::InsnLd | InsnType::InsnSd | InsnType::InsnFld | InsnType::InsnFsd => 8,
        _ => 0,
    }
}

/// Executes one decoded instruction, unless it traps.  The execution
/// function is chosen by the operation; a trap leaves the machine as it
/// was.
pub fn exec_insn(state: &mut State, mem: &mut GuestMemory, insn: &mut Insn) -> (r: Option<Trap>)
    requires
        old(insn).wf(),
        old(mem)@.wf(),
    ensures
        r == spec_trap(old(state)@, old(mem)@, *old(insn)),
        r is None ==> effect_of(*final(state), *final(mem), *final(insn)) == spec_execute(
            old(state)@,
            old(mem)@,
            *old(insn),
        ),
        r is Some ==> *final(state) == *old(state) && *final(mem) == *old(mem) && *final(insn)
            == *old(insn),
        final(mem)@.wf(),
        final(mem)@.start == old(mem)@.start,
        final(mem)@.bytes.len() == old(mem)@.bytes.len(),
        final(mem)@.prot == old(mem)@.prot,
        final(insn).wf(),
{
    match insn_class(insn.i_type) {
        InsnClass::Load => {
            let addr: u64 = effective_address(state, insn);
            if mem.is_readable(addr, width_of(insn.i_type)) {
                exec_load(state, mem, insn);
                None
            } else {
                Some(Trap::MemoryFault(addr))
            }
        },
        InsnClass::Store => {
            let addr: u64 = effective_address(state, insn);
            if mem.is_writable(addr, width_of(insn.i_type)) {
                exec_store(state, mem, insn);
                None
            } else {
                Some(Trap::MemoryFault(addr))
            }
        },
        InsnClass::AluImm => {
            exec_alu_imm(state, insn);
            None
        },
        InsnClass::AluReg => {
            exec_alu_reg(state, insn);
            None
        },
        InsnClass::Lui => {
            func_lui(state, insn);
            None
        },
        InsnClass::Auipc => {
            func_auipc(state, insn);
            None
        },
        InsnClass::Branch => {
            exec_branch(state, insn);
            None
        },
        InsnClass::Jalr => {
            func_jalr(state, insn);
            None
        },
        InsnClass::Jal => {
            func_jal(state, insn);
            None
        },
        InsnClass::Ecall => {
            func_ecall(state, insn);
            None
        },
        InsnClass::Csr => {
            if insn.csr == 0 || insn.csr == 1 || insn.csr == 2 {
                exec_csr(state, insn);
                None
            } else {
                Some(Trap::UnsupportedCsr(insn.csr))
            }
        },
        InsnClass::FpBits => {
            exec_fp_bits(state, insn);
            None
        },
        InsnClass::NoEffect => {
            func_empty(state, insn);
            None
        },
        InsnClass::FloatArith => Some(Trap::FloatUnit(*insn)),
    }
}

// ---------------------------------------------------------------------
// The interface to the host's floating-point unit
// ---------------------------------------------------------------------
/// The conversions from an integer, which read `rs1` in the integer file.
pub open spec fn float_reads_gp(k: InsnType) -> bool {
    match k {
        InsnType::InsnFcvtSW | InsnType::InsnFcvtSWu | InsnType::InsnFcvtSL
        | InsnType::InsnFcvtSLu | InsnType::InsnFcvtDW | InsnType::InsnFcvtDWu
        | InsnType::InsnFcvtDL | InsnType::InsnFcvtDLu => true,
        _ => false,
    }
}

/// The comparisons and the conversions to an integer, which write `rd` in
/// the integer file.
pub open spec fn float_writes_gp(k: InsnType) -> bool {
    match k {
        InsnType::InsnFeqS | InsnType::InsnFltS | InsnType::InsnFleS | InsnType::InsnFeqD
        | InsnType::InsnFltD | InsnType::InsnFleD | InsnType::InsnFcvtWS
        | InsnType::InsnFcvtWuS | InsnType::InsnFcvtLS | InsnType::InsnFcvtLuS
        | InsnType::InsnFcvtWD | InsnType::InsnFcvtWuD | InsnType::InsnFcvtLD
        | InsnType::InsnFcvtLuD => true,
        _ => false,
    }
}

/// The conversions to a 32-bit integer, whose result is sign-extended to
/// the register, also where it is unsigned.
pub open spec fn float_word_result(k: InsnType) -> bool {
    match k {
        InsnType::InsnFcvtWS | InsnType::InsnFcvtWuS | InsnType::InsnFcvtWD
        | InsnType::InsnFcvtWuD => true,
        _ => false,
    }
}

/// The operations with a single-precision result, which is NaN-boxed in
/// the register.
pub open spec fn float_single_result(k: InsnType) -> bool {
    match k {
        InsnType::InsnFmaddS | InsnType::InsnFmsubS | InsnType::InsnFnmsubS
        | InsnType::InsnFnmaddS | InsnType::InsnFaddS | InsnType::InsnFsubS
        | InsnType::InsnFmulS | InsnType::InsnFdivS | InsnType::InsnFsqrtS
        | InsnType::InsnFminS | InsnType::InsnFmaxS | InsnType::InsnFcvtSW
        | InsnType::InsnFcvtSWu | InsnType::InsnFcvtSL | InsnType::InsnFcvtSLu
        | InsnType::InsnFcvtSD => true,
        _ => false,
    }
}

/// The bits that the floating-point unit gets for an instruction: the
/// registers `rs1`, `rs2` and `rs3`, of which `rs1` is an integer register
/// for a conversion from an integer.
pub open spec fn float_inputs(s: StateView, insn: Insn) -> (u64, u64, u64) {
    (
        if float_reads_gp(insn.i_type) {
            s.gp[insn.rs1 as int]
        } else {
            s.fp[insn.rs1 as int]
        },
        s.fp[insn.rs2 as int],
        s.fp[insn.rs3 as int],
    )
}

/// Where the bits that the floating-point unit computed go: to `rd` in the
/// integer file, a 32-bit result sign-extended, or to `rd` in the
/// floating-point file, a single-precision result NaN-boxed.
pub open spec fn float_effect(s: StateView, insn: Insn, result: u64) -> StateView {
    let k = insn.i_type;
    if float_writes_gp(k) {
        s.write_gp(
            insn.rd as int,
            if float_word_result(k) {
                sext32(wrap32(result as int))
            } else {
                result
            },
        )
    } else {
        s.write_fp(
            insn.rd as int,
            if float_single_result(k) {
                nan_box(wrap32(result as int))
            } else {
                result
            },
        )
    }
}

/// Reads the operands of a floating-point computation as bit patterns.
pub fn float_operands(state: &State, insn: &Insn) -> (r: (u64, u64, u64))
    requires
        insn.wf(),
    ensures
        r == float_inputs(state@, *insn),
{
    let from_gp: bool = match insn.i_type {
        InsnType::InsnFcvtSW | InsnType::InsnFcvtSWu | InsnType::InsnFcvtSL
        | InsnType::InsnFcvtSLu | InsnType::InsnFcvtDW | InsnType::InsnFcvtDWu
        | InsnType::InsnFcvtDL | InsnType::InsnFcvtDLu => true,
        _ => false,
    };
    let first: u64 = if from_gp {
        state.gp_regs[insn.rs1 as usize]
    } else {
        state.fp_regs[insn.rs1 as usize].v
    };
    (first, state.fp_regs[insn.rs2 as usize].v, state.fp_regs[insn.rs3 as usize].v)
}

/// Writes the result of a floating-point computation, given as a bit
/// pattern, to the destination of the instruction.
pub fn float_write_back(state: &mut State, insn: &Insn, result: u64)
    requires
        insn.wf(),
    ensures
        final(state)@ == float_effect(old(state)@, *insn, result),
{
    let to_gp: bool = match insn.i_type {
        InsnType::InsnFeqS | InsnType::InsnFltS | InsnType::InsnFleS | InsnType::InsnFeqD
        | InsnType::InsnFltD | InsnType::InsnFleD | InsnType::InsnFcvtWS
        | InsnType::InsnFcvtWuS | InsnType::InsnFcvtLS | InsnType::InsnFcvtLuS
        | InsnType::InsnFcvtWD | InsnType::InsnFcvtWuD | InsnType::InsnFcvtLD
        | InsnType::InsnFcvtLuD => true,
        _ => false,
    };
    if to_gp {
        let word: bool = match insn.i_type {
            InsnType::InsnFcvtWS | InsnType::InsnFcvtWuS | InsnType::InsnFcvtWD
            | InsnType::InsnFcvtWuD => true,
            _ => false,
        };
        let value: u64 = if word {
            sign_extend_word(low32(result))
        } else {
            result
        };
        state.set_gp(insn.rd as usize, value);
    } else {
        let single: bool = match insn.i_type {
            InsnType::InsnFmaddS | InsnType::InsnFmsubS | InsnType::InsnFnmsubS
            | InsnType::InsnFnmaddS | InsnType::InsnFaddS | InsnType::InsnFsubS
            | InsnType::InsnFmulS | InsnType::InsnFdivS | InsnType::InsnFsqrtS
            | InsnType::InsnFminS | InsnType::InsnFmaxS | InsnType::InsnFcvtSW
            | InsnType::InsnFcvtSWu | InsnType::InsnFcvtSL | InsnType::InsnFcvtSLu
            | InsnType::InsnFcvtSD => true,
            _ => false,
        };
        let value: u64 = if single {
            FpRegT::boxed(low32(result)).v
        } else {
            result
        };
        state.set_fp(insn.rd as usize, value);
    }
}

// ---------------------------------------------------------------------
// The interpreter loop
// ---------------------------------------------------------------------
/// The word at the program counter, which is read as data is.  Its low
/// half is read first; only a 32-bit encoding needs the high half, so a
/// 16-bit instruction in the last two readable bytes can be fetched.
pub open spec fn spec_fetch(m: MemView, pc: u64) -> Option<u32> {
    if !m.readable(pc, 2) {
        None
    } else {
        let low = m.value_at(pc, 2) as u32;
        if spec_quadrant(low) != 0x3 {
            Some(low)
        } else if m.readable(pc, 4) {
            Some(m.value_at(pc, 4) as u32)
        } else {
            None
        }
    }
}

/// Reads the instruction word at `pc`.
pub fn fetch(mem: &GuestMemory, pc: u64) -> (r: Option<u32>)
    requires
        mem@.wf(),
    ensures
        r == spec_fetch(mem@, pc),
{
    if !mem.is_readable(pc, 2) {
        None
    } else {
        let low: u32 = mem.read_u16(pc) as u32;
        if quadrant(low) != 0x3 {
            Some(low)
        } else if mem.is_readable(pc, 4) {
            Some(mem.read_u32(pc))
        } else {
            None
        }
    }
}

/// What retiring an executed instruction does to the state: integer
/// register 0 is forced back to zero, and unless the instruction ended the
/// block the program counter moves past it.
pub open spec fn spec_retire(s: StateView, insn: Insn) -> StateView {
    let zeroed = s.write_gp(0, 0);
    if insn.cont {
        zeroed
    } else {
        StateView { pc: next_pc(s, insn), ..zeroed }
    }
}

/// Retires an executed instruction, and says whether it ended the block.
pub fn insn_retire(state: &mut State, insn: &Insn) -> (ends: bool)
    ensures
        final(state)@ == spec_retire(old(state)@, *insn),
        ends == insn.cont,
{
    let next: u64 = link_address(state, insn);
    state.set_gp(0, 0);
    if !insn.cont {
        state.pc = next;
    }
    insn.cont
}

/// Completes a turn of the loop that stopped in front of a
/// floating-point computation: writes the result that the floating-point
/// unit computed and retires the instruction.
pub fn float_complete(state: &mut State, insn: &Insn, result: u64) -> (ends: bool)
    requires
        insn.wf(),
    ensures
        final(state)@ == spec_retire(float_effect(old(state)@, *insn, result), *insn),
        ends == insn.cont,
{
    float_write_back(state, insn, result);
    insn_retire(state, insn)
}

/// How one turn of the loop ends.
pub enum StepOutcome {
    /// An instruction was executed and retired; `ends` tells whether it
    /// ended the block.
    Retired { state: StateView, mem: MemView, ends: bool },
    /// The machine is unchanged, in front of what it could not do.
    Trapped(Trap),
}

/// One turn of the loop: fetch at the program counter, decode, execute,
/// retire.  (The definition is opaque: a proof that needs it reveals it.)
#[verifier::opaque]
pub open spec fn spec_step(s: StateView, m: MemView) -> StepOutcome {
    match spec_fetch(m, s.pc) {
        None => StepOutcome::Trapped(Trap::FetchFault(s.pc)),
        Some(word) => match spec_decode(word) {
            None => StepOutcome::Trapped(Trap::IllegalInstruction(word)),
            Some(insn) => match spec_trap(s, m, insn) {
                Some(t) => StepOutcome::Trapped(t),
                None => {
                    let e = spec_execute(s, m, insn);
                    StepOutcome::Retired {
                        state: spec_retire(e.state, e.insn),
                        mem: e.mem,
                        ends: e.insn.cont,
                    }
                },
            },
        },
    }
}

/// Runs one turn of the loop.  `Ok(ends)` reports a retired instruction,
/// `Err` a trap, which leaves the machine unchanged.
pub fn exec_step(state: &mut State, mem: &mut GuestMemory) -> (r: Result<bool, Trap>)
    requires
        old(mem)@.wf(),
    ensures
        match spec_step(old(state)@, old(mem)@) {
            StepOutcome::Retired { state: s, mem: m, ends } => r == Ok::<bool, Trap>(ends)
                && final(state)@ == s && final(mem)@ == m,
            StepOutcome::Trapped(t) => r == Err::<bool, Trap>(t) && *final(state) == *old(state)
                && *final(mem) == *old(mem),
        },
        r is Ok ==> final(state)@.gp[0] == 0,
        final(mem)@.wf(),
        final(mem)@.start == old(mem)@.start,
        final(mem)@.bytes.len() == old(mem)@.bytes.len(),
        final(mem)@.prot == old(mem)@.prot,
{
    reveal(spec_step);
    let word: u32 = match fetch(mem, state.pc) {
        Some(w) => w,
        None => {
            return Err(Trap::FetchFault(state.pc));
        },
    };
    let mut insn: Insn = match insn_try_decode(word) {
        Some(i) => i,
        None => {
            return Err(Trap::IllegalInstruction(word));
        },
    };
    match exec_insn(state, mem, &mut insn) {
        Some(t) => Err(t),
        None => Ok(insn_retire(state, &insn)),
    }
}

/// The run of one block.
pub struct BlockRun {
    pub state: StateView,
    pub mem: MemView,
    /// Number of instructions retired.
    pub used: nat,
    /// `None` when the block ended with a control transfer.
    pub trap: Option<Trap>,
}

/// Straight-line execution from the state `s` for at most `steps`
/// instructions: the loop turns until an instruction ends the block, a trap
/// stops it, or the budget is used up.  (The definition is opaque: a proof
/// that needs it reveals it.)
#[verifier::opaque]
pub open spec fn spec_block(s: StateView, m: MemView, steps: nat) -> BlockRun
    decreases steps,
{
    if steps == 0 {
        BlockRun { state: s, mem: m, used: 0, trap: Some(Trap::OutOfSteps) }
    } else {
        match spec_step(s, m) {
            StepOutcome::Trapped(t) => BlockRun { state: s, mem: m, used: 0, trap: Some(t) },
            StepOutcome::Retired { state, mem, ends } => if ends {
                BlockRun { state, mem, used: 1, trap: None }
            } else {
                let rest = spec_block(state, mem, (steps - 1) as nat);
                BlockRun { used: rest.used + 1, ..rest }
            },
        }
    }
}

/// Interprets instructions from the program counter until one ends the
/// block, for at most `steps` instructions.  Returns the number of
/// instructions retired and the trap that stopped the run, if one did.
/// After a normal end `exit_reason` tells how the block ended, and
/// `reenter_pc` where execution continues.
pub fn exec_block_interp(state: &mut State, mem: &mut GuestMemory, steps: u64) -> (r: (
    u64,
    Option<Trap>,
))
    requires
        old(mem)@.wf(),
    ensures
        final(state)@ == spec_block(old(state)@, old(mem)@, steps as nat).state,
        final(mem)@ == spec_block(old(state)@, old(mem)@, steps as nat).mem,
        r.0 == spec_block(old(state)@, old(mem)@, steps as nat).used,
        r.1 == spec_block(old(state)@, old(mem)@, steps as nat).trap,
        r.0 >= 1 || old(state)@.gp[0] == 0 ==> final(state)@.gp[0] == 0,
        final(mem)@.wf(),
        final(mem)@.start == old(mem)@.start,
        final(mem)@.bytes.len() == old(mem)@.bytes.len(),
        final(mem)@.prot == old(mem)@.prot,
{
    reveal(spec_block);
    let mut used: u64 = 0;
    while used < steps
        invariant
            used <= steps,
            used >= 1 || old(state)@.gp[0] == 0 ==> state@.gp[0] == 0,
            mem@.wf(),
            mem@.start == old(mem)@.start,
            mem@.bytes.len() == old(mem)@.bytes.len(),
            mem@.prot == old(mem)@.prot,
            spec_block(old(state)@, old(mem)@, steps as nat) == (BlockRun {
                used: spec_block(state@, mem@, (steps - used) as nat).used + used as nat,
                ..spec_block(state@, mem@, (steps - used) as nat)
            }),
        decreases steps - used,
    {
        reveal(spec_block);
        match exec_step(state, mem) {
            Err(t) => {
                return (used, Some(t));
            },
            Ok(ends) => {
                used = used + 1;
                if ends {
                    return (used, None);
                }
            },
        }
    }
    (used, Some(Trap::OutOfSteps))
}

// ---------------------------------------------------------------------
// What holds of every run
// ---------------------------------------------------------------------
/// The way a block ends is recorded: one of the three exits.
pub open spec fn exit_recorded(s: StateView) -> bool {
    s.exit_reason == ExitReason::DirectBranch || s.exit_reason == ExitReason::IndirectBranch
        || s.exit_reason == ExitReason::Ecall
}

/// The register files keep their size under every instruction, and guest
/// memory its extent.
pub proof fn lemma_execute_preserves_shape(s: StateView, m: MemView, insn: Insn)
    requires
        s.wf(),
        insn.wf(),
    ensures
        spec_execute(s, m, insn).state.wf(),
        spec_execute(s, m, insn).mem.start == m.start,
        spec_execute(s, m, insn).mem.bytes.len() == m.bytes.len(),
        spec_execute(s, m, insn).mem.prot == m.prot,
        spec_execute(s, m, insn).insn.rvc == insn.rvc,
{
}

/// An executed instruction ends its block only as a taken branch, a jump or
/// the environment call, and each of them records its exit.
pub proof fn lemma_block_end_recorded(s: StateView, m: MemView, insn: Insn)
    requires
        insn.cont == ends_block(insn.i_type),
    ensures
        spec_execute(s, m, insn).insn.cont ==> exit_recorded(spec_execute(s, m, insn).state),
{
}

/// After any instruction retires, integer register 0 reads as zero,
/// whatever the instruction wrote to it.
pub proof fn lemma_zero_register(s: StateView, m: MemView)
    requires
        s.wf(),
    ensures
        match spec_step(s, m) {
            StepOutcome::Retired { state, mem, ends } => {
                &&& state.gp[0] == 0
                &&& state.wf()
                &&& mem.start == m.start
                &&& mem.bytes.len() == m.bytes.len()
                &&& mem.prot == m.prot
                &&& ends ==> exit_recorded(state)
            },
            StepOutcome::Trapped(_) => true,
        },
{
    reveal(spec_step);
    match spec_fetch(m, s.pc) {
        Some(word) => {
            lemma_decoded_wf(word);
            match spec_decode(word) {
                Some(insn) => {
                    lemma_execute_preserves_shape(s, m, insn);
                    lemma_block_end_recorded(s, m, insn);
                },
                None => {},
            }
        },
        None => {},
    }
}

/// A block that ends without a trap has retired at least one instruction,
/// and no block retires more instructions than its budget.
pub proof fn lemma_block_used(s: StateView, m: MemView, steps: nat)
    ensures
        spec_block(s, m, steps).used <= steps,
        spec_block(s, m, steps).trap is None ==> spec_block(s, m, steps).used >= 1,
    decreases steps,
{
    reveal(spec_block);
    if steps > 0 {
        match spec_step(s, m) {
            StepOutcome::Retired { state, mem, ends } => {
                if !ends {
                    lemma_block_used(state, mem, (steps - 1) as nat);
                }
            },
            StepOutcome::Trapped(_) => {},
        }
    }
}

/// Of the run of a block: it retires no more instructions than its budget;
/// once one instruction has retired, integer register 0 reads as zero; and
/// a block that ends without a trap has retired an instruction and
/// recorded its exit.
pub proof fn lemma_block_run(s: StateView, m: MemView, steps: nat)
    requires
        s.wf(),
    ensures
        ({
            let b = spec_block(s, m, steps);
            &&& b.used <= steps
            &&& b.state.wf()
            &&& b.mem.start == m.start
            &&& b.mem.bytes.len() == m.bytes.len()
            &&& b.mem.prot == m.prot
            &&& b.used >= 1 ==> b.state.gp[0] == 0
            &&& s.gp[0] == 0 ==> b.state.gp[0] == 0
            &&& b.trap is None ==> b.used >= 1 && exit_recorded(b.state)
        }),
    decreases steps,
{
    reveal(spec_block);
    if steps > 0 {
        lemma_zero_register(s, m);
        match spec_step(s, m) {
            StepOutcome::Retired { state, mem, ends } => {
                if !ends {
                    lemma_block_run(state, mem, (steps - 1) as nat);
                }
            },
            StepOutcome::Trapped(_) => {},
        }
    }
}

/// An instruction that does not end its block leaves the exit record as
/// it was.
pub proof fn lemma_exit_record_kept(s: StateView, m: MemView, insn: Insn)
    requires
        insn.cont == ends_block(insn.i_type),
    ensures
        !spec_execute(s, m, insn).insn.cont ==> spec_execute(s, m, insn).state.exit_reason
            == s.exit_reason,
{
}

/// Of one turn of the loop: the budget is no trap of a single turn, and a
/// retired instruction that does not end the block leaves the exit record
/// as it was.
pub proof fn lemma_step_keeps_record(s: StateView, m: MemView)
    ensures
        match spec_step(s, m) {
            StepOutcome::Retired { state, mem, ends } => !ends ==> state.exit_reason
                == s.exit_reason,
            StepOutcome::Trapped(t) => t != Trap::OutOfSteps,
        },
{
    reveal(spec_step);
    match spec_fetch(m, s.pc) {
        Some(word) => {
            lemma_decoded_wf(word);
            match spec_decode(word) {
                Some(insn) => {
                    lemma_exit_record_kept(s, m, insn);
                },
                None => {},
            }
        },
        None => {},
    }
}

/// The budget does not change what a block computes.  A run that stops
/// because its budget of `a` instructions is used up has retired `a`
/// instructions and kept the exit record; continued with a budget of `b`
/// from where it stopped, it ends as the run with the budget `a + b`
/// does.  A run that ends otherwise ends the same way with any larger
/// budget.
pub proof fn lemma_block_resume(s: StateView, m: MemView, a: nat, b: nat)
    ensures
        ({
            let first = spec_block(s, m, a);
            let rest = spec_block(first.state, first.mem, b);
            if first.trap == Some(Trap::OutOfSteps) {
                &&& first.used == a
                &&& first.state.exit_reason == s.exit_reason
                &&& spec_block(s, m, a + b) == (BlockRun { used: a + rest.used, ..rest })
            } else {
                spec_block(s, m, a + b) == first
            }
        }),
    decreases a,
{
    reveal(spec_block);
    if a > 0 {
        lemma_step_keeps_record(s, m);
        match spec_step(s, m) {
            StepOutcome::Retired { state, mem, ends } => {
                if !ends {
                    lemma_block_resume(state, mem, (a - 1) as nat, b);
                    assert((a - 1) as nat + b == (a + b - 1) as nat);
                }
            },
            StepOutcome::Trapped(_) => {},
        }
    } else {
        let rest = spec_block(s, m, b);
        assert(spec_block(s, m, 0 + b) == (BlockRun { used: 0 + rest.used, ..rest }));
    }
}

/// Division and remainder have a result for every pair of operands: a zero
/// divisor gives the quotient -1 (all ones) and the dividend as remainder;
/// the one overflowing signed quotient gives the dividend as quotient and
/// the remainder 0.
pub proof fn lemma_division_edge_cases(x: u64)
    ensures
        alu_reg(InsnType::InsnDiv, x, 0) == u64::MAX,
        signed64(alu_reg(InsnType::InsnDiv, x, 0)) == -1,
        alu_reg(InsnType::InsnDivu, x, 0) == u64::MAX,
        alu_reg(InsnType::InsnRem, x, 0) == x,
        alu_reg(InsnType::InsnRemu, x, 0) == x,
        signed64(0x8000_0000_0000_0000) == i64::MIN,
        signed64(u64::MAX) == -1,
        alu_reg(InsnType::InsnDiv, 0x8000_0000_0000_0000, u64::MAX) == 0x8000_0000_0000_0000,
        alu_reg(InsnType::InsnRem, 0x8000_0000_0000_0000, u64::MAX) == 0,
{
}

proof fn lemma_halfword(c: u16)
    by (bit_vector)
    ensures
        ((c as u32) & 0xffff) as u16 == c,
        (c as u32) & 0xffff == c as u32,
{
}

/// The 16-bit instruction that adds a scaled immediate to the stack pointer
/// does what its 32-bit expansion `ADDI rd, sp, imm` does.  For every valid
/// 16-bit word `c` of that form, `c` and the I-type word with the same
/// destination, the stack pointer as source and the same immediate decode
/// to the same instruction but for the width of the encoding, and
/// executing either leaves the same registers and memory.
pub proof fn lemma_addi4spn_expansion(c: u16, s: StateView, m: MemView)
    requires
        spec_quadrant(c as u32) == 0x0,
        spec_cop_code(c as u32) == 0x0,
        spec_ciwtype(c).imm != 0,
    ensures
        ({
            let short = spec_decode(c as u32);
            let long = spec_decode(
                encode_itype(spec_ciwtype(c).imm, 2, 0, spec_ciwtype(c).rd as u32, 0x13),
            );
            &&& short is Some
            &&& long is Some
            &&& short->0 == (Insn {
                i_type: InsnType::InsnAddi,
                rs1: SP,
                ..spec_ciwtype(c)
            })
            &&& long->0 == (Insn { rvc: false, ..short->0 })
            &&& spec_execute(s, m, short->0).state == spec_execute(s, m, long->0).state
            &&& spec_execute(s, m, short->0).mem == spec_execute(s, m, long->0).mem
        }),
{
    let imm = spec_ciwtype(c).imm;
    let rd = spec_ciwtype(c).rd as u32;
    lemma_halfword(c);
    lemma_imm_bits_bounds(c as u32);
    lemma_field_bound(c as u32, 2, 0x7);
    lemma_itype_fields(imm, 2, 0, rd, 0x13);
    let w = encode_itype(imm, 2, 0, rd, 0x13);
    assert(spec_itype(w) == (Insn { rd: rd as i8, rs1: 2, imm, ..Insn::blank() }));
}

} // verus!
