use rvemu_rs::decode::insn_try_decode;
use rvemu_rs::interp::{
    exec_block_interp, exec_insn, exec_step, fetch, func_add, func_addi, func_addiw, func_addw,
    func_and, func_andi, func_auipc, func_beq, func_bge, func_bgeu, func_blt, func_bltu,
    func_bne, func_csrrs, func_div, func_divu, func_divuw, func_divw, func_ecall, func_empty,
    func_fclass_d, func_fclass_s, func_fld, func_flw, func_fmv_d_x, func_fmv_w_x,
    func_fmv_x_d, func_fmv_x_w, func_fsd, func_fsgnj_d, func_fsgnj_s, func_fsgnjn_d,
    func_fsgnjn_s, func_fsgnjx_d, func_fsgnjx_s, func_fsw, func_jal, func_jalr, func_lb,
    func_lbu, func_ld, func_lh, func_lhu, func_lui, func_lw, func_lwu, func_mul, func_mulh,
    func_mulhsu, func_mulhu, func_mulw, func_or, func_ori, func_rem, func_remu, func_remuw,
    func_remw, func_sb, func_sd, func_sh, func_sll, func_slli, func_slliw, func_sllw,
    func_slt, func_slti, func_sltiu, func_sltu, func_sra, func_srai, func_sraiw, func_sraw,
    func_srl, func_srli, func_srliw, func_srlw, func_sub, func_subw, func_sw, func_xor,
    func_xori, float_complete, float_operands, float_write_back, insn_class, insn_retire,
    InsnClass, Trap,
};
use rvemu_rs::memory::GuestMemory;
use rvemu_rs::rvemu::{ExitReason, Insn, InsnType, State};

const BASE: u64 = 0x1_0000;

fn memory(len: usize) -> GuestMemory {
    GuestMemory { start: BASE, bytes: vec![0; len], prot: vec![3; len] }
}

fn memory_with(words: &[u32]) -> GuestMemory {
    let mut bytes = Vec::new();
    for w in words {
        bytes.extend_from_slice(&w.to_le_bytes());
    }
    let prot = vec![7; bytes.len()];
    GuestMemory { start: BASE, bytes, prot }
}

fn insn(rd: i8, rs1: i8, rs2: i8, imm: i32) -> Insn {
    let mut i = Insn::new();
    i.rd = rd;
    i.rs1 = rs1;
    i.rs2 = rs2;
    i.imm = imm;
    i
}

fn imm_op(f: fn(&mut State, &mut Insn), a: u64, imm: i32) -> u64 {
    let mut state = State::new();
    state.gp_regs[5] = a;
    let mut i = insn(6, 5, 0, imm);
    f(&mut state, &mut i);
    assert_eq!(i, insn(6, 5, 0, imm));
    assert_eq!(state.gp_regs[5], a);
    state.gp_regs[6]
}

fn reg_op(f: fn(&mut State, &mut Insn), a: u64, b: u64) -> u64 {
    let mut state = State::new();
    state.gp_regs[5] = a;
    state.gp_regs[7] = b;
    let mut i = insn(6, 5, 7, 0);
    f(&mut state, &mut i);
    assert_eq!(i, insn(6, 5, 7, 0));
    state.gp_regs[6]
}

fn branches(f: fn(&mut State, &mut Insn), a: u64, b: u64) -> bool {
    let mut state = State::new();
    state.pc = 0x1000;
    state.gp_regs[5] = a;
    state.gp_regs[7] = b;
    let mut i = insn(0, 5, 7, -16);
    f(&mut state, &mut i);
    if i.cont {
        assert_eq!(state.pc, 0xff0);
        assert_eq!(state.reenter_pc, 0xff0);
        assert_eq!(state.exit_reason, ExitReason::DirectBranch);
    } else {
        assert_eq!(state.pc, 0x1000);
        assert_eq!(state.reenter_pc, 0);
        assert_eq!(state.exit_reason, ExitReason::NoExit);
    }
    i.cont
}

const MIN: u64 = 0x8000_0000_0000_0000;

#[test]
fn register_immediate_operations() {
    assert_eq!(imm_op(func_addi, 5, 37), 42);
    assert_eq!(imm_op(func_addi, 5, -6), u64::MAX);
    assert_eq!(imm_op(func_addi, u64::MAX, 1), 0);
    assert_eq!(imm_op(func_slli, 1, 63), MIN);
    assert_eq!(imm_op(func_slli, 3, 1), 6);
    // the shift amount is the low six bits, also of a negative immediate
    assert_eq!(imm_op(func_slli, 1, -24), 1 << 40);
    assert_eq!(imm_op(func_slti, u64::MAX, 0), 1);
    assert_eq!(imm_op(func_slti, 1, -1), 0);
    assert_eq!(imm_op(func_sltiu, u64::MAX, 0), 0);
    assert_eq!(imm_op(func_sltiu, 1, -1), 1);
    assert_eq!(imm_op(func_xori, 0xff, -1), !0xffu64);
    assert_eq!(imm_op(func_srli, MIN, 63), 1);
    assert_eq!(imm_op(func_srai, MIN, 63), u64::MAX);
    assert_eq!(imm_op(func_srai, 0x4000_0000_0000_0000, 0x400 | 62), 1);
    assert_eq!(imm_op(func_ori, 0xf0, 0x0f), 0xff);
    assert_eq!(imm_op(func_andi, 0xff, -16), 0xf0);
    assert_eq!(imm_op(func_addiw, 0x7fff_ffff, 1), 0xffff_ffff_8000_0000);
    assert_eq!(imm_op(func_addiw, 0x1_0000_0000, 0), 0);
    assert_eq!(imm_op(func_slliw, 1, 31), 0xffff_ffff_8000_0000);
    assert_eq!(imm_op(func_slliw, 0xffff_ffff_0000_0001, 4), 16);
    assert_eq!(imm_op(func_srliw, 0xffff_ffff_8000_0000, 31), 1);
    assert_eq!(imm_op(func_srliw, 0x8000_0000, 0), 0xffff_ffff_8000_0000);
    assert_eq!(imm_op(func_sraiw, 0x8000_0000, 0x400 | 31), u64::MAX);
    assert_eq!(imm_op(func_sraiw, 0x4000_0000, 0x400 | 30), 1);
}

#[test]
fn register_register_operations() {
    assert_eq!(reg_op(func_add, u64::MAX, 2), 1);
    assert_eq!(reg_op(func_sub, 1, 2), u64::MAX);
    assert_eq!(reg_op(func_sll, 1, 64 + 3), 8);
    assert_eq!(reg_op(func_slt, u64::MAX, 1), 1);
    assert_eq!(reg_op(func_slt, 1, u64::MAX), 0);
    assert_eq!(reg_op(func_sltu, u64::MAX, 1), 0);
    assert_eq!(reg_op(func_sltu, 1, u64::MAX), 1);
    assert_eq!(reg_op(func_xor, 0b1100, 0b1010), 0b0110);
    assert_eq!(reg_op(func_or, 0b1100, 0b1010), 0b1110);
    assert_eq!(reg_op(func_and, 0b1100, 0b1010), 0b1000);
    assert_eq!(reg_op(func_srl, MIN, 63), 1);
    assert_eq!(reg_op(func_sra, MIN, 63), u64::MAX);
    assert_eq!(reg_op(func_sra, MIN, 64 + 62), (-2i64) as u64);
    assert_eq!(reg_op(func_mul, u64::MAX, u64::MAX), 1);
    assert_eq!(reg_op(func_mul, 0x1_0000_0000, 0x1_0000_0000), 0);
    assert_eq!(reg_op(func_mulh, u64::MAX, u64::MAX), 0);
    assert_eq!(reg_op(func_mulh, u64::MAX, 2), u64::MAX);
    assert_eq!(reg_op(func_mulhu, u64::MAX, u64::MAX), u64::MAX - 1);
    assert_eq!(reg_op(func_mulhsu, u64::MAX, u64::MAX), u64::MAX);
    assert_eq!(reg_op(func_mulhsu, 2, u64::MAX), 1);
    assert_eq!(reg_op(func_addw, 0x7fff_ffff, 1), 0xffff_ffff_8000_0000);
    assert_eq!(reg_op(func_subw, 0, 1), u64::MAX);
    assert_eq!(reg_op(func_subw, 0x1_0000_0005, 3), 2);
    assert_eq!(reg_op(func_sllw, 1, 32 + 31), 0xffff_ffff_8000_0000);
    assert_eq!(reg_op(func_srlw, 0x8000_0000, 31), 1);
    assert_eq!(reg_op(func_sraw, 0x8000_0000, 31), u64::MAX);
    assert_eq!(reg_op(func_mulw, 0x1_0001, 0x1_0001), 0x2_0001);
    assert_eq!(reg_op(func_mulw, 0x8000_0000, 1), 0xffff_ffff_8000_0000);
}

#[test]
fn division_by_zero_has_a_result() {
    for x in [0u64, 1, 42, MIN, u64::MAX, 0x1234_5678_9abc_def0] {
        assert_eq!(reg_op(func_div, x, 0), u64::MAX);
        assert_eq!(reg_op(func_divu, x, 0), u64::MAX);
        assert_eq!(reg_op(func_rem, x, 0), x);
        assert_eq!(reg_op(func_remu, x, 0), x);
        assert_eq!(reg_op(func_divw, x, 0), u64::MAX);
        assert_eq!(reg_op(func_divuw, x, 0), u64::MAX);
        assert_eq!(reg_op(func_remw, x, 0), (x as i32) as i64 as u64);
        assert_eq!(reg_op(func_remuw, x, 0), (x as i32) as i64 as u64);
    }
}

#[test]
fn division_overflow_has_a_result() {
    assert_eq!(reg_op(func_div, MIN, u64::MAX), MIN);
    assert_eq!(reg_op(func_rem, MIN, u64::MAX), 0);
    assert_eq!(reg_op(func_divw, 0x8000_0000, 0xffff_ffff), 0xffff_ffff_8000_0000);
    assert_eq!(reg_op(func_remw, 0x8000_0000, 0xffff_ffff), 0);
}

#[test]
fn division_is_signed_or_unsigned_as_named() {
    let minus_seven = (-7i64) as u64;
    let minus_two = (-2i64) as u64;
    assert_eq!(reg_op(func_div, minus_seven, 2), (-3i64) as u64);
    assert_eq!(reg_op(func_div, 7, minus_two), (-3i64) as u64);
    assert_eq!(reg_op(func_div, minus_seven, minus_two), 3);
    assert_eq!(reg_op(func_rem, minus_seven, 2), u64::MAX);
    assert_eq!(reg_op(func_rem, 7, minus_two), 1);
    assert_eq!(reg_op(func_divu, minus_seven, 2), 0x7fff_ffff_ffff_fffc);
    assert_eq!(reg_op(func_remu, minus_seven, 2), 1);
    assert_eq!(reg_op(func_divw, minus_seven, 2), (-3i64) as u64);
    assert_eq!(reg_op(func_remw, minus_seven, 2), u64::MAX);
    assert_eq!(reg_op(func_divuw, 0xffff_fff9, 2), 0x7fff_fffc);
    assert_eq!(reg_op(func_divuw, 0xffff_ffff, 1), u64::MAX);
    assert_eq!(reg_op(func_remuw, 0xffff_fff9, 2), 1);
}

#[test]
fn blt_is_signed_and_bltu_is_unsigned() {
    assert!(branches(func_blt, u64::MAX, 1));
    assert!(!branches(func_bltu, u64::MAX, 1));
    assert!(!branches(func_bge, u64::MAX, 1));
    assert!(branches(func_bgeu, u64::MAX, 1));
}

#[test]
fn branch_relations() {
    assert!(branches(func_beq, 3, 3));
    assert!(!branches(func_beq, 3, 4));
    assert!(branches(func_bne, 3, 4));
    assert!(!branches(func_bne, 3, 3));
    assert!(branches(func_blt, 3, 4));
    assert!(!branches(func_blt, 4, 4));
    assert!(branches(func_bge, 4, 4));
    assert!(branches(func_bge, 1, u64::MAX));
    assert!(branches(func_bltu, 3, u64::MAX));
    assert!(branches(func_bgeu, 4, 4));
    assert!(!branches(func_bgeu, 3, 4));
}

#[test]
fn upper_immediates() {
    let mut state = State::new();
    state.pc = 0x1000;
    func_lui(&mut state, &mut insn(6, 0, 0, 0x1234_5000));
    assert_eq!(state.gp_regs[6], 0x1234_5000);
    func_lui(&mut state, &mut insn(6, 0, 0, -4096));
    assert_eq!(state.gp_regs[6], 0xffff_ffff_ffff_f000);
    func_auipc(&mut state, &mut insn(7, 0, 0, 0x2000));
    assert_eq!(state.gp_regs[7], 0x3000);
    func_auipc(&mut state, &mut insn(7, 0, 0, -4096));
    assert_eq!(state.gp_regs[7], 0);
    assert_eq!(state.pc, 0x1000);
}

#[test]
fn loads_extend_as_named() {
    let mut mem = memory(64);
    mem.bytes[8..16].copy_from_slice(&0x8877_6655_f433_e2f1u64.to_le_bytes());
    let mut state = State::new();
    state.gp_regs[5] = BASE + 16;
    let mut i = insn(6, 5, 0, -8);
    func_lb(&mut state, &mem, &mut i);
    assert_eq!(state.gp_regs[6], 0xffff_ffff_ffff_fff1);
    func_lbu(&mut state, &mem, &mut i);
    assert_eq!(state.gp_regs[6], 0xf1);
    func_lh(&mut state, &mem, &mut i);
    assert_eq!(state.gp_regs[6], 0xffff_ffff_ffff_e2f1);
    func_lhu(&mut state, &mem, &mut i);
    assert_eq!(state.gp_regs[6], 0xe2f1);
    func_lw(&mut state, &mem, &mut i);
    assert_eq!(state.gp_regs[6], 0xffff_ffff_f433_e2f1);
    func_lwu(&mut state, &mem, &mut i);
    assert_eq!(state.gp_regs[6], 0xf433_e2f1);
    func_ld(&mut state, &mem, &mut i);
    assert_eq!(state.gp_regs[6], 0x8877_6655_f433_e2f1);
    let mut i = insn(6, 5, 0, -6);
    func_lb(&mut state, &mem, &mut i);
    assert_eq!(state.gp_regs[6], 0x33);
    func_lh(&mut state, &mem, &mut i);
    assert_eq!(state.gp_regs[6], 0xffff_ffff_ffff_f433);
}

#[test]
fn float_loads_and_stores_move_bits() {
    let mut mem = memory(64);
    mem.bytes[8..16].copy_from_slice(&0x8877_6655_f433_e2f1u64.to_le_bytes());
    let mut state = State::new();
    state.gp_regs[5] = BASE;
    func_flw(&mut state, &mem, &mut insn(3, 5, 0, 8));
    assert_eq!(state.fp_regs[3].v, 0xffff_ffff_f433_e2f1);
    func_fld(&mut state, &mem, &mut insn(4, 5, 0, 8));
    assert_eq!(state.fp_regs[4].v, 0x8877_6655_f433_e2f1);
    state.fp_regs[9].v = 0x0102_0304_0506_0708;
    func_fsw(&mut state, &mut mem, &mut insn(0, 5, 9, 32));
    assert_eq!(&mem.bytes[32..40], &[8, 7, 6, 5, 0, 0, 0, 0]);
    func_fsd(&mut state, &mut mem, &mut insn(0, 5, 9, 40));
    assert_eq!(&mem.bytes[40..48], &[8, 7, 6, 5, 4, 3, 2, 1]);
}

#[test]
fn stores_write_the_low_bytes() {
    let mut mem = memory(64);
    let mut state = State::new();
    state.gp_regs[5] = BASE + 8;
    state.gp_regs[7] = 0x1122_3344_5566_7788;
    func_sb(&mut state, &mut mem, &mut insn(0, 5, 7, 0));
    assert_eq!(&mem.bytes[8..16], &[0x88, 0, 0, 0, 0, 0, 0, 0]);
    func_sh(&mut state, &mut mem, &mut insn(0, 5, 7, 8));
    assert_eq!(&mem.bytes[16..24], &[0x88, 0x77, 0, 0, 0, 0, 0, 0]);
    func_sw(&mut state, &mut mem, &mut insn(0, 5, 7, 16));
    assert_eq!(&mem.bytes[24..32], &[0x88, 0x77, 0x66, 0x55, 0, 0, 0, 0]);
    func_sd(&mut state, &mut mem, &mut insn(0, 5, 7, 24));
    assert_eq!(&mem.bytes[32..40], &[0x88, 0x77, 0x66, 0x55, 0x44, 0x33, 0x22, 0x11]);
    assert!(mem.bytes[40..].iter().all(|b| *b == 0));
    assert!(mem.bytes[..8].iter().all(|b| *b == 0));
    assert_eq!(state.gp_regs[7], 0x1122_3344_5566_7788);
}

#[test]
fn jal_links_and_jumps() {
    let mut state = State::new();
    state.pc = 0x1000;
    let mut i = insn(1, 0, 0, -8);
    func_jal(&mut state, &mut i);
    assert_eq!(state.gp_regs[1], 0x1004);
    assert_eq!(state.pc, 0xff8);
    assert_eq!(state.reenter_pc, 0xff8);
    assert_eq!(state.exit_reason, ExitReason::IndirectBranch);
    let mut state = State::new();
    state.pc = 0x1000;
    let mut i = insn(1, 0, 0, 6);
    i.rvc = true;
    func_jal(&mut state, &mut i);
    assert_eq!(state.gp_regs[1], 0x1002);
    assert_eq!(state.reenter_pc, 0x1006);
}

#[test]
fn jalr_clears_bit_zero_of_the_target() {
    let mut state = State::new();
    state.pc = 0x1000;
    state.gp_regs[5] = 0x2001;
    let mut i = insn(1, 5, 0, 4);
    func_jalr(&mut state, &mut i);
    assert_eq!(state.gp_regs[1], 0x1004);
    assert_eq!(state.reenter_pc, 0x2004);
    assert_eq!(state.pc, 0x1000);
    assert_eq!(state.exit_reason, ExitReason::IndirectBranch);
    // the source is read before the link is written
    let mut state = State::new();
    state.pc = 0x1000;
    state.gp_regs[1] = 0x3000;
    let mut i = insn(1, 1, 0, -1);
    i.rvc = true;
    func_jalr(&mut state, &mut i);
    assert_eq!(state.gp_regs[1], 0x1002);
    assert_eq!(state.reenter_pc, 0x2ffe);
    // the sum wraps at 64 bits
    let mut state = State::new();
    state.gp_regs[5] = u64::MAX;
    func_jalr(&mut state, &mut insn(0, 5, 0, 3));
    assert_eq!(state.reenter_pc, 2);
}

#[test]
fn ecall_records_the_exit() {
    let mut state = State::new();
    state.pc = 0x1000;
    func_ecall(&mut state, &mut Insn::new());
    assert_eq!(state.exit_reason, ExitReason::Ecall);
    assert_eq!(state.reenter_pc, 0x1004);
    assert_eq!(state.pc, 0x1000);
}

#[test]
fn csr_reads_zero() {
    let mut state = State::new();
    state.gp_regs[6] = 77;
    let mut i = insn(6, 0, 0, 0);
    i.csr = 2;
    func_csrrs(&mut state, &mut i);
    assert_eq!(state.gp_regs[6], 0);
}

#[test]
fn unsupported_csr_traps() {
    let mut state = State::new();
    state.gp_regs[6] = 77;
    let mut mem = memory(8);
    let mut i = insn(6, 0, 0, 0);
    i.csr = 3;
    i.i_type = InsnType::InsnCsrrw;
    assert_eq!(exec_insn(&mut state, &mut mem, &mut i), Some(Trap::UnsupportedCsr(3)));
    assert_eq!(state.gp_regs[6], 77);
    i.csr = 1;
    assert_eq!(exec_insn(&mut state, &mut mem, &mut i), None);
    assert_eq!(state.gp_regs[6], 0);
}

#[test]
fn fence_changes_nothing() {
    let mut state = State::new();
    state.gp_regs[3] = 9;
    state.pc = 44;
    func_empty(&mut state, &mut Insn::new());
    assert_eq!(state.gp_regs[3], 9);
    assert_eq!(state.pc, 44);
}

#[test]
fn float_bit_operations() {
    let mut state = State::new();
    state.fp_regs[1].v = 0xffff_ffff_0000_0000 | 1.0f32.to_bits() as u64;
    state.fp_regs[2].v = 0xffff_ffff_0000_0000 | (-2.0f32).to_bits() as u64;
    func_fsgnj_s(&mut state, &mut insn(3, 1, 2, 0));
    assert_eq!(state.fp_regs[3].v, 0xffff_ffff_0000_0000 | (-1.0f32).to_bits() as u64);
    func_fsgnjn_s(&mut state, &mut insn(3, 1, 2, 0));
    assert_eq!(state.fp_regs[3].v, 0xffff_ffff_0000_0000 | 1.0f32.to_bits() as u64);
    func_fsgnjx_s(&mut state, &mut insn(3, 2, 2, 0));
    assert_eq!(state.fp_regs[3].v, 0xffff_ffff_0000_0000 | 2.0f32.to_bits() as u64);
    state.fp_regs[1].v = 1.0f64.to_bits();
    state.fp_regs[2].v = (-2.0f64).to_bits();
    func_fsgnj_d(&mut state, &mut insn(3, 1, 2, 0));
    assert_eq!(state.fp_regs[3].v, (-1.0f64).to_bits());
    func_fsgnjn_d(&mut state, &mut insn(3, 1, 2, 0));
    assert_eq!(state.fp_regs[3].v, 1.0f64.to_bits());
    func_fsgnjx_d(&mut state, &mut insn(3, 2, 2, 0));
    assert_eq!(state.fp_regs[3].v, 2.0f64.to_bits());
}

#[test]
fn float_moves_and_classification() {
    let mut state = State::new();
    state.fp_regs[1].v = 0x1234_5678_8000_0001;
    func_fmv_x_w(&mut state, &mut insn(6, 1, 0, 0));
    assert_eq!(state.gp_regs[6], 0xffff_ffff_8000_0001);
    func_fmv_x_d(&mut state, &mut insn(6, 1, 0, 0));
    assert_eq!(state.gp_regs[6], 0x1234_5678_8000_0001);
    state.gp_regs[5] = 0x1111_2222_3333_4444;
    func_fmv_w_x(&mut state, &mut insn(2, 5, 0, 0));
    assert_eq!(state.fp_regs[2].v, 0xffff_ffff_3333_4444);
    func_fmv_d_x(&mut state, &mut insn(2, 5, 0, 0));
    assert_eq!(state.fp_regs[2].v, 0x1111_2222_3333_4444);
    state.fp_regs[1].v = 0xffff_ffff_0000_0000 | f32::INFINITY.to_bits() as u64;
    func_fclass_s(&mut state, &mut insn(6, 1, 0, 0));
    assert_eq!(state.gp_regs[6], 1 << 7);
    state.fp_regs[1].v = (-0.0f64).to_bits();
    func_fclass_d(&mut state, &mut insn(6, 1, 0, 0));
    assert_eq!(state.gp_regs[6], 1 << 3);
}

#[test]
fn classes_of_operations() {
    assert_eq!(insn_class(InsnType::InsnLb), InsnClass::Load);
    assert_eq!(insn_class(InsnType::InsnFld), InsnClass::Load);
    assert_eq!(insn_class(InsnType::InsnFsw), InsnClass::Store);
    assert_eq!(insn_class(InsnType::InsnSraiw), InsnClass::AluImm);
    assert_eq!(insn_class(InsnType::InsnRemuw), InsnClass::AluReg);
    assert_eq!(insn_class(InsnType::InsnBgeu), InsnClass::Branch);
    assert_eq!(insn_class(InsnType::InsnFence), InsnClass::NoEffect);
    assert_eq!(insn_class(InsnType::InsnFclassD), InsnClass::FpBits);
    assert_eq!(insn_class(InsnType::InsnFaddS), InsnClass::FloatArith);
    assert_eq!(insn_class(InsnType::InsnFcvtDLu), InsnClass::FloatArith);
    assert_eq!(insn_class(InsnType::InsnCsrrci), InsnClass::Csr);
}

#[test]
fn fetch_reads_two_or_four_bytes() {
    let mut mem = memory(6);
    mem.bytes.copy_from_slice(&[0x13, 0x05, 0xa0, 0x02, 0x41, 0x11]);
    assert_eq!(fetch(&mem, BASE), Some(0x02a0_0513));
    // a 16-bit instruction in the last two bytes
    assert_eq!(fetch(&mem, BASE + 4), Some(0x1141));
    // the low half decides the width: 0x02a0 is a 16-bit encoding
    assert_eq!(fetch(&mem, BASE + 2), Some(0x02a0));
    assert_eq!(fetch(&mem, BASE + 6), None);
    assert_eq!(fetch(&mem, BASE + 5), None);
    assert_eq!(fetch(&mem, BASE - 1), None);
    assert_eq!(fetch(&mem, u64::MAX), None);
    // a 32-bit instruction cut off by the end of memory
    let mut mem = memory(2);
    mem.bytes.copy_from_slice(&[0x13, 0x05]);
    assert_eq!(fetch(&mem, BASE), None);
}

#[test]
fn register_zero_stays_zero() {
    // addi zero, zero, 5; lui zero, 1; jal zero, 0
    let mut mem = memory_with(&[0x0050_0013, 0x0000_1037, 0x0000_006f]);
    let mut state = State::new();
    state.pc = BASE;
    assert_eq!(exec_step(&mut state, &mut mem), Ok(false));
    assert_eq!(state.gp_regs[0], 0);
    assert_eq!(state.pc, BASE + 4);
    assert_eq!(exec_step(&mut state, &mut mem), Ok(false));
    assert_eq!(state.gp_regs[0], 0);
    assert_eq!(exec_step(&mut state, &mut mem), Ok(true));
    assert_eq!(state.gp_regs[0], 0);
}

#[test]
fn register_zero_is_reset_after_a_direct_write() {
    let mut state = State::new();
    let mut i = insn(0, 0, 0, 5);
    func_addi(&mut state, &mut i);
    assert_eq!(state.gp_regs[0], 5);
    assert!(!insn_retire(&mut state, &i));
    assert_eq!(state.gp_regs[0], 0);
    assert_eq!(state.pc, 4);
}

#[test]
fn retire_advances_by_the_width() {
    let mut state = State::new();
    state.pc = 0x1000;
    let mut i = Insn::new();
    i.rvc = true;
    assert!(!insn_retire(&mut state, &i));
    assert_eq!(state.pc, 0x1002);
    i.rvc = false;
    assert!(!insn_retire(&mut state, &i));
    assert_eq!(state.pc, 0x1006);
    i.cont = true;
    assert!(insn_retire(&mut state, &i));
    assert_eq!(state.pc, 0x1006);
    state.pc = u64::MAX - 1;
    i.cont = false;
    insn_retire(&mut state, &i);
    assert_eq!(state.pc, 2);
}

#[test]
fn compressed_addi4spn_acts_like_its_expansion() {
    // c.addi4spn a0, sp, 16 against addi a0, sp, 16
    let short = insn_try_decode(0x0808).unwrap();
    let long = insn_try_decode(0x0101_0513).unwrap();
    assert_eq!((long.i_type, long.rd, long.rs1, long.imm), (InsnType::InsnAddi, 10, 2, 16));
    let mut a = State::new();
    let mut b = State::new();
    a.gp_regs[2] = 0x7fff_0000;
    b.gp_regs[2] = 0x7fff_0000;
    let mut mem_a = memory(16);
    let mut mem_b = memory(16);
    let mut short_insn = short;
    let mut long_insn = long;
    assert_eq!(exec_insn(&mut a, &mut mem_a, &mut short_insn), None);
    assert_eq!(exec_insn(&mut b, &mut mem_b, &mut long_insn), None);
    assert_eq!(a.gp_regs, b.gp_regs);
    assert_eq!(a.gp_regs[10], 0x7fff_0010);
    assert_eq!(a.fp_regs, b.fp_regs);
    assert_eq!(mem_a.bytes, mem_b.bytes);
    assert_eq!(a.pc, b.pc);
}

#[test]
fn block_runs_to_the_control_transfer() {
    // addi a0, zero, 42; c.addi a0, 1; ecall
    let mut mem = memory(10);
    mem.bytes.copy_from_slice(&[0x13, 0x05, 0xa0, 0x02, 0x05, 0x05, 0x73, 0x00, 0x00, 0x00]);
    let mut state = State::new();
    state.pc = BASE;
    assert_eq!(exec_block_interp(&mut state, &mut mem, 100), (3, None));
    assert_eq!(state.gp_regs[10], 43);
    assert_eq!(state.exit_reason, ExitReason::Ecall);
    assert_eq!(state.pc, BASE + 6);
    assert_eq!(state.reenter_pc, BASE + 10);
}

#[test]
fn block_stops_when_the_budget_is_used() {
    let mut mem = memory_with(&[0x0015_0513, 0x0015_0513, 0x0015_0513, 0x0000_0073]);
    let mut state = State::new();
    state.pc = BASE;
    assert_eq!(exec_block_interp(&mut state, &mut mem, 2), (2, Some(Trap::OutOfSteps)));
    assert_eq!(state.gp_regs[10], 2);
    assert_eq!(state.pc, BASE + 8);
    assert_eq!(exec_block_interp(&mut state, &mut mem, 0), (0, Some(Trap::OutOfSteps)));
    assert_eq!(exec_block_interp(&mut state, &mut mem, 5), (2, None));
    assert_eq!(state.gp_regs[10], 3);
}

#[test]
fn traps_leave_the_machine_unchanged() {
    // ld a0, 0(a1) with a1 outside memory
    let mut mem = memory_with(&[0x0005_b503, 0xffff_ffff, 0x00c5_f553]);
    let mut state = State::new();
    state.pc = BASE;
    state.gp_regs[11] = 0x10;
    assert_eq!(exec_step(&mut state, &mut mem), Err(Trap::MemoryFault(0x10)));
    assert_eq!(state.pc, BASE);
    assert_eq!(state.gp_regs[10], 0);
    // an access that ends one byte past the window
    state.gp_regs[11] = BASE + 5;
    assert_eq!(exec_step(&mut state, &mut mem), Err(Trap::MemoryFault(BASE + 5)));
    state.gp_regs[11] = BASE + 4;
    assert_eq!(exec_step(&mut state, &mut mem), Ok(false));
    assert_eq!(state.gp_regs[10], 0x00c5_f553_ffff_ffff);
    assert_eq!(exec_step(&mut state, &mut mem), Err(Trap::IllegalInstruction(0xffff_ffff)));
    assert_eq!(state.pc, BASE + 4);
    state.pc = BASE + 8;
    let float_add = insn_try_decode(0x00c5_f553).unwrap();
    assert_eq!(exec_step(&mut state, &mut mem), Err(Trap::FloatUnit(float_add)));
    assert_eq!(state.pc, BASE + 8);
    state.pc = BASE + 12;
    assert_eq!(exec_step(&mut state, &mut mem), Err(Trap::FetchFault(BASE + 12)));
    assert_eq!(exec_block_interp(&mut state, &mut mem, 9), (0, Some(Trap::FetchFault(BASE + 12))));
}

#[test]
fn store_fault_writes_nothing() {
    // sd a0, 0(a1)
    let mut mem = memory_with(&[0x00a5_b023, 0]);
    let before = mem.bytes.clone();
    let mut state = State::new();
    state.pc = BASE;
    state.gp_regs[10] = u64::MAX;
    state.gp_regs[11] = BASE + 1;
    assert_eq!(exec_step(&mut state, &mut mem), Err(Trap::MemoryFault(BASE + 1)));
    assert_eq!(mem.bytes, before);
    state.gp_regs[11] = u64::MAX - 3;
    assert_eq!(exec_step(&mut state, &mut mem), Err(Trap::MemoryFault(u64::MAX - 3)));
    assert_eq!(mem.bytes, before);
}

#[test]
fn taken_branch_ends_the_block() {
    // addi a0, a0, 1; bne a0, a1, -4
    let mut mem = memory_with(&[0x0015_0513, 0xfeb5_1ee3, 0x0000_0073]);
    let mut state = State::new();
    state.pc = BASE;
    state.gp_regs[11] = 2;
    assert_eq!(exec_block_interp(&mut state, &mut mem, 100), (2, None));
    assert_eq!(state.exit_reason, ExitReason::DirectBranch);
    assert_eq!(state.pc, BASE);
    assert_eq!(state.reenter_pc, BASE);
    // the second turn falls through the branch to the ecall
    state.exit_reason = ExitReason::NoExit;
    assert_eq!(exec_block_interp(&mut state, &mut mem, 100), (3, None));
    assert_eq!(state.exit_reason, ExitReason::Ecall);
    assert_eq!(state.gp_regs[10], 2);
}

fn float_insn(kind: InsnType, rd: i8, rs1: i8, rs2: i8, rs3: i8) -> Insn {
    let mut i = insn(rd, rs1, rs2, 0);
    i.rs3 = rs3;
    i.i_type = kind;
    i
}

#[test]
fn float_unit_gets_the_operands() {
    let mut state = State::new();
    state.fp_regs[1].v = 11;
    state.fp_regs[2].v = 22;
    state.fp_regs[3].v = 33;
    state.gp_regs[1] = 44;
    let i = float_insn(InsnType::InsnFmaddD, 4, 1, 2, 3);
    assert_eq!(float_operands(&state, &i), (11, 22, 33));
    let i = float_insn(InsnType::InsnFcvtWS, 4, 1, 0, 0);
    assert_eq!(float_operands(&state, &i), (11, 0, 0));
    for kind in [
        InsnType::InsnFcvtSW,
        InsnType::InsnFcvtSWu,
        InsnType::InsnFcvtSL,
        InsnType::InsnFcvtSLu,
        InsnType::InsnFcvtDW,
        InsnType::InsnFcvtDWu,
        InsnType::InsnFcvtDL,
        InsnType::InsnFcvtDLu,
    ] {
        let i = float_insn(kind, 4, 1, 2, 3);
        assert_eq!(float_operands(&state, &i), (44, 22, 33));
    }
}

#[test]
fn float_results_go_to_the_right_file() {
    let bits = 0x1234_5678_9abc_def0u64;
    let mut state = State::new();
    float_write_back(&mut state, &float_insn(InsnType::InsnFaddD, 4, 1, 2, 0), bits);
    assert_eq!(state.fp_regs[4].v, bits);
    assert_eq!(state.gp_regs[4], 0);
    float_write_back(&mut state, &float_insn(InsnType::InsnFaddS, 5, 1, 2, 0), bits);
    assert_eq!(state.fp_regs[5].v, 0xffff_ffff_9abc_def0);
    float_write_back(&mut state, &float_insn(InsnType::InsnFcvtSD, 6, 1, 0, 0), 7);
    assert_eq!(state.fp_regs[6].v, 0xffff_ffff_0000_0007);
    float_write_back(&mut state, &float_insn(InsnType::InsnFcvtDS, 6, 1, 0, 0), 7);
    assert_eq!(state.fp_regs[6].v, 7);
    float_write_back(&mut state, &float_insn(InsnType::InsnFcvtSLu, 7, 1, 0, 0), 1);
    assert_eq!(state.fp_regs[7].v, 0xffff_ffff_0000_0001);
    float_write_back(&mut state, &float_insn(InsnType::InsnFcvtDLu, 7, 1, 0, 0), 1);
    assert_eq!(state.fp_regs[7].v, 1);
    float_write_back(&mut state, &float_insn(InsnType::InsnFeqS, 8, 1, 2, 0), 1);
    assert_eq!(state.gp_regs[8], 1);
    assert_eq!(state.fp_regs[8].v, 0);
    float_write_back(&mut state, &float_insn(InsnType::InsnFcvtWuS, 9, 1, 0, 0), 0xffff_ffff);
    assert_eq!(state.gp_regs[9], u64::MAX);
    float_write_back(&mut state, &float_insn(InsnType::InsnFcvtWD, 9, 1, 0, 0), 0x8000_0000);
    assert_eq!(state.gp_regs[9], 0xffff_ffff_8000_0000);
    float_write_back(&mut state, &float_insn(InsnType::InsnFcvtLuD, 9, 1, 0, 0), 0x8000_0000);
    assert_eq!(state.gp_regs[9], 0x8000_0000);
    float_write_back(&mut state, &float_insn(InsnType::InsnFcvtLS, 9, 1, 0, 0), bits);
    assert_eq!(state.gp_regs[9], bits);
}

#[test]
fn float_addition_through_the_interface() {
    // fadd.s fa0, fa1, fa2, computed by the host
    let mut mem = memory_with(&[0x00c5_f553, 0x0000_0073]);
    let mut state = State::new();
    state.pc = BASE;
    state.fp_regs[11].v = 0xffff_ffff_0000_0000 | 1.5f32.to_bits() as u64;
    state.fp_regs[12].v = 0xffff_ffff_0000_0000 | 2.25f32.to_bits() as u64;
    let stopped = match exec_step(&mut state, &mut mem) {
        Err(Trap::FloatUnit(i)) => i,
        other => panic!("unexpected {:?}", other),
    };
    let (a, b, _) = float_operands(&state, &stopped);
    let sum = f32::from_bits(a as u32) + f32::from_bits(b as u32);
    assert!(!float_complete(&mut state, &stopped, sum.to_bits() as u64));
    assert_eq!(state.fp_regs[10].v, 0xffff_ffff_0000_0000 | 3.75f32.to_bits() as u64);
    assert_eq!(state.pc, BASE + 4);
    assert_eq!(exec_step(&mut state, &mut mem), Ok(true));
}

#[test]
fn protection_is_enforced() {
    // sd a0, 0(a1); ld a2, 0(a1)
    let mut mem = memory_with(&[0x00a5_b023, 0x0005_b603, 0, 0, 0, 0]);
    let code = mem.bytes.clone();
    let mut state = State::new();
    state.pc = BASE;
    state.gp_regs[10] = 0x1122_3344_5566_7788;
    state.gp_regs[11] = BASE + 8;
    // read-only bytes cannot be stored to
    for p in mem.prot[8..16].iter_mut() {
        *p = 1;
    }
    assert_eq!(exec_step(&mut state, &mut mem), Err(Trap::MemoryFault(BASE + 8)));
    assert_eq!(mem.bytes, code);
    // one read-only byte in the middle is enough
    for p in mem.prot[8..16].iter_mut() {
        *p = 3;
    }
    mem.prot[12] = 5;
    assert_eq!(exec_step(&mut state, &mut mem), Err(Trap::MemoryFault(BASE + 8)));
    mem.prot[12] = 2;
    assert_eq!(exec_step(&mut state, &mut mem), Ok(false));
    assert_eq!(&mem.bytes[8..16], &0x1122_3344_5566_7788u64.to_le_bytes());
    // write-only bytes cannot be loaded from
    assert_eq!(exec_step(&mut state, &mut mem), Err(Trap::MemoryFault(BASE + 8)));
    assert_eq!(state.gp_regs[12], 0);
    mem.prot[12] = 1;
    assert_eq!(exec_step(&mut state, &mut mem), Ok(false));
    assert_eq!(state.gp_regs[12], 0x1122_3344_5566_7788);
}

#[test]
fn instructions_are_fetched_as_data() {
    let mut mem = memory_with(&[0x0015_0513, 0x0015_0513]);
    // readable without being executable is enough
    for p in mem.prot.iter_mut() {
        *p = 1;
    }
    assert_eq!(fetch(&mem, BASE), Some(0x0015_0513));
    mem.prot[3] = 6;
    assert_eq!(fetch(&mem, BASE), None);
    assert_eq!(fetch(&mem, BASE + 4), Some(0x0015_0513));
    let mut state = State::new();
    state.pc = BASE;
    assert_eq!(exec_step(&mut state, &mut mem), Err(Trap::FetchFault(BASE)));
    assert!(mem.is_readable(BASE + 4, 4));
    assert!(!mem.is_readable(BASE, 4));
    assert!(mem.is_readable(BASE, 3));
    assert!(!mem.is_writable(BASE, 1));
    assert!(mem.is_writable(BASE + 3, 1));
    assert!(mem.is_writable(BASE, 0));
    assert!(!mem.is_accessible(BASE + 8, 1, false));
}

fn sample_values() -> Vec<u64> {
    vec![
        0,
        1,
        2,
        31,
        32,
        63,
        64,
        0x7f,
        0x80,
        0xff,
        0x7fff_ffff,
        0x8000_0000,
        0xffff_ffff,
        0x1_0000_0000,
        0x1234_5678_9abc_def0,
        0x7fff_ffff_ffff_ffff,
        0x8000_0000_0000_0000,
        0x8000_0000_0000_0001,
        0xffff_ffff_0000_0000,
        0xffff_ffff_7fff_ffff,
        0xffff_ffff_8000_0000,
        0xffff_ffff_ffff_fffe,
        0xffff_ffff_ffff_ffff,
    ]
}

fn sext(v: i32) -> u64 {
    v as i64 as u64
}

#[test]
fn register_operations_agree_with_native_arithmetic() {
    let table: Vec<(fn(&mut State, &mut Insn), fn(u64, u64) -> u64)> = vec![
        (func_add, |a, b| a.wrapping_add(b)),
        (func_sub, |a, b| a.wrapping_sub(b)),
        (func_sll, |a, b| a << (b & 63)),
        (func_slt, |a, b| ((a as i64) < (b as i64)) as u64),
        (func_sltu, |a, b| (a < b) as u64),
        (func_xor, |a, b| a ^ b),
        (func_srl, |a, b| a >> (b & 63)),
        (func_sra, |a, b| ((a as i64) >> (b & 63)) as u64),
        (func_or, |a, b| a | b),
        (func_and, |a, b| a & b),
        (func_mul, |a, b| a.wrapping_mul(b)),
        (func_mulh, |a, b| (((a as i64 as i128) * (b as i64 as i128)) >> 64) as u64),
        (func_mulhsu, |a, b| (((a as i64 as i128) * (b as i128)) >> 64) as u64),
        (func_mulhu, |a, b| (((a as u128) * (b as u128)) >> 64) as u64),
        (func_div, |a, b| {
            if b == 0 {
                u64::MAX
            } else {
                (a as i64).wrapping_div(b as i64) as u64
            }
        }),
        (func_divu, |a, b| if b == 0 { u64::MAX } else { a / b }),
        (func_rem, |a, b| {
            if b == 0 {
                a
            } else {
                (a as i64).wrapping_rem(b as i64) as u64
            }
        }),
        (func_remu, |a, b| if b == 0 { a } else { a % b }),
        (func_addw, |a, b| sext((a as i32).wrapping_add(b as i32))),
        (func_subw, |a, b| sext((a as i32).wrapping_sub(b as i32))),
        (func_sllw, |a, b| sext((a as i32) << (b & 31))),
        (func_srlw, |a, b| sext(((a as u32) >> (b & 31)) as i32)),
        (func_sraw, |a, b| sext((a as i32) >> (b & 31))),
        (func_mulw, |a, b| sext((a as i32).wrapping_mul(b as i32))),
        (func_divw, |a, b| {
            if b as i32 == 0 {
                u64::MAX
            } else {
                sext((a as i32).wrapping_div(b as i32))
            }
        }),
        (func_divuw, |a, b| {
            if b as u32 == 0 {
                u64::MAX
            } else {
                sext(((a as u32) / (b as u32)) as i32)
            }
        }),
        (func_remw, |a, b| {
            if b as i32 == 0 {
                sext(a as i32)
            } else {
                sext((a as i32).wrapping_rem(b as i32))
            }
        }),
        (func_remuw, |a, b| {
            if b as u32 == 0 {
                sext(a as i32)
            } else {
                sext(((a as u32) % (b as u32)) as i32)
            }
        }),
    ];
    for (index, (f, oracle)) in table.iter().enumerate() {
        for a in sample_values() {
            for b in sample_values() {
                let expected = oracle(a, b);
                assert_eq!(reg_op(*f, a, b), expected, "operation {} on {:#x}, {:#x}", index, a, b);
            }
        }
    }
}

#[test]
fn immediate_operations_agree_with_native_arithmetic() {
    let table: Vec<(fn(&mut State, &mut Insn), fn(u64, i32) -> u64)> = vec![
        (func_addi, |a, i| a.wrapping_add(i as i64 as u64)),
        (func_slli, |a, i| a << (i & 63)),
        (func_slti, |a, i| ((a as i64) < (i as i64)) as u64),
        (func_sltiu, |a, i| (a < (i as i64 as u64)) as u64),
        (func_xori, |a, i| a ^ (i as i64 as u64)),
        (func_srli, |a, i| a >> (i & 63)),
        (func_srai, |a, i| ((a as i64) >> (i & 63)) as u64),
        (func_ori, |a, i| a | (i as i64 as u64)),
        (func_andi, |a, i| a & (i as i64 as u64)),
        (func_addiw, |a, i| sext((a as i32).wrapping_add(i))),
        (func_slliw, |a, i| sext((a as i32) << (i & 31))),
        (func_srliw, |a, i| sext(((a as u32) >> (i & 31)) as i32)),
        (func_sraiw, |a, i| sext((a as i32) >> (i & 31))),
    ];
    let immediates = [0, 1, 5, 31, 32, 63, 0x400, 0x41f, 0x43f, 2047, -1, -24, -32, -2048];
    for (index, (f, oracle)) in table.iter().enumerate() {
        for a in sample_values() {
            for i in immediates {
                let expected = oracle(a, i);
                assert_eq!(imm_op(*f, a, i), expected, "operation {} on {:#x}, {}", index, a, i);
            }
        }
    }
}

#[test]
fn branches_agree_with_native_comparisons() {
    let table: Vec<(fn(&mut State, &mut Insn), fn(u64, u64) -> bool)> = vec![
        (func_beq, |a, b| a == b),
        (func_bne, |a, b| a != b),
        (func_blt, |a, b| (a as i64) < (b as i64)),
        (func_bge, |a, b| (a as i64) >= (b as i64)),
        (func_bltu, |a, b| a < b),
        (func_bgeu, |a, b| a >= b),
    ];
    for (f, oracle) in table.iter() {
        for a in sample_values() {
            for b in sample_values() {
                assert_eq!(branches(*f, a, b), oracle(a, b));
            }
        }
    }
}
