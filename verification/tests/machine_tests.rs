use rvemu_rs::elfdef::{
    max_u64, round_down, round_up, to_guest, to_host, Ehdr, Phdr, GUEST_MEMORY_OFFSET,
};
use rvemu_rs::interp::Trap;
use rvemu_rs::machine::{machine_load_program, machine_setup, machine_step, STACK_SIZE};
use rvemu_rs::memory::{le_u16, le_u32, le_u64, GuestMemory};
use rvemu_rs::mmu::{
    flags_to_mmap_prot, load_phdr, mmu_alloc, mmu_load_elf, mmu_load_segment, LoadError,
};
use rvemu_rs::reg::{FpRegT, FpRegTypeT, GpRegTypeT};
use rvemu_rs::rvemu::{
    machine_get_gp_reg, machine_set_gp_reg, mmu_write, ExitReason, Machine, Mmu, State,
};
use rvemu_rs::sys_call::{
    convert_flags, convert_flags_for, sys_brk, syscall_kind, HostOpenFlags, SysCall,
    NEWLIB_O_APPEND, NEWLIB_O_CREAT, NEWLIB_O_EXCL, NEWLIB_O_RDWR, NEWLIB_O_TRUNC,
    NEWLIB_O_WRONLY,
};

const ENTRY: u64 = 0x1_0078;

fn put16(image: &mut Vec<u8>, at: usize, v: u16) {
    image[at..at + 2].copy_from_slice(&v.to_le_bytes());
}

fn put32(image: &mut Vec<u8>, at: usize, v: u32) {
    image[at..at + 4].copy_from_slice(&v.to_le_bytes());
}

fn put64(image: &mut Vec<u8>, at: usize, v: u64) {
    image[at..at + 8].copy_from_slice(&v.to_le_bytes());
}

/// An ELF image with one loadable segment that holds the whole file at
/// 0x10000 and the code at the entry 0x10078.
fn image_with(code: &[u32], memsz: u64) -> Vec<u8> {
    let size = 120 + 4 * code.len();
    let mut image = vec![0u8; size];
    image[0..4].copy_from_slice(&[0x7f, b'E', b'L', b'F']);
    image[4] = 2;
    image[5] = 1;
    image[6] = 1;
    put16(&mut image, 16, 2);
    put16(&mut image, 18, 243);
    put32(&mut image, 20, 1);
    put64(&mut image, 24, ENTRY);
    put64(&mut image, 32, 64);
    put16(&mut image, 52, 64);
    put16(&mut image, 54, 56);
    put16(&mut image, 56, 1);
    put32(&mut image, 64, 1);
    put32(&mut image, 68, 5);
    put64(&mut image, 72, 0);
    put64(&mut image, 80, 0x1_0000);
    put64(&mut image, 88, 0x1_0000);
    put64(&mut image, 96, size as u64);
    put64(&mut image, 104, memsz.max(size as u64));
    put64(&mut image, 112, 0x1000);
    for (k, w) in code.iter().enumerate() {
        put32(&mut image, 120 + 4 * k, *w);
    }
    image
}

fn machine() -> Machine {
    let mut m = Machine::new();
    m.mmu.page_size = 4096;
    m
}

fn loaded(code: &[u32]) -> Machine {
    let mut m = machine();
    assert_eq!(machine_load_program(&mut m, &image_with(code, 0)), Ok(()));
    m
}

#[test]
fn new_machine_is_blank() {
    let m = Machine::new();
    assert_eq!(m.state.exit_reason, ExitReason::NoExit);
    assert_eq!(m.state.pc, 0);
    assert_eq!(m.state.reenter_pc, 0);
    assert_eq!(m.state.gp_regs, [0u64; 32]);
    assert!(m.state.fp_regs.iter().all(|r| r.v == 0));
    assert_eq!((m.mmu.entry, m.mmu.host_alloc, m.mmu.alloc, m.mmu.base), (0, 0, 0, 0));
    assert_eq!(m.mmu.mem.start, 0);
    assert!(m.mmu.mem.bytes.is_empty());
    let s = State::new();
    assert_eq!(s.gp_regs, [0u64; 32]);
    let u = Mmu::new();
    assert_eq!((u.entry, u.host_alloc, u.alloc, u.base), (0, 0, 0, 0));
    assert_eq!(u.page_size, page_size::get() as u64);
}

#[test]
fn register_names_and_access() {
    assert_eq!(GpRegTypeT::Zero.index(), 0);
    assert_eq!(GpRegTypeT::RA.index(), 1);
    assert_eq!(GpRegTypeT::Sp.index(), 2);
    assert_eq!(GpRegTypeT::A0.index(), 10);
    assert_eq!(GpRegTypeT::A7.index(), 17);
    assert_eq!(GpRegTypeT::T6.index(), 31);
    assert_eq!(GpRegTypeT::NumGpRegS.index(), 32);
    assert_ne!(FpRegTypeT::Ft0, FpRegTypeT::NumFpRegs);
    let mut m = Machine::new();
    machine_set_gp_reg(&mut m, 17, 93);
    assert_eq!(machine_get_gp_reg(&m, 17), 93);
    assert_eq!(machine_get_gp_reg(&m, 16), 0);
    assert_eq!(m.state.gp_regs[17], 93);
    assert_eq!(FpRegT::new().v, 0);
    assert_eq!(FpRegT::boxed(0x3f80_0000).v, 0xffff_ffff_3f80_0000);
    assert_eq!(FpRegT { v: 0x1122_3344_5566_7788 }.w(), 0x5566_7788);
}

#[test]
fn rounding_and_host_addresses() {
    assert_eq!(round_down(0x1234, 0x1000), 0x1000);
    assert_eq!(round_down(0x1000, 0x1000), 0x1000);
    assert_eq!(round_down(0xfff, 0x1000), 0);
    assert_eq!(round_up(0x1234, 0x1000), 0x2000);
    assert_eq!(round_up(0x1000, 0x1000), 0x1000);
    assert_eq!(round_up(1, 0x1000), 0x1000);
    assert_eq!(round_up(0, 0x1000), 0);
    assert_eq!(round_up(10, 3), 12);
    assert_eq!(round_down(10, 3), 9);
    assert_eq!(max_u64(3, 5), 5);
    assert_eq!(max_u64(5, 3), 5);
    assert_eq!(to_host(0x1_0000), 0x0888_0001_0000);
    assert_eq!(to_guest(0x0888_0001_0000), 0x1_0000);
    assert_eq!(GUEST_MEMORY_OFFSET, 0x0888_0000_0000);
}

#[test]
fn little_endian_reads() {
    let bytes = vec![1u8, 2, 3, 4, 5, 6, 7, 8, 9];
    assert_eq!(le_u16(&bytes, 1), 0x0302);
    assert_eq!(le_u32(&bytes, 1), 0x0504_0302);
    assert_eq!(le_u64(&bytes, 1), 0x0908_0706_0504_0302);
    let prot = vec![3; bytes.len()];
    let mem = GuestMemory { start: 0x100, bytes, prot };
    assert_eq!(mem.read_u8(0x108), 9);
    assert_eq!(mem.read_u16(0x100), 0x0201);
    assert_eq!(mem.read_u32(0x104), 0x0807_0605);
    assert_eq!(mem.read_u64(0x100), 0x0807_0605_0403_0201);
    assert_eq!(mem.end(), 0x109);
    assert!(mem.is_mapped(0x100, 9));
    assert!(!mem.is_mapped(0x100, 10));
    assert!(!mem.is_mapped(0xff, 1));
    assert!(mem.is_mapped(0x109, 0));
    assert!(!mem.is_mapped(0x10a, 0));
    assert!(!mem.is_mapped(u64::MAX, 2));
}

#[test]
fn memory_writes() {
    let mut mem = GuestMemory { start: 0x100, bytes: vec![0xaa; 12], prot: vec![1; 12] };
    mem.write(0x102, 0x1122_3344_5566_7788, 3);
    assert_eq!(mem.bytes, [0xaa, 0xaa, 0x88, 0x77, 0x66, 0xaa, 0xaa, 0xaa, 0xaa, 0xaa, 0xaa, 0xaa]);
    mem.write(0x104, 0x1122_3344_5566_7788, 8);
    assert_eq!(mem.bytes, [0xaa, 0xaa, 0x88, 0x77, 0x88, 0x77, 0x66, 0x55, 0x44, 0x33, 0x22, 0x11]);
    mem.write(0x100, 7, 0);
    assert_eq!(mem.bytes[0], 0xaa);
    mem.fill_zero(0x101, 2);
    assert_eq!(&mem.bytes[..4], &[0xaa, 0, 0, 0x77]);
    mem.copy_in(0x100, &vec![1, 2, 3, 4, 5], 1, 3);
    assert_eq!(&mem.bytes[..4], &[2, 3, 4, 0x77]);
    mmu_write(&mut mem, 0x10a, &vec![9, 8, 7], 2);
    assert_eq!(&mem.bytes[9..], &[0x33, 9, 8]);
    mem.grow(2, 3);
    assert_eq!(mem.bytes.len(), 14);
    assert_eq!(&mem.bytes[11..], &[8, 0, 0]);
    assert_eq!(&mem.prot[11..], &[1, 3, 3]);
    mem.protect(0x101, 2, 7);
    assert_eq!(&mem.prot[..4], &[1, 7, 7, 1]);
    mem.shrink(13);
    assert_eq!(mem.bytes, [2]);
    assert_eq!(mem.prot, [1]);
    assert_eq!(mem.start, 0x100);
}

#[test]
fn protection_follows_the_flags() {
    assert_eq!(flags_to_mmap_prot(0), 0);
    assert_eq!(flags_to_mmap_prot(4), 1);
    assert_eq!(flags_to_mmap_prot(2), 2);
    assert_eq!(flags_to_mmap_prot(1), 4);
    assert_eq!(flags_to_mmap_prot(5), 5);
    assert_eq!(flags_to_mmap_prot(6), 3);
    assert_eq!(flags_to_mmap_prot(7), 7);
    assert_eq!(flags_to_mmap_prot(0x7fff_fff8), 0);
    assert_eq!(flags_to_mmap_prot(-1), 7);
}

#[test]
fn headers_are_parsed() {
    let mut code = [0u32; 14];
    code[0] = 0x02a0_0513;
    code[1] = 0x0000_0073;
    let image = image_with(&code, 0x3000);
    assert_eq!(image.len(), 176);
    let ehdr = Ehdr::parse(&image);
    assert_eq!(&ehdr.e_ident[..5], &[0x7f, 0x45, 0x4c, 0x46, 2]);
    assert_eq!(ehdr.e_type, 2);
    assert_eq!(ehdr.e_machine, 243);
    assert_eq!(ehdr.e_version, 1);
    assert_eq!(ehdr.e_entry, ENTRY);
    assert_eq!(ehdr.e_phoff, 64);
    assert_eq!(ehdr.e_ehsiz, 64);
    assert_eq!(ehdr.e_phentsize, 56);
    assert_eq!(ehdr.e_phnum, 1);
    let mut phdr = Phdr::new();
    assert_eq!(phdr.p_memsz, 0);
    assert_eq!(load_phdr(&mut phdr, &ehdr, 0, &image), Ok(()));
    assert_eq!(phdr.p_type, 1);
    assert_eq!(phdr.p_flags, 5);
    assert_eq!(phdr.p_offset, 0);
    assert_eq!(phdr.p_vaddr, 0x1_0000);
    assert_eq!(phdr.p_paddr, 0x1_0000);
    assert_eq!(phdr.p_filesz, 176);
    assert_eq!(phdr.p_memsz, 0x3000);
    assert_eq!(phdr.p_align, 0x1000);
    assert_eq!(phdr, Phdr::parse(&image, 64));
    let before = phdr;
    assert_eq!(load_phdr(&mut phdr, &ehdr, 2, &image), Err(LoadError::FileTooSmall));
    assert_eq!(load_phdr(&mut phdr, &ehdr, -1, &image), Err(LoadError::FileTooSmall));
    assert_eq!(load_phdr(&mut phdr, &ehdr, i64::MAX, &image), Err(LoadError::FileTooSmall));
    assert_eq!(phdr, before);
    // the header may end with the file
    assert_eq!(load_phdr(&mut phdr, &ehdr, 1, &image), Ok(()));
    assert_eq!(phdr.p_type, 0x02a0_0513);
}

#[test]
fn segment_is_placed_and_cleared() {
    let mut mmu = Mmu::new();
    mmu.page_size = 4096;
    let image: Vec<u8> = (1..=64u8).collect();
    let phdr = Phdr {
        p_type: 1,
        p_flags: 6,
        p_offset: 16,
        p_vaddr: 0x1_0010,
        p_paddr: 0,
        p_filesz: 8,
        p_memsz: 0x1000,
        p_align: 0x1000,
    };
    assert_eq!(mmu_load_segment(&mut mmu, phdr, &image), Ok(3));
    assert_eq!(mmu.mem.start, 0x1_0000);
    assert_eq!(mmu.mem.bytes.len(), 0x2000);
    assert_eq!(&mmu.mem.bytes[0x10..0x18], &[17, 18, 19, 20, 21, 22, 23, 24]);
    assert!(mmu.mem.bytes[..0x10].iter().all(|b| *b == 0));
    assert!(mmu.mem.bytes[0x18..].iter().all(|b| *b == 0));
    assert!(mmu.mem.prot.iter().all(|p| *p == 3));
    assert_eq!(mmu.mem.prot.len(), 0x2000);
    assert_eq!(mmu.host_alloc, 0x0888_0001_2000);
    assert_eq!(mmu.alloc, 0x1_2000);
    assert_eq!(mmu.base, 0x1_2000);
    // a second segment over the first: its tail beyond the file is cleared
    let phdr = Phdr { p_offset: 0, p_vaddr: 0x1_0012, p_filesz: 2, p_memsz: 4, p_flags: 4, ..phdr };
    assert_eq!(mmu_load_segment(&mut mmu, phdr, &image), Ok(1));
    assert_eq!(&mmu.mem.bytes[0x10..0x18], &[17, 18, 1, 2, 0, 0, 23, 24]);
    assert_eq!(mmu.mem.bytes.len(), 0x2000);
    // its one page is read-only now, the other page is as it was
    assert!(mmu.mem.prot[..0x1000].iter().all(|p| *p == 1));
    assert!(mmu.mem.prot[0x1000..].iter().all(|p| *p == 3));
    assert_eq!(mmu.alloc, 0x1_2000);
    // a third segment extends the window
    let phdr = Phdr { p_offset: 60, p_vaddr: 0x1_3ffc, p_filesz: 4, p_memsz: 4, ..phdr };
    assert_eq!(mmu_load_segment(&mut mmu, phdr, &image), Ok(1));
    assert_eq!(mmu.mem.bytes.len(), 0x4000);
    assert_eq!(&mmu.mem.bytes[0x3ffc..], &[61, 62, 63, 64]);
    // the page between the segments belongs to none and has no access
    assert!(mmu.mem.prot[0x2000..0x3000].iter().all(|p| *p == 0));
    assert!(mmu.mem.prot[0x3000..].iter().all(|p| *p == 1));
    assert_eq!(mmu.alloc, 0x1_4000);
    assert_eq!(mmu.base, 0x1_4000);
    assert_eq!(mmu.host_alloc, 0x0888_0001_4000);
}

#[test]
fn bad_segments_are_rejected() {
    let image: Vec<u8> = (1..=64u8).collect();
    let good = Phdr {
        p_type: 1,
        p_flags: 6,
        p_offset: 16,
        p_vaddr: 0x1_0010,
        p_paddr: 0,
        p_filesz: 8,
        p_memsz: 0x1000,
        p_align: 0x1000,
    };
    let mut mmu = Mmu::new();
    mmu.page_size = 0;
    assert_eq!(mmu_load_segment(&mut mmu, good, &image), Err(LoadError::BadPageSize));
    mmu.page_size = 0x1_0000_0001;
    assert_eq!(mmu_load_segment(&mut mmu, good, &image), Err(LoadError::BadPageSize));
    mmu.page_size = 4096;
    let p = Phdr { p_offset: 60, ..good };
    assert_eq!(mmu_load_segment(&mut mmu, p, &image), Err(LoadError::FileTooSmall));
    let p = Phdr { p_offset: u64::MAX, ..good };
    assert_eq!(mmu_load_segment(&mut mmu, p, &image), Err(LoadError::FileTooSmall));
    let p = Phdr { p_memsz: 7, ..good };
    assert_eq!(mmu_load_segment(&mut mmu, p, &image), Err(LoadError::BadSegment));
    let p = Phdr { p_vaddr: u64::MAX - 0x100, ..good };
    assert_eq!(mmu_load_segment(&mut mmu, p, &image), Err(LoadError::BadSegment));
    let p = Phdr { p_vaddr: u64::MAX - GUEST_MEMORY_OFFSET - 0x1800, ..good };
    assert_eq!(mmu_load_segment(&mut mmu, p, &image), Err(LoadError::BadSegment));
    assert!(mmu.mem.bytes.is_empty());
    assert_eq!(mmu.host_alloc, 0);
    assert_eq!(mmu_load_segment(&mut mmu, good, &image), Ok(3));
    let p = Phdr { p_vaddr: 0xf000, ..good };
    assert_eq!(mmu_load_segment(&mut mmu, p, &image), Err(LoadError::BadSegment));
    assert_eq!(mmu.mem.start, 0x1_0000);
    assert_eq!(mmu.mem.bytes.len(), 0x2000);
}

#[test]
fn bad_files_are_rejected() {
    let good = image_with(&[0x0000_0073], 0);
    let mut mmu = Mmu::new();
    mmu.page_size = 4096;
    assert_eq!(mmu_load_elf(&mut mmu, &good[..63].to_vec()), Err(LoadError::FileTooSmall));
    assert_eq!(mmu_load_elf(&mut mmu, &Vec::new()), Err(LoadError::FileTooSmall));
    let mut bad = good.clone();
    bad[3] = b'G';
    assert_eq!(mmu_load_elf(&mut mmu, &bad), Err(LoadError::BadMagic));
    let mut bad = good.clone();
    bad[0] = 0;
    assert_eq!(mmu_load_elf(&mut mmu, &bad), Err(LoadError::BadMagic));
    let mut bad = good.clone();
    bad[18] = 62;
    assert_eq!(mmu_load_elf(&mut mmu, &bad), Err(LoadError::NotRiscv64));
    let mut bad = good.clone();
    bad[4] = 1;
    assert_eq!(mmu_load_elf(&mut mmu, &bad), Err(LoadError::NotRiscv64));
    assert_eq!(mmu.entry, 0);
    let mut bad = good.clone();
    put16(&mut bad, 56, 2);
    assert_eq!(mmu_load_elf(&mut mmu, &bad), Err(LoadError::FileTooSmall));
    let mut mmu = Mmu::new();
    mmu.page_size = 4096;
    let mut bad = good.clone();
    put64(&mut bad, 96, 4096);
    put64(&mut bad, 104, 4096);
    assert_eq!(mmu_load_elf(&mut mmu, &bad), Err(LoadError::FileTooSmall));
    let mut bad = good.clone();
    put64(&mut bad, 104, 8);
    assert_eq!(mmu_load_elf(&mut mmu, &bad), Err(LoadError::BadSegment));
    mmu.page_size = 0;
    assert_eq!(mmu_load_elf(&mut mmu, &good), Err(LoadError::BadPageSize));
    assert_eq!(mmu.entry, ENTRY);
    assert!(mmu.mem.bytes.is_empty());
}

#[test]
fn headers_of_other_types_are_passed_over() {
    let mut image = image_with(&[0x0000_0073], 0);
    put32(&mut image, 64, 4);
    let mut mmu = Mmu::new();
    mmu.page_size = 4096;
    assert_eq!(mmu_load_elf(&mut mmu, &image), Ok(()));
    assert_eq!(mmu.entry, ENTRY);
    assert!(mmu.mem.bytes.is_empty());
    assert_eq!(mmu.host_alloc, 0);
}

#[test]
fn program_is_loaded() {
    let image = image_with(&[0x02a0_0513, 0x0000_0073], 0x1800);
    let mut m = machine();
    m.state.gp_regs[5] = 7;
    assert_eq!(machine_load_program(&mut m, &image), Ok(()));
    assert_eq!(m.state.pc, ENTRY);
    assert_eq!(m.state.gp_regs[5], 7);
    assert_eq!(m.mmu.entry, ENTRY);
    assert_eq!(m.mmu.mem.start, 0x1_0000);
    assert_eq!(m.mmu.mem.bytes.len(), 0x2000);
    assert_eq!(&m.mmu.mem.bytes[..128], &image[..]);
    assert!(m.mmu.mem.bytes[128..].iter().all(|b| *b == 0));
    assert_eq!(m.mmu.alloc, 0x1_2000);
    assert_eq!(m.mmu.base, 0x1_2000);
    assert_eq!(m.mmu.host_alloc, 0x0888_0001_2000);
    let mut m = machine();
    assert_eq!(machine_load_program(&mut m, &image[..100].to_vec()), Err(LoadError::FileTooSmall));
    assert_eq!(m.state.pc, 0);
}

#[test]
fn addi_then_ecall_end_to_end() {
    let mut m = loaded(&[0x02a0_0513, 0x0000_0073]);
    assert_eq!(machine_step(&mut m, 1000), Ok(ExitReason::Ecall));
    assert_eq!(m.state.gp_regs[10], 42);
    assert_eq!(m.state.exit_reason, ExitReason::Ecall);
    assert_eq!(m.state.reenter_pc, ENTRY + 4 + 4);
    assert_eq!(m.state.pc, ENTRY + 4);
    assert_eq!(m.state.gp_regs[0], 0);
    // the host continues after the call, here into the zero bytes that
    // fill the segment's last page
    m.state.pc = m.state.reenter_pc;
    assert_eq!(machine_step(&mut m, 1000), Err(Trap::IllegalInstruction(0)));
    m.state.pc = 0x1_1000;
    assert_eq!(machine_step(&mut m, 1000), Err(Trap::FetchFault(0x1_1000)));
}

#[test]
fn ecall_at_the_entry() {
    let mut m = loaded(&[0x0000_0073]);
    assert_eq!(machine_step(&mut m, 1), Ok(ExitReason::Ecall));
    assert_eq!(m.state.reenter_pc, ENTRY + 4);
    assert_eq!(m.state.pc, ENTRY);
}

#[test]
fn machine_follows_branches_and_jumps() {
    // a loop that counts a0 up to 5, then a call and return, then ecall
    let code = [
        0x0050_0593, // addi a1, zero, 5
        0x0015_0513, // addi a0, a0, 1
        0xfeb5_1ee3, // bne a0, a1, -4
        0x0080_00ef, // jal ra, 8
        0x0000_0073, // ecall
        0x0640_0613, // addi a2, zero, 100
        0x0000_8067, // jalr zero, 0(ra)
    ];
    let mut m = loaded(&code);
    assert_eq!(machine_step(&mut m, 1000), Ok(ExitReason::Ecall));
    assert_eq!(m.state.gp_regs[10], 5);
    assert_eq!(m.state.gp_regs[12], 100);
    assert_eq!(m.state.gp_regs[1], ENTRY + 16);
    assert_eq!(m.state.pc, ENTRY + 16);
    assert_eq!(m.state.reenter_pc, ENTRY + 20);
}

#[test]
fn machine_stops_when_the_budget_is_used() {
    // jal zero, 0: a loop that never ends
    let mut m = loaded(&[0x0000_006f]);
    assert_eq!(machine_step(&mut m, 1000), Err(Trap::OutOfSteps));
    assert_eq!(m.state.pc, ENTRY);
    assert_eq!(machine_step(&mut m, 0), Err(Trap::OutOfSteps));
    let mut m = loaded(&[0x0015_0513, 0x0015_0513, 0x0000_0073]);
    assert_eq!(machine_step(&mut m, 2), Err(Trap::OutOfSteps));
    assert_eq!(m.state.gp_regs[10], 2);
    assert_eq!(machine_step(&mut m, 1), Ok(ExitReason::Ecall));
}

#[test]
fn machine_reports_traps() {
    let mut m = loaded(&[0x0015_0513, 0x00c5_f553]);
    match machine_step(&mut m, 10) {
        Err(Trap::FloatUnit(insn)) => {
            assert_eq!((insn.rd, insn.rs1, insn.rs2), (10, 11, 12));
        },
        other => panic!("unexpected {:?}", other),
    }
    assert_eq!(m.state.pc, ENTRY + 4);
    assert_eq!(m.state.gp_regs[10], 1);
    let mut m = loaded(&[0x0010_0073]);
    assert_eq!(machine_step(&mut m, 10), Err(Trap::IllegalInstruction(0x0010_0073)));
    // csrrw a0, 0x300, zero
    let mut m = loaded(&[0x3000_1573]);
    assert_eq!(machine_step(&mut m, 10), Err(Trap::UnsupportedCsr(0x300)));
    // ld a0, 0(zero)
    let mut m = loaded(&[0x0000_3503]);
    assert_eq!(machine_step(&mut m, 10), Err(Trap::MemoryFault(0)));
}

#[test]
fn allocation_moves_the_cursor() {
    let mut m = loaded(&[0x0000_0073]);
    let end = 0x1_1000u64;
    assert_eq!(m.mmu.alloc, end);
    assert_eq!(mmu_alloc(&mut m.mmu, 0), Some(end));
    assert_eq!(m.mmu.alloc, end);
    assert_eq!(mmu_alloc(&mut m.mmu, 10), Some(end));
    assert_eq!(m.mmu.alloc, end + 10);
    assert_eq!(m.mmu.mem.bytes.len(), 0x2000);
    assert!(m.mmu.mem.prot[..0x1000].iter().all(|p| *p == 5));
    assert!(m.mmu.mem.prot[0x1000..].iter().all(|p| *p == 3));
    assert_eq!(m.mmu.mem.prot.len(), 0x2000);
    assert_eq!(m.mmu.host_alloc, 0x0888_0001_2000);
    assert_eq!(mmu_alloc(&mut m.mmu, 0x1000), Some(end + 10));
    assert_eq!(m.mmu.alloc, end + 0x100a);
    assert_eq!(m.mmu.mem.bytes.len(), 0x3000);
    // within the mapped pages nothing is mapped anew
    assert_eq!(mmu_alloc(&mut m.mmu, 0xff0), Some(end + 0x100a));
    assert_eq!(m.mmu.mem.bytes.len(), 0x3000);
    // moving back gives up the whole pages above the cursor
    assert_eq!(mmu_alloc(&mut m.mmu, -0x1ffa), Some(end + 0x1ffa));
    assert_eq!(m.mmu.alloc, end);
    assert_eq!(m.mmu.mem.bytes.len(), 0x1000);
    assert_eq!(m.mmu.mem.prot.len(), 0x1000);
    assert_eq!(m.mmu.host_alloc, 0x0888_0001_1000);
    assert_eq!(m.mmu.base, end);
}

#[test]
fn allocation_fails_without_change() {
    let mut m = loaded(&[0x0000_0073]);
    let len = m.mmu.mem.bytes.len();
    m.mmu.page_size = 0;
    assert_eq!(mmu_alloc(&mut m.mmu, 8), None);
    assert_eq!(m.mmu.alloc, 0x1_1000);
    assert_eq!(m.mmu.mem.bytes.len(), len);
    m.mmu.page_size = 0x2_0000_0000;
    assert_eq!(mmu_alloc(&mut m.mmu, -8), None);
    assert_eq!(m.mmu.alloc, 0x1_1000);
}

#[test]
fn brk_queries_and_moves_the_break() {
    let mut m = loaded(&[0x0000_0073]);
    m.state.gp_regs[10] = 0;
    assert_eq!(sys_brk(&mut m), Some(0x1_1000));
    assert_eq!(m.mmu.alloc, 0x1_1000);
    m.state.gp_regs[10] = 0x1_3010;
    assert_eq!(sys_brk(&mut m), Some(0x1_3010));
    assert_eq!(m.mmu.alloc, 0x1_3010);
    assert_eq!(m.mmu.mem.bytes.len(), 0x1000 + 0x3000);
    m.state.gp_regs[10] = 0x1_1000;
    assert_eq!(sys_brk(&mut m), Some(0x1_1000));
    assert_eq!(m.mmu.alloc, 0x1_1000);
    assert_eq!(m.mmu.mem.bytes.len(), 0x1000);
    // a request further away than a signed 64-bit increment
    m.state.gp_regs[10] = u64::MAX;
    assert_eq!(sys_brk(&mut m), None);
    assert_eq!(m.mmu.alloc, 0x1_1000);
    assert_eq!(m.state.gp_regs[10], u64::MAX);
}

#[test]
fn stack_holds_the_arguments() {
    let mut m = loaded(&[0x0000_0073]);
    let argv = vec![b"host".to_vec(), b"prog".to_vec(), b"-x".to_vec(), Vec::new()];
    assert_eq!(machine_setup(&mut m, 4, &argv), Ok(()));
    let stack = 0x1_1000u64;
    let top = stack + STACK_SIZE;
    let sp = m.state.gp_regs[2];
    assert_eq!(sp, top - 8 * (3 + 3 + 1));
    let mem = &m.mmu.mem;
    assert_eq!(mem.read_u64(sp), 3);
    let a1 = mem.read_u64(sp + 8);
    let a2 = mem.read_u64(sp + 16);
    let a3 = mem.read_u64(sp + 24);
    assert_eq!(mem.read_u64(sp + 32), 0);
    assert_eq!(mem.read_u64(sp + 40), 0);
    assert_eq!(mem.read_u64(sp + 48), 0);
    // the arguments are allocated above the stack, the last one first
    assert_eq!(a3, top);
    assert_eq!(a2, top + 1);
    assert_eq!(a1, top + 4);
    assert_eq!(mem.read_u8(a3), 0);
    assert_eq!(mem.read_u32(a2) & 0xff_ffff, 0x00_782d);
    assert_eq!(mem.read_u32(a1), 0x676f_7270);
    assert_eq!(mem.read_u8(a1 + 4), 0);
    assert_eq!(m.mmu.alloc, top + 9);
    assert_eq!(m.mmu.base, stack);
    assert_eq!(STACK_SIZE, 32 * 1024 * 1024);
}

#[test]
fn stack_without_arguments() {
    let mut m = loaded(&[0x0000_0073]);
    assert_eq!(machine_setup(&mut m, 1, &vec![b"host".to_vec()]), Ok(()));
    let sp = m.state.gp_regs[2];
    assert_eq!(sp, 0x1_1000 + STACK_SIZE - 32);
    assert_eq!(m.mmu.mem.read_u64(sp), 0);
    assert_eq!(m.mmu.alloc, 0x1_1000 + STACK_SIZE);
}

#[test]
fn only_the_first_arguments_count() {
    let mut m = loaded(&[0x0000_0073]);
    let argv = vec![b"host".to_vec(), b"prog".to_vec(), b"left out".to_vec()];
    assert_eq!(machine_setup(&mut m, 2, &argv), Ok(()));
    let top = 0x1_1000 + STACK_SIZE;
    let sp = m.state.gp_regs[2];
    assert_eq!(sp, top - 8 * 5);
    assert_eq!(m.mmu.mem.read_u64(sp), 1);
    assert_eq!(m.mmu.mem.read_u64(sp + 8), top);
    assert_eq!(m.mmu.mem.read_u64(sp + 16), 0);
    assert_eq!(m.mmu.alloc, top + 5);
}

#[test]
fn setup_fails_without_memory() {
    let mut m = loaded(&[0x0000_0073]);
    m.mmu.page_size = 0;
    m.state.gp_regs[2] = 5;
    assert_eq!(machine_setup(&mut m, 1, &vec![Vec::new()]), Err(LoadError::OutOfMemory));
    assert_eq!(m.state.gp_regs[2], 5);
}

#[test]
fn system_calls_by_number() {
    assert_eq!(syscall_kind(93), SysCall::Exit);
    assert_eq!(syscall_kind(94), SysCall::Exit);
    assert_eq!(syscall_kind(63), SysCall::Read);
    assert_eq!(syscall_kind(64), SysCall::Write);
    assert_eq!(syscall_kind(56), SysCall::Openat);
    assert_eq!(syscall_kind(57), SysCall::Close);
    assert_eq!(syscall_kind(80), SysCall::Fstat);
    assert_eq!(syscall_kind(62), SysCall::Lseek);
    assert_eq!(syscall_kind(214), SysCall::Brk);
    assert_eq!(syscall_kind(169), SysCall::Gettimeofday);
    assert_eq!(syscall_kind(1024), SysCall::Open);
    assert_eq!(syscall_kind(222), SysCall::Unimplemented);
    assert_eq!(syscall_kind(1062), SysCall::Unimplemented);
    assert_eq!(syscall_kind(2011), SysCall::Unimplemented);
    assert_eq!(syscall_kind(0), SysCall::Unknown);
    assert_eq!(syscall_kind(1027), SysCall::Unknown);
    assert_eq!(syscall_kind(u64::MAX), SysCall::Unknown);
}

#[test]
fn open_flags_take_host_values() {
    let host = HostOpenFlags {
        rdonly: 0,
        wronly: 1,
        rdwr: 2,
        append: 0x400,
        creat: 0x40,
        trunc: 0x200,
        excl: 0x80,
    };
    assert_eq!(convert_flags_for(0, &host), 0);
    assert_eq!(convert_flags_for(NEWLIB_O_WRONLY, &host), 1);
    assert_eq!(convert_flags_for(NEWLIB_O_RDWR | NEWLIB_O_APPEND, &host), 0x402);
    assert_eq!(
        convert_flags_for(NEWLIB_O_WRONLY | NEWLIB_O_CREAT | NEWLIB_O_TRUNC, &host),
        0x241
    );
    assert_eq!(convert_flags_for(NEWLIB_O_EXCL | 0x4, &host), 0x80);
    assert_eq!(convert_flags(0), 0);
    assert_eq!(convert_flags(NEWLIB_O_WRONLY), libc::O_WRONLY);
    assert_eq!(
        convert_flags(NEWLIB_O_RDWR | NEWLIB_O_CREAT | NEWLIB_O_EXCL | NEWLIB_O_APPEND),
        libc::O_RDWR | libc::O_CREAT | libc::O_EXCL | libc::O_APPEND
    );
    assert_eq!(convert_flags(NEWLIB_O_TRUNC), libc::O_TRUNC);
}

#[test]
fn program_text_cannot_be_stored_to() {
    // sd a0, 0(a1) into the segment, which is readable and executable
    let mut m = loaded(&[0x00a5_b023, 0x0000_0073]);
    m.state.gp_regs[10] = u64::MAX;
    m.state.gp_regs[11] = ENTRY;
    assert_eq!(machine_step(&mut m, 10), Err(Trap::MemoryFault(ENTRY)));
    assert_eq!(m.mmu.mem.read_u32(ENTRY), 0x00a5_b023);
    // allocated memory takes the store
    let heap = mmu_alloc(&mut m.mmu, 16).unwrap();
    m.state.gp_regs[11] = heap + 8;
    assert_eq!(machine_step(&mut m, 10), Ok(ExitReason::Ecall));
    assert_eq!(m.mmu.mem.read_u64(heap + 8), u64::MAX);
}

#[test]
fn budget_does_not_change_the_result() {
    let code = [
        0x0050_0593, // addi a1, zero, 5
        0x0015_0513, // addi a0, a0, 1
        0xfeb5_1ee3, // bne a0, a1, -4
        0x0000_0073, // ecall
    ];
    let mut whole = loaded(&code);
    assert_eq!(machine_step(&mut whole, 100), Ok(ExitReason::Ecall));
    for first in 0..12u64 {
        let mut parts = loaded(&code);
        let r = machine_step(&mut parts, first);
        let r = match r {
            Err(Trap::OutOfSteps) => machine_step(&mut parts, 100 - first),
            other => other,
        };
        assert_eq!(r, Ok(ExitReason::Ecall));
        assert_eq!(parts.state.gp_regs, whole.state.gp_regs);
        assert_eq!(parts.state.pc, whole.state.pc);
        assert_eq!(parts.state.reenter_pc, whole.state.reenter_pc);
        assert_eq!(parts.state.exit_reason, whole.state.exit_reason);
        assert_eq!(parts.mmu.mem.bytes, whole.mmu.mem.bytes);
    }
    // one instruction at a time
    let mut single = loaded(&code);
    let mut turns = 0;
    while machine_step(&mut single, 1) == Err(Trap::OutOfSteps) {
        turns += 1;
    }
    assert_eq!(turns, 11);
    assert_eq!(single.state.gp_regs, whole.state.gp_regs);
    assert_eq!(single.state.pc, whole.state.pc);
}
