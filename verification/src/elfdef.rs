//! The ELF64 file format as far as a statically linked program needs it:
//! the file header, the program headers, and the address arithmetic of
//! loading.
use crate::memory::{le_u16, le_u32, le_u64, le_value};
use vstd::prelude::*;

verus! {

/// Size of the identification at the start of the file header.
pub const EI_NIDENT: usize = 16;

/// The four bytes that every ELF file starts with.
pub const ELFMAG0: u8 = 0x7f;

/// `E`.
pub const ELFMAG1: u8 = 0x45;

/// `L`.
pub const ELFMAG2: u8 = 0x4c;

/// `F`.
pub const ELFMAG3: u8 = 0x46;

/// The machine type of RISC-V.
pub const EM_RISCV: u16 = 243;

/// Index of the file class in the identification.
pub const EI_CLASS: usize = 4;

/// File class: none.
pub const ELFCLASSNONE: u64 = 0;

/// File class: 32-bit objects.
pub const ELFCLASS32: u64 = 1;

/// File class: 64-bit objects.
pub const ELFCLASS64: u8 = 2;

/// Number of file classes.
pub const ELFCLASSNUM: u64 = 3;

/// Type of a program header whose segment is loaded.
pub const PT_LOAD: u32 = 1;

/// Segment flag: executable.
pub const PF_X: i32 = 0x1;

/// Segment flag: writable.
pub const PF_W: i32 = 0x2;

/// Segment flag: readable.
pub const PF_R: i32 = 0x4;

/// Page protection: no access.
pub const PROT_NONE: u32 = 0x00;

/// Page protection: readable.
pub const PROT_READ: u32 = 0x01;

/// Page protection: writable.
pub const PROT_WRITE: u32 = 0x02;

/// Page protection: executable.
pub const PROT_EXEC: u32 = 0x04;

/// Size of the file header in bytes.
pub const EHDR_SIZE: usize = 64;

/// Size of a program header in bytes.
pub const PHDR_SIZE: usize = 56;

/// Distance from a guest address to the host address that stands for it.
pub const GUEST_MEMORY_OFFSET: u64 = 0x0888_0000_0000;

/// The largest multiple of `k` that is not above `x`.
pub open spec fn spec_round_down(x: int, k: int) -> int {
    x - x % k
}

/// The smallest multiple of `k` that is not below `x`.
pub open spec fn spec_round_up(x: int, k: int) -> int {
    spec_round_down(x + k - 1, k)
}

/// Rounds `x` down to a multiple of `k`.
pub fn round_down(x: u64, k: u64) -> (r: u64)
    requires
        k > 0,
    ensures
        r == spec_round_down(x as int, k as int),
        r <= x,
        x - r < k,
        r % k == 0,
{
    proof {
        lemma_rounding(x as int, k as int);
    }
    x - x % k
}

/// Rounds `x` up to a multiple of `k`.
pub fn round_up(x: u64, k: u64) -> (r: u64)
    requires
        k > 0,
        x + k - 1 <= u64::MAX,
    ensures
        r == spec_round_up(x as int, k as int),
        x <= r,
        r - x < k,
        r % k == 0,
{
    proof {
        lemma_rounding(x + k - 1, k as int);
    }
    round_down(x + (k - 1), k)
}

/// Rounding down stays within one step below, and lands on a multiple.
pub proof fn lemma_rounding(x: int, k: int)
    by (nonlinear_arith)
    requires
        x >= 0,
        k > 0,
    ensures
        0 <= x % k < k,
        spec_round_down(x, k) == k * (x / k),
        spec_round_down(x, k) % k == 0,
        0 <= spec_round_down(x, k) <= x,
{
}

/// The larger of two values.
pub fn max_u64(x: u64, y: u64) -> (r: u64)
    ensures
        r == (if y < x {
            x
        } else {
            y
        }),
{
    if y < x {
        x
    } else {
        y
    }
}

/// The host address that stands for the guest address `addr`.
pub open spec fn spec_to_host(addr: int) -> int {
    addr + GUEST_MEMORY_OFFSET
}

/// The guest address that the host address `addr` stands for.
pub open spec fn spec_to_guest(addr: int) -> int {
    addr - GUEST_MEMORY_OFFSET
}

/// The host address of the guest address `addr`.
pub fn to_host(addr: u64) -> (r: u64)
    requires
        addr + GUEST_MEMORY_OFFSET <= u64::MAX,
    ensures
        r == spec_to_host(addr as int),
{
    addr + GUEST_MEMORY_OFFSET
}

/// The guest address behind the host address `addr`.
pub fn to_guest(addr: u64) -> (r: u64)
    requires
        addr >= GUEST_MEMORY_OFFSET,
    ensures
        r == spec_to_guest(addr as int),
{
    addr - GUEST_MEMORY_OFFSET
}

/// The file header.
#[derive(Clone, Copy, Debug)]
pub struct Ehdr {
    pub e_ident: [u8; EI_NIDENT],
    pub e_type: u16,
    pub e_machine: u16,
    pub e_version: u32,
    pub e_entry: u64,
    pub e_phoff: u64,
    pub e_shoff: u64,
    pub e_flags: u32,
    pub e_ehsiz: u16,
    pub e_phentsize: u16,
    pub e_phnum: u16,
    pub e_shentsize: u16,
    pub e_shnum: u16,
    pub e_shstrndx: u16,
}

impl Ehdr {
    /// `self` is the header that the first 64 bytes of `b` spell, all
    /// fields little-endian.
    pub open spec fn matches_bytes(self, b: Seq<u8>) -> bool {
        &&& self.e_ident@ == b.subrange(0, 16)
        &&& self.e_type == le_value(b, 16, 2)
        &&& self.e_machine == le_value(b, 18, 2)
        &&& self.e_version == le_value(b, 20, 4)
        &&& self.e_entry == le_value(b, 24, 8)
        &&& self.e_phoff == le_value(b, 32, 8)
        &&& self.e_shoff == le_value(b, 40, 8)
        &&& self.e_flags == le_value(b, 48, 4)
        &&& self.e_ehsiz == le_value(b, 52, 2)
        &&& self.e_phentsize == le_value(b, 54, 2)
        &&& self.e_phnum == le_value(b, 56, 2)
        &&& self.e_shentsize == le_value(b, 58, 2)
        &&& self.e_shnum == le_value(b, 60, 2)
        &&& self.e_shstrndx == le_value(b, 62, 2)
    }

    /// Reads the file header from the start of `bytes`.
    pub fn parse(bytes: &Vec<u8>) -> (r: Ehdr)
        requires
            bytes@.len() >= EHDR_SIZE,
        ensures
            r.matches_bytes(bytes@),
    {
        let mut ident: [u8; EI_NIDENT] = [0;EI_NIDENT];
        let mut i: usize = 0;
        while i < EI_NIDENT
            invariant
                i <= EI_NIDENT,
                bytes@.len() >= EHDR_SIZE,
                forall|j: int| 0 <= j < i ==> ident@[j] == bytes@[j],
            decreases EI_NIDENT - i,
        {
            ident[i] = bytes[i];
            i = i + 1;
        }
        assert(ident@ =~= bytes@.subrange(0, 16));
        Ehdr {
            e_ident: ident,
            e_type: le_u16(bytes, 16),
            e_machine: le_u16(bytes, 18),
            e_version: le_u32(bytes, 20),
            e_entry: le_u64(bytes, 24),
            e_phoff: le_u64(bytes, 32),
            e_shoff: le_u64(bytes, 40),
            e_flags: le_u32(bytes, 48),
            e_ehsiz: le_u16(bytes, 52),
            e_phentsize: le_u16(bytes, 54),
            e_phnum: le_u16(bytes, 56),
            e_shentsize: le_u16(bytes, 58),
            e_shnum: le_u16(bytes, 60),
            e_shstrndx: le_u16(bytes, 62),
        }
    }
}

/// A program header: one segment of the file and where it goes in memory.
#[derive(Clone, Copy, Debug, PartialEq, Eq, Structural)]
pub struct Phdr {
    pub p_type: u32,
    pub p_flags: u32,
    pub p_offset: u64,
    pub p_vaddr: u64,
    pub p_paddr: u64,
    pub p_filesz: u64,
    pub p_memsz: u64,
    pub p_align: u64,
}

impl Phdr {
    /// The program header that the 56 bytes of `b` from `at` on spell, all
    /// fields little-endian.
    pub open spec fn from_bytes(b: Seq<u8>, at: int) -> Phdr {
        Phdr {
            p_type: le_value(b, at, 4) as u32,
            p_flags: le_value(b, at + 4, 4) as u32,
            p_offset: le_value(b, at + 8, 8) as u64,
            p_vaddr: le_value(b, at + 16, 8) as u64,
            p_paddr: le_value(b, at + 24, 8) as u64,
            p_filesz: le_value(b, at + 32, 8) as u64,
            p_memsz: le_value(b, at + 40, 8) as u64,
            p_align: le_value(b, at + 48, 8) as u64,
        }
    }

    /// A program header with every field zero.
    pub fn new() -> (r: Phdr)
        ensures
            r == (Phdr {
                p_type: 0,
                p_flags: 0,
                p_offset: 0,
                p_vaddr: 0,
                p_paddr: 0,
                p_filesz: 0,
                p_memsz: 0,
                p_align: 0,
            }),
    {
        Phdr {
            p_type: 0,
            p_flags: 0,
            p_offset: 0,
            p_vaddr: 0,
            p_paddr: 0,
            p_filesz: 0,
            p_memsz: 0,
            p_align: 0,
        }
    }

    /// Reads the program header at `bytes[at..]`.
    pub fn parse(bytes: &Vec<u8>, at: usize) -> (r: Phdr)
        requires
            at + PHDR_SIZE <= bytes@.len(),
        ensures
            r == Phdr::from_bytes(bytes@, at as int),
    {
        assert(bytes@.len() == bytes.len());
        Phdr {
            p_type: le_u32(bytes, at),
            p_flags: le_u32(bytes, at + 4),
            p_offset: le_u64(bytes, at + 8),
            p_vaddr: le_u64(bytes, at + 16),
            p_paddr: le_u64(bytes, at + 24),
            p_filesz: le_u64(bytes, at + 32),
            p_memsz: le_u64(bytes, at + 40),
            p_align: le_u64(bytes, at + 48),
        }
    }
}

} // verus!
