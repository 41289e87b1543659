//! Loading a program into guest memory, and the allocator behind the
//! program break.
//!
//! Guest memory is one window that starts at the page of the lowest
//! segment.  Each loadable segment extends the window to the end of its
//! last page and gives its pages the protection that its flags ask for;
//! pages between segments stay without access.  Allocation extends the
//! window further, in whole pages that may be read and written.
use crate::arith::{signed32, to_i32};
use crate::elfdef::{
    lemma_rounding, max_u64, round_down, round_up, spec_round_down, spec_round_up, to_guest,
    to_host, Ehdr, Phdr, EHDR_SIZE, EI_CLASS, ELFCLASS64, ELFMAG0, ELFMAG1, ELFMAG2, ELFMAG3,
    EM_RISCV, GUEST_MEMORY_OFFSET, PF_R, PF_W, PF_X, PHDR_SIZE, PROT_EXEC, PROT_READ,
    PROT_WRITE, PT_LOAD,
};
use crate::memory::{le_value, MemView};
use crate::rvemu::{Mmu, MmuView};
use vstd::prelude::*;

verus! {

/// Why a program could not be loaded.
#[derive(Clone, Copy, Debug, PartialEq, Eq, Structural)]
pub enum LoadError {
    /// The file ends before a header or a segment that it announces.
    FileTooSmall,
    /// The file does not start with the ELF magic number.
    BadMagic,
    /// The file is not a 64-bit RISC-V program.
    NotRiscv64,
    /// The page size is zero or beyond `MAX_PAGE_SIZE`.
    BadPageSize,
    /// A segment is larger in the file than in memory, lies below the
    /// window, or ends beyond what can be addressed.
    BadSegment,
    /// Guest memory cannot be extended as far as the stack and the
    /// arguments need.
    OutOfMemory,
}

/// The largest page size that the loader works with.
pub const MAX_PAGE_SIZE: u64 = 0x1_0000_0000;

/// The page sizes that the loader works with.
pub open spec fn page_size_ok(pz: u64) -> bool {
    0 < pz <= MAX_PAGE_SIZE
}

/// The protection that a segment asks for: readable, writable and
/// executable as its flags say.
pub open spec fn spec_flags_to_prot(flags: i32) -> int {
    (if flags & PF_R != 0 {
        PROT_READ as int
    } else {
        0
    }) + (if flags & PF_W != 0 {
        PROT_WRITE as int
    } else {
        0
    }) + (if flags & PF_X != 0 {
        PROT_EXEC as int
    } else {
        0
    })
}

/// The protection of the pages of a segment with the flags `flags`.
pub fn flags_to_mmap_prot(flags: i32) -> (r: i32)
    ensures
        r == spec_flags_to_prot(flags),
        0 <= r <= 7,
{
    let r: i32 = if (flags & PF_R) != 0 {
        PROT_READ as i32
    } else {
        0
    };
    let w: i32 = if (flags & PF_W) != 0 {
        PROT_WRITE as i32
    } else {
        0
    };
    let x: i32 = if (flags & PF_X) != 0 {
        PROT_EXEC as i32
    } else {
        0
    };
    r + w + x
}

/// The protection of the pages of the segment `p`, as guest memory records
/// it.
pub open spec fn segment_prot(p: Phdr) -> u8 {
    spec_flags_to_prot(signed32(p.p_flags) as i32) as u8
}

/// The protection of allocated memory: it may be read and written.
pub const PROT_ALLOC: u8 = 3;

/// Where program header `i` lies in a file whose table of program headers
/// starts at `phoff` and has entries of `phentsize` bytes.
pub open spec fn phdr_offset(phoff: u64, phentsize: u16, i: int) -> int {
    phoff + phentsize * i
}

/// Program header `i` lies inside a file of `len` bytes.
pub open spec fn phdr_in_file(phoff: u64, phentsize: u16, i: int, len: nat) -> bool {
    0 <= i && phdr_offset(phoff, phentsize, i) + PHDR_SIZE <= len
}

/// Reads program header `i` from the file image.  Fails, leaving `phdr`
/// as it was, exactly if the header does not lie inside the file.
pub fn load_phdr(phdr: &mut Phdr, ehdr: &Ehdr, i: i64, image: &Vec<u8>) -> (r: Result<
    (),
    LoadError,
>)
    ensures
        phdr_in_file(ehdr.e_phoff, ehdr.e_phentsize, i as int, image@.len()) ==> r is Ok
            && *final(phdr) == Phdr::from_bytes(
            image@,
            phdr_offset(ehdr.e_phoff, ehdr.e_phentsize, i as int),
        ),
        !phdr_in_file(ehdr.e_phoff, ehdr.e_phentsize, i as int, image@.len()) ==> r == Err::<
            (),
            LoadError,
        >(LoadError::FileTooSmall) && *final(phdr) == *old(phdr),
{
    let len: usize = image.len();
    if i < 0 || len < PHDR_SIZE {
        return Err(LoadError::FileTooSmall);
    }
    let last: u64 = (len - PHDR_SIZE) as u64;
    let index: u64 = i as u64;
    let size: u64 = ehdr.e_phentsize as u64;
    assert(size * index == ehdr.e_phentsize * i) by (nonlinear_arith)
        requires
            size == ehdr.e_phentsize,
            index == i,
    ;
    assert(size * index >= 0) by (nonlinear_arith)
        requires
            size >= 0,
            index >= 0,
    ;
    let offset: u64 = match size.checked_mul(index) {
        Some(skip) => match ehdr.e_phoff.checked_add(skip) {
            Some(offset) => offset,
            None => {
                return Err(LoadError::FileTooSmall);
            },
        },
        None => {
            return Err(LoadError::FileTooSmall);
        },
    };
    if offset > last {
        return Err(LoadError::FileTooSmall);
    }
    *phdr = Phdr::parse(image, offset as usize);
    Ok(())
}

/// First address of the first page of a segment.
pub open spec fn seg_lo(p: Phdr, pz: u64) -> int {
    spec_round_down(p.p_vaddr as int, pz as int)
}

/// First address past the last page of a segment.
pub open spec fn seg_hi(p: Phdr, pz: u64) -> int {
    spec_round_up(p.p_vaddr + p.p_memsz, pz as int)
}

/// Where the window starts once the segment `p` is loaded.
pub open spec fn window_start(mv: MmuView, p: Phdr) -> int {
    if mv.host_alloc == 0 {
        seg_lo(p, mv.page_size)
    } else {
        mv.mem.start as int
    }
}

/// Where the window ends once the segment `p` is loaded.
pub open spec fn window_end(mv: MmuView, p: Phdr) -> int {
    if mv.host_alloc == 0 || mv.mem.end() < seg_hi(p, mv.page_size) {
        seg_hi(p, mv.page_size)
    } else {
        mv.mem.end()
    }
}

/// Why the segment `p` of a file of `len` bytes cannot be loaded, if it
/// cannot.
pub open spec fn segment_error(mv: MmuView, p: Phdr, len: nat) -> Option<LoadError> {
    if !page_size_ok(mv.page_size) {
        Some(LoadError::BadPageSize)
    } else if p.p_offset + p.p_filesz > len {
        Some(LoadError::FileTooSmall)
    } else if p.p_filesz > p.p_memsz || seg_hi(p, mv.page_size) + GUEST_MEMORY_OFFSET
        > u64::MAX || (mv.host_alloc != 0 && seg_lo(p, mv.page_size) < mv.mem.start)
        || window_end(mv, p) - window_start(mv, p) > usize::MAX {
        Some(LoadError::BadSegment)
    } else {
        None
    }
}

/// The memory unit after the segment `p` is loaded from `image`.  The window
/// reaches to the end of the segment's last page, new bytes being zero and
/// without access; the pages of the segment get the protection that its
/// flags ask for; the segment's bytes in the file lie at its address, and
/// the rest of the segment up to its size in memory is zero.  Allocation
/// starts at the end of the window.
pub open spec fn spec_load_segment(mv: MmuView, p: Phdr, image: Seq<u8>) -> MmuView {
    let start = window_start(mv, p);
    let end = window_end(mv, p);
    let lo = seg_lo(p, mv.page_size);
    let hi = seg_hi(p, mv.page_size);
    let grown = (MemView { start: start as u64, ..mv.mem }).grown(
        (end - start - mv.mem.bytes.len()) as nat,
        0,
    );
    let protected = grown.with_prot(lo as u64, (hi - lo) as nat, segment_prot(p));
    let filled = protected.with_bytes(
        p.p_vaddr,
        image.subrange(p.p_offset as int, p.p_offset + p.p_filesz),
    );
    let cleared = filled.with_bytes(
        (p.p_vaddr + p.p_filesz) as u64,
        Seq::new((p.p_memsz - p.p_filesz) as nat, |i: int| 0u8),
    );
    MmuView {
        host_alloc: (end + GUEST_MEMORY_OFFSET) as u64,
        alloc: end as u64,
        base: end as u64,
        mem: cleared,
        ..mv
    }
}

/// Loads one segment of the file image into guest memory.  Returns the
/// protection that the segment asks for, or the reason why the segment
/// cannot be loaded, in which case nothing has changed.
pub fn mmu_load_segment(mmu: &mut Mmu, phdr: Phdr, image: &Vec<u8>) -> (r: Result<
    i32,
    LoadError,
>)
    requires
        old(mmu)@.fresh() || old(mmu)@.loaded(),
    ensures
        match segment_error(old(mmu)@, phdr, image@.len()) {
            Some(e) => r == Err::<i32, LoadError>(e) && *final(mmu) == *old(mmu),
            None => r == Ok::<i32, LoadError>(
                spec_flags_to_prot(signed32(phdr.p_flags) as i32) as i32,
            ) && final(mmu)@ == spec_load_segment(old(mmu)@, phdr, image@)
                && final(mmu)@.loaded(),
        },
{
    let pz: u64 = mmu.page_size;
    if pz == 0 || pz > MAX_PAGE_SIZE {
        return Err(LoadError::BadPageSize);
    }
    let len: usize = image.len();
    if phdr.p_offset > len as u64 || phdr.p_filesz > len as u64 - phdr.p_offset {
        return Err(LoadError::FileTooSmall);
    }
    if phdr.p_filesz > phdr.p_memsz {
        return Err(LoadError::BadSegment);
    }
    proof {
        lemma_rounding(phdr.p_vaddr + phdr.p_memsz + pz - 1, pz as int);
        lemma_rounding(phdr.p_vaddr as int, pz as int);
    }
    let limit: u64 = u64::MAX - GUEST_MEMORY_OFFSET;
    let top: u64 = match phdr.p_vaddr.checked_add(phdr.p_memsz) {
        Some(t) => t,
        None => {
            return Err(LoadError::BadSegment);
        },
    };
    if top > limit {
        return Err(LoadError::BadSegment);
    }
    let hi: u64 = round_up(top, pz);
    if hi > limit {
        return Err(LoadError::BadSegment);
    }
    let lo: u64 = round_down(phdr.p_vaddr, pz);
    let cur: usize = mmu.mem.bytes.len();
    let first: bool = mmu.host_alloc == 0;
    if !first && lo < mmu.mem.start {
        return Err(LoadError::BadSegment);
    }
    let start: u64 = if first {
        lo
    } else {
        mmu.mem.start
    };
    let end: u64 = if first || mmu.mem.end() < hi {
        hi
    } else {
        mmu.mem.end()
    };
    if end - start > usize::MAX as u64 {
        return Err(LoadError::BadSegment);
    }
    if first {
        mmu.mem.start = start;
    }
    mmu.mem.grow((end - start) as usize - cur, 0);
    let prot: i32 = flags_to_mmap_prot(to_i32(phdr.p_flags));
    mmu.mem.protect(lo, (hi - lo) as usize, prot as u8);
    mmu.mem.copy_in(phdr.p_vaddr, image, phdr.p_offset as usize, phdr.p_filesz as usize);
    mmu.mem.fill_zero(phdr.p_vaddr + phdr.p_filesz, (phdr.p_memsz - phdr.p_filesz) as usize);
    mmu.host_alloc = max_u64(mmu.host_alloc, to_host(hi));
    mmu.alloc = to_guest(mmu.host_alloc);
    mmu.base = mmu.alloc;
    assert(mmu@.host_alloc == end + GUEST_MEMORY_OFFSET);
    assert(mmu@.mem.bytes.len() == end - start);
    assert(mmu@.mem == spec_load_segment(old(mmu)@, phdr, image@).mem);
    assert(mmu@.loaded());
    Ok(prot)
}

/// Why a file is rejected on its header alone, if it is.
pub open spec fn header_error(image: Seq<u8>) -> Option<LoadError> {
    if image.len() < EHDR_SIZE {
        Some(LoadError::FileTooSmall)
    } else if image[0] != ELFMAG0 || image[1] != ELFMAG1 || image[2] != ELFMAG2 || image[3]
        != ELFMAG3 {
        Some(LoadError::BadMagic)
    } else if le_value(image, 18, 2) != EM_RISCV || image[EI_CLASS as int] != ELFCLASS64 {
        Some(LoadError::NotRiscv64)
    } else {
        None
    }
}

/// How loading ends: the memory unit as loading left it, and the error
/// that stopped it, if one did.
pub struct LoadRun {
    pub mmu: MmuView,
    pub error: Option<LoadError>,
}

/// Loading the program headers `i` to `n - 1` in order.  Headers of another
/// type than `PT_LOAD` are passed over; the first header outside the file
/// and the first segment that cannot be loaded stop the run.
pub open spec fn spec_load_segments(
    mv: MmuView,
    image: Seq<u8>,
    phoff: u64,
    phentsize: u16,
    i: int,
    n: int,
) -> LoadRun
    decreases n - i,
{
    if i >= n {
        LoadRun { mmu: mv, error: None }
    } else if !phdr_in_file(phoff, phentsize, i, image.len()) {
        LoadRun { mmu: mv, error: Some(LoadError::FileTooSmall) }
    } else {
        let p = Phdr::from_bytes(image, phdr_offset(phoff, phentsize, i));
        if p.p_type != PT_LOAD {
            spec_load_segments(mv, image, phoff, phentsize, i + 1, n)
        } else {
            match segment_error(mv, p, image.len()) {
                Some(e) => LoadRun { mmu: mv, error: Some(e) },
                None => spec_load_segments(
                    spec_load_segment(mv, p, image),
                    image,
                    phoff,
                    phentsize,
                    i + 1,
                    n,
                ),
            }
        }
    }
}

/// Loading a program: the header is checked, the entry point taken from
/// it, and the segments loaded in the order of their headers.
pub open spec fn spec_load_elf(mv: MmuView, image: Seq<u8>) -> LoadRun {
    match header_error(image) {
        Some(e) => LoadRun { mmu: mv, error: Some(e) },
        None => spec_load_segments(
            MmuView { entry: le_value(image, 24, 8) as u64, ..mv },
            image,
            le_value(image, 32, 8) as u64,
            le_value(image, 54, 2) as u16,
            0,
            le_value(image, 56, 2),
        ),
    }
}

/// Loads the program in the file image into guest memory and records its
/// entry point.  On an error the memory unit is left as loading reached
/// it.
pub fn mmu_load_elf(mmu: &mut Mmu, image: &Vec<u8>) -> (r: Result<(), LoadError>)
    requires
        old(mmu)@.fresh(),
    ensures
        final(mmu)@ == spec_load_elf(old(mmu)@, image@).mmu,
        r is Ok <==> spec_load_elf(old(mmu)@, image@).error is None,
        r is Err ==> Some(r->Err_0) == spec_load_elf(old(mmu)@, image@).error,
        final(mmu)@.fresh() || final(mmu)@.loaded(),
{
    if image.len() < EHDR_SIZE {
        return Err(LoadError::FileTooSmall);
    }
    let ehdr: Ehdr = Ehdr::parse(image);
    if image[0] != ELFMAG0 || image[1] != ELFMAG1 || image[2] != ELFMAG2 || image[3] != ELFMAG3 {
        return Err(LoadError::BadMagic);
    }
    if ehdr.e_machine != EM_RISCV || ehdr.e_ident[EI_CLASS] != ELFCLASS64 {
        return Err(LoadError::NotRiscv64);
    }
    mmu.entry = ehdr.e_entry;
    let count: i64 = ehdr.e_phnum as i64;
    let mut phdr: Phdr = Phdr::new();
    let mut i: i64 = 0;
    while i < count
        invariant
            0 <= i <= count,
            count == ehdr.e_phnum,
            mmu@.fresh() || mmu@.loaded(),
            spec_load_elf(old(mmu)@, image@) == spec_load_segments(
                mmu@,
                image@,
                ehdr.e_phoff,
                ehdr.e_phentsize,
                i as int,
                count as int,
            ),
        decreases count - i,
    {
        match load_phdr(&mut phdr, &ehdr, i, image) {
            Ok(()) => {},
            Err(e) => {
                return Err(e);
            },
        }
        if phdr.p_type == PT_LOAD {
            match mmu_load_segment(mmu, phdr, image) {
                Ok(_) => {},
                Err(e) => {
                    return Err(e);
                },
            }
        }
        i = i + 1;
    }
    Ok(())
}

/// The memory unit after the allocation cursor moves by `sz` bytes, or
/// `None` if memory cannot be extended that far.  When the cursor moves
/// past the end of memory, memory grows by `sz` rounded up to whole pages,
/// the new bytes being zero, readable and writable; when it moves back,
/// the whole pages above it are given up.
pub open spec fn spec_alloc(mv: MmuView, sz: i64) -> Option<MmuView> {
    let pz = mv.page_size as int;
    let cursor = mv.alloc + sz;
    let end = mv.mem.end();
    if !page_size_ok(mv.page_size) {
        None
    } else if sz > 0 && cursor > end {
        let more = spec_round_up(sz as int, pz);
        if end + more + GUEST_MEMORY_OFFSET <= u64::MAX && mv.mem.bytes.len() + more
            <= usize::MAX {
            Some(
                MmuView {
                    alloc: cursor as u64,
                    host_alloc: (mv.host_alloc + more) as u64,
                    mem: mv.mem.grown(more as nat, PROT_ALLOC),
                    ..mv
                },
            )
        } else {
            None
        }
    } else if sz < 0 && spec_round_up(cursor, pz) < end {
        let keep = spec_round_up(cursor, pz);
        Some(
            MmuView {
                alloc: cursor as u64,
                host_alloc: (keep + GUEST_MEMORY_OFFSET) as u64,
                mem: mv.mem.shrunk((end - keep) as nat),
                ..mv
            },
        )
    } else {
        Some(MmuView { alloc: cursor as u64, ..mv })
    }
}

/// Moves the allocation cursor by `sz` bytes, which may be negative, and
/// returns where it was: the address of the allocated bytes.  Returns `None`
/// and changes nothing if memory cannot be extended that far.  The cursor
/// must not move below the place where allocation started.
pub fn mmu_alloc(mmu: &mut Mmu, sz: i64) -> (r: Option<u64>)
    requires
        old(mmu)@.loaded(),
        old(mmu).base <= old(mmu).alloc + sz,
    ensures
        match spec_alloc(old(mmu)@, sz) {
            Some(mv) => r == Some(old(mmu).alloc) && final(mmu)@ == mv && final(mmu)@.loaded(),
            None => r is None && *final(mmu) == *old(mmu),
        },
{
    let pz: u64 = mmu.page_size;
    if pz == 0 || pz > MAX_PAGE_SIZE {
        return None;
    }
    let was: u64 = mmu.alloc;
    let end: u64 = mmu.mem.end();
    let len: usize = mmu.mem.bytes.len();
    if sz > 0 {
        let size: u64 = sz as u64;
        if size <= end - mmu.alloc {
            mmu.alloc = mmu.alloc + size;
            return Some(was);
        }
        let more: u64 = round_up(size, pz);
        if more > u64::MAX - GUEST_MEMORY_OFFSET - end || more > (usize::MAX - len) as u64 {
            return None;
        }
        mmu.mem.grow(more as usize, PROT_ALLOC);
        mmu.host_alloc = mmu.host_alloc + more;
        mmu.alloc = mmu.alloc + size;
        Some(was)
    } else if sz < 0 {
        let cursor: u64 = mmu.alloc.wrapping_add_signed(sz);
        let keep: u64 = round_up(cursor, pz);
        if keep < end {
            proof {
                lemma_rounding(cursor + pz - 1, pz as int);
            }
            mmu.mem.shrink((end - keep) as usize);
            mmu.host_alloc = keep + GUEST_MEMORY_OFFSET;
        }
        mmu.alloc = cursor;
        Some(was)
    } else {
        Some(was)
    }
}

} // verus!
