//! The system calls of the guest: their numbers, which of them the host
//! serves, and the ones that are served on the machine alone.
//!
//! The host performs a system call after `machine_step` has returned for
//! one.  The number is in `a7`, the arguments are in `a0` to `a5`, and
//! the result goes to `a0`.
use crate::mmu::{mmu_alloc, spec_alloc};
use crate::rvemu::Machine;
use vstd::prelude::*;

verus! {

// The numbers of the system calls.
pub const SYS_EXIT: usize = 93;

pub const SYS_EXIT_GROUP: usize = 94;

pub const SYS_GETPID: usize = 172;

pub const SYS_KILL: usize = 129;

pub const SYS_TGKILL: usize = 131;

pub const SYS_READ: usize = 63;

pub const SYS_WRITE: usize = 64;

pub const SYS_OPENAT: usize = 56;

pub const SYS_CLOSE: usize = 57;

pub const SYS_LSEEK: usize = 62;

pub const SYS_BRK: usize = 214;

pub const SYS_LINKAT: usize = 37;

pub const SYS_UNLINKAT: usize = 35;

pub const SYS_MKDIRAT: usize = 34;

pub const SYS_RENAMEAT: usize = 38;

pub const SYS_CHDIR: usize = 49;

pub const SYS_GETCWD: usize = 17;

pub const SYS_FSTAT: usize = 80;

pub const SYS_FSTATAT: usize = 79;

pub const SYS_FACCESSAT: usize = 48;

pub const SYS_PREAD: usize = 67;

pub const SYS_PWRITE: usize = 68;

pub const SYS_UNAME: usize = 160;

pub const SYS_GETUID: usize = 174;

pub const SYS_GETEUID: usize = 175;

pub const SYS_GETGID: usize = 176;

pub const SYS_GETEGID: usize = 177;

pub const SYS_GETTID: usize = 178;

pub const SYS_SYSINFO: usize = 179;

pub const SYS_MMAP: usize = 222;

pub const SYS_MUNMAP: usize = 215;

pub const SYS_MREMAP: usize = 216;

pub const SYS_MPROTECT: usize = 226;

pub const SYS_PRLIMIT64: usize = 261;

pub const SYS_GETMAINVARS: usize = 2011;

pub const SYS_RT_SIGACTION: usize = 134;

pub const SYS_WRITEV: usize = 66;

pub const SYS_GETTIMEOFDAY: usize = 169;

pub const SYS_TIMES: usize = 153;

pub const SYS_FCNTL: usize = 25;

pub const SYS_FTRUNCATE: usize = 46;

pub const SYS_GETDENTS: usize = 61;

pub const SYS_DUP: usize = 23;

pub const SYS_DUP3: usize = 24;

pub const SYS_READLINKAT: usize = 78;

pub const SYS_RT_SIGPROCMASK: usize = 135;

pub const SYS_IOCTL: usize = 29;

pub const SYS_GETRLIMIT: usize = 163;

pub const SYS_SETRLIMIT: usize = 164;

pub const SYS_GETRUSAGE: usize = 165;

pub const SYS_CLOCK_GETTIME: usize = 113;

pub const SYS_SET_TID_ADDRESS: usize = 96;

pub const SYS_SET_ROBUST_LIST: usize = 99;

pub const SYS_MADVISE: usize = 233;

pub const SYS_STATX: usize = 291;

/// Where the numbers of the system calls of older programs start.
pub const OLD_SYSCALL_THRESHOLD: usize = 1024;

// The numbers of the system calls of older programs.
pub const SYS_OPEN: usize = 1024;

pub const SYS_LINK: usize = 1025;

pub const SYS_UNLINK: usize = 1026;

pub const SYS_MKDIR: usize = 1030;

pub const SYS_ACCESS: usize = 1033;

pub const SYS_STAT: usize = 1038;

pub const SYS_LSTAT: usize = 1039;

pub const SYS_TIME: usize = 1062;

// The guest's flags for `open`.
pub const NEWLIB_O_RDONLY: i32 = 0x0;

pub const NEWLIB_O_WRONLY: i32 = 0x1;

pub const NEWLIB_O_RDWR: i32 = 0x2;

pub const NEWLIB_O_APPEND: i32 = 0x8;

pub const NEWLIB_O_CREAT: i32 = 0x200;

pub const NEWLIB_O_TRUNC: i32 = 0x400;

pub const NEWLIB_O_EXCL: i32 = 0x800;

/// What the host does for a system call.
#[derive(Clone, Copy, Debug, PartialEq, Eq, Structural)]
pub enum SysCall {
    Exit,
    Read,
    Write,
    Openat,
    Close,
    Fstat,
    Lseek,
    Brk,
    Gettimeofday,
    Open,
    /// A known system call that the host does not serve.
    Unimplemented,
    /// A number that names no system call.
    Unknown,
}

/// Whether `n` is the number of a system call that the host knows but
/// does not serve.
pub open spec fn is_unimplemented(n: u64) -> bool {
    n == SYS_GETPID || n == SYS_KILL || n == SYS_TGKILL || n == SYS_LINKAT ||
        n == SYS_UNLINKAT || n == SYS_MKDIRAT || n == SYS_RENAMEAT || n == SYS_CHDIR ||
        n == SYS_GETCWD || n == SYS_FSTATAT || n == SYS_FACCESSAT || n == SYS_PREAD ||
        n == SYS_PWRITE || n == SYS_UNAME || n == SYS_GETUID || n == SYS_GETEUID ||
        n == SYS_GETGID || n == SYS_GETEGID || n == SYS_GETTID || n == SYS_SYSINFO ||
        n == SYS_MMAP || n == SYS_MUNMAP || n == SYS_MREMAP || n == SYS_MPROTECT ||
        n == SYS_PRLIMIT64 || n == SYS_GETMAINVARS || n == SYS_RT_SIGACTION ||
        n == SYS_WRITEV || n == SYS_TIMES || n == SYS_FCNTL || n == SYS_FTRUNCATE ||
        n == SYS_GETDENTS || n == SYS_DUP || n == SYS_DUP3 || n == SYS_READLINKAT ||
        n == SYS_RT_SIGPROCMASK || n == SYS_IOCTL || n == SYS_GETRLIMIT ||
        n == SYS_SETRLIMIT || n == SYS_GETRUSAGE || n == SYS_CLOCK_GETTIME ||
        n == SYS_SET_TID_ADDRESS || n == SYS_SET_ROBUST_LIST || n == SYS_MADVISE ||
        n == SYS_STATX || n == SYS_LINK || n == SYS_UNLINK || n == SYS_MKDIR ||
        n == SYS_ACCESS || n == SYS_STAT || n == SYS_LSTAT || n == SYS_TIME
}

/// The service that the system call number `n` asks for.
pub open spec fn spec_syscall(n: u64) -> SysCall {
    if n == SYS_EXIT || n == SYS_EXIT_GROUP {
        SysCall::Exit
    } else if n == SYS_READ {
        SysCall::Read
    } else if n == SYS_WRITE {
        SysCall::Write
    } else if n == SYS_OPENAT {
        SysCall::Openat
    } else if n == SYS_CLOSE {
        SysCall::Close
    } else if n == SYS_FSTAT {
        SysCall::Fstat
    } else if n == SYS_LSEEK {
        SysCall::Lseek
    } else if n == SYS_BRK {
        SysCall::Brk
    } else if n == SYS_GETTIMEOFDAY {
        SysCall::Gettimeofday
    } else if n == SYS_OPEN {
        SysCall::Open
    } else if is_unimplemented(n) {
        SysCall::Unimplemented
    } else {
        SysCall::Unknown
    }
}

/// Whether `n` is the number of a system call that the host knows but
/// does not serve.
fn known_unimplemented(n: u64) -> (r: bool)
    ensures
        r == is_unimplemented(n),
{
    n == SYS_GETPID as u64 || n == SYS_KILL as u64 || n == SYS_TGKILL as u64 ||
        n == SYS_LINKAT as u64 || n == SYS_UNLINKAT as u64 || n == SYS_MKDIRAT as u64 ||
        n == SYS_RENAMEAT as u64 || n == SYS_CHDIR as u64 || n == SYS_GETCWD as u64 ||
        n == SYS_FSTATAT as u64 || n == SYS_FACCESSAT as u64 || n == SYS_PREAD as u64 ||
        n == SYS_PWRITE as u64 || n == SYS_UNAME as u64 || n == SYS_GETUID as u64 ||
        n == SYS_GETEUID as u64 || n == SYS_GETGID as u64 || n == SYS_GETEGID as u64 ||
        n == SYS_GETTID as u64 || n == SYS_SYSINFO as u64 || n == SYS_MMAP as u64 ||
        n == SYS_MUNMAP as u64 || n == SYS_MREMAP as u64 || n == SYS_MPROTECT as u64 ||
        n == SYS_PRLIMIT64 as u64 || n == SYS_GETMAINVARS as u64 ||
        n == SYS_RT_SIGACTION as u64 || n == SYS_WRITEV as u64 || n == SYS_TIMES as u64 ||
        n == SYS_FCNTL as u64 || n == SYS_FTRUNCATE as u64 || n == SYS_GETDENTS as u64 ||
        n == SYS_DUP as u64 || n == SYS_DUP3 as u64 || n == SYS_READLINKAT as u64 ||
        n == SYS_RT_SIGPROCMASK as u64 || n == SYS_IOCTL as u64 ||
        n == SYS_GETRLIMIT as u64 || n == SYS_SETRLIMIT as u64 ||
        n == SYS_GETRUSAGE as u64 || n == SYS_CLOCK_GETTIME as u64 ||
        n == SYS_SET_TID_ADDRESS as u64 || n == SYS_SET_ROBUST_LIST as u64 ||
        n == SYS_MADVISE as u64 || n == SYS_STATX as u64 || n == SYS_LINK as u64 ||
        n == SYS_UNLINK as u64 || n == SYS_MKDIR as u64 || n == SYS_ACCESS as u64 ||
        n == SYS_STAT as u64 || n == SYS_LSTAT as u64 || n == SYS_TIME as u64
}

/// Selects the service for the system call number `n`.
pub fn syscall_kind(n: u64) -> (r: SysCall)
    ensures
        r == spec_syscall(n),
{
    if n == SYS_EXIT as u64 || n == SYS_EXIT_GROUP as u64 {
        SysCall::Exit
    } else if n == SYS_READ as u64 {
        SysCall::Read
    } else if n == SYS_WRITE as u64 {
        SysCall::Write
    } else if n == SYS_OPENAT as u64 {
        SysCall::Openat
    } else if n == SYS_CLOSE as u64 {
        SysCall::Close
    } else if n == SYS_FSTAT as u64 {
        SysCall::Fstat
    } else if n == SYS_LSEEK as u64 {
        SysCall::Lseek
    } else if n == SYS_BRK as u64 {
        SysCall::Brk
    } else if n == SYS_GETTIMEOFDAY as u64 {
        SysCall::Gettimeofday
    } else if n == SYS_OPEN as u64 {
        SysCall::Open
    } else if known_unimplemented(n) {
        SysCall::Unimplemented
    } else {
        SysCall::Unknown
    }
}

/// The address that a request for the program break `addr` asks for: the
/// break itself for the request 0, which only queries it.
pub open spec fn brk_target(alloc: u64, addr: u64) -> u64 {
    if addr == 0 {
        alloc
    } else {
        addr
    }
}

/// The system call `brk`: moves the program break to the address in `a0`
/// and returns it, or returns the break for the address 0.  Returns `None`
/// and changes nothing if memory cannot be extended that far.  The
/// address must not lie below the place where allocation started.
pub fn sys_brk(m: &mut Machine) -> (r: Option<u64>)
    requires
        old(m).mmu@.loaded(),
        old(m).state.gp_regs[10] == 0 || old(m).state.gp_regs[10] >= old(m).mmu.base,
    ensures
        final(m).state == old(m).state,
        ({
            let target = brk_target(old(m).mmu.alloc, old(m).state.gp_regs[10]);
            let incr = target - old(m).mmu.alloc;
            if incr < i64::MIN || incr > i64::MAX {
                r is None && final(m).mmu == old(m).mmu
            } else {
                match spec_alloc(old(m).mmu@, incr as i64) {
                    Some(mv) => r == Some(target) && final(m).mmu@ == mv && final(m).mmu@.loaded(),
                    None => r is None && final(m).mmu == old(m).mmu,
                }
            }
        }),
{
    let request: u64 = m.state.gp_regs[10];
    let addr: u64 = if request == 0 {
        m.mmu.alloc
    } else {
        request
    };
    let incr: i64 = if addr >= m.mmu.alloc {
        let up: u64 = addr - m.mmu.alloc;
        if up > i64::MAX as u64 {
            return None;
        }
        up as i64
    } else {
        let down: u64 = m.mmu.alloc - addr;
        if down > 0x8000_0000_0000_0000 {
            return None;
        }
        if down == 0x8000_0000_0000_0000 {
            i64::MIN
        } else {
            -(down as i64)
        }
    };
    match mmu_alloc(&mut m.mmu, incr) {
        Some(_) => Some(addr),
        None => None,
    }
}

/// The values that the host's `open` takes for the access modes and
/// creation flags.
#[derive(Clone, Copy, Debug, PartialEq, Eq, Structural)]
pub struct HostOpenFlags {
    pub rdonly: i32,
    pub wronly: i32,
    pub rdwr: i32,
    pub append: i32,
    pub creat: i32,
    pub trunc: i32,
    pub excl: i32,
}

/// Reads the constants `O_RDONLY`, `O_WRONLY`, `O_RDWR`, `O_APPEND`,
/// `O_CREAT`, `O_TRUNC` and `O_EXCL` of the crate `libc`.  Their values
/// differ from platform to platform, so nothing is claimed of them.
#[verifier::external_body]
fn host_open_flags() -> (r: HostOpenFlags) {
    HostOpenFlags {
        rdonly: libc::O_RDONLY,
        wronly: libc::O_WRONLY,
        rdwr: libc::O_RDWR,
        append: libc::O_APPEND,
        creat: libc::O_CREAT,
        trunc: libc::O_TRUNC,
        excl: libc::O_EXCL,
    }
}

/// The host's flag `host` if the guest's `flags` hold the guest's flag
/// `guest`, else nothing.
pub open spec fn pick_flag(flags: i32, guest: i32, host: i32) -> i32 {
    if flags & guest != 0 {
        host
    } else {
        0
    }
}

/// The guest's flags for `open` in the host's values: the union of the
/// host's flags for which the guest's flag is set.
pub open spec fn spec_convert_flags(flags: i32, host: HostOpenFlags) -> i32 {
    pick_flag(flags, NEWLIB_O_RDONLY, host.rdonly) | pick_flag(flags, NEWLIB_O_WRONLY, host.wronly)
        | pick_flag(flags, NEWLIB_O_RDWR, host.rdwr) | pick_flag(
        flags,
        NEWLIB_O_APPEND,
        host.append,
    ) | pick_flag(flags, NEWLIB_O_CREAT, host.creat) | pick_flag(
        flags,
        NEWLIB_O_TRUNC,
        host.trunc,
    ) | pick_flag(flags, NEWLIB_O_EXCL, host.excl)
}

fn pick(flags: i32, guest: i32, host: i32) -> (r: i32)
    ensures
        r == pick_flag(flags, guest, host),
{
    if (flags & guest) != 0 {
        host
    } else {
        0
    }
}

/// The guest's flags for `open` in the values in `host`.
pub fn convert_flags_for(flags: i32, host: &HostOpenFlags) -> (r: i32)
    ensures
        r == spec_convert_flags(flags, *host),
{
    pick(flags, NEWLIB_O_RDONLY, host.rdonly) | pick(flags, NEWLIB_O_WRONLY, host.wronly) | pick(
        flags,
        NEWLIB_O_RDWR,
        host.rdwr,
    ) | pick(flags, NEWLIB_O_APPEND, host.append) | pick(flags, NEWLIB_O_CREAT, host.creat)
        | pick(flags, NEWLIB_O_TRUNC, host.trunc) | pick(flags, NEWLIB_O_EXCL, host.excl)
}

/// The guest's flags for `open` in the values of this host.
pub fn convert_flags(flags: i32) -> (r: i32)
    ensures
        exists|host: HostOpenFlags| r == spec_convert_flags(flags, host),
{
    let host: HostOpenFlags = host_open_flags();
    convert_flags_for(flags, &host)
}

} // verus!
