//! A user-mode interpreter for the RV64GC instruction set.
//!
//! The crate decodes 16- and 32-bit instruction words, gives each decoded
//! instruction its effect on the register files and on guest memory, runs
//! the fetch/decode/execute loop up to the next system call, and loads a
//! statically linked program into guest memory.  Every function carries a
//! contract over the mathematical models defined next to it.
//!
//! - `decode`: the fields and formats of instruction words, the encoding
//!   tables, and the decoder.
//! - `encoding`: instruction words built from their fields, and the laws
//!   that decoding reads back what was encoded.
//! - `interp`: what each operation computes, one execution function per
//!   operation, and the interpreter loop.
//! - `interp_utils`: multiplication high halves, sign injection and
//!   floating-point classification.
//! - `arith`: two's-complement arithmetic over the integers.
//! - `memory`: guest memory, a window of bytes with checked access.
//! - `rvemu`, `reg`: the machine's data, from register names to the
//!   memory unit.
//! - `elfdef`, `mmu`: the program file format, loading and allocation.
//! - `machine`: running to the next system call, and the stack a program
//!   starts with.
//! - `sys_call`: the numbers of the system calls and what they ask for.
//!
//! Guest addresses outside guest memory, words that encode no supported
//! instruction and floating-point computations stop the interpreter with a
//! `Trap`; nothing in the crate panics.
pub mod arith;
pub mod decode;
pub mod elfdef;
pub mod encoding;
pub mod interp;
pub mod interp_utils;
pub mod machine;
pub mod memory;
pub mod mmu;
pub mod reg;
pub mod rvemu;
pub mod sys_call;
