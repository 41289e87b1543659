//! Register names of the integer and floating-point register files.
use vstd::prelude::*;

verus! {

/// Number of integer registers.
pub const NUM_GP_REGS: usize = 32;

/// Number of floating-point registers.
pub const NUM_FP_REGS: usize = 32;

/// The integer registers by their ABI names, in index order.
#[derive(Clone, Copy, Debug, PartialEq, Eq, Structural)]
pub enum GpRegTypeT {
    Zero,
    RA,
    Sp,
    Gp,
    Tp,
    T0,
    T1,
    T2,
    S0,
    S1,
    A0,
    A1,
    A2,
    A3,
    A4,
    A5,
    A6,
    A7,
    S2,
    S3,
    S4,
    S5,
    S6,
    S7,
    S8,
    S9,
    S10,
    S11,
    T3,
    T4,
    T5,
    T6,
    NumGpRegS,
}

impl GpRegTypeT {
    /// The register's number in the integer register file; `NumGpRegS`
    /// counts the registers and names none.
    pub open spec fn spec_index(self) -> int {
        match self {
            GpRegTypeT::Zero => 0,
            GpRegTypeT::RA => 1,
            GpRegTypeT::Sp => 2,
            GpRegTypeT::Gp => 3,
            GpRegTypeT::Tp => 4,
            GpRegTypeT::T0 => 5,
            GpRegTypeT::T1 => 6,
            GpRegTypeT::T2 => 7,
            GpRegTypeT::S0 => 8,
            GpRegTypeT::S1 => 9,
            GpRegTypeT::A0 => 10,
            GpRegTypeT::A1 => 11,
            GpRegTypeT::A2 => 12,
            GpRegTypeT::A3 => 13,
            GpRegTypeT::A4 => 14,
            GpRegTypeT::A5 => 15,
            GpRegTypeT::A6 => 16,
            GpRegTypeT::A7 => 17,
            GpRegTypeT::S2 => 18,
            GpRegTypeT::S3 => 19,
            GpRegTypeT::S4 => 20,
            GpRegTypeT::S5 => 21,
            GpRegTypeT::S6 => 22,
            GpRegTypeT::S7 => 23,
            GpRegTypeT::S8 => 24,
            GpRegTypeT::S9 => 25,
            GpRegTypeT::S10 => 26,
            GpRegTypeT::S11 => 27,
            GpRegTypeT::T3 => 28,
            GpRegTypeT::T4 => 29,
            GpRegTypeT::T5 => 30,
            GpRegTypeT::T6 => 31,
            GpRegTypeT::NumGpRegS => 32,
        }
    }

    /// The register's number, for indexing the register file.
    pub fn index(self) -> (r: usize)
        ensures
            r == self.spec_index(),
            r <= 32,
    {
        match self {
            GpRegTypeT::Zero => 0,
            GpRegTypeT::RA => 1,
            GpRegTypeT::Sp => 2,
            GpRegTypeT::Gp => 3,
            GpRegTypeT::Tp => 4,
            GpRegTypeT::T0 => 5,
            GpRegTypeT::T1 => 6,
            GpRegTypeT::T2 => 7,
            GpRegTypeT::S0 => 8,
            GpRegTypeT::S1 => 9,
            GpRegTypeT::A0 => 10,
            GpRegTypeT::A1 => 11,
            GpRegTypeT::A2 => 12,
            GpRegTypeT::A3 => 13,
            GpRegTypeT::A4 => 14,
            GpRegTypeT::A5 => 15,
            GpRegTypeT::A6 => 16,
            GpRegTypeT::A7 => 17,
            GpRegTypeT::S2 => 18,
            GpRegTypeT::S3 => 19,
            GpRegTypeT::S4 => 20,
            GpRegTypeT::S5 => 21,
            GpRegTypeT::S6 => 22,
            GpRegTypeT::S7 => 23,
            GpRegTypeT::S8 => 24,
            GpRegTypeT::S9 => 25,
            GpRegTypeT::S10 => 26,
            GpRegTypeT::S11 => 27,
            GpRegTypeT::T3 => 28,
            GpRegTypeT::T4 => 29,
            GpRegTypeT::T5 => 30,
            GpRegTypeT::T6 => 31,
            GpRegTypeT::NumGpRegS => 32,
        }
    }
}

/// The floating-point registers by their ABI names, in index order.
#[derive(Clone, Copy, Debug, PartialEq, Eq, Structural)]
pub enum FpRegTypeT {
    Ft0,
    Ft1,
    Ft2,
    Ft3,
    Ft4,
    Ft5,
    Ft6,
    Ft7,
    Fs0,
    Fs1,
    Fa0,
    Fa1,
    Fa2,
    Fa3,
    Fa4,
    Fa5,
    Fa6,
    Fa7,
    Fs2,
    Fs3,
    Fs4,
    Fs5,
    Fs6,
    Fs7,
    Fs8,
    Fs9,
    Fs10,
    Fs11,
    Ft8,
    Ft9,
    Ft10,
    Ft11,
    NumFpRegs,
}

/// Pattern that fills the upper half of a floating-point register holding a
/// single-precision value.
pub const NAN_BOX: u64 = 0xffff_ffff_0000_0000;

/// A single-precision bit pattern boxed into a 64-bit register: the upper 32
/// bits are all ones.
pub open spec fn nan_box(w: u32) -> u64 {
    (0xffff_ffff_0000_0000 + w) as u64
}

/// One floating-point register, held as its 64 raw bits.
#[derive(Clone, Copy, Debug, PartialEq, Eq, Structural)]
pub struct FpRegT {
    pub v: u64,
}

impl FpRegT {
    /// A register holding the pattern zero.
    pub fn new() -> (r: Self)
        ensures
            r.v == 0,
    {
        Self { v: 0 }
    }

    /// The low 32 bits, where a single-precision value lives.
    pub open spec fn spec_w(self) -> u32 {
        (self.v % 0x1_0000_0000) as u32
    }

    /// The low 32 bits, where a single-precision value lives.
    pub fn w(&self) -> (r: u32)
        ensures
            r == self.spec_w(),
    {
        (self.v % 0x1_0000_0000) as u32
    }

    /// A register holding the single-precision pattern `w`, NaN-boxed.
    pub fn boxed(w: u32) -> (r: Self)
        ensures
            r.v == nan_box(w),
            r.spec_w() == w,
    {
        Self { v: NAN_BOX + w as u64 }
    }
}

} // verus!
