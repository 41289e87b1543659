//! The machine: decoded instructions, processor state and the memory unit.
use crate::elfdef::GUEST_MEMORY_OFFSET;
use crate::memory::{GuestMemory, MemView};
use crate::reg::{FpRegT, NUM_FP_REGS, NUM_GP_REGS};
use vstd::prelude::*;

verus! {

/// The operation that a decoded instruction performs; `NumInsns` counts the
/// operations and names none.
#[derive(Clone, Copy, Debug, PartialEq, Eq, Structural)]
pub enum InsnType {
    InsnLb,
    InsnLh,
    InsnLw,
    InsnLd,
    InsnLbu,
    InsnLhu,
    InsnLwu,
    InsnFence,
    InsnFenceI,
    InsnAddi,
    InsnSlli,
    InsnSlti,
    InsnSltiu,
    InsnXori,
    InsnSrli,
    InsnSrai,
    InsnOri,
    InsnAndi,
    InsnAuipc,
    InsnAddiw,
    InsnSlliw,
    InsnSrliw,
    InsnSraiw,
    InsnSb,
    InsnSh,
    InsnSw,
    InsnSd,
    InsnAdd,
    InsnSll,
    InsnSlt,
    InsnSltu,
    InsnXor,
    InsnSrl,
    InsnOr,
    InsnAnd,
    InsnMul,
    InsnMulh,
    InsnMulhsu,
    InsnMulhu,
    InsnDiv,
    InsnDivu,
    InsnRem,
    InsnRemu,
    InsnSub,
    InsnSra,
    InsnLui,
    InsnAddw,
    InsnSllw,
    InsnSrlw,
    InsnMulw,
    InsnDivw,
    InsnDivuw,
    InsnRemw,
    InsnRemuw,
    InsnSubw,
    InsnSraw,
    InsnBeq,
    InsnBne,
    InsnBlt,
    InsnBge,
    InsnBltu,
    InsnBgeu,
    InsnJalr,
    InsnJal,
    InsnEcall,
    InsnCsrrc,
    InsnCsrrci,
    InsnCsrrs,
    InsnCsrrsi,
    InsnCsrrw,
    InsnCsrrwi,
    InsnFlw,
    InsnFsw,
    InsnFmaddS,
    InsnFmsubS,
    InsnFnmsubS,
    InsnFnmaddS,
    InsnFaddS,
    InsnFsubS,
    InsnFmulS,
    InsnFdivS,
    InsnFsqrtS,
    InsnFsgnjS,
    InsnFsgnjnS,
    InsnFsgnjxS,
    InsnFminS,
    InsnFmaxS,
    InsnFcvtWS,
    InsnFcvtWuS,
    InsnFmvXW,
    InsnFeqS,
    InsnFltS,
    InsnFleS,
    InsnFclassS,
    InsnFcvtSW,
    InsnFcvtSWu,
    InsnFmvWX,
    InsnFcvtLS,
    InsnFcvtLuS,
    InsnFcvtSL,
    InsnFcvtSLu,
    InsnFld,
    InsnFsd,
    InsnFmaddD,
    InsnFmsubD,
    InsnFnmsubD,
    InsnFnmaddD,
    InsnFaddD,
    InsnFsubD,
    InsnFmulD,
    InsnFdivD,
    InsnFsqrtD,
    InsnFsgnjD,
    InsnFsgnjnD,
    InsnFsgnjxD,
    InsnFminD,
    InsnFmaxD,
    InsnFcvtSD,
    InsnFcvtDS,
    InsnFeqD,
    InsnFltD,
    InsnFleD,
    InsnFclassD,
    InsnFcvtWD,
    InsnFcvtWuD,
    InsnFcvtDW,
    InsnFcvtDWu,
    InsnFcvtLD,
    InsnFcvtLuD,
    InsnFmvXD,
    InsnFcvtDL,
    InsnFcvtDLu,
    InsnFmvDX,
    NumInsns,
}

/// A decoded instruction.
#[derive(Clone, Copy, Debug, PartialEq, Eq, Structural)]
pub struct Insn {
    pub rd: i8,
    pub rs1: i8,
    pub rs2: i8,
    pub rs3: i8,
    pub imm: i32,
    pub csr: i16,
    pub i_type: InsnType,
    /// The encoding was 16 bits wide.
    pub rvc: bool,
    /// The instruction ends straight-line execution.
    pub cont: bool,
}

impl Insn {
    /// Every register field names one of the 32 registers of its file, and
    /// the operation is one.
    pub open spec fn wf(&self) -> bool {
        &&& self.i_type != InsnType::NumInsns
        &&& 0 <= self.rd < 32
        &&& 0 <= self.rs1 < 32
        &&& 0 <= self.rs2 < 32
        &&& 0 <= self.rs3 < 32
    }

    /// The instruction with all fields zero, which the readers start from.
    pub open spec fn blank() -> Insn {
        Insn {
            rd: 0,
            rs1: 0,
            rs2: 0,
            rs3: 0,
            imm: 0,
            csr: 0,
            i_type: InsnType::InsnAddi,
            rvc: false,
            cont: false,
        }
    }

    /// Width of the encoding in bytes.
    pub open spec fn spec_len(&self) -> int {
        if self.rvc {
            2
        } else {
            4
        }
    }

    /// The instruction with all fields zero.
    pub fn new() -> (r: Insn)
        ensures
            r == Insn::blank(),
            r.wf(),
    {
        Insn {
            rd: 0,
            rs1: 0,
            rs2: 0,
            rs3: 0,
            imm: 0,
            csr: 0,
            i_type: InsnType::InsnAddi,
            rvc: false,
            cont: false,
        }
    }
}

/// Why straight-line execution stopped.
#[derive(Clone, Copy, Debug, PartialEq, Eq, Structural)]
pub enum ExitReason {
    /// Nothing has stopped execution yet.
    NoExit,
    DirectBranch,
    IndirectBranch,
    Ecall,
}

/// The processor state: both register files, the program counter and the
/// record of the last control transfer.
#[derive(Clone, Copy, Debug)]
pub struct State {
    pub exit_reason: ExitReason,
    pub gp_regs: [u64; NUM_GP_REGS],
    pub pc: u64,
    pub reenter_pc: u64,
    pub fp_regs: [FpRegT; NUM_FP_REGS],
}

/// The processor state as contracts see it: the register files are
/// sequences of 32 raw 64-bit values.
pub struct StateView {
    pub exit_reason: ExitReason,
    pub gp: Seq<u64>,
    pub pc: u64,
    pub reenter_pc: u64,
    pub fp: Seq<u64>,
}

impl StateView {
    /// Both register files have their 32 registers.
    pub open spec fn wf(self) -> bool {
        self.gp.len() == 32 && self.fp.len() == 32
    }

    /// The state after integer register `rd` receives `v`.
    pub open spec fn write_gp(self, rd: int, v: u64) -> StateView {
        StateView { gp: self.gp.update(rd, v), ..self }
    }

    /// The state after floating-point register `rd` receives the bits `v`.
    pub open spec fn write_fp(self, rd: int, v: u64) -> StateView {
        StateView { fp: self.fp.update(rd, v), ..self }
    }
}

impl View for State {
    type V = StateView;

    open spec fn view(&self) -> StateView {
        StateView {
            exit_reason: self.exit_reason,
            gp: self.gp_regs@,
            pc: self.pc,
            reenter_pc: self.reenter_pc,
            fp: Seq::new(32, |i: int| self.fp_regs@[i].v),
        }
    }
}

impl State {
    /// The state with every register zero and no exit recorded.
    pub fn new() -> (r: State)
        ensures
            r@.wf(),
            r.exit_reason == ExitReason::NoExit,
            r.pc == 0,
            r.reenter_pc == 0,
            forall|i: int| 0 <= i < 32 ==> r@.gp[i] == 0,
            forall|i: int| 0 <= i < 32 ==> r@.fp[i] == 0,
    {
        State {
            exit_reason: ExitReason::NoExit,
            gp_regs: [0;32],
            pc: 0,
            reenter_pc: 0,
            fp_regs: [FpRegT { v: 0 };32],
        }
    }

    /// Writes floating-point register `rd`.
    pub fn set_fp(&mut self, rd: usize, v: u64)
        requires
            rd < 32,
        ensures
            final(self)@ == old(self)@.write_fp(rd as int, v),
    {
        self.fp_regs[rd] = FpRegT { v };
        assert(self@.fp =~= old(self)@.fp.update(rd as int, v));
    }

    /// Writes integer register `rd`.
    pub fn set_gp(&mut self, rd: usize, v: u64)
        requires
            rd < 32,
        ensures
            final(self)@ == old(self)@.write_gp(rd as int, v),
    {
        self.gp_regs[rd] = v;
        assert(self@.fp =~= old(self)@.fp);
    }
}

/// The memory unit: the program's entry point, the allocation cursor and
/// the guest memory itself.
pub struct Mmu {
    pub entry: u64,
    /// Host address of the end of mapped memory.
    pub host_alloc: u64,
    /// Guest address of the next allocation.
    pub alloc: u64,
    /// Guest address where allocation started.
    pub base: u64,
    /// Size of a page, the unit in which memory is mapped.
    pub page_size: u64,
    pub mem: GuestMemory,
}

/// The memory unit as contracts see it.
pub struct MmuView {
    pub entry: u64,
    pub host_alloc: u64,
    pub alloc: u64,
    pub base: u64,
    pub page_size: u64,
    pub mem: MemView,
}

impl MmuView {
    /// Nothing has been loaded yet.
    pub open spec fn fresh(self) -> bool {
        &&& self.mem.bytes.len() == 0
        &&& self.mem.prot.len() == 0
        &&& self.host_alloc == 0
        &&& self.alloc == 0
        &&& self.base == 0
    }

    /// A program has been loaded: `host_alloc`, no longer zero, is the host
    /// address of the end of guest memory, and the allocation cursor lies
    /// between the place where allocation started and that end.
    pub open spec fn loaded(self) -> bool {
        &&& self.mem.wf()
        &&& self.host_alloc == self.mem.end() + GUEST_MEMORY_OFFSET
        &&& self.mem.start <= self.base <= self.alloc <= self.mem.end()
    }
}

impl View for Mmu {
    type V = MmuView;

    open spec fn view(&self) -> MmuView {
        MmuView {
            entry: self.entry,
            host_alloc: self.host_alloc,
            alloc: self.alloc,
            base: self.base,
            page_size: self.page_size,
            mem: self.mem@,
        }
    }
}

/// Calls `page_size::get`, which asks the operating system for the size of
/// a memory page.  Nothing is claimed of the value: it differs from machine
/// to machine.
#[verifier::external_body]
fn host_page_size() -> (r: usize) {
    page_size::get()
}

impl Mmu {
    /// A memory unit with nothing loaded, for the page size of the host.
    pub fn new() -> (r: Mmu)
        ensures
            r.entry == 0,
            r@.fresh(),
            r.mem.start == 0,
    {
        Mmu {
            entry: 0,
            host_alloc: 0,
            alloc: 0,
            base: 0,
            page_size: host_page_size() as u64,
            mem: GuestMemory::new(),
        }
    }
}

/// The machine: the processor state and the memory unit.
pub struct Machine {
    pub state: State,
    pub mmu: Mmu,
}

impl Machine {
    /// A machine with every register zero and nothing loaded.
    pub fn new() -> (r: Machine)
        ensures
            r.state@.wf(),
            r.state.exit_reason == ExitReason::NoExit,
            r.state.pc == 0,
            r.state.reenter_pc == 0,
            forall|i: int| 0 <= i < 32 ==> r.state@.gp[i] == 0,
            forall|i: int| 0 <= i < 32 ==> r.state@.fp[i] == 0,
            r.mmu.entry == 0,
            r.mmu@.fresh(),
            r.mmu.mem.start == 0,
    {
        Machine { state: State::new(), mmu: Mmu::new() }
    }
}

/// Reads integer register `reg`.
pub fn machine_get_gp_reg(m: &Machine, reg: i32) -> (r: u64)
    requires
        0 <= reg < 32,
    ensures
        r == m.state@.gp[reg as int],
{
    m.state.gp_regs[reg as usize]
}

/// Writes integer register `reg`.
pub fn machine_set_gp_reg(m: &mut Machine, reg: i32, data: u64)
    requires
        0 <= reg < 32,
    ensures
        final(m).state@ == old(m).state@.write_gp(reg as int, data),
        final(m).mmu == old(m).mmu,
{
    m.state.set_gp(reg as usize, data);
}

/// Copies the first `len` bytes of `data` into guest memory at `addr`.
pub fn mmu_write(mem: &mut GuestMemory, addr: u64, data: &Vec<u8>, len: usize)
    requires
        old(mem)@.mapped(addr, len as nat),
        len <= data@.len(),
    ensures
        final(mem)@ == old(mem)@.with_bytes(addr, data@.subrange(0, len as int)),
{
    mem.copy_in(addr, data, 0, len);
}

} // verus!
