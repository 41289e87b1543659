//! The machine as the host drives it: run to the next system call.
use crate::interp::{
    exec_block_interp, lemma_block_resume, lemma_block_run, lemma_block_used, spec_block, Trap,
};
use crate::memory::MemView;
use crate::mmu::{mmu_alloc, mmu_load_elf, spec_alloc, spec_load_elf, LoadError};
use crate::rvemu::{mmu_write, ExitReason, Machine, MmuView, StateView};
use vstd::prelude::*;

verus! {

/// The block ended with a branch or a jump, which the machine follows
/// itself.
pub open spec fn is_branch_exit(r: ExitReason) -> bool {
    r == ExitReason::DirectBranch || r == ExitReason::IndirectBranch
}

/// How a run of the machine ends.
pub struct MachineRun {
    pub state: StateView,
    pub mem: MemView,
    /// The exit that hands control to the host, or the trap that stopped
    /// the run.
    pub result: Result<ExitReason, Trap>,
}

/// The run of the machine from the state `s` for at most `steps`
/// instructions.  Block after block is executed with the exit record
/// cleared; after a block that ends with a branch or jump the program
/// counter takes the recorded target and the next block starts with what
/// is left of the budget.  The run ends with the first block that ends
/// otherwise, or with a trap.
pub open spec fn spec_machine_step(s: StateView, m: MemView, steps: nat) -> MachineRun
    decreases steps,
    via spec_machine_step_decreases
{
    let b = spec_block(StateView { exit_reason: ExitReason::NoExit, ..s }, m, steps);
    match b.trap {
        Some(t) => MachineRun { state: b.state, mem: b.mem, result: Err(t) },
        None => if is_branch_exit(b.state.exit_reason) {
            spec_machine_step(
                StateView { pc: b.state.reenter_pc, ..b.state },
                b.mem,
                (steps - b.used) as nat,
            )
        } else {
            MachineRun { state: b.state, mem: b.mem, result: Ok(b.state.exit_reason) }
        },
    }
}

#[via_fn]
proof fn spec_machine_step_decreases(s: StateView, m: MemView, steps: nat) {
    lemma_block_used(StateView { exit_reason: ExitReason::NoExit, ..s }, m, steps);
}

/// A run that hands control to the host does so for a system call, with
/// integer register 0 reading zero.
pub proof fn lemma_machine_step_exit(s: StateView, m: MemView, steps: nat)
    requires
        s.wf(),
    ensures
        spec_machine_step(s, m, steps).result is Ok ==> spec_machine_step(s, m, steps).result
            == Ok::<ExitReason, Trap>(ExitReason::Ecall) && spec_machine_step(
            s,
            m,
            steps,
        ).state.gp[0] == 0,
        spec_machine_step(s, m, steps).state.wf(),
        s.gp[0] == 0 ==> spec_machine_step(s, m, steps).state.gp[0] == 0,
        spec_machine_step(s, m, steps).mem.start == m.start,
        spec_machine_step(s, m, steps).mem.bytes.len() == m.bytes.len(),
        spec_machine_step(s, m, steps).mem.prot == m.prot,
    decreases steps,
{
    let s0 = StateView { exit_reason: ExitReason::NoExit, ..s };
    let b = spec_block(s0, m, steps);
    lemma_block_run(s0, m, steps);
    if b.trap is None && is_branch_exit(b.state.exit_reason) {
        lemma_machine_step_exit(
            StateView { pc: b.state.reenter_pc, ..b.state },
            b.mem,
            (steps - b.used) as nat,
        );
    }
}

/// The budget does not change what the machine computes.  A run that
/// stops because its budget of `a` instructions is used up, continued with
/// a budget of `b` from where it stopped, ends as the run with the budget
/// `a + b` does.  A run that ends otherwise ends the same way with any
/// larger budget.
pub proof fn lemma_machine_resume(s: StateView, m: MemView, a: nat, b: nat)
    requires
        s.wf(),
    ensures
        ({
            let first = spec_machine_step(s, m, a);
            if first.result == Err::<ExitReason, Trap>(Trap::OutOfSteps) {
                spec_machine_step(s, m, a + b) == spec_machine_step(first.state, first.mem, b)
            } else {
                spec_machine_step(s, m, a + b) == first
            }
        }),
    decreases a,
{
    let cleared = StateView { exit_reason: ExitReason::NoExit, ..s };
    let block = spec_block(cleared, m, a);
    lemma_block_resume(cleared, m, a, b);
    lemma_block_run(cleared, m, a);
    lemma_block_run(cleared, m, a + b);
    if block.trap == Some(Trap::OutOfSteps) {
        let rest = spec_block(block.state, block.mem, b);
        assert((StateView { exit_reason: ExitReason::NoExit, ..block.state }) == block.state);
        lemma_block_run(block.state, block.mem, b);
        if rest.trap is None && is_branch_exit(rest.state.exit_reason) {
            assert((a + b - (a + rest.used)) as nat == (b - rest.used) as nat);
        }
    } else if block.trap is None && is_branch_exit(block.state.exit_reason) {
        lemma_machine_resume(
            StateView { pc: block.state.reenter_pc, ..block.state },
            block.mem,
            (a - block.used) as nat,
            b,
        );
        assert((a - block.used) as nat + b == (a + b - block.used) as nat);
    }
}

/// Runs the machine until the guest makes a system call, for at most
/// `steps` instructions.  `Ok(ExitReason::Ecall)` reports the system call:
/// its number and arguments are in the registers, and `reenter_pc` is the
/// address to continue at.  `Err` reports the trap that stopped the run
/// in front of an instruction; the machine can be stepped again once the
/// host has dealt with it.
pub fn machine_step(m: &mut Machine, steps: u64) -> (r: Result<ExitReason, Trap>)
    requires
        old(m).mmu.mem@.wf(),
    ensures
        final(m).state@ == spec_machine_step(old(m).state@, old(m).mmu.mem@, steps as nat).state,
        final(m).mmu.mem@ == spec_machine_step(old(m).state@, old(m).mmu.mem@, steps as nat).mem,
        r == spec_machine_step(old(m).state@, old(m).mmu.mem@, steps as nat).result,
        r is Ok ==> r == Ok::<ExitReason, Trap>(ExitReason::Ecall) && final(m).state@.gp[0] == 0,
        old(m).state@.gp[0] == 0 ==> final(m).state@.gp[0] == 0,
        final(m).mmu.entry == old(m).mmu.entry,
        final(m).mmu.host_alloc == old(m).mmu.host_alloc,
        final(m).mmu.alloc == old(m).mmu.alloc,
        final(m).mmu.base == old(m).mmu.base,
        final(m).mmu.page_size == old(m).mmu.page_size,
        final(m).mmu.mem@.wf(),
{
    proof {
        lemma_machine_step_exit(old(m).state@, old(m).mmu.mem@, steps as nat);
    }
    let ghost goal = spec_machine_step(old(m).state@, old(m).mmu.mem@, steps as nat);
    let mut left: u64 = steps;
    loop
        invariant
            m.mmu.mem@.wf(),
            m.mmu.entry == old(m).mmu.entry,
            m.mmu.host_alloc == old(m).mmu.host_alloc,
            m.mmu.alloc == old(m).mmu.alloc,
            m.mmu.base == old(m).mmu.base,
            m.mmu.page_size == old(m).mmu.page_size,
            goal == spec_machine_step(old(m).state@, old(m).mmu.mem@, steps as nat),
            goal == spec_machine_step(m.state@, m.mmu.mem@, left as nat),
            goal.result is Ok ==> goal.result == Ok::<ExitReason, Trap>(ExitReason::Ecall)
                && goal.state.gp[0] == 0,
            old(m).state@.gp[0] == 0 ==> goal.state.gp[0] == 0,
        decreases left,
    {
        let ghost before = m.state@;
        let ghost mem_before = m.mmu.mem@;
        m.state.exit_reason = ExitReason::NoExit;
        let ghost cleared = m.state@;
        let ghost run = spec_block(cleared, mem_before, left as nat);
        proof {
            assert(cleared == (StateView { exit_reason: ExitReason::NoExit, ..before }));
            lemma_block_run(cleared, mem_before, left as nat);
        }
        let (used, trap) = exec_block_interp(&mut m.state, &mut m.mmu.mem, left);
        assert(m.state@ == run.state && m.mmu.mem@ == run.mem);
        match trap {
            Some(t) => {
                return Err(t);
            },
            None => {},
        }
        assert(1 <= run.used <= left);
        match m.state.exit_reason {
            ExitReason::DirectBranch | ExitReason::IndirectBranch => {
                m.state.pc = m.state.reenter_pc;
                left = left - used;
                assert(m.state@ == (StateView { pc: run.state.reenter_pc, ..run.state }));
            },
            _ => {
                return Ok(m.state.exit_reason);
            },
        }
    }
}

/// Loads the program in the file image and points the program counter at
/// its entry.
pub fn machine_load_program(m: &mut Machine, image: &Vec<u8>) -> (r: Result<(), LoadError>)
    requires
        old(m).mmu@.fresh(),
    ensures
        final(m).mmu@ == spec_load_elf(old(m).mmu@, image@).mmu,
        r is Ok <==> spec_load_elf(old(m).mmu@, image@).error is None,
        r is Err ==> Some(r->Err_0) == spec_load_elf(old(m).mmu@, image@).error,
        r is Ok ==> final(m).state@ == (StateView { pc: final(m).mmu.entry, ..old(m).state@ }),
        r is Err ==> final(m).state == old(m).state,
        final(m).mmu@.fresh() || final(m).mmu@.loaded(),
{
    match mmu_load_elf(&mut m.mmu, image) {
        Ok(()) => {
            m.state.pc = m.mmu.entry;
            Ok(())
        },
        Err(e) => Err(e),
    }
}

/// Size of the stack that a program starts with.
pub const STACK_SIZE: u64 = 0x200_0000;

/// The most arguments whose addresses fit the stack, beside their count
/// and the three words that end the vectors.
pub const MAX_ARGS: u64 = 0x3f_fffc;

/// The memory unit and the stack pointer after one argument is placed: the
/// argument's bytes are allocated with one byte more, which stays zero,
/// and their address is pushed on the stack.
pub open spec fn spec_place_arg(mv: MmuView, sp: u64, arg: Seq<u8>) -> Option<(MmuView, u64)> {
    if arg.len() >= i64::MAX {
        None
    } else {
        match spec_alloc(mv, (arg.len() + 1) as i64) {
            None => None,
            Some(allocated) => {
                let copied = allocated.mem.with_bytes(mv.alloc, arg);
                let pushed = copied.stored((sp - 8) as u64, mv.alloc, 8);
                Some((MmuView { mem: pushed, ..allocated }, (sp - 8) as u64))
            },
        }
    }
}

/// Placing the arguments `argv[i]` down to `argv[1]`, the last one first,
/// so that the address of `argv[1]` ends up lowest on the stack.
pub open spec fn spec_place_args(mv: MmuView, sp: u64, argv: Seq<Seq<u8>>, i: int) -> Option<
    (MmuView, u64),
>
    decreases i,
{
    if i <= 0 {
        Some((mv, sp))
    } else {
        match spec_place_arg(mv, sp, argv[i]) {
            None => None,
            Some((next, lower)) => spec_place_args(next, lower, argv, i - 1),
        }
    }
}

/// The memory unit and the stack pointer of a program that is about to
/// start with the arguments `argv[1]` to `argv[count]`.  A stack of
/// `STACK_SIZE` bytes is allocated.  From its top down lie three zero words
/// (the ends of the argument, environment and auxiliary vectors), the
/// addresses of the arguments, and their count, at which the stack pointer
/// points.  `None` if the stack cannot hold that many addresses, or guest
/// memory not the stack and the arguments.
pub open spec fn spec_setup(mv: MmuView, argv: Seq<Seq<u8>>, count: int) -> Option<
    (MmuView, u64),
> {
    if count > MAX_ARGS {
        None
    } else {
        match spec_alloc(mv, STACK_SIZE as i64) {
            None => None,
            Some(stacked) => match spec_place_args(
                stacked,
                (mv.alloc + STACK_SIZE - 24) as u64,
                argv,
                count,
            ) {
                None => None,
                Some((placed, sp)) => Some(
                    (
                        MmuView {
                            mem: placed.mem.stored((sp - 8) as u64, count as u64, 8),
                            ..placed
                        },
                        (sp - 8) as u64,
                    ),
                ),
            },
        }
    }
}

/// Sets up the stack of a loaded program and points the stack pointer at
/// it.  `argv` is the host's command line, of which the first `argc`
/// entries count: `argv[0]` names the emulator and is left out, the
/// guest's arguments start with `argv[1]`, the name of the guest program.
/// Fails with `OutOfMemory`, the registers unchanged, exactly if the stack
/// or guest memory cannot hold what the program starts with.
pub fn machine_setup(m: &mut Machine, argc: i32, argv: &Vec<Vec<u8>>) -> (r: Result<
    (),
    LoadError,
>)
    requires
        old(m).mmu@.loaded(),
        1 <= argc <= argv@.len(),
    ensures
        match spec_setup(old(m).mmu@, argv@.map_values(|a: Vec<u8>| a@), argc - 1) {
            Some((mv, sp)) => r is Ok && final(m).mmu@ == mv && final(m).state@ == old(
                m,
            ).state@.write_gp(2, sp) && final(m).mmu@.loaded(),
            None => r == Err::<(), LoadError>(LoadError::OutOfMemory) && final(m).state == old(
                m,
            ).state,
        },
{
    let ghost args = argv@.map_values(|a: Vec<u8>| a@);
    let count: usize = (argc - 1) as usize;
    if count as u64 > MAX_ARGS {
        return Err(LoadError::OutOfMemory);
    }
    let stack: u64 = match mmu_alloc(&mut m.mmu, STACK_SIZE as i64) {
        Some(a) => a,
        None => {
            return Err(LoadError::OutOfMemory);
        },
    };
    let mut sp: u64 = stack + STACK_SIZE - 24;
    let mut i: usize = count;
    while i > 0
        invariant
            i <= count < argv@.len(),
            count == argc - 1,
            count <= MAX_ARGS,
            args == argv@.map_values(|a: Vec<u8>| a@),
            m.mmu@.loaded(),
            m.state == old(m).state,
            stack == old(m).mmu.alloc,
            spec_alloc(old(m).mmu@, STACK_SIZE as i64) is Some,
            stack + STACK_SIZE <= m.mmu.alloc,
            stack >= m.mmu.mem.start,
            sp == stack + STACK_SIZE - 24 - 8 * (count - i),
            spec_place_args(
                spec_alloc(old(m).mmu@, STACK_SIZE as i64)->0,
                (stack + STACK_SIZE - 24) as u64,
                args,
                count as int,
            ) == spec_place_args(m.mmu@, sp, args, i as int),
        decreases i,
    {
        let arg: &Vec<u8> = &argv[i];
        let len: usize = arg.len();
        assert(args[i as int] == arg@);
        let ghost before = m.mmu@;
        if len as u64 >= i64::MAX as u64 {
            assert(spec_place_arg(before, sp, args[i as int]) is None);
            assert(spec_place_args(before, sp, args, i as int) is None);
            return Err(LoadError::OutOfMemory);
        }
        let addr: u64 = match mmu_alloc(&mut m.mmu, (len as u64 + 1) as i64) {
            Some(a) => a,
            None => {
                assert(spec_place_arg(before, sp, args[i as int]) is None);
                assert(spec_place_args(before, sp, args, i as int) is None);
                return Err(LoadError::OutOfMemory);
            },
        };
        mmu_write(&mut m.mmu.mem, addr, arg, len);
        assert(arg@.subrange(0, len as int) =~= arg@);
        sp = sp - 8;
        m.mmu.mem.write(sp, addr, 8);
        i = i - 1;
    }
    sp = sp - 8;
    m.mmu.mem.write(sp, count as u64, 8);
    m.state.set_gp(2, sp);
    Ok(())
}

} // verus!
