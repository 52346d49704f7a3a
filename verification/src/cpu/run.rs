//! Running: fetch, decode and execute until a budget runs out, a breakpoint
//! is hit, the caller intercepts an address, or an instruction fails.
use super::decoding::{decode, decode_outcome};
use super::interpreter::step_effect;
use super::{Cpu32, RunResult, StopReason};
use crate::memory::GuestMemory;
use vstd::prelude::*;

verus! {

/// What an interception predicate may answer: `stop` at `address` when a
/// call with `address` may return it.
pub open spec fn answers<F: Fn(u32) -> bool>(intercept: F) -> spec_fn(u32, bool) -> bool {
    |address: u32, stop: bool| intercept.ensures((address,), stop)
}

/// The answers of a check that never intercepts.
pub open spec fn never() -> spec_fn(u32, bool) -> bool {
    |address: u32, stop: bool| !stop
}

/// One step from `(cpu, memory)` to `(next, next_memory)`: `passes` allows
/// the address (it may answer "no interception" there), the instruction at
/// `eip` decodes, and it executes, being a breakpoint as `breakpoint` says.
pub open spec fn stepped(
    passes: spec_fn(u32, bool) -> bool,
    cpu: Cpu32,
    memory: GuestMemory,
    next: Cpu32,
    next_memory: GuestMemory,
    breakpoint: bool,
) -> bool {
    &&& passes(cpu.eip, false)
    &&& decode_outcome(memory, cpu.eip, 0) matches Ok(instruction) && step_effect(
        cpu,
        memory,
        instruction,
        next,
        next_memory,
        Ok(breakpoint),
    )
}

/// `(cpu, memory)` is reached from `(start, start_memory)` by `count` steps
/// none of which was a breakpoint.
pub open spec fn ran(
    passes: spec_fn(u32, bool) -> bool,
    start: Cpu32,
    start_memory: GuestMemory,
    cpu: Cpu32,
    memory: GuestMemory,
    count: nat,
) -> bool
    decreases count,
{
    if count == 0 {
        cpu == start && memory == start_memory
    } else {
        exists|before: Cpu32, before_memory: GuestMemory|
            ran(passes, start, start_memory, before, before_memory, (count - 1) as nat)
                && #[trigger] stepped(passes, before, before_memory, cpu, memory, false)
    }
}

/// One more step extends a run.
proof fn lemma_ran_step(
    passes: spec_fn(u32, bool) -> bool,
    start: Cpu32,
    start_memory: GuestMemory,
    before: Cpu32,
    before_memory: GuestMemory,
    cpu: Cpu32,
    memory: GuestMemory,
    count: nat,
)
    requires
        ran(passes, start, start_memory, before, before_memory, count),
        stepped(passes, before, before_memory, cpu, memory, false),
    ensures
        ran(passes, start, start_memory, cpu, memory, count + 1),
{
    assert(((count + 1) - 1) as nat == count);
}

/// A run allowed by some answers is allowed by any answers that allow more.
proof fn lemma_ran_weaken(
    narrow: spec_fn(u32, bool) -> bool,
    wide: spec_fn(u32, bool) -> bool,
    start: Cpu32,
    start_memory: GuestMemory,
    cpu: Cpu32,
    memory: GuestMemory,
    count: nat,
)
    requires
        ran(narrow, start, start_memory, cpu, memory, count),
        forall|address: u32, stop: bool| #[trigger] narrow(address, stop) ==> wide(address, stop),
    ensures
        ran(wide, start, start_memory, cpu, memory, count),
    decreases count,
{
    if count > 0 {
        let (before, before_memory) = choose|before: Cpu32, before_memory: GuestMemory|
            ran(narrow, start, start_memory, before, before_memory, (count - 1) as nat)
                && #[trigger] stepped(narrow, before, before_memory, cpu, memory, false);
        lemma_ran_weaken(narrow, wide, start, start_memory, before, before_memory, (count - 1) as nat);
        assert(stepped(wide, before, before_memory, cpu, memory, false));
    }
}

/// The step at `(cpu, memory)` fails with `reason`: decoding fails, or the
/// instruction does (leaving everything as it was).
pub open spec fn failed(cpu: Cpu32, memory: GuestMemory, reason: StopReason) -> bool {
    match decode_outcome(memory, cpu.eip, 0) {
        Err(error) => error == reason,
        Ok(instruction) => step_effect(cpu, memory, instruction, cpu, memory, Err(reason)),
    }
}

/// How a run from `(start, start_memory)` with budget `limit` ended in
/// `(cpu, memory)` with `result`; `passes(address, stop)` says what the
/// interception check may answer at `address`.
pub open spec fn run_outcome(
    passes: spec_fn(u32, bool) -> bool,
    start: Cpu32,
    start_memory: GuestMemory,
    cpu: Cpu32,
    memory: GuestMemory,
    limit: u64,
    result: RunResult,
) -> bool {
    let count = result.instructions;
    ||| result.reason == StopReason::InstructionLimit && count == limit && result.instruction_pointer
        == cpu.eip && ran(passes, start, start_memory, cpu, memory, limit as nat)
    ||| result.reason == StopReason::Intercepted && count < limit && result.instruction_pointer
        == cpu.eip && passes(cpu.eip, true) && ran(
        passes,
        start,
        start_memory,
        cpu,
        memory,
        count as nat,
    )
    ||| result.reason == StopReason::Breakpoint && 1 <= count <= limit && exists|
        before: Cpu32,
        before_memory: GuestMemory,
    |
        ran(passes, start, start_memory, before, before_memory, (count - 1) as nat)
            && #[trigger] stepped(passes, before, before_memory, cpu, memory, true)
            && result.instruction_pointer == before.eip
    ||| count < limit && result.instruction_pointer == cpu.eip && passes(cpu.eip, false) && ran(
        passes,
        start,
        start_memory,
        cpu,
        memory,
        count as nat,
    ) && failed(cpu, memory, result.reason) && result.reason.is_fault()
}

impl Cpu32 {
    /// Runs at most `instruction_limit` steps. Before each fetch `intercept`
    /// is asked about the address; if it says so, the run stops there with
    /// nothing changed and no step used. A zero budget stops at once without
    /// asking. A failing step leaves the processor and memory as they were
    /// before it.
    pub fn run_until<F: Fn(u32) -> bool>(
        &mut self,
        memory: &mut GuestMemory,
        instruction_limit: u64,
        intercept: F,
    ) -> (result: RunResult)
        requires
            old(memory).wf(),
            forall|address: u32| intercept.requires((address,)),
        ensures
            final(memory).wf(),
            run_outcome(
                answers(intercept),
                *old(self),
                *old(memory),
                *final(self),
                *final(memory),
                instruction_limit,
                result,
            ),
    {
        let ghost passes = answers(intercept);
        let mut executed: u64 = 0;
        while executed < instruction_limit
            invariant
                memory.wf(),
                executed <= instruction_limit,
                forall|address: u32| intercept.requires((address,)),
                passes == answers(intercept),
                ran(passes, *old(self), *old(memory), *self, *memory, executed as nat),
            decreases instruction_limit - executed,
        {
            let start = self.eip;
            if intercept(start) {
                return RunResult {
                    reason: StopReason::Intercepted,
                    instructions: executed,
                    instruction_pointer: start,
                };
            }
            let before = *self;
            let ghost before_memory = *memory;
            let result = match decode(memory, start) {
                Ok(instruction) => self.execute(&instruction, memory),
                Err(reason) => Err(reason),
            };
            match result {
                Ok(false) => {},
                Ok(true) => {
                    assert(ran(
                        passes,
                        *old(self),
                        *old(memory),
                        before,
                        before_memory,
                        ((executed + 1) - 1) as nat,
                    ) && stepped(passes, before, before_memory, *self, *memory, true));
                    return RunResult {
                        reason: StopReason::Breakpoint,
                        instructions: executed + 1,
                        instruction_pointer: start,
                    };
                },
                Err(reason) => {
                    *self = before;
                    return RunResult { reason, instructions: executed, instruction_pointer: start };
                },
            }
            executed = executed + 1;
            proof {
                lemma_ran_step(passes, *old(self), *old(memory), before, before_memory, *self, *memory, (executed - 1) as nat);
            }
        }
        RunResult {
            reason: StopReason::InstructionLimit,
            instructions: instruction_limit,
            instruction_pointer: self.eip,
        }
    }

    /// Runs at most `instruction_limit` steps, with no interception.
    pub fn run(&mut self, memory: &mut GuestMemory, instruction_limit: u64) -> (result: RunResult)
        requires
            old(memory).wf(),
        ensures
            final(memory).wf(),
            run_outcome(never(), *old(self), *old(memory), *final(self), *final(memory), instruction_limit, result),
    {
        let pass = |address: u32| -> (stop: bool)
            ensures
                !stop,
            { false };
        let result = self.run_until(memory, instruction_limit, pass);
        proof {
            let narrow = answers(pass);
            assert(forall|address: u32, stop: bool| #[trigger] narrow(address, stop) ==> never()(address, stop));
            let count = result.instructions;
            if result.reason == StopReason::Breakpoint && 1 <= count <= instruction_limit && exists|
                before: Cpu32,
                before_memory: GuestMemory,
            |
                ran(narrow, *old(self), *old(memory), before, before_memory, (count - 1) as nat)
                    && #[trigger] stepped(narrow, before, before_memory, *self, *memory, true)
                    && result.instruction_pointer == before.eip {
                let (before, before_memory) = choose|before: Cpu32, before_memory: GuestMemory|
                    ran(narrow, *old(self), *old(memory), before, before_memory, (count - 1) as nat)
                        && #[trigger] stepped(narrow, before, before_memory, *self, *memory, true)
                        && result.instruction_pointer == before.eip;
                lemma_ran_weaken(narrow, never(), *old(self), *old(memory), before, before_memory, (count - 1) as nat);
                assert(stepped(never(), before, before_memory, *self, *memory, true));
            } else {
                lemma_ran_weaken(narrow, never(), *old(self), *old(memory), *self, *memory, count as nat);
            }
        }
        result
    }
}

} // verus!

verus! {

/// A zero budget: the run stops at once with the instruction limit, no step
/// taken and nothing changed.
pub proof fn law_zero_budget(
    passes: spec_fn(u32, bool) -> bool,
    start: Cpu32,
    start_memory: GuestMemory,
    cpu: Cpu32,
    memory: GuestMemory,
    result: RunResult,
)
    requires
        run_outcome(passes, start, start_memory, cpu, memory, 0, result),
    ensures
        result == (RunResult {
            reason: StopReason::InstructionLimit,
            instructions: 0,
            instruction_pointer: start.eip,
        }),
        cpu == start,
        memory == start_memory,
{
}

/// Every run of at least one step began by passing the check at the start.
proof fn lemma_first_step(
    passes: spec_fn(u32, bool) -> bool,
    start: Cpu32,
    start_memory: GuestMemory,
    cpu: Cpu32,
    memory: GuestMemory,
    count: nat,
)
    requires
        ran(passes, start, start_memory, cpu, memory, count),
        count > 0,
    ensures
        passes(start.eip, false),
    decreases count,
{
    let (before, before_memory) = choose|before: Cpu32, before_memory: GuestMemory|
        ran(passes, start, start_memory, before, before_memory, (count - 1) as nat)
            && #[trigger] stepped(passes, before, before_memory, cpu, memory, false);
    if count > 1 {
        lemma_first_step(passes, start, start_memory, before, before_memory, (count - 1) as nat);
    }
}

/// Interception consumes no step and changes nothing: where the check stops
/// at the start address, a run with any budget stops there at once.
pub proof fn law_interception_changes_nothing(
    passes: spec_fn(u32, bool) -> bool,
    start: Cpu32,
    start_memory: GuestMemory,
    cpu: Cpu32,
    memory: GuestMemory,
    limit: u64,
    result: RunResult,
)
    requires
        run_outcome(passes, start, start_memory, cpu, memory, limit, result),
        limit > 0,
        forall|stop: bool| #[trigger] passes(start.eip, stop) ==> stop,
    ensures
        result == (RunResult {
            reason: StopReason::Intercepted,
            instructions: 0,
            instruction_pointer: start.eip,
        }),
        cpu == start,
        memory == start_memory,
{
    let count = result.instructions;
    if count > 0 {
        if result.reason == StopReason::Breakpoint && 1 <= count <= limit && exists|
            before: Cpu32,
            before_memory: GuestMemory,
        |
            ran(passes, start, start_memory, before, before_memory, (count - 1) as nat)
                && #[trigger] stepped(passes, before, before_memory, cpu, memory, true)
                && result.instruction_pointer == before.eip {
            let (before, before_memory) = choose|before: Cpu32, before_memory: GuestMemory|
                ran(passes, start, start_memory, before, before_memory, (count - 1) as nat)
                    && #[trigger] stepped(passes, before, before_memory, cpu, memory, true)
                    && result.instruction_pointer == before.eip;
            if count > 1 {
                lemma_first_step(passes, start, start_memory, before, before_memory, (count - 1) as nat);
            }
            assert(passes(start.eip, false));
        } else {
            lemma_first_step(passes, start, start_memory, cpu, memory, count as nat);
        }
        assert(passes(start.eip, false));
        assert(false);
    }
    assert(!passes(start.eip, false));
}

/// A failing instruction changes nothing: the processor and memory after it
/// are those before it.
pub proof fn law_failed_step_changes_nothing(
    old: Cpu32,
    old_memory: GuestMemory,
    instruction: super::decoding::Instruction,
    cpu: Cpu32,
    memory: GuestMemory,
    reason: StopReason,
)
    requires
        step_effect(old, old_memory, instruction, cpu, memory, Err(reason)),
    ensures
        cpu == old,
        memory == old_memory,
{
}

/// A run that stops at the instruction limit has used its whole budget:
/// every other way of stopping has its own reason.
pub proof fn law_limit_uses_the_budget(
    passes: spec_fn(u32, bool) -> bool,
    start: Cpu32,
    start_memory: GuestMemory,
    cpu: Cpu32,
    memory: GuestMemory,
    limit: u64,
    result: RunResult,
)
    requires
        run_outcome(passes, start, start_memory, cpu, memory, limit, result),
        result.reason == StopReason::InstructionLimit,
    ensures
        result.instructions == limit,
        result.instruction_pointer == cpu.eip,
{
}

} // verus!
