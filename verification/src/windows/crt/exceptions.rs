//! `_EH_prolog`: links a new exception registration into the thread's chain
//! and sets up the frame that compiled C++ functions expect.
use super::super::guest::{check, check_outcome, read_word, word_outcome, words_bytes, write_word, write_words};
use super::super::DispatchError;
use crate::cpu::operands::value_bytes;
use crate::cpu::{Cpu32, Register32};
use crate::memory::{Access, GuestMemory, MemoryError};
use vstd::prelude::*;

verus! {

/// The five dwords stored below the return address: the handler, the
/// previous registration, the saved `eax`, the try level (-1) and the saved
/// `ebp`.
pub open spec fn frame_words(cpu: Cpu32, target: u32, previous: u32) -> Seq<u32> {
    seq![target, previous, cpu.reg(Register32::Eax), u32::MAX, cpu.reg(Register32::Ebp)]
}

/// What entering the frame for handler `target` decides: the previous
/// registration, or why nothing changes.
pub open spec fn frame_outcome(cpu: Cpu32, memory: GuestMemory, target: u32) -> Result<u32, DispatchError> {
    let stack = cpu.reg(Register32::Esp);
    let chain = cpu.fs();
    if stack < 16 {
        Err(DispatchError::Memory(MemoryError::AddressOverflow))
    } else if stack - 16 < chain + 4 && chain < stack - 16 + 20 {
        Err(DispatchError::Unsupported)
    } else {
        match word_outcome(memory, chain) {
            Err(error) => Err(error),
            Ok(previous) => match check_outcome(memory, (stack - 16) as u32, 20, Access::Write) {
                Err(error) => Err(error),
                Ok(()) => match check_outcome(memory, chain, 4, Access::Write) {
                    Err(error) => Err(error),
                    Ok(()) => Ok(previous),
                },
            },
        }
    }
}

/// Enters the exception frame of handler `target`: stores the frame words
/// 16 bytes below the stack pointer, makes the thread's registration point
/// at them, and continues at `target` with `eax` holding it, `ebp` the old
/// stack pointer and the stack pointer 12 bytes lower.
pub fn enter_exception_frame(cpu: &mut Cpu32, memory: &mut GuestMemory, target: u32) -> (outcome: Result<
    (),
    DispatchError,
>)
    requires
        old(memory).wf(),
    ensures
        final(memory).wf(),
        match frame_outcome(*old(cpu), *old(memory), target) {
            Err(error) => outcome == Err::<(), DispatchError>(error) && *final(memory) == *old(
                memory,
            ) && *final(cpu) == *old(cpu),
            Ok(previous) => {
                let stack = old(cpu).reg(Register32::Esp);
                let start = stack - 16;
                let chain = old(cpu).fs();
                let words = words_bytes(frame_words(*old(cpu), target, previous));
                &&& outcome is Ok
                &&& final(memory).pages() == old(memory).pages()
                &&& final(memory).limit() == old(memory).limit()
                &&& forall|a: int| #[trigger]
                    final(memory).holds(a) ==> final(memory).byte(a) == if chain <= a < chain
                        + 4 {
                        value_bytes((stack - 12) as u32, 4)[a - chain]
                    } else if start <= a < start + 20 {
                        words[a - start]
                    } else {
                        old(memory).byte(a)
                    }
                &&& final(cpu).reg(Register32::Eax) == target
                &&& final(cpu).reg(Register32::Ebp) == stack
                &&& final(cpu).reg(Register32::Esp) == stack - 12
                &&& forall|other: Register32|
                    other != Register32::Eax && other != Register32::Ebp && other
                        != Register32::Esp ==> #[trigger] final(cpu).reg(other) == old(cpu).reg(
                        other,
                    )
                &&& final(cpu).eip == target
                &&& final(cpu).fs() == old(cpu).fs()
                &&& final(cpu).control() == old(cpu).control()
                &&& final(cpu).eflags == old(cpu).eflags
            },
        },
{
    let stack = cpu.register(Register32::Esp);
    let start = match stack.checked_sub(16) {
        Some(start) => start,
        None => return Err(DispatchError::Memory(MemoryError::AddressOverflow)),
    };
    let chain = cpu.fs_base();
    if (start as u64) < chain as u64 + 4 && (chain as u64) < start as u64 + 20 {
        return Err(DispatchError::Unsupported);
    }
    let previous = read_word(memory, chain)?;
    check(memory, start, 20, Access::Write)?;
    check(memory, chain, 4, Access::Write)?;
    let values = [target, previous, cpu.register(Register32::Eax), u32::MAX, cpu.register(Register32::Ebp)];
    proof {
        assert(values@ =~= frame_words(*old(cpu), target, previous));
    }
    let ghost checked = *memory;
    match write_words(memory, start, &values) {
        Ok(()) => {},
        Err(error) => {
            assert(false);
            return Err(error);
        },
    }
    let ghost framed = *memory;
    match write_word(memory, chain, stack - 12) {
        Ok(()) => {},
        Err(error) => {
            assert(false);
            return Err(error);
        },
    }
    proof {
        assert forall|a: int| #[trigger] memory.holds(a) implies memory.byte(a) == if chain <= a
            < chain + 4 {
            value_bytes((stack - 12) as u32, 4)[a - chain]
        } else if start <= a < start + 20 {
            words_bytes(values@)[a - start]
        } else {
            checked.byte(a)
        } by {
            assert(framed.holds(a));
        }
    }
    cpu.eip = target;
    cpu.set_register(Register32::Eax, target);
    cpu.set_register(Register32::Ebp, stack);
    cpu.set_register(Register32::Esp, stack - 12);
    Ok(())
}

} // verus!
