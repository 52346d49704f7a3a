//! `_setjmp3`: saves the caller's registers, its return address and the
//! current exception registration into a jump buffer.
use super::super::guest::{check_outcome, read_word, read_words, word_outcome, words_at, write_words};
use super::super::DispatchError;
use crate::cpu::{Cpu32, Register32};
use crate::memory::{Access, GuestMemory, MemoryError};
use vstd::prelude::*;

verus! {

/// The cookie that marks a buffer filled by `_setjmp3`.
pub const COOKIE: u32 = 0x5643_3230;

/// The dwords a jump buffer receives: the callee-saved registers, the stack
/// pointer, the return address (`frame[0]`), the exception registration,
/// the try level, the cookie and the unwind function; and, when a frame is
/// registered, the optional arguments after the first two.
pub open spec fn context_words(cpu: Cpu32, frame: Seq<u32>, registration: u32, level: u32, count: int) -> Seq<u32> {
    let base = seq![
        cpu.reg(Register32::Ebp),
        cpu.reg(Register32::Ebx),
        cpu.reg(Register32::Edi),
        cpu.reg(Register32::Esi),
        cpu.reg(Register32::Esp),
        frame[0],
        registration,
        u32::MAX,
        COOKIE,
        0u32,
    ];
    if registration == u32::MAX {
        base
    } else {
        let unwind = if count != 0 {
            frame[3]
        } else {
            0u32
        };
        let try_level = if count >= 2 {
            frame[4]
        } else {
            level
        };
        let extra = if count >= 2 {
            frame.subrange(5, count + 3)
        } else {
            Seq::empty()
        };
        base.update(9, unwind).update(7, try_level) + extra
    }
}

/// The try level of the registered frame, read only where the caller passed
/// fewer than two optional arguments.
pub open spec fn level_outcome(memory: GuestMemory, registration: u32, count: int) -> Result<u32, DispatchError> {
    if registration == u32::MAX || count >= 2 {
        Ok(0)
    } else if registration + 12 > u32::MAX {
        Err(DispatchError::Memory(MemoryError::AddressOverflow))
    } else {
        word_outcome(memory, (registration + 12) as u32)
    }
}

/// What `_setjmp3(destination, count, ...)` stores: the dwords written at
/// `destination`, or why nothing is.
pub open spec fn capture_outcome(cpu: Cpu32, memory: GuestMemory, destination: u32, count: u32) -> Result<
    Seq<u32>,
    DispatchError,
> {
    let stack = cpu.reg(Register32::Esp);
    if destination == 0 || count > 8 {
        Err(DispatchError::Unsupported)
    } else {
        match check_outcome(memory, stack, 4 * (count + 3), Access::Read) {
            Err(error) => Err(error),
            Ok(()) => {
                let frame = words_at(memory, stack, count + 3);
                match word_outcome(memory, cpu.fs()) {
                    Err(error) => Err(error),
                    Ok(registration) => match level_outcome(memory, registration, count as int) {
                        Err(error) => Err(error),
                        Ok(level) => {
                            let words = context_words(cpu, frame, registration, level, count as int);
                            if destination < stack + 4 * (count + 3) && stack < destination + 4
                                * words.len() {
                                Err(DispatchError::Unsupported)
                            } else {
                                match check_outcome(
                                    memory,
                                    destination,
                                    4 * words.len() as int,
                                    Access::Write,
                                ) {
                                    Err(error) => Err(error),
                                    Ok(()) => Ok(words),
                                }
                            }
                        },
                    },
                }
            },
        }
    }
}

/// Fills the jump buffer at `arguments[0]`, with `arguments[1]` optional
/// arguments on the stack after the return address and the two fixed ones;
/// returns 0.
pub fn capture(cpu: &Cpu32, memory: &mut GuestMemory, arguments: &[u32]) -> (outcome: Result<
    u32,
    DispatchError,
>)
    requires
        old(memory).wf(),
        arguments@.len() >= 2,
    ensures
        final(memory).wf(),
        match capture_outcome(*cpu, *old(memory), arguments@[0], arguments@[1]) {
            Err(error) => outcome == Err::<u32, DispatchError>(error) && *final(memory) == *old(
                memory,
            ),
            Ok(words) => outcome == Ok::<u32, DispatchError>(0) && final(memory).wrote(
                *old(memory),
                arguments@[0] as int,
                super::super::guest::words_bytes(words),
            ),
        },
{
    let destination = arguments[0];
    let count = arguments[1];
    if destination == 0 || count > 8 {
        return Err(DispatchError::Unsupported);
    }
    let stack = cpu.register(Register32::Esp);
    let mut frame: Vec<u32> = Vec::new();
    let mut k: u32 = 0;
    while k < count + 3
        invariant
            count <= 8,
            k <= count + 3,
            frame@.len() == k,
        decreases count + 3 - k,
    {
        frame.push(0);
        k = k + 1;
    }
    read_words(memory, stack, frame.as_mut_slice())?;
    let registration = read_word(memory, cpu.fs_base())?;
    let mut context: Vec<u32> = Vec::new();
    context.push(cpu.register(Register32::Ebp));
    context.push(cpu.register(Register32::Ebx));
    context.push(cpu.register(Register32::Edi));
    context.push(cpu.register(Register32::Esi));
    context.push(stack);
    context.push(frame[0]);
    context.push(registration);
    context.push(u32::MAX);
    context.push(COOKIE);
    context.push(0);
    let ghost level: u32 = 0;
    if registration != u32::MAX {
        if count != 0 {
            context.set(9, frame[3]);
        }
        if count >= 2 {
            context.set(7, frame[4]);
        } else {
            let address = match registration.checked_add(12) {
                Some(address) => address,
                None => return Err(DispatchError::Memory(MemoryError::AddressOverflow)),
            };
            let read = read_word(memory, address)?;
            proof {
                level = read;
            }
            context.set(7, read);
        }
        let ghost head = context@;
        proof {
            let full = context_words(*cpu, frame@, registration, level, count as int);
            assert forall|j: int| 0 <= j < 10 implies head[j] == full[j] by {}
        }
        let mut index: u32 = 5;
        while index < count + 3
            invariant
                count <= 8,
                head.len() == 10,
                context@.subrange(0, 10) == head,
                frame@.len() == count + 3,
                5 <= index <= count + 3 || (count < 2 && index == 5),
                count >= 2 ==> context@.len() == 10 + index - 5,
                count < 2 ==> context@.len() == 10,
                forall|j: int| 10 <= j < context@.len() ==> context@[j] == frame@[j - 5],
            decreases count + 3 - index,
        {
            context.push(frame[index as usize]);
            index = index + 1;
        }
        assert(context@.subrange(0, 10) == head);
    }
    proof {
        let expected = context_words(*cpu, frame@, registration, level, count as int);
        assert(context@.len() == expected.len());
        assert forall|j: int| 0 <= j < expected.len() implies context@[j] == expected[j] by {
            if j < 10 && registration != u32::MAX {
                assert(context@[j] == context@.subrange(0, 10)[j]);
            }
        }
        assert(context@ =~= expected);
    }
    let length = context.len() as u32 * 4;
    if (destination as u64) < stack as u64 + ((count + 3) * 4) as u64 && (stack as u64) < destination
        as u64 + length as u64 {
        return Err(DispatchError::Unsupported);
    }
    write_words(memory, destination, context.as_slice())?;
    Ok(0)
}

} // verus!
