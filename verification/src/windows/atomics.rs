//! The interlocked functions on an aligned guest dword.
use super::guest::{check_outcome, read_words, words_at, write_word};
use super::DispatchError;
use crate::cpu::operands::value_bytes;
use crate::cpu::{wrapped, Cpu32, Register32};
use crate::memory::{Access, GuestMemory};
use vstd::prelude::*;

verus! {

/// The interlocked functions.
#[derive(Clone, Copy, Debug, PartialEq, Eq, Structural)]
pub enum Call {
    Exchange,
    Increment,
    Decrement,
}

impl Call {
    /// The number of stack arguments.
    pub fn arguments(self) -> (count: usize)
        ensures
            count == if self == Call::Exchange {
                2usize
            } else {
                1usize
            },
    {
        match self {
            Call::Exchange => 2,
            Call::Increment | Call::Decrement => 1,
        }
    }
}

/// What an interlocked call does to the dword at `target` holding
/// `previous`: the value stored, and the value `eax` gets (the previous value
/// for an exchange, the new one otherwise).
pub open spec fn interlocked_values(call: Call, previous: u32, exchanged: u32) -> (u32, u32) {
    let value = match call {
        Call::Exchange => exchanged,
        Call::Increment => wrapped(previous + 1),
        Call::Decrement => wrapped(previous - 1),
    };
    (
        value,
        if call == Call::Exchange {
            previous
        } else {
            value
        },
    )
}

/// Performs `call` on the dword at `arguments[0]` (which must be aligned),
/// exchanging with `arguments[1]`; `eax` gets the result.
pub fn interlocked(call: Call, arguments: &[u32], cpu: &mut Cpu32, memory: &mut GuestMemory) -> (outcome:
    Result<(), DispatchError>)
    requires
        old(memory).wf(),
        arguments@.len() >= if call == Call::Exchange {
            2int
        } else {
            1int
        },
    ensures
        final(memory).wf(),
        ({
            let target = arguments@[0];
            if target % 4 != 0 {
                outcome == Err::<(), DispatchError>(DispatchError::Unsupported) && *final(cpu)
                    == *old(cpu) && *final(memory) == *old(memory)
            } else {
                match check_outcome(*old(memory), target, 4, Access::Read) {
                    Err(error) => outcome == Err::<(), DispatchError>(error) && *final(cpu)
                        == *old(cpu) && *final(memory) == *old(memory),
                    Ok(()) => {
                        let previous = words_at(*old(memory), target, 1)[0];
                        let exchanged = if call == Call::Exchange {
                            arguments@[1]
                        } else {
                            0
                        };
                        let (value, result) = interlocked_values(call, previous, exchanged);
                        match check_outcome(*old(memory), target, 4, Access::Write) {
                            Err(error) => outcome == Err::<(), DispatchError>(error) && *final(cpu)
                                == *old(cpu) && *final(memory) == *old(memory),
                            Ok(()) => outcome is Ok && final(memory).wrote(
                                *old(memory),
                                target as int,
                                value_bytes(value, 4),
                            ) && final(cpu).register_set(*old(cpu), Register32::Eax, result),
                        }
                    },
                }
            }
        }),
{
    let target = arguments[0];
    if target % 4 != 0 {
        return Err(DispatchError::Unsupported);
    }
    let mut previous = [0u32; 1];
    read_words(memory, target, &mut previous)?;
    let value = match call {
        Call::Exchange => arguments[1],
        Call::Increment => previous[0].wrapping_add(1),
        Call::Decrement => previous[0].wrapping_sub(1),
    };
    write_word(memory, target, value)?;
    let result = if call == Call::Exchange {
        previous[0]
    } else {
        value
    };
    cpu.set_register(Register32::Eax, result);
    Ok(())
}

} // verus!
