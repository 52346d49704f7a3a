//! `qsort`: checks the array, the comparator and the stack room that the
//! guest sorting routine will use, then sends the processor there.
use super::super::guest::{check, check_outcome};
use super::super::DispatchError;
use super::initializers::SORT_ENTRY;
use crate::cpu::{Cpu32, Register32};
use crate::memory::{Access, GuestMemory, MemoryError};
use vstd::prelude::*;

verus! {

/// The largest array that is sorted, in bytes.
pub const MAX_BYTES: u32 = 0x0100_0000;

/// The stack the routine uses below the caller's frame: four saved
/// registers, sixteen local bytes, its own call and the comparator's frame.
pub const WORKSPACE: u32 = 48;

/// What `qsort(base, count, width, compare)` decides: `Ok(false)` when there
/// is nothing to sort, `Ok(true)` when the guest routine is to run, or why
/// the call is refused.
pub open spec fn sort_outcome(cpu: Cpu32, memory: GuestMemory, arguments: Seq<u32>) -> Result<
    bool,
    DispatchError,
> {
    let base = arguments[0];
    let count = arguments[1];
    let width = arguments[2];
    let compare = arguments[3];
    let stack = cpu.reg(Register32::Esp);
    let length = count * width;
    if width == 0 || compare == 0 || (base == 0 && count != 0) {
        Err(DispatchError::Unsupported)
    } else if count < 2 {
        Ok(false)
    } else if length > u32::MAX {
        Err(DispatchError::Memory(MemoryError::AddressOverflow))
    } else if length > MAX_BYTES {
        Err(DispatchError::Unsupported)
    } else if stack < WORKSPACE {
        Err(DispatchError::Memory(MemoryError::AddressOverflow))
    } else if base < stack + 20 && base + length > stack - WORKSPACE {
        Err(DispatchError::Unsupported)
    } else {
        let low = (stack - WORKSPACE) as u32;
        match check_outcome(memory, base, length, Access::Read) {
            Err(error) => Err(error),
            Ok(()) => match check_outcome(memory, base, length, Access::Write) {
                Err(error) => Err(error),
                Ok(()) => match check_outcome(memory, compare, 1, Access::Execute) {
                    Err(error) => Err(error),
                    Ok(()) => match check_outcome(memory, low, WORKSPACE as int, Access::Read) {
                        Err(error) => Err(error),
                        Ok(()) => match check_outcome(
                            memory,
                            low,
                            WORKSPACE as int,
                            Access::Write,
                        ) {
                            Err(error) => Err(error),
                            Ok(()) => Ok(true),
                        },
                    },
                },
            },
        }
    }
}

/// Starts `qsort(arguments[0..4])`: with fewer than two elements `eax` is
/// set to 0 and nothing runs; otherwise, once every check passes, the
/// processor continues at the guest sorting routine with the caller's frame
/// in place.
pub fn start(cpu: &mut Cpu32, memory: &GuestMemory, arguments: &[u32]) -> (outcome: Result<
    bool,
    DispatchError,
>)
    requires
        memory.wf(),
        arguments@.len() >= 4,
    ensures
        outcome == sort_outcome(*old(cpu), *memory, arguments@),
        outcome == Ok::<bool, DispatchError>(false) ==> final(cpu).register_set(
            *old(cpu),
            Register32::Eax,
            0,
        ),
        outcome == Ok::<bool, DispatchError>(true) ==> *final(cpu) == (Cpu32 {
            eip: SORT_ENTRY,
            ..*old(cpu)
        }),
        outcome is Err ==> *final(cpu) == *old(cpu),
{
    let base = arguments[0];
    let count = arguments[1];
    let width = arguments[2];
    let compare = arguments[3];
    if width == 0 || compare == 0 || (base == 0 && count != 0) {
        return Err(DispatchError::Unsupported);
    }
    if count < 2 {
        cpu.set_register(Register32::Eax, 0);
        return Ok(false);
    }
    let length = match count.checked_mul(width) {
        Some(length) => length,
        None => return Err(DispatchError::Memory(MemoryError::AddressOverflow)),
    };
    if length > MAX_BYTES {
        return Err(DispatchError::Unsupported);
    }
    let stack = cpu.register(Register32::Esp);
    let low = match stack.checked_sub(WORKSPACE) {
        Some(low) => low,
        None => return Err(DispatchError::Memory(MemoryError::AddressOverflow)),
    };
    let high = stack as u64 + 20;
    if (base as u64) < high && base as u64 + length as u64 > low as u64 {
        return Err(DispatchError::Unsupported);
    }
    check(memory, base, length as usize, Access::Read)?;
    check(memory, base, length as usize, Access::Write)?;
    check(memory, compare, 1, Access::Execute)?;
    check(memory, low, WORKSPACE as usize, Access::Read)?;
    check(memory, low, WORKSPACE as usize, Access::Write)?;
    cpu.eip = SORT_ENTRY;
    Ok(true)
}

} // verus!
