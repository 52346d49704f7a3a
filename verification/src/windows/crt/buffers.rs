//! The runtime's memory-block functions: `memset`, `memcpy`, `memmove`,
//! `memcmp` and `memchr` over guest memory.
use super::super::guest::{check, check_outcome};
use super::super::DispatchError;
use super::strings::bytes_at;
use crate::cpu::wrapped;
use crate::memory::{Access, GuestMemory};
use vstd::prelude::*;

verus! {

/// The longest block that `memcmp` and `memchr` accept.
pub const BLOCK_LIMIT: u32 = 65536;

/// Whether the blocks of `count` bytes at `first` and `second` share a byte.
pub open spec fn blocks_overlap(first: u32, second: u32, count: u32) -> bool {
    first < second + count && second < first + count
}

/// The first index below `count` where the blocks at `left` and `right`
/// differ, or `count`.
pub open spec fn first_difference(memory: GuestMemory, left: u32, right: u32, count: int) -> int
    decreases count,
{
    if count <= 0 {
        0
    } else {
        let before = first_difference(memory, left, right, count - 1);
        if before < count - 1 {
            before
        } else if memory.byte(left + count - 1) != memory.byte(right + count - 1) {
            count - 1
        } else {
            count
        }
    }
}

/// The first index below `count` where the block at `source` holds
/// `target`, or `count`.
pub open spec fn first_match(memory: GuestMemory, source: u32, target: u8, count: int) -> int
    decreases count,
{
    if count <= 0 {
        0
    } else {
        let before = first_match(memory, source, target, count - 1);
        if before < count - 1 {
            before
        } else if memory.byte(source + count - 1) == target {
            count - 1
        } else {
            count
        }
    }
}

/// `memset`: stores the low byte of `value` in `count` bytes at `destination`.
pub fn fill(memory: &mut GuestMemory, destination: u32, value: u32, count: u32) -> (outcome: Result<
    u32,
    DispatchError,
>)
    requires
        old(memory).wf(),
    ensures
        final(memory).wf(),
        match check_outcome(*old(memory), destination, count as int, Access::Write) {
            Err(error) => outcome == Err::<u32, DispatchError>(error) && *final(memory) == *old(memory),
            Ok(()) => outcome == Ok::<u32, DispatchError>(destination) && final(memory).wrote(
                *old(memory),
                destination as int,
                Seq::new(count as nat, |i: int| (value % 256) as u8),
            ),
        },
{
    check(memory, destination, count as usize, Access::Write)?;
    match memory.fill(destination as u64, count as usize, (value % 256) as u8) {
        Err(error) => Err(DispatchError::Memory(error)),
        Ok(()) => Ok(destination),
    }
}

/// Reads the `count` bytes at `source`, which must be readable.
fn read_block(memory: &GuestMemory, source: u32, count: u32) -> (bytes: Vec<u8>)
    requires
        memory.wf(),
        check_outcome(*memory, source, count as int, Access::Read) is Ok,
    ensures
        bytes@ == bytes_at(*memory, source, count as int),
{
    let mut bytes: Vec<u8> = Vec::new();
    let mut k: u32 = 0;
    while k < count
        invariant
            k <= count,
            bytes@.len() == k,
        decreases count - k,
    {
        bytes.push(0);
        k = k + 1;
    }
    let outcome = memory.read(source as u64, bytes.as_mut_slice());
    assert(outcome is Ok);
    assert(bytes@ =~= bytes_at(*memory, source, count as int));
    bytes
}

/// Copies `count` bytes from `source` to `destination` after checking both
/// blocks; the source is read whole before anything is written.
fn copy_block(memory: &mut GuestMemory, destination: u32, source: u32, count: u32)
    requires
        old(memory).wf(),
        check_outcome(*old(memory), source, count as int, Access::Read) is Ok,
        check_outcome(*old(memory), destination, count as int, Access::Write) is Ok,
    ensures
        final(memory).wf(),
        final(memory).wrote(*old(memory), destination as int, bytes_at(*old(memory), source, count as int)),
{
    let bytes = read_block(memory, source, count);
    let outcome = memory.write(destination as u64, bytes.as_slice());
    assert(outcome is Ok);
}

/// `memcpy`: copies `count` bytes from `source` to `destination`; blocks that
/// overlap are refused.
pub fn copy(memory: &mut GuestMemory, destination: u32, source: u32, count: u32) -> (outcome: Result<
    u32,
    DispatchError,
>)
    requires
        old(memory).wf(),
    ensures
        final(memory).wf(),
        count == 0 ==> outcome == Ok::<u32, DispatchError>(destination) && *final(memory) == *old(memory),
        count != 0 ==> match check_outcome(*old(memory), source, count as int, Access::Read) {
            Err(error) => outcome == Err::<u32, DispatchError>(error) && *final(memory) == *old(memory),
            Ok(()) => match check_outcome(*old(memory), destination, count as int, Access::Write) {
                Err(error) => outcome == Err::<u32, DispatchError>(error) && *final(memory)
                    == *old(memory),
                Ok(()) => if blocks_overlap(source, destination, count) {
                    outcome == Err::<u32, DispatchError>(DispatchError::Unsupported) && *final(memory) == *old(memory)
                } else {
                    outcome == Ok::<u32, DispatchError>(destination) && final(memory).wrote(
                        *old(memory),
                        destination as int,
                        bytes_at(*old(memory), source, count as int),
                    )
                },
            },
        },
{
    if count == 0 {
        return Ok(destination);
    }
    check(memory, source, count as usize, Access::Read)?;
    check(memory, destination, count as usize, Access::Write)?;
    let (first, second, size) = (source as u64, destination as u64, count as u64);
    if first < second + size && second < first + size {
        return Err(DispatchError::Unsupported);
    }
    copy_block(memory, destination, source, count);
    Ok(destination)
}

/// `memmove`: copies `count` bytes from `source` to `destination`, as if
/// through a buffer, so overlapping blocks are fine.
pub fn move_bytes(memory: &mut GuestMemory, destination: u32, source: u32, count: u32) -> (outcome:
    Result<u32, DispatchError>)
    requires
        old(memory).wf(),
    ensures
        final(memory).wf(),
        count == 0 ==> outcome == Ok::<u32, DispatchError>(destination) && *final(memory) == *old(memory),
        count != 0 ==> match check_outcome(*old(memory), source, count as int, Access::Read) {
            Err(error) => outcome == Err::<u32, DispatchError>(error) && *final(memory) == *old(memory),
            Ok(()) => match check_outcome(*old(memory), destination, count as int, Access::Write) {
                Err(error) => outcome == Err::<u32, DispatchError>(error) && *final(memory)
                    == *old(memory),
                Ok(()) => outcome == Ok::<u32, DispatchError>(destination) && (source
                    == destination || final(memory).wrote(
                    *old(memory),
                    destination as int,
                    bytes_at(*old(memory), source, count as int),
                )) && (source == destination ==> *final(memory) == *old(memory)),
            },
        },
{
    if count == 0 {
        return Ok(destination);
    }
    check(memory, source, count as usize, Access::Read)?;
    check(memory, destination, count as usize, Access::Write)?;
    if source == destination {
        return Ok(destination);
    }
    copy_block(memory, destination, source, count);
    Ok(destination)
}

/// `memcmp`: the difference of the first differing bytes of the two blocks,
/// or 0.
pub fn compare(memory: &GuestMemory, left: u32, right: u32, count: u32) -> (order: Result<
    u32,
    DispatchError,
>)
    requires
        memory.wf(),
    ensures
        count > BLOCK_LIMIT ==> order == Err::<u32, DispatchError>(DispatchError::Unsupported),
        count <= BLOCK_LIMIT ==> match check_outcome(*memory, left, count as int, Access::Read) {
            Err(error) => order == Err::<u32, DispatchError>(error),
            Ok(()) => match check_outcome(*memory, right, count as int, Access::Read) {
                Err(error) => order == Err::<u32, DispatchError>(error),
                Ok(()) => {
                    let index = first_difference(*memory, left, right, count as int);
                    order == Ok::<u32, DispatchError>(
                        if index < count {
                            wrapped(memory.byte(left + index) - memory.byte(right + index))
                        } else {
                            0
                        },
                    )
                },
            },
        },
{
    if count > BLOCK_LIMIT {
        return Err(DispatchError::Unsupported);
    }
    check(memory, left, count as usize, Access::Read)?;
    check(memory, right, count as usize, Access::Read)?;
    let a = read_block(memory, left, count);
    let b = read_block(memory, right, count);
    let mut index: u32 = 0;
    while index < count
        invariant
            index <= count,
            a@ == bytes_at(*memory, left, count as int),
            b@ == bytes_at(*memory, right, count as int),
            first_difference(*memory, left, right, index as int) == index,
            count <= BLOCK_LIMIT,
            check_outcome(*memory, left, count as int, Access::Read) is Ok,
            check_outcome(*memory, right, count as int, Access::Read) is Ok,
        decreases count - index,
    {
        if a[index as usize] != b[index as usize] {
            proof {
                lemma_first_difference_stays(*memory, left, right, index as int + 1, count as int);
            }
            return Ok((a[index as usize] as u32).wrapping_sub(b[index as usize] as u32));
        }
        index = index + 1;
    }
    Ok(0)
}

/// Once a difference is found, longer blocks find the same one.
proof fn lemma_first_difference_stays(memory: GuestMemory, left: u32, right: u32, count: int, longer: int)
    requires
        0 < count <= longer,
        first_difference(memory, left, right, count) < count,
    ensures
        first_difference(memory, left, right, longer) == first_difference(memory, left, right, count),
    decreases longer - count,
{
    if count < longer {
        lemma_first_difference_stays(memory, left, right, count, longer - 1);
    }
}

/// Once a match is found, longer blocks find the same one.
proof fn lemma_first_match_stays(memory: GuestMemory, source: u32, target: u8, count: int, longer: int)
    requires
        0 < count <= longer,
        first_match(memory, source, target, count) < count,
    ensures
        first_match(memory, source, target, longer) == first_match(memory, source, target, count),
    decreases longer - count,
{
    if count < longer {
        lemma_first_match_stays(memory, source, target, count, longer - 1);
    }
}

/// `memchr`: the address of the first byte of the block equal to the low
/// byte of `value`, or 0.
pub fn find(memory: &GuestMemory, source: u32, value: u32, count: u32) -> (found: Result<
    u32,
    DispatchError,
>)
    requires
        memory.wf(),
    ensures
        count > BLOCK_LIMIT ==> found == Err::<u32, DispatchError>(DispatchError::Unsupported),
        count == 0 ==> found == Ok::<u32, DispatchError>(0),
        0 < count <= BLOCK_LIMIT ==> match check_outcome(*memory, source, count as int, Access::Read) {
            Err(error) => found == Err::<u32, DispatchError>(error),
            Ok(()) => {
                let index = first_match(*memory, source, (value % 256) as u8, count as int);
                found == Ok::<u32, DispatchError>(
                    if index < count {
                        wrapped(source + index)
                    } else {
                        0
                    },
                )
            },
        },
{
    if count > BLOCK_LIMIT {
        return Err(DispatchError::Unsupported);
    }
    if count == 0 {
        return Ok(0);
    }
    check(memory, source, count as usize, Access::Read)?;
    let target = (value % 256) as u8;
    let bytes = read_block(memory, source, count);
    let mut index: u32 = 0;
    while index < count
        invariant
            index <= count,
            target == (value % 256) as u8,
            bytes@ == bytes_at(*memory, source, count as int),
            first_match(*memory, source, target, index as int) == index,
            0 < count <= BLOCK_LIMIT,
            check_outcome(*memory, source, count as int, Access::Read) is Ok,
        decreases count - index,
    {
        if bytes[index as usize] == target {
            proof {
                lemma_first_match_stays(*memory, source, target, index as int + 1, count as int);
            }
            return Ok(source.wrapping_add(index));
        }
        index = index + 1;
    }
    Ok(0)
}

} // verus!
