//! Byte-string functions of the runtime over guest memory. Strings are read
//! one byte at a time; an address that would pass the top of the 32-bit space
//! is an overflow, and a string that does not end within 65536 bytes is
//! refused.
use super::super::DispatchError;
use super::super::guest::{check, check_outcome};
use super::buffers;
use super::multibyte::{byte_outcome, read_byte};
use crate::cpu::wrapped;
use crate::memory::{Access, GuestMemory, MemoryError};
use vstd::prelude::*;

verus! {

/// The longest string the runtime walks.
pub const LIMIT: u32 = 65536;

/// `byte` with `A`..`Z` lowered.
pub open spec fn ascii_lower(byte: u8) -> u8 {
    if 65 <= byte <= 90 {
        (byte + 32) as u8
    } else {
        byte
    }
}

/// The outcome of reading the byte `offset` bytes after `start`.
pub open spec fn byte_after(memory: GuestMemory, start: u32, offset: int) -> Result<u8, DispatchError> {
    if start + offset > u32::MAX {
        Err(DispatchError::Memory(MemoryError::AddressOverflow))
    } else {
        byte_outcome(memory, (start + offset) as u32)
    }
}

/// Comparing the strings at `left` and `right` from `offset` on, stopping
/// after `limit` bytes with `exhausted`: the first difference gives the
/// difference of the bytes (lowered when `fold`), a common terminator 0.
pub open spec fn compare_from(
    memory: GuestMemory,
    left: u32,
    right: u32,
    offset: int,
    limit: int,
    fold: bool,
    exhausted: Result<u32, DispatchError>,
) -> Result<u32, DispatchError>
    decreases limit - offset,
{
    if offset >= limit || offset < 0 {
        exhausted
    } else if left + offset > u32::MAX || right + offset > u32::MAX {
        Err(DispatchError::Memory(MemoryError::AddressOverflow))
    } else {
        match byte_after(memory, left, offset) {
            Err(error) => Err(error),
            Ok(a) => match byte_after(memory, right, offset) {
                Err(error) => Err(error),
                Ok(b) => {
                    let a = if fold {
                        ascii_lower(a)
                    } else {
                        a
                    };
                    let b = if fold {
                        ascii_lower(b)
                    } else {
                        b
                    };
                    if a != b {
                        Ok(wrapped(a - b))
                    } else if a == 0 {
                        Ok(0)
                    } else {
                        compare_from(memory, left, right, offset + 1, limit, fold, exhausted)
                    }
                },
            },
        }
    }
}

/// Looking for the byte `target` in the string at `source` from `offset` on:
/// its address, or 0 when the terminator comes first.
pub open spec fn find_from(memory: GuestMemory, source: u32, target: u8, offset: int) -> Result<
    u32,
    DispatchError,
>
    decreases LIMIT - offset,
{
    if offset >= LIMIT || offset < 0 {
        Err(DispatchError::Unsupported)
    } else {
        match byte_after(memory, source, offset) {
            Err(error) => Err(error),
            Ok(byte) => if byte == target {
                Ok((source + offset) as u32)
            } else if byte == 0 {
                Ok(0)
            } else {
                find_from(memory, source, target, offset + 1)
            },
        }
    }
}

/// The length of the string at `source` counted from `offset`, stopping at
/// `limit` with `exhausted`.
pub open spec fn length_from(
    memory: GuestMemory,
    source: u32,
    offset: int,
    limit: int,
    exhausted: Result<u32, DispatchError>,
) -> Result<u32, DispatchError>
    decreases limit - offset,
{
    if offset >= limit || offset < 0 {
        exhausted
    } else {
        match byte_after(memory, source, offset) {
            Err(error) => Err(error),
            Ok(byte) => if byte == 0 {
                Ok(offset as u32)
            } else {
                length_from(memory, source, offset + 1, limit, exhausted)
            },
        }
    }
}

/// The bytes `[start, start + count)` of memory from a 32-bit address.
pub open spec fn bytes_at(memory: GuestMemory, start: u32, count: int) -> Seq<u8> {
    Seq::new(count as nat, |i: int| memory.byte(start + i))
}

/// `tolower` for the runtime's "C" locale: `EOF` (-1) passes, other values
/// must be bytes.
pub fn lowercase(character: u32) -> (lowered: Result<u32, DispatchError>)
    ensures
        lowered == if character == u32::MAX {
            Ok(character)
        } else if character > 255 {
            Err(DispatchError::Unsupported)
        } else {
            Ok(ascii_lower(character as u8) as u32)
        },
{
    if character == u32::MAX {
        return Ok(character);
    }
    if character > 255 {
        return Err(DispatchError::Unsupported);
    }
    Ok(lower(character as u8) as u32)
}

/// `byte` with `A`..`Z` lowered.
fn lower(byte: u8) -> (lowered: u8)
    ensures
        lowered == ascii_lower(byte),
{
    if 65 <= byte && byte <= 90 {
        byte + 32
    } else {
        byte
    }
}

/// Reads the byte `offset` after `start`.
pub(crate) fn read_after(memory: &GuestMemory, start: u32, offset: u32) -> (byte: Result<u8, DispatchError>)
    requires
        memory.wf(),
    ensures
        byte == byte_after(*memory, start, offset as int),
{
    match start.checked_add(offset) {
        None => Err(DispatchError::Memory(MemoryError::AddressOverflow)),
        Some(address) => read_byte(memory, address),
    }
}

/// `a - b` modulo 2^32.
fn difference(a: u8, b: u8) -> (result: u32)
    ensures
        result == wrapped(a - b),
{
    (a as u32).wrapping_sub(b as u32)
}

/// Compares the first `limit` bytes of two strings; see [`compare_from`].
fn compare_strings(
    memory: &GuestMemory,
    left: u32,
    right: u32,
    limit: u32,
    fold: bool,
    exhausted: Result<u32, DispatchError>,
) -> (order: Result<u32, DispatchError>)
    requires
        memory.wf(),
    ensures
        order == compare_from(*memory, left, right, 0, limit as int, fold, exhausted),
{
    let mut offset: u32 = 0;
    while offset < limit
        invariant
            memory.wf(),
            offset <= limit,
            compare_from(*memory, left, right, 0, limit as int, fold, exhausted) == compare_from(
                *memory,
                left,
                right,
                offset as int,
                limit as int,
                fold,
                exhausted,
            ),
        decreases limit - offset,
    {
        if left.checked_add(offset).is_none() || right.checked_add(offset).is_none() {
            return Err(DispatchError::Memory(MemoryError::AddressOverflow));
        }
        let a = read_after(memory, left, offset)?;
        let b = read_after(memory, right, offset)?;
        let (a, b) = if fold {
            (lower(a), lower(b))
        } else {
            (a, b)
        };
        if a != b {
            return Ok(difference(a, b));
        }
        if a == 0 {
            return Ok(0);
        }
        offset = offset + 1;
    }
    exhausted
}

/// `_stricmp`: compares two strings, ignoring the case of ASCII letters.
pub fn compare_ignoring_case(memory: &GuestMemory, left: u32, right: u32) -> (order: Result<
    u32,
    DispatchError,
>)
    requires
        memory.wf(),
    ensures
        order == if left == 0 || right == 0 {
            Err(DispatchError::Unsupported)
        } else {
            compare_from(
                *memory,
                left,
                right,
                0,
                LIMIT as int,
                true,
                Err(DispatchError::Unsupported),
            )
        },
{
    if left == 0 || right == 0 {
        return Err(DispatchError::Unsupported);
    }
    compare_strings(memory, left, right, LIMIT, true, Err(DispatchError::Unsupported))
}

/// `strncmp`: compares at most `count` bytes of two strings.
pub fn compare_prefix(memory: &GuestMemory, left: u32, right: u32, count: u32) -> (order: Result<
    u32,
    DispatchError,
>)
    requires
        memory.wf(),
    ensures
        order == if count > LIMIT {
            Err(DispatchError::Unsupported)
        } else {
            compare_from(*memory, left, right, 0, count as int, false, Ok(0))
        },
{
    if count > LIMIT {
        return Err(DispatchError::Unsupported);
    }
    compare_strings(memory, left, right, count, false, Ok(0))
}

/// `strchr`: the address of the first low byte of `character` in the string
/// at `source` (the terminator counts when that byte is 0), or 0.
pub fn find(memory: &GuestMemory, source: u32, character: u32) -> (found: Result<u32, DispatchError>)
    requires
        memory.wf(),
    ensures
        found == find_from(*memory, source, (character % 256) as u8, 0),
{
    let target = (character % 256) as u8;
    let mut offset: u32 = 0;
    while offset < LIMIT
        invariant
            memory.wf(),
            offset <= LIMIT,
            target == (character % 256) as u8,
            find_from(*memory, source, target, 0) == find_from(*memory, source, target, offset as int),
        decreases LIMIT - offset,
    {
        let byte = read_after(memory, source, offset)?;
        if byte == target {
            return Ok(source + offset);
        }
        if byte == 0 {
            return Ok(0);
        }
        offset = offset + 1;
    }
    Err(DispatchError::Unsupported)
}

/// Counts bytes of the string at `source` before its terminator, up to `limit`.
fn count_bytes(memory: &GuestMemory, source: u32, limit: u32, exhausted: Result<u32, DispatchError>) -> (length:
    Result<u32, DispatchError>)
    requires
        memory.wf(),
    ensures
        length == length_from(*memory, source, 0, limit as int, exhausted),
{
    let mut offset: u32 = 0;
    while offset < limit
        invariant
            memory.wf(),
            offset <= limit,
            length_from(*memory, source, 0, limit as int, exhausted) == length_from(
                *memory,
                source,
                offset as int,
                limit as int,
                exhausted,
            ),
        decreases limit - offset,
    {
        let byte = read_after(memory, source, offset)?;
        if byte == 0 {
            return Ok(offset);
        }
        offset = offset + 1;
    }
    exhausted
}

/// The length of the string at `source`, or `count` when none of its first
/// `count` bytes ends it.
pub fn prefix_length(memory: &GuestMemory, source: u32, count: u32) -> (length: Result<
    u32,
    DispatchError,
>)
    requires
        memory.wf(),
    ensures
        length == length_from(*memory, source, 0, count as int, Ok(count)),
{
    count_bytes(memory, source, count, Ok(count))
}

/// `strlen`.
pub fn length(memory: &GuestMemory, source: u32) -> (length: Result<u32, DispatchError>)
    requires
        memory.wf(),
    ensures
        length == length_from(*memory, source, 0, LIMIT as int, Err(DispatchError::Unsupported)),
{
    count_bytes(memory, source, LIMIT, Err(DispatchError::Unsupported))
}

/// The bytes of the string at `source` before its terminator, which must
/// come within `limit` bytes.
pub fn read_text(memory: &GuestMemory, source: u32, limit: u32) -> (text: Result<Vec<u8>, DispatchError>)
    requires
        memory.wf(),
    ensures
        match length_from(*memory, source, 0, limit as int, Err(DispatchError::Unsupported)) {
            Err(error) => text == Err::<Vec<u8>, DispatchError>(error),
            Ok(length) => text matches Ok(found) && found@ == bytes_at(*memory, source, length as int),
        },
{
    let mut text: Vec<u8> = Vec::new();
    let mut offset: u32 = 0;
    while offset < limit
        invariant
            memory.wf(),
            offset <= limit,
            text@ == bytes_at(*memory, source, offset as int),
            length_from(*memory, source, 0, limit as int, Err(DispatchError::Unsupported))
                == length_from(
                *memory,
                source,
                offset as int,
                limit as int,
                Err(DispatchError::Unsupported),
            ),
        decreases limit - offset,
    {
        let byte = read_after(memory, source, offset)?;
        if byte == 0 {
            return Ok(text);
        }
        text.push(byte);
        assert(text@ =~= bytes_at(*memory, source, offset + 1));
        offset = offset + 1;
    }
    Err(DispatchError::Unsupported)
}

/// The bytes of the string at `source`, terminator included.
pub fn terminated_bytes(memory: &GuestMemory, source: u32) -> (bytes: Result<
    Vec<u8>,
    DispatchError,
>)
    requires
        memory.wf(),
    ensures
        match length_from(*memory, source, 0, LIMIT as int, Err(DispatchError::Unsupported)) {
            Err(error) => bytes == Err::<Vec<u8>, DispatchError>(error),
            Ok(length) => bytes matches Ok(found) && found@ == bytes_at(
                *memory,
                source,
                length + 1,
            ),
        },
{
    let mut bytes: Vec<u8> = Vec::new();
    let mut offset: u32 = 0;
    while offset < LIMIT
        invariant
            memory.wf(),
            offset <= LIMIT,
            bytes@ == bytes_at(*memory, source, offset as int),
            offset > 0 ==> source + offset - 1 <= u32::MAX,
            length_from(*memory, source, 0, LIMIT as int, Err(DispatchError::Unsupported))
                == length_from(
                *memory,
                source,
                offset as int,
                LIMIT as int,
                Err(DispatchError::Unsupported),
            ),
        decreases LIMIT - offset,
    {
        let byte = read_after(memory, source, offset)?;
        bytes.push(byte);
        assert(bytes@ =~= bytes_at(*memory, source, offset + 1));
        if byte == 0 {
            return Ok(bytes);
        }
        offset = offset + 1;
    }
    Err(DispatchError::Unsupported)
}

/// A string found within `limit` bytes (or, exhausting it, `limit` bytes
/// long) lies in readable pages below the top of the 32-bit space.
pub(crate) proof fn lemma_length_readable(
    memory: GuestMemory,
    source: u32,
    offset: int,
    limit: int,
    exhausted: Result<u32, DispatchError>,
)
    requires
        0 <= offset <= limit,
        limit <= u32::MAX,
        exhausted is Ok ==> exhausted == Ok::<u32, DispatchError>(limit as u32),
        length_from(memory, source, offset, limit, exhausted) is Ok,
    ensures
        ({
            let length = length_from(memory, source, offset, limit, exhausted)->Ok_0;
            &&& offset <= length <= limit
            &&& forall|i: int|
                offset <= i < length ==> #[trigger] crate::memory::page_allows(
                    memory.pages(),
                    source + i,
                    Access::Read,
                ) && source + i <= u32::MAX
        }),
    decreases limit - offset,
{
    if offset < limit {
        match byte_after(memory, source, offset) {
            Err(_) => {},
            Ok(byte) => {
                crate::memory::lemma_no_fault_covers(
                    memory.pages(),
                    source + offset,
                    source + offset + 1,
                    Access::Read,
                );
                assert(crate::memory::page_allows(memory.pages(), source + offset, Access::Read));
                if byte != 0 {
                    lemma_length_readable(memory, source, offset + 1, limit, exhausted);
                }
            },
        }
    }
}

/// `count` zero bytes.
pub open spec fn zeros(count: int) -> Seq<u8> {
    Seq::new(count as nat, |i: int| 0u8)
}

/// `strncpy`: copies the string at `source` (at most `count` bytes of it)
/// to `destination` and pads with zeros to `count` bytes. The destination
/// must be writable for all `count` bytes, and it may not overlap what is read.
pub fn copy(memory: &mut GuestMemory, destination: u32, source: u32, count: u32) -> (outcome: Result<
    u32,
    DispatchError,
>)
    requires
        old(memory).wf(),
    ensures
        final(memory).wf(),
        count == 0 ==> outcome == Ok::<u32, DispatchError>(destination) && *final(memory) == *old(memory),
        count != 0 ==> match check_outcome(*old(memory), destination, count as int, Access::Write) {
            Err(error) => outcome == Err::<u32, DispatchError>(error) && *final(memory) == *old(memory),
            Ok(()) => match length_from(*old(memory), source, 0, count as int, Ok(count)) {
                Err(error) => outcome == Err::<u32, DispatchError>(error) && *final(memory) == *old(memory),
                Ok(copied) => {
                    let read = if copied < count {
                        copied + 1
                    } else {
                        copied as int
                    };
                    if source < destination + count && destination < source + read {
                        outcome == Err::<u32, DispatchError>(DispatchError::Unsupported)
                            && *final(memory) == *old(memory)
                    } else {
                        outcome == Ok::<u32, DispatchError>(destination) && final(memory).wrote(
                            *old(memory),
                            destination as int,
                            bytes_at(*old(memory), source, copied as int) + zeros(count - copied),
                        )
                    }
                },
            },
        },
{
    if count == 0 {
        return Ok(destination);
    }
    check(memory, destination, count as usize, Access::Write)?;
    let copied = prefix_length(memory, source, count)?;
    proof {
        lemma_length_readable(*memory, source, 0, count as int, Ok(count));
        assert forall|a: int| source <= a < source + copied implies #[trigger] crate::memory::page_allows(
            memory.pages(),
            a,
            Access::Read,
        ) by {
            let i = a - source;
            assert(crate::memory::page_allows(memory.pages(), source + i, Access::Read));
        }
        crate::memory::lemma_allowed_covers(
            memory.pages(),
            source as int,
            source + copied,
            Access::Read,
        );
    }
    let read_length = if copied < count {
        copied + 1
    } else {
        copied
    };
    if (source as u64) < destination as u64 + count as u64 && (destination as u64) < source as u64
        + read_length as u64 {
        return Err(DispatchError::Unsupported);
    }
    let ghost start = *memory;
    proof {
        crate::memory::law_access_within(
            *memory,
            destination as u64,
            count as int,
            destination as u64,
            copied as int,
            Access::Write,
        );
    }
    match buffers::copy(memory, destination, source, copied) {
        Err(_) => {
            assert(false);
        },
        Ok(_) => {},
    }
    let ghost middle = *memory;
    if copied < count {
        let filled = memory.fill(destination as u64 + copied as u64, (count - copied) as usize, 0);
        assert(filled is Ok) by {
            crate::memory::law_access_within(
                start,
                destination as u64,
                count as int,
                (destination + copied) as u64,
                count - copied,
                Access::Write,
            );
        }
        proof {
            assert(Seq::new((count - copied) as nat, |i: int| 0u8) =~= zeros(count - copied));
            crate::memory::law_adjacent_writes(
                start,
                middle,
                *memory,
                destination as int,
                bytes_at(start, source, copied as int),
                zeros(count - copied),
            );
        }
    } else {
        assert(bytes_at(start, source, copied as int) + zeros(count - copied) =~= bytes_at(
            start,
            source,
            copied as int,
        ));
    }
    Ok(destination)
}

/// `strncat`: appends the string at `source` (at most `count` bytes of it)
/// and a terminator to the string at `destination`. The bytes written must be
/// writable and may not overlap what is read.
pub fn append(memory: &mut GuestMemory, destination: u32, source: u32, count: u32) -> (outcome:
    Result<u32, DispatchError>)
    requires
        old(memory).wf(),
    ensures
        final(memory).wf(),
        count == 0 ==> outcome == Ok::<u32, DispatchError>(destination) && *final(memory) == *old(memory),
        count > LIMIT ==> outcome == Err::<u32, DispatchError>(DispatchError::Unsupported) && *final(memory) == *old(memory),
        0 < count <= LIMIT ==> match length_from(*old(memory), destination, 0, LIMIT as int, Err(DispatchError::Unsupported)) {
            Err(error) => outcome == Err::<u32, DispatchError>(error) && *final(memory) == *old(memory),
            Ok(existing) => if destination + existing > u32::MAX {
                outcome == Err::<u32, DispatchError>(DispatchError::Memory(MemoryError::AddressOverflow))
                    && *final(memory) == *old(memory)
            } else {
                let output = (destination + existing) as u32;
                match length_from(*old(memory), source, 0, count as int, Ok(count)) {
                    Err(error) => outcome == Err::<u32, DispatchError>(error) && *final(memory) == *old(memory),
                    Ok(copied) => match check_outcome(*old(memory), output, copied + 1, Access::Write) {
                        Err(error) => outcome == Err::<u32, DispatchError>(error) && *final(memory) == *old(memory),
                        Ok(()) => {
                            let read = if copied < count {
                                copied + 1
                            } else {
                                copied as int
                            };
                            if source < output + copied + 1 && destination < source + read {
                                outcome == Err::<u32, DispatchError>(DispatchError::Unsupported)
                                    && *final(memory) == *old(memory)
                            } else {
                                outcome == Ok::<u32, DispatchError>(destination) && final(memory).wrote(
                                    *old(memory),
                                    output as int,
                                    bytes_at(*old(memory), source, copied as int) + seq![0u8],
                                )
                            }
                        },
                    },
                }
            },
        },
{
    if count == 0 {
        return Ok(destination);
    }
    if count > LIMIT {
        return Err(DispatchError::Unsupported);
    }
    let existing = length(memory, destination)?;
    let output = match destination.checked_add(existing) {
        Some(output) => output,
        None => return Err(DispatchError::Memory(MemoryError::AddressOverflow)),
    };
    let copied = prefix_length(memory, source, count)?;
    proof {
        lemma_length_readable(*memory, source, 0, count as int, Ok(count));
        assert forall|a: int| source <= a < source + copied implies #[trigger] crate::memory::page_allows(
            memory.pages(),
            a,
            Access::Read,
        ) by {
            let i = a - source;
            assert(crate::memory::page_allows(memory.pages(), source + i, Access::Read));
        }
        crate::memory::lemma_allowed_covers(
            memory.pages(),
            source as int,
            source + copied,
            Access::Read,
        );
    }
    let read_length = if copied < count {
        copied + 1
    } else {
        copied
    };
    check(memory, output, (copied + 1) as usize, Access::Write)?;
    if (source as u64) < output as u64 + copied as u64 + 1 && (destination as u64) < source as u64
        + read_length as u64 {
        return Err(DispatchError::Unsupported);
    }
    let ghost start = *memory;
    proof {
        crate::memory::law_access_within(
            *memory,
            output as u64,
            copied + 1,
            output as u64,
            copied as int,
            Access::Write,
        );
    }
    match buffers::copy(memory, output, source, copied) {
        Err(_) => {
            assert(false);
        },
        Ok(_) => {},
    }
    let ghost middle = *memory;
    let terminator = [0u8; 1];
    let written = memory.write(output as u64 + copied as u64, &terminator);
    assert(written is Ok) by {
        crate::memory::law_access_within(
            start,
            output as u64,
            copied + 1,
            (output + copied) as u64,
            1,
            Access::Write,
        );
    }
    proof {
        assert(terminator@ =~= seq![0u8]);
        crate::memory::law_adjacent_writes(
            start,
            middle,
            *memory,
            output as int,
            bytes_at(start, source, copied as int),
            seq![0u8],
        );
    }
    Ok(destination)
}

} // verus!
