//! Checked access to guest memory in the units that system calls use.
use super::DispatchError;
use crate::cpu::operands::{memory_value, value_bytes};
use crate::memory::{Access, GuestMemory, MemoryError};
use vstd::prelude::*;

verus! {

/// The outcome of an `access` of `length` bytes at a 32-bit `address`.
pub open spec fn check_outcome(memory: GuestMemory, address: u32, length: int, access: Access) -> Result<
    (),
    DispatchError,
> {
    match memory.access(address as u64, length, access) {
        Ok(()) => Ok(()),
        Err(error) => Err(DispatchError::Memory(error)),
    }
}

/// The little-endian dwords at `address`, `count` of them.
pub open spec fn words_at(memory: GuestMemory, address: u32, count: int) -> Seq<u32> {
    Seq::new(count as nat, |i: int| memory_value(memory, address + 4 * i, 4) as u32)
}

/// The little-endian bytes of `words`, one after another.
pub open spec fn words_bytes(words: Seq<u32>) -> Seq<u8> {
    Seq::new(4 * words.len(), |i: int| value_bytes(words[i / 4], 4)[i % 4])
}

/// Checks that `length` bytes at `address` are mapped and allow `access`.
pub fn check(memory: &GuestMemory, address: u32, length: usize, access: Access) -> (outcome: Result<
    (),
    DispatchError,
>)
    requires
        memory.wf(),
    ensures
        outcome == check_outcome(*memory, address, length as int, access),
{
    match memory.check_access(address as u64, length, access) {
        Ok(()) => Ok(()),
        Err(error) => Err(DispatchError::Memory(error)),
    }
}

/// Reads `words.len()` little-endian dwords at `address`.
pub fn read_words(memory: &GuestMemory, address: u32, words: &mut [u32]) -> (outcome: Result<
    (),
    DispatchError,
>)
    requires
        memory.wf(),
        old(words)@.len() <= 0x1000_0000,
    ensures
        final(words)@.len() == old(words)@.len(),
        outcome == check_outcome(*memory, address, 4 * old(words)@.len() as int, Access::Read),
        outcome is Ok ==> final(words)@ == words_at(*memory, address, old(words)@.len() as int),
        outcome is Err ==> final(words)@ == old(words)@,
{
    let count = words.len();
    let mut bytes: Vec<u8> = Vec::new();
    let mut k: usize = 0;
    while k < 4 * count
        invariant
            count == words@.len(),
            count <= 0x1000_0000,
            k <= 4 * count,
            bytes@.len() == k,
        decreases 4 * count - k,
    {
        bytes.push(0);
        k = k + 1;
    }
    match memory.read(address as u64, bytes.as_mut_slice()) {
        Ok(()) => {},
        Err(error) => return Err(DispatchError::Memory(error)),
    }
    let mut i: usize = 0;
    while i < count
        invariant
            count == words@.len(),
            count == old(words)@.len(),
            count <= 0x1000_0000,
            i <= count,
            bytes@.len() == 4 * count,
            forall|j: int| 0 <= j < 4 * count ==> #[trigger] bytes@[j] == memory.byte(address + j),
            forall|j: int|
                0 <= j < i ==> #[trigger] words@[j] == memory_value(*memory, address + 4 * j, 4)
                    as u32,
        decreases count - i,
    {
        let b0 = bytes[4 * i] as u32;
        let b1 = bytes[4 * i + 1] as u32;
        let b2 = bytes[4 * i + 2] as u32;
        let b3 = bytes[4 * i + 3] as u32;
        words[i] = b0 + 256 * b1 + 65536 * b2 + 16777216 * b3;
        i = i + 1;
    }
    assert(words@ =~= words_at(*memory, address, count as int));
    Ok(())
}

/// The outcome of reading the dword at `address`.
pub open spec fn word_outcome(memory: GuestMemory, address: u32) -> Result<u32, DispatchError> {
    match check_outcome(memory, address, 4, Access::Read) {
        Err(error) => Err(error),
        Ok(()) => Ok(words_at(memory, address, 1)[0]),
    }
}

/// Reads the little-endian dword at `address`.
pub fn read_word(memory: &GuestMemory, address: u32) -> (value: Result<u32, DispatchError>)
    requires
        memory.wf(),
    ensures
        value == word_outcome(*memory, address),
{
    let mut output = [0u32; 1];
    read_words(memory, address, &mut output)?;
    Ok(output[0])
}

/// Writes `words` as little-endian dwords at `address`, all or nothing.
pub fn write_words(memory: &mut GuestMemory, address: u32, words: &[u32]) -> (outcome: Result<
    (),
    DispatchError,
>)
    requires
        old(memory).wf(),
        words@.len() <= 0x1000_0000,
    ensures
        final(memory).wf(),
        outcome == check_outcome(*old(memory), address, 4 * words@.len() as int, Access::Write),
        outcome is Ok ==> final(memory).wrote(*old(memory), address as int, words_bytes(words@)),
        outcome is Err ==> *final(memory) == *old(memory),
{
    check(memory, address, 4 * words.len(), Access::Write)?;
    let mut bytes: Vec<u8> = Vec::new();
    let mut i: usize = 0;
    while i < words.len()
        invariant
            words@.len() <= 0x1000_0000,
            i <= words@.len(),
            bytes@.len() == 4 * i,
            forall|j: int| 0 <= j < 4 * i ==> #[trigger] bytes@[j] == words_bytes(words@)[j],
        decreases words@.len() - i,
    {
        let part = word_bytes(words[i]);
        let mut k: usize = 0;
        while k < 4
            invariant
                i < words@.len(),
                words@.len() <= 0x1000_0000,
                k <= 4,
                part@ == value_bytes(words@[i as int], 4),
                bytes@.len() == 4 * i + k,
                forall|j: int| 0 <= j < 4 * i + k ==> #[trigger] bytes@[j] == words_bytes(words@)[j],
            decreases 4 - k,
        {
            bytes.push(part[k]);
            assert((4 * i + k) / 4 == i && (4 * i + k) % 4 == k as int);
            k = k + 1;
        }
        i = i + 1;
    }
    assert(bytes@ =~= words_bytes(words@));
    match memory.write(address as u64, bytes.as_slice()) {
        Ok(()) => Ok(()),
        Err(error) => Err(DispatchError::Memory(error)),
    }
}

/// Writes the little-endian dword `value` at `address`.
pub fn write_word(memory: &mut GuestMemory, address: u32, value: u32) -> (outcome: Result<
    (),
    DispatchError,
>)
    requires
        old(memory).wf(),
    ensures
        final(memory).wf(),
        outcome == check_outcome(*old(memory), address, 4, Access::Write),
        outcome is Ok ==> final(memory).wrote(*old(memory), address as int, value_bytes(value, 4)),
        outcome is Err ==> *final(memory) == *old(memory),
{
    let bytes = word_bytes(value);
    match memory.write(address as u64, bytes.as_slice()) {
        Ok(()) => Ok(()),
        Err(error) => Err(DispatchError::Memory(error)),
    }
}

/// The four little-endian bytes of `value`.
pub fn word_bytes(value: u32) -> (bytes: Vec<u8>)
    ensures
        bytes@ == value_bytes(value, 4),
{
    let mut bytes: Vec<u8> = Vec::new();
    bytes.push((value % 256) as u8);
    bytes.push((value / 256 % 256) as u8);
    bytes.push((value / 65536 % 256) as u8);
    bytes.push((value / 16777216 % 256) as u8);
    assert(bytes@ =~= value_bytes(value, 4));
    bytes
}

} // verus!
