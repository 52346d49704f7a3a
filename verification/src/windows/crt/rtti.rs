//! `__RTDynamicCast`: walks the run-time type information that the compiler
//! placed beside a polymorphic object's virtual table and finds the
//! sub-object of the requested type. Only the plain single-inheritance
//! layouts are followed; anything else is refused.
use super::super::guest::{check_outcome, read_word, read_words, word_outcome, words_at};
use super::super::DispatchError;
use super::strings::{bytes_at, length_from, read_text};
use crate::memory::{Access, GuestMemory, MemoryError};
use vstd::prelude::*;

verus! {

/// The most base classes a hierarchy may list.
pub const MAX_BASES: u32 = 64;

/// The longest type name that is read.
pub const MAX_TYPE_NAME: u32 = 256;

/// The outcome of reading the name of the type descriptor at `descriptor`:
/// the bytes before its terminator, which must come within the first
/// `MAX_TYPE_NAME` bytes after the name's start, 8 bytes in.
pub open spec fn name_outcome(memory: GuestMemory, descriptor: u32) -> Result<Seq<u8>, DispatchError> {
    if descriptor + 8 > u32::MAX {
        Err(DispatchError::Memory(MemoryError::AddressOverflow))
    } else {
        let start = (descriptor + 8) as u32;
        match length_from(memory, start, 0, MAX_TYPE_NAME as int, Err(DispatchError::Unsupported)) {
            Err(error) => Err(error),
            Ok(length) => if length == 0 {
                Err(DispatchError::Unsupported)
            } else {
                Ok(bytes_at(memory, start, length as int))
            },
        }
    }
}

/// What the walk over the base classes has found so far: how many entries
/// name the source type at the object's offset, the offset of the target
/// type, and whether the target was named twice.
#[derive(Clone, Copy)]
pub struct Found {
    pub source_matches: u32,
    pub target: Option<u32>,
    pub ambiguous: bool,
}

/// The walk over base class entries `index..count` of the array at `bases`.
#[verifier::opaque]
pub open spec fn scan_from(
    memory: GuestMemory,
    bases: u32,
    count: u32,
    source_name: Seq<u8>,
    target_name: Seq<u8>,
    object_offset: u32,
    index: int,
    found: Found,
) -> Result<Found, DispatchError>
    decreases count - index,
{
    if index >= count || index < 0 {
        Ok(found)
    } else if bases + 4 * index > u32::MAX {
        Err(DispatchError::Unsupported)
    } else {
        match word_outcome(memory, (bases + 4 * index) as u32) {
            Err(error) => Err(error),
            Ok(address) => match check_outcome(memory, address, 24, Access::Read) {
                Err(error) => Err(error),
                Ok(()) => {
                    let descriptor = words_at(memory, address, 6);
                    if descriptor[3] != u32::MAX || descriptor[5] & !0x40u32 != 0 {
                        Err(DispatchError::Unsupported)
                    } else {
                        match name_outcome(memory, descriptor[0]) {
                            Err(error) => Err(error),
                            Ok(name) => {
                                let offset = descriptor[2];
                                let next = Found {
                                    source_matches: if name == source_name && offset
                                        == object_offset {
                                        (found.source_matches + 1) as u32
                                    } else {
                                        found.source_matches
                                    },
                                    target: if name == target_name {
                                        Some(offset)
                                    } else {
                                        found.target
                                    },
                                    ambiguous: found.ambiguous || (name == target_name
                                        && found.target is Some),
                                };
                                scan_from(
                                    memory,
                                    bases,
                                    count,
                                    source_name,
                                    target_name,
                                    object_offset,
                                    index + 1,
                                    next,
                                )
                            },
                        }
                    }
                },
            },
        }
    }
}

/// The answer once the object's complete address and the walk are known.
pub open spec fn answer(complete: u32, found: Found, is_reference: u32) -> Result<u32, DispatchError> {
    if found.source_matches != 1 || found.ambiguous {
        Err(DispatchError::Unsupported)
    } else {
        match found.target {
            Some(offset) => if complete + offset > u32::MAX {
                Err(DispatchError::Unsupported)
            } else {
                Ok((complete + offset) as u32)
            },
            None => if is_reference == 0 {
                Ok(0)
            } else {
                Err(DispatchError::Unsupported)
            },
        }
    }
}

/// What the cast gives, from the hierarchy descriptor on.
pub open spec fn hierarchy_outcome(
    memory: GuestMemory,
    complete: u32,
    object_offset: u32,
    hierarchy: u32,
    source_type: u32,
    target_type: u32,
    is_reference: u32,
) -> Result<u32, DispatchError> {
    match check_outcome(memory, hierarchy, 16, Access::Read) {
        Err(error) => Err(error),
        Ok(()) => {
            let words = words_at(memory, hierarchy, 4);
            if words[0] != 0 || words[1] & !1u32 != 0 || !(1 <= words[2] <= MAX_BASES) {
                Err(DispatchError::Unsupported)
            } else {
                match name_outcome(memory, source_type) {
                    Err(error) => Err(error),
                    Ok(source_name) => match name_outcome(memory, target_type) {
                        Err(error) => Err(error),
                        Ok(target_name) => match scan_from(
                            memory,
                            words[3],
                            words[2],
                            source_name,
                            target_name,
                            object_offset,
                            0,
                            Found { source_matches: 0, target: None, ambiguous: false },
                        ) {
                            Err(error) => Err(error),
                            Ok(found) => answer(complete, found, is_reference),
                        },
                    },
                }
            }
        },
    }
}

/// What `__RTDynamicCast(object, vf_delta, source_type, target_type,
/// is_reference)` gives.
pub open spec fn cast_outcome(memory: GuestMemory, arguments: Seq<u32>) -> Result<u32, DispatchError> {
    let object = arguments[0];
    if object == 0 {
        Ok(0)
    } else if arguments[1] != 0 || arguments[2] == 0 || arguments[3] == 0 || arguments[4] > 1 {
        Err(DispatchError::Unsupported)
    } else {
        match word_outcome(memory, object) {
            Err(error) => Err(error),
            Ok(vtable) => if vtable < 4 {
                Err(DispatchError::Unsupported)
            } else {
                match word_outcome(memory, (vtable - 4) as u32) {
                    Err(error) => Err(error),
                    Ok(locator) => match check_outcome(memory, locator, 20, Access::Read) {
                        Err(error) => Err(error),
                        Ok(()) => {
                            let words = words_at(memory, locator, 5);
                            if words[0] != 0 || words[2] != 0 || object < words[1] {
                                Err(DispatchError::Unsupported)
                            } else {
                                hierarchy_outcome(
                                    memory,
                                    (object - words[1]) as u32,
                                    words[1],
                                    words[4],
                                    arguments[2],
                                    arguments[3],
                                    arguments[4],
                                )
                            }
                        },
                    },
                }
            },
        }
    }
}

/// Reads the name of the type descriptor at `descriptor`.
fn read_type_name(memory: &GuestMemory, descriptor: u32) -> (name: Result<Vec<u8>, DispatchError>)
    requires
        memory.wf(),
    ensures
        match name_outcome(*memory, descriptor) {
            Err(error) => name == Err::<Vec<u8>, DispatchError>(error),
            Ok(bytes) => name matches Ok(found) && found@ == bytes,
        },
{
    let start = match descriptor.checked_add(8) {
        Some(start) => start,
        None => return Err(DispatchError::Memory(MemoryError::AddressOverflow)),
    };
    let name = read_text(memory, start, MAX_TYPE_NAME)?;
    if name.len() == 0 {
        return Err(DispatchError::Unsupported);
    }
    Ok(name)
}

/// Whether two byte strings are the same.
fn same_bytes(left: &Vec<u8>, right: &Vec<u8>) -> (same: bool)
    ensures
        same == (left@ == right@),
{
    if left.len() != right.len() {
        return false;
    }
    let mut index: usize = 0;
    while index < left.len()
        invariant
            left@.len() == right@.len(),
            index <= left@.len(),
            forall|j: int| 0 <= j < index ==> left@[j] == right@[j],
        decreases left@.len() - index,
    {
        if left[index] != right[index] {
            assert(left@[index as int] != right@[index as int]);
            return false;
        }
        index = index + 1;
    }
    assert(left@ =~= right@);
    true
}

/// Reads base class entry `index` and adds what it names to `found`.
fn scan_entry(
    memory: &GuestMemory,
    bases: u32,
    count: u32,
    source_name: &Vec<u8>,
    target_name: &Vec<u8>,
    object_offset: u32,
    index: u32,
    found: Found,
) -> (next: Result<Found, DispatchError>)
    requires
        memory.wf(),
        index < count <= MAX_BASES,
        found.source_matches <= index,
    ensures
        match next {
            Err(error) => scan_from(
                *memory,
                bases,
                count,
                source_name@,
                target_name@,
                object_offset,
                index as int,
                found,
            ) == Err::<Found, DispatchError>(error),
            Ok(next) => next.source_matches <= index + 1 && scan_from(
                *memory,
                bases,
                count,
                source_name@,
                target_name@,
                object_offset,
                index as int,
                found,
            ) == scan_from(
                *memory,
                bases,
                count,
                source_name@,
                target_name@,
                object_offset,
                index + 1,
                next,
            ),
        },
{
    reveal(scan_from);
    let entry = match bases.checked_add(index * 4) {
        Some(entry) => entry,
        None => return Err(DispatchError::Unsupported),
    };
    let descriptor_address = read_word(memory, entry)?;
    let mut descriptor = [0u32; 6];
    read_words(memory, descriptor_address, &mut descriptor)?;
    let offset = descriptor[2];
    if descriptor[3] != u32::MAX || descriptor[5] & !0x40u32 != 0 {
        return Err(DispatchError::Unsupported);
    }
    let name = read_type_name(memory, descriptor[0])?;
    let source_matches = if same_bytes(&name, source_name) && offset == object_offset {
        found.source_matches + 1
    } else {
        found.source_matches
    };
    let names_target = same_bytes(&name, target_name);
    let ambiguous = found.ambiguous || (names_target && found.target.is_some());
    let target = if names_target {
        Some(offset)
    } else {
        found.target
    };
    Ok(Found { source_matches, target, ambiguous })
}

/// Walks base class entries `0..count` of the array at `bases`.
fn scan(
    memory: &GuestMemory,
    bases: u32,
    count: u32,
    source_name: &Vec<u8>,
    target_name: &Vec<u8>,
    object_offset: u32,
) -> (found: Result<Found, DispatchError>)
    requires
        memory.wf(),
        1 <= count <= MAX_BASES,
    ensures
        found == scan_from(
            *memory,
            bases,
            count,
            source_name@,
            target_name@,
            object_offset,
            0,
            Found { source_matches: 0, target: None, ambiguous: false },
        ),
{
    let ghost start = Found { source_matches: 0, target: None, ambiguous: false };
    let mut found = Found { source_matches: 0, target: None, ambiguous: false };
    let mut index: u32 = 0;
    while index < count
        invariant
            memory.wf(),
            1 <= count <= MAX_BASES,
            index <= count,
            found.source_matches <= index,
            start == (Found { source_matches: 0, target: None, ambiguous: false }),
            scan_from(*memory, bases, count, source_name@, target_name@, object_offset, 0, start)
                == scan_from(
                *memory,
                bases,
                count,
                source_name@,
                target_name@,
                object_offset,
                index as int,
                found,
            ),
        decreases count - index,
    {
        found = scan_entry(
            memory,
            bases,
            count,
            source_name,
            target_name,
            object_offset,
            index,
            found,
        )?;
        index = index + 1;
    }
    proof {
        reveal(scan_from);
    }
    Ok(found)
}

/// Casts the polymorphic object in `arguments[0]` from the type described at
/// `arguments[2]` to the one at `arguments[3]`: the address of the target
/// sub-object, 0 for a null object or (when `arguments[4]` is 0) for a type
/// the object does not have, and a refusal for layouts that are not
/// followed.
pub fn dynamic_cast(memory: &GuestMemory, arguments: &[u32]) -> (cast: Result<u32, DispatchError>)
    requires
        memory.wf(),
        arguments@.len() == 5,
    ensures
        cast == cast_outcome(*memory, arguments@),
{
    let object = arguments[0];
    let vf_delta = arguments[1];
    let source_type = arguments[2];
    let target_type = arguments[3];
    let is_reference = arguments[4];
    if object == 0 {
        return Ok(0);
    }
    if vf_delta != 0 || source_type == 0 || target_type == 0 || is_reference > 1 {
        return Err(DispatchError::Unsupported);
    }
    let vtable = read_word(memory, object)?;
    if vtable < 4 {
        return Err(DispatchError::Unsupported);
    }
    let locator = read_word(memory, vtable - 4)?;
    let mut locator_words = [0u32; 5];
    read_words(memory, locator, &mut locator_words)?;
    let object_offset = locator_words[1];
    if locator_words[0] != 0 || locator_words[2] != 0 {
        return Err(DispatchError::Unsupported);
    }
    if object < object_offset {
        return Err(DispatchError::Unsupported);
    }
    let complete = object - object_offset;
    let hierarchy = locator_words[4];
    let mut hierarchy_words = [0u32; 4];
    read_words(memory, hierarchy, &mut hierarchy_words)?;
    let count = hierarchy_words[2];
    let bases = hierarchy_words[3];
    if hierarchy_words[0] != 0 || hierarchy_words[1] & !1u32 != 0 || !(1 <= count && count
        <= MAX_BASES) {
        return Err(DispatchError::Unsupported);
    }
    let source_name = read_type_name(memory, source_type)?;
    let target_name = read_type_name(memory, target_type)?;
    let found = scan(memory, bases, count, &source_name, &target_name, object_offset)?;
    let source_matches = found.source_matches;
    let ambiguous = found.ambiguous;
    let target = found.target;
    if source_matches != 1 || ambiguous {
        return Err(DispatchError::Unsupported);
    }
    match target {
        Some(offset) => match complete.checked_add(offset) {
            Some(address) => Ok(address),
            None => Err(DispatchError::Unsupported),
        },
        None => if is_reference == 0 {
            Ok(0)
        } else {
            Err(DispatchError::Unsupported)
        },
    }
}

} // verus!
