//! The runtime's multibyte code page: which one is selected, and the string
//! walks that depend on it (every supported page has one-byte characters).
use super::super::code_pages::{ANSI, OEM};
use super::super::DispatchError;
use crate::memory::{Access, GuestMemory, MemoryError};
use vstd::prelude::*;

verus! {

/// The code page that multibyte functions follow.
#[derive(Clone, Copy, Debug, PartialEq, Eq, Structural)]
pub enum CodePage {
    Ansi,
    Oem,
    SingleByte,
}

impl Default for CodePage {
    /// The ANSI code page.
    fn default() -> (page: Self)
        ensures
            page == CodePage::Ansi,
    {
        CodePage::Ansi
    }
}

/// The page that `_setmbcp` selects for `selector`, if it is supported: -3
/// (ANSI), -2 (OEM), 0 (single-byte), or the ANSI or OEM page by number.
pub open spec fn selected(selector: i32) -> Option<CodePage> {
    if selector == -3 || selector == ANSI {
        Some(CodePage::Ansi)
    } else if selector == -2 || selector == OEM {
        Some(CodePage::Oem)
    } else if selector == 0 {
        Some(CodePage::SingleByte)
    } else {
        None
    }
}

/// The outcome of reading the byte at `address`.
pub open spec fn byte_outcome(memory: GuestMemory, address: u32) -> Result<u8, DispatchError> {
    match memory.access(address as u64, 1, Access::Read) {
        Err(error) => Err(DispatchError::Memory(error)),
        Ok(()) => Ok(memory.byte(address as int)),
    }
}

/// Searching for the last `character` in the string at `pointer`, from
/// `offset` on, having found it last at `found` (0 for not yet): the
/// terminator ends the search; a string longer than 65536 bytes is refused.
pub open spec fn reverse_scan(
    memory: GuestMemory,
    pointer: u32,
    character: u8,
    offset: int,
    found: u32,
) -> Result<u32, DispatchError>
    decreases 65536 - offset,
{
    if offset >= 65536 || offset < 0 {
        Err(DispatchError::Unsupported)
    } else if pointer + offset > u32::MAX {
        Err(DispatchError::Memory(MemoryError::AddressOverflow))
    } else {
        let address = (pointer + offset) as u32;
        match byte_outcome(memory, address) {
            Err(error) => Err(error),
            Ok(byte) => {
                let found = if byte == character {
                    address
                } else {
                    found
                };
                if byte == 0 {
                    Ok(found)
                } else {
                    reverse_scan(memory, pointer, character, offset + 1, found)
                }
            },
        }
    }
}

/// Reads the byte at `address`.
pub fn read_byte(memory: &GuestMemory, address: u32) -> (byte: Result<u8, DispatchError>)
    requires
        memory.wf(),
    ensures
        byte == byte_outcome(*memory, address),
{
    let mut buffer = [0u8; 1];
    match memory.read(address as u64, &mut buffer) {
        Err(error) => Err(DispatchError::Memory(error)),
        Ok(()) => {
            assert(buffer@[0] == memory.byte(address + 0));
            Ok(buffer[0])
        },
    }
}

impl CodePage {
    /// Selects the page for `selector`; an unsupported selector is refused and
    /// the selection kept.
    pub fn set(&mut self, selector: i32) -> (outcome: Result<(), DispatchError>)
        ensures
            match selected(selector) {
                Some(page) => outcome is Ok && *final(self) == page,
                None => outcome == Err::<(), DispatchError>(DispatchError::Unsupported)
                    && *final(self) == *old(self),
            },
    {
        let page = if selector == -3 || selector == 1252 {
            CodePage::Ansi
        } else if selector == -2 || selector == 437 {
            CodePage::Oem
        } else if selector == 0 {
            CodePage::SingleByte
        } else {
            return Err(DispatchError::Unsupported);
        };
        *self = page;
        Ok(())
    }

    /// The address of the character after the one at `pointer`, which must be
    /// readable.
    pub fn increment(self, memory: &GuestMemory, pointer: u32) -> (next: Result<u32, DispatchError>)
        requires
            memory.wf(),
        ensures
            next == if pointer == 0 {
                Err(DispatchError::Unsupported)
            } else {
                match byte_outcome(*memory, pointer) {
                    Err(error) => Err(error),
                    Ok(_) => if pointer == u32::MAX {
                        Err(DispatchError::Memory(MemoryError::AddressOverflow))
                    } else {
                        Ok((pointer + 1) as u32)
                    },
                }
            },
    {
        if pointer == 0 {
            return Err(DispatchError::Unsupported);
        }
        read_byte(memory, pointer)?;
        match pointer.checked_add(1) {
            Some(next) => Ok(next),
            None => Err(DispatchError::Memory(MemoryError::AddressOverflow)),
        }
    }

    /// The address of the last occurrence of the low byte of `character` in
    /// the string at `pointer` (the terminator counts when the byte is 0), or 0
    /// when there is none.
    pub fn reverse_search(self, memory: &GuestMemory, pointer: u32, character: u32) -> (found:
        Result<u32, DispatchError>)
        requires
            memory.wf(),
        ensures
            found == if pointer == 0 {
                Err(DispatchError::Unsupported)
            } else {
                reverse_scan(*memory, pointer, (character % 256) as u8, 0, 0)
            },
    {
        if pointer == 0 {
            return Err(DispatchError::Unsupported);
        }
        let target = (character % 256) as u8;
        let mut found: u32 = 0;
        let mut offset: u32 = 0;
        while offset < 65536
            invariant
                memory.wf(),
                offset <= 65536,
                pointer != 0,
                target == (character % 256) as u8,
                reverse_scan(*memory, pointer, target, 0, 0) == reverse_scan(
                    *memory,
                    pointer,
                    target,
                    offset as int,
                    found,
                ),
            decreases 65536 - offset,
        {
            let address = match pointer.checked_add(offset) {
                Some(address) => address,
                None => return Err(DispatchError::Memory(MemoryError::AddressOverflow)),
            };
            let byte = read_byte(memory, address)?;
            if byte == target {
                found = address;
            }
            if byte == 0 {
                return Ok(found);
            }
            offset = offset + 1;
        }
        Err(DispatchError::Unsupported)
    }
}

} // verus!
