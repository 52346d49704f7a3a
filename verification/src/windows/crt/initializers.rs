//! The page of guest code that the runtime provides itself: `_initterm`,
//! which calls each non-null function pointer in a table, and the sorting
//! routine behind `qsort`.
use crate::memory::{
    lemma_allowed_covers, lemma_first_page_where, page_allows, page_of, Access, GuestMemory,
    MemoryError, Permissions, PAGE_SIZE,
};
use vstd::prelude::*;

verus! {

/// Where the runtime's code page is mapped.
pub const BASE: u32 = 0x7000_3000;

/// Where the sorting routine starts on that page.
pub const SORT_ENTRY: u32 = 0x7000_3100;

/// The room for the sorting routine.
pub const SORT_ROOM: usize = 0xf00;

/// The bytes of `_initterm`: a cdecl loop in which `esi` walks `[start,
/// end)` and `edi` holds the end, both saved; null entries are skipped.
pub open spec fn initterm_code() -> Seq<u8> {
    seq![
        0x56u8, 0x57, 0x8b, 0x74, 0x24, 0x0c, 0x8b, 0x7c, 0x24, 0x10, 0x39, 0xfe, 0x73, 0x0e, 0x8b,
        0x06, 0x83, 0xf8, 0, 0x74, 2, 0xff, 0xd0, 0x83, 0xc6, 4, 0xeb, 0xee, 0x5f, 0x5e, 0xc3,
    ]
}

/// The bytes of `_initterm`.
fn initterm() -> (code: Vec<u8>)
    ensures
        code@ == initterm_code(),
{
    let code: Vec<u8> = vec![
        0x56u8, 0x57, 0x8b, 0x74, 0x24, 0x0c, 0x8b, 0x7c, 0x24, 0x10, 0x39, 0xfe, 0x73, 0x0e, 0x8b,
        0x06, 0x83, 0xf8, 0, 0x74, 2, 0xff, 0xd0, 0x83, 0xc6, 4, 0xeb, 0xee, 0x5f, 0x5e, 0xc3,
    ];
    assert(code@ =~= initterm_code());
    code
}

/// Maps the runtime's code page, places `_initterm` at its start and
/// `sorting_code` at the sorting entry, and leaves the page readable and
/// executable. A page already mapped there is refused before anything
/// changes.
pub fn initialize(memory: &mut GuestMemory, sorting_code: &[u8]) -> (outcome: Result<(), MemoryError>)
    requires
        old(memory).wf(),
        sorting_code@.len() <= SORT_ROOM,
    ensures
        final(memory).wf(),
        old(memory).map_outcome(BASE as u64, PAGE_SIZE) is Err ==> outcome == old(memory).map_outcome(
            BASE as u64,
            PAGE_SIZE,
        ) && *final(memory) == *old(memory),
        old(memory).map_outcome(BASE as u64, PAGE_SIZE) is Ok ==> {
            &&& outcome is Ok
            &&& final(memory).pages() == old(memory).pages().insert(
                (BASE / 4096) as u64,
                Permissions { read: true, write: false, execute: true },
            )
            &&& forall|i: int|
                0 <= i < initterm_code().len() ==> #[trigger] final(memory).byte(BASE + i)
                    == initterm_code()[i]
            &&& forall|i: int|
                0 <= i < sorting_code@.len() ==> #[trigger] final(memory).byte(SORT_ENTRY + i)
                    == sorting_code@[i]
        },
{
    let read_write = Permissions { read: true, write: true, execute: false };
    let read_execute = Permissions { read: true, write: false, execute: true };
    memory.map_zeroed(BASE as u64, PAGE_SIZE, read_write)?;
    let ghost page = (BASE / 4096) as u64;
    let ghost mapped = *memory;
    proof {
        assert(mapped.pages() =~= old(memory).pages().insert(page, read_write));
        assert forall|a: int| BASE <= a < BASE + 4096 implies #[trigger] page_allows(
            mapped.pages(),
            a,
            Access::Write,
        ) by {
            assert(page_of(a) == page);
        }
        lemma_allowed_covers(mapped.pages(), BASE as int, BASE + 31, Access::Write);
        lemma_allowed_covers(
            mapped.pages(),
            SORT_ENTRY as int,
            SORT_ENTRY + sorting_code@.len(),
            Access::Write,
        );
    }
    let code = initterm();
    match memory.write(BASE as u64, code.as_slice()) {
        Ok(()) => {},
        Err(error) => {
            assert(false);
            return Err(error);
        },
    }
    let ghost first = *memory;
    match memory.write(SORT_ENTRY as u64, sorting_code) {
        Ok(()) => {},
        Err(error) => {
            assert(false);
            return Err(error);
        },
    }
    let ghost second = *memory;
    proof {
        lemma_first_page_where(second.pages(), page as int, page + 1, false);
        assert(second.pages().contains_key(page));
    }
    match memory.protect(BASE as u64, PAGE_SIZE, read_execute) {
        Ok(()) => {},
        Err(error) => {
            assert(false);
            return Err(error);
        },
    }
    proof {
        assert(memory.pages() =~= old(memory).pages().insert(page, read_execute));
        assert forall|i: int| 0 <= i < initterm_code().len() implies #[trigger] memory.byte(BASE + i)
            == initterm_code()[i] by {
            assert(page_of(BASE + i) == page);
            assert(memory.holds(BASE + i));
            assert(second.holds(BASE + i));
            assert(first.holds(BASE + i));
        }
        assert forall|i: int| 0 <= i < sorting_code@.len() implies #[trigger] memory.byte(
            SORT_ENTRY + i,
        ) == sorting_code@[i] by {
            assert(page_of(SORT_ENTRY + i) == page);
            assert(memory.holds(SORT_ENTRY + i));
            assert(second.holds(SORT_ENTRY + i));
        }
    }
    Ok(())
}

} // verus!
