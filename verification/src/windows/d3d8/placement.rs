//! Where new buffers and textures go in the guest: the first free span of
//! whole pages in the range kept for them, a read-only header page that
//! points at the object's method table, and zeroed pages for its data.
use super::objects::{TEXTURE_END, TEXTURE_START};
use super::super::guest::words_bytes;
use crate::cpu::operands::value_bytes;
use crate::memory::{
    lemma_allowed_covers, lemma_first_page_where, lemma_no_fault_covers, page_allows, page_of,
    span_free, Access, GuestMemory, MemoryError, Permissions,
};
use vstd::prelude::*;

verus! {

/// Whether `address` is where the first free span of `length` bytes lies
/// in the range kept for objects.
pub open spec fn first_fit(pages: Map<u64, Permissions>, length: int, address: int) -> bool {
    &&& address % 4096 == 0
    &&& TEXTURE_START <= address
    &&& address + length <= TEXTURE_END
    &&& span_free(pages, address / 4096, length / 4096)
    &&& forall|page: int|
        TEXTURE_START / 4096 <= page < address / 4096 ==> !#[trigger] span_free(
            pages,
            page,
            length / 4096,
        )
}

/// Where the first free span of `length` bytes lies, if there is one.
pub open spec fn free_spot(pages: Map<u64, Permissions>, length: int) -> Option<int> {
    if exists|address: int| first_fit(pages, length, address) {
        Some(choose|address: int| first_fit(pages, length, address))
    } else {
        None
    }
}

/// There is one first free span.
pub proof fn lemma_first_fit_unique(pages: Map<u64, Permissions>, length: int, a: int, b: int)
    requires
        first_fit(pages, length, a),
        first_fit(pages, length, b),
    ensures
        a == b,
{
    if a < b {
        assert(TEXTURE_START / 4096 <= a / 4096 < b / 4096);
        assert(!span_free(pages, a / 4096, length / 4096));
    } else if b < a {
        assert(TEXTURE_START / 4096 <= b / 4096 < a / 4096);
        assert(!span_free(pages, b / 4096, length / 4096));
    }
}

/// The pages after placing an object of `length` bytes at `address`: all
/// new, the header page read-only and the rest readable and writable.
pub open spec fn placed_pages(old: Map<u64, Permissions>, address: int, length: int) -> Map<
    u64,
    Permissions,
> {
    old.union_prefer_right(
        Map::new(
            |page: u64| address / 4096 <= page < (address + length) / 4096,
            |page: u64| Permissions { read: true, write: true, execute: false },
        ),
    ).insert((address / 4096) as u64, Permissions { read: true, write: false, execute: false })
}

/// `new` is `old` with an object of `length` bytes placed at `address`,
/// its header holding `header`, and `address` stored at `output`.
pub open spec fn placed(
    new: GuestMemory,
    old: GuestMemory,
    address: int,
    length: int,
    header: Seq<u32>,
    output: u32,
) -> bool {
    &&& new.wf()
    &&& new.limit() == old.limit()
    &&& new.pages() == placed_pages(old.pages(), address, length)
    &&& forall|a: int| #[trigger]
        new.holds(a) ==> new.byte(a) == if output <= a < output + 4 {
            value_bytes(address as u32, 4)[a - output]
        } else if address <= a < address + 4 * header.len() {
            words_bytes(header)[a - address]
        } else if address <= a < address + length {
            0u8
        } else {
            old.byte(a)
        }
}

/// Places an object of `length` bytes (a positive number of pages) in the
/// first free span: maps it, writes `header` at its start, leaves the
/// header page read-only, and stores the object's address at `output`.
/// `None` when there is no free span or no room for more pages.
pub fn place_object(memory: &mut GuestMemory, length: u64, header: &[u32], output: u32) -> (placed_at:
    Result<Option<u32>, MemoryError>)
    requires
        old(memory).wf(),
        length % 4096 == 0,
        4096 <= length <= TEXTURE_END - TEXTURE_START,
        4 * header@.len() <= 4096,
        old(memory).access(output as u64, 4, Access::Write) is Ok,
    ensures
        final(memory).wf(),
        match free_spot(old(memory).pages(), length as int) {
            None => placed_at == Ok::<Option<u32>, MemoryError>(None) && *final(memory) == *old(
                memory,
            ),
            Some(spot) => if old(memory).map_outcome(spot as u64, length) is Err {
                placed_at == Ok::<Option<u32>, MemoryError>(None) && *final(memory) == *old(memory)
            } else {
                placed_at == Ok::<Option<u32>, MemoryError>(Some(spot as u32)) && placed(
                    *final(memory),
                    *old(memory),
                    spot,
                    length as int,
                    header@,
                    output,
                )
            },
        },
{
    let span = memory.first_free_span(TEXTURE_START, TEXTURE_END, length);
    let address = match span {
        Ok(Some(address)) => address,
        Ok(None) => {
            proof {
                if exists|address: int| first_fit(memory.pages(), length as int, address) {
                    let found = choose|address: int| first_fit(memory.pages(), length as int, address);
                    assert(span_free(memory.pages(), found / 4096, length as int / 4096));
                    assert(found / 4096 + length as int / 4096 <= TEXTURE_END as int / 4096);
                    assert(false);
                }
            }
            return Ok(None);
        },
        Err(error) => {
            assert(false);
            return Err(error);
        },
    };
    proof {
        assert(first_fit(memory.pages(), length as int, address as int));
        let chosen = choose|a: int| first_fit(memory.pages(), length as int, a);
        lemma_first_fit_unique(memory.pages(), length as int, address as int, chosen);
    }
    let ghost before = *memory;
    match memory.map_zeroed(address, length, Permissions { read: true, write: true, execute: false }) {
        Ok(()) => {},
        Err(_) => return Ok(None),
    }
    let ghost mapped = *memory;
    let ghost first_page = (address / 4096) as u64;
    proof {
        assert forall|a: int| address <= a < address + length implies #[trigger] page_allows(
            mapped.pages(),
            a,
            Access::Write,
        ) by {
            assert(address as int / 4096 <= page_of(a) < (address + length) / 4096);
        }
        lemma_allowed_covers(mapped.pages(), address as int, address + length, Access::Write);
        crate::memory::law_access_within(
            mapped,
            address,
            length as int,
            address,
            4 * header@.len() as int,
            Access::Write,
        );
    }
    let object = address as u32;
    match super::objects::store_words(memory, object, header) {
        Ok(()) => {},
        Err(error) => {
            assert(false);
            return Err(error);
        },
    }
    let ghost headed = *memory;
    proof {
        lemma_first_page_where(headed.pages(), first_page as int, first_page + 1, false);
        assert(headed.pages().contains_key(first_page));
    }
    match memory.protect(address, 4096, Permissions { read: true, write: false, execute: false }) {
        Ok(()) => {},
        Err(error) => {
            assert(false);
            return Err(error);
        },
    }
    let ghost protected = *memory;
    proof {
        assert(protected.pages() =~= placed_pages(before.pages(), address as int, length as int));
        lemma_no_fault_covers(before.pages(), output as int, output + 4, Access::Write);
        assert forall|a: int| output <= a < output + 4 implies #[trigger] page_allows(
            protected.pages(),
            a,
            Access::Write,
        ) by {
            assert(page_allows(before.pages(), a, Access::Write));
            let page = page_of(a);
            if address / 4096 <= page < (address + length) / 4096 {
                assert(!before.pages().contains_key(page as u64));
            }
        }
        lemma_allowed_covers(protected.pages(), output as int, output + 4, Access::Write);
    }
    match super::objects::store_word(memory, output, object) {
        Ok(()) => {},
        Err(error) => {
            assert(false);
            return Err(error);
        },
    }
    proof {
        assert forall|a: int| #[trigger] memory.holds(a) implies memory.byte(a) == if output <= a
            < output + 4 {
            value_bytes(object, 4)[a - output]
        } else if address <= a < address + 4 * header@.len() {
            words_bytes(header@)[a - address]
        } else if address <= a < address + length {
            0u8
        } else {
            before.byte(a)
        } by {
            assert(protected.holds(a));
            assert(headed.holds(a));
            assert(mapped.holds(a));
        }
    }
    Ok(Some(object))
}

} // verus!
