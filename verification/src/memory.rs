//! Sparse guest memory made of 4 KiB pages, each with its own permissions.
use std::collections::{BTreeSet, HashMap};
use vstd::prelude::*;
use vstd::std_specs::iter::IteratorSpec;

verus! {

broadcast use {vstd::std_specs::hash::group_hash_axioms, vstd::std_specs::btree::group_btree_axioms};

pub const PAGE_SIZE: u64 = 4096;

/// The kind of access a guest makes to memory.
#[derive(Clone, Copy, Debug, PartialEq, Eq, Structural)]
pub enum Access {
    Read,
    Write,
    Execute,
}

/// What a page allows.
#[derive(Clone, Copy, Debug, PartialEq, Eq, Structural)]
pub struct Permissions {
    pub read: bool,
    pub write: bool,
    pub execute: bool,
}

impl Permissions {
    /// Whether these permissions allow `access`.
    pub open spec fn allows(self, access: Access) -> bool {
        match access {
            Access::Read => self.read,
            Access::Write => self.write,
            Access::Execute => self.execute,
        }
    }

    pub fn permits(self, access: Access) -> (allowed: bool)
        ensures
            allowed == self.allows(access),
    {
        match access {
            Access::Read => self.read,
            Access::Write => self.write,
            Access::Execute => self.execute,
        }
    }
}

#[derive(Clone, Debug, PartialEq, Eq, Structural)]
pub enum MemoryError {
    UnalignedRange,
    AddressOverflow,
    PageLimitExceeded,
    AlreadyMapped { address: u64 },
    Unmapped { address: u64 },
    PermissionDenied { address: u64, access: Access },
}

/// The page that holds byte `address`.
pub open spec fn page_of(address: int) -> int {
    address / 4096
}

/// The error of a page-granular range, if any: the range must start on a page,
/// be a positive whole number of pages long, and end inside the 64-bit space.
pub open spec fn range_error(address: u64, length: u64) -> Option<MemoryError> {
    if address % 4096 != 0 || length == 0 || length % 4096 != 0 {
        Some(MemoryError::UnalignedRange)
    } else if address + length > u64::MAX {
        Some(MemoryError::AddressOverflow)
    } else {
        None
    }
}

/// The first page in `[page, end)` whose presence in `pages` is `present`.
pub open spec fn first_page_where(
    pages: Map<u64, Permissions>,
    page: int,
    end: int,
    present: bool,
) -> Option<int>
    decreases end - page,
{
    if page >= end {
        None
    } else if pages.contains_key(page as u64) == present {
        Some(page)
    } else {
        first_page_where(pages, page + 1, end, present)
    }
}

/// The first fault met by an access that walks `[cursor, end)` page by page.
pub open spec fn first_fault(
    pages: Map<u64, Permissions>,
    cursor: int,
    end: int,
    access: Access,
) -> Option<MemoryError>
    decreases end - cursor,
{
    if cursor >= end {
        None
    } else if !pages.contains_key(page_of(cursor) as u64) {
        Some(MemoryError::Unmapped { address: cursor as u64 })
    } else if !pages[page_of(cursor) as u64].allows(access) {
        Some(MemoryError::PermissionDenied { address: cursor as u64, access })
    } else {
        let next = cursor + (4096 - cursor % 4096);
        first_fault(pages, if next < end { next } else { end }, end, access)
    }
}

/// The outcome of checking an access of `length` bytes at `address`.
pub open spec fn access_outcome(
    pages: Map<u64, Permissions>,
    address: u64,
    length: int,
    access: Access,
) -> Result<(), MemoryError> {
    if address + length > u64::MAX {
        Err(MemoryError::AddressOverflow)
    } else {
        match first_fault(pages, address as int, address + length, access) {
            None => Ok(()),
            Some(error) => Err(error),
        }
    }
}

/// Whether the page holding `address` is mapped in `pages` and allows `access`.
pub open spec fn page_allows(pages: Map<u64, Permissions>, address: int, access: Access) -> bool {
    pages.contains_key(page_of(address) as u64) && pages[page_of(address) as u64].allows(access)
}

/// Whether every page of `[start, start + count)` is absent from `pages`.
pub open spec fn span_free(pages: Map<u64, Permissions>, start: int, count: int) -> bool {
    forall|page: int| start <= page < start + count ==> !#[trigger] pages.contains_key(page as u64)
}

struct Page {
    bytes: Vec<u8>,
    permissions: Permissions,
}

/// A sparse 32/64-bit guest address space with a cap on mapped pages.
pub struct GuestMemory {
    pages: HashMap<u64, Page>,
    occupied: BTreeSet<u64>,
    page_limit: u32,
}

impl GuestMemory {
    /// The internal consistency that every operation keeps.
    pub closed spec fn wf(&self) -> bool {
        &&& self.occupied@ == self.pages@.dom()
        &&& self.pages@.dom().finite()
        &&& self.pages@.len() <= self.page_limit
        &&& forall|page: u64| #[trigger]
            self.pages@.contains_key(page) ==> self.pages@[page].bytes@.len() == 4096 && page
                < 0x10_0000_0000_0000
    }

    /// The mapped pages and their permissions.
    pub closed spec fn pages(&self) -> Map<u64, Permissions> {
        self.pages@.map_values(|page: Page| page.permissions)
    }

    /// The byte at `address`, meaningful where its page is mapped.
    pub closed spec fn byte(&self, address: int) -> u8 {
        self.pages@[page_of(address) as u64].bytes@[address % 4096]
    }

    /// The cap on mapped pages.
    pub closed spec fn limit(&self) -> u32 {
        self.page_limit
    }

    /// Whether the page holding `address` is mapped.
    pub open spec fn holds(&self, address: int) -> bool {
        0 <= address <= u64::MAX && self.pages().contains_key(page_of(address) as u64)
    }

    /// The outcome of an access of `length` bytes at `address`.
    pub open spec fn access(&self, address: u64, length: int, access: Access) -> Result<
        (),
        MemoryError,
    > {
        access_outcome(self.pages(), address, length, access)
    }

    /// The outcome of mapping `[address, address + length)`.
    pub open spec fn map_outcome(&self, address: u64, length: u64) -> Result<(), MemoryError> {
        match range_error(address, length) {
            Some(error) => Err(error),
            None => if length / 4096 + self.pages().len() > self.limit() {
                Err(MemoryError::PageLimitExceeded)
            } else {
                match first_page_where(
                    self.pages(),
                    address as int / 4096,
                    (address + length) / 4096,
                    true,
                ) {
                    Some(page) => Err(MemoryError::AlreadyMapped { address: (page * 4096) as u64 }),
                    None => Ok(()),
                }
            },
        }
    }

    /// The outcome of an operation that needs `[address, address + length)` mapped.
    pub open spec fn mapped_outcome(&self, address: u64, length: u64) -> Result<(), MemoryError> {
        match range_error(address, length) {
            Some(error) => Err(error),
            None => match first_page_where(
                self.pages(),
                address as int / 4096,
                (address + length) / 4096,
                false,
            ) {
                Some(page) => Err(MemoryError::Unmapped { address: (page * 4096) as u64 }),
                None => Ok(()),
            },
        }
    }

    /// `self` is `old` with the bytes at `address` replaced by `data`.
    pub open spec fn wrote(self, old: Self, address: int, data: Seq<u8>) -> bool {
        &&& self.pages() == old.pages()
        &&& self.limit() == old.limit()
        &&& forall|a: int| #[trigger]
            self.holds(a) ==> self.byte(a) == if address <= a < address + data.len() {
                data[a - address]
            } else {
                old.byte(a)
            }
    }

    /// `self` is `old` with the pages `[first, end)` given `permissions`; mapped
    /// pages keep their bytes and newly mapped pages read as zero.
    pub open spec fn remapped(
        self,
        old: Self,
        first: int,
        end: int,
        permissions: Permissions,
    ) -> bool {
        &&& self.limit() == old.limit()
        &&& self.pages() == old.pages().union_prefer_right(
            Map::new(|page: u64| first <= page < end, |page: u64| permissions),
        )
        &&& forall|a: int| #[trigger]
            self.holds(a) ==> self.byte(a) == if old.holds(a) {
                old.byte(a)
            } else {
                0
            }
    }

    /// `self` is `old` without the pages `[first, end)`.
    pub open spec fn unmapped(self, old: Self, first: int, end: int) -> bool {
        &&& self.limit() == old.limit()
        &&& self.pages() == old.pages().remove_keys(Set::new(|page: u64| first <= page < end))
        &&& forall|a: int| #[trigger] self.holds(a) ==> self.byte(a) == old.byte(a)
    }

    /// An empty address space that will hold at most `page_limit` pages.
    pub fn new(page_limit: u32) -> (memory: Self)
        ensures
            memory.wf(),
            memory.pages() == Map::<u64, Permissions>::empty(),
            memory.limit() == page_limit,
    {
        let memory = Self { pages: HashMap::new(), occupied: BTreeSet::new(), page_limit };
        assert(memory.pages() =~= Map::<u64, Permissions>::empty());
        memory
    }

    pub fn mapped_pages(&self) -> (count: usize)
        requires
            self.wf(),
        ensures
            count == self.pages().len(),
    {
        assert(self.pages().dom() =~= self.pages@.dom());
        self.pages.len()
    }

    /// Checks that `length` bytes at `address` are mapped and allow `access`,
    /// reporting the first offending address.
    pub fn check_access(&self, address: u64, length: usize, access: Access) -> (outcome: Result<
        (),
        MemoryError,
    >)
        requires
            self.wf(),
        ensures
            outcome == self.access(address, length as int, access),
    {
        let end = match address.checked_add(length as u64) {
            Some(end) => end,
            None => return Err(MemoryError::AddressOverflow),
        };
        let mut cursor = address;
        while cursor < end
            invariant
                self.wf(),
                address <= cursor <= end,
                end == address + length,
                first_fault(self.pages(), address as int, end as int, access) == first_fault(
                    self.pages(),
                    cursor as int,
                    end as int,
                    access,
                ),
            decreases end - cursor,
        {
            let index = cursor / PAGE_SIZE;
            match self.pages.get(&index) {
                None => return Err(MemoryError::Unmapped { address: cursor }),
                Some(page) => {
                    if !page.permissions.permits(access) {
                        return Err(MemoryError::PermissionDenied { address: cursor, access });
                    }
                },
            }
            let to_boundary = PAGE_SIZE - cursor % PAGE_SIZE;
            let count = if to_boundary < end - cursor {
                to_boundary
            } else {
                end - cursor
            };
            cursor = cursor + count;
        }
        Ok(())
    }

    pub fn read(&self, address: u64, output: &mut [u8]) -> (outcome: Result<(), MemoryError>)
        requires
            self.wf(),
        ensures
            final(output)@.len() == old(output)@.len(),
            outcome == self.access(address, old(output)@.len() as int, Access::Read),
            outcome is Ok ==> forall|i: int|
                0 <= i < old(output)@.len() ==> final(output)@[i] == #[trigger] self.byte(
                    address + i,
                ),
            outcome is Err ==> final(output)@ == old(output)@,
    {
        self.copy_out(address, output, Access::Read)
    }

    /// Reads instruction bytes: like [`Self::read`], but needs execute permission.
    pub fn fetch(&self, address: u64, output: &mut [u8]) -> (outcome: Result<(), MemoryError>)
        requires
            self.wf(),
        ensures
            final(output)@.len() == old(output)@.len(),
            outcome == self.access(address, old(output)@.len() as int, Access::Execute),
            outcome is Ok ==> forall|i: int|
                0 <= i < old(output)@.len() ==> final(output)@[i] == #[trigger] self.byte(
                    address + i,
                ),
            outcome is Err ==> final(output)@ == old(output)@,
    {
        self.copy_out(address, output, Access::Execute)
    }

    /// Copies the bytes of one page, `[offset, offset + count)`, into
    /// `output[at..at + count]`.
    fn copy_page_out(&self, index: u64, offset: usize, count: usize, output: &mut [u8], at: usize)
        requires
            self.wf(),
            self.pages@.contains_key(index),
            offset + count <= 4096,
            at + count <= old(output)@.len(),
        ensures
            final(output)@.len() == old(output)@.len(),
            forall|j: int|
                0 <= j < old(output)@.len() ==> #[trigger] final(output)@[j] == if at <= j < at
                    + count {
                    self.pages@[index].bytes@[offset + j - at]
                } else {
                    old(output)@[j]
                },
    {
        let page = self.pages.get(&index).unwrap();
        let length = output.len();
        let mut k: usize = 0;
        while k < count
            invariant
                length == output@.len(),
                self.wf(),
                self.pages@.contains_key(index),
                *page == self.pages@[index],
                offset + count <= 4096,
                at + count <= old(output)@.len(),
                k <= count,
                output@.len() == old(output)@.len(),
                forall|j: int|
                    0 <= j < old(output)@.len() ==> #[trigger] output@[j] == if at <= j < at + k {
                        self.pages@[index].bytes@[offset + j - at]
                    } else {
                        old(output)@[j]
                    },
            decreases count - k,
        {
            output[at + k] = page.bytes[offset + k];
            k = k + 1;
        }
    }


    /// Writes `input` at `address`, all or nothing.
    pub fn write(&mut self, address: u64, input: &[u8]) -> (outcome: Result<(), MemoryError>)
        requires
            old(self).wf(),
        ensures
            final(self).wf(),
            outcome == old(self).access(address, input@.len() as int, Access::Write),
            outcome is Ok ==> final(self).wrote(*old(self), address as int, input@),
            outcome is Err ==> *final(self) == *old(self),
    {
        let length = input.len();
        match self.check_access(address, length, Access::Write) {
            Err(error) => return Err(error),
            Ok(()) => {},
        }
        proof {
            lemma_no_fault_covers(self.pages(), address as int, address + length, Access::Write);
        }
        let mut done: usize = 0;
        while done < length
            invariant
                self.wf(),
                done <= length,
                length == input@.len(),
                address + length <= u64::MAX,
                self.pages() == old(self).pages(),
                self.limit() == old(self).limit(),
                forall|a: int|
                    address <= a < address + length ==> #[trigger] page_allows(
                        self.pages(),
                        a,
                        Access::Write,
                    ),
                forall|a: int| #[trigger]
                    self.holds(a) ==> self.byte(a) == if address <= a < address + done {
                        input@[a - address]
                    } else {
                        old(self).byte(a)
                    },
            decreases length - done,
        {
            let cursor = address + done as u64;
            let (index, offset, count) = chunk(cursor, length - done);
            assert(page_allows(self.pages(), cursor as int, Access::Write));
            let ghost before = *self;
            self.store_page(index, offset, count, input, done);
            assert forall|a: int| #[trigger] self.holds(a) implies self.byte(a) == if address <= a
                < address + done + count {
                input@[a - address]
            } else {
                old(self).byte(a)
            } by {
                assert(before.holds(a));
                if page_of(a) == index {
                    lemma_same_page(a, cursor as int);
                }
            }
            done = done + count;
        }
        Ok(())
    }

    /// Sets `length` bytes at `address` to `value`, all or nothing.
    pub fn fill(&mut self, address: u64, length: usize, value: u8) -> (outcome: Result<
        (),
        MemoryError,
    >)
        requires
            old(self).wf(),
        ensures
            final(self).wf(),
            outcome == old(self).access(address, length as int, Access::Write),
            outcome is Ok ==> final(self).wrote(
                *old(self),
                address as int,
                Seq::new(length as nat, |i: int| value),
            ),
            outcome is Err ==> *final(self) == *old(self),
    {
        match self.check_access(address, length, Access::Write) {
            Err(error) => return Err(error),
            Ok(()) => {},
        }
        proof {
            lemma_no_fault_covers(self.pages(), address as int, address + length, Access::Write);
        }
        let ghost data = Seq::new(length as nat, |i: int| value);
        let mut done: usize = 0;
        while done < length
            invariant
                self.wf(),
                done <= length,
                data == Seq::new(length as nat, |i: int| value),
                address + length <= u64::MAX,
                self.pages() == old(self).pages(),
                self.limit() == old(self).limit(),
                forall|a: int|
                    address <= a < address + length ==> #[trigger] page_allows(
                        self.pages(),
                        a,
                        Access::Write,
                    ),
                forall|a: int| #[trigger]
                    self.holds(a) ==> self.byte(a) == if address <= a < address + done {
                        data[a - address]
                    } else {
                        old(self).byte(a)
                    },
            decreases length - done,
        {
            let cursor = address + done as u64;
            let (index, offset, count) = chunk(cursor, length - done);
            assert(page_allows(self.pages(), cursor as int, Access::Write));
            let ghost before = *self;
            self.set_page(index, offset, count, value);
            assert forall|a: int| #[trigger] self.holds(a) implies self.byte(a) == if address <= a
                < address + done + count {
                data[a - address]
            } else {
                old(self).byte(a)
            } by {
                assert(before.holds(a));
                if page_of(a) == index {
                    lemma_same_page(a, cursor as int);
                }
            }
            done = done + count;
        }
        Ok(())
    }

    /// Stores `input[from..from + count]` at `[offset, offset + count)` of a mapped page.
    fn store_page(&mut self, index: u64, offset: usize, count: usize, input: &[u8], from: usize)
        requires
            old(self).wf(),
            old(self).pages@.contains_key(index),
            offset + count <= 4096,
            from + count <= input@.len(),
        ensures
            final(self).wf(),
            final(self).pages() == old(self).pages(),
            final(self).limit() == old(self).limit(),
            forall|a: int| #[trigger]
                final(self).holds(a) ==> final(self).byte(a) == if page_of(a) == index && offset
                    <= a % 4096 < offset + count {
                    input@[from + a % 4096 - offset]
                } else {
                    old(self).byte(a)
                },
    {
        let mut page = self.pages.remove(&index).unwrap();
        let ghost original = page.bytes@;
        let length = input.len();
        let mut k: usize = 0;
        while k < count
            invariant
                old(self).pages@.contains_key(index),
                self.pages@ == old(self).pages@.remove(index),
                page.permissions == old(self).pages@[index].permissions,
                original == old(self).pages@[index].bytes@,
                length == input@.len(),
                offset + count <= 4096,
                from + count <= input@.len(),
                k <= count,
                original.len() == 4096,
                page.bytes@.len() == 4096,
                forall|j: int|
                    0 <= j < 4096 ==> #[trigger] page.bytes@[j] == if offset <= j < offset + k {
                        input@[from + j - offset]
                    } else {
                        original[j]
                    },
            decreases count - k,
        {
            page.bytes.set(offset + k, input[from + k]);
            k = k + 1;
        }
        self.pages.insert(index, page);
        assert(self.pages@.dom() =~= old(self).pages@.dom());
        assert(self.pages() =~= old(self).pages());
        assert forall|a: int| #[trigger] self.holds(a) implies self.byte(a) == if page_of(a) == index
            && offset <= a % 4096 < offset + count {
            input@[from + a % 4096 - offset]
        } else {
            old(self).byte(a)
        } by {
            if page_of(a) == index {
                assert(self.pages@[index] == page);
                assert(self.byte(a) == page.bytes@[a % 4096]);
            }
        }
    }

    /// Sets `[offset, offset + count)` of a mapped page to `value`.
    fn set_page(&mut self, index: u64, offset: usize, count: usize, value: u8)
        requires
            old(self).wf(),
            old(self).pages@.contains_key(index),
            offset + count <= 4096,
        ensures
            final(self).wf(),
            final(self).pages() == old(self).pages(),
            final(self).limit() == old(self).limit(),
            forall|a: int| #[trigger]
                final(self).holds(a) ==> final(self).byte(a) == if page_of(a) == index && offset
                    <= a % 4096 < offset + count {
                    value
                } else {
                    old(self).byte(a)
                },
    {
        let mut page = self.pages.remove(&index).unwrap();
        let ghost original = page.bytes@;
        let mut k: usize = 0;
        while k < count
            invariant
                old(self).pages@.contains_key(index),
                self.pages@ == old(self).pages@.remove(index),
                page.permissions == old(self).pages@[index].permissions,
                original == old(self).pages@[index].bytes@,
                offset + count <= 4096,
                k <= count,
                original.len() == 4096,
                page.bytes@.len() == 4096,
                forall|j: int|
                    0 <= j < 4096 ==> #[trigger] page.bytes@[j] == if offset <= j < offset + k {
                        value
                    } else {
                        original[j]
                    },
            decreases count - k,
        {
            page.bytes.set(offset + k, value);
            k = k + 1;
        }
        self.pages.insert(index, page);
        assert(self.pages@.dom() =~= old(self).pages@.dom());
        assert(self.pages() =~= old(self).pages());
        assert forall|a: int| #[trigger] self.holds(a) implies self.byte(a) == if page_of(a) == index
            && offset <= a % 4096 < offset + count {
            value
        } else {
            old(self).byte(a)
        } by {
            if page_of(a) == index {
                assert(self.pages@[index] == page);
                assert(self.byte(a) == page.bytes@[a % 4096]);
            }
        }
    }

    /// The permission view has exactly the mapped pages.
    proof fn lemma_pages_view(&self)
        ensures
            self.pages().dom() == self.pages@.dom(),
            forall|page: u64| #[trigger]
                self.pages@.contains_key(page) ==> self.pages()[page] == self.pages@[page].permissions,
    {
        assert(self.pages().dom() =~= self.pages@.dom());
    }

    /// Finitely many pages are mapped.
    pub proof fn lemma_pages_finite(&self)
        requires
            self.wf(),
        ensures
            self.pages().dom().finite(),
    {
        self.lemma_pages_view();
    }

    /// Maps `[address, address + length)` as fresh zeroed pages, all or nothing.
    #[verifier::loop_isolation(false)]
    pub fn map_zeroed(&mut self, address: u64, length: u64, permissions: Permissions) -> (outcome:
        Result<(), MemoryError>)
        requires
            old(self).wf(),
        ensures
            final(self).wf(),
            outcome == old(self).map_outcome(address, length),
            outcome is Ok ==> final(self).remapped(
                *old(self),
                address as int / 4096,
                (address + length) / 4096,
                permissions,
            ),
            outcome is Err ==> *final(self) == *old(self),
    {
        proof {
            self.lemma_pages_view();
        }
        let (first, end) = match page_range(address, length) {
            Err(error) => return Err(error),
            Ok(range) => range,
        };
        if length / PAGE_SIZE + self.pages.len() as u64 > self.page_limit as u64 {
            return Err(MemoryError::PageLimitExceeded);
        }
        let mut index = first;
        while index < end
            invariant
                first <= index <= end,
                end <= 0x10_0000_0000_0000,
                first_page_where(self.pages(), first as int, end as int, true) == first_page_where(
                    self.pages(),
                    index as int,
                    end as int,
                    true,
                ),
                self.pages().dom() == self.pages@.dom(),
            decreases end - index,
        {
            if self.pages.contains_key(&index) {
                return Err(MemoryError::AlreadyMapped { address: index * PAGE_SIZE });
            }
            index = index + 1;
        }
        proof {
            lemma_first_page_where(self.pages(), first as int, end as int, true);
            assert forall|page: u64| first <= page < end implies !self.pages@.contains_key(page) by {
                assert(!self.pages().contains_key((page as int) as u64));
            }
        }
        let ghost before = *self;
        let mut index = first;
        while index < end
            invariant
                first <= index <= end,
                end <= 0x10_0000_0000_0000,
                end - first + before.pages@.len() <= self.page_limit,
                self.page_limit == before.page_limit,
                before.wf(),
                self.occupied@ == self.pages@.dom(),
                self.pages@.dom().finite(),
                self.pages@.dom() == before.pages@.dom() + Set::new(
                    |page: u64| first <= page < index,
                ),
                self.pages@.len() == before.pages@.len() + (index - first),
                forall|page: u64|
                    first <= page < end ==> !#[trigger] before.pages@.contains_key(page),
                forall|page: u64| #[trigger]
                    before.pages@.contains_key(page) ==> self.pages@[page] == before.pages@[page],
                forall|page: u64|
                    first <= page < index ==> (#[trigger] self.pages@[page]).permissions
                        == permissions && self.pages@[page].bytes@ == Seq::new(
                        4096,
                        |i: int| 0u8,
                    ),
            decreases end - index,
        {
            let bytes = vec![0u8; 4096];
            assert(bytes@ =~= Seq::new(4096, |i: int| 0u8));
            self.pages.insert(index, Page { bytes, permissions });
            self.occupied.insert(index);
            assert(self.pages@.dom() =~= before.pages@.dom() + Set::new(
                |page: u64| first <= page < index + 1,
            ));
            index = index + 1;
        }
        proof {
            self.lemma_pages_view();
            before.lemma_pages_view();
            assert(self.pages() =~= before.pages().union_prefer_right(
                Map::new(|page: u64| first <= page < end, |page: u64| permissions),
            ));
            assert forall|a: int| #[trigger] self.holds(a) implies self.byte(a) == if before.holds(
                a,
            ) {
                before.byte(a)
            } else {
                0
            } by {}
        }
        Ok(())
    }

    /// Unmaps `[address, address + length)`; every page there must be mapped.
    #[verifier::loop_isolation(false)]
    pub fn unmap(&mut self, address: u64, length: u64) -> (outcome: Result<(), MemoryError>)
        requires
            old(self).wf(),
        ensures
            final(self).wf(),
            outcome == old(self).mapped_outcome(address, length),
            outcome is Ok ==> final(self).unmapped(
                *old(self),
                address as int / 4096,
                (address + length) / 4096,
            ),
            outcome is Err ==> *final(self) == *old(self),
    {
        proof {
            self.lemma_pages_view();
        }
        let (first, end) = match page_range(address, length) {
            Err(error) => return Err(error),
            Ok(range) => range,
        };
        let mut index = first;
        while index < end
            invariant
                first <= index <= end,
                end <= 0x10_0000_0000_0000,
                first_page_where(self.pages(), first as int, end as int, false)
                    == first_page_where(self.pages(), index as int, end as int, false),
                self.pages().dom() == self.pages@.dom(),
            decreases end - index,
        {
            if !self.pages.contains_key(&index) {
                return Err(MemoryError::Unmapped { address: index * PAGE_SIZE });
            }
            index = index + 1;
        }
        let ghost before = *self;
        let mut index = first;
        while index < end
            invariant
                first <= index <= end,
                self.page_limit == before.page_limit,
                before.wf(),
                self.occupied@ == self.pages@.dom(),
                self.pages@.dom().finite(),
                self.pages@.len() <= before.pages@.len(),
                self.pages@ == before.pages@.remove_keys(Set::new(|page: u64| first <= page < index)),
            decreases end - index,
        {
            self.pages.remove(&index);
            self.occupied.remove(&index);
            assert(self.pages@ =~= before.pages@.remove_keys(
                Set::new(|page: u64| first <= page < index + 1),
            ));
            index = index + 1;
        }
        proof {
            self.lemma_pages_view();
            before.lemma_pages_view();
            assert(self.pages() =~= before.pages().remove_keys(
                Set::new(|page: u64| first <= page < end),
            ));
        }
        Ok(())
    }

    /// Gives `[address, address + length)` new permissions; every page there
    /// must be mapped, and its bytes are kept.
    #[verifier::loop_isolation(false)]
    pub fn protect(&mut self, address: u64, length: u64, permissions: Permissions) -> (outcome:
        Result<(), MemoryError>)
        requires
            old(self).wf(),
        ensures
            final(self).wf(),
            outcome == old(self).mapped_outcome(address, length),
            outcome is Ok ==> final(self).remapped(
                *old(self),
                address as int / 4096,
                (address + length) / 4096,
                permissions,
            ),
            outcome is Err ==> *final(self) == *old(self),
    {
        proof {
            self.lemma_pages_view();
        }
        let (first, end) = match page_range(address, length) {
            Err(error) => return Err(error),
            Ok(range) => range,
        };
        let mut index = first;
        while index < end
            invariant
                first <= index <= end,
                end <= 0x10_0000_0000_0000,
                first_page_where(self.pages(), first as int, end as int, false)
                    == first_page_where(self.pages(), index as int, end as int, false),
                self.pages().dom() == self.pages@.dom(),
            decreases end - index,
        {
            if !self.pages.contains_key(&index) {
                return Err(MemoryError::Unmapped { address: index * PAGE_SIZE });
            }
            index = index + 1;
        }
        proof {
            lemma_first_page_where(self.pages(), first as int, end as int, false);
            assert forall|page: u64| first <= page < end implies self.pages@.contains_key(page) by {
                assert(self.pages().contains_key((page as int) as u64));
            }
        }
        let ghost before = *self;
        let mut index = first;
        while index < end
            invariant
                first <= index <= end,
                self.page_limit == before.page_limit,
                before.wf(),
                self.occupied@ == self.pages@.dom(),
                self.pages@.dom() == before.pages@.dom(),
                forall|page: u64| first <= page < end ==> #[trigger] before.pages@.contains_key(page),
                forall|page: u64| #[trigger]
                    before.pages@.contains_key(page) ==> self.pages@[page].bytes@
                        == before.pages@[page].bytes@ && self.pages@[page].permissions == if first
                        <= page < index {
                        permissions
                    } else {
                        before.pages@[page].permissions
                    },
            decreases end - index,
        {
            let mut page = self.pages.remove(&index).unwrap();
            page.permissions = permissions;
            self.pages.insert(index, page);
            assert(self.pages@.dom() =~= before.pages@.dom());
            index = index + 1;
        }
        proof {
            self.lemma_pages_view();
            before.lemma_pages_view();
            assert(self.pages() =~= before.pages().union_prefer_right(
                Map::new(|page: u64| first <= page < end, |page: u64| permissions),
            ));
        }
        Ok(())
    }

    /// The lowest page-aligned address in `[start, end)` that starts `length`
    /// bytes of unmapped pages, searching the page numbers of the window in order.
    pub fn first_free_span(&self, start: u64, end: u64, length: u64) -> (span: Result<
        Option<u64>,
        MemoryError,
    >)
        requires
            self.wf(),
        ensures
            end < start ==> span == Err::<Option<u64>, MemoryError>(MemoryError::AddressOverflow),
            start <= end && range_error(start, (end - start) as u64) is Some ==> span == Err::<
                Option<u64>,
                MemoryError,
            >(range_error(start, (end - start) as u64)->Some_0),
            start <= end && range_error(start, (end - start) as u64) is None && range_error(
                0,
                length,
            ) is Some ==> span == Err::<Option<u64>, MemoryError>(range_error(0, length)->Some_0),
            span matches Ok(Some(address)) ==> {
                &&& address % 4096 == 0
                &&& start <= address
                &&& address + length <= end
                &&& span_free(self.pages(), address as int / 4096, length as int / 4096)
                &&& forall|page: int|
                    start / 4096 <= page < address / 4096 ==> !#[trigger] span_free(
                        self.pages(),
                        page,
                        length as int / 4096,
                    )
            },
            span matches Ok(None) ==> forall|page: int|
                start / 4096 <= page && page + length / 4096 <= end / 4096 ==> !#[trigger] span_free(
                    self.pages(),
                    page,
                    length as int / 4096,
                ),
            span is Err ==> end < start || range_error(start, (end - start) as u64) is Some
                || range_error(0, length) is Some,
    {
        proof {
            self.lemma_pages_view();
        }
        let window = match end.checked_sub(start) {
            Some(window) => window,
            None => return Err(MemoryError::AddressOverflow),
        };
        let (first, last) = match page_range(start, window) {
            Err(error) => return Err(error),
            Ok(range) => range,
        };
        let count = match page_range(0, length) {
            Err(error) => return Err(error),
            Ok(range) => range.1,
        };
        let mut cursor = first;
        proof {
            lemma_increasing_pages(
                vstd::std_specs::btree::spec_btree_keys_iter(&self.occupied).remaining(),
            );
        }
        for index in it: self.occupied.iter()
            invariant
                self.wf(),
                self.pages().dom() == self.pages@.dom(),
                first <= cursor <= last,
                first == start / 4096,
                last == end / 4096,
                count == length / 4096,
                start <= end,
                range_error(start, (end - start) as u64) is None,
                range_error(0, length) is None,
                last <= 0x10_0000_0000_0000,
                forall|i: int, j: int|
                    0 <= i < j < it.seq().len() ==> *#[trigger] it.seq()[i] < *#[trigger] it.seq()[j],
                forall|page: u64| #[trigger]
                    self.pages@.contains_key(page) ==> exists|j: int|
                        0 <= j < it.seq().len() && *it.seq()[j] == page,
                forall|page: u64| #[trigger]
                    self.pages@.contains_key(page) && cursor <= page < last ==> exists|j: int|
                        it.index() <= j < it.seq().len() && *it.seq()[j] == page,
                forall|j: int|
                    it.index() <= j < it.seq().len() ==> *#[trigger] it.seq()[j] >= cursor
                        || *it.seq()[j] < first,
                forall|page: int|
                    first <= page < cursor && page + count <= last ==> !#[trigger] span_free(
                        self.pages(),
                        page,
                        count as int,
                    ),
        {
            let ghost k = it.index();
            let index = *index;
            assert(*it.seq()[k] == index);
            if first <= index && index < last {
                if index - cursor >= count {
                    assert forall|page: int|
                        cursor <= page < cursor + count implies !#[trigger] self.pages().contains_key(
                        page as u64,
                    ) by {
                        if self.pages().contains_key(page as u64) {
                            let j = choose|j: int|
                                k <= j < it.seq().len() && *it.seq()[j] == page as u64;
                            if j > k {
                                assert(*it.seq()[k] < *it.seq()[j]);
                            }
                        }
                    }
                    return Ok(Some(cursor * PAGE_SIZE));
                }
                assert forall|page: int| cursor <= page <= index && page + count <= last implies !#[trigger] span_free(self.pages(), page, count as int) by {
                    assert(self.pages().contains_key((index as int) as u64));
                }
                cursor = index + 1;
            }
            assert forall|j: int|
                k < j < it.seq().len() implies *#[trigger] it.seq()[j] >= cursor || *it.seq()[j]
                < first by {
                assert(*it.seq()[k] < *it.seq()[j]);
            }
            assert forall|page: u64| #[trigger]
                self.pages@.contains_key(page) && cursor <= page < last implies exists|j: int|
                k + 1 <= j < it.seq().len() && *it.seq()[j] == page by {
                let j = choose|j: int| k <= j < it.seq().len() && *it.seq()[j] == page;
                assert(j != k);
            }
        }
        if last - cursor >= count {
            assert forall|page: int|
                cursor <= page < cursor + count implies !#[trigger] self.pages().contains_key(
                page as u64,
            ) by {
                assert(!self.pages@.contains_key(page as u64));
            }
            Ok(Some(cursor * PAGE_SIZE))
        } else {
            Ok(None)
        }
    }

    fn copy_out(&self, address: u64, output: &mut [u8], access: Access) -> (outcome: Result<
        (),
        MemoryError,
    >)
        requires
            self.wf(),
        ensures
            final(output)@.len() == old(output)@.len(),
            outcome == self.access(address, old(output)@.len() as int, access),
            outcome is Ok ==> forall|i: int|
                0 <= i < old(output)@.len() ==> final(output)@[i] == #[trigger] self.byte(
                    address + i,
                ),
            outcome is Err ==> final(output)@ == old(output)@,
    {
        let length = output.len();
        let (index, offset, count) = chunk(address, length);
        if count == length && count != 0 {
            proof {
                reveal_with_fuel(first_fault, 2);
            }
            if address.checked_add(count as u64).is_none() {
                return Err(MemoryError::AddressOverflow);
            }
            match self.pages.get(&index) {
                None => return Err(MemoryError::Unmapped { address }),
                Some(page) => {
                    if !page.permissions.permits(access) {
                        return Err(MemoryError::PermissionDenied { address, access });
                    }
                },
            }
            self.copy_page_out(index, offset, count, output, 0);
            assert forall|i: int| 0 <= i < length implies output@[i] == #[trigger] self.byte(
                address + i,
            ) by {
                lemma_within_page(address as int, address + i);
            }
            return Ok(());
        }
        match self.check_access(address, length, access) {
            Err(error) => return Err(error),
            Ok(()) => {},
        }
        proof {
            lemma_no_fault_covers(self.pages(), address as int, address + length, access);
        }
        let mut done: usize = 0;
        while done < length
            invariant
                self.wf(),
                done <= length,
                length == old(output)@.len(),
                output@.len() == length,
                address + length <= u64::MAX,
                forall|a: int|
                    address <= a < address + length ==> #[trigger] page_allows(
                        self.pages(),
                        a,
                        access,
                    ),
                forall|i: int| 0 <= i < done ==> output@[i] == #[trigger] self.byte(address + i),
            decreases length - done,
        {
            let cursor = address + done as u64;
            let (index, offset, count) = chunk(cursor, length - done);
            assert(page_allows(self.pages(), cursor as int, access));
            self.copy_page_out(index, offset, count, output, done);
            assert forall|i: int| 0 <= i < done + count implies output@[i] == #[trigger] self.byte(
                address + i,
            ) by {
                if i >= done {
                    lemma_within_page(cursor as int, address + i);
                }
            }
            done = done + count;
        }
        Ok(())
    }
}

/// Where no fault is met walking `[cursor, end)`, every byte there lies in a
/// mapped page that allows the access.
pub proof fn lemma_no_fault_covers(
    pages: Map<u64, Permissions>,
    cursor: int,
    end: int,
    access: Access,
)
    requires
        first_fault(pages, cursor, end, access) is None,
    ensures
        forall|a: int| cursor <= a < end ==> #[trigger] page_allows(pages, a, access),
    decreases end - cursor,
{
    if cursor < end {
        let next = cursor + (4096 - cursor % 4096);
        let clamped = if next < end {
            next
        } else {
            end
        };
        lemma_no_fault_covers(pages, clamped, end, access);
        assert forall|a: int| cursor <= a < end implies #[trigger] page_allows(
            pages,
            a,
            access,
        ) by {
            if a < clamped {
                lemma_within_page(cursor, a);
            }
        }
    }
}

/// Addresses from `base` up to the end of its page share the page, and their
/// offsets in it grow with them.
proof fn lemma_within_page(base: int, a: int)
    requires
        base <= a < base + (4096 - base % 4096),
    ensures
        page_of(a) == page_of(base),
        a % 4096 == base % 4096 + (a - base),
{
    vstd::arithmetic::div_mod::lemma_fundamental_div_mod(base, 4096);
    vstd::arithmetic::div_mod::lemma_fundamental_div_mod_converse(
        a,
        4096,
        base / 4096,
        base % 4096 + (a - base),
    );
}

/// Two addresses in one page are as far apart as their offsets in it.
proof fn lemma_same_page(a: int, b: int)
    requires
        page_of(a) == page_of(b),
    ensures
        a - b == a % 4096 - b % 4096,
{
    vstd::arithmetic::div_mod::lemma_fundamental_div_mod(a, 4096);
    vstd::arithmetic::div_mod::lemma_fundamental_div_mod(b, 4096);
}

/// What `first_page_where` finds: the first page with the asked presence.
pub proof fn lemma_first_page_where(
    pages: Map<u64, Permissions>,
    page: int,
    end: int,
    present: bool,
)
    ensures
        match first_page_where(pages, page, end, present) {
            None => forall|p: int|
                page <= p < end ==> #[trigger] pages.contains_key(p as u64) != present,
            Some(found) => page <= found < end && pages.contains_key(found as u64) == present
                && forall|p: int|
                page <= p < found ==> #[trigger] pages.contains_key(p as u64) != present,
        },
    decreases end - page,
{
    if page < end {
        lemma_first_page_where(pages, page + 1, end, present);
    }
}

/// The page numbers that a set of pages yields in order only grow.
proof fn lemma_increasing_pages(order: Seq<&u64>)
    requires
        vstd::std_specs::btree::increasing_seq(order),
    ensures
        forall|i: int, j: int| 0 <= i < j < order.len() ==> *#[trigger] order[i] < *#[trigger] order[j],
{
    assert(vstd::laws_cmp::obeys_cmp::<&u64>());
    assert forall|i: int, j: int| 0 <= i < j < order.len() implies *#[trigger] order[i]
        < *#[trigger] order[j] by {
        assert(vstd::std_specs::cmp::OrdSpec::cmp_spec(&order[i], &order[j]) is Less);
    }
}

/// The page numbers `[first, end)` of a page-granular range.
fn page_range(address: u64, length: u64) -> (pages: Result<(u64, u64), MemoryError>)
    ensures
        match range_error(address, length) {
            Some(error) => pages == Err::<(u64, u64), MemoryError>(error),
            None => pages == Ok::<(u64, u64), MemoryError>(
                (address / 4096, ((address + length) / 4096) as u64),
            ),
        },
{
    if address % PAGE_SIZE != 0 || length == 0 || length % PAGE_SIZE != 0 {
        return Err(MemoryError::UnalignedRange);
    }
    let end = match address.checked_add(length) {
        Some(end) => end,
        None => return Err(MemoryError::AddressOverflow),
    };
    Ok((address / PAGE_SIZE, end / PAGE_SIZE))
}

/// The page, the offset in it, and how many of `remaining` bytes fit before
/// its end, for an access at `address`.
fn chunk(address: u64, remaining: usize) -> (parts: (u64, usize, usize))
    ensures
        parts.0 == address / 4096,
        parts.1 == address % 4096,
        parts.2 == if remaining < 4096 - address % 4096 {
            remaining as int
        } else {
            4096 - address % 4096
        },
{
    let offset = (address % PAGE_SIZE) as usize;
    let room = 4096 - offset;
    (address / PAGE_SIZE, offset, if remaining < room { remaining } else { room })
}

} // verus!

verus! {

/// Reading back a write: once `data` has been written at `address`, every
/// written byte reads back as written, and any access to the range meets
/// exactly the faults it met before the write.
pub proof fn law_read_back_write(old: GuestMemory, new: GuestMemory, address: u64, data: Seq<u8>)
    requires
        new.wrote(old, address as int, data),
        old.access(address, data.len() as int, Access::Write) is Ok,
    ensures
        forall|access: Access| #[trigger]
            new.access(address, data.len() as int, access) == old.access(
                address,
                data.len() as int,
                access,
            ),
        forall|i: int| 0 <= i < data.len() ==> #[trigger] new.byte(address + i) == data[i],
{
    let end = address + data.len();
    lemma_no_fault_covers(old.pages(), address as int, end, Access::Write);
    assert forall|i: int| 0 <= i < data.len() implies #[trigger] new.byte(address + i) == data[i] by {
        assert(page_allows(old.pages(), address + i, Access::Write));
        assert(new.holds(address + i));
    }
}

/// A write changes no byte outside the range it wrote.
pub proof fn law_write_is_local(
    old: GuestMemory,
    new: GuestMemory,
    address: int,
    data: Seq<u8>,
    other: int,
)
    requires
        new.wrote(old, address, data),
        new.holds(other),
        !(address <= other < address + data.len()),
    ensures
        new.byte(other) == old.byte(other),
        old.holds(other),
{
}

/// The pages `[first, end)`.
pub open spec fn page_set(first: int, end: int) -> Set<u64> {
    Set::new(|page: u64| first <= page < end)
}

/// `[first, end)` holds `end - first` pages.
pub proof fn lemma_page_set_size(first: int, end: int)
    requires
        0 <= first <= end <= u64::MAX + 1,
    ensures
        page_set(first, end).finite(),
        page_set(first, end).len() == end - first,
    decreases end - first,
{
    if first == end {
        assert(page_set(first, end) =~= Set::<u64>::empty());
    } else {
        lemma_page_set_size(first, end - 1);
        assert(page_set(first, end) =~= page_set(first, end - 1).insert((end - 1) as u64));
    }
}

/// Mapping gives fresh pages that read as zero and carry the asked
/// permissions, adds exactly their number to the mapped pages, and leaves
/// every page that was mapped, and its bytes, as they were.
pub proof fn law_mapping_is_fresh(
    old: GuestMemory,
    new: GuestMemory,
    address: u64,
    length: u64,
    permissions: Permissions,
)
    requires
        old.wf(),
        old.map_outcome(address, length) is Ok,
        new.remapped(old, address as int / 4096, (address + length) / 4096, permissions),
    ensures
        forall|a: int|
            address <= a < address + length ==> #[trigger] new.holds(a) && new.byte(a) == 0
                && new.pages()[page_of(a) as u64] == permissions,
        forall|a: int| #[trigger] old.holds(a) ==> new.holds(a) && new.byte(a) == old.byte(a),
        new.pages().len() == old.pages().len() + length / 4096,
{
    let first = address as int / 4096;
    let end = (address + length) / 4096;
    lemma_first_page_where(old.pages(), first, end, true);
    assert forall|a: int| address <= a < address + length implies #[trigger] new.holds(a)
        && new.byte(a) == 0 && new.pages()[page_of(a) as u64] == permissions by {
        let page = page_of(a);
        assert(first <= page < end);
        assert(!old.pages().contains_key(page as u64));
        assert(new.pages().contains_key(page as u64));
        assert(new.pages()[page as u64] == permissions);
        assert(new.holds(a));
        assert(!old.holds(a));
    }
    assert forall|a: int| #[trigger] old.holds(a) implies new.holds(a) && new.byte(a) == old.byte(
        a,
    ) by {
        let page = page_of(a);
        if first <= page < end {
            assert(!old.pages().contains_key(page as u64));
        }
    }
    old.lemma_pages_finite();
    lemma_page_set_size(first, end);
    assert(new.pages().dom() =~= old.pages().dom() + page_set(first, end));
    assert forall|page: u64| #[trigger] page_set(first, end).contains(page) implies !old.pages().dom().contains(
        page,
    ) by {
        assert(old.pages().contains_key((page as int) as u64) != true);
    }
    assert(old.pages().dom().disjoint(page_set(first, end)));
    vstd::set_lib::lemma_set_disjoint_lens(old.pages().dom(), page_set(first, end));
}

/// Unmapping gives back the capacity of every unmapped page and keeps the
/// bytes of the pages that stay.
pub proof fn law_unmapping_reclaims(old: GuestMemory, new: GuestMemory, address: u64, length: u64)
    requires
        old.wf(),
        old.mapped_outcome(address, length) is Ok,
        new.unmapped(old, address as int / 4096, (address + length) / 4096),
    ensures
        new.pages().len() == old.pages().len() - length / 4096,
        forall|a: int| #[trigger] new.holds(a) ==> old.holds(a) && new.byte(a) == old.byte(a),
        forall|a: int| address <= a < address + length ==> !#[trigger] new.holds(a),
{
    let first = address as int / 4096;
    let end = (address + length) / 4096;
    lemma_first_page_where(old.pages(), first, end, false);
    old.lemma_pages_finite();
    lemma_page_set_size(first, end);
    assert forall|page: u64| #[trigger] page_set(first, end).contains(page) implies old.pages().dom().contains(
        page,
    ) by {
        assert(old.pages().contains_key((page as int) as u64) != false);
    }
    assert(page_set(first, end).subset_of(old.pages().dom()));
    assert(new.pages().dom() =~= old.pages().dom() - page_set(first, end));
    vstd::set_lib::lemma_set_difference_len(old.pages().dom(), page_set(first, end));
    assert(old.pages().dom() * page_set(first, end) =~= page_set(first, end));
    assert forall|a: int| address <= a < address + length implies !#[trigger] new.holds(a) by {
        assert(first <= page_of(a) < end);
    }
}

/// Changing permissions keeps the mapped pages and every byte in them.
pub proof fn law_protection_keeps_bytes(
    old: GuestMemory,
    new: GuestMemory,
    address: u64,
    length: u64,
    permissions: Permissions,
)
    requires
        old.wf(),
        old.mapped_outcome(address, length) is Ok,
        new.remapped(old, address as int / 4096, (address + length) / 4096, permissions),
    ensures
        new.pages().dom() == old.pages().dom(),
        forall|a: int| #[trigger] new.holds(a) <==> old.holds(a),
        forall|a: int| #[trigger] old.holds(a) ==> new.byte(a) == old.byte(a),
        forall|a: int|
            address <= a < address + length ==> #[trigger] new.pages()[page_of(a) as u64]
                == permissions,
{
    let first = address as int / 4096;
    let end = (address + length) / 4096;
    lemma_first_page_where(old.pages(), first, end, false);
    assert forall|page: u64| #[trigger] new.pages().dom().contains(page) implies old.pages().dom().contains(
        page,
    ) by {
        if first <= page < end {
            assert(old.pages().contains_key((page as int) as u64) != false);
        }
    }
    assert(new.pages().dom() =~= old.pages().dom());
    assert forall|a: int| #[trigger] old.holds(a) implies new.byte(a) == old.byte(a) by {
        assert(new.holds(a));
    }
    assert forall|a: int|
        address <= a < address + length implies #[trigger] new.pages()[page_of(a) as u64]
        == permissions by {
        assert(first <= page_of(a) < end);
    }
}

} // verus!

verus! {

/// Two writes side by side are one write of both.
pub proof fn law_adjacent_writes(
    old: GuestMemory,
    middle: GuestMemory,
    new: GuestMemory,
    address: int,
    first: Seq<u8>,
    second: Seq<u8>,
)
    requires
        middle.wrote(old, address, first),
        new.wrote(middle, address + first.len(), second),
    ensures
        new.wrote(old, address, first + second),
{
    assert forall|a: int| #[trigger] new.holds(a) implies new.byte(a) == if address <= a < address
        + (first + second).len() {
        (first + second)[a - address]
    } else {
        old.byte(a)
    } by {
        assert(middle.holds(a));
    }
}

} // verus!

verus! {

/// Where every byte of `[cursor, end)` lies in a page that allows the
/// access, the page walk meets no fault.
pub proof fn lemma_allowed_covers(pages: Map<u64, Permissions>, cursor: int, end: int, access: Access)
    requires
        forall|a: int| cursor <= a < end ==> #[trigger] page_allows(pages, a, access),
    ensures
        first_fault(pages, cursor, end, access) is None,
    decreases end - cursor,
{
    if cursor < end {
        assert(page_allows(pages, cursor, access));
        let next = cursor + (4096 - cursor % 4096);
        let clamped = if next < end {
            next
        } else {
            end
        };
        lemma_allowed_covers(pages, clamped, end, access);
    }
}

/// An access allowed on a range is allowed on every part of it.
pub proof fn law_access_within(
    memory: GuestMemory,
    address: u64,
    length: int,
    inner: u64,
    inner_length: int,
    access: Access,
)
    requires
        memory.access(address, length, access) is Ok,
        address <= inner,
        0 <= inner_length,
        inner + inner_length <= address + length,
    ensures
        memory.access(inner, inner_length, access) is Ok,
{
    lemma_no_fault_covers(memory.pages(), address as int, address + length, access);
    assert forall|a: int| inner <= a < inner + inner_length implies #[trigger] page_allows(
        memory.pages(),
        a,
        access,
    ) by {
        assert(page_allows(memory.pages(), a, access));
    }
    lemma_allowed_covers(memory.pages(), inner as int, inner + inner_length, access);
}

} // verus!
