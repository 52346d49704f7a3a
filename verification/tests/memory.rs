use ring3_core::{Access, GuestMemory, MemoryError, PAGE_SIZE, Permissions};

const NONE: Permissions = Permissions { read: false, write: false, execute: false };
const READ: Permissions = Permissions { read: true, write: false, execute: false };
const READ_WRITE: Permissions = Permissions { read: true, write: true, execute: false };
const READ_EXECUTE: Permissions = Permissions { read: true, write: false, execute: true };

#[test]
fn sparse_free_spans_respect_holes_window_edges_and_alignment() {
    let mut memory = GuestMemory::new(8);
    memory.map_zeroed(0x2000, PAGE_SIZE, NONE).unwrap();
    memory.map_zeroed(0x5000, PAGE_SIZE, NONE).unwrap();
    assert_eq!(memory.first_free_span(0x1000, 0x7000, PAGE_SIZE), Ok(Some(0x1000)));
    assert_eq!(memory.first_free_span(0x1000, 0x7000, PAGE_SIZE * 2), Ok(Some(0x3000)));
    assert_eq!(memory.first_free_span(0x5000, 0x7000, PAGE_SIZE), Ok(Some(0x6000)));
    assert_eq!(memory.first_free_span(0x1000, 0x7000, PAGE_SIZE * 3), Ok(None));
    assert_eq!(memory.first_free_span(0x1000, 0x2000, PAGE_SIZE * 2), Ok(None));
    for (start, end, length) in [
        (1, 0x2000, PAGE_SIZE),
        (0, 0x2001, PAGE_SIZE),
        (0, 0x2000, 0),
        (0, 0x2000, 1),
    ] {
        assert_eq!(memory.first_free_span(start, end, length), Err(MemoryError::UnalignedRange));
    }
    assert_eq!(memory.first_free_span(0x2000, 0x1000, PAGE_SIZE), Err(MemoryError::AddressOverflow));
}

#[test]
fn unmap_preflights_the_whole_range_and_reclaims_page_capacity() {
    let mut memory = GuestMemory::new(2);
    memory.map_zeroed(0x1000, PAGE_SIZE, READ_WRITE).unwrap();
    memory.write(0x1000, &[42]).unwrap();
    assert_eq!(memory.unmap(0x1000, PAGE_SIZE * 2), Err(MemoryError::Unmapped { address: 0x2000 }));
    let mut byte = [0];
    memory.read(0x1000, &mut byte).unwrap();
    assert_eq!(byte, [42]);
    assert_eq!(memory.mapped_pages(), 1);
    assert_eq!(memory.unmap(u64::MAX - 4095, PAGE_SIZE), Err(MemoryError::AddressOverflow));
    assert_eq!(memory.unmap(0x1001, PAGE_SIZE), Err(MemoryError::UnalignedRange));
    memory.map_zeroed(0x2000, PAGE_SIZE, NONE).unwrap();
    memory.unmap(0x1000, PAGE_SIZE * 2).unwrap();
    assert_eq!(memory.mapped_pages(), 0);
    memory.map_zeroed(0x1000, PAGE_SIZE * 2, READ).unwrap();
    memory.read(0x1000, &mut byte).unwrap();
    assert_eq!(byte, [0]);
}

#[test]
fn writes_spanning_pages_read_back_and_fetch_needs_execute() {
    let mut memory = GuestMemory::new(4);
    memory.map_zeroed(0x1000, PAGE_SIZE * 2, READ_WRITE).unwrap();
    memory.write(0x1ffe, &[1, 2, 3, 4]).unwrap();
    let mut bytes = [0; 4];
    memory.read(0x1ffe, &mut bytes).unwrap();
    assert_eq!(bytes, [1, 2, 3, 4]);
    assert_eq!(
        memory.fetch(0x1ffe, &mut bytes),
        Err(MemoryError::PermissionDenied { address: 0x1ffe, access: Access::Execute })
    );
    memory.protect(0x2000, PAGE_SIZE, READ_EXECUTE).unwrap();
    assert_eq!(
        memory.write(0x1fff, &[9, 9]),
        Err(MemoryError::PermissionDenied { address: 0x2000, access: Access::Write })
    );
    memory.read(0x1ffe, &mut bytes).unwrap();
    assert_eq!(bytes, [1, 2, 3, 4]);
    assert_eq!(memory.read(0x2ffe, &mut bytes), Err(MemoryError::Unmapped { address: 0x3000 }));
    assert_eq!(memory.read(u64::MAX - 1, &mut bytes), Err(MemoryError::AddressOverflow));
}

#[test]
fn mapping_refuses_overlaps_and_the_page_cap() {
    let mut memory = GuestMemory::new(3);
    memory.map_zeroed(0x3000, PAGE_SIZE, READ).unwrap();
    assert_eq!(
        memory.map_zeroed(0x1000, PAGE_SIZE * 3, READ),
        Err(MemoryError::PageLimitExceeded)
    );
    assert_eq!(
        memory.map_zeroed(0x2000, PAGE_SIZE * 2, READ),
        Err(MemoryError::AlreadyMapped { address: 0x3000 })
    );
    assert_eq!(memory.mapped_pages(), 1);
    memory.fill(0x3000, 8, 7).unwrap_err();
    memory.protect(0x3000, PAGE_SIZE, READ_WRITE).unwrap();
    memory.fill(0x3002, 3, 7).unwrap();
    let mut bytes = [1; 6];
    memory.read(0x3000, &mut bytes).unwrap();
    assert_eq!(bytes, [0, 0, 7, 7, 7, 0]);
    assert_eq!(memory.check_access(0x3000, 4097, Access::Read), Err(MemoryError::Unmapped { address: 0x4000 }));
}
