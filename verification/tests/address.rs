use ring3_core::{FileOffset, GuestAddress32, ProgramCounter32, RelativeVirtualAddress};

#[test]
fn guest_address_preserves_every_representative_value() {
    for value in [0, 0x0040_1000, u32::MAX] {
        assert_eq!(GuestAddress32::new(value).get(), value);
    }
}

#[test]
fn program_counter_preserves_every_representative_value() {
    for value in [0, 0x0040_1000, u32::MAX] {
        assert_eq!(ProgramCounter32::new(value).get(), value);
    }
}

#[test]
fn guest_address_addition_is_checked() {
    assert_eq!(
        GuestAddress32::new(0x0040_1000).checked_add(0),
        Some(GuestAddress32::new(0x0040_1000))
    );
    assert_eq!(
        GuestAddress32::new(0x0040_1000).checked_add(5),
        Some(GuestAddress32::new(0x0040_1005))
    );
    assert_eq!(
        GuestAddress32::new(u32::MAX - 1).checked_add(1),
        Some(GuestAddress32::new(u32::MAX))
    );
    assert_eq!(GuestAddress32::new(u32::MAX).checked_add(1), None);
}

#[test]
fn program_counter_addition_is_checked() {
    assert_eq!(
        ProgramCounter32::new(0x0040_1000).checked_add(0),
        Some(ProgramCounter32::new(0x0040_1000))
    );
    assert_eq!(
        ProgramCounter32::new(0x0040_1000).checked_add(5),
        Some(ProgramCounter32::new(0x0040_1005))
    );
    assert_eq!(
        ProgramCounter32::new(u32::MAX - 1).checked_add(1),
        Some(ProgramCounter32::new(u32::MAX))
    );
    assert_eq!(ProgramCounter32::new(u32::MAX).checked_add(1), None);
}

#[test]
fn guest_address_subtraction_is_checked() {
    assert_eq!(
        GuestAddress32::new(0x0040_1000).checked_sub(0),
        Some(GuestAddress32::new(0x0040_1000))
    );
    assert_eq!(
        GuestAddress32::new(0x0040_1005).checked_sub(5),
        Some(GuestAddress32::new(0x0040_1000))
    );
    assert_eq!(
        GuestAddress32::new(1).checked_sub(1),
        Some(GuestAddress32::new(0))
    );
    assert_eq!(GuestAddress32::new(0).checked_sub(1), None);
}

#[test]
fn program_counter_subtraction_is_checked() {
    assert_eq!(
        ProgramCounter32::new(0x0040_1000).checked_sub(0),
        Some(ProgramCounter32::new(0x0040_1000))
    );
    assert_eq!(
        ProgramCounter32::new(0x0040_1005).checked_sub(5),
        Some(ProgramCounter32::new(0x0040_1000))
    );
    assert_eq!(
        ProgramCounter32::new(1).checked_sub(1),
        Some(ProgramCounter32::new(0))
    );
    assert_eq!(ProgramCounter32::new(0).checked_sub(1), None);
}

#[test]
fn relative_virtual_address_preserves_every_representative_value() {
    for value in [0, 0x1000, u32::MAX] {
        assert_eq!(RelativeVirtualAddress::new(value).get(), value);
    }
}

#[test]
fn relative_virtual_address_addition_is_checked() {
    assert_eq!(
        RelativeVirtualAddress::new(0x1000).checked_add(0),
        Some(RelativeVirtualAddress::new(0x1000))
    );
    assert_eq!(
        RelativeVirtualAddress::new(0x1000).checked_add(5),
        Some(RelativeVirtualAddress::new(0x1005))
    );
    assert_eq!(
        RelativeVirtualAddress::new(u32::MAX - 1).checked_add(1),
        Some(RelativeVirtualAddress::new(u32::MAX))
    );
    assert_eq!(RelativeVirtualAddress::new(u32::MAX).checked_add(1), None);
}

#[test]
fn relative_virtual_address_subtraction_is_checked() {
    assert_eq!(
        RelativeVirtualAddress::new(0x1000).checked_sub(0),
        Some(RelativeVirtualAddress::new(0x1000))
    );
    assert_eq!(
        RelativeVirtualAddress::new(0x1005).checked_sub(5),
        Some(RelativeVirtualAddress::new(0x1000))
    );
    assert_eq!(
        RelativeVirtualAddress::new(1).checked_sub(1),
        Some(RelativeVirtualAddress::new(0))
    );
    assert_eq!(RelativeVirtualAddress::new(0).checked_sub(1), None);
}

#[test]
fn file_offset_preserves_every_representative_value() {
    for value in [0, 0x400, 0x1_0000_0000, u64::MAX] {
        assert_eq!(FileOffset::new(value).get(), value);
    }
}

#[test]
fn file_offset_addition_is_checked() {
    assert_eq!(
        FileOffset::new(0x1_0000_0000).checked_add(0),
        Some(FileOffset::new(0x1_0000_0000))
    );
    assert_eq!(
        FileOffset::new(0x1_0000_0000).checked_add(5),
        Some(FileOffset::new(0x1_0000_0005))
    );
    assert_eq!(
        FileOffset::new(u64::MAX - 1).checked_add(1),
        Some(FileOffset::new(u64::MAX))
    );
    assert_eq!(FileOffset::new(u64::MAX).checked_add(1), None);
}

#[test]
fn file_offset_subtraction_is_checked() {
    assert_eq!(
        FileOffset::new(0x1_0000_0000).checked_sub(0),
        Some(FileOffset::new(0x1_0000_0000))
    );
    assert_eq!(
        FileOffset::new(0x1_0000_0005).checked_sub(5),
        Some(FileOffset::new(0x1_0000_0000))
    );
    assert_eq!(FileOffset::new(1).checked_sub(1), Some(FileOffset::new(0)));
    assert_eq!(FileOffset::new(0).checked_sub(1), None);
}
