use ring3_core::windows::critical_sections::{
    representation, write_object, Call, CriticalSections, Ownership, MAX_OBJECTS, SIZE,
};
use ring3_core::windows::crt::multibyte::CodePage;
use ring3_core::windows::crt::onexit::Registry;
use ring3_core::windows::crt::random::Sequence;
use ring3_core::windows::guest;
use ring3_core::windows::DispatchError;
use ring3_core::{GuestMemory, MemoryError, PAGE_SIZE, Permissions};

const READ_WRITE: Permissions = Permissions { read: true, write: true, execute: false };

#[test]
fn object_cap_is_reclaimed_and_recursion_overflow_is_atomic() {
    let mut memory = GuestMemory::new(25);
    memory.map_zeroed(0x1000, PAGE_SIZE * 25, READ_WRITE).unwrap();
    let mut sections = CriticalSections::default();
    for index in 0..4096_u32 {
        assert!(sections.dispatch(Call::Initialize, 0x1000 + index * 24, 1, &mut memory).is_ok());
    }
    let extra = 0x1000 + 4096 * 24;
    assert!(matches!(
        sections.dispatch(Call::Initialize, extra, 1, &mut memory),
        Err(DispatchError::Unsupported)
    ));
    assert_eq!(sections.objects.len(), MAX_OBJECTS);
    let mut bytes = [1; SIZE];
    memory.read(u64::from(extra), &mut bytes).unwrap();
    assert_eq!(bytes, [0; SIZE]);
    assert!(sections.dispatch(Call::Delete, 0x1000, 1, &mut memory).is_ok());
    assert!(sections.dispatch(Call::Initialize, extra, 1, &mut memory).is_ok());
    let depth = Ownership { owner: 1, depth: i32::MAX as u32 };
    sections.objects.insert(u64::from(extra), depth);
    assert!(write_object(&mut memory, extra, representation(depth)).is_ok());
    for call in [Call::Enter, Call::TryEnter] {
        assert!(matches!(
            sections.dispatch(call, extra, 1, &mut memory),
            Err(DispatchError::Unsupported)
        ));
        assert_eq!(sections.objects[&u64::from(extra)], depth);
        let mut words = [0; 6];
        guest::read_words(&memory, extra, &mut words).unwrap();
        assert_eq!(words, representation(depth));
    }
}

#[test]
fn sections_enter_recursively_and_refuse_other_threads() {
    let mut memory = GuestMemory::new(1);
    memory.map_zeroed(0x1000, PAGE_SIZE, READ_WRITE).unwrap();
    let mut sections = CriticalSections::default();
    assert_eq!(sections.dispatch(Call::Initialize, 0x1000, 7, &mut memory), Ok(None));
    assert_eq!(
        sections.dispatch(Call::Initialize, 0x1010, 7, &mut memory),
        Err(DispatchError::Unsupported)
    );
    assert_eq!(sections.dispatch(Call::Enter, 0x1000, 7, &mut memory), Ok(None));
    assert_eq!(sections.dispatch(Call::TryEnter, 0x1000, 7, &mut memory), Ok(Some(1)));
    assert_eq!(sections.dispatch(Call::TryEnter, 0x1000, 8, &mut memory), Ok(Some(0)));
    assert_eq!(sections.dispatch(Call::Leave, 0x1000, 8, &mut memory), Err(DispatchError::Unsupported));
    let mut words = [0; 6];
    guest::read_words(&memory, 0x1000, &mut words).unwrap();
    assert_eq!(words, [0, 1, 2, 7, 0, 0]);
    assert_eq!(sections.dispatch(Call::Delete, 0x1000, 7, &mut memory), Err(DispatchError::Unsupported));
    assert_eq!(sections.dispatch(Call::Leave, 0x1000, 7, &mut memory), Ok(None));
    assert_eq!(sections.dispatch(Call::Leave, 0x1000, 7, &mut memory), Ok(None));
    guest::read_words(&memory, 0x1000, &mut words).unwrap();
    assert_eq!(words, [0, u32::MAX, 0, 0, 0, 0]);
    // a section whose guest fields were overwritten is refused
    memory.write(0x1008, &[5]).unwrap();
    assert_eq!(sections.dispatch(Call::Enter, 0x1000, 7, &mut memory), Err(DispatchError::Unsupported));
    memory.write(0x1008, &[0]).unwrap();
    assert_eq!(sections.dispatch(Call::Delete, 0x1000, 7, &mut memory), Ok(None));
    assert_eq!(sections.dispatch(Call::Enter, 0x1000, 7, &mut memory), Err(DispatchError::Unsupported));
    assert_eq!(Call::at(0x38), Some(Call::Enter));
    assert_eq!(Call::at(0x40), None);
}

#[test]
fn crt_registry_retains_order_duplicates_and_independent_ownership() {
    let mut first = Registry::default();
    let second = Registry::default();
    for function in [42, 17, 42] {
        assert_eq!(first.register(function), function);
    }
    assert_eq!(first.register(0), 0);
    assert_eq!(first.functions, [42, 17, 42]);
    assert!(second.functions.is_empty());
    for function in 1..=4093 {
        assert_eq!(first.register(function), function);
    }
    let before = first.functions.clone();
    assert_eq!(first.register(99), 0);
    assert_eq!(first.functions, before);
}

#[test]
fn crt_selection_is_owned_and_unsupported_values_leave_it_unchanged() {
    let mut first = CodePage::default();
    let second = CodePage::default();
    assert_eq!(first, CodePage::Ansi);
    for (selector, expected) in [
        (-2, CodePage::Oem),
        (437, CodePage::Oem),
        (0, CodePage::SingleByte),
        (-3, CodePage::Ansi),
        (1252, CodePage::Ansi),
    ] {
        assert!(first.set(selector).is_ok());
        assert_eq!(first, expected);
        assert_eq!(second, CodePage::Ansi);
        for invalid in [-4, -1, 1, 932, 65001, 20127, i32::MIN] {
            assert!(matches!(first.set(invalid), Err(DispatchError::Unsupported)));
            assert_eq!(first, expected);
        }
    }
}

#[test]
fn multibyte_walks_find_the_last_match_and_step_one_byte() {
    let mut memory = GuestMemory::new(1);
    memory.map_zeroed(0x1000, PAGE_SIZE, READ_WRITE).unwrap();
    memory.write(0x1000, b"a/b/c\0").unwrap();
    let page = CodePage::Ansi;
    assert_eq!(page.reverse_search(&memory, 0x1000, u32::from(b'/')), Ok(0x1003));
    assert_eq!(page.reverse_search(&memory, 0x1000, 0x100 + u32::from(b'a')), Ok(0x1000));
    assert_eq!(page.reverse_search(&memory, 0x1000, u32::from(b'z')), Ok(0));
    assert_eq!(page.reverse_search(&memory, 0x1000, 0), Ok(0x1005));
    assert_eq!(page.reverse_search(&memory, 0, 0), Err(DispatchError::Unsupported));
    assert_eq!(page.increment(&memory, 0x1004), Ok(0x1005));
    assert_eq!(
        page.increment(&memory, 0x2000),
        Err(DispatchError::Memory(MemoryError::Unmapped { address: 0x2000 }))
    );
}

#[test]
fn random_sequence_follows_the_runtime_generator() {
    let mut sequence = Sequence::default();
    assert_eq!(sequence.next(), 41);
    assert_eq!(sequence.next(), 18467);
    sequence.seed(1);
    assert_eq!(sequence.next(), 41);
}
