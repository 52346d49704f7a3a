use ring3_core::windows::crt::onexit::{Registry, CAPACITY};
use ring3_core::windows::atomics::{interlocked, Call as Interlocked};
use ring3_core::windows::clock::{Call as ClockCall, Clock, ClockError};
use ring3_core::windows::code_pages::{cp1252, cp1252_unit, Call as CodePageCall};
use ring3_core::windows::crt::buffers;
use ring3_core::windows::crt::scanning::{parse_decimal, parse_hex, parse_unsigned, read_string};
use ring3_core::windows::crt::strings::{
    append, compare_ignoring_case, compare_prefix, copy, find, length, lowercase, prefix_length,
    terminated_bytes,
};
use ring3_core::windows::crt::type_names::{decode, identifier, read_name};
use ring3_core::windows::d3d8::color::Stage;
use ring3_core::windows::DispatchError;
use ring3_core::{Cpu32, GuestMemory, MemoryError, PAGE_SIZE, Permissions, Register32};
use std::time::Duration;

const READ_WRITE: Permissions = Permissions { read: true, write: true, execute: false };

fn memory_with(address: u32, bytes: &[u8]) -> GuestMemory {
    let mut memory = GuestMemory::new(4);
    memory.map_zeroed(0x1000, PAGE_SIZE * 2, READ_WRITE).unwrap();
    memory.write(u64::from(address), bytes).unwrap();
    memory
}

fn bytes_at(memory: &GuestMemory, address: u32, count: usize) -> Vec<u8> {
    let mut bytes = vec![0; count];
    memory.read(u64::from(address), &mut bytes).unwrap();
    bytes
}

#[test]
fn string_lengths_searches_and_comparisons() {
    let mut memory = memory_with(0x1000, b"Hello\0hello\0help\0");
    assert_eq!(length(&memory, 0x1000), Ok(5));
    assert_eq!(prefix_length(&memory, 0x1000, 3), Ok(3));
    assert_eq!(prefix_length(&memory, 0x1000, 9), Ok(5));
    assert_eq!(find(&memory, 0x1000, u32::from(b'l')), Ok(0x1002));
    assert_eq!(find(&memory, 0x1000, u32::from(b'z')), Ok(0));
    assert_eq!(find(&memory, 0x1000, 0), Ok(0x1005));
    assert_eq!(compare_ignoring_case(&memory, 0x1000, 0x1006), Ok(0));
    assert_eq!(compare_ignoring_case(&memory, 0x1006, 0x100c), Ok((i32::from(b'l') - i32::from(b'p')) as u32));
    assert_eq!(compare_ignoring_case(&memory, 0, 0x100c), Err(DispatchError::Unsupported));
    assert_eq!(compare_prefix(&memory, 0x1006, 0x100c, 3), Ok(0));
    assert_eq!(compare_prefix(&memory, 0x1000, 0x1006, 1), Ok((i32::from(b'H') - i32::from(b'h')) as u32));
    assert_eq!(compare_prefix(&memory, 0x1000, 0x1006, 65537), Err(DispatchError::Unsupported));
    assert_eq!(terminated_bytes(&memory, 0x100c), Ok(b"help\0".to_vec()));
    assert_eq!(lowercase(u32::from(b'Q')), Ok(u32::from(b'q')));
    assert_eq!(lowercase(u32::MAX), Ok(u32::MAX));
    assert_eq!(lowercase(0x100), Err(DispatchError::Unsupported));
    // a string running off the mapped pages faults at the first unmapped byte
    memory.fill(0x1000, PAGE_SIZE as usize * 2, b'x').unwrap();
    assert_eq!(
        length(&memory, 0x1000),
        Err(DispatchError::Memory(MemoryError::Unmapped { address: 0x3000 }))
    );
}

#[test]
fn bounded_copies_pad_and_appends_terminate() {
    let mut memory = memory_with(0x1000, b"ab\0");
    assert_eq!(copy(&mut memory, 0x1100, 0x1000, 5), Ok(0x1100));
    assert_eq!(bytes_at(&memory, 0x1100, 5), b"ab\0\0\0");
    assert_eq!(copy(&mut memory, 0x1001, 0x1000, 5), Err(DispatchError::Unsupported));
    memory.write(0x1200, b"xy\0").unwrap();
    assert_eq!(append(&mut memory, 0x1200, 0x1000, 10), Ok(0x1200));
    assert_eq!(bytes_at(&memory, 0x1200, 5), b"xyab\0");
    assert_eq!(append(&mut memory, 0x1200, 0x1000, 1), Ok(0x1200));
    assert_eq!(bytes_at(&memory, 0x1200, 6), b"xyaba\0");
}

#[test]
fn memory_blocks_fill_copy_move_compare_and_find() {
    let mut memory = memory_with(0x1000, b"abcdef");
    assert_eq!(buffers::fill(&mut memory, 0x1100, 0x141, 3), Ok(0x1100));
    assert_eq!(bytes_at(&memory, 0x1100, 4), b"AAA\0");
    assert_eq!(buffers::copy(&mut memory, 0x1200, 0x1000, 6), Ok(0x1200));
    assert_eq!(bytes_at(&memory, 0x1200, 6), b"abcdef");
    assert_eq!(buffers::copy(&mut memory, 0x1002, 0x1000, 4), Err(DispatchError::Unsupported));
    assert_eq!(buffers::move_bytes(&mut memory, 0x1002, 0x1000, 4), Ok(0x1002));
    assert_eq!(bytes_at(&memory, 0x1000, 6), b"ababcd");
    assert_eq!(buffers::compare(&memory, 0x1000, 0x1200, 2), Ok(0));
    assert_eq!(buffers::compare(&memory, 0x1000, 0x1200, 3), Ok((i32::from(b'a') - i32::from(b'c')) as u32));
    assert_eq!(buffers::find(&memory, 0x1200, u32::from(b'd'), 6), Ok(0x1203));
    assert_eq!(buffers::find(&memory, 0x1200, u32::from(b'z'), 6), Ok(0));
    assert_eq!(buffers::find(&memory, 0x1200, 0, 0), Ok(0));
    assert_eq!(
        buffers::fill(&mut memory, 0x2ffe, 0, 4),
        Err(DispatchError::Memory(MemoryError::Unmapped { address: 0x3000 }))
    );
}

#[test]
fn scanf_integer_conversions() {
    assert_eq!(parse_decimal(b"-123", 0), Ok(Some((-123_i32).to_le_bytes())));
    assert_eq!(parse_decimal(b"+42x", 0), Ok(Some(42_i32.to_le_bytes())));
    assert_eq!(parse_decimal(b"-2147483648", 0), Ok(Some(i32::MIN.to_le_bytes())));
    assert_eq!(parse_decimal(b"2147483648", 0), Err(DispatchError::Unsupported));
    assert_eq!(parse_decimal(b"-x", 0), Ok(None));
    assert_eq!(parse_unsigned(b"4294967295", 0), Ok(Some(u32::MAX.to_le_bytes())));
    assert_eq!(parse_unsigned(b"-1", 0), Ok(Some(u32::MAX.to_le_bytes())));
    assert_eq!(parse_unsigned(b"4294967296", 0), Err(DispatchError::Unsupported));
    assert_eq!(parse_hex(b"0x1fG", 0), Ok(Some(31_u32.to_le_bytes())));
    assert_eq!(parse_hex(b"FF", 0), Ok(Some(255_u32.to_le_bytes())));
    assert_eq!(parse_hex(b"0x", 0), Err(DispatchError::Unsupported));
    assert_eq!(parse_hex(b"g", 0), Ok(None));
    let memory = memory_with(0x1000, b"%d\0");
    assert_eq!(read_string(&memory, 0x1000), Ok(b"%d".to_vec()));
}

#[test]
fn decorated_type_names_read_innermost_last() {
    assert_eq!(decode(b".?AVName@Space@@"), Some(b"class Space::Name\0".to_vec()));
    assert_eq!(decode(b".?AUPoint@@"), Some(b"struct Point\0".to_vec()));
    assert_eq!(decode(b".?AW4Color@ui@app@@"), Some(b"enum app::ui::Color\0".to_vec()));
    assert_eq!(decode(b".?ATData@@"), Some(b"union Data\0".to_vec()));
    assert_eq!(decode(b".?AV@@"), None);
    assert_eq!(decode(b".?AV1x@@"), None);
    assert_eq!(decode(b".?AXName@@"), None);
    assert_eq!(decode(b".?AVName@"), None);
    assert!(identifier(b"_a1"));
    assert!(!identifier(b"1a"));
    assert!(!identifier(b""));
    let memory = memory_with(0x1000, b".?AVA@@\0");
    assert_eq!(read_name(&memory, 0x1000), Ok(b".?AVA@@".to_vec()));
}

#[test]
fn windows_1252_round_trips() {
    assert_eq!(cp1252_unit(0x80), Some(0x20ac));
    assert_eq!(cp1252_unit(0x81), None);
    assert_eq!(cp1252_unit(b'A'), Some(u16::from(b'A')));
    assert_eq!(cp1252('€'), Some(0x80));
    assert_eq!(cp1252('\u{0081}'), None);
    assert_eq!(cp1252('é'), Some(0xe9));
    for byte in 0..=255_u8 {
        if let Some(unit) = cp1252_unit(byte) {
            assert_eq!(cp1252(char::from_u32(u32::from(unit)).unwrap()), Some(byte));
        }
    }
    assert_eq!(CodePageCall::at(0x338), Some(CodePageCall::WideToAnsi));
    assert_eq!(CodePageCall::WideToAnsi.arguments(), 8);
}

#[test]
fn interlocked_calls_update_an_aligned_dword() {
    let mut memory = memory_with(0x1000, &5_u32.to_le_bytes());
    let mut cpu = Cpu32::new(0);
    interlocked(Interlocked::Increment, &[0x1000], &mut cpu, &mut memory).unwrap();
    assert_eq!(cpu.register(Register32::Eax), 6);
    interlocked(Interlocked::Exchange, &[0x1000, 9], &mut cpu, &mut memory).unwrap();
    assert_eq!(cpu.register(Register32::Eax), 6);
    assert_eq!(bytes_at(&memory, 0x1000, 4), 9_u32.to_le_bytes());
    assert_eq!(
        interlocked(Interlocked::Decrement, &[0x1002], &mut cpu, &mut memory),
        Err(DispatchError::Unsupported)
    );
    assert_eq!(Interlocked::Exchange.arguments(), 2);
}

#[test]
fn the_clock_only_moves_forward_and_reports_in_both_units() {
    let mut clock = Clock::default();
    assert_eq!(clock.set_elapsed_time(Duration::from_millis(1500)), Ok(()));
    assert_eq!(clock.set_elapsed_time(Duration::from_millis(1500)), Ok(()));
    assert_eq!(clock.set_elapsed_time(Duration::from_millis(1)), Err(ClockError::WentBackwards));
    assert_eq!(clock.set_elapsed_time(Duration::from_secs(u64::MAX)), Err(ClockError::OutOfRange));
    assert_eq!(clock.elapsed_milliseconds(), 1500);
    let mut memory = memory_with(0x1000, &[]);
    let mut cpu = Cpu32::new(0);
    clock.query(ClockCall::Counter, 0x1000, &mut cpu, &mut memory).unwrap();
    assert_eq!(bytes_at(&memory, 0x1000, 8), 1_500_000_000_i64.to_le_bytes());
    assert_eq!(cpu.register(Register32::Eax), 1);
    clock.query(ClockCall::Frequency, 0x1008, &mut cpu, &mut memory).unwrap();
    assert_eq!(bytes_at(&memory, 0x1008, 8), 1_000_000_000_i64.to_le_bytes());
    clock.query(ClockCall::Milliseconds, 0, &mut cpu, &mut memory).unwrap();
    assert_eq!(cpu.register(Register32::Eax), 1500);
    assert_eq!(ClockCall::at(0x224), Some(ClockCall::Counter));
    assert_eq!(ClockCall::Milliseconds.arguments(), 0);
}

#[test]
fn texture_stages_default_validate_and_report_texture_use() {
    let mut stages = Stage::defaults();
    assert_eq!(stages[0].get(1), Some(4));
    assert_eq!(stages[3].get(11), Some(3));
    assert!(stages[0].uses_texture());
    assert!(stages[1].uses_texture());
    assert!(!stages[1].set(1, 1, 6));
    assert!(!stages[2].set(2, 1, 2));
    assert!(stages[1].set(1, 1, 3));
    assert!(!stages[1].uses_texture());
    assert!(stages[1].set(1, 3, 2));
    assert!(stages[1].uses_texture());
    assert_eq!(stages[1].get(7), None);
}

#[test]
fn exit_functions_are_kept_in_registration_order() {
    let mut registry = Registry::default();
    assert_eq!(registry.register(0), 0);
    assert_eq!(registry.register(0x40_1000), 0x40_1000);
    assert_eq!(registry.register(0x40_2000), 0x40_2000);
    assert_eq!(registry.register(0x40_1000), 0x40_1000);
    assert_eq!(registry.functions, vec![0x40_1000, 0x40_2000, 0x40_1000]);
    assert_eq!(registry.register_reserved(0x40_3000, false), 0);
    assert_eq!(registry.functions.len(), 3);
    assert_eq!(registry.register_reserved(0x40_3000, true), 0x40_3000);
    assert_eq!(registry.functions.len(), 4);
    while registry.functions.len() < CAPACITY {
        registry.functions.push(1);
    }
    assert_eq!(registry.register(0x40_4000), 0);
    assert_eq!(registry.register_reserved(0x40_4000, true), 0);
    assert_eq!(registry.functions.len(), CAPACITY);
}

#[test]
fn the_clock_takes_the_whole_nanoseconds_of_a_duration() {
    let mut clock = Clock::default();
    assert_eq!(clock.set_elapsed_time(Duration::new(2, 345)), Ok(()));
    assert_eq!(clock.elapsed_nanoseconds, 2_000_000_345);
    assert_eq!(clock.set_elapsed_time(Duration::new(2, 344)), Err(ClockError::WentBackwards));
    assert_eq!(clock.elapsed_nanoseconds, 2_000_000_345);
    assert_eq!(clock.set_elapsed_nanoseconds(i64::MAX as u128 + 1), Err(ClockError::OutOfRange));
    assert_eq!(clock.set_elapsed_nanoseconds(i64::MAX as u128), Ok(()));
    assert_eq!(clock.elapsed_nanoseconds, i64::MAX);
}

#[test]
fn code_page_bytes_and_characters_round_trip() {
    let unassigned = [0x81u8, 0x8d, 0x8f, 0x90, 0x9d];
    for byte in 0..=255u8 {
        match cp1252_unit(byte) {
            Some(unit) => {
                let character = char::from_u32(u32::from(unit)).unwrap();
                assert_eq!(cp1252(character), Some(byte));
            }
            None => assert!(unassigned.contains(&byte)),
        }
    }
    assert_eq!(cp1252('\u{20ac}'), Some(0x80));
    assert_eq!(cp1252('\u{0100}'), None);
}
