use ring3_core::windows::code_pages::Call;
use ring3_core::windows::conversions::{ansi_to_wide, dispatch, info, wide_to_ansi, Answer};
use ring3_core::windows::DispatchError;
use ring3_core::{GuestMemory, PAGE_SIZE, Permissions};

const READ_WRITE: Permissions = Permissions { read: true, write: true, execute: false };

fn memory_with(bytes: &[u8]) -> GuestMemory {
    let mut memory = GuestMemory::new(4);
    memory.map_zeroed(0x1000, PAGE_SIZE, READ_WRITE).unwrap();
    memory.write(0x1000, bytes).unwrap();
    memory
}

fn bytes_at(memory: &GuestMemory, address: u64, length: usize) -> Vec<u8> {
    let mut bytes = vec![0; length];
    memory.read(address, &mut bytes).unwrap();
    bytes
}

#[test]
fn ansi_text_widens_to_its_units() {
    let mut memory = memory_with(b"A\x80B\0");
    let arguments = [1252, 0, 0x1000, u32::MAX, 0x1800, 0];
    assert_eq!(ansi_to_wide(&arguments, &mut memory), Ok(Answer::Value(4)));
    let arguments = [0, 0, 0x1000, u32::MAX, 0x1800, 2];
    assert_eq!(ansi_to_wide(&arguments, &mut memory), Ok(Answer::LastError(122)));
    let arguments = [3, 0, 0x1000, u32::MAX, 0x1800, 10];
    assert_eq!(ansi_to_wide(&arguments, &mut memory), Ok(Answer::Value(4)));
    assert_eq!(bytes_at(&memory, 0x1800, 8), vec![0x41, 0, 0xac, 0x20, 0x42, 0, 0, 0]);
    let arguments = [1252, 0, 0x1000, 2, 0x1800, 0];
    assert_eq!(ansi_to_wide(&arguments, &mut memory), Ok(Answer::Value(2)));
}

#[test]
fn ansi_conversion_refuses_what_it_cannot_do() {
    let mut memory = memory_with(b"\x81\0");
    let arguments = [1252, 0, 0x1000, u32::MAX, 0, 0];
    assert_eq!(ansi_to_wide(&arguments, &mut memory), Err(DispatchError::Unsupported));
    assert_eq!(ansi_to_wide(&[437, 0, 0x1000, 1, 0, 0], &mut memory), Err(DispatchError::Unsupported));
    assert_eq!(ansi_to_wide(&[1252, 0, 0, 1, 0, 0], &mut memory), Ok(Answer::LastError(87)));
    assert_eq!(ansi_to_wide(&[1252, 0, 0x1000, 0, 0, 0], &mut memory), Ok(Answer::LastError(87)));
    assert_eq!(
        ansi_to_wide(&[1252, 0, 0x1000, 4, 0x1000, 4], &mut memory),
        Ok(Answer::LastError(87))
    );
    // a terminated read that runs off the mapping faults
    let mut memory = memory_with(&[b'A'; 4096]);
    assert!(matches!(
        ansi_to_wide(&[1252, 0, 0x1000, u32::MAX, 0, 0], &mut memory),
        Err(DispatchError::Memory(_))
    ));
}

#[test]
fn wide_text_narrows_with_the_default_character() {
    let units: [u16; 7] = [0x41, 0x20ac, 0x0100, 0xd83d, 0xde00, 0xdc00, 0];
    let mut bytes: Vec<u8> = units.iter().flat_map(|unit| unit.to_le_bytes()).collect();
    bytes.resize(0x20, 0);
    bytes.push(b'#');
    let mut memory = memory_with(&bytes);
    let arguments = [1252, 0, 0x1000, u32::MAX, 0x1800, 16, 0x1020, 0x1900];
    assert_eq!(wide_to_ansi(&arguments, &mut memory), Ok(Answer::Value(6)));
    assert_eq!(bytes_at(&memory, 0x1800, 6), vec![0x41, 0x80, b'#', b'#', b'#', 0]);
    assert_eq!(bytes_at(&memory, 0x1900, 4), vec![1, 0, 0, 0]);
    let arguments = [1252, 0, 0x1000, 2, 0x1800, 16, 0, 0x1900];
    assert_eq!(wide_to_ansi(&arguments, &mut memory), Ok(Answer::Value(2)));
    assert_eq!(bytes_at(&memory, 0x1900, 4), vec![0, 0, 0, 0]);
    let arguments = [1252, 0, 0x1000, 3, 0x1800, 2, 0, 0];
    assert_eq!(wide_to_ansi(&arguments, &mut memory), Ok(Answer::LastError(122)));
    let arguments = [1252, 0, 0x1000, 3, 0x1800, 0, 0, 0];
    assert_eq!(wide_to_ansi(&arguments, &mut memory), Ok(Answer::Value(3)));
}

#[test]
fn code_page_descriptions_are_stored() {
    let mut memory = memory_with(&[0xff; 32]);
    assert_eq!(info(1252, 0x1000, &mut memory), Ok(Answer::Value(1)));
    let mut expected = vec![0u8; 18];
    expected[0] = 1;
    expected[4] = b'?';
    assert_eq!(bytes_at(&memory, 0x1000, 18), expected);
    assert_eq!(bytes_at(&memory, 0x1012, 2), vec![0xff, 0xff]);
    assert_eq!(info(850, 0x1000, &mut memory), Err(DispatchError::Unsupported));
    assert_eq!(info(437, 0, &mut memory), Ok(Answer::LastError(87)));
}

#[test]
fn code_page_functions_answer_through_one_entry() {
    let mut memory = memory_with(b"Hi\0");
    assert_eq!(dispatch(Call::Ansi, &[], &mut memory), Ok(Answer::Value(1252)));
    assert_eq!(dispatch(Call::Oem, &[], &mut memory), Ok(Answer::Value(437)));
    assert_eq!(dispatch(Call::Info, &[437, 0x1800], &mut memory), Ok(Answer::Value(1)));
    assert_eq!(
        dispatch(Call::AnsiToWide, &[1252, 0, 0x1000, u32::MAX, 0, 0], &mut memory),
        Ok(Answer::Value(3))
    );
    assert_eq!(
        dispatch(Call::WideToAnsi, &[1252, 0, 0x1000, 1, 0, 0, 0, 0], &mut memory),
        Ok(Answer::Value(1))
    );
}
