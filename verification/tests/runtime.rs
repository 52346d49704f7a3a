use ring3_core::windows::imports::resolve_name;
use ring3_core::windows::com::{Call as ComCall, Com};
use ring3_core::windows::crt::arguments::get_main;
use ring3_core::windows::crt::calls::{resolve, Call as CrtCall, InlineMath, StreamCall};
use ring3_core::windows::crt::exceptions::enter_exception_frame;
use ring3_core::windows::crt::formatting::write as format_write;
use ring3_core::windows::crt::initializers::{initialize, BASE, SORT_ENTRY};
use ring3_core::windows::crt::jump::{capture, COOKIE};
use ring3_core::windows::crt::multibyte::CodePage;
use ring3_core::windows::crt::rtti::dynamic_cast;
use ring3_core::windows::crt::sorting::start;
use ring3_core::windows::kernel32::kernel32;
use ring3_core::windows::DispatchError;
use ring3_core::{Access, Cpu32, GuestMemory, MemoryError, PAGE_SIZE, Permissions, Register32};

const READ_WRITE: Permissions = Permissions { read: true, write: true, execute: false };
const READ_EXECUTE: Permissions = Permissions { read: true, write: false, execute: true };

fn memory() -> GuestMemory {
    let mut memory = GuestMemory::new(8);
    memory.map_zeroed(0x1000, PAGE_SIZE * 2, READ_WRITE).unwrap();
    memory
}

fn put_words(memory: &mut GuestMemory, address: u32, words: &[u32]) {
    let bytes: Vec<u8> = words.iter().flat_map(|word| word.to_le_bytes()).collect();
    memory.write(u64::from(address), &bytes).unwrap();
}

fn words(memory: &GuestMemory, address: u32, count: usize) -> Vec<u32> {
    let mut bytes = vec![0; count * 4];
    memory.read(u64::from(address), &mut bytes).unwrap();
    bytes.chunks(4).map(|chunk| u32::from_le_bytes([chunk[0], chunk[1], chunk[2], chunk[3]])).collect()
}

fn text(memory: &GuestMemory, address: u32, count: usize) -> Vec<u8> {
    let mut bytes = vec![0; count];
    memory.read(u64::from(address), &mut bytes).unwrap();
    bytes
}

/// An object whose complete class `Derived` lists itself at offset 0 and
/// its base `Base` at offset 8.
fn polymorphic_object() -> GuestMemory {
    let mut memory = memory();
    put_words(&mut memory, 0x1000, &[0x1100]);
    put_words(&mut memory, 0x10fc, &[0x1200]);
    put_words(&mut memory, 0x1200, &[0, 0, 0, 0, 0x1300]);
    put_words(&mut memory, 0x1300, &[0, 0, 2, 0x1400]);
    put_words(&mut memory, 0x1400, &[0x1500, 0x1600]);
    put_words(&mut memory, 0x1500, &[0x1700, 0, 0, u32::MAX, 0, 0x40]);
    put_words(&mut memory, 0x1600, &[0x1800, 0, 8, u32::MAX, 0, 0]);
    memory.write(0x1708, b".?AVDerived@@\0").unwrap();
    memory.write(0x1808, b".?AVBase@@\0").unwrap();
    memory.write(0x1908, b".?AVOther@@\0").unwrap();
    memory.write(0x1a08, b"\0").unwrap();
    memory
}

#[test]
fn dynamic_cast_finds_the_base_sub_object() {
    let memory = polymorphic_object();
    assert_eq!(dynamic_cast(&memory, &[0x1000, 0, 0x1700, 0x1800, 0]), Ok(0x1008));
    assert_eq!(dynamic_cast(&memory, &[0x1000, 0, 0x1700, 0x1700, 1]), Ok(0x1000));
}

#[test]
fn dynamic_cast_answers_null_or_refuses() {
    let memory = polymorphic_object();
    assert_eq!(dynamic_cast(&memory, &[0, 0, 0x1700, 0x1800, 1]), Ok(0));
    assert_eq!(dynamic_cast(&memory, &[0x1000, 0, 0x1700, 0x1900, 0]), Ok(0));
    assert_eq!(dynamic_cast(&memory, &[0x1000, 0, 0x1700, 0x1900, 1]), Err(DispatchError::Unsupported));
    assert_eq!(dynamic_cast(&memory, &[0x1000, 4, 0x1700, 0x1800, 0]), Err(DispatchError::Unsupported));
    assert_eq!(dynamic_cast(&memory, &[0x1000, 0, 0x1700, 0x1800, 2]), Err(DispatchError::Unsupported));
    // the source type must name the object itself exactly once
    assert_eq!(dynamic_cast(&memory, &[0x1000, 0, 0x1800, 0x1700, 0]), Err(DispatchError::Unsupported));
    // an empty type name is refused
    assert_eq!(dynamic_cast(&memory, &[0x1000, 0, 0x1a00, 0x1800, 0]), Err(DispatchError::Unsupported));
    // a vtable in unmapped memory faults
    let mut broken = polymorphic_object();
    put_words(&mut broken, 0x1000, &[0x9104]);
    assert_eq!(
        dynamic_cast(&broken, &[0x1000, 0, 0x1700, 0x1800, 0]),
        Err(DispatchError::Memory(MemoryError::Unmapped { address: 0x9100 }))
    );
}

#[test]
fn setjmp_saves_registers_frame_and_optional_arguments() {
    let mut memory = memory();
    let mut cpu = Cpu32::new(0x401000);
    cpu.set_register(Register32::Esp, 0x2000);
    cpu.set_register(Register32::Ebp, 0x11);
    cpu.set_register(Register32::Ebx, 0x22);
    cpu.set_register(Register32::Edi, 0x33);
    cpu.set_register(Register32::Esi, 0x44);
    cpu.set_fs_base(0x1800);
    put_words(&mut memory, 0x1800, &[0x1900]);
    put_words(&mut memory, 0x2000, &[0x0040_1234, 0x1100, 3, 0x4444, 7, 0x99]);
    assert_eq!(capture(&cpu, &mut memory, &[0x1100, 3]), Ok(0));
    assert_eq!(
        words(&memory, 0x1100, 12),
        vec![0x11, 0x22, 0x33, 0x44, 0x2000, 0x0040_1234, 0x1900, 7, COOKIE, 0x4444, 0x99, 0]
    );
}

#[test]
fn setjmp_reads_the_try_level_or_skips_an_empty_chain() {
    let mut memory = memory();
    let mut cpu = Cpu32::new(0x401000);
    cpu.set_register(Register32::Esp, 0x2000);
    cpu.set_fs_base(0x1800);
    put_words(&mut memory, 0x1800, &[0x1900]);
    put_words(&mut memory, 0x190c, &[5]);
    put_words(&mut memory, 0x2000, &[0x0040_1234, 0x1100, 0]);
    assert_eq!(capture(&cpu, &mut memory, &[0x1100, 0]), Ok(0));
    assert_eq!(words(&memory, 0x1100, 10)[7], 5);
    assert_eq!(words(&memory, 0x1100, 10)[9], 0);
    put_words(&mut memory, 0x1800, &[u32::MAX]);
    assert_eq!(capture(&cpu, &mut memory, &[0x1200, 0]), Ok(0));
    assert_eq!(
        words(&memory, 0x1200, 10),
        vec![0, 0, 0, 0, 0x2000, 0x0040_1234, u32::MAX, u32::MAX, COOKIE, 0]
    );
    assert_eq!(capture(&cpu, &mut memory, &[0x1200, 9]), Err(DispatchError::Unsupported));
    assert_eq!(capture(&cpu, &mut memory, &[0, 0]), Err(DispatchError::Unsupported));
    // a buffer over the caller's frame is refused
    assert_eq!(capture(&cpu, &mut memory, &[0x1ff8, 0]), Err(DispatchError::Unsupported));
}

#[test]
fn split_path_copies_each_requested_part() {
    let mut memory = memory();
    memory.write(0x1000, b"C:\\dir\\sub\\file.txt\0").unwrap();
    assert_eq!(CodePage::Ansi.split_path(&mut memory, &[0x1000, 0x1200, 0x1300, 0x1400, 0x1500]), Ok(()));
    assert_eq!(text(&memory, 0x1200, 3), b"C:\0".to_vec());
    assert_eq!(text(&memory, 0x1300, 10), b"\\dir\\sub\\\0".to_vec());
    assert_eq!(text(&memory, 0x1400, 5), b"file\0".to_vec());
    assert_eq!(text(&memory, 0x1500, 5), b".txt\0".to_vec());
    memory.write(0x1100, b"name\0").unwrap();
    assert_eq!(CodePage::Oem.split_path(&mut memory, &[0x1100, 0x1600, 0, 0x1700, 0x1800]), Ok(()));
    assert_eq!(text(&memory, 0x1600, 1), b"\0".to_vec());
    assert_eq!(text(&memory, 0x1700, 5), b"name\0".to_vec());
    assert_eq!(text(&memory, 0x1800, 1), b"\0".to_vec());
}

#[test]
fn split_path_refuses_overlapping_buffers_before_writing() {
    let mut memory = memory();
    memory.write(0x1000, b"dir/file.c\0").unwrap();
    memory.write(0x1300, b"untouched").unwrap();
    assert_eq!(
        CodePage::Ansi.split_path(&mut memory, &[0x1000, 0, 0x1300, 0x1302, 0]),
        Err(DispatchError::Unsupported)
    );
    assert_eq!(text(&memory, 0x1300, 9), b"untouched".to_vec());
    assert_eq!(CodePage::Ansi.split_path(&mut memory, &[0x1000, 0, 0x1004, 0, 0]), Err(DispatchError::Unsupported));
    assert_eq!(CodePage::Ansi.split_path(&mut memory, &[0, 0x1300, 0, 0, 0]), Err(DispatchError::Unsupported));
}

#[test]
fn qsort_checks_its_workspace_before_starting() {
    let mut memory = memory();
    memory.map_zeroed(0x4000, PAGE_SIZE, READ_EXECUTE).unwrap();
    let mut cpu = Cpu32::new(0x401000);
    cpu.set_register(Register32::Esp, 0x2800);
    assert_eq!(start(&mut cpu, &memory, &[0x1000, 4, 4, 0x4000]), Ok(true));
    assert_eq!(cpu.eip, SORT_ENTRY);
    let mut cpu = Cpu32::new(0x401000);
    cpu.set_register(Register32::Esp, 0x2800);
    cpu.set_register(Register32::Eax, 9);
    assert_eq!(start(&mut cpu, &memory, &[0x1000, 1, 4, 0x4000]), Ok(false));
    assert_eq!(cpu.register(Register32::Eax), 0);
    assert_eq!(cpu.eip, 0x401000);
    assert_eq!(start(&mut cpu, &memory, &[0x1000, 4, 0, 0x4000]), Err(DispatchError::Unsupported));
    assert_eq!(
        start(&mut cpu, &memory, &[0x1000, 4, 4, 0x1000]),
        Err(DispatchError::Memory(MemoryError::PermissionDenied { address: 0x1000, access: Access::Execute }))
    );
    // an array over the stack frame is refused
    assert_eq!(start(&mut cpu, &memory, &[0x27e0, 4, 4, 0x4000]), Err(DispatchError::Unsupported));
    assert_eq!(
        start(&mut cpu, &memory, &[0x1000, 0x10000, 0x10000, 0x4000]),
        Err(DispatchError::Memory(MemoryError::AddressOverflow))
    );
}

#[test]
fn initializer_code_refuses_an_existing_mapping() {
    let mut memory = GuestMemory::new(2);
    memory.map_zeroed(u64::from(BASE), PAGE_SIZE, READ_WRITE).unwrap();
    assert_eq!(
        initialize(&mut memory, &[]),
        Err(MemoryError::AlreadyMapped { address: u64::from(BASE) })
    );
}

#[test]
fn initializer_code_is_placed_and_left_executable() {
    let mut memory = GuestMemory::new(2);
    assert_eq!(initialize(&mut memory, &[0x90, 0xc3]), Ok(()));
    assert_eq!(text(&memory, BASE, 2), vec![0x56, 0x57]);
    assert_eq!(text(&memory, BASE + 30, 1), vec![0xc3]);
    assert_eq!(text(&memory, SORT_ENTRY, 2), vec![0x90, 0xc3]);
    assert_eq!(
        memory.write(u64::from(BASE), &[0]),
        Err(MemoryError::PermissionDenied { address: u64::from(BASE), access: Access::Write })
    );
}

#[test]
fn getmainargs_stores_the_arguments_and_new_mode() {
    let mut memory = memory();
    memory.map_zeroed(0x7000_2000, PAGE_SIZE, READ_WRITE).unwrap();
    put_words(&mut memory, 0x7000_2010, &[2, 0x3000, 0x3100]);
    put_words(&mut memory, 0x1100, &[1]);
    let mut new_mode = 0;
    assert_eq!(get_main(&mut new_mode, &[0x1000, 0x1004, 0x1008, 0, 0], &mut memory), Ok(()));
    assert_eq!(words(&memory, 0x1000, 3), vec![2, 0x3000, 0x3100]);
    assert_eq!(new_mode, 0);
    assert_eq!(get_main(&mut new_mode, &[0x1000, 0x1004, 0x1008, 0, 0x1100], &mut memory), Ok(()));
    assert_eq!(new_mode, 1);
    put_words(&mut memory, 0x1100, &[2]);
    assert_eq!(
        get_main(&mut new_mode, &[0x1000, 0x1004, 0x1008, 0, 0x1100], &mut memory),
        Err(DispatchError::Unsupported)
    );
    assert_eq!(get_main(&mut new_mode, &[0x1000, 0x1004, 0x1008, 1, 0], &mut memory), Err(DispatchError::Unsupported));
    assert_eq!(new_mode, 1);
}

#[test]
fn vsnprintf_renders_and_cuts() {
    let mut memory = memory();
    memory.write(0x1100, b"id=%d hex=%x/%X ch=%c str=%s %% u=%u\0").unwrap();
    put_words(&mut memory, 0x1200, &[(-42_i32) as u32, 0xbeef, 0xbeef, u32::from(b'A'), 0x1300, 4_000_000_000]);
    memory.write(0x1300, b"abc\0").unwrap();
    let expected = b"id=-42 hex=beef/BEEF ch=A str=abc % u=4000000000";
    let length = expected.len() as u32;
    assert_eq!(format_write(&mut memory, &[0x1400, 100, 0x1100, 0x1200]), Ok(length));
    let mut stored = expected.to_vec();
    stored.push(0);
    assert_eq!(text(&memory, 0x1400, stored.len()), stored);
    assert_eq!(format_write(&mut memory, &[0x1500, 5, 0x1100, 0x1200]), Ok(u32::MAX));
    assert_eq!(text(&memory, 0x1500, 6), b"id=-4\0".to_vec());
    assert_eq!(format_write(&mut memory, &[0, 0, 0x1100, 0x1200]), Ok(length));
    assert_eq!(format_write(&mut memory, &[0, 3, 0x1100, 0x1200]), Err(DispatchError::Unsupported));
    memory.write(0x1600, b"%q\0").unwrap();
    assert_eq!(format_write(&mut memory, &[0x1400, 10, 0x1600, 0x1200]), Err(DispatchError::Unsupported));
    memory.write(0x1600, b"%d\0").unwrap();
    put_words(&mut memory, 0x1700, &[0x8000_0000]);
    assert_eq!(format_write(&mut memory, &[0x1400, 20, 0x1600, 0x1700]), Ok(11));
    assert_eq!(text(&memory, 0x1400, 12), b"-2147483648\0".to_vec());
    memory.write(0x1600, b"%x\0").unwrap();
    put_words(&mut memory, 0x1700, &[0]);
    assert_eq!(format_write(&mut memory, &[0x1400, 20, 0x1600, 0x1700]), Ok(1));
    assert_eq!(text(&memory, 0x1400, 2), b"0\0".to_vec());
}

#[test]
fn eh_prolog_links_a_registration() {
    let mut memory = memory();
    let mut cpu = Cpu32::new(0x401000);
    cpu.set_register(Register32::Esp, 0x2800);
    cpu.set_register(Register32::Eax, 0x55);
    cpu.set_register(Register32::Ebp, 0x66);
    cpu.set_fs_base(0x1800);
    put_words(&mut memory, 0x1800, &[0x1900]);
    assert_eq!(enter_exception_frame(&mut cpu, &mut memory, 0x0040_1234), Ok(()));
    assert_eq!(words(&memory, 0x27f0, 5), vec![0x0040_1234, 0x1900, 0x55, u32::MAX, 0x66]);
    assert_eq!(words(&memory, 0x1800, 1), vec![0x27f4]);
    assert_eq!(cpu.register(Register32::Eax), 0x0040_1234);
    assert_eq!(cpu.register(Register32::Ebp), 0x2800);
    assert_eq!(cpu.register(Register32::Esp), 0x27f4);
    assert_eq!(cpu.eip, 0x0040_1234);
    let mut overlapping = Cpu32::new(0);
    overlapping.set_register(Register32::Esp, 0x2800);
    overlapping.set_fs_base(0x27f0);
    let before = overlapping;
    assert_eq!(enter_exception_frame(&mut overlapping, &mut memory, 1), Err(DispatchError::Unsupported));
    assert_eq!(overlapping, before);
}

#[test]
fn com_counts_initializations() {
    let mut com = Com::default();
    assert_eq!(com.dispatch(ComCall::Initialize, &[0]), Ok(Some(0)));
    assert_eq!(com.dispatch(ComCall::Initialize, &[0]), Ok(Some(1)));
    assert_eq!(com.dispatch(ComCall::Initialize, &[7]), Ok(Some(0x8007_0057)));
    assert_eq!(com.dispatch(ComCall::Uninitialize, &[]), Ok(None));
    assert_eq!(com.dispatch(ComCall::Uninitialize, &[]), Ok(None));
    assert_eq!(com.dispatch(ComCall::Uninitialize, &[]), Ok(None));
    assert_eq!(com.references, 0);
    com.references = u32::MAX;
    assert_eq!(com.dispatch(ComCall::Initialize, &[0]), Err(DispatchError::Unsupported));
    assert_eq!(ComCall::at(0x474), Some(ComCall::Initialize));
    assert_eq!(ComCall::at(0x47c), None);
    assert_eq!(ComCall::resolve("CoUninitialize"), Some(0x478));
    assert_eq!(ComCall::resolve("CoCreateInstance"), None);
    assert_eq!(ComCall::Initialize.arguments(), 1);
}

#[test]
fn runtime_exports_resolve_to_their_slots() {
    assert_eq!(resolve("memcpy"), Some(0x7000_0150));
    assert_eq!(resolve("_initterm"), Some(BASE));
    assert_eq!(resolve("__argc"), Some(0x7000_2010));
    assert_eq!(resolve("__mb_cur_max"), Some(0x7000_204c));
    assert_eq!(resolve("printf"), None);
    assert_eq!(CrtCall::at(0x150), Some(CrtCall::Copy));
    assert_eq!(CrtCall::at(0x1a0), Some(CrtCall::Stream(StreamCall::Seek)));
    assert_eq!(CrtCall::at(0x1f0), Some(CrtCall::InlineMath(InlineMath::Pow)));
    assert_eq!(CrtCall::at(0x118), None);
    assert_eq!(CrtCall::Stream(StreamCall::Read).arguments(), 4);
    assert_eq!(CrtCall::GetMainArgs.arguments(), 5);
    assert_eq!(CrtCall::Random.arguments(), 0);
    assert_eq!(kernel32("GetACP"), Some(0x88));
    assert_eq!(kernel32("SetLastError"), Some(0));
    assert_eq!(kernel32("HeapAlloc"), None);
}

#[test]
fn imports_resolve_by_module_ignoring_case_and_by_exact_name() {
    let base = ring3_core::windows::API_BASE;
    assert_eq!(resolve_name("KERNEL32.DLL", "GetLastError", None), Some(base + 4));
    assert_eq!(resolve_name("kernel32.dll", "getlasterror", None), None);
    assert_eq!(resolve_name("User32.dll", "GetDC", None), Some(base + 0xa0));
    assert_eq!(resolve_name("gdi32.dll", "DeleteObject", None), Some(base + 0xb8));
    assert_eq!(resolve_name("advapi32.dll", "RegCloseKey", None), Some(base + 0x280));
    assert_eq!(resolve_name("msvcrt.dll", "qsort", None), Some(base + 0x1cc));
    assert_eq!(resolve_name("ole32.dll", "CoInitialize", None), Some(base + 0x474));
    assert_eq!(resolve_name("winmm.dll", "timeGetTime", None), Some(base + 0x244));
    assert_eq!(resolve_name("WINMM.dll", "timeBeginPeriod", None), None);
    assert_eq!(resolve_name("d3d8.dll", "Direct3DCreate8", None), Some(base + 12));
    assert_eq!(resolve_name("DInput.dll", "DirectInputCreateA", Some(0x7000_0600)), Some(0x7000_0600));
    assert_eq!(resolve_name("dinput.dll", "DirectInputCreateA", None), None);
    assert_eq!(resolve_name("unknown.dll", "GetDC", None), None);
}
