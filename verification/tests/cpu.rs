use ring3_core::{Cpu32, GuestMemory, MemoryError, PAGE_SIZE, Permissions, Register32, StopReason};

const READ_WRITE: Permissions = Permissions { read: true, write: true, execute: false };
const READ_EXECUTE: Permissions = Permissions { read: true, write: false, execute: true };

fn program(code: &[u8]) -> GuestMemory {
    let mut memory = GuestMemory::new(4);
    memory.map_zeroed(0x1000, PAGE_SIZE, READ_WRITE).unwrap();
    memory.write(0x1000, code).unwrap();
    memory.protect(0x1000, PAGE_SIZE, READ_EXECUTE).unwrap();
    memory.map_zeroed(0x8000, PAGE_SIZE, READ_WRITE).unwrap();
    memory
}

#[test]
fn arithmetic_then_breakpoint_stops_after_the_int3() {
    // mov eax, 5; add eax, 3; int3
    let mut memory = program(&[0xb8, 5, 0, 0, 0, 0x83, 0xc0, 3, 0xcc]);
    let mut cpu = Cpu32::new(0x1000);
    let result = cpu.run(&mut memory, 10);
    assert_eq!(result.reason, StopReason::Breakpoint);
    assert_eq!(result.instructions, 3);
    assert_eq!(result.instruction_pointer, 0x1008);
    assert_eq!(cpu.eip, 0x1009);
    assert_eq!(cpu.register(Register32::Eax), 8);
    // parity of 8 is odd, zero and sign are clear
    assert_eq!(cpu.eflags & 0x8d5, 0);
}

#[test]
fn a_zero_budget_stops_at_once_without_asking() {
    let mut memory = program(&[0x90]);
    let mut cpu = Cpu32::new(0x1000);
    let result = cpu.run_until(&mut memory, 0, |_| panic!("consulted"));
    assert_eq!(result.reason, StopReason::InstructionLimit);
    assert_eq!(result.instructions, 0);
    assert_eq!(result.instruction_pointer, 0x1000);
}

#[test]
fn interception_consumes_no_step_and_changes_nothing() {
    // nop; nop; nop
    let mut memory = program(&[0x90, 0x90, 0x90]);
    let mut cpu = Cpu32::new(0x1000);
    let result = cpu.run_until(&mut memory, 10, |address| address == 0x1002);
    assert_eq!(result.reason, StopReason::Intercepted);
    assert_eq!(result.instructions, 2);
    assert_eq!(result.instruction_pointer, 0x1002);
    assert_eq!(cpu.eip, 0x1002);
}

#[test]
fn push_pop_and_call_return_use_the_stack() {
    // push 0x11223344; pop ecx; call +1 (to 0x100d); int3; ret-target: ret
    let mut memory = program(&[
        0x68, 0x44, 0x33, 0x22, 0x11, // push imm32
        0x59, // pop ecx
        0xe8, 0x01, 0, 0, 0, // call 0x100c
        0xcc, // int3 at 0x100b
        0xc3, // ret at 0x100c
    ]);
    let mut cpu = Cpu32::new(0x1000);
    cpu.set_register(Register32::Esp, 0x9000);
    let result = cpu.run(&mut memory, 10);
    assert_eq!(result.reason, StopReason::Breakpoint);
    assert_eq!(result.instruction_pointer, 0x100b);
    assert_eq!(cpu.register(Register32::Ecx), 0x1122_3344);
    assert_eq!(cpu.register(Register32::Esp), 0x9000);
    let mut saved = [0; 4];
    memory.read(0x8ffc, &mut saved).unwrap();
    assert_eq!(u32::from_le_bytes(saved), 0x100b);
}

#[test]
fn repeated_string_moves_count_one_step_per_element() {
    // rep movsb; int3
    let mut memory = program(&[0xf3, 0xa4, 0xcc]);
    memory.write(0x8000, b"abc").unwrap();
    let mut cpu = Cpu32::new(0x1000);
    cpu.set_register(Register32::Esi, 0x8000);
    cpu.set_register(Register32::Edi, 0x8100);
    cpu.set_register(Register32::Ecx, 3);
    let result = cpu.run(&mut memory, 10);
    assert_eq!(result.reason, StopReason::Breakpoint);
    assert_eq!(result.instructions, 4);
    let mut copied = [0; 3];
    memory.read(0x8100, &mut copied).unwrap();
    assert_eq!(&copied, b"abc");
    assert_eq!(cpu.register(Register32::Ecx), 0);
    assert_eq!(cpu.register(Register32::Esi), 0x8003);
}

#[test]
fn cpuid_reports_the_vendor_and_no_features() {
    // cpuid; int3
    let mut memory = program(&[0x0f, 0xa2, 0xcc]);
    let mut cpu = Cpu32::new(0x1000);
    cpu.run(&mut memory, 10);
    assert_eq!(cpu.register(Register32::Eax), 1);
    let mut vendor = Vec::new();
    for register in [Register32::Ebx, Register32::Ecx, Register32::Edx] {
        vendor.extend_from_slice(&cpu.register(register).to_le_bytes());
    }
    assert_eq!(&vendor, b"RingCore3CPU".as_slice());
}

#[test]
fn a_faulting_store_leaves_the_processor_as_it_was() {
    // mov [0x5000], eax  (unmapped)
    let mut memory = program(&[0xa3, 0, 0x50, 0, 0]);
    let mut cpu = Cpu32::new(0x1000);
    cpu.set_register(Register32::Eax, 7);
    let before = cpu;
    let result = cpu.run(&mut memory, 10);
    assert_eq!(result.reason, StopReason::MemoryFault(MemoryError::Unmapped { address: 0x5000 }));
    assert_eq!(result.instructions, 0);
    assert_eq!(cpu, before);
}

#[test]
fn shifts_and_multiplication_set_carry_as_documented() {
    // mov eax, 0x80000001; shl eax, 1; imul ecx, eax, 3; int3
    let mut memory = program(&[
        0xb8, 1, 0, 0, 0x80, 0xd1, 0xe0, 0x6b, 0xc8, 3, 0xcc,
    ]);
    let mut cpu = Cpu32::new(0x1000);
    let result = cpu.run(&mut memory, 10);
    assert_eq!(result.reason, StopReason::Breakpoint);
    assert_eq!(cpu.register(Register32::Eax), 2);
    assert_eq!(cpu.register(Register32::Ecx), 6);
    assert_eq!(cpu.eflags & 1, 0);
}

#[test]
fn crt_helpers_refuse_packed_values_until_emms() {
    let mut memory = GuestMemory::new(1);
    memory.map_zeroed(0x1000, PAGE_SIZE, READ_WRITE).unwrap();
    memory.write(0x1000, &[0x0f, 0x6e, 0xc0, 0x0f, 0x77]).unwrap();
    memory.protect(0x1000, PAGE_SIZE, READ_EXECUTE).unwrap();
    let mut cpu = Cpu32::new(0x1000);
    let result = cpu.run(&mut memory, 1);
    assert_eq!(result.reason, StopReason::InstructionLimit);
    assert_eq!(result.instructions, 1);
    assert_eq!(result.instruction_pointer, 0x1003);
    // after movd the register file belongs to MMX
    assert!(cpu.mmx.active);
    assert_eq!(cpu.mmx.registers[0], 0);
    assert_eq!(cpu.run(&mut memory, 1).reason, StopReason::InstructionLimit);
    assert_eq!(cpu.eip, 0x1005);
    // emms gives it back
    assert!(!cpu.mmx.active);
}

#[test]
fn packed_additions_saturate_and_move_through_memory() {
    // mov eax, 0x7ffe0001; movd mm0, eax; movd mm1, eax; paddsw mm0, mm1;
    // movq [0x8000], mm0; movd ecx, mm0; emms; int3
    let mut memory = program(&[
        0xb8, 0x01, 0x00, 0xfe, 0x7f, 0x0f, 0x6e, 0xc0, 0x0f, 0x6e, 0xc8, 0x0f, 0xed, 0xc1,
        0x0f, 0x7f, 0x05, 0x00, 0x80, 0x00, 0x00, 0x0f, 0x7e, 0xc1, 0x0f, 0x77, 0xcc,
    ]);
    let mut cpu = Cpu32::new(0x1000);
    let result = cpu.run(&mut memory, 20);
    assert_eq!(result.reason, StopReason::Breakpoint);
    assert_eq!(result.instructions, 8);
    // low word 1 + 1 = 2, high word 0x7ffe + 0x7ffe saturates to 0x7fff
    assert_eq!(cpu.register(Register32::Ecx), 0x7fff_0002);
    let mut stored = [0u8; 8];
    memory.read(0x8000, &mut stored).unwrap();
    assert_eq!(u64::from_le_bytes(stored), 0x7fff_0002);
    assert!(!cpu.mmx.active);
}

#[test]
fn packed_shifts_take_an_immediate_count() {
    // mov eax, 0x80000001; movd mm2, eax; psrad mm2, 4; movd edx, mm2; int3
    let mut memory = program(&[
        0xb8, 0x01, 0x00, 0x00, 0x80, 0x0f, 0x6e, 0xd0, 0x0f, 0x72, 0xe2, 0x04, 0x0f, 0x7e,
        0xd2, 0xcc,
    ]);
    let mut cpu = Cpu32::new(0x1000);
    let result = cpu.run(&mut memory, 20);
    assert_eq!(result.reason, StopReason::Breakpoint);
    assert_eq!(cpu.register(Register32::Edx), 0xf800_0000);
    assert!(cpu.mmx.active);
}
