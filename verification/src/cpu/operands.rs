//! Operands: where an instruction reads and writes, and how wide.
use super::codes;
use super::decoding::Instruction;
use super::{Cpu32, Register32, StopReason};
use crate::memory::{Access, GuestMemory, MemoryError};
use vstd::prelude::*;

verus! {

/// The width of an operand.
#[derive(Clone, Copy, Debug, PartialEq, Eq, Structural)]
pub enum Width {
    Byte,
    Word,
    Dword,
}

impl Width {
    /// The width in bytes.
    pub open spec fn size(self) -> int {
        match self {
            Width::Byte => 1,
            Width::Word => 2,
            Width::Dword => 4,
        }
    }

    /// All bits of the width set.
    pub open spec fn spec_mask(self) -> u32 {
        match self {
            Width::Byte => 0xff,
            Width::Word => 0xffff,
            Width::Dword => 0xffff_ffff,
        }
    }

    /// The top bit of the width.
    pub open spec fn spec_sign_bit(self) -> u32 {
        match self {
            Width::Byte => 0x80,
            Width::Word => 0x8000,
            Width::Dword => 0x8000_0000,
        }
    }

    pub fn bytes(self) -> (size: u32)
        ensures
            size == self.size(),
    {
        match self {
            Width::Byte => 1,
            Width::Word => 2,
            Width::Dword => 4,
        }
    }

    pub fn mask(self) -> (mask: u32)
        ensures
            mask == self.spec_mask(),
    {
        match self {
            Width::Byte => 0xff,
            Width::Word => 0xffff,
            Width::Dword => 0xffff_ffff,
        }
    }

    pub fn sign_bit(self) -> (bit: u32)
        ensures
            bit == self.spec_sign_bit(),
    {
        match self {
            Width::Byte => 0x80,
            Width::Word => 0x8000,
            Width::Dword => 0x8000_0000,
        }
    }
}

/// Where an operand lives.
#[derive(Clone, Copy, Debug, PartialEq, Eq, Structural)]
pub enum Location {
    /// Bits `shift..` of a general-purpose register (`shift` is 8 for `AH`..`BH`).
    Register(Register32, u32),
    Memory(u32),
    Immediate(u32),
}

#[derive(Clone, Copy, Debug, PartialEq, Eq, Structural)]
pub struct Operand {
    pub location: Location,
    pub width: Width,
}

impl Operand {
    /// A register part starts at bit 0, or at bit 8 for a high byte.
    pub open spec fn valid(self) -> bool {
        match self.location {
            Location::Register(_, shift) => shift == 0 || (shift == 8 && self.width == Width::Byte),
            Location::Immediate(value) => value <= self.width.spec_mask(),
            Location::Memory(_) => true,
        }
    }
}

/// The part of a register value that an operand of `mask` bits at `shift` sees.
pub open spec fn register_part(full: u32, shift: u32, mask: u32) -> u32 {
    (full >> shift) & mask
}

/// A register value with the part at `shift` replaced by `value`.
pub open spec fn with_register_part(full: u32, shift: u32, mask: u32, value: u32) -> u32 {
    (full & !(mask << shift)) | ((value & mask) << shift)
}

/// The little-endian value of `size` bytes of memory at `address`.
pub open spec fn memory_value(memory: GuestMemory, address: int, size: int) -> int {
    if size == 1 {
        memory.byte(address) as int
    } else if size == 2 {
        memory.byte(address) + 256 * memory.byte(address + 1)
    } else {
        memory.byte(address) + 256 * memory.byte(address + 1) + 65536 * memory.byte(address + 2)
            + 16777216 * memory.byte(address + 3)
    }
}

/// The `size` little-endian bytes of `value`.
pub open spec fn value_bytes(value: u32, size: int) -> Seq<u8> {
    Seq::new(size as nat, |i: int| ((value as int / pow256(i)) % 256) as u8)
}

/// 256 to the power `i`, for the byte positions of a dword.
pub open spec fn pow256(i: int) -> int {
    if i <= 0 {
        1
    } else if i == 1 {
        256
    } else if i == 2 {
        65536
    } else if i == 3 {
        16777216
    } else {
        0x1_0000_0000
    }
}

/// Reading `size` bytes at a 32-bit `address`: the bytes must not wrap past the
/// top of the address space, and must be readable.
pub open spec fn value_outcome(memory: GuestMemory, address: u32, size: int) -> Result<
    u32,
    StopReason,
> {
    if address + size - 1 > u32::MAX {
        Err(StopReason::MemoryFault(MemoryError::AddressOverflow))
    } else {
        match memory.access(address as u64, size, Access::Read) {
            Err(error) => Err(StopReason::MemoryFault(error)),
            Ok(()) => Ok(memory_value(memory, address as int, size) as u32),
        }
    }
}

/// Whether writing `size` bytes of `value` at `address` may succeed, and why not.
pub open spec fn store_outcome(memory: GuestMemory, address: u32, size: int) -> Result<
    (),
    StopReason,
> {
    if address + size - 1 > u32::MAX {
        Err(StopReason::MemoryFault(MemoryError::AddressOverflow))
    } else {
        match memory.access(address as u64, size, Access::Write) {
            Err(error) => Err(StopReason::MemoryFault(error)),
            Ok(()) => Ok(()),
        }
    }
}

/// The value an operand holds.
pub open spec fn operand_value(cpu: Cpu32, memory: GuestMemory, operand: Operand) -> Result<
    u32,
    StopReason,
> {
    match operand.location {
        Location::Register(register, shift) => Ok(
            register_part(cpu.reg(register), shift, operand.width.spec_mask()),
        ),
        Location::Immediate(value) => Ok(value),
        Location::Memory(address) => value_outcome(memory, address, operand.width.size()),
    }
}

/// Whether writing to an operand may succeed, and why not.
pub open spec fn operand_store_outcome(memory: GuestMemory, operand: Operand) -> Result<
    (),
    StopReason,
> {
    match operand.location {
        Location::Register(..) => Ok(()),
        Location::Immediate(..) => Err(StopReason::UnsupportedInstruction),
        Location::Memory(address) => store_outcome(memory, address, operand.width.size()),
    }
}

/// `(cpu, memory)` is `(old_cpu, old_memory)` with `value` written to `operand`.
pub open spec fn stored(
    cpu: Cpu32,
    memory: GuestMemory,
    old_cpu: Cpu32,
    old_memory: GuestMemory,
    operand: Operand,
    value: u32,
) -> bool {
    match operand.location {
        Location::Register(register, shift) => {
            &&& memory == old_memory
            &&& cpu.reg(register) == with_register_part(
                old_cpu.reg(register),
                shift,
                operand.width.spec_mask(),
                value,
            )
            &&& forall|other: Register32|
                other != register ==> #[trigger] cpu.reg(other) == old_cpu.reg(other)
            &&& cpu.fs_base == old_cpu.fs_base
            &&& cpu.x87_control_word == old_cpu.x87_control_word
            &&& cpu.mmx == old_cpu.mmx
            &&& cpu.eip == old_cpu.eip
            &&& cpu.eflags == old_cpu.eflags
        },
        Location::Memory(address) => {
            &&& cpu == old_cpu
            &&& memory.wf()
            &&& memory.wrote(old_memory, address as int, value_bytes(value, operand.width.size()))
        },
        Location::Immediate(..) => cpu == old_cpu && memory == old_memory,
    }
}

/// The register, part and width that a decoder register number names.
pub open spec fn register_location(register: u16) -> Option<(Register32, u32, Width)> {
    if codes::REG_AL <= register <= codes::REG_BL {
        Some((register32_at((register - codes::REG_AL) as int), 0, Width::Byte))
    } else if codes::REG_AH <= register <= codes::REG_BH {
        Some((register32_at((register - codes::REG_AH) as int), 8, Width::Byte))
    } else if codes::REG_AX <= register <= codes::REG_DI {
        Some((register32_at((register - codes::REG_AX) as int), 0, Width::Word))
    } else if codes::REG_EAX <= register <= codes::REG_EDI {
        Some((register32_at((register - codes::REG_EAX) as int), 0, Width::Dword))
    } else {
        None
    }
}

/// The register with encoding number `number`.
pub open spec fn register32_at(number: int) -> Register32 {
    if number == 0 {
        Register32::Eax
    } else if number == 1 {
        Register32::Ecx
    } else if number == 2 {
        Register32::Edx
    } else if number == 3 {
        Register32::Ebx
    } else if number == 4 {
        Register32::Esp
    } else if number == 5 {
        Register32::Ebp
    } else if number == 6 {
        Register32::Esi
    } else {
        Register32::Edi
    }
}

fn register_by_number(number: u16) -> (register: Register32)
    requires
        number < 8,
    ensures
        register == register32_at(number as int),
        register.number() == number,
{
    match number {
        0 => Register32::Eax,
        1 => Register32::Ecx,
        2 => Register32::Edx,
        3 => Register32::Ebx,
        4 => Register32::Esp,
        5 => Register32::Ebp,
        6 => Register32::Esi,
        _ => Register32::Edi,
    }
}

/// Where a decoder register number lives in the register file.
pub fn locate_register(register: u16) -> (location: Option<(Register32, u32, Width)>)
    ensures
        location == register_location(register),
{
    if codes::REG_AL <= register && register <= codes::REG_BL {
        Some((register_by_number(register - codes::REG_AL), 0, Width::Byte))
    } else if codes::REG_AH <= register && register <= codes::REG_BH {
        Some((register_by_number(register - codes::REG_AH), 8, Width::Byte))
    } else if codes::REG_AX <= register && register <= codes::REG_DI {
        Some((register_by_number(register - codes::REG_AX), 0, Width::Word))
    } else if codes::REG_EAX <= register && register <= codes::REG_EDI {
        Some((register_by_number(register - codes::REG_EAX), 0, Width::Dword))
    } else {
        None
    }
}

/// The 32-bit register a decoder register number names; other registers are
/// not supported.
pub fn register32(register: u16) -> (found: Result<Register32, StopReason>)
    ensures
        found matches Err(reason) ==> reason.is_fault(),
        codes::REG_EAX <= register <= codes::REG_EDI ==> found == Ok::<Register32, StopReason>(
            register32_at(register - codes::REG_EAX),
        ),
        !(codes::REG_EAX <= register <= codes::REG_EDI) ==> found == Err::<Register32, StopReason>(
            StopReason::UnsupportedInstruction,
        ),
{
    if codes::REG_EAX <= register && register <= codes::REG_EDI {
        Ok(register_by_number(register - codes::REG_EAX))
    } else {
        Err(StopReason::UnsupportedInstruction)
    }
}

/// The value of a register operand of an address computation: zero for none.
pub open spec fn address_register(cpu: Cpu32, register: u16) -> Result<u32, StopReason> {
    if register == codes::REG_NONE {
        Ok(0)
    } else if codes::REG_EAX <= register <= codes::REG_EDI {
        Ok(cpu.reg(register32_at(register - codes::REG_EAX)))
    } else {
        Err(StopReason::UnsupportedInstruction)
    }
}

/// The offset of an instruction's memory operand: base plus scaled index plus
/// displacement, modulo 2^32. 16-bit addressing is not supported.
pub open spec fn effective_offset(cpu: Cpu32, instruction: Instruction) -> Result<u32, StopReason> {
    if instruction.memory.displacement_size == 2 {
        Err(StopReason::UnsupportedInstruction)
    } else {
        match address_register(cpu, instruction.memory.base) {
            Err(error) => Err(error),
            Ok(base) => match address_register(cpu, instruction.memory.index) {
                Err(error) => Err(error),
                Ok(index) => Ok(
                    ((base + (index * instruction.memory.scale) % 0x1_0000_0000
                        + instruction.operands.target) % 0x1_0000_0000) as u32,
                ),
            },
        }
    }
}

/// The width of a memory operand of `size` bytes.
pub open spec fn memory_width(size: u32) -> Option<Width> {
    if size == 1 {
        Some(Width::Byte)
    } else if size == 2 {
        Some(Width::Word)
    } else if size == 4 {
        Some(Width::Dword)
    } else {
        None
    }
}

/// The byte `value` sign-extended to the bits of `mask`.
pub open spec fn sign_extend_byte(value: u32, mask: u32) -> u32 {
    if value & 0x80 == 0 {
        value & 0xff
    } else {
        (value | 0xffff_ff00) & mask
    }
}

/// The operand with kind `kind` and register `register` of an instruction.
pub open spec fn operand_of(cpu: Cpu32, instruction: Instruction, kind: u8, register: u16) -> Result<
    Operand,
    StopReason,
> {
    let immediate = instruction.operands.immediate;
    if kind == codes::KIND_REGISTER {
        match register_location(register) {
            Some((found, shift, width)) => Ok(
                Operand { location: Location::Register(found, shift), width },
            ),
            None => Err(StopReason::UnsupportedInstruction),
        }
    } else if kind == codes::KIND_MEMORY {
        match effective_offset(cpu, instruction) {
            Err(error) => Err(error),
            Ok(offset) => match memory_width(instruction.memory.size) {
                None => Err(StopReason::UnsupportedInstruction),
                Some(width) => Ok(
                    Operand {
                        location: Location::Memory(
                            ((segment_base(cpu, instruction.memory.segment) + offset)
                                % 0x1_0000_0000) as u32,
                        ),
                        width,
                    },
                ),
            },
        }
    } else if kind == codes::KIND_IMMEDIATE8 {
        Ok(Operand { location: Location::Immediate(immediate & 0xff), width: Width::Byte })
    } else if kind == codes::KIND_IMMEDIATE16 {
        Ok(Operand { location: Location::Immediate(immediate & 0xffff), width: Width::Word })
    } else if kind == codes::KIND_IMMEDIATE32 {
        Ok(Operand { location: Location::Immediate(immediate), width: Width::Dword })
    } else if kind == codes::KIND_IMMEDIATE8TO16 {
        Ok(
            Operand {
                location: Location::Immediate(sign_extend_byte(immediate, 0xffff)),
                width: Width::Word,
            },
        )
    } else if kind == codes::KIND_IMMEDIATE8TO32 {
        Ok(
            Operand {
                location: Location::Immediate(sign_extend_byte(immediate, 0xffff_ffff)),
                width: Width::Dword,
            },
        )
    } else {
        Err(StopReason::UnsupportedInstruction)
    }
}

/// The base of the segment `segment`: the configured base for `fs`, zero for
/// the flat segments.
pub open spec fn segment_base(cpu: Cpu32, segment: u16) -> u32 {
    if segment == codes::REG_FS {
        cpu.fs_base
    } else {
        0
    }
}

/// The operand number `index` (0, 1 or 2) of an instruction.
pub open spec fn operand_at(cpu: Cpu32, instruction: Instruction, index: u32) -> Result<
    Operand,
    StopReason,
> {
    if index == 0 {
        operand_of(cpu, instruction, instruction.operands.kind0, instruction.operands.register0)
    } else if index == 1 {
        operand_of(cpu, instruction, instruction.operands.kind1, instruction.operands.register1)
    } else {
        operand_of(cpu, instruction, instruction.operands.kind2, instruction.operands.register2)
    }
}

impl Cpu32 {
    /// The operand number `index` of `instruction`.
    pub fn operand(&self, instruction: &Instruction, index: u32) -> (operand: Result<
        Operand,
        StopReason,
    >)
        requires
            index < 3,
        ensures
            operand matches Err(reason) ==> reason.is_fault(),
            operand == operand_at(*self, *instruction, index),
            operand matches Ok(found) ==> found.valid(),
    {
        let (kind, register) = if index == 0 {
            (instruction.operands.kind0, instruction.operands.register0)
        } else if index == 1 {
            (instruction.operands.kind1, instruction.operands.register1)
        } else {
            (instruction.operands.kind2, instruction.operands.register2)
        };
        let immediate = instruction.operands.immediate;
        assert((immediate & 0xff) <= 0xff && (immediate & 0xffff) <= 0xffff) by (bit_vector);
        if kind == codes::KIND_REGISTER {
            match locate_register(register) {
                Some((found, shift, width)) => Ok(
                    Operand { location: Location::Register(found, shift), width },
                ),
                None => Err(StopReason::UnsupportedInstruction),
            }
        } else if kind == codes::KIND_MEMORY {
            let offset = self.effective_address(instruction)?;
            let width = match instruction.memory.size {
                1 => Width::Byte,
                2 => Width::Word,
                4 => Width::Dword,
                _ => return Err(StopReason::UnsupportedInstruction),
            };
            let base = if instruction.memory.segment == codes::REG_FS {
                self.fs_base
            } else {
                0
            };
            Ok(Operand { location: Location::Memory(base.wrapping_add(offset)), width })
        } else if kind == codes::KIND_IMMEDIATE8 {
            Ok(Operand { location: Location::Immediate(immediate & 0xff), width: Width::Byte })
        } else if kind == codes::KIND_IMMEDIATE16 {
            Ok(Operand { location: Location::Immediate(immediate & 0xffff), width: Width::Word })
        } else if kind == codes::KIND_IMMEDIATE32 {
            Ok(Operand { location: Location::Immediate(immediate), width: Width::Dword })
        } else if kind == codes::KIND_IMMEDIATE8TO16 {
            Ok(
                Operand {
                    location: Location::Immediate(sign_extend(immediate, 0xffff)),
                    width: Width::Word,
                },
            )
        } else if kind == codes::KIND_IMMEDIATE8TO32 {
            Ok(
                Operand {
                    location: Location::Immediate(sign_extend(immediate, 0xffff_ffff)),
                    width: Width::Dword,
                },
            )
        } else {
            Err(StopReason::UnsupportedInstruction)
        }
    }

    /// The offset of the memory operand of `instruction`.
    pub fn effective_address(&self, instruction: &Instruction) -> (offset: Result<u32, StopReason>)
        ensures
            offset matches Err(reason) ==> reason.is_fault(),
            offset == effective_offset(*self, *instruction),
    {
        if instruction.memory.displacement_size == 2 {
            return Err(StopReason::UnsupportedInstruction);
        }
        let base = self.address_register(instruction.memory.base)?;
        let index = self.address_register(instruction.memory.index)?;
        Ok(
            base.wrapping_add(index.wrapping_mul(instruction.memory.scale)).wrapping_add(
                instruction.operands.target,
            ),
        )
    }

    fn address_register(&self, register: u16) -> (value: Result<u32, StopReason>)
        ensures

            value matches Err(reason) ==> reason.is_fault(),
            value == address_register(*self, register),
    {
        if register == codes::REG_NONE {
            Ok(0)
        } else {
            let found = register32(register)?;
            Ok(self.register(found))
        }
    }

    /// The value an operand holds.
    pub fn read_operand(&self, operand: Operand, memory: &GuestMemory) -> (value: Result<
        u32,
        StopReason,
    >)
        requires
            memory.wf(),
            operand.valid(),
        ensures
            value matches Err(reason) ==> reason.is_fault(),
            value == operand_value(*self, *memory, operand),
    {
        match operand.location {
            Location::Register(register, shift) => Ok(
                (self.register(register) >> shift) & operand.width.mask(),
            ),
            Location::Immediate(value) => Ok(value),
            Location::Memory(address) => read_value(memory, address, operand.width),
        }
    }

    /// Writes `value` (truncated to the operand's width) to an operand.
    pub fn write_operand(&mut self, operand: Operand, value: u32, memory: &mut GuestMemory) -> (outcome:
        Result<(), StopReason>)
        requires
            old(memory).wf(),
            operand.valid(),
        ensures
            outcome matches Err(reason) ==> reason.is_fault(),
            final(memory).wf(),
            outcome == operand_store_outcome(*old(memory), operand),
            outcome is Ok ==> stored(
                *final(self),
                *final(memory),
                *old(self),
                *old(memory),
                operand,
                value,
            ),
            outcome is Err ==> *final(self) == *old(self) && *final(memory) == *old(memory),
    {
        match operand.location {
            Location::Register(register, shift) => {
                let mask = operand.width.mask();
                let full = self.register(register);
                self.set_register(register, (full & !(mask << shift)) | ((value & mask) << shift));
            },
            Location::Memory(address) => write_value(memory, address, operand.width, value)?,
            Location::Immediate(_) => return Err(StopReason::UnsupportedInstruction),
        }
        Ok(())
    }
}

/// A value read from a valid operand fits the operand's width.
pub proof fn lemma_operand_fits(cpu: Cpu32, memory: GuestMemory, operand: Operand)
    requires
        operand.valid(),
        operand_value(cpu, memory, operand) is Ok,
    ensures
        operand_value(cpu, memory, operand)->Ok_0 <= operand.width.spec_mask(),
{
    match operand.location {
        Location::Register(register, shift) => {
            let full = cpu.reg(register);
            let mask = operand.width.spec_mask();
            assert(((full >> shift) & mask) <= mask) by (bit_vector);
        },
        Location::Immediate(_) => {},
        Location::Memory(address) => {
            let size = operand.width.size();
            assert(memory.byte(address as int) <= 255);
            assert(memory.byte(address + 1) <= 255);
            assert(memory.byte(address + 2) <= 255);
            assert(memory.byte(address + 3) <= 255);
        },
    }
}

/// The byte `value` sign-extended to the bits of `mask`.
fn sign_extend(value: u32, mask: u32) -> (extended: u32)
    requires
        mask >= 0xff,
    ensures
        extended == sign_extend_byte(value, mask),
        extended <= mask,
{
    assert((value & 0xff) <= 0xff) by (bit_vector);
    assert(((value | 0xffff_ff00) & mask) <= mask) by (bit_vector);
    if value & 0x80 == 0 {
        value & 0xff
    } else {
        (value | 0xffff_ff00) & mask
    }
}

/// Checks that `width` bytes at `address` do not wrap past the top of the
/// 32-bit address space.
fn check_span(address: u32, width: Width) -> (outcome: Result<(), StopReason>)
    ensures
        outcome matches Err(reason) ==> reason.is_fault(),
        outcome is Ok <==> address + width.size() - 1 <= u32::MAX,
        outcome is Err ==> outcome == Err::<(), StopReason>(
            StopReason::MemoryFault(MemoryError::AddressOverflow),
        ),
{
    match address.checked_add(width.bytes() - 1) {
        Some(_) => Ok(()),
        None => Err(StopReason::MemoryFault(MemoryError::AddressOverflow)),
    }
}

/// Reads a little-endian value of `width` at `address`.
pub fn read_value(memory: &GuestMemory, address: u32, width: Width) -> (value: Result<
    u32,
    StopReason,
>)
    requires
        memory.wf(),
    ensures
        value matches Err(reason) ==> reason.is_fault(),
        value == value_outcome(*memory, address, width.size()),
{
    check_span(address, width)?;
    let size = width.bytes() as usize;
    let mut buffer: Vec<u8> = Vec::new();
    let mut k: usize = 0;
    while k < size
        invariant
            k <= size,
            buffer@.len() == k,
        decreases size - k,
    {
        buffer.push(0);
        k = k + 1;
    }
    match memory.read(address as u64, buffer.as_mut_slice()) {
        Err(error) => return Err(StopReason::MemoryFault(error)),
        Ok(()) => {},
    }
    let mut value: u32 = buffer[0] as u32;
    assert(buffer@[0] == memory.byte(address + 0));
    if size >= 2 {
        assert(buffer@[1] == memory.byte(address + 1));
        value = value + 256 * (buffer[1] as u32);
    }
    if size == 4 {
        assert(buffer@[2] == memory.byte(address + 2));
        assert(buffer@[3] == memory.byte(address + 3));
        value = value + 65536 * (buffer[2] as u32) + 16777216 * (buffer[3] as u32);
    }
    Ok(value)
}

/// Writes the low `width` bytes of `value` at `address`, little-endian.
pub fn write_value(memory: &mut GuestMemory, address: u32, width: Width, value: u32) -> (outcome:
    Result<(), StopReason>)
    requires
        old(memory).wf(),
    ensures
        outcome matches Err(reason) ==> reason.is_fault(),
        final(memory).wf(),
        outcome == store_outcome(*old(memory), address, width.size()),
        outcome is Ok ==> final(memory).wrote(
            *old(memory),
            address as int,
            value_bytes(value, width.size()),
        ),
        outcome is Err ==> *final(memory) == *old(memory),
{
    check_span(address, width)?;
    let size = width.bytes() as usize;
    let mut bytes: Vec<u8> = Vec::new();
    let mut remaining = value;
    let mut k: usize = 0;
    while k < size
        invariant
            k <= size,
            size <= 4,
            bytes@.len() == k,
            remaining == value as int / pow256(k as int),
            forall|i: int| 0 <= i < k ==> #[trigger] bytes@[i] == value_bytes(value, size as int)[i],
        decreases size - k,
    {
        bytes.push((remaining % 256) as u8);
        remaining = remaining / 256;
        proof {
            vstd::arithmetic::div_mod::lemma_div_denominator(value as int, pow256(k as int), 256);
        }
        k = k + 1;
    }
    assert(bytes@ =~= value_bytes(value, size as int));
    match memory.write(address as u64, bytes.as_slice()) {
        Err(error) => Err(StopReason::MemoryFault(error)),
        Ok(()) => Ok(()),
    }
}

} // verus!
