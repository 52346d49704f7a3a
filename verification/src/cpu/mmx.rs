//! MMX instructions: moves to and from the eight 64-bit MMX registers,
//! `emms`, and the packed operations, which compute through
//! [`super::packed::execute`]. An MMX instruction claims the x87 register
//! file until `emms` gives it back.
use super::codes;
use super::decoding::Instruction;
use super::operands::{
    effective_offset, operand_at, operand_store_outcome, operand_value, segment_base, stored,
};
use super::packed::{executed, mmx_index};
use super::{Cpu32, Mmx, StopReason};
use crate::memory::{Access, GuestMemory, MemoryError};
use vstd::prelude::*;

verus! {

/// 256 to the power `count`.
pub open spec fn power256(count: int) -> int
    decreases count,
{
    if count <= 0 {
        1
    } else {
        256 * power256(count - 1)
    }
}

/// The little-endian value of the `count` bytes of memory at `address`.
pub open spec fn bytes_value(memory: GuestMemory, address: int, count: int) -> int
    decreases count,
{
    if count <= 0 {
        0
    } else {
        memory.byte(address) + 256 * bytes_value(memory, address + 1, count - 1)
    }
}

/// The `count` little-endian bytes of `value`.
pub open spec fn le_bytes(value: int, count: int) -> Seq<u8>
    decreases count,
{
    if count <= 0 {
        Seq::empty()
    } else {
        seq![(value % 256) as u8] + le_bytes(value / 256, count - 1)
    }
}

/// A value of `count` bytes is less than 256 to the power `count`.
proof fn lemma_bytes_bound(memory: GuestMemory, address: int, count: int)
    requires
        count >= 0,
    ensures
        0 <= bytes_value(memory, address, count) < power256(count),
    decreases count,
{
    if count > 0 {
        lemma_bytes_bound(memory, address + 1, count - 1);
        let rest = bytes_value(memory, address + 1, count - 1);
        let byte = memory.byte(address) as int;
        assert(byte + 256 * rest < 256 * power256(count - 1)) by (nonlinear_arith)
            requires
                0 <= byte < 256,
                0 <= rest < power256(count - 1),
        ;
    }
}

/// The number of the MMX register that the decoder's register `register`
/// names, if it names one.
pub open spec fn mmx_register(register: u16) -> Option<int> {
    if codes::REG_MM0 <= register < codes::REG_MM0 + 8 {
        Some(register - codes::REG_MM0)
    } else {
        None
    }
}

/// The address of the memory operand of `instruction` for an access of
/// `size` bytes: the segment base plus the offset, modulo 2^32, refused
/// where the access would wrap past the top of the address space.
pub open spec fn mmx_location(cpu: Cpu32, instruction: Instruction, size: int) -> Result<
    u32,
    StopReason,
> {
    match effective_offset(cpu, instruction) {
        Err(error) => Err(error),
        Ok(offset) => {
            let address = ((segment_base(cpu, instruction.memory.segment) + offset)
                % 0x1_0000_0000) as u32;
            if address + size - 1 > u32::MAX {
                Err(StopReason::MemoryFault(MemoryError::AddressOverflow))
            } else {
                Ok(address)
            }
        },
    }
}

/// Reading `size` bytes at `address` as a value.
pub open spec fn mmx_load(memory: GuestMemory, address: u32, size: int) -> Result<u64, StopReason> {
    match memory.access(address as u64, size, Access::Read) {
        Err(error) => Err(StopReason::MemoryFault(error)),
        Ok(()) => Ok(bytes_value(memory, address as int, size) as u64),
    }
}

/// The source operand of an MMX instruction: an MMX register, an 8-bit
/// immediate, or memory (a dword for the low unpacks, else a quadword).
pub open spec fn mmx_source(cpu: Cpu32, memory: GuestMemory, instruction: Instruction) -> Result<
    u64,
    StopReason,
> {
    let kind = instruction.operands.kind1;
    let code = instruction.head.code;
    if kind == codes::KIND_REGISTER {
        match mmx_register(instruction.operands.register1) {
            Some(index) => Ok(cpu.mmx.registers@[index]),
            None => Err(StopReason::UnsupportedInstruction),
        }
    } else if kind == codes::KIND_IMMEDIATE8 {
        Ok((instruction.operands.immediate & 0xff) as u64)
    } else if kind == codes::KIND_MEMORY {
        let size = if code == codes::PUNPCKLBW_MM_MMM32 || code == codes::PUNPCKLWD_MM_MMM32 || code
            == codes::PUNPCKLDQ_MM_MMM32 {
            4
        } else {
            8
        };
        match mmx_location(cpu, instruction, size) {
            Err(error) => Err(error),
            Ok(address) => mmx_load(memory, address, size),
        }
    } else {
        Err(StopReason::UnsupportedInstruction)
    }
}

/// `old` with the MMX register file claimed.
pub open spec fn entered(old: Cpu32) -> Cpu32 {
    Cpu32 { mmx: Mmx { active: true, ..old.mmx }, ..old }
}

/// `cpu` is `old` with MMX register `index` set to `value` and the register
/// file claimed.
pub open spec fn mmx_set(cpu: Cpu32, old: Cpu32, index: int, value: u64) -> bool {
    &&& cpu.mmx.active
    &&& cpu.mmx.registers@ == old.mmx.registers@.update(index, value)
    &&& cpu == Cpu32 { mmx: cpu.mmx, ..old }
}

/// What an MMX instruction does to `(old, old_memory)`, giving
/// `(cpu, memory)`; on failure nothing changes.
pub open spec fn mmx_effect(
    old: Cpu32,
    old_memory: GuestMemory,
    instruction: Instruction,
    cpu: Cpu32,
    memory: GuestMemory,
    outcome: Result<(), StopReason>,
) -> bool {
    let unchanged = cpu == old && memory == old_memory;
    let code = instruction.head.code;
    let refused = outcome == Err::<(), StopReason>(StopReason::UnsupportedInstruction) && unchanged;
    if code == codes::EMMS {
        &&& outcome is Ok
        &&& memory == old_memory
        &&& cpu == Cpu32 { mmx: Mmx { active: false, ..old.mmx }, ..old }
    } else if code == codes::MOVD_MM_RM32 {
        match operand_at(old, instruction, 1) {
            Err(error) => outcome == Err::<(), StopReason>(error) && unchanged,
            Ok(source) => match operand_value(old, old_memory, source) {
                Err(error) => outcome == Err::<(), StopReason>(error) && unchanged,
                Ok(value) => match mmx_register(instruction.operands.register0) {
                    None => refused,
                    Some(index) => outcome is Ok && memory == old_memory && mmx_set(
                        cpu,
                        old,
                        index,
                        value as u64,
                    ),
                },
            },
        }
    } else if code == codes::MOVD_RM32_MM {
        match mmx_register(instruction.operands.register1) {
            None => refused,
            Some(index) => match operand_at(old, instruction, 0) {
                Err(error) => outcome == Err::<(), StopReason>(error) && unchanged,
                Ok(destination) => match operand_store_outcome(old_memory, destination) {
                    Err(error) => outcome == Err::<(), StopReason>(error) && unchanged,
                    Ok(()) => outcome is Ok && stored(
                        cpu,
                        memory,
                        entered(old),
                        old_memory,
                        destination,
                        (old.mmx.registers@[index] % 0x1_0000_0000) as u32,
                    ),
                },
            },
        }
    } else if code == codes::MOVQ_MM_MMM64 {
        match mmx_source(old, old_memory, instruction) {
            Err(error) => outcome == Err::<(), StopReason>(error) && unchanged,
            Ok(value) => match mmx_register(instruction.operands.register0) {
                None => refused,
                Some(index) => outcome is Ok && memory == old_memory && mmx_set(
                    cpu,
                    old,
                    index,
                    value,
                ),
            },
        }
    } else if code == codes::MOVQ_MMM64_MM {
        match mmx_register(instruction.operands.register1) {
            None => refused,
            Some(index) => {
                let value = old.mmx.registers@[index];
                if instruction.operands.kind0 == codes::KIND_REGISTER {
                    match mmx_register(instruction.operands.register0) {
                        None => refused,
                        Some(target) => outcome is Ok && memory == old_memory && mmx_set(
                            cpu,
                            old,
                            target,
                            value,
                        ),
                    }
                } else {
                    match mmx_location(old, instruction, 8) {
                        Err(error) => outcome == Err::<(), StopReason>(error) && unchanged,
                        Ok(address) => match old_memory.access(address as u64, 8, Access::Write) {
                            Err(error) => outcome == Err::<(), StopReason>(
                                StopReason::MemoryFault(error),
                            ) && unchanged,
                            Ok(()) => {
                                &&& outcome is Ok
                                &&& cpu == entered(old)
                                &&& memory.wf()
                                &&& memory.wrote(
                                    old_memory,
                                    address as int,
                                    le_bytes(value as int, 8),
                                )
                            },
                        },
                    }
                }
            },
        }
    } else {
        match mmx_register(instruction.operands.register0) {
            None => refused,
            Some(index) => {
                let left = old.mmx.registers@[index];
                match mmx_source(old, old_memory, instruction) {
                    Err(error) => outcome == Err::<(), StopReason>(error) && unchanged,
                    Ok(right) => {
                        let operation = instruction.head.mnemonic;
                        ||| outcome is Err && unchanged && executed(
                            operation,
                            left,
                            right,
                            Err(outcome->Err_0),
                        )
                        ||| outcome is Ok && memory == old_memory && mmx_set(
                            cpu,
                            old,
                            index,
                            cpu.mmx.registers@[index],
                        ) && executed(operation, left, right, Ok(cpu.mmx.registers@[index]))
                    },
                }
            },
        }
    }
}

/// Reads `size` bytes (4 or 8) at `address` as a little-endian value.
fn load(memory: &GuestMemory, address: u32, size: usize) -> (value: Result<u64, StopReason>)
    requires
        memory.wf(),
        size == 4 || size == 8,
    ensures
        value matches Err(reason) ==> reason.is_fault(),
        value == mmx_load(*memory, address, size as int),
{
    let mut buffer = vec![0u8; size];
    match memory.read(address as u64, buffer.as_mut_slice()) {
        Err(error) => return Err(StopReason::MemoryFault(error)),
        Ok(()) => {},
    }
    proof {
        lemma_bytes_bound(*memory, address as int, size as int);
        lemma_power_values();
    }
    let mut value: u64 = 0;
    let mut i: usize = size;
    while i > 0
        invariant
            i <= size,
            size == 4 || size == 8,
            buffer@.len() == size,
            forall|k: int| 0 <= k < size ==> buffer@[k] == #[trigger] memory.byte(address + k),
            value == bytes_value(*memory, address + i, size - i),
        decreases i,
    {
        i = i - 1;
        proof {
            lemma_bytes_bound(*memory, address + i + 1, size - i - 1);
            lemma_bytes_bound(*memory, address + i, size - i);
            assert(buffer@[i as int] == memory.byte(address + i));
            lemma_power_grows(size - i, 8);
            lemma_power_values();
        }
        value = value * 256 + buffer[i] as u64;
    }
    Ok(value)
}

/// 256 to the fourth and eighth powers.
proof fn lemma_power_values()
    ensures
        power256(4) == 0x1_0000_0000,
        power256(8) == 0x1_0000_0000_0000_0000,
{
    assert(power256(0) == 1);
    assert(power256(1) == 0x100);
    assert(power256(2) == 0x1_0000);
    assert(power256(3) == 0x100_0000);
    assert(power256(4) == 0x1_0000_0000);
    assert(power256(5) == 0x100_0000_0000);
    assert(power256(6) == 0x1_0000_0000_0000);
    assert(power256(7) == 0x100_0000_0000_0000);
}

/// Powers of 256 grow with the exponent.
proof fn lemma_power_grows(low: int, high: int)
    requires
        0 <= low <= high,
    ensures
        power256(low) <= power256(high),
    decreases high - low,
{
    if low < high {
        lemma_power_grows(low, high - 1);
        lemma_power_positive(high - 1);
    }
}

/// Powers of 256 are positive.
proof fn lemma_power_positive(count: int)
    ensures
        power256(count) >= 1,
    decreases count,
{
    if count > 0 {
        lemma_power_positive(count - 1);
    }
}

/// `count` little-endian bytes are `count` bytes.
proof fn lemma_le_bytes_length(value: int, count: int)
    requires
        count >= 0,
    ensures
        le_bytes(value, count).len() == count,
    decreases count,
{
    if count > 0 {
        lemma_le_bytes_length(value / 256, count - 1);
    }
}

/// The eight little-endian bytes of `value`.
fn quad_bytes(value: u64) -> (bytes: Vec<u8>)
    ensures
        bytes@ == le_bytes(value as int, 8),
        bytes@.len() == 8,
{
    proof {
        lemma_le_bytes_length(value as int, 8);
    }
    let mut bytes: Vec<u8> = Vec::new();
    let mut remaining = value;
    let mut k: usize = 0;
    while k < 8
        invariant
            k <= 8,
            bytes@ + le_bytes(remaining as int, 8 - k) == le_bytes(value as int, 8),
        decreases 8 - k,
    {
        let ghost before = bytes@;
        bytes.push((remaining % 256) as u8);
        assert(le_bytes(remaining as int, 8 - k) == seq![(remaining % 256) as u8] + le_bytes(
            (remaining / 256) as int,
            8 - k - 1,
        ));
        assert(bytes@ + le_bytes((remaining / 256) as int, 8 - k - 1) =~= before + le_bytes(
            remaining as int,
            8 - k,
        ));
        remaining = remaining / 256;
        k = k + 1;
    }
    assert(le_bytes(remaining as int, 0) =~= Seq::<u8>::empty());
    assert(bytes@ =~= le_bytes(value as int, 8));
    bytes
}

impl Cpu32 {
    /// The address of the memory operand for an access of `size` bytes.
    fn mmx_address(&self, instruction: &Instruction, size: u32) -> (address: Result<u32, StopReason>)
        requires
            size == 4 || size == 8,
        ensures
            address matches Err(reason) ==> reason.is_fault(),
            address == mmx_location(*self, *instruction, size as int),
    {
        let offset = self.effective_address(instruction)?;
        let base = if instruction.memory.segment == codes::REG_FS {
            self.fs_base
        } else {
            0
        };
        let address = base.wrapping_add(offset);
        if address > u32::MAX - (size - 1) {
            return Err(StopReason::MemoryFault(MemoryError::AddressOverflow));
        }
        Ok(address)
    }

    /// The source operand of an MMX instruction.
    fn mmx_operand(&self, instruction: &Instruction, memory: &GuestMemory) -> (value: Result<
        u64,
        StopReason,
    >)
        requires
            memory.wf(),
        ensures
            value matches Err(reason) ==> reason.is_fault(),
            value == mmx_source(*self, *memory, *instruction),
    {
        let kind = instruction.operands.kind1;
        let code = instruction.head.code;
        if kind == codes::KIND_REGISTER {
            let index = mmx_index(instruction.operands.register1)?;
            Ok(self.mmx.registers[index])
        } else if kind == codes::KIND_IMMEDIATE8 {
            Ok((instruction.operands.immediate & 0xff) as u64)
        } else if kind == codes::KIND_MEMORY {
            let size: u32 = if code == codes::PUNPCKLBW_MM_MMM32 || code
                == codes::PUNPCKLWD_MM_MMM32 || code == codes::PUNPCKLDQ_MM_MMM32 {
                4
            } else {
                8
            };
            let address = self.mmx_address(instruction, size)?;
            load(memory, address, size as usize)
        } else {
            Err(StopReason::UnsupportedInstruction)
        }
    }

    /// Sets MMX register `index` to `value` and claims the register file.
    fn mmx_put(&mut self, index: usize, value: u64)
        requires
            index < 8,
        ensures
            mmx_set(*final(self), *old(self), index as int, value),
    {
        self.mmx.registers.set(index, value);
        self.mmx.active = true;
    }

    /// Executes one MMX instruction.
    pub fn mmx_instruction(&mut self, instruction: &Instruction, memory: &mut GuestMemory) -> (outcome:
        Result<(), StopReason>)
        requires
            old(memory).wf(),
        ensures
            outcome matches Err(reason) ==> reason.is_fault(),
            final(memory).wf(),
            mmx_effect(*old(self), *old(memory), *instruction, *final(self), *final(memory), outcome),
    {
        let code = instruction.head.code;
        if code == codes::EMMS {
            self.mmx.active = false;
            return Ok(());
        }
        if code == codes::MOVD_MM_RM32 {
            let source = self.operand(instruction, 1)?;
            let value = self.read_operand(source, memory)?;
            let index = mmx_index(instruction.operands.register0)?;
            self.mmx_put(index, value as u64);
        } else if code == codes::MOVD_RM32_MM {
            let index = mmx_index(instruction.operands.register1)?;
            let value = self.mmx.registers[index];
            let destination = self.operand(instruction, 0)?;
            let low = (value % 0x1_0000_0000) as u32;
            let was_active = self.mmx.active;
            self.mmx.active = true;
            match self.write_operand(destination, low, memory) {
                Ok(()) => {},
                Err(error) => {
                    self.mmx.active = was_active;
                    return Err(error);
                },
            }
        } else if code == codes::MOVQ_MM_MMM64 {
            let value = self.mmx_operand(instruction, memory)?;
            let index = mmx_index(instruction.operands.register0)?;
            self.mmx_put(index, value);
        } else if code == codes::MOVQ_MMM64_MM {
            let index = mmx_index(instruction.operands.register1)?;
            let value = self.mmx.registers[index];
            if instruction.operands.kind0 == codes::KIND_REGISTER {
                let target = mmx_index(instruction.operands.register0)?;
                self.mmx_put(target, value);
            } else {
                let address = self.mmx_address(instruction, 8)?;
                let bytes = quad_bytes(value);
                match memory.write(address as u64, bytes.as_slice()) {
                    Err(error) => return Err(StopReason::MemoryFault(error)),
                    Ok(()) => {},
                }
                self.mmx.active = true;
            }
        } else {
            let index = mmx_index(instruction.operands.register0)?;
            let left = self.mmx.registers[index];
            let right = self.mmx_operand(instruction, memory)?;
            let result = super::packed::execute(instruction.head.mnemonic, left, right)?;
            self.mmx_put(index, result);
        }
        Ok(())
    }
}

} // verus!
