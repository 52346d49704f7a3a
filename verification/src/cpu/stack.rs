//! The stack: pushes and pops, calls and returns, `leave`.
use super::all_registers::registers_moved;
use super::codes;
use super::decoding::Instruction;
use super::operands::{
    lemma_operand_fits, operand_at, operand_value, read_value, register32, register32_at,
    store_outcome, value_bytes, value_outcome, write_value, Width,
};
use super::{wrapped, Cpu32, Register32, StopReason};
use crate::memory::{Access, GuestMemory, MemoryError};
use vstd::prelude::*;

verus! {

/// `(cpu, memory)` follows `(old, old_memory)` by pushing `value`: the dword is
/// stored just below `esp`, which then points at it.
pub open spec fn pushed(
    cpu: Cpu32,
    memory: GuestMemory,
    old: Cpu32,
    old_memory: GuestMemory,
    value: u32,
) -> bool {
    let address = wrapped(old.reg(Register32::Esp) - 4);
    &&& memory.wf()
    &&& memory.wrote(old_memory, address as int, value_bytes(value, 4))
    &&& cpu.register_set(old, Register32::Esp, address)
}

/// A push of `value` answered with `success` when it can be stored.
pub open spec fn push_effect(
    old: Cpu32,
    old_memory: GuestMemory,
    value: u32,
    cpu: Cpu32,
    memory: GuestMemory,
    outcome: Result<u32, StopReason>,
    success: u32,
) -> bool {
    match store_outcome(old_memory, wrapped(old.reg(Register32::Esp) - 4), 4) {
        Err(error) => outcome == Err::<u32, StopReason>(error) && cpu == old && memory == old_memory,
        Ok(()) => outcome == Ok::<u32, StopReason>(success) && pushed(
            cpu,
            memory,
            old,
            old_memory,
            value,
        ),
    }
}

/// `cpu` is `old` after a pop into `register` of `value`: `esp` moves up four
/// bytes first, so popping into `esp` keeps the popped value.
pub open spec fn popped_into(cpu: Cpu32, old: Cpu32, register: Register32, value: u32) -> bool {
    let stack = wrapped(old.reg(Register32::Esp) + 4);
    &&& cpu.reg(register) == value
    &&& forall|other: Register32|
        other != register ==> #[trigger] cpu.reg(other) == if other == Register32::Esp {
            stack
        } else {
            old.reg(other)
        }
    &&& cpu.fs_base == old.fs_base
    &&& cpu.x87_control_word == old.x87_control_word
    &&& cpu.mmx == old.mmx
    &&& cpu.eip == old.eip
    &&& cpu.eflags == old.eflags
}

/// `cpu` is `old` after `leave` from the frame at `frame`: `esp` just above the
/// frame's saved pointer, and `ebp` that saved pointer.
pub open spec fn frame_left(cpu: Cpu32, old: Cpu32, frame: u32, saved: u32) -> bool {
    &&& cpu.reg(Register32::Esp) == wrapped(frame + 4)
    &&& cpu.reg(Register32::Ebp) == saved
    &&& forall|other: Register32|
        other != Register32::Esp && other != Register32::Ebp ==> #[trigger] cpu.reg(other)
            == old.reg(other)
    &&& cpu.fs_base == old.fs_base
    &&& cpu.x87_control_word == old.x87_control_word
    &&& cpu.mmx == old.mmx
    &&& cpu.eip == old.eip
    &&& cpu.eflags == old.eflags
}

/// The value of the first operand of `instruction`.
pub open spec fn first_value(cpu: Cpu32, memory: GuestMemory, instruction: Instruction) -> Result<
    u32,
    StopReason,
> {
    match operand_at(cpu, instruction, 0) {
        Err(error) => Err(error),
        Ok(operand) => operand_value(cpu, memory, operand),
    }
}

/// Whether `code` is one of the single-value stack forms handled here.
pub open spec fn is_push(code: u16) -> bool {
    code == codes::PUSH_R32 || code == codes::PUSHD_IMM32 || code == codes::PUSHD_IMM8 || code
        == codes::PUSH_RM32
}

/// What a push, pop, call, indirect jump, return or `leave` does, and where
/// execution continues.
pub open spec fn stack_effect(
    old: Cpu32,
    old_memory: GuestMemory,
    instruction: Instruction,
    cpu: Cpu32,
    memory: GuestMemory,
    outcome: Result<u32, StopReason>,
) -> bool {
    let code = instruction.head.code;
    let next = instruction.head.next_ip;
    let unchanged = cpu == old && memory == old_memory;
    let esp = old.reg(Register32::Esp);
    if code == codes::PUSHAW || code == codes::PUSHAD || code == codes::POPAW || code
        == codes::POPAD {
        match outcome {
            Ok(target) => target == next && registers_moved(
                old,
                old_memory,
                code,
                cpu,
                memory,
                Ok(()),
            ),
            Err(error) => registers_moved(old, old_memory, code, cpu, memory, Err(error)),
        }
    } else if is_push(code) {
        match first_value(old, old_memory, instruction) {
            Err(error) => outcome == Err::<u32, StopReason>(error) && unchanged,
            Ok(value) => push_effect(old, old_memory, value, cpu, memory, outcome, next),
        }
    } else if (code == codes::POP_R32 || code == codes::POP_RM32) && instruction.operands.kind0
        == codes::KIND_REGISTER {
        let register = instruction.operands.register0;
        if !(codes::REG_EAX <= register <= codes::REG_EDI) {
            outcome == Err::<u32, StopReason>(StopReason::UnsupportedInstruction) && unchanged
        } else {
            match value_outcome(old_memory, esp, 4) {
                Err(error) => outcome == Err::<u32, StopReason>(error) && unchanged,
                Ok(value) => outcome == Ok::<u32, StopReason>(next) && memory == old_memory
                    && popped_into(cpu, old, register32_at(register - codes::REG_EAX), value),
            }
        }
    } else if code == codes::CALL_REL32_32 || code == codes::CALL_RM32 {
        let target = if code == codes::CALL_REL32_32 {
            Ok(instruction.operands.target)
        } else {
            first_value(old, old_memory, instruction)
        };
        match target {
            Err(error) => outcome == Err::<u32, StopReason>(error) && unchanged,
            Ok(target) => push_effect(old, old_memory, next, cpu, memory, outcome, target),
        }
    } else if code == codes::JMP_RM32 {
        outcome == first_value(old, old_memory, instruction) && unchanged
    } else if code == codes::RETND || code == codes::RETND_IMM16 {
        let release: int = if code == codes::RETND_IMM16 {
            (instruction.operands.immediate & 0xffff) as int
        } else {
            0
        };
        match value_outcome(old_memory, esp, 4) {
            Err(error) => outcome == Err::<u32, StopReason>(error) && unchanged,
            Ok(target) => outcome == Ok::<u32, StopReason>(target) && memory == old_memory
                && cpu.register_set(old, Register32::Esp, wrapped(esp + 4 + release)),
        }
    } else if code == codes::LEAVED {
        let frame = old.reg(Register32::Ebp);
        match value_outcome(old_memory, frame, 4) {
            Err(error) => outcome == Err::<u32, StopReason>(error) && unchanged,
            Ok(saved) => outcome == Ok::<u32, StopReason>(next) && memory == old_memory
                && frame_left(cpu, old, frame, saved),
        }
    } else {
        outcome == Err::<u32, StopReason>(StopReason::UnsupportedInstruction) && unchanged
    }
}

impl Cpu32 {
    /// Pushes `value`.
    fn push(&mut self, memory: &mut GuestMemory, value: u32) -> (outcome: Result<(), StopReason>)
        requires
            old(memory).wf(),
        ensures
            outcome matches Err(reason) ==> reason.is_fault(),
            final(memory).wf(),
            outcome == store_outcome(*old(memory), wrapped(old(self).reg(Register32::Esp) - 4), 4),
            outcome is Ok ==> pushed(*final(self), *final(memory), *old(self), *old(memory), value),
            outcome is Err ==> *final(self) == *old(self) && *final(memory) == *old(memory),
    {
        let address = self.register(Register32::Esp).wrapping_sub(4);
        write_value(memory, address, Width::Dword, value)?;
        self.set_register(Register32::Esp, address);
        Ok(())
    }

    /// Pops a dword.
    fn pop(&mut self, memory: &GuestMemory) -> (value: Result<u32, StopReason>)
        requires
            memory.wf(),
        ensures
            value matches Err(reason) ==> reason.is_fault(),
            value == value_outcome(*memory, old(self).reg(Register32::Esp), 4),
            value is Ok ==> final(self).register_set(
                *old(self),
                Register32::Esp,
                wrapped(old(self).reg(Register32::Esp) + 4),
            ),
            value is Err ==> *final(self) == *old(self),
    {
        let address = self.register(Register32::Esp);
        let value = read_value(memory, address, Width::Dword)?;
        self.set_register(Register32::Esp, address.wrapping_add(4));
        Ok(value)
    }

    /// Executes a push, pop, call, indirect jump, return or `leave`, and gives
    /// the address at which execution continues.
    pub fn stack_instruction(&mut self, instruction: &Instruction, memory: &mut GuestMemory) -> (outcome:
        Result<u32, StopReason>)
        requires
            old(memory).wf(),
        ensures
            outcome matches Err(reason) ==> reason.is_fault(),
            final(memory).wf(),
            stack_effect(*old(self), *old(memory), *instruction, *final(self), *final(memory), outcome),
    {
        let code = instruction.head.code;
        let next = instruction.head.next_ip;
        if code == codes::PUSHAW || code == codes::PUSHAD || code == codes::POPAW || code
            == codes::POPAD {
            self.register_stack(code, memory)?;
            Ok(next)
        } else if code == codes::PUSH_R32 || code == codes::PUSHD_IMM32 || code == codes::PUSHD_IMM8 || code
            == codes::PUSH_RM32 {
            let operand = self.operand(instruction, 0)?;
            let value = self.read_operand(operand, memory)?;
            self.push(memory, value)?;
            Ok(next)
        } else if (code == codes::POP_R32 || code == codes::POP_RM32) && instruction.operands.kind0
            == codes::KIND_REGISTER {
            let register = register32(instruction.operands.register0)?;
            let value = self.pop(memory)?;
            self.set_register(register, value);
            Ok(next)
        } else if code == codes::CALL_REL32_32 || code == codes::CALL_RM32 {
            let target = if code == codes::CALL_REL32_32 {
                instruction.operands.target
            } else {
                let operand = self.operand(instruction, 0)?;
                self.read_operand(operand, memory)?
            };
            self.push(memory, next)?;
            Ok(target)
        } else if code == codes::JMP_RM32 {
            let operand = self.operand(instruction, 0)?;
            self.read_operand(operand, memory)
        } else if code == codes::RETND || code == codes::RETND_IMM16 {
            let target = self.pop(memory)?;
            if code == codes::RETND_IMM16 {
                let release = instruction.operands.immediate & 0xffff;
                let stack = self.register(Register32::Esp);
                self.set_register(Register32::Esp, stack.wrapping_add(release));
            }
            Ok(target)
        } else if code == codes::LEAVED {
            let frame = self.register(Register32::Ebp);
            let saved = read_value(memory, frame, Width::Dword)?;
            self.set_register(Register32::Esp, frame.wrapping_add(4));
            self.set_register(Register32::Ebp, saved);
            Ok(next)
        } else {
            Err(StopReason::UnsupportedInstruction)
        }
    }
}

} // verus!

verus! {

/// The four little-endian bytes of a dword put back together give the dword.
pub proof fn lemma_value_bytes_reassemble(value: u32)
    ensures
        value_bytes(value, 4)[0] + 256 * value_bytes(value, 4)[1] + 65536 * value_bytes(value, 4)[2]
            + 16777216 * value_bytes(value, 4)[3] == value,
{
    assert(value == (value % 256) + 256 * ((value / 256) % 256) + 65536 * ((value / 65536) % 256)
        + 16777216 * ((value / 16777216) % 256)) by (bit_vector);
}

/// What a pop gives back of a push: right after pushing `value`, the dword at
/// `esp` is `value` (where the stack can be read), and popping it moves `esp`
/// back to where it was.
pub proof fn law_pop_returns_push(
    old: Cpu32,
    old_memory: GuestMemory,
    cpu: Cpu32,
    memory: GuestMemory,
    value: u32,
)
    requires
        pushed(cpu, memory, old, old_memory, value),
        store_outcome(old_memory, wrapped(old.reg(Register32::Esp) - 4), 4) is Ok,
        old_memory.access(wrapped(old.reg(Register32::Esp) - 4) as u64, 4, Access::Read) is Ok,
    ensures
        value_outcome(memory, cpu.reg(Register32::Esp), 4) == Ok::<u32, StopReason>(value),
        wrapped(cpu.reg(Register32::Esp) + 4) == old.reg(Register32::Esp),
{
    let address = wrapped(old.reg(Register32::Esp) - 4);
    crate::memory::law_read_back_write(old_memory, memory, address as u64, value_bytes(value, 4));
    assert(memory.byte(address + 0) == value_bytes(value, 4)[0]);
    assert(memory.byte(address + 1) == value_bytes(value, 4)[1]);
    assert(memory.byte(address + 2) == value_bytes(value, 4)[2]);
    assert(memory.byte(address + 3) == value_bytes(value, 4)[3]);
    lemma_value_bytes_reassemble(value);
}

} // verus!
