//! One instruction at a time: prefix checks, dispatch on the instruction form,
//! and the moves, `lea`, `not` and `neg` that need no module of their own.
use super::all_registers::registers_moved;
use super::arithmetic::{
    binary_effect, increment_effect, multiply_effect, subtract_wrapping, wrap, wrote_with_flags,
};
use super::branches::conditional_effect;
use super::codes;
use super::decoding::Instruction;
use super::flags::{overflows, status_flags, status_set};
use super::forms;
use super::identification::identified;
use super::operands::{
    effective_offset, lemma_operand_fits, operand_at, operand_store_outcome, operand_value,
    register32, register32_at, stored, Width,
};
use super::mmx::mmx_effect;
use super::packed::{is_instruction, mmx_form};
use super::shifts::shift_effect;
use super::stack::stack_effect;
use super::strings::{move_effect, repeatable, scan_effect, supports_repeat};
use super::x87::control_effect;
use super::{Cpu32, StopReason};
use crate::memory::GuestMemory;
use vstd::prelude::*;

verus! {

/// `value` of `width` sign-extended to 32 bits.
pub open spec fn sign_extended(value: u32, width: Width) -> u32 {
    if value & width.spec_sign_bit() != 0 {
        value | !width.spec_mask()
    } else {
        value
    }
}

/// What a `mov`, `movzx` or `movsx` does.
pub open spec fn transfer_effect(
    old: Cpu32,
    old_memory: GuestMemory,
    instruction: Instruction,
    cpu: Cpu32,
    memory: GuestMemory,
    outcome: Result<(), StopReason>,
) -> bool {
    let unchanged = cpu == old && memory == old_memory;
    match operand_at(old, instruction, 0) {
        Err(error) => outcome == Err::<(), StopReason>(error) && unchanged,
        Ok(destination) => match operand_at(old, instruction, 1) {
            Err(error) => outcome == Err::<(), StopReason>(error) && unchanged,
            Ok(source) => match operand_value(old, old_memory, source) {
                Err(error) => outcome == Err::<(), StopReason>(error) && unchanged,
                Ok(raw) => {
                    let value = if instruction.head.mnemonic == codes::OP_MOVSX {
                        sign_extended(raw, source.width)
                    } else {
                        raw
                    };
                    match operand_store_outcome(old_memory, destination) {
                        Err(error) => outcome == Err::<(), StopReason>(error) && unchanged,
                        Ok(()) => outcome is Ok && stored(
                            cpu,
                            memory,
                            old,
                            old_memory,
                            destination,
                            value,
                        ),
                    }
                },
            },
        },
    }
}

/// What `lea` does: the offset of its memory operand goes to a 32-bit register.
pub open spec fn address_effect(
    old: Cpu32,
    old_memory: GuestMemory,
    instruction: Instruction,
    cpu: Cpu32,
    memory: GuestMemory,
    outcome: Result<(), StopReason>,
) -> bool {
    let unchanged = cpu == old && memory == old_memory;
    let register = instruction.operands.register0;
    if !(codes::REG_EAX <= register <= codes::REG_EDI) {
        outcome == Err::<(), StopReason>(StopReason::UnsupportedInstruction) && unchanged
    } else {
        match effective_offset(old, instruction) {
            Err(error) => outcome == Err::<(), StopReason>(error) && unchanged,
            Ok(offset) => outcome is Ok && memory == old_memory && cpu.register_set(
                old,
                register32_at(register - codes::REG_EAX),
                offset,
            ),
        }
    }
}

/// What `not` (when `negate` is false) or `neg` does.
pub open spec fn unary_effect(
    old: Cpu32,
    old_memory: GuestMemory,
    instruction: Instruction,
    negate: bool,
    cpu: Cpu32,
    memory: GuestMemory,
    outcome: Result<(), StopReason>,
) -> bool {
    let unchanged = cpu == old && memory == old_memory;
    match operand_at(old, instruction, 0) {
        Err(error) => outcome == Err::<(), StopReason>(error) && unchanged,
        Ok(destination) => match operand_value(old, old_memory, destination) {
            Err(error) => outcome == Err::<(), StopReason>(error) && unchanged,
            Ok(input) => {
                let width = destination.width;
                let result = if negate {
                    wrap(0 - input, width)
                } else {
                    !input & width.spec_mask()
                };
                match operand_store_outcome(old_memory, destination) {
                    Err(error) => outcome == Err::<(), StopReason>(error) && unchanged,
                    Ok(()) => {
                        &&& outcome is Ok
                        &&& wrote_with_flags(cpu, memory, old, old_memory, destination, result, true)
                        &&& if negate {
                            status_set(
                                cpu.eflags,
                                old.eflags,
                                input != 0,
                                (0 ^ input ^ result) & 0x10 != 0,
                                overflows(0, input, result, true, width),
                                result,
                                width,
                            )
                        } else {
                            cpu.eflags == old.eflags
                        }
                    },
                }
            },
        }
    }
}

/// Whether the prefixes of `instruction` are refused: `lock`, a repeat prefix
/// outside the string instructions, or a segment override other than `fs`.
pub open spec fn refused_prefixes(instruction: Instruction) -> bool {
    ||| instruction.memory.lock
    ||| (instruction.memory.rep || instruction.memory.repne) && !repeatable(
        instruction.head.code,
    )
    ||| instruction.memory.segment_prefix != codes::REG_NONE && instruction.memory.segment_prefix
        != codes::REG_FS
}

/// What executing `instruction` does to `(old, old_memory)`, giving
/// `(cpu, memory)`: on success `eip` moves to where execution continues and the
/// result tells whether the instruction was a breakpoint; on failure nothing
/// changes.
pub open spec fn step_effect(
    old: Cpu32,
    old_memory: GuestMemory,
    instruction: Instruction,
    cpu: Cpu32,
    memory: GuestMemory,
    outcome: Result<bool, StopReason>,
) -> bool {
    let code = instruction.head.code;
    let next = instruction.head.next_ip;
    let inner = Cpu32 { eip: old.eip, ..cpu };
    let done: Result<(), StopReason> = match outcome {
        Ok(_) => Ok(()),
        Err(error) => Err(error),
    };
    let continued: Result<u32, StopReason> = match outcome {
        Ok(_) => Ok(cpu.eip),
        Err(error) => Err(error),
    };
    let moves_on = outcome is Ok ==> cpu.eip == next;
    &&& outcome is Ok ==> outcome == Ok::<bool, StopReason>(code == codes::INT3)
    &&& outcome is Err ==> cpu == old && memory == old_memory
    &&& if refused_prefixes(instruction) {
        outcome == Err::<bool, StopReason>(StopReason::UnsupportedInstruction)
    } else if code == codes::CPUID {
        outcome is Ok && memory == old_memory && identified(inner, old) && moves_on
    } else if forms::form_move(code) {
        transfer_effect(old, old_memory, instruction, inner, memory, done) && moves_on
    } else if code == codes::LEA_R32_M {
        address_effect(old, old_memory, instruction, inner, memory, done) && moves_on
    } else if forms::form_binary(code) || forms::form_sbb(code) {
        binary_effect(old, old_memory, instruction, inner, memory, done) && moves_on
    } else if forms::form_complement(code) {
        unary_effect(old, old_memory, instruction, false, inner, memory, done) && moves_on
    } else if forms::form_negate(code) {
        unary_effect(old, old_memory, instruction, true, inner, memory, done) && moves_on
    } else if forms::form_shift(code) {
        shift_effect(old, old_memory, instruction, inner, memory, done) && moves_on
    } else if forms::form_multiply(code) {
        multiply_effect(old, old_memory, instruction, inner, memory, done) && moves_on
    } else if forms::form_increment(code) {
        increment_effect(old, old_memory, instruction, inner, memory, done) && moves_on
    } else if forms::form_stack(code) {
        stack_effect(old, old_memory, instruction, inner, memory, continued)
    } else if forms::form_direct_jump(code) {
        outcome is Ok && inner == old && memory == old_memory && cpu.eip
            == instruction.operands.target
    } else if forms::form_string_move(code) {
        move_effect(old, old_memory, instruction, inner, memory, continued)
    } else if forms::form_scan(code) {
        scan_effect(old, old_memory, instruction, inner, continued) && memory == old_memory
    } else if forms::form_control_word(code) {
        control_effect(old, old_memory, instruction, inner, memory, done) && moves_on
    } else if mmx_form(code) {
        mmx_effect(old, old_memory, instruction, inner, memory, done) && moves_on
    } else if code == codes::NOPD || code == codes::INT3 {
        outcome is Ok && inner == old && memory == old_memory && moves_on
    } else {
        conditional_effect(old, old_memory, instruction, inner, memory, continued)
    }
}

/// `value` of `width` sign-extended to 32 bits.
fn extend_sign(value: u32, width: Width) -> (extended: u32)
    ensures
        extended == sign_extended(value, width),
{
    if value & width.sign_bit() != 0 {
        value | !width.mask()
    } else {
        value
    }
}

impl Cpu32 {
    /// Executes a `mov`, `movzx` or `movsx`.
    fn transfer(&mut self, instruction: &Instruction, memory: &mut GuestMemory) -> (outcome: Result<
        (),
        StopReason,
    >)
        requires
            old(memory).wf(),
        ensures
            outcome matches Err(reason) ==> reason.is_fault(),
            final(memory).wf(),
            transfer_effect(*old(self), *old(memory), *instruction, *final(self), *final(memory), outcome),
    {
        let destination = self.operand(instruction, 0)?;
        let source = self.operand(instruction, 1)?;
        let raw = self.read_operand(source, memory)?;
        let value = if instruction.head.mnemonic == codes::OP_MOVSX {
            extend_sign(raw, source.width)
        } else {
            raw
        };
        self.write_operand(destination, value, memory)
    }

    /// Executes `lea`.
    fn load_address(&mut self, instruction: &Instruction, memory: &GuestMemory) -> (outcome: Result<
        (),
        StopReason,
    >)
        ensures
            outcome matches Err(reason) ==> reason.is_fault(),
            address_effect(*old(self), *memory, *instruction, *final(self), *memory, outcome),
    {
        let destination = register32(instruction.operands.register0)?;
        let offset = self.effective_address(instruction)?;
        self.set_register(destination, offset);
        Ok(())
    }

    /// Executes `not` or, when `negate` is set, `neg`.
    fn unary(&mut self, instruction: &Instruction, negate: bool, memory: &mut GuestMemory) -> (outcome:
        Result<(), StopReason>)
        requires
            old(memory).wf(),
        ensures
            outcome matches Err(reason) ==> reason.is_fault(),
            final(memory).wf(),
            unary_effect(
                *old(self),
                *old(memory),
                *instruction,
                negate,
                *final(self),
                *final(memory),
                outcome,
            ),
    {
        let destination = self.operand(instruction, 0)?;
        let input = self.read_operand(destination, memory)?;
        proof {
            lemma_operand_fits(*self, *memory, destination);
        }
        let width = destination.width;
        if negate {
            let (result, _) = subtract_wrapping(0, input, 0, width);
            self.write_operand(destination, result, memory)?;
            self.eflags = status_flags(self.eflags, 0, input, result, input != 0, true, width);
        } else {
            self.write_operand(destination, !input & width.mask(), memory)?;
        }
        Ok(())
    }

    /// Executes one decoded instruction and moves `eip` on; the result tells
    /// whether it was a breakpoint (`int3`). On failure the processor and
    /// memory are left as they were.
    pub fn execute(&mut self, instruction: &Instruction, memory: &mut GuestMemory) -> (outcome: Result<
        bool,
        StopReason,
    >)
        requires
            old(memory).wf(),
        ensures
            final(memory).wf(),
            step_effect(*old(self), *old(memory), *instruction, *final(self), *final(memory), outcome),
            outcome matches Err(reason) ==> reason.is_fault(),
    {
        let prefixes = instruction.memory;
        if prefixes.lock || ((prefixes.rep || prefixes.repne) && !supports_repeat(instruction)) || (
        prefixes.segment_prefix != codes::REG_NONE && prefixes.segment_prefix != codes::REG_FS) {
            return Err(StopReason::UnsupportedInstruction);
        }
        let code = instruction.head.code;
        let mut next = instruction.head.next_ip;
        if code == codes::CPUID {
            self.identify();
        } else if forms::is_move(code) {
            self.transfer(instruction, memory)?;
        } else if code == codes::LEA_R32_M {
            self.load_address(instruction, memory)?;
        } else if forms::is_binary(code) || forms::is_sbb(code) {
            self.binary(instruction, memory)?;
        } else if forms::is_complement(code) {
            self.unary(instruction, false, memory)?;
        } else if forms::is_negate(code) {
            self.unary(instruction, true, memory)?;
        } else if forms::is_shift(code) {
            self.shift(instruction, memory)?;
        } else if forms::is_multiply(code) {
            self.multiply(instruction, memory)?;
        } else if forms::is_increment(code) {
            self.increment(instruction, memory)?;
        } else if forms::is_stack(code) {
            next = self.stack_instruction(instruction, memory)?;
        } else if forms::is_direct_jump(code) {
            next = instruction.operands.target;
        } else if forms::is_string_move(code) {
            next = self.move_string(instruction, memory)?;
        } else if forms::is_scan(code) {
            next = self.scan_string(instruction, memory)?;
        } else if forms::is_control_word(code) {
            self.x87_control(instruction, memory)?;
        } else if is_instruction(code) {
            self.mmx_instruction(instruction, memory)?;
        } else if code == codes::NOPD || code == codes::INT3 {
        } else {
            next = self.conditional_instruction(instruction, memory)?;
        }
        self.eip = next;
        Ok(code == codes::INT3)
    }
}

} // verus!
