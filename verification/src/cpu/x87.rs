//! The x87 control word: `fldcw` loads it from memory, `fnstcw` stores it.
use super::codes;
use super::decoding::Instruction;
use super::operands::{
    operand_at, read_value, store_outcome, value_bytes, value_outcome, write_value, Location, Width,
};
use super::{Cpu32, StopReason};
use crate::memory::GuestMemory;
use vstd::prelude::*;

verus! {

/// What `fldcw` or `fnstcw` does: its operand must be a word of memory.
pub open spec fn control_effect(
    old: Cpu32,
    old_memory: GuestMemory,
    instruction: Instruction,
    cpu: Cpu32,
    memory: GuestMemory,
    outcome: Result<(), StopReason>,
) -> bool {
    let unchanged = cpu == old && memory == old_memory;
    match operand_at(old, instruction, 0) {
        Err(error) => outcome == Err::<(), StopReason>(error) && unchanged,
        Ok(operand) => match operand.location {
            Location::Memory(address) => if instruction.head.code == codes::FLDCW_M2BYTE {
                match value_outcome(old_memory, address, 2) {
                    Err(error) => outcome == Err::<(), StopReason>(error) && unchanged,
                    Ok(word) => outcome is Ok && memory == old_memory && cpu == Cpu32 {
                        x87_control_word: word as u16,
                        ..old
                    },
                }
            } else {
                match store_outcome(old_memory, address, 2) {
                    Err(error) => outcome == Err::<(), StopReason>(error) && unchanged,
                    Ok(()) => outcome is Ok && cpu == old && memory.wf() && memory.wrote(
                        old_memory,
                        address as int,
                        value_bytes(old.x87_control_word as u32, 2),
                    ),
                }
            },
            _ => outcome == Err::<(), StopReason>(StopReason::UnsupportedInstruction) && unchanged,
        },
    }
}

impl Cpu32 {
    /// Executes `fldcw` or `fnstcw`.
    pub fn x87_control(&mut self, instruction: &Instruction, memory: &mut GuestMemory) -> (outcome:
        Result<(), StopReason>)
        requires
            old(memory).wf(),
        ensures
            outcome matches Err(reason) ==> reason.is_fault(),
            final(memory).wf(),
            control_effect(*old(self), *old(memory), *instruction, *final(self), *final(memory), outcome),
    {
        let operand = self.operand(instruction, 0)?;
        let address = match operand.location {
            Location::Memory(address) => address,
            _ => return Err(StopReason::UnsupportedInstruction),
        };
        if instruction.head.code == codes::FLDCW_M2BYTE {
            let word = read_value(memory, address, Width::Word)?;
            assert(word <= 0xffff) by {
                assert(memory.byte(address as int) <= 255);
                assert(memory.byte(address + 1) <= 255);
            }
            self.x87_control_word = word as u16;
        } else {
            write_value(memory, address, Width::Word, self.x87_control_word as u32)?;
        }
        Ok(())
    }
}

} // verus!
