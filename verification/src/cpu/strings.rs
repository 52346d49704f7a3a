//! String instructions: `movs` and `scas`, one element per step; a repeat
//! prefix makes the instruction run again until `ecx` runs out.
use super::arithmetic::{subtract_wrapping, wrap};
use super::codes;
use super::decoding::Instruction;
use super::flags::{overflows, status_flags, status_set};
use super::operands::{read_value, value_bytes, value_outcome, write_value, store_outcome, Width};
use super::{wrapped, Cpu32, Register32, StopReason};
use crate::memory::GuestMemory;
use vstd::prelude::*;

verus! {

/// The element width of a string form, if `code` is one.
pub open spec fn string_width(code: u16) -> Option<Width> {
    if code == codes::MOVSB_M8_M8 || code == codes::SCASB_AL_M8 {
        Some(Width::Byte)
    } else if code == codes::MOVSW_M16_M16 || code == codes::SCASW_AX_M16 {
        Some(Width::Word)
    } else if code == codes::MOVSD_M32_M32 || code == codes::SCASD_EAX_M32 {
        Some(Width::Dword)
    } else {
        None
    }
}

/// Whether a repeat prefix is supported on the form `code`.
pub open spec fn repeatable(code: u16) -> bool {
    string_width(code) is Some
}

/// How far a string index moves per element: up by the width, or down when
/// the direction flag is set.
pub open spec fn string_step(eflags: u32, width: Width) -> int {
    if eflags & 0x400 == 0 {
        width.size()
    } else {
        -width.size()
    }
}

/// `cpu` is `old` with `edi`, `esi` and `ecx` as given, nothing else changed.
pub open spec fn indices_set(cpu: Cpu32, old: Cpu32, edi: u32, esi: u32, ecx: u32) -> bool {
    &&& forall|register: Register32| #[trigger]
        cpu.reg(register) == if register == Register32::Edi {
            edi
        } else if register == Register32::Esi {
            esi
        } else if register == Register32::Ecx {
            ecx
        } else {
            old.reg(register)
        }
    &&& cpu.fs_base == old.fs_base
    &&& cpu.x87_control_word == old.x87_control_word
    &&& cpu.mmx == old.mmx
    &&& cpu.eip == old.eip
}

/// What one step of a `scas` does, and where execution continues: the same
/// instruction while a repeat goes on, the next one otherwise.
pub open spec fn scan_effect(
    old: Cpu32,
    memory: GuestMemory,
    instruction: Instruction,
    cpu: Cpu32,
    outcome: Result<u32, StopReason>,
) -> bool {
    let repeat = instruction.memory.rep || instruction.memory.repne;
    let count = old.reg(Register32::Ecx);
    let next = instruction.head.next_ip;
    if instruction.operands.kind1 != codes::KIND_MEMORYESEDI {
        outcome == Err::<u32, StopReason>(StopReason::UnsupportedInstruction) && cpu == old
    } else if repeat && count == 0 {
        outcome == Ok::<u32, StopReason>(next) && cpu == old
    } else {
        match string_width(instruction.head.code) {
            None => outcome == Err::<u32, StopReason>(StopReason::UnsupportedInstruction) && cpu
                == old,
            Some(width) => {
                let address = old.reg(Register32::Edi);
                match value_outcome(memory, address, width.size()) {
                    Err(error) => outcome == Err::<u32, StopReason>(error) && cpu == old,
                    Ok(right) => {
                        let left = old.reg(Register32::Eax) & width.spec_mask();
                        let result = wrap(left - right, width);
                        let again = repeat && count > 1 && if instruction.memory.repne {
                            left != right
                        } else {
                            left == right
                        };
                        &&& indices_set(
                            cpu,
                            old,
                            wrapped(address + string_step(old.eflags, width)),
                            old.reg(Register32::Esi),
                            if repeat {
                                (count - 1) as u32
                            } else {
                                count
                            },
                        )
                        &&& if again {
                            outcome == Ok::<u32, StopReason>(old.eip) && cpu.eflags == old.eflags
                        } else {
                            &&& outcome == Ok::<u32, StopReason>(next)
                            &&& status_set(
                                cpu.eflags,
                                old.eflags,
                                left < right,
                                (left ^ right ^ result) & 0x10 != 0,
                                overflows(left, right, result, true, width),
                                result,
                                width,
                            )
                        }
                    },
                }
            },
        }
    }
}

/// The flat address of the source of a `movs`: `esi` in the segment of the
/// prefix (`fs` has a base, the others are flat).
pub open spec fn move_source(cpu: Cpu32, instruction: Instruction) -> u32 {
    let base: u32 = if instruction.memory.segment_prefix == codes::REG_FS {
        cpu.fs_base
    } else {
        0
    };
    wrapped(base + cpu.reg(Register32::Esi))
}

/// What one step of a `movs` does, and where execution continues.
pub open spec fn move_effect(
    old: Cpu32,
    old_memory: GuestMemory,
    instruction: Instruction,
    cpu: Cpu32,
    memory: GuestMemory,
    outcome: Result<u32, StopReason>,
) -> bool {
    let repeat = instruction.memory.rep || instruction.memory.repne;
    let count = old.reg(Register32::Ecx);
    let next = instruction.head.next_ip;
    let unchanged = cpu == old && memory == old_memory;
    if instruction.operands.kind0 != codes::KIND_MEMORYESEDI || instruction.operands.kind1
        != codes::KIND_MEMORYSEGESI {
        outcome == Err::<u32, StopReason>(StopReason::UnsupportedInstruction) && unchanged
    } else {
        match string_width(instruction.head.code) {
            None => outcome == Err::<u32, StopReason>(StopReason::UnsupportedInstruction)
                && unchanged,
            Some(width) => if repeat && count == 0 {
                outcome == Ok::<u32, StopReason>(next) && unchanged
            } else {
                let destination = old.reg(Register32::Edi);
                let step = string_step(old.eflags, width);
                match value_outcome(old_memory, move_source(old, instruction), width.size()) {
                    Err(error) => outcome == Err::<u32, StopReason>(error) && unchanged,
                    Ok(value) => match store_outcome(old_memory, destination, width.size()) {
                        Err(error) => outcome == Err::<u32, StopReason>(error) && unchanged,
                        Ok(()) => {
                            &&& memory.wf()
                            &&& memory.wrote(
                                old_memory,
                                destination as int,
                                value_bytes(value, width.size()),
                            )
                            &&& indices_set(
                                cpu,
                                old,
                                wrapped(destination + step),
                                wrapped(old.reg(Register32::Esi) + step),
                                if repeat {
                                    (count - 1) as u32
                                } else {
                                    count
                                },
                            )
                            &&& cpu.eflags == old.eflags
                            &&& outcome == Ok::<u32, StopReason>(
                                if repeat && count > 1 {
                                    old.eip
                                } else {
                                    next
                                },
                            )
                        },
                    },
                }
            },
        }
    }
}

/// The element width of a string form.
fn width_of(code: u16) -> (width: Option<Width>)
    ensures
        width == string_width(code),
{
    if code == codes::MOVSB_M8_M8 || code == codes::SCASB_AL_M8 {
        Some(Width::Byte)
    } else if code == codes::MOVSW_M16_M16 || code == codes::SCASW_AX_M16 {
        Some(Width::Word)
    } else if code == codes::MOVSD_M32_M32 || code == codes::SCASD_EAX_M32 {
        Some(Width::Dword)
    } else {
        None
    }
}

/// Whether a repeat prefix on `instruction` is supported: it is on the
/// string moves and scans.
pub fn supports_repeat(instruction: &Instruction) -> (supported: bool)
    ensures
        supported == repeatable(instruction.head.code),
{
    width_of(instruction.head.code).is_some()
}

/// The index after one element: `index` moved by the step.
fn advance(index: u32, eflags: u32, width: Width) -> (moved: u32)
    ensures
        moved == wrapped(index + string_step(eflags, width)),
{
    if eflags & 0x400 == 0 {
        index.wrapping_add(width.bytes())
    } else {
        index.wrapping_sub(width.bytes())
    }
}

impl Cpu32 {
    /// Executes one element of a `scas`, comparing `al`, `ax` or `eax` with the
    /// element at `edi`; while a repeat goes on the flags are left for the
    /// last element, so a later fault leaves them as they were.
    pub fn scan_string(&mut self, instruction: &Instruction, memory: &GuestMemory) -> (outcome:
        Result<u32, StopReason>)
        requires
            memory.wf(),
        ensures
            outcome matches Err(reason) ==> reason.is_fault(),
            scan_effect(*old(self), *memory, *instruction, *final(self), outcome),
    {
        if instruction.operands.kind1 != codes::KIND_MEMORYESEDI {
            return Err(StopReason::UnsupportedInstruction);
        }
        let repeat = instruction.memory.rep || instruction.memory.repne;
        let count = self.register(Register32::Ecx);
        let next = instruction.head.next_ip;
        if repeat && count == 0 {
            return Ok(next);
        }
        let width = match width_of(instruction.head.code) {
            Some(width) => width,
            None => return Err(StopReason::UnsupportedInstruction),
        };
        let address = self.register(Register32::Edi);
        let mask = width.mask();
        let eax = self.register(Register32::Eax);
        let left = eax & mask;
        assert(left <= mask) by (bit_vector)
            requires
                left == eax & mask,
        ;
        let right = read_value(memory, address, width)?;
        assert(right <= mask) by {
            crate::cpu::operands::lemma_operand_fits(
                *self,
                *memory,
                crate::cpu::operands::Operand {
                    location: crate::cpu::operands::Location::Memory(address),
                    width,
                },
            );
        }
        let stepped = advance(address, self.eflags, width);
        let ghost start = *self;
        self.set_register(Register32::Edi, stepped);
        if repeat {
            self.set_register(Register32::Ecx, count - 1);
        }
        assert forall|register: Register32| #[trigger] self.reg(register) == if register
            == Register32::Edi {
            stepped
        } else if register == Register32::Esi {
            start.reg(Register32::Esi)
        } else if register == Register32::Ecx {
            if repeat {
                (count - 1) as u32
            } else {
                count
            }
        } else {
            start.reg(register)
        } by {}
        let keep_scanning = if instruction.memory.repne {
            left != right
        } else {
            left == right
        };
        if repeat && count > 1 && keep_scanning {
            return Ok(self.eip);
        }
        let (result, _) = subtract_wrapping(left, right, 0, width);
        let ghost before = *self;
        self.eflags = status_flags(self.eflags, left, right, result, left < right, true, width);
        assert(self.registers == before.registers);
        assert(forall|register: Register32| #[trigger] self.reg(register) == before.reg(register));
        Ok(next)
    }

    /// Executes one element of a `movs`, copying from `esi` (in the prefix's
    /// segment) to `edi`.
    #[verifier::spinoff_prover]
    #[verifier::rlimit(40)]
    pub fn move_string(&mut self, instruction: &Instruction, memory: &mut GuestMemory) -> (outcome:
        Result<u32, StopReason>)
        requires
            old(memory).wf(),
        ensures
            outcome matches Err(reason) ==> reason.is_fault(),
            final(memory).wf(),
            move_effect(*old(self), *old(memory), *instruction, *final(self), *final(memory), outcome),
    {
        if instruction.operands.kind0 != codes::KIND_MEMORYESEDI || instruction.operands.kind1
            != codes::KIND_MEMORYSEGESI {
            return Err(StopReason::UnsupportedInstruction);
        }
        let width = match width_of(instruction.head.code) {
            Some(width) => width,
            None => return Err(StopReason::UnsupportedInstruction),
        };
        let repeat = instruction.memory.rep || instruction.memory.repne;
        let count = self.register(Register32::Ecx);
        let next = instruction.head.next_ip;
        if repeat && count == 0 {
            return Ok(next);
        }
        let source = self.register(Register32::Esi);
        let destination = self.register(Register32::Edi);
        let base = if instruction.memory.segment_prefix == codes::REG_FS {
            self.fs_base
        } else {
            0
        };
        let value = read_value(memory, base.wrapping_add(source), width)?;
        write_value(memory, destination, width, value)?;
        let flags = self.eflags;
        let ghost start = *self;
        let moved_source = advance(source, flags, width);
        let moved_destination = advance(destination, flags, width);
        self.set_register(Register32::Esi, moved_source);
        self.set_register(Register32::Edi, moved_destination);
        if repeat {
            self.set_register(Register32::Ecx, count - 1);
        }
        assert forall|register: Register32| #[trigger] self.reg(register) == if register
            == Register32::Edi {
            moved_destination
        } else if register == Register32::Esi {
            moved_source
        } else if register == Register32::Ecx {
            if repeat {
                (count - 1) as u32
            } else {
                count
            }
        } else {
            start.reg(register)
        } by {}
        if repeat && count > 1 {
            return Ok(self.eip);
        }
        Ok(next)
    }
}

} // verus!
