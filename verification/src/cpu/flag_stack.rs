//! `pushf` and `popf`: the flags register to and from the stack.
use super::codes;
use super::operands::{read_value, store_outcome, value_bytes, value_outcome, write_value, Width};
use super::{wrapped, Cpu32, Register32, StopReason};
use crate::memory::GuestMemory;
use vstd::prelude::*;

verus! {

/// The flags that `popf` of `width` may change whatever the privilege level:
/// the status, direction, overflow and nested-task bits, and for a dword also
/// the alignment-check and identification bits.
pub open spec fn poppable_flags(width: Width) -> u32 {
    if width == Width::Dword {
        0x0024_4dd5
    } else {
        0x4dd5
    }
}

/// The flags that `popf` of `width` may change, given the current flags: the
/// status, trap-free control and nested-task bits, for a dword also the
/// alignment-check and identification bits, and the interrupt flag only at
/// I/O privilege level 3.
pub open spec fn writable_flags(eflags: u32, width: Width) -> u32 {
    let base = poppable_flags(width);
    if eflags & 0x3000 == 0x3000 {
        base | 0x200
    } else {
        base
    }
}

/// What `pushf` or `popf` (of words or dwords, after `code`) does. Trap,
/// virtual-8086 and alignment-check states have no execution path here and
/// are refused, before or after the pop.
pub open spec fn flags_moved(
    old: Cpu32,
    old_memory: GuestMemory,
    code: u16,
    cpu: Cpu32,
    memory: GuestMemory,
    outcome: Result<(), StopReason>,
) -> bool {
    let width = if code == codes::PUSHFW || code == codes::POPFW {
        Width::Word
    } else {
        Width::Dword
    };
    let stack = old.reg(Register32::Esp);
    let unchanged = cpu == old && memory == old_memory;
    if old.eflags & 0x0006_0100 != 0 {
        outcome == Err::<(), StopReason>(StopReason::UnsupportedInstruction) && unchanged
    } else if code == codes::PUSHFW || code == codes::PUSHFD {
        let address = wrapped(stack - width.size());
        match store_outcome(old_memory, address, width.size()) {
            Err(error) => outcome == Err::<(), StopReason>(error) && unchanged,
            Ok(()) => {
                &&& outcome is Ok
                &&& memory.wf()
                &&& memory.wrote(
                    old_memory,
                    address as int,
                    value_bytes(old.eflags & 0x00fc_ffff, width.size()),
                )
                &&& cpu.register_set(old, Register32::Esp, address)
            },
        }
    } else {
        match value_outcome(old_memory, stack, width.size()) {
            Err(error) => outcome == Err::<(), StopReason>(error) && unchanged,
            Ok(value) => {
                let writable = writable_flags(old.eflags, width);
                if value & poppable_flags(width) & 0x0004_0100 != 0 {
                    outcome == Err::<(), StopReason>(StopReason::UnsupportedInstruction)
                        && unchanged
                } else {
                    &&& outcome is Ok
                    &&& memory == old_memory
                    &&& cpu.eflags == (old.eflags & !(writable | 0x10000)) | (value & writable)
                    &&& cpu.reg(Register32::Esp) == wrapped(stack + width.size())
                    &&& forall|other: Register32|
                        other != Register32::Esp ==> #[trigger] cpu.reg(other) == old.reg(other)
                    &&& cpu.fs_base == old.fs_base
                    &&& cpu.x87_control_word == old.x87_control_word
                    &&& cpu.mmx == old.mmx
                    &&& cpu.eip == old.eip
                }
            },
        }
    }
}

impl Cpu32 {
    /// Executes `pushf` or `popf` of words or dwords.
    #[verifier::spinoff_prover]
    #[verifier::rlimit(40)]
    pub fn flag_stack(&mut self, code: u16, memory: &mut GuestMemory) -> (outcome: Result<
        (),
        StopReason,
    >)
        requires
            old(memory).wf(),
            code == codes::PUSHFW || code == codes::PUSHFD || code == codes::POPFW || code
                == codes::POPFD,
        ensures
            outcome matches Err(reason) ==> reason.is_fault(),
            final(memory).wf(),
            flags_moved(*old(self), *old(memory), code, *final(self), *final(memory), outcome),
    {
        if self.eflags & 0x0006_0100 != 0 {
            return Err(StopReason::UnsupportedInstruction);
        }
        let width = if code == codes::PUSHFW || code == codes::POPFW {
            Width::Word
        } else {
            Width::Dword
        };
        let stack = self.register(Register32::Esp);
        if code == codes::PUSHFW || code == codes::PUSHFD {
            let address = stack.wrapping_sub(width.bytes());
            write_value(memory, address, width, self.eflags & 0x00fc_ffff)?;
            self.set_register(Register32::Esp, address);
        } else {
            let value = read_value(memory, stack, width)?;
            let base: u32 = if width.bytes() == 4 {
                0x0024_4dd5
            } else {
                0x4dd5
            };
            if value & base & 0x0004_0100 != 0 {
                return Err(StopReason::UnsupportedInstruction);
            }
            let writable = if self.eflags & 0x3000 == 0x3000 {
                base | 0x200
            } else {
                base
            };
            self.eflags = (self.eflags & !(writable | 0x10000)) | (value & writable);
            self.set_register(Register32::Esp, stack.wrapping_add(width.bytes()));
        }
        Ok(())
    }
}

} // verus!
