//! `pusha` and `popa`: all eight general-purpose registers to and from the
//! stack.
use super::codes;
use super::operands::{
    read_value, store_outcome, value_bytes, value_outcome, write_value, Width,
};
use super::{wrapped, Cpu32, Register32, StopReason};
use crate::memory::{Access, GuestMemory, MemoryError};
use vstd::prelude::*;

verus! {

/// The register that `pusha` stores in slot `slot`, counting up from the
/// lowest address.
pub open spec fn slot_register(slot: int) -> Register32 {
    if slot == 0 {
        Register32::Edi
    } else if slot == 1 {
        Register32::Esi
    } else if slot == 2 {
        Register32::Ebp
    } else if slot == 3 {
        Register32::Esp
    } else if slot == 4 {
        Register32::Ebx
    } else if slot == 5 {
        Register32::Edx
    } else if slot == 6 {
        Register32::Ecx
    } else {
        Register32::Eax
    }
}

/// The address of slot `slot` of `width` above `base`.
pub open spec fn slot_address(base: u32, slot: int, width: Width) -> u32 {
    wrapped(base + slot * width.size())
}

/// The first failure met storing to slots `count - 1` down to 0 above `base`.
pub open spec fn slots_store_fault(memory: GuestMemory, base: u32, width: Width, count: nat) -> Result<
    (),
    StopReason,
>
    decreases count,
{
    if count == 0 {
        Ok(())
    } else {
        match store_outcome(memory, slot_address(base, count - 1, width), width.size()) {
            Err(error) => Err(error),
            Ok(()) => slots_store_fault(memory, base, width, (count - 1) as nat),
        }
    }
}

/// The first failure met loading slots 0 up to `count - 1` above `stack`;
/// the slot of `esp` is skipped.
pub open spec fn slots_load_fault(memory: GuestMemory, stack: u32, width: Width, count: nat) -> Result<
    (),
    StopReason,
>
    decreases count,
{
    if count == 0 {
        Ok(())
    } else {
        match slots_load_fault(memory, stack, width, (count - 1) as nat) {
            Err(error) => Err(error),
            Ok(()) => if count - 1 == 3 {
                Ok(())
            } else {
                match value_outcome(memory, slot_address(stack, count - 1, width), width.size()) {
                    Err(error) => Err(error),
                    Ok(_) => Ok(()),
                }
            },
        }
    }
}

/// The register values `pusha` stores, slot by slot.
pub open spec fn slot_values(cpu: Cpu32) -> Seq<u32> {
    Seq::new(8, |slot: int| cpu.reg(slot_register(slot)))
}

/// The byte at `address` once slots `from` to 7 above `base` hold `values`.
pub open spec fn stacked_byte(
    old_memory: GuestMemory,
    base: u32,
    width: Width,
    values: Seq<u32>,
    from: int,
    address: int,
) -> u8 {
    let offset = (address - base) % 0x1_0000_0000;
    if 0 <= address < 0x1_0000_0000 && offset < 8 * width.size() && offset / width.size() >= from {
        value_bytes(values[offset / width.size()], width.size())[offset % width.size()]
    } else {
        old_memory.byte(address)
    }
}

/// `memory` is `old_memory` with all eight slots above `base` holding `values`.
pub open spec fn stacked(
    memory: GuestMemory,
    old_memory: GuestMemory,
    base: u32,
    width: Width,
    values: Seq<u32>,
) -> bool {
    &&& memory.wf()
    &&& memory.pages() == old_memory.pages()
    &&& memory.limit() == old_memory.limit()
    &&& forall|address: int| #[trigger]
        memory.holds(address) ==> memory.byte(address) == stacked_byte(
            old_memory,
            base,
            width,
            values,
            0,
            address,
        )
}

/// `cpu` is `old` after `popa` of `width` from `stack` in `memory`: each
/// register but `esp` takes the low part of its slot, and `esp` moves past the
/// eight slots.
pub open spec fn unstacked(cpu: Cpu32, old: Cpu32, memory: GuestMemory, stack: u32, width: Width) -> bool {
    &&& forall|slot: int|
        0 <= slot < 8 && slot != 3 ==> #[trigger] cpu.reg(slot_register(slot)) == (old.reg(
            slot_register(slot),
        ) & !width.spec_mask()) | value_outcome(
            memory,
            slot_address(stack, slot, width),
            width.size(),
        )->Ok_0
    &&& cpu.reg(Register32::Esp) == wrapped(stack + 8 * width.size())
    &&& cpu.fs_base == old.fs_base
    &&& cpu.x87_control_word == old.x87_control_word
    &&& cpu.mmx == old.mmx
    &&& cpu.eip == old.eip
    &&& cpu.eflags == old.eflags
}

/// What `pusha` or `popa` (of words or dwords, after `code`) does.
pub open spec fn registers_moved(
    old: Cpu32,
    old_memory: GuestMemory,
    code: u16,
    cpu: Cpu32,
    memory: GuestMemory,
    outcome: Result<(), StopReason>,
) -> bool {
    let width = if code == codes::PUSHAW || code == codes::POPAW {
        Width::Word
    } else {
        Width::Dword
    };
    let stack = old.reg(Register32::Esp);
    let unchanged = cpu == old && memory == old_memory;
    if code == codes::PUSHAW || code == codes::PUSHAD {
        let base = wrapped(stack - 8 * width.size());
        match slots_store_fault(old_memory, base, width, 8) {
            Err(error) => outcome == Err::<(), StopReason>(error) && unchanged,
            Ok(()) => outcome is Ok && stacked(memory, old_memory, base, width, slot_values(old))
                && cpu.register_set(old, Register32::Esp, base),
        }
    } else {
        match slots_load_fault(old_memory, stack, width, 8) {
            Err(error) => outcome == Err::<(), StopReason>(error) && unchanged,
            Ok(()) => outcome is Ok && memory == old_memory && unstacked(
                cpu,
                old,
                old_memory,
                stack,
                width,
            ),
        }
    }
}

/// Where an address falls among the eight slots above `base`: in slot `slot`
/// exactly when its distance above `base` is in that slot.
proof fn lemma_slot(base: u32, width: Width, slot: int, address: int)
    requires
        0 <= slot < 8,
        0 <= address < 0x1_0000_0000,
        slot_address(base, slot, width) + width.size() - 1 <= u32::MAX,
    ensures
        ({
            let start = slot_address(base, slot, width) as int;
            let offset = (address - base) % 0x1_0000_0000;
            &&& (start <= address < start + width.size()) <==> (offset < 8 * width.size() && offset
                / width.size() == slot)
            &&& start <= address < start + width.size() ==> address - start == offset
                % width.size()
        }),
{
    let offset = (address - base) % 0x1_0000_0000;
    if width == Width::Byte {
        assert(offset / 1 == offset && offset % 1 == 0);
    }
}

/// The register of slot `slot`.
fn slot_register_at(slot: u32) -> (register: Register32)
    requires
        slot < 8,
    ensures
        register == slot_register(slot as int),
{
    match slot {
        0 => Register32::Edi,
        1 => Register32::Esi,
        2 => Register32::Ebp,
        3 => Register32::Esp,
        4 => Register32::Ebx,
        5 => Register32::Edx,
        6 => Register32::Ecx,
        _ => Register32::Eax,
    }
}

/// Checks that `width` bytes at `address` can be stored.
fn check_store(memory: &GuestMemory, address: u32, width: Width) -> (outcome: Result<(), StopReason>)
    requires
        memory.wf(),
    ensures
        outcome matches Err(reason) ==> reason.is_fault(),
        outcome == store_outcome(*memory, address, width.size()),
{
    match address.checked_add(width.bytes() - 1) {
        None => return Err(StopReason::MemoryFault(MemoryError::AddressOverflow)),
        Some(_) => {},
    }
    match memory.check_access(address as u64, width.bytes() as usize, Access::Write) {
        Err(error) => Err(StopReason::MemoryFault(error)),
        Ok(()) => Ok(()),
    }
}

/// Every slot passes when the first-failure check finds none.
proof fn lemma_slots_store(memory: GuestMemory, base: u32, width: Width, count: nat)
    requires
        slots_store_fault(memory, base, width, count) is Ok,
    ensures
        forall|slot: int|
            0 <= slot < count ==> #[trigger] store_outcome(
                memory,
                slot_address(base, slot, width),
                width.size(),
            ) is Ok,
    decreases count,
{
    if count > 0 {
        lemma_slots_store(memory, base, width, (count - 1) as nat);
    }
}

/// Every slot but `esp`'s loads when the first-failure check finds none.
proof fn lemma_slots_load(memory: GuestMemory, stack: u32, width: Width, count: nat)
    requires
        slots_load_fault(memory, stack, width, count) is Ok,
    ensures
        forall|slot: int|
            0 <= slot < count && slot != 3 ==> #[trigger] value_outcome(
                memory,
                slot_address(stack, slot, width),
                width.size(),
            ) is Ok,
    decreases count,
{
    if count > 0 {
        lemma_slots_load(memory, stack, width, (count - 1) as nat);
    }
}

/// Checks slots 7 down to 0 above `base`, giving the first failure.
#[verifier::rlimit(40)]
#[verifier::spinoff_prover]
fn check_slots(memory: &GuestMemory, base: u32, width: Width) -> (outcome: Result<(), StopReason>)
    requires
        memory.wf(),
    ensures
        outcome matches Err(reason) ==> reason.is_fault(),
        outcome == slots_store_fault(*memory, base, width, 8),
{
    let size = width.bytes();
    let mut k: u32 = 8;
    while k > 0
        invariant
            memory.wf(),
            k <= 8,
            size == width.size(),
            slots_store_fault(*memory, base, width, 8) == slots_store_fault(
                *memory,
                base,
                width,
                k as nat,
            ),
        decreases k,
    {
        assert((k - 1) * size <= 32) by (nonlinear_arith)
            requires
                k <= 8,
                size <= 4,
        ;
        let address = base.wrapping_add((k - 1) * size);
        check_store(memory, address, width)?;
        k = k - 1;
    }
    Ok(())
}

/// A load failure at some slot is the failure of every longer run.
proof fn lemma_load_fault_stays(memory: GuestMemory, stack: u32, width: Width, count: nat, longer: nat)
    requires
        count <= longer,
        slots_load_fault(memory, stack, width, count) is Err,
    ensures
        slots_load_fault(memory, stack, width, longer) == slots_load_fault(memory, stack, width, count),
    decreases longer - count,
{
    if count < longer {
        lemma_load_fault_stays(memory, stack, width, count, (longer - 1) as nat);
    }
}

/// No load fails among the first `count` slots when each of them loads.
proof fn lemma_slots_loaded(memory: GuestMemory, stack: u32, width: Width, count: nat, values: Seq<u32>)
    requires
        count <= values.len(),
        forall|i: int|
            0 <= i < count && i != 3 ==> value_outcome(
                memory,
                slot_address(stack, i, width),
                width.size(),
            ) == Ok::<u32, StopReason>(#[trigger] values[i]),
    ensures
        slots_load_fault(memory, stack, width, count) is Ok,
    decreases count,
{
    if count > 0 {
        lemma_slots_loaded(memory, stack, width, (count - 1) as nat, values);
        if count - 1 != 3 {
            assert(value_outcome(memory, slot_address(stack, count - 1, width), width.size())
                == Ok::<u32, StopReason>(values[count - 1]));
        }
    }
}

/// Loads slots 0 to 7 above `stack`, all but `esp`'s (which reads as zero).
#[verifier::rlimit(40)]
#[verifier::spinoff_prover]
fn load_slots(memory: &GuestMemory, stack: u32, width: Width) -> (values: Result<
    Vec<u32>,
    StopReason,
>)
    requires
        memory.wf(),
    ensures
        values matches Err(reason) ==> reason.is_fault(),
        match values {
            Err(error) => slots_load_fault(*memory, stack, width, 8) == Err::<(), StopReason>(
                error,
            ),
            Ok(values) => {
                &&& slots_load_fault(*memory, stack, width, 8) is Ok
                &&& values@.len() == 8
                &&& forall|i: int|
                    0 <= i < 8 && i != 3 ==> value_outcome(
                        *memory,
                        slot_address(stack, i, width),
                        width.size(),
                    ) == Ok::<u32, StopReason>(#[trigger] values@[i])
            },
        },
{
    let size = width.bytes();
    let mut values: Vec<u32> = Vec::new();
    let mut slot: u32 = 0;
    while slot < 8
        invariant
            memory.wf(),
            slot <= 8,
            size == width.size(),
            values@.len() == slot,
            forall|i: int|
                0 <= i < slot && i != 3 ==> value_outcome(
                    *memory,
                    slot_address(stack, i, width),
                    width.size(),
                ) == Ok::<u32, StopReason>(#[trigger] values@[i]),
        decreases 8 - slot,
    {
        if slot == 3 {
            values.push(0);
        } else {
            assert(slot * size <= 32) by (nonlinear_arith)
                requires
                    slot <= 8,
                    size <= 4,
            ;
            let address = stack.wrapping_add(slot * size);
            assert(address == slot_address(stack, slot as int, width));
            let value = match read_value(memory, address, width) {
                Err(error) => {
                    proof {
                        lemma_slots_loaded(*memory, stack, width, slot as nat, values@);
                        lemma_load_fault_stays(*memory, stack, width, (slot + 1) as nat, 8);
                    }
                    return Err(error);
                },
                Ok(value) => value,
            };
            values.push(value);
        }
        slot = slot + 1;
    }
    proof {
        lemma_slots_loaded(*memory, stack, width, 8, values@);
    }
    Ok(values)
}

impl Cpu32 {
    /// Stores the registers in the eight slots above `base`, which must all
    /// accept the store.
    #[verifier::rlimit(40)]
    #[verifier::spinoff_prover]
    fn store_slots(&self, memory: &mut GuestMemory, base: u32, width: Width)
        requires
            old(memory).wf(),
            slots_store_fault(*old(memory), base, width, 8) is Ok,
        ensures
            stacked(*final(memory), *old(memory), base, width, slot_values(*self)),
    {
        proof {
            lemma_slots_store(*memory, base, width, 8);
        }
        let ghost original = *memory;
        assert forall|address: int| #[trigger] memory.holds(address) implies memory.byte(address)
            == stacked_byte(original, base, width, slot_values(*self), 8, address) by {
            let offset = (address - base) % 0x1_0000_0000;
            if width == Width::Byte {
                assert(offset < 8 ==> offset / 1 < 8);
            } else if width == Width::Word {
                assert(offset < 16 ==> offset / 2 < 8);
            } else {
                assert(offset < 32 ==> offset / 4 < 8);
            }
        }
        let size = width.bytes();
        let mut k: u32 = 8;
        while k > 0
            invariant
                memory.wf(),
                k <= 8,
                size == width.size(),
                memory.pages() == original.pages(),
                memory.limit() == original.limit(),
                forall|slot: int|
                    0 <= slot < 8 ==> #[trigger] store_outcome(
                        original,
                        slot_address(base, slot, width),
                        width.size(),
                    ) is Ok,
                forall|address: int| #[trigger]
                    memory.holds(address) ==> memory.byte(address) == stacked_byte(
                        original,
                        base,
                        width,
                        slot_values(*self),
                        k as int,
                        address,
                    ),
            decreases k,
        {
            let slot = k - 1;
            assert(slot * size <= 32) by (nonlinear_arith)
                requires
                    slot <= 8,
                    size <= 4,
            ;
            let address = base.wrapping_add(slot * size);
            assert(address == slot_address(base, slot as int, width));
            let value = self.register(slot_register_at(slot));
            assert(store_outcome(original, slot_address(base, slot as int, width), width.size()) is Ok);
            let ghost before = *memory;
            match write_value(memory, address, width, value) {
                Err(_) => {
                    assert(false);
                },
                Ok(()) => {},
            }
            assert forall|a: int| #[trigger] memory.holds(a) implies memory.byte(a)
                == stacked_byte(original, base, width, slot_values(*self), slot as int, a) by {
                if a < 0x1_0000_0000 {
                    lemma_slot(base, width, slot as int, a);
                }
                assert(before.holds(a));
            }
            k = slot;
        }
    }

    /// Sets every register but `esp` to the low part given by its slot's value.
    #[verifier::rlimit(40)]
    #[verifier::spinoff_prover]
    fn load_registers(&mut self, values: &Vec<u32>, width: Width)
        requires
            values@.len() == 8,
        ensures
            forall|i: int|
                0 <= i < 8 ==> #[trigger] final(self).reg(slot_register(i)) == if i != 3 {
                    (old(self).reg(slot_register(i)) & !width.spec_mask()) | values@[i]
                } else {
                    old(self).reg(slot_register(i))
                },
            final(self).fs_base == old(self).fs_base,
            final(self).x87_control_word == old(self).x87_control_word,
            final(self).eip == old(self).eip,
            final(self).eflags == old(self).eflags,
            final(self).mmx == old(self).mmx,
    {
        let mask = width.mask();
        let mut slot: u32 = 0;
        while slot < 8
            invariant
                slot <= 8,
                values@.len() == 8,
                mask == width.spec_mask(),
                forall|i: int|
                    0 <= i < 8 ==> #[trigger] self.reg(slot_register(i)) == if i < slot && i != 3 {
                        (old(self).reg(slot_register(i)) & !mask) | values@[i]
                    } else {
                        old(self).reg(slot_register(i))
                    },
                self.fs_base == old(self).fs_base,
                self.x87_control_word == old(self).x87_control_word,
                self.eip == old(self).eip,
                self.eflags == old(self).eflags,
                self.mmx == old(self).mmx,
            decreases 8 - slot,
        {
            if slot != 3 {
                let register = slot_register_at(slot);
                let current = self.register(register);
                self.set_register(register, (current & !mask) | values[slot as usize]);
            }
            slot = slot + 1;
        }
    }

    /// `pusha` of `width`: every slot is checked before any is stored.
    #[verifier::rlimit(40)]
    #[verifier::spinoff_prover]
    fn push_registers(&mut self, memory: &mut GuestMemory, width: Width) -> (outcome: Result<
        (),
        StopReason,
    >)
        requires
            old(memory).wf(),
        ensures
            outcome matches Err(reason) ==> reason.is_fault(),
            final(memory).wf(),
            ({
                let base = wrapped(old(self).reg(Register32::Esp) - 8 * width.size());
                match slots_store_fault(*old(memory), base, width, 8) {
                    Err(error) => outcome == Err::<(), StopReason>(error) && *final(self)
                        == *old(self) && *final(memory) == *old(memory),
                    Ok(()) => outcome is Ok && stacked(
                        *final(memory),
                        *old(memory),
                        base,
                        width,
                        slot_values(*old(self)),
                    ) && final(self).register_set(*old(self), Register32::Esp, base),
                }
            }),
    {
        let size = width.bytes();
        let stack = self.register(Register32::Esp);
        let base = stack.wrapping_sub(size * 8);
        check_slots(memory, base, width)?;
        self.store_slots(memory, base, width);
        self.set_register(Register32::Esp, base);
        Ok(())
    }

    /// `popa` of `width`: every slot is read before any register is set.
    #[verifier::rlimit(80)]
    #[verifier::spinoff_prover]
    fn pop_registers(&mut self, memory: &GuestMemory, width: Width) -> (outcome: Result<
        (),
        StopReason,
    >)
        requires
            memory.wf(),
        ensures
            outcome matches Err(reason) ==> reason.is_fault(),
            ({
                let stack = old(self).reg(Register32::Esp);
                match slots_load_fault(*memory, stack, width, 8) {
                    Err(error) => outcome == Err::<(), StopReason>(error) && *final(self)
                        == *old(self),
                    Ok(()) => outcome is Ok && unstacked(*final(self), *old(self), *memory, stack, width),
                }
            }),
    {
        let size = width.bytes();
        let stack = self.register(Register32::Esp);
        let values = load_slots(memory, stack, width)?;
        let ghost loaded = *self;
        self.load_registers(&values, width);
        let ghost before = *self;
        self.set_register(Register32::Esp, stack.wrapping_add(size * 8));
        assert forall|slot: int| 0 <= slot < 8 && slot != 3 implies #[trigger] self.reg(
            slot_register(slot),
        ) == (loaded.reg(slot_register(slot)) & !width.spec_mask()) | value_outcome(
            *memory,
            slot_address(stack, slot, width),
            width.size(),
        )->Ok_0 by {
            assert(before.reg(slot_register(slot)) == (loaded.reg(slot_register(slot))
                & !width.spec_mask()) | values@[slot]);
        }
        Ok(())
    }

    /// Executes `pusha` or `popa` of words or dwords. `pusha` checks every slot
    /// before it stores any; `popa` reads every slot before it sets any register.
    pub fn register_stack(&mut self, code: u16, memory: &mut GuestMemory) -> (outcome: Result<
        (),
        StopReason,
    >)
        requires
            old(memory).wf(),
            code == codes::PUSHAW || code == codes::PUSHAD || code == codes::POPAW || code
                == codes::POPAD,
        ensures
            outcome matches Err(reason) ==> reason.is_fault(),
            final(memory).wf(),
            registers_moved(*old(self), *old(memory), code, *final(self), *final(memory), outcome),
    {
        let width = if code == codes::PUSHAW || code == codes::POPAW {
            Width::Word
        } else {
            Width::Dword
        };
        if code == codes::PUSHAW || code == codes::PUSHAD {
            self.push_registers(memory, width)
        } else {
            self.pop_registers(memory, width)
        }
    }
}

} // verus!
