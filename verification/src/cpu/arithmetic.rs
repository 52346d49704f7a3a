//! Two-operand arithmetic and logic, increments, and signed multiplication.
use super::codes;
use super::decoding::Instruction;
use super::flags::{logic_flags, only_flags_changed, overflows, status_flags, status_set};
use super::operands::{
    lemma_operand_fits, operand_at, operand_store_outcome, operand_value, stored, Operand, Width,
};
use super::{Cpu32, StopReason};
use crate::memory::GuestMemory;
use vstd::prelude::*;

verus! {

/// `value` reduced modulo 2 to the number of bits of `width`.
pub open spec fn wrap(value: int, width: Width) -> u32 {
    (value % (width.spec_mask() + 1)) as u32
}

/// The result and carry of a two-operand arithmetic or logic operation on
/// `width`-bit operands; `carry_in` is the borrow of a subtract-with-borrow.
pub open spec fn binary_value(
    operation: u16,
    left: u32,
    right: u32,
    carry_in: bool,
    width: Width,
) -> (u32, bool) {
    let borrow: int = if carry_in {
        1
    } else {
        0
    };
    if operation == codes::OP_XOR {
        (left ^ right, false)
    } else if operation == codes::OP_OR {
        (left | right, false)
    } else if operation == codes::OP_AND || operation == codes::OP_TEST {
        (left & right, false)
    } else if operation == codes::OP_SUB || operation == codes::OP_CMP {
        (wrap(left - right, width), left < right)
    } else if operation == codes::OP_SBB {
        (wrap(left - right - borrow, width), left < right + borrow)
    } else {
        (wrap(left + right, width), left + right > width.spec_mask())
    }
}

/// Whether `operation` is a logical one, which clears carry and overflow.
pub open spec fn is_logic(operation: u16) -> bool {
    operation == codes::OP_XOR || operation == codes::OP_OR || operation == codes::OP_AND
        || operation == codes::OP_TEST
}

/// Whether `operation` subtracts.
pub open spec fn is_subtraction(operation: u16) -> bool {
    operation == codes::OP_SUB || operation == codes::OP_CMP || operation == codes::OP_SBB
}

/// Whether `operation` only compares, writing no result.
pub open spec fn is_comparison(operation: u16) -> bool {
    operation == codes::OP_CMP || operation == codes::OP_TEST
}

/// The destination and the two input values of a two-operand instruction.
pub open spec fn binary_inputs(cpu: Cpu32, memory: GuestMemory, instruction: Instruction) -> Result<
    (Operand, u32, u32),
    StopReason,
> {
    match operand_at(cpu, instruction, 0) {
        Err(error) => Err(error),
        Ok(destination) => match operand_value(cpu, memory, destination) {
            Err(error) => Err(error),
            Ok(left) => match operand_at(cpu, instruction, 1) {
                Err(error) => Err(error),
                Ok(source) => match operand_value(cpu, memory, source) {
                    Err(error) => Err(error),
                    Ok(right) => Ok((destination, left, right & destination.width.spec_mask())),
                },
            },
        },
    }
}

/// `(cpu, memory)` follows `(old, old_memory)` by writing `result` to
/// `destination` (unless `writes` is false) and then setting the flags to `flags`.
pub open spec fn wrote_with_flags(
    cpu: Cpu32,
    memory: GuestMemory,
    old: Cpu32,
    old_memory: GuestMemory,
    destination: Operand,
    result: u32,
    writes: bool,
) -> bool {
    if writes {
        stored(Cpu32 { eflags: old.eflags, ..cpu }, memory, old, old_memory, destination, result)
    } else {
        only_flags_changed(cpu, old) && memory == old_memory
    }
}

/// The `width`-bit wrap-around sum `left + right` and whether it carries out.
fn add_wrapping(left: u32, right: u32, width: Width) -> (sum: (u32, bool))
    requires
        left <= width.spec_mask(),
        right <= width.spec_mask(),
    ensures
        sum.0 == wrap(left + right, width),
        sum.1 == (left + right > width.spec_mask()),
{
    let modulus = width.mask() as u64 + 1;
    let total = left as u64 + right as u64;
    ((total % modulus) as u32, total > width.mask() as u64)
}

/// The `width`-bit wrap-around difference `left - right - borrow` and whether
/// it borrows.
pub(crate) fn subtract_wrapping(left: u32, right: u32, borrow: u32, width: Width) -> (difference: (u32, bool))
    requires
        left <= width.spec_mask(),
        right <= width.spec_mask(),
        borrow <= 1,
    ensures
        difference.0 == wrap(left - right - borrow, width),
        difference.1 == (left < right + borrow),
{
    let modulus = width.mask() as u64 + 1;
    let total = left as u64 + modulus - right as u64 - borrow as u64;
    proof {
        vstd::arithmetic::div_mod::lemma_mod_add_multiples_vanish(
            left - right - borrow,
            modulus as int,
        );
    }
    ((total % modulus) as u32, (left as u64) < right as u64 + borrow as u64)
}

/// What an `add`, `sub`, `sbb`, `cmp`, `and`, `or`, `xor` or `test` does.
pub open spec fn binary_effect(
    old: Cpu32,
    old_memory: GuestMemory,
    instruction: Instruction,
    cpu: Cpu32,
    memory: GuestMemory,
    outcome: Result<(), StopReason>,
) -> bool {
    match binary_inputs(old, old_memory, instruction) {
        Err(error) => outcome == Err::<(), StopReason>(error) && cpu == old
            && memory == old_memory,
        Ok((destination, left, right)) => {
            let operation = instruction.head.mnemonic;
            let (result, carry) = binary_value(
                operation,
                left,
                right,
                old.eflags & 1 != 0,
                destination.width,
            );
            let writes = !is_comparison(operation);
            if writes && operand_store_outcome(old_memory, destination) is Err {
                outcome == operand_store_outcome(old_memory, destination)
                    && cpu == old && memory == old_memory
            } else {
                &&& outcome is Ok
                &&& wrote_with_flags(
                    cpu,
                    memory,
                    old,
                    old_memory,
                    destination,
                    result,
                    writes,
                )
                &&& if is_logic(operation) {
                    status_set(
                        cpu.eflags,
                        old.eflags,
                        false,
                        false,
                        false,
                        result,
                        destination.width,
                    )
                } else {
                    status_set(
                        cpu.eflags,
                        old.eflags,
                        carry,
                        (left ^ right ^ result) & 0x10 != 0,
                        overflows(
                            left,
                            right,
                            result,
                            is_subtraction(operation),
                            destination.width,
                        ),
                        result,
                        destination.width,
                    )
                }
            }
        },
    }
}

impl Cpu32 {
    /// Executes an `add`, `sub`, `sbb`, `cmp`, `and`, `or`, `xor` or `test`.
    pub fn binary(&mut self, instruction: &Instruction, memory: &mut GuestMemory) -> (outcome:
        Result<(), StopReason>)
        requires
            old(memory).wf(),
        ensures
            outcome matches Err(reason) ==> reason.is_fault(),
            final(memory).wf(),
            binary_effect(*old(self), *old(memory), *instruction, *final(self), *final(memory), outcome),
    {
        let destination = self.operand(instruction, 0)?;
        let left = self.read_operand(destination, memory)?;
        let width = destination.width;
        let source = self.operand(instruction, 1)?;
        let raw = self.read_operand(source, memory)?;
        let mask = width.mask();
        let right = raw & mask;
        assert(right <= mask) by (bit_vector)
            requires
                right == raw & mask,
        ;
        proof {
            lemma_operand_fits(*self, *memory, destination);
        }
        let operation = instruction.head.mnemonic;
        let subtract = operation == codes::OP_SUB || operation == codes::OP_CMP || operation
            == codes::OP_SBB;
        let (result, carry) = if operation == codes::OP_XOR {
            (left ^ right, false)
        } else if operation == codes::OP_OR {
            (left | right, false)
        } else if operation == codes::OP_AND || operation == codes::OP_TEST {
            (left & right, false)
        } else if operation == codes::OP_SUB || operation == codes::OP_CMP {
            subtract_wrapping(left, right, 0, width)
        } else if operation == codes::OP_SBB {
            let flags = self.eflags;
            let borrow = flags & 1;
            assert(borrow <= 1) by (bit_vector)
                requires
                    borrow == flags & 1,
            ;
            subtract_wrapping(left, right, borrow, width)
        } else {
            add_wrapping(left, right, width)
        };
        if !(operation == codes::OP_CMP || operation == codes::OP_TEST) {
            self.write_operand(destination, result, memory)?;
        }
        if operation == codes::OP_XOR || operation == codes::OP_OR || operation == codes::OP_AND
            || operation == codes::OP_TEST {
            self.eflags = logic_flags(self.eflags, result, width);
        } else {
            self.eflags = status_flags(self.eflags, left, right, result, carry, subtract, width);
        }
        Ok(())
    }
}


/// The destination of a one-operand instruction and the value it holds.
pub open spec fn unary_input(cpu: Cpu32, memory: GuestMemory, instruction: Instruction) -> Result<
    (Operand, u32),
    StopReason,
> {
    match operand_at(cpu, instruction, 0) {
        Err(error) => Err(error),
        Ok(destination) => match operand_value(cpu, memory, destination) {
            Err(error) => Err(error),
            Ok(value) => Ok((destination, value)),
        },
    }
}

/// `value` of `width` read as a two's-complement signed number.
pub open spec fn signed_value(value: u32, width: Width) -> int {
    if value & width.spec_sign_bit() != 0 {
        (value & width.spec_mask()) - (width.spec_mask() + 1)
    } else {
        (value & width.spec_mask()) as int
    }
}

/// The two factors of a signed multiplication: the first two operands, or the
/// second and third when there are three.
pub open spec fn multiply_inputs(cpu: Cpu32, memory: GuestMemory, instruction: Instruction) -> Result<
    (Operand, int, int),
    StopReason,
> {
    let first: u32 = if instruction.operands.count == 3 {
        1
    } else {
        0
    };
    match operand_at(cpu, instruction, 0) {
        Err(error) => Err(error),
        Ok(destination) => match operand_at(cpu, instruction, first) {
            Err(error) => Err(error),
            Ok(left) => match operand_value(cpu, memory, left) {
                Err(error) => Err(error),
                Ok(left) => match operand_at(cpu, instruction, (first + 1) as u32) {
                    Err(error) => Err(error),
                    Ok(right) => match operand_value(cpu, memory, right) {
                        Err(error) => Err(error),
                        Ok(right) => Ok(
                            (
                                destination,
                                signed_value(left, destination.width),
                                signed_value(right, destination.width),
                            ),
                        ),
                    },
                },
            },
        },
    }
}

/// `value` of `width` read as a signed number.
fn signed_of(value: u32, width: Width) -> (signed: i64)
    ensures
        signed == signed_value(value, width),
        -0x8000_0000 <= signed < 0x8000_0000,
{
    let mask = width.mask();
    let sign = width.sign_bit();
    assert((value & sign != 0 ==> sign <= (value & mask) <= mask) && (value & sign == 0 ==> (value
        & mask) < sign)) by (bit_vector)
        requires
            (mask == 0xff && sign == 0x80) || (mask == 0xffff && sign == 0x8000) || (mask
                == 0xffff_ffff && sign == 0x8000_0000),
    ;
    if value & width.sign_bit() != 0 {
        (value & mask) as i64 - (mask as i64 + 1)
    } else {
        (value & mask) as i64
    }
}

/// What an `inc` or `dec` does; the carry flag is kept.
pub open spec fn increment_effect(
    old: Cpu32,
    old_memory: GuestMemory,
    instruction: Instruction,
    cpu: Cpu32,
    memory: GuestMemory,
    outcome: Result<(), StopReason>,
) -> bool {
    match unary_input(old, old_memory, instruction) {
        Err(error) => outcome == Err::<(), StopReason>(error) && cpu == old
            && memory == old_memory,
        Ok((destination, left)) => {
            let subtract = instruction.head.mnemonic == codes::OP_DEC;
            let result = if subtract {
                wrap(left - 1, destination.width)
            } else {
                wrap(left + 1, destination.width)
            };
            if operand_store_outcome(old_memory, destination) is Err {
                outcome == operand_store_outcome(old_memory, destination)
                    && cpu == old && memory == old_memory
            } else {
                &&& outcome is Ok
                &&& wrote_with_flags(
                    cpu,
                    memory,
                    old,
                    old_memory,
                    destination,
                    result,
                    true,
                )
                &&& status_set(
                    cpu.eflags,
                    old.eflags,
                    old.eflags & 1 != 0,
                    (left ^ 1 ^ result) & 0x10 != 0,
                    overflows(left, 1, result, subtract, destination.width),
                    result,
                    destination.width,
                )
            }
        },
    }
}

/// What a two- or three-operand `imul` does.
pub open spec fn multiply_effect(
    old: Cpu32,
    old_memory: GuestMemory,
    instruction: Instruction,
    cpu: Cpu32,
    memory: GuestMemory,
    outcome: Result<(), StopReason>,
) -> bool {
    match multiply_inputs(old, old_memory, instruction) {
        Err(error) => outcome == Err::<(), StopReason>(error) && cpu == old
            && memory == old_memory,
        Ok((destination, left, right)) => {
            let result = wrap(left * right, destination.width);
            if operand_store_outcome(old_memory, destination) is Err {
                outcome == operand_store_outcome(old_memory, destination)
                    && cpu == old && memory == old_memory
            } else {
                &&& outcome is Ok
                &&& wrote_with_flags(
                    cpu,
                    memory,
                    old,
                    old_memory,
                    destination,
                    result,
                    true,
                )
                &&& cpu.eflags & !0x801u32 == old.eflags & !0x801u32
                &&& (cpu.eflags & 1 != 0) == (left * right != signed_value(
                    result,
                    destination.width,
                ))
                &&& (cpu.eflags & 0x800 != 0) == (cpu.eflags & 1 != 0)
            }
        },
    }
}

impl Cpu32 {
    /// Executes an `inc` or `dec`; the carry flag is kept.
    pub fn increment(&mut self, instruction: &Instruction, memory: &mut GuestMemory) -> (outcome:
        Result<(), StopReason>)
        requires
            old(memory).wf(),
        ensures
            outcome matches Err(reason) ==> reason.is_fault(),
            final(memory).wf(),
            increment_effect(*old(self), *old(memory), *instruction, *final(self), *final(memory), outcome),
    {
        let destination = self.operand(instruction, 0)?;
        let left = self.read_operand(destination, memory)?;
        proof {
            lemma_operand_fits(*self, *memory, destination);
        }
        let width = destination.width;
        let subtract = instruction.head.mnemonic == codes::OP_DEC;
        let (result, _) = if subtract {
            subtract_wrapping(left, 1, 0, width)
        } else {
            add_wrapping(left, 1, width)
        };
        self.write_operand(destination, result, memory)?;
        let carry = self.eflags & 1 != 0;
        self.eflags = status_flags(self.eflags, left, 1, result, carry, subtract, width);
        Ok(())
    }

    /// Executes a two- or three-operand signed `imul`: the low half of the
    /// product is kept, and carry and overflow tell whether it lost bits.
    pub fn multiply(&mut self, instruction: &Instruction, memory: &mut GuestMemory) -> (outcome:
        Result<(), StopReason>)
        requires
            old(memory).wf(),
        ensures
            outcome matches Err(reason) ==> reason.is_fault(),
            final(memory).wf(),
            multiply_effect(*old(self), *old(memory), *instruction, *final(self), *final(memory), outcome),
    {
        let destination = self.operand(instruction, 0)?;
        let width = destination.width;
        let first: u32 = if instruction.operands.count == 3 {
            1
        } else {
            0
        };
        let left_operand = self.operand(instruction, first)?;
        let left = signed_of(self.read_operand(left_operand, memory)?, width);
        let right_operand = self.operand(instruction, first + 1)?;
        let right = signed_of(self.read_operand(right_operand, memory)?, width);
        assert(-0x4000_0000_0000_0000 <= left * right <= 0x4000_0000_0000_0000) by (nonlinear_arith)
            requires
                -0x8000_0000 <= left < 0x8000_0000,
                -0x8000_0000 <= right < 0x8000_0000,
        ;
        let product = left * right;
        let modulus = width.mask() as u128 + 1;
        let offset = product as i128 + 0x4000_0000_0000_0000i128;
        let shifted = offset as u128;
        assert(shifted == product + 0x4000_0000_0000_0000);
        let result = (shifted % modulus) as u32;
        proof {
            let p = product as int;
            if modulus == 256 {
                assert(256 * 0x40_0000_0000_0000int == 0x4000_0000_0000_0000int);
                vstd::arithmetic::div_mod::lemma_mod_multiples_vanish(0x40_0000_0000_0000, p, 256);
            } else if modulus == 65536 {
                assert(65536 * 0x4000_0000_0000int == 0x4000_0000_0000_0000int);
                vstd::arithmetic::div_mod::lemma_mod_multiples_vanish(0x4000_0000_0000, p, 65536);
            } else {
                assert(0x1_0000_0000 * 0x4000_0000int == 0x4000_0000_0000_0000int);
                vstd::arithmetic::div_mod::lemma_mod_multiples_vanish(0x4000_0000, p, 0x1_0000_0000);
            }
        }
        assert(result == wrap(product as int, width));
        self.write_operand(destination, result, memory)?;
        let lost: u32 = if product == signed_of(result, width) {
            0
        } else {
            0x801
        };
        let flags = self.eflags;
        self.eflags = (flags & !0x801) | lost;
        assert(((flags & !0x801u32) | lost) & !0x801u32 == flags & !0x801u32 && ((((flags & !0x801u32)
            | lost) & 1 != 0) == (lost == 0x801)) && ((((flags & !0x801u32) | lost) & 0x800 != 0) == (
        lost == 0x801))) by (bit_vector)
            requires
                lost == 0 || lost == 0x801,
        ;
        Ok(())
    }
}

} // verus!
