//! Logical and arithmetic shifts, one bit position at a time.
use super::arithmetic::{signed_value, wrote_with_flags};
use super::codes;
use super::decoding::Instruction;
use super::flags::{status_set, STATUS_FLAGS};
use super::operands::{
    lemma_operand_fits, operand_at, operand_store_outcome, operand_value, Operand, Width,
};
use super::{Cpu32, StopReason};
use crate::memory::GuestMemory;
use vstd::prelude::*;

verus! {

/// One step of a shift by a single bit: the new value and the bit shifted out.
pub open spec fn shift_step(operation: u16, value: u32, width: Width) -> (u32, bool) {
    if operation == codes::OP_SHL {
        ((value << 1u32) & width.spec_mask(), value & width.spec_sign_bit() != 0)
    } else {
        let sign = if operation == codes::OP_SAR {
            value & width.spec_sign_bit()
        } else {
            0
        };
        ((value >> 1u32) | sign, value & 1 != 0)
    }
}

/// `count` single-bit shifts of `value`: the final value and the last bit
/// shifted out (no bit for a count of zero).
pub open spec fn shift_steps(operation: u16, value: u32, width: Width, count: nat) -> (u32, bool)
    decreases count,
{
    if count == 0 {
        (value, false)
    } else {
        shift_step(operation, shift_steps(operation, value, width, (count - 1) as nat).0, width)
    }
}

/// The destination, its value and the masked count of a shift instruction.
pub open spec fn shift_inputs(cpu: Cpu32, memory: GuestMemory, instruction: Instruction) -> Result<
    (Operand, u32, u32),
    StopReason,
> {
    match operand_at(cpu, instruction, 0) {
        Err(error) => Err(error),
        Ok(destination) => match operand_value(cpu, memory, destination) {
            Err(error) => Err(error),
            Ok(original) => match operand_at(cpu, instruction, 1) {
                Err(error) => Err(error),
                Ok(source) => match operand_value(cpu, memory, source) {
                    Err(error) => Err(error),
                    Ok(count) => Ok((destination, original, count & 31)),
                },
            },
        },
    }
}

/// The carry flag after a shift by a nonzero `count`: the last bit shifted
/// out, except that a logical shift by the whole width or more clears it.
pub open spec fn shift_carry(operation: u16, original: u32, width: Width, count: u32) -> bool {
    if operation != codes::OP_SAR && count >= 8 * width.size() {
        false
    } else {
        shift_steps(operation, original, width, count as nat).1
    }
}

/// The overflow flag after a shift: defined for a count of one only (the
/// top bit changed for `shl`, the original sign for `shr`), clear otherwise.
pub open spec fn shift_overflow(operation: u16, original: u32, width: Width, count: u32) -> bool {
    let result = shift_steps(operation, original, width, count as nat).0;
    count == 1 && if operation == codes::OP_SHL {
        (result & width.spec_sign_bit() != 0) != shift_carry(operation, original, width, count)
    } else if operation == codes::OP_SHR {
        original & width.spec_sign_bit() != 0
    } else {
        false
    }
}

/// Flags `old` with the status flags replaced: carry, overflow and the
/// result flags as given, adjust clear.
fn shifted_flags(old: u32, carry: bool, overflow: bool, result: u32, width: Width) -> (flags: u32)
    ensures
        status_set(flags, old, carry, false, overflow, result, width),
{
    let parts = super::flags::result_flags(result, width);
    let carry_bit: u32 = if carry {
        1
    } else {
        0
    };
    let overflow_bit: u32 = if overflow {
        1
    } else {
        0
    };
    let flags = (old & !STATUS_FLAGS) | parts | carry_bit | (overflow_bit << 11);
    assert(flags & !0x8d5u32 == old & !0x8d5u32 && (flags & 1 != 0) == (carry_bit == 1) && (flags
        & 0x10 == 0) && (flags & 0x800 != 0) == (overflow_bit == 1) && (flags & 4) == (parts & 4)
        && (flags & 0x40) == (parts & 0x40) && (flags & 0x80) == (parts & 0x80)) by (bit_vector)
        requires
            carry_bit <= 1,
            overflow_bit <= 1,
            parts & !0xc4u32 == 0,
            flags == (old & !0x8d5u32) | parts | carry_bit | (overflow_bit << 11),
    ;
    flags
}

/// What a `shl`, `shr` or `sar` does.
pub open spec fn shift_effect(
    old: Cpu32,
    old_memory: GuestMemory,
    instruction: Instruction,
    cpu: Cpu32,
    memory: GuestMemory,
    outcome: Result<(), StopReason>,
) -> bool {
    match shift_inputs(old, old_memory, instruction) {
        Err(error) => outcome == Err::<(), StopReason>(error) && cpu == old
            && memory == old_memory,
        Ok((destination, original, count)) => {
            let operation = instruction.head.mnemonic;
            let width = destination.width;
            let result = shift_steps(operation, original, width, count as nat).0;
            if operand_store_outcome(old_memory, destination) is Err {
                outcome == operand_store_outcome(old_memory, destination)
                    && cpu == old && memory == old_memory
            } else {
                &&& outcome is Ok
                &&& wrote_with_flags(
                    cpu,
                    memory,
                    old,
                    old_memory,
                    destination,
                    result,
                    true,
                )
                &&& if count == 0 {
                    cpu.eflags == old.eflags
                } else {
                    status_set(
                        cpu.eflags,
                        old.eflags,
                        shift_carry(operation, original, width, count),
                        false,
                        shift_overflow(operation, original, width, count),
                        result,
                        width,
                    )
                }
            }
        },
    }
}

proof fn lemma_halve_byte(value: u32, right: u32, left: u32)
    by (bit_vector)
    requires
        value <= 0xff,
        right == (value >> 1u32) | (value & 0x80),
        left == (value << 1u32) & 0xff,
    ensures
        right <= 0xff,
        (if value & 0x80 != 0 {
            (value & 0xff) - 0x100
        } else {
            (value & 0xff) as int
        }) == 2 * (if right & 0x80 != 0 {
            (right & 0xff) - 0x100
        } else {
            (right & 0xff) as int
        }) + (value & 1) as int,
        value >> 1u32 == value / 2,
        left == ((2 * value) % 0x100) as u32,
{
}

proof fn lemma_halve_word(value: u32, right: u32, left: u32)
    by (bit_vector)
    requires
        value <= 0xffff,
        right == (value >> 1u32) | (value & 0x8000),
        left == (value << 1u32) & 0xffff,
    ensures
        right <= 0xffff,
        (if value & 0x8000 != 0 {
            (value & 0xffff) - 0x1_0000
        } else {
            (value & 0xffff) as int
        }) == 2 * (if right & 0x8000 != 0 {
            (right & 0xffff) - 0x1_0000
        } else {
            (right & 0xffff) as int
        }) + (value & 1) as int,
        value >> 1u32 == value / 2,
        left == ((2 * value) % 0x1_0000) as u32,
{
}

proof fn lemma_halve_dword(value: u32, right: u32, left: u32)
    by (bit_vector)
    requires
        value <= 0xffff_ffff,
        right == (value >> 1u32) | (value & 0x8000_0000),
        left == (value << 1u32) & 0xffff_ffff,
    ensures
        right <= 0xffff_ffff,
        (if value & 0x8000_0000 != 0 {
            (value & 0xffff_ffff) - 0x1_0000_0000
        } else {
            (value & 0xffff_ffff) as int
        }) == 2 * (if right & 0x8000_0000 != 0 {
            (right & 0xffff_ffff) - 0x1_0000_0000
        } else {
            (right & 0xffff_ffff) as int
        }) + (value & 1) as int,
        value >> 1u32 == value / 2,
        left == ((2 * value) % 0x1_0000_0000) as u32,
{
}

/// One shift step in each direction, on a `width`-bit value: `sar` halves
/// the signed value rounding down, `shr` halves the unsigned value, `shl`
/// doubles it modulo 2 to the width.
proof fn lemma_shift_step(value: u32, width: Width)
    requires
        value <= width.spec_mask(),
    ensures
        shift_step(codes::OP_SAR, value, width).0 <= width.spec_mask(),
        signed_value(value, width) == 2 * signed_value(shift_step(codes::OP_SAR, value, width).0, width)
            + (value & 1),
        value & 1 <= 1,
        shift_step(codes::OP_SHR, value, width).0 == value / 2,
        shift_step(codes::OP_SHL, value, width).0 == (2 * value) % (width.spec_mask() + 1),
{
    let right = (value >> 1u32) | (value & width.spec_sign_bit());
    let left = (value << 1u32) & width.spec_mask();
    assert(value & 1 <= 1) by (bit_vector);
    assert((value >> 1u32) | 0u32 == value >> 1u32) by (bit_vector);
    match width {
        Width::Byte => lemma_halve_byte(value, right, left),
        Width::Word => lemma_halve_word(value, right, left),
        Width::Dword => lemma_halve_dword(value, right, left),
    }
}

/// Halving after dividing by `divisor` divides by twice the divisor, for
/// negative numbers too (both round down).
proof fn lemma_halve_quotient(value: int, divisor: int)
    requires
        divisor > 0,
    ensures
        value / divisor / 2 == value / (divisor * 2),
{
    let quotient = value / divisor;
    let remainder = value % divisor;
    vstd::arithmetic::div_mod::lemma_fundamental_div_mod(value, divisor);
    vstd::arithmetic::div_mod::lemma_fundamental_div_mod(quotient, 2);
    let half = quotient / 2;
    let bit = quotient % 2;
    assert(value == half * (divisor * 2) + (bit * divisor + remainder) && 0 <= bit * divisor
        + remainder < divisor * 2) by (nonlinear_arith)
        requires
            divisor > 0,
            value == divisor * quotient + remainder,
            0 <= remainder < divisor,
            quotient == 2 * half + bit,
            0 <= bit < 2,
    ;
    vstd::arithmetic::div_mod::lemma_fundamental_div_mod_converse(
        value,
        divisor * 2,
        half,
        bit * divisor + remainder,
    );
}

/// `sar` by `count` divides the value, read as a signed `width`-bit number,
/// by 2 to the `count`, rounding down: a negative value stays negative.
pub proof fn law_arithmetic_shift_divides(value: u32, width: Width, count: nat)
    requires
        value <= width.spec_mask(),
    ensures
        shift_steps(codes::OP_SAR, value, width, count).0 <= width.spec_mask(),
        signed_value(shift_steps(codes::OP_SAR, value, width, count).0, width) == signed_value(
            value,
            width,
        ) / (vstd::arithmetic::power2::pow2(count) as int),
    decreases count,
{
    vstd::arithmetic::power2::lemma_pow2_pos(count);
    if count == 0 {
        assert(vstd::arithmetic::power2::pow2(0) == 1) by {
            vstd::arithmetic::power2::lemma2_to64();
        }
    } else {
        let before = shift_steps(codes::OP_SAR, value, width, (count - 1) as nat).0;
        law_arithmetic_shift_divides(value, width, (count - 1) as nat);
        lemma_shift_step(before, width);
        let after = shift_step(codes::OP_SAR, before, width).0;
        vstd::arithmetic::div_mod::lemma_fundamental_div_mod_converse(
            signed_value(before, width),
            2,
            signed_value(after, width),
            (before & 1) as int,
        );
        vstd::arithmetic::power2::lemma_pow2_pos((count - 1) as nat);
        vstd::arithmetic::power2::lemma_pow2_unfold(count);
        lemma_halve_quotient(
            signed_value(value, width),
            vstd::arithmetic::power2::pow2((count - 1) as nat) as int,
        );
    }
}

/// `shr` by `count` divides the unsigned `width`-bit value by 2 to the
/// `count`, rounding down.
pub proof fn law_logical_shift_divides(value: u32, width: Width, count: nat)
    requires
        value <= width.spec_mask(),
    ensures
        shift_steps(codes::OP_SHR, value, width, count).0 == (value as int) / (
        vstd::arithmetic::power2::pow2(count) as int),
    decreases count,
{
    vstd::arithmetic::power2::lemma_pow2_pos(count);
    if count == 0 {
        assert(vstd::arithmetic::power2::pow2(0) == 1) by {
            vstd::arithmetic::power2::lemma2_to64();
        }
    } else {
        let before = shift_steps(codes::OP_SHR, value, width, (count - 1) as nat).0;
        law_logical_shift_divides(value, width, (count - 1) as nat);
        assert(before <= width.spec_mask()) by {
            vstd::arithmetic::power2::lemma_pow2_pos((count - 1) as nat);
            vstd::arithmetic::div_mod::lemma_div_is_ordered_by_denominator(
                value as int,
                1,
                vstd::arithmetic::power2::pow2((count - 1) as nat) as int,
            );
            vstd::arithmetic::div_mod::lemma_div_basics(value as int);
        }
        lemma_shift_step(before, width);
        vstd::arithmetic::power2::lemma_pow2_pos((count - 1) as nat);
        vstd::arithmetic::power2::lemma_pow2_unfold(count);
        lemma_halve_quotient(value as int, vstd::arithmetic::power2::pow2((count - 1) as nat) as int);
    }
}

/// `shl` by `count` multiplies the `width`-bit value by 2 to the `count`,
/// modulo 2 to the width.
pub proof fn law_left_shift_multiplies(value: u32, width: Width, count: nat)
    requires
        value <= width.spec_mask(),
    ensures
        shift_steps(codes::OP_SHL, value, width, count).0 == (value * vstd::arithmetic::power2::pow2(
            count,
        )) % (width.spec_mask() + 1),
    decreases count,
{
    let modulus: int = width.spec_mask() + 1;
    if count == 0 {
        assert(vstd::arithmetic::power2::pow2(0) == 1) by {
            vstd::arithmetic::power2::lemma2_to64();
        }
        vstd::arithmetic::div_mod::lemma_small_mod(value as nat, modulus as nat);
    } else {
        let before = shift_steps(codes::OP_SHL, value, width, (count - 1) as nat).0;
        let power = vstd::arithmetic::power2::pow2((count - 1) as nat) as int;
        law_left_shift_multiplies(value, width, (count - 1) as nat);
        vstd::arithmetic::div_mod::lemma_mod_bound(value * power, modulus);
        lemma_shift_step(before, width);
        vstd::arithmetic::power2::lemma_pow2_unfold(count);
        vstd::arithmetic::div_mod::lemma_mul_mod_noop_left(value * power, 2, modulus);
        assert((value * power) * 2 == value * (2 * power)) by (nonlinear_arith);
        assert(2 * before == before * 2);
    }
}

/// The carry of a right shift by `count` (at least one) is the last bit
/// shifted out: bit `count - 1` of the value, unsigned for `shr` (while
/// the count is below the width) and signed for `sar`.
pub proof fn law_right_shift_carry(value: u32, width: Width, count: u32)
    requires
        value <= width.spec_mask(),
        1 <= count,
    ensures
        count < 8 * width.size() ==> shift_carry(codes::OP_SHR, value, width, count) == ((value as int
            / (vstd::arithmetic::power2::pow2((count - 1) as nat) as int)) % 2 == 1),
        shift_carry(codes::OP_SAR, value, width, count) == ((signed_value(value, width) / (
        vstd::arithmetic::power2::pow2((count - 1) as nat) as int)) % 2 == 1),
{
    let previous = (count - 1) as nat;
    let logical = shift_steps(codes::OP_SHR, value, width, previous).0;
    let arithmetic = shift_steps(codes::OP_SAR, value, width, previous).0;
    law_logical_shift_divides(value, width, previous);
    law_arithmetic_shift_divides(value, width, previous);
    assert(logical <= width.spec_mask()) by {
        vstd::arithmetic::power2::lemma_pow2_pos(previous);
        vstd::arithmetic::div_mod::lemma_div_is_ordered_by_denominator(
            value as int,
            1,
            vstd::arithmetic::power2::pow2(previous) as int,
        );
        vstd::arithmetic::div_mod::lemma_div_basics(value as int);
    }
    lemma_shift_step(logical, width);
    lemma_shift_step(arithmetic, width);
    assert((logical & 1 != 0) == (logical % 2 == 1)) by (bit_vector);
    vstd::arithmetic::div_mod::lemma_fundamental_div_mod_converse(
        signed_value(arithmetic, width),
        2,
        signed_value(shift_step(codes::OP_SAR, arithmetic, width).0, width),
        (arithmetic & 1) as int,
    );
    assert((arithmetic & 1 != 0) == (arithmetic & 1 == 1)) by (bit_vector);
}

impl Cpu32 {
    /// Executes a `shl`, `shr` or `sar` by an immediate, one or `cl`; the count
    /// is taken modulo 32. A zero count still checks that the destination can
    /// be written, and leaves the flags alone.
    pub fn shift(&mut self, instruction: &Instruction, memory: &mut GuestMemory) -> (outcome: Result<
        (),
        StopReason,
    >)
        requires
            old(memory).wf(),
        ensures
            outcome matches Err(reason) ==> reason.is_fault(),
            final(memory).wf(),
            shift_effect(*old(self), *old(memory), *instruction, *final(self), *final(memory), outcome),
    {
        let destination = self.operand(instruction, 0)?;
        let original = self.read_operand(destination, memory)?;
        let source = self.operand(instruction, 1)?;
        let raw = self.read_operand(source, memory)?;
        let count = raw & 31;
        assert(count <= 31) by (bit_vector)
            requires
                count == raw & 31,
        ;
        let width = destination.width;
        let operation = instruction.head.mnemonic;
        let mut result = original;
        let mut carry = false;
        let mut step: u32 = 0;
        while step < count
            invariant
                step <= count,
                (result, carry) == shift_steps(operation, original, width, step as nat),
            decreases count - step,
        {
            if operation == codes::OP_SHL {
                carry = result & width.sign_bit() != 0;
                result = (result << 1) & width.mask();
            } else {
                carry = result & 1 != 0;
                let sign = if operation == codes::OP_SAR {
                    result & width.sign_bit()
                } else {
                    0
                };
                result = (result >> 1) | sign;
            }
            step = step + 1;
        }
        self.write_operand(destination, result, memory)?;
        if count == 0 {
            return Ok(());
        }
        if operation != codes::OP_SAR && count >= 8 * width.bytes() {
            carry = false;
        }
        let overflow = count == 1 && if operation == codes::OP_SHL {
            (result & width.sign_bit() != 0) != carry
        } else if operation == codes::OP_SHR {
            original & width.sign_bit() != 0
        } else {
            false
        };
        self.eflags = shifted_flags(self.eflags, carry, overflow, result, width);
        Ok(())
    }
}

} // verus!
