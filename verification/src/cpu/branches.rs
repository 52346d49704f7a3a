//! Conditional jumps and `setcc`: sixteen conditions on the status flags.
use super::arithmetic::{binary_value, signed_value, wrap};
use super::codes;
use super::flags::{even_parity, overflows, status_set};
use super::operands::Width;
use super::decoding::Instruction;
use super::operands::{operand_at, operand_store_outcome, stored};
use super::{Cpu32, StopReason};
use crate::memory::GuestMemory;
use vstd::prelude::*;

verus! {

/// The condition number (in the processor's encoding order: o, no, b, ae, e,
/// ne, be, a, s, ns, p, np, l, ge, le, g) of a conditional form.
pub open spec fn condition_of(code: u16) -> Option<u8> {
    if code == codes::JO_REL8_32 || code == codes::JO_REL32_32 || code == codes::SETO_RM8 {
        Some(0u8)
    } else if code == codes::JNO_REL8_32 || code == codes::JNO_REL32_32 || code == codes::SETNO_RM8 {
        Some(1u8)
    } else if code == codes::JB_REL8_32 || code == codes::JB_REL32_32 || code == codes::SETB_RM8 {
        Some(2u8)
    } else if code == codes::JAE_REL8_32 || code == codes::JAE_REL32_32 || code == codes::SETAE_RM8 {
        Some(3u8)
    } else if code == codes::JE_REL8_32 || code == codes::JE_REL32_32 || code == codes::SETE_RM8 {
        Some(4u8)
    } else if code == codes::JNE_REL8_32 || code == codes::JNE_REL32_32 || code == codes::SETNE_RM8 {
        Some(5u8)
    } else if code == codes::JBE_REL8_32 || code == codes::JBE_REL32_32 || code == codes::SETBE_RM8 {
        Some(6u8)
    } else if code == codes::JA_REL8_32 || code == codes::JA_REL32_32 || code == codes::SETA_RM8 {
        Some(7u8)
    } else if code == codes::JS_REL8_32 || code == codes::JS_REL32_32 || code == codes::SETS_RM8 {
        Some(8u8)
    } else if code == codes::JNS_REL8_32 || code == codes::JNS_REL32_32 || code == codes::SETNS_RM8 {
        Some(9u8)
    } else if code == codes::JP_REL8_32 || code == codes::JP_REL32_32 || code == codes::SETP_RM8 {
        Some(10u8)
    } else if code == codes::JNP_REL8_32 || code == codes::JNP_REL32_32 || code == codes::SETNP_RM8 {
        Some(11u8)
    } else if code == codes::JL_REL8_32 || code == codes::JL_REL32_32 || code == codes::SETL_RM8 {
        Some(12u8)
    } else if code == codes::JGE_REL8_32 || code == codes::JGE_REL32_32 || code == codes::SETGE_RM8 {
        Some(13u8)
    } else if code == codes::JLE_REL8_32 || code == codes::JLE_REL32_32 || code == codes::SETLE_RM8 {
        Some(14u8)
    } else if code == codes::JG_REL8_32 || code == codes::JG_REL32_32 || code == codes::SETG_RM8 {
        Some(15u8)
    } else {
        None
    }
}

/// Whether condition `condition` holds of the flags `eflags`.
pub open spec fn condition_holds(condition: u8, eflags: u32) -> bool {
    let carry = eflags & 1 != 0;
    let parity = eflags & 4 != 0;
    let zero = eflags & 0x40 != 0;
    let sign = eflags & 0x80 != 0;
    let overflow = eflags & 0x800 != 0;
    if condition == 0 {
        overflow
    } else if condition == 1 {
        !overflow
    } else if condition == 2 {
        carry
    } else if condition == 3 {
        !carry
    } else if condition == 4 {
        zero
    } else if condition == 5 {
        !zero
    } else if condition == 6 {
        carry || zero
    } else if condition == 7 {
        !carry && !zero
    } else if condition == 8 {
        sign
    } else if condition == 9 {
        !sign
    } else if condition == 10 {
        parity
    } else if condition == 11 {
        !parity
    } else if condition == 12 {
        sign != overflow
    } else if condition == 13 {
        sign == overflow
    } else if condition == 14 {
        zero || sign != overflow
    } else {
        !zero && sign == overflow
    }
}

/// What a conditional jump or `setcc` does, and where execution continues.
pub open spec fn conditional_effect(
    old: Cpu32,
    old_memory: GuestMemory,
    instruction: Instruction,
    cpu: Cpu32,
    memory: GuestMemory,
    outcome: Result<u32, StopReason>,
) -> bool {
    let next = instruction.head.next_ip;
    let unchanged = cpu == old && memory == old_memory;
    match condition_of(instruction.head.code) {
        None => outcome == Err::<u32, StopReason>(StopReason::UnsupportedInstruction) && unchanged,
        Some(condition) => {
            let taken = condition_holds(condition, old.eflags);
            let kind = instruction.operands.kind0;
            if kind == codes::KIND_REGISTER || kind == codes::KIND_MEMORY {
                match operand_at(old, instruction, 0) {
                    Err(error) => outcome == Err::<u32, StopReason>(error) && unchanged,
                    Ok(destination) => match operand_store_outcome(old_memory, destination) {
                        Err(error) => outcome == Err::<u32, StopReason>(error) && unchanged,
                        Ok(()) => outcome == Ok::<u32, StopReason>(next) && stored(
                            cpu,
                            memory,
                            old,
                            old_memory,
                            destination,
                            if taken {
                                1
                            } else {
                                0
                            },
                        ),
                    },
                }
            } else {
                outcome == Ok::<u32, StopReason>(
                    if taken {
                        instruction.operands.target
                    } else {
                        next
                    },
                ) && unchanged
            }
        },
    }
}

/// The condition number of a conditional form.
fn condition_number(code: u16) -> (condition: Option<u8>)
    ensures
        condition == condition_of(code),
{
    if code == codes::JO_REL8_32 || code == codes::JO_REL32_32 || code == codes::SETO_RM8 {
        Some(0)
    } else if code == codes::JNO_REL8_32 || code == codes::JNO_REL32_32 || code == codes::SETNO_RM8 {
        Some(1)
    } else if code == codes::JB_REL8_32 || code == codes::JB_REL32_32 || code == codes::SETB_RM8 {
        Some(2)
    } else if code == codes::JAE_REL8_32 || code == codes::JAE_REL32_32 || code == codes::SETAE_RM8 {
        Some(3)
    } else if code == codes::JE_REL8_32 || code == codes::JE_REL32_32 || code == codes::SETE_RM8 {
        Some(4)
    } else if code == codes::JNE_REL8_32 || code == codes::JNE_REL32_32 || code == codes::SETNE_RM8 {
        Some(5)
    } else if code == codes::JBE_REL8_32 || code == codes::JBE_REL32_32 || code == codes::SETBE_RM8 {
        Some(6)
    } else if code == codes::JA_REL8_32 || code == codes::JA_REL32_32 || code == codes::SETA_RM8 {
        Some(7)
    } else if code == codes::JS_REL8_32 || code == codes::JS_REL32_32 || code == codes::SETS_RM8 {
        Some(8)
    } else if code == codes::JNS_REL8_32 || code == codes::JNS_REL32_32 || code == codes::SETNS_RM8 {
        Some(9)
    } else if code == codes::JP_REL8_32 || code == codes::JP_REL32_32 || code == codes::SETP_RM8 {
        Some(10)
    } else if code == codes::JNP_REL8_32 || code == codes::JNP_REL32_32 || code == codes::SETNP_RM8 {
        Some(11)
    } else if code == codes::JL_REL8_32 || code == codes::JL_REL32_32 || code == codes::SETL_RM8 {
        Some(12)
    } else if code == codes::JGE_REL8_32 || code == codes::JGE_REL32_32 || code == codes::SETGE_RM8 {
        Some(13)
    } else if code == codes::JLE_REL8_32 || code == codes::JLE_REL32_32 || code == codes::SETLE_RM8 {
        Some(14)
    } else if code == codes::JG_REL8_32 || code == codes::JG_REL32_32 || code == codes::SETG_RM8 {
        Some(15)
    } else {
        None
    }
}

/// Whether condition `condition` holds of `eflags`.
fn holds(condition: u8, eflags: u32) -> (taken: bool)
    ensures
        taken == condition_holds(condition, eflags),
{
    let carry = eflags & 1 != 0;
    let parity = eflags & 4 != 0;
    let zero = eflags & 0x40 != 0;
    let sign = eflags & 0x80 != 0;
    let overflow = eflags & 0x800 != 0;
    if condition == 0 {
        overflow
    } else if condition == 1 {
        !overflow
    } else if condition == 2 {
        carry
    } else if condition == 3 {
        !carry
    } else if condition == 4 {
        zero
    } else if condition == 5 {
        !zero
    } else if condition == 6 {
        carry || zero
    } else if condition == 7 {
        !carry && !zero
    } else if condition == 8 {
        sign
    } else if condition == 9 {
        !sign
    } else if condition == 10 {
        parity
    } else if condition == 11 {
        !parity
    } else if condition == 12 {
        sign != overflow
    } else if condition == 13 {
        sign == overflow
    } else if condition == 14 {
        zero || sign != overflow
    } else {
        !zero && sign == overflow
    }
}

/// Whatever operation set the status flags, `o` and `no` test its
/// overflow, `s` and `ns` the sign of its result, `p` and `np` the parity
/// of the result's low byte, `e` and `ne` whether the result is zero, and
/// `b` and `ae` its carry; each negated condition holds exactly when the
/// other does not.
pub proof fn law_conditions_read_flags(
    flags: u32,
    old_flags: u32,
    carry: bool,
    adjust: bool,
    overflow: bool,
    result: u32,
    width: Width,
)
    requires
        status_set(flags, old_flags, carry, adjust, overflow, result, width),
    ensures
        condition_holds(0, flags) == overflow,
        condition_holds(2, flags) == carry,
        condition_holds(4, flags) == (result == 0),
        condition_holds(8, flags) == (result & width.spec_sign_bit() != 0),
        condition_holds(10, flags) == even_parity(result),
        forall|condition: u8|
            condition < 16 && condition % 2 == 0 ==> condition_holds((condition + 1) as u8, flags)
                == !#[trigger] condition_holds(condition, flags),
{
}

/// The difference `left - right` of two `width`-bit values, wrapped to the
/// width, is the difference itself or the difference plus 2 to the width.
proof fn lemma_wrapped_difference(left: u32, right: u32, width: Width)
    requires
        left <= width.spec_mask(),
        right <= width.spec_mask(),
    ensures
        wrap(left - right, width) == (if left >= right {
            left - right
        } else {
            left - right + width.spec_mask() + 1
        }) as u32,
{
    let modulus: int = width.spec_mask() + 1;
    if left >= right {
        vstd::arithmetic::div_mod::lemma_small_mod((left - right) as nat, modulus as nat);
    } else {
        vstd::arithmetic::div_mod::lemma_mod_add_multiples_vanish(left - right, modulus);
        vstd::arithmetic::div_mod::lemma_small_mod((left - right + modulus) as nat, modulus as nat);
    }
}

proof fn lemma_compare_byte(left: u32, right: u32, difference: u32)
    by (bit_vector)
    requires
        left <= 0xff,
        right <= 0xff,
        difference == (if left >= right {
            left - right
        } else {
            left - right + 0x100
        }) as u32,
    ensures
        (difference == 0) == (left == right),
        ((difference & 0x80 != 0) != ((left ^ right) & (left ^ difference) & 0x80 != 0)) == ((if left
            & 0x80 != 0 {
            (left & 0xff) - 0x100
        } else {
            (left & 0xff) as int
        }) < (if right & 0x80 != 0 {
            (right & 0xff) - 0x100
        } else {
            (right & 0xff) as int
        })),
        (if left & 0x80 != 0 {
            (left & 0xff) - 0x100
        } else {
            (left & 0xff) as int
        }) == (if right & 0x80 != 0 {
            (right & 0xff) - 0x100
        } else {
            (right & 0xff) as int
        }) ==> left == right,
{
}

proof fn lemma_compare_word(left: u32, right: u32, difference: u32)
    by (bit_vector)
    requires
        left <= 0xffff,
        right <= 0xffff,
        difference == (if left >= right {
            left - right
        } else {
            left - right + 0x1_0000
        }) as u32,
    ensures
        (difference == 0) == (left == right),
        ((difference & 0x8000 != 0) != ((left ^ right) & (left ^ difference) & 0x8000 != 0)) == ((
        if left & 0x8000 != 0 {
            (left & 0xffff) - 0x1_0000
        } else {
            (left & 0xffff) as int
        }) < (if right & 0x8000 != 0 {
            (right & 0xffff) - 0x1_0000
        } else {
            (right & 0xffff) as int
        })),
        (if left & 0x8000 != 0 {
            (left & 0xffff) - 0x1_0000
        } else {
            (left & 0xffff) as int
        }) == (if right & 0x8000 != 0 {
            (right & 0xffff) - 0x1_0000
        } else {
            (right & 0xffff) as int
        }) ==> left == right,
{
}

proof fn lemma_compare_dword(left: u32, right: u32, difference: u32)
    by (bit_vector)
    requires
        difference == (if left >= right {
            left - right
        } else {
            left - right + 0x1_0000_0000
        }) as u32,
    ensures
        (difference == 0) == (left == right),
        ((difference & 0x8000_0000 != 0) != ((left ^ right) & (left ^ difference) & 0x8000_0000
            != 0)) == ((if left & 0x8000_0000 != 0 {
            (left & 0xffff_ffff) - 0x1_0000_0000
        } else {
            (left & 0xffff_ffff) as int
        }) < (if right & 0x8000_0000 != 0 {
            (right & 0xffff_ffff) - 0x1_0000_0000
        } else {
            (right & 0xffff_ffff) as int
        })),
        (if left & 0x8000_0000 != 0 {
            (left & 0xffff_ffff) - 0x1_0000_0000
        } else {
            (left & 0xffff_ffff) as int
        }) == (if right & 0x8000_0000 != 0 {
            (right & 0xffff_ffff) - 0x1_0000_0000
        } else {
            (right & 0xffff_ffff) as int
        }) ==> left == right,
{
}

/// After `cmp left, right` on `width`-bit values, each comparing condition
/// holds exactly when the operands compare that way: `b`, `ae`, `e`, `ne`,
/// `be` and `a` as unsigned numbers, `l`, `ge`, `le` and `g` as signed
/// numbers.
pub proof fn law_conditions_after_compare(
    left: u32,
    right: u32,
    width: Width,
    old_flags: u32,
    adjust: bool,
    flags: u32,
)
    requires
        left <= width.spec_mask(),
        right <= width.spec_mask(),
        status_set(
            flags,
            old_flags,
            binary_value(codes::OP_CMP, left, right, false, width).1,
            adjust,
            overflows(left, right, binary_value(codes::OP_CMP, left, right, false, width).0, true, width),
            binary_value(codes::OP_CMP, left, right, false, width).0,
            width,
        ),
    ensures
        condition_holds(2, flags) == (left < right),
        condition_holds(3, flags) == (left >= right),
        condition_holds(4, flags) == (left == right),
        condition_holds(5, flags) == (left != right),
        condition_holds(6, flags) == (left <= right),
        condition_holds(7, flags) == (left > right),
        condition_holds(12, flags) == (signed_value(left, width) < signed_value(right, width)),
        condition_holds(13, flags) == (signed_value(left, width) >= signed_value(right, width)),
        condition_holds(14, flags) == (signed_value(left, width) <= signed_value(right, width)),
        condition_holds(15, flags) == (signed_value(left, width) > signed_value(right, width)),
{
    let difference = binary_value(codes::OP_CMP, left, right, false, width).0;
    lemma_wrapped_difference(left, right, width);
    match width {
        Width::Byte => {
            lemma_compare_byte(left, right, difference);
        },
        Width::Word => {
            lemma_compare_word(left, right, difference);
        },
        Width::Dword => {
            lemma_compare_dword(left, right, difference);
        },
    }
}

impl Cpu32 {
    /// Executes a conditional jump or `setcc`: a jump continues at its target
    /// when the condition holds, a `setcc` writes 1 or 0 to its operand.
    pub fn conditional_instruction(&mut self, instruction: &Instruction, memory: &mut GuestMemory) -> (outcome:
        Result<u32, StopReason>)
        requires
            old(memory).wf(),
        ensures
            outcome matches Err(reason) ==> reason.is_fault(),
            final(memory).wf(),
            conditional_effect(*old(self), *old(memory), *instruction, *final(self), *final(memory), outcome),
    {
        let condition = match condition_number(instruction.head.code) {
            Some(condition) => condition,
            None => return Err(StopReason::UnsupportedInstruction),
        };
        let taken = holds(condition, self.eflags);
        let next = instruction.head.next_ip;
        let kind = instruction.operands.kind0;
        if kind == codes::KIND_REGISTER || kind == codes::KIND_MEMORY {
            let destination = self.operand(instruction, 0)?;
            let value: u32 = if taken {
                1
            } else {
                0
            };
            self.write_operand(destination, value, memory)?;
            return Ok(next);
        }
        if taken {
            Ok(instruction.operands.target)
        } else {
            Ok(next)
        }
    }
}

} // verus!
