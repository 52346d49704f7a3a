//! Unsigned division of `edx:eax` (or `ax`) and signed division of `edx:eax`.
use super::decoding::Instruction;
use super::operands::{lemma_operand_fits, operand_at, operand_value, Width};
use super::{Cpu32, Register32, StopReason};
use crate::memory::GuestMemory;
use vstd::prelude::*;

verus! {

/// The unsigned dividend for a divisor of `width`: `ax` for a byte, else
/// `dx:ax` or `edx:eax`.
pub open spec fn unsigned_dividend(cpu: Cpu32, width: Width) -> int {
    let mask = width.spec_mask();
    if width == Width::Byte {
        (cpu.reg(Register32::Eax) & 0xffff) as int
    } else {
        (cpu.reg(Register32::Edx) & mask) * (mask + 1) + (cpu.reg(Register32::Eax) & mask)
    }
}

/// `cpu` is `old` with only `eax` and `edx` changed, to the values given.
pub open spec fn pair_set(cpu: Cpu32, old: Cpu32, eax: u32, edx: u32) -> bool {
    &&& cpu.reg(Register32::Eax) == eax
    &&& cpu.reg(Register32::Edx) == edx
    &&& forall|other: Register32|
        other != Register32::Eax && other != Register32::Edx ==> #[trigger] cpu.reg(other)
            == old.reg(other)
    &&& cpu.fs_base == old.fs_base
    &&& cpu.x87_control_word == old.x87_control_word
    &&& cpu.mmx == old.mmx
    &&& cpu.eip == old.eip
    &&& cpu.eflags == old.eflags
}

/// What `div` does: quotient and remainder replace the low parts of `eax`
/// and `edx` (for a byte divisor, `al` and `ah`); a zero divisor or a quotient
/// too wide for the divisor's width is a divide error. Flags are kept.
pub open spec fn divide_effect(
    old: Cpu32,
    memory: GuestMemory,
    instruction: Instruction,
    cpu: Cpu32,
    outcome: Result<(), StopReason>,
) -> bool {
    match operand_at(old, instruction, 0) {
        Err(error) => outcome == Err::<(), StopReason>(error) && cpu == old,
        Ok(source) => match operand_value(old, memory, source) {
            Err(error) => outcome == Err::<(), StopReason>(error) && cpu == old,
            Ok(divisor) => {
                let width = source.width;
                let mask = width.spec_mask();
                let dividend = unsigned_dividend(old, width);
                let low = old.reg(Register32::Eax);
                let high = old.reg(Register32::Edx);
                if divisor == 0 || dividend / (divisor as int) > mask {
                    outcome == Err::<(), StopReason>(StopReason::DivideError) && cpu == old
                } else {
                    let quotient = dividend / (divisor as int);
                    let remainder = dividend % (divisor as int);
                    &&& outcome is Ok
                    &&& if width == Width::Byte {
                        cpu.register_set(
                            old,
                            Register32::Eax,
                            ((low & !0xffffu32) + remainder * 256 + quotient) as u32,
                        )
                    } else {
                        pair_set(
                            cpu,
                            old,
                            (low & !mask) | (quotient as u32),
                            (high & !mask) | (remainder as u32),
                        )
                    }
                }
            },
        },
    }
}

/// A dword read as a two's-complement number.
pub open spec fn signed_dword(value: u32) -> int {
    if value >= 0x8000_0000 {
        value - 0x1_0000_0000
    } else {
        value as int
    }
}

/// `high:low` read as a two's-complement quadword.
pub open spec fn signed_pair(high: u32, low: u32) -> int {
    let value = high * 0x1_0000_0000 + low;
    if value >= 0x8000_0000_0000_0000 {
        value - 0x1_0000_0000_0000_0000
    } else {
        value
    }
}

/// The quotient of `dividend / divisor` rounded toward zero.
pub open spec fn truncated_quotient(dividend: int, divisor: int) -> int {
    let magnitude = abs(dividend) / abs(divisor);
    if (dividend < 0) != (divisor < 0) {
        -magnitude
    } else {
        magnitude
    }
}

/// `|value|`.
pub open spec fn abs(value: int) -> int {
    if value < 0 {
        -value
    } else {
        value
    }
}

/// What `idiv` of `edx:eax` by a dword does: the quotient, rounded toward
/// zero, goes to `eax` and the remainder, with the dividend's sign, to `edx`;
/// a zero divisor or a quotient outside the signed dword range is a divide
/// error. Flags are kept.
pub open spec fn signed_divide_effect(
    old: Cpu32,
    memory: GuestMemory,
    instruction: Instruction,
    cpu: Cpu32,
    outcome: Result<(), StopReason>,
) -> bool {
    match operand_at(old, instruction, 0) {
        Err(error) => outcome == Err::<(), StopReason>(error) && cpu == old,
        Ok(source) => match operand_value(old, memory, source) {
            Err(error) => outcome == Err::<(), StopReason>(error) && cpu == old,
            Ok(raw) => {
                let divisor = signed_dword(raw);
                let dividend = signed_pair(old.reg(Register32::Edx), old.reg(Register32::Eax));
                let quotient = truncated_quotient(dividend, divisor);
                if divisor == 0 || !(-0x8000_0000 <= quotient < 0x8000_0000) {
                    outcome == Err::<(), StopReason>(StopReason::DivideError) && cpu == old
                } else {
                    let remainder = dividend - divisor * quotient;
                    outcome is Ok && pair_set(
                        cpu,
                        old,
                        (quotient % 0x1_0000_0000) as u32,
                        (remainder % 0x1_0000_0000) as u32,
                    )
                }
            },
        },
    }
}

impl Cpu32 {
    /// Executes an unsigned `div` by a byte, word or dword.
    pub fn divide(&mut self, instruction: &Instruction, memory: &GuestMemory) -> (outcome: Result<
        (),
        StopReason,
    >)
        requires
            memory.wf(),
        ensures
            outcome matches Err(reason) ==> reason.is_fault(),
            divide_effect(*old(self), *memory, *instruction, *final(self), outcome),
    {
        let source = self.operand(instruction, 0)?;
        let divisor = self.read_operand(source, memory)?;
        proof {
            lemma_operand_fits(*self, *memory, source);
        }
        let width = source.width;
        let mask = width.mask();
        let low = self.register(Register32::Eax);
        let high = self.register(Register32::Edx);
        let dividend: u64 = if width.bytes() == 1 {
            (low & 0xffff) as u64
        } else {
            assert((high & mask) <= mask && (low & mask) <= mask) by (bit_vector);
            assert((high & mask) as u64 * (mask as u64 + 1) <= mask as u64 * (mask as u64 + 1)) by (nonlinear_arith)
                requires
                    (high & mask) <= mask,
            ;
            assert(mask as u64 * (mask as u64 + 1) + mask <= u64::MAX) by (nonlinear_arith)
                requires
                    mask <= 0xffff_ffff,
            ;
            let shifted = (high & mask) as u64 * (mask as u64 + 1);
            shifted + (low & mask) as u64
        };
        if divisor == 0 {
            return Err(StopReason::DivideError);
        }
        let quotient = dividend / divisor as u64;
        if quotient > mask as u64 {
            return Err(StopReason::DivideError);
        }
        let remainder = dividend % divisor as u64;
        assert(remainder < divisor);
        let quotient = quotient as u32;
        let remainder = remainder as u32;
        if width.bytes() == 1 {
            assert((low & !0xffffu32) + remainder * 256 + quotient == (low & !0xffffu32) | (
            remainder << 8u32) | quotient) by (bit_vector)
                requires
                    remainder < 256,
                    quotient < 256,
            ;
            assert((low & !0xffffu32) + remainder * 256 + quotient <= u32::MAX) by (bit_vector)
                requires
                    remainder < 256,
                    quotient < 256,
            ;
            self.set_register(Register32::Eax, (low & !0xffff) | (remainder << 8) | quotient);
        } else {
            self.set_register(Register32::Eax, (low & !mask) | quotient);
            self.set_register(Register32::Edx, (high & !mask) | remainder);
        }
        Ok(())
    }

    /// Executes a signed `idiv` of `edx:eax` by a dword.
    pub fn divide_signed_dword(&mut self, instruction: &Instruction, memory: &GuestMemory) -> (outcome:
        Result<(), StopReason>)
        requires
            memory.wf(),
        ensures
            outcome matches Err(reason) ==> reason.is_fault(),
            signed_divide_effect(*old(self), *memory, *instruction, *final(self), outcome),
    {
        let source = self.operand(instruction, 0)?;
        let raw = self.read_operand(source, memory)?;
        let high = self.register(Register32::Edx);
        let low = self.register(Register32::Eax);
        let negative_divisor = raw >= 0x8000_0000;
        let divisor: u64 = if negative_divisor {
            0x1_0000_0000 - raw as u64
        } else {
            raw as u64
        };
        let combined: u64 = high as u64 * 0x1_0000_0000 + low as u64;
        let negative_dividend = combined >= 0x8000_0000_0000_0000;
        let dividend: u64 = if negative_dividend {
            u64::MAX - combined + 1
        } else {
            combined
        };
        if divisor == 0 {
            return Err(StopReason::DivideError);
        }
        let quotient = dividend / divisor;
        let remainder = dividend % divisor;
        let negative = negative_dividend != negative_divisor;
        if (negative && quotient > 0x8000_0000) || (!negative && quotient > 0x7fff_ffff) {
            return Err(StopReason::DivideError);
        }
        proof {
            vstd::arithmetic::div_mod::lemma_fundamental_div_mod(dividend as int, divisor as int);
            let a = signed_pair(high, low);
            let b = signed_dword(raw);
            let q = truncated_quotient(a, b);
            assert(abs(a) == dividend && abs(b) == divisor);
            assert(a - b * q == if negative_dividend {
                -(remainder as int)
            } else {
                remainder as int
            }) by (nonlinear_arith)
                requires
                    abs(a) == divisor * quotient + remainder,
                    abs(b) == divisor,
                    q == if (a < 0) != (b < 0) {
                        -(quotient as int)
                    } else {
                        quotient as int
                    },
                    negative_dividend == (a < 0),
                    a == if a < 0 {
                        -abs(a)
                    } else {
                        abs(a)
                    },
                    b == if b < 0 {
                        -abs(b)
                    } else {
                        abs(b)
                    },
            ;
        }
        let eax: u32 = if negative && quotient != 0 {
            (0x1_0000_0000 - quotient) as u32
        } else {
            quotient as u32
        };
        let edx: u32 = if negative_dividend && remainder != 0 {
            (0x1_0000_0000 - remainder) as u32
        } else {
            remainder as u32
        };
        self.set_register(Register32::Eax, eax);
        self.set_register(Register32::Edx, edx);
        Ok(())
    }
}

} // verus!
