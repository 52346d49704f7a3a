//! The arithmetic status flags of `eflags`.
use super::operands::Width;
use super::Cpu32;
use vstd::prelude::*;

verus! {

/// The status flags: carry, parity, adjust, zero, sign and overflow.
pub const STATUS_FLAGS: u32 = 0x8d5;

/// The number of set bits among the low `count` bits of `value`.
pub open spec fn ones(value: u32, count: nat) -> nat
    decreases count,
{
    if count == 0 {
        0
    } else {
        ones(value, (count - 1) as nat) + ((value >> ((count - 1) as u32)) & 1) as nat
    }
}

/// Whether the low byte of `result` has an even number of set bits.
pub open spec fn even_parity(result: u32) -> bool {
    ones(result, 8) % 2 == 0
}

/// Signed overflow of `left + right` or `left - right` giving `result`: the
/// operands' signs make the result's sign impossible.
pub open spec fn overflows(left: u32, right: u32, result: u32, subtract: bool, width: Width) -> bool {
    if subtract {
        (left ^ right) & (left ^ result) & width.spec_sign_bit() != 0
    } else {
        !(left ^ right) & (left ^ result) & width.spec_sign_bit() != 0
    }
}

/// `flags` is `old` with the status flags set as given, for `result` of `width`.
pub open spec fn status_set(
    flags: u32,
    old: u32,
    carry: bool,
    adjust: bool,
    overflow: bool,
    result: u32,
    width: Width,
) -> bool {
    &&& flags & !STATUS_FLAGS == old & !STATUS_FLAGS
    &&& (flags & 1 != 0) == carry
    &&& (flags & 4 != 0) == even_parity(result)
    &&& (flags & 0x10 != 0) == adjust
    &&& (flags & 0x40 != 0) == (result == 0)
    &&& (flags & 0x80 != 0) == (result & width.spec_sign_bit() != 0)
    &&& (flags & 0x800 != 0) == overflow
}

/// `cpu` is `old` with only `eflags` changed.
pub open spec fn only_flags_changed(cpu: Cpu32, old: Cpu32) -> bool {
    &&& cpu.registers == old.registers
    &&& cpu.fs_base == old.fs_base
    &&& cpu.x87_control_word == old.x87_control_word
    &&& cpu.mmx == old.mmx
    &&& cpu.eip == old.eip
}

/// Whether the low byte of `result` has an even number of set bits.
pub fn parity(result: u32) -> (even: bool)
    ensures
        even == even_parity(result),
{
    let mut count: u32 = 0;
    let mut bit: u32 = 0;
    while bit < 8
        invariant
            bit <= 8,
            count <= bit,
            count == ones(result, bit as nat),
        decreases 8 - bit,
    {
        assert((result >> bit) & 1 <= 1) by (bit_vector);
        count = count + ((result >> bit) & 1);
        bit = bit + 1;
    }
    count % 2 == 0
}

/// The parity, zero and sign flags of `result`.
pub fn result_flags(result: u32, width: Width) -> (flags: u32)
    ensures
        flags & !0xc4u32 == 0,
        (flags & 4 != 0) == even_parity(result),
        (flags & 0x40 != 0) == (result == 0),
        (flags & 0x80 != 0) == (result & width.spec_sign_bit() != 0),
{
    let parity_bit: u32 = if parity(result) { 1 } else { 0 };
    let zero_bit: u32 = if result == 0 { 1 } else { 0 };
    let sign_bit: u32 = if result & width.sign_bit() != 0 { 1 } else { 0 };
    let flags = (parity_bit << 2) | (zero_bit << 6) | (sign_bit << 7);
    assert(flags & !0xc4u32 == 0 && (flags & 4 != 0) == (parity_bit == 1) && (flags & 0x40 != 0)
        == (zero_bit == 1) && (flags & 0x80 != 0) == (sign_bit == 1)) by (bit_vector)
        requires
            parity_bit <= 1,
            zero_bit <= 1,
            sign_bit <= 1,
            flags == (parity_bit << 2) | (zero_bit << 6) | (sign_bit << 7),
    ;
    flags
}

/// Combines `old` flags with the status flags of an arithmetic result.
pub fn status_flags(
    old: u32,
    left: u32,
    right: u32,
    result: u32,
    carry: bool,
    subtract: bool,
    width: Width,
) -> (flags: u32)
    ensures
        status_set(
            flags,
            old,
            carry,
            (left ^ right ^ result) & 0x10 != 0,
            overflows(left, right, result, subtract, width),
            result,
            width,
        ),
{
    let sign = width.sign_bit();
    let overflow = if subtract {
        (left ^ right) & (left ^ result)
    } else {
        !(left ^ right) & (left ^ result)
    } & sign != 0;
    let carry_bit: u32 = if carry { 1 } else { 0 };
    let overflow_bit: u32 = if overflow { 1 } else { 0 };
    let parts = result_flags(result, width);
    let adjust = (left ^ right ^ result) & 0x10;
    let flags = (old & !STATUS_FLAGS) | carry_bit | parts | adjust | (overflow_bit << 11);
    assert(adjust & !0x10u32 == 0) by (bit_vector)
        requires
            adjust == (left ^ right ^ result) & 0x10,
    ;
    assert(flags & !0x8d5u32 == old & !0x8d5u32 && (flags & 1 != 0) == (carry_bit == 1) && (flags
        & 4 != 0) == (parts & 4 != 0) && (flags & 0x10 != 0) == (adjust != 0) && (flags & 0x40 != 0)
        == (parts & 0x40 != 0) && (flags & 0x80 != 0) == (parts & 0x80 != 0) && (flags & 0x800 != 0)
        == (overflow_bit == 1)) by (bit_vector)
        requires
            carry_bit <= 1,
            overflow_bit <= 1,
            parts & !0xc4u32 == 0,
            adjust & !0x10u32 == 0,
            flags == (old & !0x8d5u32) | carry_bit | parts | adjust | (overflow_bit << 11),
    ;
    flags
}

/// Combines `old` flags with the flags of a logical result: carry, adjust and
/// overflow clear.
pub fn logic_flags(old: u32, result: u32, width: Width) -> (flags: u32)
    ensures
        status_set(flags, old, false, false, false, result, width),
{
    let parts = result_flags(result, width);
    let flags = (old & !STATUS_FLAGS) | parts;
    assert(flags & !0x8d5u32 == old & !0x8d5u32 && (flags & 1 == 0) && (flags & 0x10 == 0) && (flags
        & 0x800 == 0) && (flags & 4) == (parts & 4) && (flags & 0x40) == (parts & 0x40) && (flags
        & 0x80) == (parts & 0x80)) by (bit_vector)
        requires
            parts & !0xc4u32 == 0,
            flags == (old & !0x8d5u32) | parts,
    ;
    flags
}

} // verus!
