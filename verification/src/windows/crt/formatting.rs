//! `_vsnprintf` with the conversions programs use: `%s`, `%c`, `%d`, `%i`,
//! `%u`, `%x`, `%X` and `%%`, taking one dword argument each from the
//! argument list.
use super::super::guest::{check, check_outcome, read_word, word_outcome};
use super::super::DispatchError;
use super::strings::{bytes_at, length_from, read_text};
use crate::memory::{Access, GuestMemory, MemoryError};
use vstd::prelude::*;

verus! {

/// The longest output, and the longest `%s` argument.
pub const OUTPUT_LIMIT: u32 = 65536;

/// The longest format string.
pub const FORMAT_LIMIT: u32 = 4096;

/// The ASCII digit of `digit` (below 16), in upper or lower case.
pub open spec fn digit_byte(digit: int, upper: bool) -> u8 {
    if digit < 10 {
        (0x30 + digit) as u8
    } else if upper {
        (0x41 + digit - 10) as u8
    } else {
        (0x61 + digit - 10) as u8
    }
}

/// `value` written in `base` without leading zeros ("0" for zero).
pub open spec fn digits(value: nat, base: nat, upper: bool) -> Seq<u8>
    decreases value,
{
    if base < 2 || value < base {
        seq![digit_byte(value as int, upper)]
    } else {
        proof {
            assert(value / base < value) by (nonlinear_arith)
                requires
                    base >= 2,
                    value >= base,
            ;
        }
        digits(value / base, base, upper).push(digit_byte((value % base) as int, upper))
    }
}

/// `value` read as a signed 32-bit number, in decimal.
pub open spec fn signed_decimal(value: u32) -> Seq<u8> {
    if value >= 0x8000_0000 {
        seq![0x2du8] + digits((0x1_0000_0000 - value) as nat, 10, false)
    } else {
        digits(value as nat, 10, false)
    }
}

/// Whether `byte` names a conversion that takes an argument.
pub open spec fn is_conversion(byte: u8) -> bool {
    byte == 0x73 || byte == 0x63 || byte == 0x64 || byte == 0x69 || byte == 0x75 || byte == 0x78
        || byte == 0x58
}

/// The outcome of reading the string at `source` (not null) that must end
/// within `limit` bytes: its bytes before the terminator.
pub open spec fn text_outcome(memory: GuestMemory, source: u32, limit: int) -> Result<Seq<u8>, DispatchError> {
    if source == 0 {
        Err(DispatchError::Unsupported)
    } else {
        match length_from(memory, source, 0, limit, Err(DispatchError::Unsupported)) {
            Err(error) => Err(error),
            Ok(length) => Ok(bytes_at(memory, source, length as int)),
        }
    }
}

/// What the conversion `conversion` makes of the argument `value`.
pub open spec fn converted(memory: GuestMemory, conversion: u8, value: u32) -> Result<Seq<u8>, DispatchError> {
    if conversion == 0x73 {
        text_outcome(memory, value, OUTPUT_LIMIT as int)
    } else if conversion == 0x63 {
        Ok(seq![(value % 256) as u8])
    } else if conversion == 0x64 || conversion == 0x69 {
        Ok(signed_decimal(value))
    } else if conversion == 0x75 {
        Ok(digits(value as nat, 10, false))
    } else {
        Ok(digits(value as nat, 16, conversion == 0x58))
    }
}

/// Rendering `format[index..]` after `output`, with the next argument at
/// `cursor`: the whole output, or why the format is refused.
pub open spec fn render_from(
    memory: GuestMemory,
    format: Seq<u8>,
    index: int,
    cursor: int,
    output: Seq<u8>,
) -> Result<Seq<u8>, DispatchError>
    decreases format.len() - index,
{
    if index >= format.len() || index < 0 {
        Ok(output)
    } else if format[index] != 0x25 {
        if output.len() + 1 > OUTPUT_LIMIT {
            Err(DispatchError::Unsupported)
        } else {
            render_from(memory, format, index + 1, cursor, output.push(format[index]))
        }
    } else if index + 1 >= format.len() {
        Err(DispatchError::Unsupported)
    } else {
        let conversion = format[index + 1];
        if conversion == 0x25 {
            if output.len() + 1 > OUTPUT_LIMIT {
                Err(DispatchError::Unsupported)
            } else {
                render_from(memory, format, index + 2, cursor, output.push(0x25))
            }
        } else if !is_conversion(conversion) {
            Err(DispatchError::Unsupported)
        } else if cursor > u32::MAX {
            Err(DispatchError::Memory(MemoryError::AddressOverflow))
        } else {
            match word_outcome(memory, cursor as u32) {
                Err(error) => Err(error),
                Ok(value) => match converted(memory, conversion, value) {
                    Err(error) => Err(error),
                    Ok(text) => if text.len() + output.len() > OUTPUT_LIMIT {
                        Err(DispatchError::Unsupported)
                    } else {
                        render_from(memory, format, index + 2, cursor + 4, output + text)
                    },
                },
            }
        }
    }
}

/// The text that `_vsnprintf(destination, capacity, format, arguments)`
/// produces, before it is stored.
pub open spec fn format_outcome(memory: GuestMemory, arguments: Seq<u32>) -> Result<Seq<u8>, DispatchError> {
    if arguments[0] == 0 && arguments[1] != 0 {
        Err(DispatchError::Unsupported)
    } else {
        match text_outcome(memory, arguments[2], FORMAT_LIMIT as int) {
            Err(error) => Err(error),
            Ok(format) => render_from(memory, format, 0, arguments[3] as int, Seq::empty()),
        }
    }
}

/// What is stored for `text` in a buffer of `capacity` bytes: the text and
/// its terminator where both fit, else as much of the text as fits.
pub open spec fn stored_text(text: Seq<u8>, capacity: u32) -> Seq<u8> {
    if text.len() < capacity {
        text.push(0)
    } else {
        text.subrange(0, capacity as int)
    }
}

/// The value of the digit `byte`: `0`-`9`, then `a`-`f` or `A`-`F` for
/// ten to fifteen; -1 for any other byte.
pub open spec fn digit_value(byte: u8) -> int {
    if 0x30 <= byte <= 0x39 {
        byte - 0x30
    } else if 0x61 <= byte <= 0x66 {
        byte - 0x61 + 10
    } else if 0x41 <= byte <= 0x46 {
        byte - 0x41 + 10
    } else {
        -1
    }
}

/// The number that the digits `text` write in `base`, most significant first.
pub open spec fn numeral_value(text: Seq<u8>, base: int) -> int
    decreases text.len(),
{
    if text.len() == 0 {
        0
    } else {
        numeral_value(text.drop_last(), base) * base + digit_value(text.last())
    }
}

/// Whether `text` is a non-empty run of digits of `base`, with no lower-case
/// letter when `upper` is set and no upper-case one when it is not.
pub open spec fn is_numeral(text: Seq<u8>, base: int, upper: bool) -> bool {
    &&& text.len() >= 1
    &&& forall|i: int|
        0 <= i < text.len() ==> 0 <= #[trigger] digit_value(text[i]) < base && if upper {
            !(0x61 <= text[i] <= 0x66)
        } else {
            !(0x41 <= text[i] <= 0x46)
        }
}

/// The digits of `value` read back as `value`.
proof fn lemma_digits_read_back(value: nat, base: nat, upper: bool)
    requires
        base == 10 || base == 16,
    ensures
        is_numeral(digits(value, base, upper), base as int, upper),
        numeral_value(digits(value, base, upper), base as int) == value,
    decreases value,
{
    let text = digits(value, base, upper);
    if value < base {
        assert(text.drop_last() =~= Seq::<u8>::empty());
        assert(text[0] == digit_byte(value as int, upper));
        assert(numeral_value(text.drop_last(), base as int) * base == 0);
        assert(digit_value(text.last()) == value);
    } else {
        let rest = digits(value / base, base, upper);
        assert(value / base < value) by (nonlinear_arith)
            requires
                base >= 2,
                value >= base,
        ;
        lemma_digits_read_back(value / base, base, upper);
        assert(text.drop_last() =~= rest);
        vstd::arithmetic::div_mod::lemma_fundamental_div_mod(value as int, base as int);
        vstd::arithmetic::div_mod::lemma_mod_bound(value as int, base as int);
        assert(digit_value(text.last()) == value % base);
        assert((value / base) * base == base * (value / base)) by (nonlinear_arith);
        assert forall|i: int| 0 <= i < text.len() implies 0 <= #[trigger] digit_value(text[i])
            < base && if upper {
            !(0x61 <= text[i] <= 0x66)
        } else {
            !(0x41 <= text[i] <= 0x46)
        } by {
            if i < rest.len() {
                assert(text[i] == rest[i]);
            }
        }
    }
}

/// `%d` and `%i` render the same text for every argument: the argument
/// read as a signed 32-bit number, in decimal digits after a `-` when it
/// is negative. `%u` renders the argument as an unsigned number in decimal,
/// `%x` and `%X` in hexadecimal with lower- and upper-case letters.
pub proof fn law_number_conversions(memory: GuestMemory, value: u32)
    ensures
        converted(memory, 0x69, value) == converted(memory, 0x64, value),
        converted(memory, 0x64, value) matches Ok(text) && if value >= 0x8000_0000 {
            &&& text[0] == 0x2d
            &&& is_numeral(text.drop_first(), 10, false)
            &&& -numeral_value(text.drop_first(), 10) == value - 0x1_0000_0000
        } else {
            is_numeral(text, 10, false) && numeral_value(text, 10) == value
        },
        converted(memory, 0x75, value) matches Ok(text) && is_numeral(text, 10, false)
            && numeral_value(text, 10) == value,
        converted(memory, 0x78, value) matches Ok(text) && is_numeral(text, 16, false)
            && numeral_value(text, 16) == value,
        converted(memory, 0x58, value) matches Ok(text) && is_numeral(text, 16, true)
            && numeral_value(text, 16) == value,
{
    lemma_digits_read_back(value as nat, 10, false);
    lemma_digits_read_back(value as nat, 16, false);
    lemma_digits_read_back(value as nat, 16, true);
    if value >= 0x8000_0000 {
        let magnitude = (0x1_0000_0000 - value) as nat;
        lemma_digits_read_back(magnitude, 10, false);
        let text = signed_decimal(value);
        assert(text.drop_first() =~= digits(magnitude, 10, false));
    }
}

/// Rendering text with no `%` from `index` on appends that text as it is.
proof fn lemma_plain_text(memory: GuestMemory, format: Seq<u8>, index: int, cursor: int, output: Seq<u8>)
    requires
        0 <= index <= format.len(),
        forall|j: int| index <= j < format.len() ==> format[j] != 0x25,
        output.len() + format.len() - index <= OUTPUT_LIMIT,
    ensures
        render_from(memory, format, index, cursor, output) == Ok::<Seq<u8>, DispatchError>(
            output + format.subrange(index, format.len() as int),
        ),
    decreases format.len() - index,
{
    if index < format.len() {
        lemma_plain_text(memory, format, index + 1, cursor, output.push(format[index]));
        assert(output.push(format[index]) + format.subrange(index + 1, format.len() as int)
            =~= output + format.subrange(index, format.len() as int));
    } else {
        assert(output + format.subrange(index, format.len() as int) =~= output);
    }
}

/// A format with no conversion is copied to the output as it is, whatever
/// the arguments, when it fits the output limit.
pub proof fn law_plain_format_copied(memory: GuestMemory, format: Seq<u8>, cursor: int)
    requires
        forall|j: int| 0 <= j < format.len() ==> format[j] != 0x25,
        format.len() <= OUTPUT_LIMIT,
    ensures
        render_from(memory, format, 0, cursor, Seq::empty()) == Ok::<Seq<u8>, DispatchError>(format),
{
    lemma_plain_text(memory, format, 0, cursor, Seq::empty());
    assert(Seq::<u8>::empty() + format.subrange(0, format.len() as int) =~= format);
}

/// Appends the digits of `value` in `base` (10 or 16).
fn push_digits(output: &mut Vec<u8>, value: u32, base: u32, upper: bool)
    requires
        base == 10 || base == 16,
    ensures
        final(output)@ == old(output)@ + digits(value as nat, base as nat, upper),
    decreases value,
{
    if value >= base {
        push_digits(output, value / base, base, upper);
    }
    let digit = value % base;
    let byte: u8 = if digit < 10 {
        (0x30 + digit) as u8
    } else if upper {
        (0x41 + digit - 10) as u8
    } else {
        (0x61 + digit - 10) as u8
    };
    output.push(byte);
    proof {
        if value >= base {
            assert(digits(value as nat, base as nat, upper) == digits(
                (value / base) as nat,
                base as nat,
                upper,
            ).push(digit_byte((value % base) as int, upper)));
        }
    }
}

/// What conversion `conversion` makes of `value`.
fn convert(memory: &GuestMemory, conversion: u8, value: u32) -> (text: Result<Vec<u8>, DispatchError>)
    requires
        memory.wf(),
        is_conversion(conversion),
    ensures
        match converted(*memory, conversion, value) {
            Err(error) => text == Err::<Vec<u8>, DispatchError>(error),
            Ok(expected) => text matches Ok(found) && found@ == expected,
        },
{
    let mut text: Vec<u8> = Vec::new();
    if conversion == 0x73 {
        if value == 0 {
            return Err(DispatchError::Unsupported);
        }
        return read_text(memory, value, OUTPUT_LIMIT);
    } else if conversion == 0x63 {
        text.push((value % 256) as u8);
        assert(text@ =~= seq![(value % 256) as u8]);
    } else if conversion == 0x64 || conversion == 0x69 {
        if value >= 0x8000_0000 {
            text.push(0x2d);
            push_digits(&mut text, 0u32.wrapping_sub(value), 10, false);
            assert(0u32.wrapping_sub(value) == 0x1_0000_0000 - value);
        } else {
            push_digits(&mut text, value, 10, false);
        }
        assert(text@ =~= signed_decimal(value));
    } else if conversion == 0x75 {
        push_digits(&mut text, value, 10, false);
        assert(text@ =~= digits(value as nat, 10, false));
    } else {
        push_digits(&mut text, value, 16, conversion == 0x58);
        assert(text@ =~= digits(value as nat, 16, conversion == 0x58));
    }
    Ok(text)
}

/// Renders `format`, taking arguments from the list at `values`.
fn render(memory: &GuestMemory, format: &Vec<u8>, values: u32) -> (output: Result<Vec<u8>, DispatchError>)
    requires
        memory.wf(),
    ensures
        match render_from(*memory, format@, 0, values as int, Seq::empty()) {
            Err(error) => output == Err::<Vec<u8>, DispatchError>(error),
            Ok(expected) => output matches Ok(found) && found@ == expected,
        },
        output matches Ok(found) ==> found@.len() <= OUTPUT_LIMIT,
{
    let mut cursor: u64 = values as u64;
    let mut output: Vec<u8> = Vec::new();
    let mut index: usize = 0;
    while index < format.len()
        invariant
            memory.wf(),
            index <= format@.len(),
            output@.len() <= OUTPUT_LIMIT,
            cursor <= values + 2 * index,
            render_from(*memory, format@, 0, values as int, Seq::empty()) == render_from(
                *memory,
                format@,
                index as int,
                cursor as int,
                output@,
            ),
        decreases format@.len() - index,
    {
        let byte = format[index];
        if byte != 0x25 {
            if output.len() + 1 > OUTPUT_LIMIT as usize {
                return Err(DispatchError::Unsupported);
            }
            output.push(byte);
            index = index + 1;
        } else {
            if index + 1 >= format.len() {
                return Err(DispatchError::Unsupported);
            }
            let conversion = format[index + 1];
            if conversion == 0x25 {
                if output.len() + 1 > OUTPUT_LIMIT as usize {
                    return Err(DispatchError::Unsupported);
                }
                output.push(0x25);
            } else {
                if !(conversion == 0x73 || conversion == 0x63 || conversion == 0x64 || conversion
                    == 0x69 || conversion == 0x75 || conversion == 0x78 || conversion == 0x58) {
                    return Err(DispatchError::Unsupported);
                }
                if cursor > u32::MAX as u64 {
                    return Err(DispatchError::Memory(MemoryError::AddressOverflow));
                }
                let value = read_word(memory, cursor as u32)?;
                cursor = cursor + 4;
                let text = convert(memory, conversion, value)?;
                if text.len() > OUTPUT_LIMIT as usize - output.len() {
                    return Err(DispatchError::Unsupported);
                }
                let ghost before = output@;
                let mut k: usize = 0;
                while k < text.len()
                    invariant
                        k <= text@.len(),
                        output@ == before + text@.subrange(0, k as int),
                    decreases text@.len() - k,
                {
                    output.push(text[k]);
                    assert(output@ =~= before + text@.subrange(0, k + 1));
                    k = k + 1;
                }
                assert(text@.subrange(0, text@.len() as int) =~= text@);
            }
            index = index + 2;
        }
    }
    Ok(output)
}

/// `_vsnprintf(arguments[0..4])`: renders the format at `arguments[2]` with
/// the argument list at `arguments[3]` and stores it, with its terminator
/// where that fits, in the `arguments[1]` bytes at `arguments[0]`. Answers
/// the length of the text, or -1 (`u32::MAX`) when it was cut; with a null
/// buffer of no room it only measures.
pub fn write(memory: &mut GuestMemory, arguments: &[u32]) -> (outcome: Result<u32, DispatchError>)
    requires
        old(memory).wf(),
        arguments@.len() >= 4,
    ensures
        final(memory).wf(),
        match format_outcome(*old(memory), arguments@) {
            Err(error) => outcome == Err::<u32, DispatchError>(error) && *final(memory) == *old(
                memory,
            ),
            Ok(text) => if arguments@[0] == 0 {
                outcome == Ok::<u32, DispatchError>(text.len() as u32) && *final(memory) == *old(
                    memory,
                )
            } else {
                let stored = stored_text(text, arguments@[1]);
                match check_outcome(*old(memory), arguments@[0], stored.len() as int, Access::Write) {
                    Err(error) => outcome == Err::<u32, DispatchError>(error) && *final(memory)
                        == *old(memory),
                    Ok(()) => outcome == Ok::<u32, DispatchError>(
                        if text.len() > arguments@[1] {
                            u32::MAX
                        } else {
                            text.len() as u32
                        },
                    ) && final(memory).wrote(*old(memory), arguments@[0] as int, stored),
                }
            },
        },
{
    let destination = arguments[0];
    let capacity = arguments[1];
    let format_address = arguments[2];
    let values = arguments[3];
    if destination == 0 && capacity != 0 {
        return Err(DispatchError::Unsupported);
    }
    if format_address == 0 {
        return Err(DispatchError::Unsupported);
    }
    let format = read_text(memory, format_address, FORMAT_LIMIT)?;
    let mut output = render(memory, &format, values)?;
    let ghost text = output@;
    proof {
        assert(format_outcome(*old(memory), arguments@) == Ok::<Seq<u8>, DispatchError>(text));
    }
    let length = output.len() as u32;
    if destination == 0 {
        return Ok(length);
    }
    if length < capacity {
        output.push(0);
    } else {
        output.truncate(capacity as usize);
    }
    proof {
        assert(output@ =~= stored_text(text, capacity));
    }
    check(memory, destination, output.len(), Access::Write)?;
    match memory.write(destination as u64, output.as_slice()) {
        Ok(()) => {},
        Err(error) => {
            assert(false);
            return Err(DispatchError::Memory(error));
        },
    }
    Ok(if length > capacity {
        u32::MAX
    } else {
        length
    })
}

} // verus!
