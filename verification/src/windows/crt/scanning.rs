//! The integer conversions of `sscanf` (`%d`, `%u`, `%x`): an optional sign,
//! then the longest run of digits; too many digits for 32 bits are refused.
use super::super::DispatchError;
use super::strings::{byte_after, bytes_at, length_from};
use super::multibyte::read_byte;
use crate::cpu::operands::value_bytes;
use crate::cpu::wrapped;
use crate::memory::{GuestMemory, MemoryError};
use vstd::prelude::*;

verus! {

/// The value of a hexadecimal digit (any case), if `byte` is one; with
/// `radix` 10 only `0`..`9` count.
pub open spec fn digit_value(byte: u8, radix: int) -> Option<int> {
    if 48 <= byte <= 57 {
        Some(byte - 48)
    } else if radix == 16 && 97 <= byte <= 102 {
        Some(byte - 87)
    } else if radix == 16 && 65 <= byte <= 70 {
        Some(byte - 55)
    } else {
        None
    }
}

/// Where the run of digits starting at `start` ends.
pub open spec fn run_end(input: Seq<u8>, start: int, radix: int) -> int
    decreases input.len() - start,
{
    if 0 <= start < input.len() && digit_value(input[start], radix) is Some {
        run_end(input, start + 1, radix)
    } else {
        start
    }
}

/// The value of the digits `input[start..end]`.
pub open spec fn digits_value(input: Seq<u8>, start: int, end: int, radix: int) -> int
    decreases end - start,
{
    if end <= start {
        0
    } else {
        digits_value(input, start, end - 1, radix) * radix + digit_value(input[end - 1], radix)->Some_0
    }
}

/// The sign at `offset`: whether it is `-`, and where the digits begin.
pub open spec fn sign_at(input: Seq<u8>, offset: int) -> (bool, int) {
    if input[offset] == 45 {
        (true, offset + 1)
    } else if input[offset] == 43 {
        (false, offset + 1)
    } else {
        (false, offset)
    }
}

/// What a conversion gives for `magnitude` (a `-` sign negates it modulo
/// 2^32): its four little-endian bytes.
pub open spec fn converted(negative: bool, magnitude: int) -> Seq<u8> {
    value_bytes(
        if negative {
            wrapped(-magnitude)
        } else {
            magnitude as u32
        },
        4,
    )
}

/// The outcome of converting the run of digits at `start` with `radix`,
/// refusing a magnitude above `limit`: nothing when there are no digits.
pub open spec fn run_conversion(
    input: Seq<u8>,
    negative: bool,
    start: int,
    radix: int,
    limit: int,
) -> Result<Option<Seq<u8>>, DispatchError> {
    let end = run_end(input, start, radix);
    let magnitude = digits_value(input, start, end, radix);
    if magnitude > limit {
        Err(DispatchError::Unsupported)
    } else if end == start {
        Ok(None)
    } else {
        Ok(Some(converted(negative, magnitude)))
    }
}

/// `%d`: a signed decimal within the `i32` range.
pub open spec fn decimal_conversion(input: Seq<u8>, offset: int) -> Result<Option<Seq<u8>>, DispatchError> {
    let (negative, start) = sign_at(input, offset);
    run_conversion(input, negative, start, 10, if negative { 0x8000_0000 } else { 0x7fff_ffff })
}

/// `%u`: a decimal within 32 bits; a `-` sign negates it modulo 2^32.
pub open spec fn unsigned_conversion(input: Seq<u8>, offset: int) -> Result<Option<Seq<u8>>, DispatchError> {
    let (negative, start) = sign_at(input, offset);
    run_conversion(input, negative, start, 10, 0xffff_ffff)
}

/// `%x`: a hexadecimal within 32 bits, after an optional `0x` or `0X`, which
/// must be followed by a digit.
pub open spec fn hex_conversion(input: Seq<u8>, offset: int) -> Result<Option<Seq<u8>>, DispatchError> {
    let (negative, start) = sign_at(input, offset);
    let prefixed = start < input.len() && start + 1 < input.len() && input[start] == 48 && (
    input[start + 1] == 120 || input[start + 1] == 88);
    let digits = if prefixed { start + 2 } else { start };
    match run_conversion(input, negative, digits, 16, 0xffff_ffff) {
        Ok(None) => if prefixed {
            Err(DispatchError::Unsupported)
        } else {
            Ok(None)
        },
        other => other,
    }
}

/// A longer run of digits has a value at least as large.
proof fn lemma_digits_grow(input: Seq<u8>, start: int, end: int, longer: int, radix: int)
    requires
        start <= end <= longer,
        radix == 10 || radix == 16,
        forall|i: int| start <= i < longer ==> #[trigger] digit_value(input[i], radix) is Some,
    ensures
        digits_value(input, start, end, radix) <= digits_value(input, start, longer, radix),
        0 <= digits_value(input, start, end, radix),
    decreases longer - start,
{
    if end < longer {
        lemma_digits_grow(input, start, end, longer - 1, radix);
        lemma_digits_nonnegative(input, start, longer - 1, radix);
        assert(digits_value(input, start, longer - 1, radix) <= digits_value(
            input,
            start,
            longer - 1,
            radix,
        ) * radix) by (nonlinear_arith)
            requires
                digits_value(input, start, longer - 1, radix) >= 0,
                radix >= 10,
        ;
    } else {
        lemma_digits_nonnegative(input, start, end, radix);
    }
}

/// Digit values are never negative.
proof fn lemma_digits_nonnegative(input: Seq<u8>, start: int, end: int, radix: int)
    requires
        radix == 10 || radix == 16,
        forall|i: int| start <= i < end ==> #[trigger] digit_value(input[i], radix) is Some,
    ensures
        0 <= digits_value(input, start, end, radix),
    decreases end - start,
{
    if end > start {
        lemma_digits_nonnegative(input, start, end - 1, radix);
        assert(digits_value(input, start, end - 1, radix) * radix >= 0) by (nonlinear_arith)
            requires
                digits_value(input, start, end - 1, radix) >= 0,
                radix >= 10,
        ;
    }
}

/// The digits of a run are digits.
proof fn lemma_run_digits(input: Seq<u8>, start: int, radix: int)
    requires
        0 <= start,
    ensures
        start <= run_end(input, start, radix) <= if start <= input.len() {
            input.len() as int
        } else {
            start
        },
        forall|i: int|
            start <= i < run_end(input, start, radix) ==> #[trigger] digit_value(input[i], radix) is Some,
    decreases input.len() - start,
{
    if 0 <= start < input.len() && digit_value(input[start], radix) is Some {
        lemma_run_digits(input, start + 1, radix);
    }
}

/// The value of a digit byte.
fn digit(byte: u8, radix: u64) -> (value: Option<u64>)
    ensures
        match digit_value(byte, radix as int) {
            Some(found) => value == Some(found as u64),
            None => value is None,
        },
{
    if 48 <= byte && byte <= 57 {
        Some((byte - 48) as u64)
    } else if radix == 16 && 97 <= byte && byte <= 102 {
        Some((byte - 87) as u64)
    } else if radix == 16 && 65 <= byte && byte <= 70 {
        Some((byte - 55) as u64)
    } else {
        None
    }
}

/// Whether `byte` is a digit of `radix`.
fn is_digit(byte: u8, radix: u64) -> (found: bool)
    ensures
        found == digit_value(byte, radix as int) is Some,
{
    digit(byte, radix).is_some()
}

/// The four little-endian bytes of `magnitude`, negated for a `-` sign.
fn convert(negative: bool, magnitude: u64) -> (bytes: [u8; 4])
    requires
        magnitude <= u32::MAX,
    ensures
        bytes@ == converted(negative, magnitude as int),
{
    let value = if negative {
        0u32.wrapping_sub(magnitude as u32)
    } else {
        magnitude as u32
    };
    let bytes = [
        (value % 256) as u8,
        (value / 256 % 256) as u8,
        (value / 65536 % 256) as u8,
        (value / 16777216 % 256) as u8,
    ];
    assert(bytes@ =~= converted(negative, magnitude as int));
    bytes
}

/// Converts the run of digits at `start`; see [`run_conversion`].
fn convert_run(input: &[u8], negative: bool, start: usize, radix: u64, limit: u64) -> (value: Result<
    Option<[u8; 4]>,
    DispatchError,
>)
    requires
        start <= input@.len(),
        radix == 10 || radix == 16,
        limit <= u32::MAX,
    ensures
        match run_conversion(input@, negative, start as int, radix as int, limit as int) {
            Err(error) => value == Err::<Option<[u8; 4]>, DispatchError>(error),
            Ok(None) => value == Ok::<Option<[u8; 4]>, DispatchError>(None),
            Ok(Some(bytes)) => value matches Ok(Some(found)) && found@ == bytes,
        },
{
    let mut position = start;
    proof {
        lemma_run_digits(input@, start as int, radix as int);
    }
    let ghost end = run_end(input@, start as int, radix as int);
    let mut magnitude: u64 = 0;
    while position < input.len() && is_digit(input[position], radix)
        invariant
            start <= position <= end,
            start <= input@.len(),
            radix == 10 || radix == 16,
            limit <= u32::MAX,
            end == run_end(input@, start as int, radix as int),
            end == run_end(input@, position as int, radix as int),
            forall|i: int| start <= i < end ==> #[trigger] digit_value(input@[i], radix as int) is Some,
            magnitude == digits_value(input@, start as int, position as int, radix as int),
            magnitude <= limit,
        decreases input@.len() - position,
    {
        let value = match digit(input[position], radix) {
            Some(value) => value,
            None => 0,
        };
        magnitude = magnitude * radix + value;
        proof {
            lemma_run_digits(input@, position + 1, radix as int);
        }
        position = position + 1;
        assert(magnitude == digits_value(input@, start as int, position as int, radix as int));
        if magnitude > limit {
            proof {
                lemma_digits_grow(input@, start as int, position as int, end, radix as int);
                assert(digits_value(input@, start as int, end, radix as int) > limit);
            }
            return Err(DispatchError::Unsupported);
        }
    }
    proof {
        lemma_digits_grow(input@, start as int, position as int, end, radix as int);
    }
    if position == start {
        return Ok(None);
    }
    Ok(Some(convert(negative, magnitude)))
}

/// The sign at `offset`: whether it is `-`, and where the digits begin.
fn sign(input: &[u8], offset: usize) -> (found: (bool, usize))
    requires
        offset < input@.len(),
    ensures
        (found.0, found.1 as int) == sign_at(input@, offset as int),
        found.1 <= input@.len(),
{
    if input[offset] == 45 {
        (true, offset + 1)
    } else if input[offset] == 43 {
        (false, offset + 1)
    } else {
        (false, offset)
    }
}

/// Converts `%d` at `offset`.
pub fn parse_decimal(input: &[u8], offset: usize) -> (value: Result<Option<[u8; 4]>, DispatchError>)
    requires
        offset < input@.len(),
    ensures
        match decimal_conversion(input@, offset as int) {
            Err(error) => value == Err::<Option<[u8; 4]>, DispatchError>(error),
            Ok(None) => value == Ok::<Option<[u8; 4]>, DispatchError>(None),
            Ok(Some(bytes)) => value matches Ok(Some(found)) && found@ == bytes,
        },
{
    let (negative, start) = sign(input, offset);
    let limit: u64 = if negative {
        0x8000_0000
    } else {
        0x7fff_ffff
    };
    convert_run(input, negative, start, 10, limit)
}

/// Converts `%u` at `offset`.
pub fn parse_unsigned(input: &[u8], offset: usize) -> (value: Result<Option<[u8; 4]>, DispatchError>)
    requires
        offset < input@.len(),
    ensures
        match unsigned_conversion(input@, offset as int) {
            Err(error) => value == Err::<Option<[u8; 4]>, DispatchError>(error),
            Ok(None) => value == Ok::<Option<[u8; 4]>, DispatchError>(None),
            Ok(Some(bytes)) => value matches Ok(Some(found)) && found@ == bytes,
        },
{
    let (negative, start) = sign(input, offset);
    convert_run(input, negative, start, 10, 0xffff_ffff)
}

/// Converts `%x` at `offset`.
pub fn parse_hex(input: &[u8], offset: usize) -> (value: Result<Option<[u8; 4]>, DispatchError>)
    requires
        offset < input@.len(),
    ensures
        match hex_conversion(input@, offset as int) {
            Err(error) => value == Err::<Option<[u8; 4]>, DispatchError>(error),
            Ok(None) => value == Ok::<Option<[u8; 4]>, DispatchError>(None),
            Ok(Some(bytes)) => value matches Ok(Some(found)) && found@ == bytes,
        },
{
    let (negative, start) = sign(input, offset);
    let prefixed = start < input.len() && start + 1 < input.len() && input[start] == 48 && (
    input[start + 1] == 120 || input[start + 1] == 88);
    let digits = if prefixed {
        start + 2
    } else {
        start
    };
    let value = convert_run(input, negative, digits, 16, 0xffff_ffff)?;
    if value.is_none() && prefixed {
        return Err(DispatchError::Unsupported);
    }
    Ok(value)
}

/// The bytes of the string at `pointer`, without its terminator; a string
/// that does not end within 4096 bytes is refused.
pub fn read_string(memory: &GuestMemory, pointer: u32) -> (bytes: Result<Vec<u8>, DispatchError>)
    requires
        memory.wf(),
    ensures
        match length_from(*memory, pointer, 0, 4096, Err(DispatchError::Unsupported)) {
            Err(error) => bytes == Err::<Vec<u8>, DispatchError>(error),
            Ok(length) => bytes matches Ok(found) && found@ == bytes_at(*memory, pointer, length as int),
        },
{
    read_limited(memory, pointer, 4096)
}

/// The bytes of the string at `pointer`, without its terminator; a string
/// that does not end within `limit` bytes is refused.
pub fn read_limited(memory: &GuestMemory, pointer: u32, limit: u32) -> (bytes: Result<
    Vec<u8>,
    DispatchError,
>)
    requires
        memory.wf(),
    ensures
        match length_from(*memory, pointer, 0, limit as int, Err(DispatchError::Unsupported)) {
            Err(error) => bytes == Err::<Vec<u8>, DispatchError>(error),
            Ok(length) => bytes matches Ok(found) && found@ == bytes_at(*memory, pointer, length as int),
        },
{
    let mut bytes: Vec<u8> = Vec::new();
    let mut offset: u32 = 0;
    while offset < limit
        invariant
            memory.wf(),
            offset <= limit,
            bytes@ == bytes_at(*memory, pointer, offset as int),
            length_from(*memory, pointer, 0, limit as int, Err(DispatchError::Unsupported)) == length_from(
                *memory,
                pointer,
                offset as int,
                limit as int,
                Err(DispatchError::Unsupported),
            ),
        decreases limit - offset,
    {
        let byte = match pointer.checked_add(offset) {
            None => return Err(DispatchError::Memory(MemoryError::AddressOverflow)),
            Some(address) => read_byte(memory, address)?,
        };
        if byte == 0 {
            return Ok(bytes);
        }
        bytes.push(byte);
        assert(bytes@ =~= bytes_at(*memory, pointer, offset + 1));
        offset = offset + 1;
    }
    Err(DispatchError::Unsupported)
}

} // verus!
