//! Converting between Windows-1252 text and UTF-16 in guest memory, and
//! describing the code pages: what `MultiByteToWideChar`,
//! `WideCharToMultiByte` and `GetCPInfo` compute. Where such a call fails
//! with a thread error, the answer says which error the caller records.
use super::code_pages::{cp1252, cp1252_unit, unit_of, Call};
use super::DispatchError;
use crate::memory::{Access, GuestMemory, MemoryError};
use vstd::prelude::*;

verus! {

/// What a conversion or description answers: a value, or a failure that
/// answers 0 with the thread's last error set to the code.
#[derive(Clone, Copy, Debug, PartialEq, Eq, Structural)]
pub enum Answer {
    Value(u32),
    LastError(u32),
}

/// `ERROR_INVALID_PARAMETER`.
pub const INVALID_PARAMETER: u32 = 87;

/// `ERROR_INSUFFICIENT_BUFFER`.
pub const INSUFFICIENT_BUFFER: u32 = 122;

/// The code pages a conversion accepts: the ANSI code page by number (1252)
/// or as the default (0) or the thread's (3).
pub open spec fn ansi_page(page: u32) -> bool {
    page == 0 || page == 3 || page == 1252
}

/// Whether the common arguments of a conversion are refused as invalid:
/// no source, an empty or negative (other than -1) count, a negative
/// capacity, or an output that is missing or the source itself.
pub open spec fn invalid_request(source: u32, count: u32, output: u32, capacity: u32) -> bool {
    ||| source == 0
    ||| count == 0
    ||| (count >= 0x8000_0000 && count != u32::MAX)
    ||| capacity >= 0x8000_0000
    ||| (capacity != 0 && (output == 0 || output == source))
}

/// The most elements a conversion reads: all of them, up to 65536, or up
/// to the terminator for a count of -1.
pub open spec fn element_limit(count: u32) -> int {
    if count == u32::MAX {
        65536
    } else {
        count as int
    }
}

/// `prefix` put before the elements of `rest`, or its error.
pub open spec fn after<T>(prefix: Seq<T>, rest: Result<Seq<T>, DispatchError>) -> Result<Seq<T>, DispatchError> {
    match rest {
        Ok(elements) => Ok(prefix + elements),
        Err(error) => Err(error),
    }
}

/// The bytes read from `source` on, from element `index` to `limit`,
/// stopping after a 0 when `terminated`: an address past the top of the
/// address space is unsupported, and an unreadable one faults.
pub open spec fn bytes_read(memory: GuestMemory, source: u32, index: int, limit: int, terminated: bool) -> Result<
    Seq<u8>,
    DispatchError,
>
    decreases limit - index,
{
    if index >= limit {
        Ok(Seq::empty())
    } else if source + index > u32::MAX {
        Err(DispatchError::Unsupported)
    } else {
        match memory.access((source + index) as u64, 1, Access::Read) {
            Err(error) => Err(DispatchError::Memory(error)),
            Ok(()) => {
                let byte = memory.byte(source + index);
                if terminated && byte == 0 {
                    Ok(seq![byte])
                } else {
                    after(seq![byte], bytes_read(memory, source, index + 1, limit, terminated))
                }
            },
        }
    }
}

/// The UTF-16 units of the Windows-1252 bytes `bytes`, if each has one.
pub open spec fn units_of(bytes: Seq<u8>) -> Option<Seq<u16>> {
    if exists|i: int| 0 <= i < bytes.len() && #[trigger] unit_of(bytes[i]) is None {
        None
    } else {
        Some(Seq::new(bytes.len(), |i: int| unit_of(bytes[i])->Some_0))
    }
}

/// The little-endian bytes of the units `units`.
pub open spec fn unit_bytes(units: Seq<u16>) -> Seq<u8> {
    Seq::new(
        2 * units.len(),
        |i: int| if i % 2 == 0 {
            (units[i / 2] % 256) as u8
        } else {
            (units[i / 2] / 256) as u8
        },
    )
}

/// What `MultiByteToWideChar(page, flags, source, count, output,
/// capacity)` answers and leaves (`new` from `old`): an unknown code page
/// or flags are unsupported; invalid arguments fail; the bytes are read (to
/// the terminator, which must come within 65536, for a count of -1); a byte
/// without a unit is unsupported; with a capacity the units are stored at
/// `output` if they fit, else the call fails; the answer is the number of
/// units.
pub open spec fn ansi_converted(
    new: GuestMemory,
    old: GuestMemory,
    arguments: Seq<u32>,
    outcome: Result<Answer, DispatchError>,
) -> bool {
    let (page, flags, source, count, output, capacity) = (
        arguments[0],
        arguments[1],
        arguments[2],
        arguments[3],
        arguments[4],
        arguments[5],
    );
    let unchanged = new == old;
    if !ansi_page(page) || flags != 0 {
        outcome == Err::<Answer, DispatchError>(DispatchError::Unsupported) && unchanged
    } else if invalid_request(source, count, output, capacity) {
        outcome == Ok::<Answer, DispatchError>(Answer::LastError(INVALID_PARAMETER)) && unchanged
    } else if element_limit(count) > 65536 {
        outcome == Err::<Answer, DispatchError>(DispatchError::Unsupported) && unchanged
    } else {
        match bytes_read(old, source, 0, element_limit(count), count == u32::MAX) {
            Err(error) => outcome == Err::<Answer, DispatchError>(error) && unchanged,
            Ok(bytes) => if count == u32::MAX && (bytes.len() == 0 || bytes.last() != 0) {
                outcome == Err::<Answer, DispatchError>(DispatchError::Unsupported) && unchanged
            } else {
                match units_of(bytes) {
                    None => outcome == Err::<Answer, DispatchError>(DispatchError::Unsupported)
                        && unchanged,
                    Some(units) => if capacity == 0 {
                        outcome == Ok::<Answer, DispatchError>(Answer::Value(units.len() as u32))
                            && unchanged
                    } else if units.len() > capacity {
                        outcome == Ok::<Answer, DispatchError>(
                            Answer::LastError(INSUFFICIENT_BUFFER),
                        ) && unchanged
                    } else {
                        match old.access(output as u64, 2 * units.len() as int, Access::Write) {
                            Err(error) => outcome == Err::<Answer, DispatchError>(
                                DispatchError::Memory(error),
                            ) && unchanged,
                            Ok(()) => outcome == Ok::<Answer, DispatchError>(
                                Answer::Value(units.len() as u32),
                            ) && new.wf() && new.wrote(old, output as int, unit_bytes(units)),
                        }
                    },
                }
            },
        }
    }
}

/// Reads the bytes from `source` on, up to `limit` of them, stopping after
/// a 0 when `terminated`.
#[verifier::loop_isolation(false)]
fn read_bytes(memory: &GuestMemory, source: u32, limit: u32, terminated: bool) -> (result: Result<
    Vec<u8>,
    DispatchError,
>)
    requires
        memory.wf(),
        limit <= 65536,
    ensures
        match result {
            Ok(bytes) => bytes_read(*memory, source, 0, limit as int, terminated) == Ok::<
                Seq<u8>,
                DispatchError,
            >(bytes@),
            Err(error) => bytes_read(*memory, source, 0, limit as int, terminated) == Err::<
                Seq<u8>,
                DispatchError,
            >(error),
        },
{
    let mut bytes: Vec<u8> = Vec::new();
    let mut index: u32 = 0;
    while index < limit
        invariant
            index <= limit,
            limit <= 65536,
            bytes@.len() == index,
            bytes_read(*memory, source, 0, limit as int, terminated) == after(
                bytes@,
                bytes_read(*memory, source, index as int, limit as int, terminated),
            ),
        decreases limit - index,
    {
        let ghost before = bytes@;
        if source as u64 + index as u64 > u32::MAX as u64 {
            return Err(DispatchError::Unsupported);
        }
        let address = source + index;
        let mut buffer = [0u8; 1];
        match memory.read(address as u64, &mut buffer) {
            Err(error) => return Err(DispatchError::Memory(error)),
            Ok(()) => {},
        }
        let byte = buffer[0];
        assert(byte == memory.byte(address + 0));
        bytes.push(byte);
        if terminated && byte == 0 {
            assert(bytes@ =~= before + seq![byte]);
            return Ok(bytes);
        }
        index = index + 1;
        proof {
            let rest = bytes_read(*memory, source, index as int, limit as int, terminated);
            match rest {
                Ok(elements) => assert(before + (seq![byte] + elements) =~= bytes@ + elements),
                Err(_) => {},
            }
        }
    }
    assert(bytes_read(*memory, source, index as int, limit as int, terminated) == Ok::<
        Seq<u8>,
        DispatchError,
    >(Seq::empty()));
    assert(bytes@ + Seq::<u8>::empty() =~= bytes@);
    Ok(bytes)
}

/// `MultiByteToWideChar(page, flags, source, count, output, capacity)`
/// from Windows-1252.
#[verifier::loop_isolation(false)]
pub fn ansi_to_wide(arguments: &[u32], memory: &mut GuestMemory) -> (outcome: Result<
    Answer,
    DispatchError,
>)
    requires
        old(memory).wf(),
        arguments@.len() == 6,
    ensures
        final(memory).wf(),
        ansi_converted(*final(memory), *old(memory), arguments@, outcome),
{
    let page = arguments[0];
    let source = arguments[2];
    let count = arguments[3];
    let output = arguments[4];
    let capacity = arguments[5];
    if !(page == 0 || page == 3 || page == 1252) || arguments[1] != 0 {
        return Err(DispatchError::Unsupported);
    }
    if source == 0 || count == 0 || (count >= 0x8000_0000 && count != u32::MAX) || capacity
        >= 0x8000_0000 || (capacity != 0 && (output == 0 || output == source)) {
        return Ok(Answer::LastError(INVALID_PARAMETER));
    }
    let limit = if count == u32::MAX {
        65536
    } else {
        count
    };
    if limit > 65536 {
        return Err(DispatchError::Unsupported);
    }
    let bytes = read_bytes(memory, source, limit, count == u32::MAX)?;
    if count == u32::MAX && (bytes.len() == 0 || bytes[bytes.len() - 1] != 0) {
        return Err(DispatchError::Unsupported);
    }
    proof {
        lemma_read_length(*memory, source, 0, limit as int, count == u32::MAX);
    }
    let mut converted: Vec<u8> = Vec::new();
    let mut index: usize = 0;
    while index < bytes.len()
        invariant
            index <= bytes@.len(),
            bytes@.len() <= 65536,
            converted@.len() == 2 * index,
            forall|i: int| 0 <= i < index ==> #[trigger] unit_of(bytes@[i]) is Some,
            forall|i: int|
                0 <= i < 2 * index ==> #[trigger] converted@[i] == if i % 2 == 0 {
                    (unit_of(bytes@[i / 2])->Some_0 % 256) as u8
                } else {
                    (unit_of(bytes@[i / 2])->Some_0 / 256) as u8
                },
        decreases bytes@.len() - index,
    {
        let unit = match cp1252_unit(bytes[index]) {
            Some(unit) => unit,
            None => {
                assert(unit_of(bytes@[index as int]) is None);
                return Err(DispatchError::Unsupported);
            },
        };
        converted.push((unit % 256) as u8);
        converted.push((unit / 256) as u8);
        index = index + 1;
    }
    let ghost units = Seq::new(bytes@.len(), |i: int| unit_of(bytes@[i])->Some_0);
    assert(units_of(bytes@) == Some(units));
    assert(converted@ =~= unit_bytes(units));
    let length = bytes.len() as u32;
    if capacity != 0 {
        if length > capacity {
            return Ok(Answer::LastError(INSUFFICIENT_BUFFER));
        }
        match memory.write(output as u64, converted.as_slice()) {
            Err(error) => return Err(DispatchError::Memory(error)),
            Ok(()) => {},
        }
    }
    Ok(Answer::Value(length))
}

/// Reads give at most the elements asked for.
proof fn lemma_read_length(memory: GuestMemory, source: u32, index: int, limit: int, terminated: bool)
    requires
        0 <= index,
    ensures
        bytes_read(memory, source, index, limit, terminated) matches Ok(bytes) ==> bytes.len()
            <= if limit > index {
            limit - index
        } else {
            0
        },
    decreases limit - index,
{
    if index < limit {
        lemma_read_length(memory, source, index + 1, limit, terminated);
    }
}

/// The bytes `GetCPInfo` stores: the maximum character size (1), the
/// default character `?`, and no lead-byte ranges.
pub open spec fn page_info() -> Seq<u8> {
    Seq::new(18, |i: int| if i == 0 {
        1u8
    } else if i == 4 {
        0x3fu8
    } else {
        0u8
    })
}

/// What `GetCPInfo(page, output)` answers and leaves: a null output fails
/// as invalid; a code page other than the ANSI, OEM, default, OEM default
/// and thread ones is unsupported; otherwise the description is stored.
pub open spec fn described(
    new: GuestMemory,
    old: GuestMemory,
    page: u32,
    output: u32,
    outcome: Result<Answer, DispatchError>,
) -> bool {
    if output == 0 {
        outcome == Ok::<Answer, DispatchError>(Answer::LastError(INVALID_PARAMETER)) && new == old
    } else if !(page == 0 || page == 1 || page == 3 || page == 1252 || page == 437) {
        outcome == Err::<Answer, DispatchError>(DispatchError::Unsupported) && new == old
    } else {
        match old.access(output as u64, 18, Access::Write) {
            Err(error) => outcome == Err::<Answer, DispatchError>(DispatchError::Memory(error))
                && new == old,
            Ok(()) => outcome == Ok::<Answer, DispatchError>(Answer::Value(1)) && new.wf()
                && new.wrote(old, output as int, page_info()),
        }
    }
}

/// `GetCPInfo(page, output)`.
pub fn info(page: u32, output: u32, memory: &mut GuestMemory) -> (outcome: Result<
    Answer,
    DispatchError,
>)
    requires
        old(memory).wf(),
    ensures
        final(memory).wf(),
        described(*final(memory), *old(memory), page, output, outcome),
{
    if output == 0 {
        return Ok(Answer::LastError(INVALID_PARAMETER));
    }
    if !(page == 0 || page == 1 || page == 3 || page == 1252 || page == 437) {
        return Err(DispatchError::Unsupported);
    }
    let mut fields = vec![0u8; 18];
    fields.set(0, 1);
    fields.set(4, 0x3f);
    assert(fields@ =~= page_info());
    match memory.write(output as u64, fields.as_slice()) {
        Err(error) => Err(DispatchError::Memory(error)),
        Ok(()) => Ok(Answer::Value(1)),
    }
}

/// The UTF-16 units read from `source` on, from element `index` to
/// `limit`, stopping after a 0 when `terminated`.
pub open spec fn units_read(memory: GuestMemory, source: u32, index: int, limit: int, terminated: bool) -> Result<
    Seq<u16>,
    DispatchError,
>
    decreases limit - index,
{
    if index >= limit {
        Ok(Seq::empty())
    } else if source + 2 * index > u32::MAX {
        Err(DispatchError::Unsupported)
    } else {
        let address = source + 2 * index;
        match memory.access(address as u64, 2, Access::Read) {
            Err(error) => Err(DispatchError::Memory(error)),
            Ok(()) => {
                let unit = (memory.byte(address) + 256 * memory.byte(address + 1)) as u16;
                if terminated && unit == 0 {
                    Ok(seq![unit])
                } else {
                    after(seq![unit], units_read(memory, source, index + 1, limit, terminated))
                }
            },
        }
    }
}

/// The Windows-1252 byte of the unit `unit`, if one has it.
pub open spec fn byte_of_unit(unit: u16) -> Option<u8> {
    if exists|byte: u8| #[trigger] unit_of(byte) == Some(unit) {
        Some(choose|byte: u8| #[trigger] unit_of(byte) == Some(unit))
    } else {
        None
    }
}

/// Whether `unit` is a UTF-16 surrogate.
pub open spec fn surrogate(unit: u16) -> bool {
    0xd800 <= unit < 0xe000
}

/// The Windows-1252 bytes of the UTF-16 text `units`, `replacement`
/// standing for what has no byte (an unpaired surrogate, a character
/// outside the basic plane, a character the code page lacks), and whether
/// any replacement was made.
pub open spec fn ansi_of(units: Seq<u16>, replacement: u8) -> (Seq<u8>, bool)
    decreases units.len(),
{
    if units.len() == 0 {
        (Seq::empty(), false)
    } else {
        let unit = units[0];
        if 0xd800 <= unit < 0xdc00 && units.len() >= 2 && 0xdc00 <= units[1] < 0xe000 {
            let (rest, _) = ansi_of(units.skip(2), replacement);
            (seq![replacement] + rest, true)
        } else {
            let (rest, substituted) = ansi_of(units.skip(1), replacement);
            if surrogate(unit) {
                (seq![replacement] + rest, true)
            } else {
                match byte_of_unit(unit) {
                    Some(byte) => (seq![byte] + rest, substituted),
                    None => (seq![replacement] + rest, true),
                }
            }
        }
    }
}

/// The little-endian bytes of a flag.
pub open spec fn flag_bytes(flag: bool) -> Seq<u8> {
    seq![if flag { 1u8 } else { 0u8 }, 0u8, 0u8, 0u8]
}

/// What `WideCharToMultiByte(page, flags, source, count, output, capacity,
/// default, used)` answers and leaves (`new` from `old`): as for the other
/// direction, but a unit without a byte becomes the default character
/// (from `default`, else `?`), and `used`, when given, receives whether
/// that happened; both outputs are checked before either is written.
pub open spec fn wide_converted(
    new: GuestMemory,
    old: GuestMemory,
    arguments: Seq<u32>,
    outcome: Result<Answer, DispatchError>,
) -> bool {
    let (page, flags, source, count, output, capacity, default, used) = (
        arguments[0],
        arguments[1],
        arguments[2],
        arguments[3],
        arguments[4],
        arguments[5],
        arguments[6],
        arguments[7],
    );
    let unchanged = new == old;
    if !ansi_page(page) || flags != 0 {
        outcome == Err::<Answer, DispatchError>(DispatchError::Unsupported) && unchanged
    } else if invalid_request(source, count, output, capacity) {
        outcome == Ok::<Answer, DispatchError>(Answer::LastError(INVALID_PARAMETER)) && unchanged
    } else if element_limit(count) > 65536 {
        outcome == Err::<Answer, DispatchError>(DispatchError::Unsupported) && unchanged
    } else if default != 0 && old.access(default as u64, 1, Access::Read) is Err {
        outcome == Err::<Answer, DispatchError>(
            DispatchError::Memory(old.access(default as u64, 1, Access::Read)->Err_0),
        ) && unchanged
    } else {
        let replacement = if default == 0 {
            0x3fu8
        } else {
            old.byte(default as int)
        };
        match units_read(old, source, 0, element_limit(count), count == u32::MAX) {
            Err(error) => outcome == Err::<Answer, DispatchError>(error) && unchanged,
            Ok(units) => if count == u32::MAX && (units.len() == 0 || units.last() != 0) {
                outcome == Err::<Answer, DispatchError>(DispatchError::Unsupported) && unchanged
            } else {
                let (bytes, substituted) = ansi_of(units, replacement);
                if capacity != 0 && bytes.len() > capacity {
                    outcome == Ok::<Answer, DispatchError>(Answer::LastError(INSUFFICIENT_BUFFER))
                        && unchanged
                } else if capacity != 0 && old.access(output as u64, bytes.len() as int, Access::Write) is Err {
                    outcome == Err::<Answer, DispatchError>(
                        DispatchError::Memory(
                            old.access(output as u64, bytes.len() as int, Access::Write)->Err_0,
                        ),
                    ) && unchanged
                } else if used != 0 && old.access(used as u64, 4, Access::Write) is Err {
                    outcome == Err::<Answer, DispatchError>(
                        DispatchError::Memory(old.access(used as u64, 4, Access::Write)->Err_0),
                    ) && unchanged
                } else {
                    &&& outcome == Ok::<Answer, DispatchError>(Answer::Value(bytes.len() as u32))
                    &&& new.wf()
                    &&& exists|middle: GuestMemory|
                        {
                            &&& if capacity != 0 {
                                middle.wf() && middle.wrote(old, output as int, bytes)
                            } else {
                                middle == old
                            }
                            &&& if used != 0 {
                                new.wrote(middle, used as int, flag_bytes(substituted))
                            } else {
                                new == middle
                            }
                        }
                }
            },
        }
    }
}

/// Reads the UTF-16 units from `source` on, up to `limit` of them,
/// stopping after a 0 when `terminated`.
#[verifier::loop_isolation(false)]
fn read_units(memory: &GuestMemory, source: u32, limit: u32, terminated: bool) -> (result: Result<
    Vec<u16>,
    DispatchError,
>)
    requires
        memory.wf(),
        limit <= 65536,
    ensures
        match result {
            Ok(units) => units_read(*memory, source, 0, limit as int, terminated) == Ok::<
                Seq<u16>,
                DispatchError,
            >(units@),
            Err(error) => units_read(*memory, source, 0, limit as int, terminated) == Err::<
                Seq<u16>,
                DispatchError,
            >(error),
        },
{
    let mut units: Vec<u16> = Vec::new();
    let mut index: u32 = 0;
    while index < limit
        invariant
            index <= limit,
            units@.len() == index,
            units_read(*memory, source, 0, limit as int, terminated) == after(
                units@,
                units_read(*memory, source, index as int, limit as int, terminated),
            ),
        decreases limit - index,
    {
        let ghost before = units@;
        if source as u64 + 2 * index as u64 > u32::MAX as u64 {
            return Err(DispatchError::Unsupported);
        }
        let address = source + 2 * index;
        let mut buffer = [0u8; 2];
        match memory.read(address as u64, &mut buffer) {
            Err(error) => return Err(DispatchError::Memory(error)),
            Ok(()) => {},
        }
        assert(buffer@[0] == memory.byte(address + 0));
        assert(buffer@[1] == memory.byte(address + 1));
        let unit = buffer[0] as u16 + 256 * buffer[1] as u16;
        units.push(unit);
        if terminated && unit == 0 {
            assert(units@ =~= before + seq![unit]);
            return Ok(units);
        }
        index = index + 1;
        proof {
            let rest = units_read(*memory, source, index as int, limit as int, terminated);
            match rest {
                Ok(elements) => assert(before + (seq![unit] + elements) =~= units@ + elements),
                Err(_) => {},
            }
        }
    }
    assert(units@ + Seq::<u16>::empty() =~= units@);
    Ok(units)
}

/// The character of the UTF-16 unit `unit`, by `char::from_u32`.
/// Claimed, as its documentation says: the character whose scalar value is
/// the unit, or none for a surrogate.
#[verifier::external_body]
fn unit_char(unit: u16) -> (character: Option<char>)
    ensures
        match character {
            Some(found) => found as u32 == unit && found as u16 == unit,
            None => surrogate(unit),
        },
{
    char::from_u32(u32::from(unit))
}

/// The Windows-1252 bytes of `units`, `replacement` standing for what has
/// none, and whether a replacement was made.
#[verifier::loop_isolation(false)]
#[verifier::rlimit(60)]
fn encode(units: &Vec<u16>, replacement: u8) -> (encoded: (Vec<u8>, bool))
    requires
        units@.len() <= 65536,
    ensures
        (encoded.0@, encoded.1) == ansi_of(units@, replacement),
        encoded.0@.len() <= units@.len(),
{
    let mut converted: Vec<u8> = Vec::new();
    let mut substituted = false;
    let mut index: usize = 0;
    proof {
        assert(units@.skip(0) =~= units@);
    }
    while index < units.len()
        invariant
            index <= units@.len(),
            converted@.len() <= index,
            ({
                let (rest, rest_substituted) = ansi_of(units@.skip(index as int), replacement);
                ansi_of(units@, replacement) == (converted@ + rest, substituted || rest_substituted)
            }),
        decreases units@.len() - index,
    {
        let unit = units[index];
        let ghost tail = units@.skip(index as int);
        let ghost before = converted@;
        let ghost was = substituted;
        if 0xd800 <= unit && unit < 0xdc00 && index + 1 < units.len() && 0xdc00 <= units[index + 1]
            && units[index + 1] < 0xe000 {
            converted.push(replacement);
            substituted = true;
            proof {
                assert(tail.len() >= 2 && tail[0] == unit && tail[1] == units@[index + 1]);
                assert(tail.skip(2) =~= units@.skip(index + 2));
                let (rest, _) = ansi_of(tail.skip(2), replacement);
                assert(ansi_of(tail, replacement) == (seq![replacement] + rest, true));
                assert(before + (seq![replacement] + rest) =~= converted@ + rest);
            }
            index = index + 2;
        } else {
            let byte = if 0xd800 <= unit && unit < 0xe000 {
                None
            } else {
                match unit_char(unit) {
                    Some(character) => cp1252(character),
                    None => None,
                }
            };
            proof {
                if !surrogate(unit) {
                    if let Some(found) = byte {
                        let chosen = choose|other: u8| #[trigger] unit_of(other) == Some(unit);
                        super::code_pages::law_units_are_distinct(found, chosen);
                    }
                    assert(byte == byte_of_unit(unit));
                }
            }
            match byte {
                Some(found) => converted.push(found),
                None => {
                    converted.push(replacement);
                    substituted = true;
                },
            }
            proof {
                assert(tail.len() >= 1 && tail[0] == unit);
                assert(!(0xd800 <= unit < 0xdc00 && tail.len() >= 2 && 0xdc00 <= tail[1] < 0xe000));
                assert(tail.skip(1) =~= units@.skip(index + 1));
                let (rest, rest_substituted) = ansi_of(tail.skip(1), replacement);
                assert(ansi_of(tail, replacement) == (seq![converted@.last()] + rest, (was
                    != substituted) || rest_substituted || (was && substituted && byte is None)));
                assert(before + (seq![converted@.last()] + rest) =~= converted@ + rest);
            }
            index = index + 1;
        }
    }
    proof {
        assert(units@.skip(index as int) =~= Seq::<u16>::empty());
        assert(converted@ + Seq::<u8>::empty() =~= converted@);
    }
    (converted, substituted)
}

/// `WideCharToMultiByte(page, flags, source, count, output, capacity,
/// default, used)` to Windows-1252.
#[verifier::loop_isolation(false)]
pub fn wide_to_ansi(arguments: &[u32], memory: &mut GuestMemory) -> (outcome: Result<
    Answer,
    DispatchError,
>)
    requires
        old(memory).wf(),
        arguments@.len() == 8,
    ensures
        final(memory).wf(),
        wide_converted(*final(memory), *old(memory), arguments@, outcome),
{
    let page = arguments[0];
    let source = arguments[2];
    let count = arguments[3];
    let output = arguments[4];
    let capacity = arguments[5];
    let default = arguments[6];
    let used = arguments[7];
    if !(page == 0 || page == 3 || page == 1252) || arguments[1] != 0 {
        return Err(DispatchError::Unsupported);
    }
    if source == 0 || count == 0 || (count >= 0x8000_0000 && count != u32::MAX) || capacity
        >= 0x8000_0000 || (capacity != 0 && (output == 0 || output == source)) {
        return Ok(Answer::LastError(INVALID_PARAMETER));
    }
    let limit = if count == u32::MAX {
        65536
    } else {
        count
    };
    if limit > 65536 {
        return Err(DispatchError::Unsupported);
    }
    let replacement = if default == 0 {
        0x3f
    } else {
        let mut buffer = [0u8; 1];
        match memory.read(default as u64, &mut buffer) {
            Err(error) => return Err(DispatchError::Memory(error)),
            Ok(()) => {},
        }
        assert(buffer@[0] == memory.byte(default + 0));
        buffer[0]
    };
    let units = read_units(memory, source, limit, count == u32::MAX)?;
    if count == u32::MAX && (units.len() == 0 || units[units.len() - 1] != 0) {
        return Err(DispatchError::Unsupported);
    }
    proof {
        lemma_units_length(*memory, source, 0, limit as int, count == u32::MAX);
    }
    let (converted, substituted) = encode(&units, replacement);
    let length = converted.len();
    if capacity != 0 {
        if length > capacity as usize {
            return Ok(Answer::LastError(INSUFFICIENT_BUFFER));
        }
        match memory.check_access(output as u64, length, Access::Write) {
            Err(error) => return Err(DispatchError::Memory(error)),
            Ok(()) => {},
        }
    }
    if used != 0 {
        match memory.check_access(used as u64, 4, Access::Write) {
            Err(error) => return Err(DispatchError::Memory(error)),
            Ok(()) => {},
        }
    }
    let ghost start = *memory;
    if capacity != 0 {
        match memory.write(output as u64, converted.as_slice()) {
            Err(error) => return Err(DispatchError::Memory(error)),
            Ok(()) => {},
        }
    }
    let ghost middle = *memory;
    if used != 0 {
        let flag: [u8; 4] = [if substituted {
            1
        } else {
            0
        }, 0, 0, 0];
        assert(flag@ =~= flag_bytes(substituted));
        match memory.write(used as u64, &flag) {
            Err(error) => return Err(DispatchError::Memory(error)),
            Ok(()) => {},
        }
    }
    assert(exists|between: GuestMemory|
        {
            &&& if capacity != 0 {
                between.wf() && between.wrote(start, output as int, converted@)
            } else {
                between == start
            }
            &&& if used != 0 {
                memory.wrote(between, used as int, flag_bytes(substituted))
            } else {
                *memory == between
            }
        }) by {
        assert(if capacity != 0 {
            middle.wf() && middle.wrote(start, output as int, converted@)
        } else {
            middle == start
        });
    }
    Ok(Answer::Value(length as u32))
}

/// Reads give at most the units asked for.
proof fn lemma_units_length(memory: GuestMemory, source: u32, index: int, limit: int, terminated: bool)
    requires
        0 <= index,
    ensures
        units_read(memory, source, index, limit, terminated) matches Ok(units) ==> units.len()
            <= if limit > index {
            limit - index
        } else {
            0
        },
    decreases limit - index,
{
    if index < limit {
        lemma_units_length(memory, source, index + 1, limit, terminated);
    }
}

/// What the code-page function `call` answers and leaves: the ANSI (1252)
/// and OEM (437) code-page numbers, or what describing or converting does.
pub open spec fn code_page_answered(
    call: Call,
    new: GuestMemory,
    old: GuestMemory,
    arguments: Seq<u32>,
    outcome: Result<Answer, DispatchError>,
) -> bool {
    match call {
        Call::Ansi => outcome == Ok::<Answer, DispatchError>(Answer::Value(1252)) && new == old,
        Call::Oem => outcome == Ok::<Answer, DispatchError>(Answer::Value(437)) && new == old,
        Call::Info => described(new, old, arguments[0], arguments[1], outcome),
        Call::WideToAnsi => wide_converted(new, old, arguments, outcome),
        Call::AnsiToWide => ansi_converted(new, old, arguments, outcome),
    }
}

/// Answers the code-page function `call` with its stack `arguments`.
pub fn dispatch(call: Call, arguments: &[u32], memory: &mut GuestMemory) -> (outcome: Result<
    Answer,
    DispatchError,
>)
    requires
        old(memory).wf(),
        arguments@.len() == match call {
            Call::Info => 2int,
            Call::WideToAnsi => 8int,
            Call::AnsiToWide => 6int,
            Call::Ansi | Call::Oem => 0int,
        },
    ensures
        final(memory).wf(),
        code_page_answered(call, *final(memory), *old(memory), arguments@, outcome),
{
    match call {
        Call::Ansi => Ok(Answer::Value(1252)),
        Call::Oem => Ok(Answer::Value(437)),
        Call::Info => info(arguments[0], arguments[1], memory),
        Call::WideToAnsi => wide_to_ansi(arguments, memory),
        Call::AnsiToWide => ansi_to_wide(arguments, memory),
    }
}

} // verus!
