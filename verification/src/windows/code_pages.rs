//! The Windows-1252 code page: bytes to UTF-16 units and characters back.
use vstd::prelude::*;

verus! {

/// The ANSI code page of the emulated system.
pub const ANSI: u32 = 1252;

/// The OEM code page of the emulated system.
pub const OEM: u32 = 437;

/// The UTF-16 unit of a Windows-1252 byte; the five unassigned bytes have none.
pub open spec fn unit_of(byte: u8) -> Option<u16> {
    if byte == 0x81 || byte == 0x8d || byte == 0x8f || byte == 0x90 || byte == 0x9d {
        None
    } else if byte == 0x80 {
        Some(0x20acu16)
    } else if byte == 0x82 {
        Some(0x201au16)
    } else if byte == 0x83 {
        Some(0x0192u16)
    } else if byte == 0x84 {
        Some(0x201eu16)
    } else if byte == 0x85 {
        Some(0x2026u16)
    } else if byte == 0x86 {
        Some(0x2020u16)
    } else if byte == 0x87 {
        Some(0x2021u16)
    } else if byte == 0x88 {
        Some(0x02c6u16)
    } else if byte == 0x89 {
        Some(0x2030u16)
    } else if byte == 0x8a {
        Some(0x0160u16)
    } else if byte == 0x8b {
        Some(0x2039u16)
    } else if byte == 0x8c {
        Some(0x0152u16)
    } else if byte == 0x8e {
        Some(0x017du16)
    } else if byte == 0x91 {
        Some(0x2018u16)
    } else if byte == 0x92 {
        Some(0x2019u16)
    } else if byte == 0x93 {
        Some(0x201cu16)
    } else if byte == 0x94 {
        Some(0x201du16)
    } else if byte == 0x95 {
        Some(0x2022u16)
    } else if byte == 0x96 {
        Some(0x2013u16)
    } else if byte == 0x97 {
        Some(0x2014u16)
    } else if byte == 0x98 {
        Some(0x02dcu16)
    } else if byte == 0x99 {
        Some(0x2122u16)
    } else if byte == 0x9a {
        Some(0x0161u16)
    } else if byte == 0x9b {
        Some(0x203au16)
    } else if byte == 0x9c {
        Some(0x0153u16)
    } else if byte == 0x9e {
        Some(0x017eu16)
    } else if byte == 0x9f {
        Some(0x0178u16)
    } else {
        Some(byte as u16)
    }
}

/// The code-page functions, by their offset in the emulated table.
#[derive(Clone, Copy, Debug, PartialEq, Eq, Structural)]
pub enum Call {
    Ansi,
    Oem,
    Info,
    WideToAnsi,
    AnsiToWide,
}

impl Call {
    /// The function at `offset`, if it is one of these.
    pub fn at(offset: u32) -> (call: Option<Call>)
        ensures
            call == (if offset == 0x88 {
                Some(Call::Ansi)
            } else if offset == 0x8c {
                Some(Call::Oem)
            } else if offset == 0x90 {
                Some(Call::Info)
            } else if offset == 0x338 {
                Some(Call::WideToAnsi)
            } else if offset == 0x33c {
                Some(Call::AnsiToWide)
            } else {
                None
            }),
    {
        match offset {
            0x88 => Some(Call::Ansi),
            0x8c => Some(Call::Oem),
            0x90 => Some(Call::Info),
            0x338 => Some(Call::WideToAnsi),
            0x33c => Some(Call::AnsiToWide),
            _ => None,
        }
    }

    /// The number of stack arguments.
    pub fn arguments(self) -> (count: usize)
        ensures
            count == match self {
                Call::Info => 2usize,
                Call::WideToAnsi => 8usize,
                Call::AnsiToWide => 6usize,
                Call::Ansi | Call::Oem => 0usize,
            },
    {
        match self {
            Call::Info => 2,
            Call::WideToAnsi => 8,
            Call::AnsiToWide => 6,
            Call::Ansi | Call::Oem => 0,
        }
    }
}

/// The UTF-16 unit of a Windows-1252 byte.
pub fn cp1252_unit(byte: u8) -> (unit: Option<u16>)
    ensures
        unit == unit_of(byte),
{
    match byte {
        0x81 | 0x8d | 0x8f | 0x90 | 0x9d => None,
        0x80 => Some(0x20ac),
        0x82 => Some(0x201a),
        0x83 => Some(0x0192),
        0x84 => Some(0x201e),
        0x85 => Some(0x2026),
        0x86 => Some(0x2020),
        0x87 => Some(0x2021),
        0x88 => Some(0x02c6),
        0x89 => Some(0x2030),
        0x8a => Some(0x0160),
        0x8b => Some(0x2039),
        0x8c => Some(0x0152),
        0x8e => Some(0x017d),
        0x91 => Some(0x2018),
        0x92 => Some(0x2019),
        0x93 => Some(0x201c),
        0x94 => Some(0x201d),
        0x95 => Some(0x2022),
        0x96 => Some(0x2013),
        0x97 => Some(0x2014),
        0x98 => Some(0x02dc),
        0x99 => Some(0x2122),
        0x9a => Some(0x0161),
        0x9b => Some(0x203a),
        0x9c => Some(0x0153),
        0x9e => Some(0x017e),
        0x9f => Some(0x0178),
        _ => Some(byte as u16),
    }
}

/// The Windows-1252 byte whose unit is `character`, if there is one.
pub open spec fn byte_of(character: char) -> Option<u8> {
    if (character as u32) <= 0xffff && exists|byte: u8| #[trigger] unit_of(byte) == Some(
        character as u16,
    ) {
        Some(choose|byte: u8| #[trigger] unit_of(byte) == Some(character as u16))
    } else {
        None
    }
}

/// The Windows-1252 byte of `character`, if it has one: the byte whose unit
/// is the character.
pub fn cp1252(character: char) -> (byte: Option<u8>)
    ensures
        byte == byte_of(character),
        match byte {
            Some(found) => unit_of(found) == Some(character as u16) && (character as u32) <= 0xffff,
            None => forall|other: u8| #[trigger] unit_of(other) != Some(character as u16) || (
            character as u32) > 0xffff,
        },
{
    let value = character as u32;
    let byte = if value <= 0x7f || (0xa0 <= value && value <= 0xff) {
        Some(value as u8)
    } else {
        match value {
        0x20ac => Some(0x80),
        0x201a => Some(0x82),
        0x0192 => Some(0x83),
        0x201e => Some(0x84),
        0x2026 => Some(0x85),
        0x2020 => Some(0x86),
        0x2021 => Some(0x87),
        0x02c6 => Some(0x88),
        0x2030 => Some(0x89),
        0x0160 => Some(0x8a),
        0x2039 => Some(0x8b),
        0x0152 => Some(0x8c),
        0x017d => Some(0x8e),
        0x2018 => Some(0x91),
        0x2019 => Some(0x92),
        0x201c => Some(0x93),
        0x201d => Some(0x94),
        0x2022 => Some(0x95),
        0x2013 => Some(0x96),
        0x2014 => Some(0x97),
        0x02dc => Some(0x98),
        0x2122 => Some(0x99),
        0x0161 => Some(0x9a),
        0x203a => Some(0x9b),
        0x0153 => Some(0x9c),
        0x017e => Some(0x9e),
        0x0178 => Some(0x9f),
        _ => None,
    }
    };
    proof {
        if let Some(found) = byte {
            let chosen = choose|other: u8| #[trigger] unit_of(other) == Some(character as u16);
            assert(unit_of(found) == Some(character as u16));
            law_units_are_distinct(found, chosen);
        }
    }
    byte
}

/// Encoding a byte and decoding its unit gives the byte back; no two bytes
/// share a unit.
pub proof fn law_units_are_distinct(first: u8, second: u8)
    ensures
        unit_of(first) is Some && unit_of(first) == unit_of(second) ==> first == second,
{
}

/// Decoding and encoding undo each other: a byte with a unit is the byte
/// of that unit's character, a character with a byte has that byte's unit,
/// and exactly the five unassigned bytes have no unit.
pub proof fn law_round_trip(byte: u8, character: char)
    ensures
        unit_of(byte) == Some(character as u16) && (character as u32) <= 0xffff ==> byte_of(
            character,
        ) == Some(byte),
        byte_of(character) matches Some(found) ==> unit_of(found) == Some(character as u16),
        unit_of(byte) is None <==> (byte == 0x81 || byte == 0x8d || byte == 0x8f || byte == 0x90
            || byte == 0x9d),
{
    if unit_of(byte) == Some(character as u16) && (character as u32) <= 0xffff {
        let chosen = choose|other: u8| #[trigger] unit_of(other) == Some(character as u16);
        law_units_are_distinct(byte, chosen);
    }
}

} // verus!
