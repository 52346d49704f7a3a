//! Instruction decoding: the decoder crate turns bytes into an instruction,
//! and this module fetches those bytes one at a time from guest memory.
use super::StopReason;
use crate::memory::{Access, GuestMemory, MemoryError};
use iced_x86::{Decoder, DecoderError, DecoderOptions};
use vstd::prelude::*;

verus! {

/// What the decoder made of a byte sequence.
#[derive(Clone, Copy, Debug, PartialEq, Eq, Structural)]
pub enum DecodeStatus {
    /// The bytes start with a whole, valid instruction.
    Complete,
    /// The bytes are a proper prefix of an instruction.
    Incomplete,
    /// The bytes start with an invalid instruction.
    Invalid,
}

/// The form, operation and length of a decoded instruction.
#[derive(Clone, Copy, Debug, PartialEq, Eq, Structural)]
pub struct DecodedHead {
    pub status: DecodeStatus,
    /// The decoder's number for the instruction form.
    pub code: u16,
    /// The decoder's number for the operation.
    pub mnemonic: u16,
    pub length: u32,
    /// The address of the next instruction.
    pub next_ip: u32,
}

/// The explicit operands of a decoded instruction.
#[derive(Clone, Copy, Debug, PartialEq, Eq, Structural)]
pub struct DecodedOperands {
    pub count: u32,
    /// The decoder's operand-kind numbers of the first three operands.
    pub kind0: u8,
    pub kind1: u8,
    pub kind2: u8,
    /// The decoder's register numbers of the first three operands.
    pub register0: u16,
    pub register1: u16,
    pub register2: u16,
    /// The raw immediate: an 8-bit or 16-bit immediate sits in its low bits.
    pub immediate: u32,
    /// The branch target, or the displacement of a memory operand.
    pub target: u32,
}

/// The memory operand and prefixes of a decoded instruction.
#[derive(Clone, Copy, Debug, PartialEq, Eq, Structural)]
pub struct DecodedMemory {
    pub base: u16,
    pub index: u16,
    pub scale: u32,
    pub displacement_size: u32,
    /// The size in bytes of the memory location.
    pub size: u32,
    /// The segment used for the memory operand.
    pub segment: u16,
    /// The segment override prefix, or the register number of "none".
    pub segment_prefix: u16,
    pub lock: bool,
    pub rep: bool,
    pub repne: bool,
}

/// A decoded instruction, as plain values.
#[derive(Clone, Copy, Debug, PartialEq, Eq, Structural)]
pub struct Instruction {
    pub ip: u32,
    pub head: DecodedHead,
    pub operands: DecodedOperands,
    pub memory: DecodedMemory,
}

/// What the decoder gives for the form, operation and length of 32-bit code.
pub uninterp spec fn decoded_head(bytes: Seq<u8>, ip: u32) -> DecodedHead;

/// What the decoder gives for the explicit operands of 32-bit code.
pub uninterp spec fn decoded_operands(bytes: Seq<u8>, ip: u32) -> DecodedOperands;

/// What the decoder gives for the memory operand and prefixes of 32-bit code.
pub uninterp spec fn decoded_memory(bytes: Seq<u8>, ip: u32) -> DecodedMemory;

/// Decodes the first instruction of `bytes` as 32-bit code at `ip` with
/// `iced_x86::Decoder::decode` and reports its form, operation, length and
/// following address (`code`, `mnemonic`, `len`, `next_ip32`).
/// Claimed: the result is a function of the bytes and the address alone, and a
/// complete instruction is at most 15 bytes long and lies within `bytes`.
#[verifier::external_body]
fn decode_head(bytes: &[u8], ip: u32) -> (head: DecodedHead)
    ensures
        head == decoded_head(bytes@, ip),
        head.status is Complete ==> 1 <= head.length <= 15 && head.length <= bytes@.len(),
{
    let mut decoder = Decoder::with_ip(32, bytes, ip as u64, DecoderOptions::NONE);
    let instruction = decoder.decode();
    let status = match decoder.last_error() {
        DecoderError::None => DecodeStatus::Complete,
        DecoderError::NoMoreBytes => DecodeStatus::Incomplete,
        _ => DecodeStatus::Invalid,
    };
    let (code, mnemonic) = (instruction.code() as u16, instruction.mnemonic() as u16);
    DecodedHead {
        status,
        code,
        mnemonic,
        length: instruction.len() as u32,
        next_ip: instruction.next_ip32(),
    }
}

/// Decodes like [`decode_head`] and reports the operand kinds, operand
/// registers, raw immediate and branch target or displacement of the
/// instruction (`op_count`, `op_kind`, `op_register`, `immediate32`,
/// `memory_displacement32`). Claimed: a function of the bytes and address alone.
#[verifier::external_body]
fn decode_operands(bytes: &[u8], ip: u32) -> (operands: DecodedOperands)
    ensures
        operands == decoded_operands(bytes@, ip),
{
    let i = Decoder::with_ip(32, bytes, ip as u64, DecoderOptions::NONE).decode();
    DecodedOperands {
        count: i.op_count(),
        kind0: i.op0_kind() as u8,
        kind1: i.op1_kind() as u8,
        kind2: i.op2_kind() as u8,
        register0: i.op0_register() as u16,
        register1: i.op1_register() as u16,
        register2: i.op2_register() as u16,
        immediate: i.immediate32(),
        target: i.memory_displacement32(),
    }
}

/// Decodes like [`decode_head`] and reports the memory operand (base, index,
/// scale, displacement size, location size, segment) and the prefixes.
/// Claimed: a function of the bytes and address alone.
#[verifier::external_body]
fn decode_memory(bytes: &[u8], ip: u32) -> (memory: DecodedMemory)
    ensures
        memory == decoded_memory(bytes@, ip),
{
    let i = Decoder::with_ip(32, bytes, ip as u64, DecoderOptions::NONE).decode();
    DecodedMemory {
        base: i.memory_base() as u16,
        index: i.memory_index() as u16,
        scale: i.memory_index_scale(),
        displacement_size: i.memory_displ_size(),
        size: i.memory_size().size() as u32,
        segment: i.memory_segment() as u16,
        segment_prefix: i.segment_prefix() as u16,
        lock: i.has_lock_prefix(),
        rep: i.has_rep_prefix(),
        repne: i.has_repne_prefix(),
    }
}

/// The instruction that the decoder finds at the start of `bytes`.
pub open spec fn instruction_of(bytes: Seq<u8>, ip: u32) -> Instruction {
    Instruction {
        ip,
        head: decoded_head(bytes, ip),
        operands: decoded_operands(bytes, ip),
        memory: decoded_memory(bytes, ip),
    }
}

/// The `count` bytes of memory from `ip`.
pub open spec fn code_bytes(memory: GuestMemory, ip: u32, count: int) -> Seq<u8> {
    Seq::new(count as nat, |i: int| memory.byte(ip + i))
}

/// Decoding at `ip` after `known` bytes were fetched and found to be too few:
/// fetch one more byte (it must be executable) and ask the decoder again, up to
/// the longest instruction.
pub open spec fn decode_outcome(memory: GuestMemory, ip: u32, known: int) -> Result<
    Instruction,
    StopReason,
>
    decreases 15 - known,
{
    if known >= 15 || known < 0 {
        Err(StopReason::InvalidInstruction)
    } else if ip + known > u32::MAX {
        Err(StopReason::MemoryFault(MemoryError::AddressOverflow))
    } else {
        match memory.access((ip + known) as u64, 1, Access::Execute) {
            Err(error) => Err(StopReason::MemoryFault(error)),
            Ok(()) => {
                let bytes = code_bytes(memory, ip, known + 1);
                match decoded_head(bytes, ip).status {
                    DecodeStatus::Complete => Ok(instruction_of(bytes, ip)),
                    DecodeStatus::Incomplete => decode_outcome(memory, ip, known + 1),
                    DecodeStatus::Invalid => Err(StopReason::InvalidInstruction),
                }
            },
        }
    }
}

/// Decodes the instruction at `ip`, fetching one byte at a time so that a
/// short instruction before an inaccessible page still decodes.
pub fn decode(memory: &GuestMemory, ip: u32) -> (decoded: Result<Instruction, StopReason>)
    requires
        memory.wf(),
    ensures
        decoded matches Err(reason) ==> reason.is_fault(),
        decoded == decode_outcome(*memory, ip, 0),
        decoded matches Ok(instruction) ==> instruction.head.status is Complete && 1
            <= instruction.head.length <= 15 && instruction.ip == ip,
{
    let mut bytes: Vec<u8> = Vec::new();
    let mut length: u32 = 0;
    while length < 15
        invariant
            memory.wf(),
            length <= 15,
            bytes@ == code_bytes(*memory, ip, length as int),
            decode_outcome(*memory, ip, 0) == decode_outcome(*memory, ip, length as int),
        decreases 15 - length,
    {
        let address = match ip.checked_add(length) {
            Some(address) => address,
            None => return Err(StopReason::MemoryFault(MemoryError::AddressOverflow)),
        };
        let mut byte = [0u8; 1];
        match memory.fetch(address as u64, &mut byte) {
            Err(error) => return Err(StopReason::MemoryFault(error)),
            Ok(()) => {},
        }
        assert(byte@[0] == memory.byte(address + 0));
        bytes.push(byte[0]);
        length = length + 1;
        assert(bytes@ =~= code_bytes(*memory, ip, length as int));
        let head = decode_head(bytes.as_slice(), ip);
        match head.status {
            DecodeStatus::Complete => {
                let operands = decode_operands(bytes.as_slice(), ip);
                let location = decode_memory(bytes.as_slice(), ip);
                return Ok(Instruction { ip, head, operands, memory: location });
            },
            DecodeStatus::Incomplete => {},
            DecodeStatus::Invalid => return Err(StopReason::InvalidInstruction),
        }
    }
    Err(StopReason::InvalidInstruction)
}

} // verus!
