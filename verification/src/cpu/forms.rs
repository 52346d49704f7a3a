//! Which instruction forms each part of the interpreter handles.
use super::codes;
use vstd::prelude::*;

verus! {

/// Whether `code` is a register or memory move, zero- or sign-extending.
pub open spec fn form_move(code: u16) -> bool {
    code == codes::MOV_R8_IMM8
        || code == codes::MOV_R8_RM8
        || code == codes::MOV_RM8_R8
        || code == codes::MOV_RM8_IMM8
        || code == codes::MOV_AL_MOFFS8
        || code == codes::MOV_MOFFS8_AL
        || code == codes::MOV_R16_IMM16
        || code == codes::MOV_R16_RM16
        || code == codes::MOV_RM16_R16
        || code == codes::MOV_RM16_IMM16
        || code == codes::MOV_AX_MOFFS16
        || code == codes::MOV_MOFFS16_AX
        || code == codes::MOV_R32_IMM32
        || code == codes::MOV_R32_RM32
        || code == codes::MOV_RM32_R32
        || code == codes::MOV_RM32_IMM32
        || code == codes::MOV_EAX_MOFFS32
        || code == codes::MOV_MOFFS32_EAX
        || code == codes::MOVZX_R16_RM8
        || code == codes::MOVZX_R32_RM8
        || code == codes::MOVZX_R32_RM16
        || code == codes::MOVSX_R16_RM8
        || code == codes::MOVSX_R32_RM8
        || code == codes::MOVSX_R32_RM16
}

/// Whether `code` is a register or memory move, zero- or sign-extending.
pub fn is_move(code: u16) -> (found: bool)
    ensures
        found == form_move(code),
{
    code == codes::MOV_R8_IMM8
        || code == codes::MOV_R8_RM8
        || code == codes::MOV_RM8_R8
        || code == codes::MOV_RM8_IMM8
        || code == codes::MOV_AL_MOFFS8
        || code == codes::MOV_MOFFS8_AL
        || code == codes::MOV_R16_IMM16
        || code == codes::MOV_R16_RM16
        || code == codes::MOV_RM16_R16
        || code == codes::MOV_RM16_IMM16
        || code == codes::MOV_AX_MOFFS16
        || code == codes::MOV_MOFFS16_AX
        || code == codes::MOV_R32_IMM32
        || code == codes::MOV_R32_RM32
        || code == codes::MOV_RM32_R32
        || code == codes::MOV_RM32_IMM32
        || code == codes::MOV_EAX_MOFFS32
        || code == codes::MOV_MOFFS32_EAX
        || code == codes::MOVZX_R16_RM8
        || code == codes::MOVZX_R32_RM8
        || code == codes::MOVZX_R32_RM16
        || code == codes::MOVSX_R16_RM8
        || code == codes::MOVSX_R32_RM8
        || code == codes::MOVSX_R32_RM16
}

/// Whether `code` is a two-operand `add`, `sub`, `cmp`, `xor`, `or`, `and` or `test`.
pub open spec fn form_binary(code: u16) -> bool {
    code == codes::ADD_AL_IMM8
        || code == codes::ADD_RM8_IMM8
        || code == codes::ADD_RM8_R8
        || code == codes::ADD_R8_RM8
        || code == codes::ADD_AX_IMM16
        || code == codes::ADD_RM16_IMM16
        || code == codes::ADD_RM16_R16
        || code == codes::ADD_R16_RM16
        || code == codes::ADD_RM16_IMM8
        || code == codes::ADD_EAX_IMM32
        || code == codes::ADD_RM32_IMM32
        || code == codes::ADD_RM32_R32
        || code == codes::ADD_R32_RM32
        || code == codes::ADD_RM32_IMM8
        || code == codes::SUB_AL_IMM8
        || code == codes::SUB_RM8_IMM8
        || code == codes::SUB_RM8_R8
        || code == codes::SUB_R8_RM8
        || code == codes::SUB_AX_IMM16
        || code == codes::SUB_RM16_IMM16
        || code == codes::SUB_RM16_R16
        || code == codes::SUB_R16_RM16
        || code == codes::SUB_RM16_IMM8
        || code == codes::SUB_EAX_IMM32
        || code == codes::SUB_RM32_IMM32
        || code == codes::SUB_RM32_R32
        || code == codes::SUB_R32_RM32
        || code == codes::SUB_RM32_IMM8
        || code == codes::CMP_AL_IMM8
        || code == codes::CMP_RM8_IMM8
        || code == codes::CMP_RM8_R8
        || code == codes::CMP_R8_RM8
        || code == codes::CMP_AX_IMM16
        || code == codes::CMP_RM16_IMM16
        || code == codes::CMP_RM16_R16
        || code == codes::CMP_R16_RM16
        || code == codes::CMP_RM16_IMM8
        || code == codes::CMP_EAX_IMM32
        || code == codes::CMP_RM32_IMM32
        || code == codes::CMP_RM32_R32
        || code == codes::CMP_R32_RM32
        || code == codes::CMP_RM32_IMM8
        || code == codes::XOR_AL_IMM8
        || code == codes::XOR_RM8_IMM8
        || code == codes::XOR_RM8_R8
        || code == codes::XOR_R8_RM8
        || code == codes::XOR_AX_IMM16
        || code == codes::XOR_RM16_IMM16
        || code == codes::XOR_RM16_R16
        || code == codes::XOR_R16_RM16
        || code == codes::XOR_RM16_IMM8
        || code == codes::XOR_EAX_IMM32
        || code == codes::XOR_RM32_IMM32
        || code == codes::XOR_RM32_R32
        || code == codes::XOR_R32_RM32
        || code == codes::XOR_RM32_IMM8
        || code == codes::OR_AL_IMM8
        || code == codes::OR_RM8_IMM8
        || code == codes::OR_RM8_R8
        || code == codes::OR_R8_RM8
        || code == codes::OR_AX_IMM16
        || code == codes::OR_RM16_IMM16
        || code == codes::OR_RM16_R16
        || code == codes::OR_R16_RM16
        || code == codes::OR_RM16_IMM8
        || code == codes::OR_EAX_IMM32
        || code == codes::OR_RM32_IMM32
        || code == codes::OR_RM32_R32
        || code == codes::OR_R32_RM32
        || code == codes::OR_RM32_IMM8
        || code == codes::AND_AL_IMM8
        || code == codes::AND_RM8_IMM8
        || code == codes::AND_RM8_R8
        || code == codes::AND_R8_RM8
        || code == codes::AND_AX_IMM16
        || code == codes::AND_RM16_IMM16
        || code == codes::AND_RM16_R16
        || code == codes::AND_R16_RM16
        || code == codes::AND_RM16_IMM8
        || code == codes::AND_EAX_IMM32
        || code == codes::AND_RM32_IMM32
        || code == codes::AND_RM32_R32
        || code == codes::AND_R32_RM32
        || code == codes::AND_RM32_IMM8
        || code == codes::TEST_AL_IMM8
        || code == codes::TEST_RM8_IMM8
        || code == codes::TEST_RM8_R8
        || code == codes::TEST_AX_IMM16
        || code == codes::TEST_RM16_IMM16
        || code == codes::TEST_RM16_R16
        || code == codes::TEST_EAX_IMM32
        || code == codes::TEST_RM32_IMM32
        || code == codes::TEST_RM32_R32
}

/// Whether `code` is a two-operand `add`, `sub`, `cmp`, `xor`, `or`, `and` or `test`.
pub fn is_binary(code: u16) -> (found: bool)
    ensures
        found == form_binary(code),
{
    code == codes::ADD_AL_IMM8
        || code == codes::ADD_RM8_IMM8
        || code == codes::ADD_RM8_R8
        || code == codes::ADD_R8_RM8
        || code == codes::ADD_AX_IMM16
        || code == codes::ADD_RM16_IMM16
        || code == codes::ADD_RM16_R16
        || code == codes::ADD_R16_RM16
        || code == codes::ADD_RM16_IMM8
        || code == codes::ADD_EAX_IMM32
        || code == codes::ADD_RM32_IMM32
        || code == codes::ADD_RM32_R32
        || code == codes::ADD_R32_RM32
        || code == codes::ADD_RM32_IMM8
        || code == codes::SUB_AL_IMM8
        || code == codes::SUB_RM8_IMM8
        || code == codes::SUB_RM8_R8
        || code == codes::SUB_R8_RM8
        || code == codes::SUB_AX_IMM16
        || code == codes::SUB_RM16_IMM16
        || code == codes::SUB_RM16_R16
        || code == codes::SUB_R16_RM16
        || code == codes::SUB_RM16_IMM8
        || code == codes::SUB_EAX_IMM32
        || code == codes::SUB_RM32_IMM32
        || code == codes::SUB_RM32_R32
        || code == codes::SUB_R32_RM32
        || code == codes::SUB_RM32_IMM8
        || code == codes::CMP_AL_IMM8
        || code == codes::CMP_RM8_IMM8
        || code == codes::CMP_RM8_R8
        || code == codes::CMP_R8_RM8
        || code == codes::CMP_AX_IMM16
        || code == codes::CMP_RM16_IMM16
        || code == codes::CMP_RM16_R16
        || code == codes::CMP_R16_RM16
        || code == codes::CMP_RM16_IMM8
        || code == codes::CMP_EAX_IMM32
        || code == codes::CMP_RM32_IMM32
        || code == codes::CMP_RM32_R32
        || code == codes::CMP_R32_RM32
        || code == codes::CMP_RM32_IMM8
        || code == codes::XOR_AL_IMM8
        || code == codes::XOR_RM8_IMM8
        || code == codes::XOR_RM8_R8
        || code == codes::XOR_R8_RM8
        || code == codes::XOR_AX_IMM16
        || code == codes::XOR_RM16_IMM16
        || code == codes::XOR_RM16_R16
        || code == codes::XOR_R16_RM16
        || code == codes::XOR_RM16_IMM8
        || code == codes::XOR_EAX_IMM32
        || code == codes::XOR_RM32_IMM32
        || code == codes::XOR_RM32_R32
        || code == codes::XOR_R32_RM32
        || code == codes::XOR_RM32_IMM8
        || code == codes::OR_AL_IMM8
        || code == codes::OR_RM8_IMM8
        || code == codes::OR_RM8_R8
        || code == codes::OR_R8_RM8
        || code == codes::OR_AX_IMM16
        || code == codes::OR_RM16_IMM16
        || code == codes::OR_RM16_R16
        || code == codes::OR_R16_RM16
        || code == codes::OR_RM16_IMM8
        || code == codes::OR_EAX_IMM32
        || code == codes::OR_RM32_IMM32
        || code == codes::OR_RM32_R32
        || code == codes::OR_R32_RM32
        || code == codes::OR_RM32_IMM8
        || code == codes::AND_AL_IMM8
        || code == codes::AND_RM8_IMM8
        || code == codes::AND_RM8_R8
        || code == codes::AND_R8_RM8
        || code == codes::AND_AX_IMM16
        || code == codes::AND_RM16_IMM16
        || code == codes::AND_RM16_R16
        || code == codes::AND_R16_RM16
        || code == codes::AND_RM16_IMM8
        || code == codes::AND_EAX_IMM32
        || code == codes::AND_RM32_IMM32
        || code == codes::AND_RM32_R32
        || code == codes::AND_R32_RM32
        || code == codes::AND_RM32_IMM8
        || code == codes::TEST_AL_IMM8
        || code == codes::TEST_RM8_IMM8
        || code == codes::TEST_RM8_R8
        || code == codes::TEST_AX_IMM16
        || code == codes::TEST_RM16_IMM16
        || code == codes::TEST_RM16_R16
        || code == codes::TEST_EAX_IMM32
        || code == codes::TEST_RM32_IMM32
        || code == codes::TEST_RM32_R32
}

/// Whether `code` is a subtract-with-borrow.
pub open spec fn form_sbb(code: u16) -> bool {
    code == codes::SBB_AL_IMM8
        || code == codes::SBB_RM8_IMM8
        || code == codes::SBB_RM8_R8
        || code == codes::SBB_R8_RM8
        || code == codes::SBB_AX_IMM16
        || code == codes::SBB_RM16_IMM16
        || code == codes::SBB_RM16_R16
        || code == codes::SBB_R16_RM16
        || code == codes::SBB_RM16_IMM8
        || code == codes::SBB_EAX_IMM32
        || code == codes::SBB_RM32_IMM32
        || code == codes::SBB_RM32_R32
        || code == codes::SBB_R32_RM32
        || code == codes::SBB_RM32_IMM8
}

/// Whether `code` is a subtract-with-borrow.
pub fn is_sbb(code: u16) -> (found: bool)
    ensures
        found == form_sbb(code),
{
    code == codes::SBB_AL_IMM8
        || code == codes::SBB_RM8_IMM8
        || code == codes::SBB_RM8_R8
        || code == codes::SBB_R8_RM8
        || code == codes::SBB_AX_IMM16
        || code == codes::SBB_RM16_IMM16
        || code == codes::SBB_RM16_R16
        || code == codes::SBB_R16_RM16
        || code == codes::SBB_RM16_IMM8
        || code == codes::SBB_EAX_IMM32
        || code == codes::SBB_RM32_IMM32
        || code == codes::SBB_RM32_R32
        || code == codes::SBB_R32_RM32
        || code == codes::SBB_RM32_IMM8
}

/// Whether `code` is a left, logical right or arithmetic right shift.
pub open spec fn form_shift(code: u16) -> bool {
    code == codes::SHL_RM8_1
        || code == codes::SHL_RM16_1
        || code == codes::SHL_RM32_1
        || code == codes::SHL_RM8_CL
        || code == codes::SHL_RM16_CL
        || code == codes::SHL_RM32_CL
        || code == codes::SHL_RM8_IMM8
        || code == codes::SHL_RM16_IMM8
        || code == codes::SHL_RM32_IMM8
        || code == codes::SHR_RM8_1
        || code == codes::SHR_RM16_1
        || code == codes::SHR_RM32_1
        || code == codes::SHR_RM8_CL
        || code == codes::SHR_RM16_CL
        || code == codes::SHR_RM32_CL
        || code == codes::SHR_RM8_IMM8
        || code == codes::SHR_RM16_IMM8
        || code == codes::SHR_RM32_IMM8
        || code == codes::SAR_RM8_1
        || code == codes::SAR_RM16_1
        || code == codes::SAR_RM32_1
        || code == codes::SAR_RM8_CL
        || code == codes::SAR_RM16_CL
        || code == codes::SAR_RM32_CL
        || code == codes::SAR_RM8_IMM8
        || code == codes::SAR_RM16_IMM8
        || code == codes::SAR_RM32_IMM8
}

/// Whether `code` is a left, logical right or arithmetic right shift.
pub fn is_shift(code: u16) -> (found: bool)
    ensures
        found == form_shift(code),
{
    code == codes::SHL_RM8_1
        || code == codes::SHL_RM16_1
        || code == codes::SHL_RM32_1
        || code == codes::SHL_RM8_CL
        || code == codes::SHL_RM16_CL
        || code == codes::SHL_RM32_CL
        || code == codes::SHL_RM8_IMM8
        || code == codes::SHL_RM16_IMM8
        || code == codes::SHL_RM32_IMM8
        || code == codes::SHR_RM8_1
        || code == codes::SHR_RM16_1
        || code == codes::SHR_RM32_1
        || code == codes::SHR_RM8_CL
        || code == codes::SHR_RM16_CL
        || code == codes::SHR_RM32_CL
        || code == codes::SHR_RM8_IMM8
        || code == codes::SHR_RM16_IMM8
        || code == codes::SHR_RM32_IMM8
        || code == codes::SAR_RM8_1
        || code == codes::SAR_RM16_1
        || code == codes::SAR_RM32_1
        || code == codes::SAR_RM8_CL
        || code == codes::SAR_RM16_CL
        || code == codes::SAR_RM32_CL
        || code == codes::SAR_RM8_IMM8
        || code == codes::SAR_RM16_IMM8
        || code == codes::SAR_RM32_IMM8
}

/// Whether `code` is a stack, call, indirect jump, return or frame instruction.
pub open spec fn form_stack(code: u16) -> bool {
    code == codes::PUSH_R32
        || code == codes::PUSHD_IMM32
        || code == codes::PUSHD_IMM8
        || code == codes::PUSH_RM32
        || code == codes::POP_R32
        || code == codes::POP_RM32
        || code == codes::CALL_REL32_32
        || code == codes::CALL_RM32
        || code == codes::JMP_RM32
        || code == codes::RETND
        || code == codes::RETND_IMM16
        || code == codes::LEAVED
        || code == codes::PUSHAW
        || code == codes::PUSHAD
        || code == codes::POPAW
        || code == codes::POPAD
}

/// Whether `code` is a stack, call, indirect jump, return or frame instruction.
pub fn is_stack(code: u16) -> (found: bool)
    ensures
        found == form_stack(code),
{
    code == codes::PUSH_R32
        || code == codes::PUSHD_IMM32
        || code == codes::PUSHD_IMM8
        || code == codes::PUSH_RM32
        || code == codes::POP_R32
        || code == codes::POP_RM32
        || code == codes::CALL_REL32_32
        || code == codes::CALL_RM32
        || code == codes::JMP_RM32
        || code == codes::RETND
        || code == codes::RETND_IMM16
        || code == codes::LEAVED
        || code == codes::PUSHAW
        || code == codes::PUSHAD
        || code == codes::POPAW
        || code == codes::POPAD
}

/// Whether `code` is a string scan.
pub open spec fn form_scan(code: u16) -> bool {
    code == codes::SCASB_AL_M8
        || code == codes::SCASW_AX_M16
        || code == codes::SCASD_EAX_M32
}

/// Whether `code` is a string scan.
pub fn is_scan(code: u16) -> (found: bool)
    ensures
        found == form_scan(code),
{
    code == codes::SCASB_AL_M8
        || code == codes::SCASW_AX_M16
        || code == codes::SCASD_EAX_M32
}

/// Whether `code` is a two- or three-operand signed multiplication.
pub open spec fn form_multiply(code: u16) -> bool {
    code == codes::IMUL_R16_RM16
        || code == codes::IMUL_R32_RM32
        || code == codes::IMUL_R16_RM16_IMM16
        || code == codes::IMUL_R32_RM32_IMM32
        || code == codes::IMUL_R16_RM16_IMM8
        || code == codes::IMUL_R32_RM32_IMM8
}

/// Whether `code` is a two- or three-operand signed multiplication.
pub fn is_multiply(code: u16) -> (found: bool)
    ensures
        found == form_multiply(code),
{
    code == codes::IMUL_R16_RM16
        || code == codes::IMUL_R32_RM32
        || code == codes::IMUL_R16_RM16_IMM16
        || code == codes::IMUL_R32_RM32_IMM32
        || code == codes::IMUL_R16_RM16_IMM8
        || code == codes::IMUL_R32_RM32_IMM8
}

/// Whether `code` is an increment or decrement.
pub open spec fn form_increment(code: u16) -> bool {
    code == codes::INC_RM8
        || code == codes::INC_RM16
        || code == codes::INC_RM32
        || code == codes::INC_R16
        || code == codes::INC_R32
        || code == codes::DEC_RM8
        || code == codes::DEC_RM16
        || code == codes::DEC_RM32
        || code == codes::DEC_R16
        || code == codes::DEC_R32
}

/// Whether `code` is an increment or decrement.
pub fn is_increment(code: u16) -> (found: bool)
    ensures
        found == form_increment(code),
{
    code == codes::INC_RM8
        || code == codes::INC_RM16
        || code == codes::INC_RM32
        || code == codes::INC_R16
        || code == codes::INC_R32
        || code == codes::DEC_RM8
        || code == codes::DEC_RM16
        || code == codes::DEC_RM32
        || code == codes::DEC_R16
        || code == codes::DEC_R32
}

/// Whether `code` is a bitwise `not`.
pub open spec fn form_complement(code: u16) -> bool {
    code == codes::NOT_RM8
        || code == codes::NOT_RM16
        || code == codes::NOT_RM32
}

/// Whether `code` is a bitwise `not`.
pub fn is_complement(code: u16) -> (found: bool)
    ensures
        found == form_complement(code),
{
    code == codes::NOT_RM8
        || code == codes::NOT_RM16
        || code == codes::NOT_RM32
}

/// Whether `code` is a two's-complement `neg`.
pub open spec fn form_negate(code: u16) -> bool {
    code == codes::NEG_RM8
        || code == codes::NEG_RM16
        || code == codes::NEG_RM32
}

/// Whether `code` is a two's-complement `neg`.
pub fn is_negate(code: u16) -> (found: bool)
    ensures
        found == form_negate(code),
{
    code == codes::NEG_RM8
        || code == codes::NEG_RM16
        || code == codes::NEG_RM32
}

/// Whether `code` is a relative unconditional jump.
pub open spec fn form_direct_jump(code: u16) -> bool {
    code == codes::JMP_REL8_32
        || code == codes::JMP_REL32_32
}

/// Whether `code` is a relative unconditional jump.
pub fn is_direct_jump(code: u16) -> (found: bool)
    ensures
        found == form_direct_jump(code),
{
    code == codes::JMP_REL8_32
        || code == codes::JMP_REL32_32
}

/// Whether `code` is a string move.
pub open spec fn form_string_move(code: u16) -> bool {
    code == codes::MOVSB_M8_M8
        || code == codes::MOVSW_M16_M16
        || code == codes::MOVSD_M32_M32
}

/// Whether `code` is a string move.
pub fn is_string_move(code: u16) -> (found: bool)
    ensures
        found == form_string_move(code),
{
    code == codes::MOVSB_M8_M8
        || code == codes::MOVSW_M16_M16
        || code == codes::MOVSD_M32_M32
}

/// Whether `code` is a load or store of the x87 control word.
pub open spec fn form_control_word(code: u16) -> bool {
    code == codes::FLDCW_M2BYTE
        || code == codes::FNSTCW_M2BYTE
}

/// Whether `code` is a load or store of the x87 control word.
pub fn is_control_word(code: u16) -> (found: bool)
    ensures
        found == form_control_word(code),
{
    code == codes::FLDCW_M2BYTE
        || code == codes::FNSTCW_M2BYTE
}

} // verus!
