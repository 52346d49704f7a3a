use iced_x86::{Code, Mnemonic, OpKind, Register};
use ring3_core::cpu::codes;

#[test]
fn decoder_numbers_match_the_decoder() {
    assert_eq!(codes::ADD_AL_IMM8, Code::Add_AL_imm8 as u16);
    assert_eq!(codes::ADD_AX_IMM16, Code::Add_AX_imm16 as u16);
    assert_eq!(codes::ADD_EAX_IMM32, Code::Add_EAX_imm32 as u16);
    assert_eq!(codes::ADD_R16_RM16, Code::Add_r16_rm16 as u16);
    assert_eq!(codes::ADD_R32_RM32, Code::Add_r32_rm32 as u16);
    assert_eq!(codes::ADD_R8_RM8, Code::Add_r8_rm8 as u16);
    assert_eq!(codes::ADD_RM16_IMM16, Code::Add_rm16_imm16 as u16);
    assert_eq!(codes::ADD_RM16_IMM8, Code::Add_rm16_imm8 as u16);
    assert_eq!(codes::ADD_RM16_R16, Code::Add_rm16_r16 as u16);
    assert_eq!(codes::ADD_RM32_IMM32, Code::Add_rm32_imm32 as u16);
    assert_eq!(codes::ADD_RM32_IMM8, Code::Add_rm32_imm8 as u16);
    assert_eq!(codes::ADD_RM32_R32, Code::Add_rm32_r32 as u16);
    assert_eq!(codes::ADD_RM8_IMM8, Code::Add_rm8_imm8 as u16);
    assert_eq!(codes::ADD_RM8_R8, Code::Add_rm8_r8 as u16);
    assert_eq!(codes::AND_AL_IMM8, Code::And_AL_imm8 as u16);
    assert_eq!(codes::AND_AX_IMM16, Code::And_AX_imm16 as u16);
    assert_eq!(codes::AND_EAX_IMM32, Code::And_EAX_imm32 as u16);
    assert_eq!(codes::AND_R16_RM16, Code::And_r16_rm16 as u16);
    assert_eq!(codes::AND_R32_RM32, Code::And_r32_rm32 as u16);
    assert_eq!(codes::AND_R8_RM8, Code::And_r8_rm8 as u16);
    assert_eq!(codes::AND_RM16_IMM16, Code::And_rm16_imm16 as u16);
    assert_eq!(codes::AND_RM16_IMM8, Code::And_rm16_imm8 as u16);
    assert_eq!(codes::AND_RM16_R16, Code::And_rm16_r16 as u16);
    assert_eq!(codes::AND_RM32_IMM32, Code::And_rm32_imm32 as u16);
    assert_eq!(codes::AND_RM32_IMM8, Code::And_rm32_imm8 as u16);
    assert_eq!(codes::AND_RM32_R32, Code::And_rm32_r32 as u16);
    assert_eq!(codes::AND_RM8_IMM8, Code::And_rm8_imm8 as u16);
    assert_eq!(codes::AND_RM8_R8, Code::And_rm8_r8 as u16);
    assert_eq!(codes::CALL_REL32_32, Code::Call_rel32_32 as u16);
    assert_eq!(codes::CALL_RM32, Code::Call_rm32 as u16);
    assert_eq!(codes::CMP_AL_IMM8, Code::Cmp_AL_imm8 as u16);
    assert_eq!(codes::CMP_AX_IMM16, Code::Cmp_AX_imm16 as u16);
    assert_eq!(codes::CMP_EAX_IMM32, Code::Cmp_EAX_imm32 as u16);
    assert_eq!(codes::CMP_R16_RM16, Code::Cmp_r16_rm16 as u16);
    assert_eq!(codes::CMP_R32_RM32, Code::Cmp_r32_rm32 as u16);
    assert_eq!(codes::CMP_R8_RM8, Code::Cmp_r8_rm8 as u16);
    assert_eq!(codes::CMP_RM16_IMM16, Code::Cmp_rm16_imm16 as u16);
    assert_eq!(codes::CMP_RM16_IMM8, Code::Cmp_rm16_imm8 as u16);
    assert_eq!(codes::CMP_RM16_R16, Code::Cmp_rm16_r16 as u16);
    assert_eq!(codes::CMP_RM32_IMM32, Code::Cmp_rm32_imm32 as u16);
    assert_eq!(codes::CMP_RM32_IMM8, Code::Cmp_rm32_imm8 as u16);
    assert_eq!(codes::CMP_RM32_R32, Code::Cmp_rm32_r32 as u16);
    assert_eq!(codes::CMP_RM8_IMM8, Code::Cmp_rm8_imm8 as u16);
    assert_eq!(codes::CMP_RM8_R8, Code::Cmp_rm8_r8 as u16);
    assert_eq!(codes::CPUID, Code::Cpuid as u16);
    assert_eq!(codes::DEC_R16, Code::Dec_r16 as u16);
    assert_eq!(codes::DEC_R32, Code::Dec_r32 as u16);
    assert_eq!(codes::DEC_RM16, Code::Dec_rm16 as u16);
    assert_eq!(codes::DEC_RM32, Code::Dec_rm32 as u16);
    assert_eq!(codes::DEC_RM8, Code::Dec_rm8 as u16);
    assert_eq!(codes::EMMS, Code::Emms as u16);
    assert_eq!(codes::FLDCW_M2BYTE, Code::Fldcw_m2byte as u16);
    assert_eq!(codes::FNSTCW_M2BYTE, Code::Fnstcw_m2byte as u16);
    assert_eq!(codes::IMUL_R16_RM16, Code::Imul_r16_rm16 as u16);
    assert_eq!(codes::IMUL_R16_RM16_IMM16, Code::Imul_r16_rm16_imm16 as u16);
    assert_eq!(codes::IMUL_R16_RM16_IMM8, Code::Imul_r16_rm16_imm8 as u16);
    assert_eq!(codes::IMUL_R32_RM32, Code::Imul_r32_rm32 as u16);
    assert_eq!(codes::IMUL_R32_RM32_IMM32, Code::Imul_r32_rm32_imm32 as u16);
    assert_eq!(codes::IMUL_R32_RM32_IMM8, Code::Imul_r32_rm32_imm8 as u16);
    assert_eq!(codes::INC_R16, Code::Inc_r16 as u16);
    assert_eq!(codes::INC_R32, Code::Inc_r32 as u16);
    assert_eq!(codes::INC_RM16, Code::Inc_rm16 as u16);
    assert_eq!(codes::INC_RM32, Code::Inc_rm32 as u16);
    assert_eq!(codes::INC_RM8, Code::Inc_rm8 as u16);
    assert_eq!(codes::INT3, Code::Int3 as u16);
    assert_eq!(codes::JA_REL32_32, Code::Ja_rel32_32 as u16);
    assert_eq!(codes::JA_REL8_32, Code::Ja_rel8_32 as u16);
    assert_eq!(codes::JAE_REL32_32, Code::Jae_rel32_32 as u16);
    assert_eq!(codes::JAE_REL8_32, Code::Jae_rel8_32 as u16);
    assert_eq!(codes::JB_REL32_32, Code::Jb_rel32_32 as u16);
    assert_eq!(codes::JB_REL8_32, Code::Jb_rel8_32 as u16);
    assert_eq!(codes::JBE_REL32_32, Code::Jbe_rel32_32 as u16);
    assert_eq!(codes::JBE_REL8_32, Code::Jbe_rel8_32 as u16);
    assert_eq!(codes::JE_REL32_32, Code::Je_rel32_32 as u16);
    assert_eq!(codes::JE_REL8_32, Code::Je_rel8_32 as u16);
    assert_eq!(codes::JG_REL32_32, Code::Jg_rel32_32 as u16);
    assert_eq!(codes::JG_REL8_32, Code::Jg_rel8_32 as u16);
    assert_eq!(codes::JGE_REL32_32, Code::Jge_rel32_32 as u16);
    assert_eq!(codes::JGE_REL8_32, Code::Jge_rel8_32 as u16);
    assert_eq!(codes::JL_REL32_32, Code::Jl_rel32_32 as u16);
    assert_eq!(codes::JL_REL8_32, Code::Jl_rel8_32 as u16);
    assert_eq!(codes::JLE_REL32_32, Code::Jle_rel32_32 as u16);
    assert_eq!(codes::JLE_REL8_32, Code::Jle_rel8_32 as u16);
    assert_eq!(codes::JMP_REL32_32, Code::Jmp_rel32_32 as u16);
    assert_eq!(codes::JMP_REL8_32, Code::Jmp_rel8_32 as u16);
    assert_eq!(codes::JMP_RM32, Code::Jmp_rm32 as u16);
    assert_eq!(codes::JNE_REL32_32, Code::Jne_rel32_32 as u16);
    assert_eq!(codes::JNE_REL8_32, Code::Jne_rel8_32 as u16);
    assert_eq!(codes::JNO_REL32_32, Code::Jno_rel32_32 as u16);
    assert_eq!(codes::JNO_REL8_32, Code::Jno_rel8_32 as u16);
    assert_eq!(codes::JNP_REL32_32, Code::Jnp_rel32_32 as u16);
    assert_eq!(codes::JNP_REL8_32, Code::Jnp_rel8_32 as u16);
    assert_eq!(codes::JNS_REL32_32, Code::Jns_rel32_32 as u16);
    assert_eq!(codes::JNS_REL8_32, Code::Jns_rel8_32 as u16);
    assert_eq!(codes::JO_REL32_32, Code::Jo_rel32_32 as u16);
    assert_eq!(codes::JO_REL8_32, Code::Jo_rel8_32 as u16);
    assert_eq!(codes::JP_REL32_32, Code::Jp_rel32_32 as u16);
    assert_eq!(codes::JP_REL8_32, Code::Jp_rel8_32 as u16);
    assert_eq!(codes::JS_REL32_32, Code::Js_rel32_32 as u16);
    assert_eq!(codes::JS_REL8_32, Code::Js_rel8_32 as u16);
    assert_eq!(codes::LEA_R32_M, Code::Lea_r32_m as u16);
    assert_eq!(codes::LEAVED, Code::Leaved as u16);
    assert_eq!(codes::MOV_AL_MOFFS8, Code::Mov_AL_moffs8 as u16);
    assert_eq!(codes::MOV_AX_MOFFS16, Code::Mov_AX_moffs16 as u16);
    assert_eq!(codes::MOV_EAX_MOFFS32, Code::Mov_EAX_moffs32 as u16);
    assert_eq!(codes::MOV_MOFFS16_AX, Code::Mov_moffs16_AX as u16);
    assert_eq!(codes::MOV_MOFFS32_EAX, Code::Mov_moffs32_EAX as u16);
    assert_eq!(codes::MOV_MOFFS8_AL, Code::Mov_moffs8_AL as u16);
    assert_eq!(codes::MOV_R16_IMM16, Code::Mov_r16_imm16 as u16);
    assert_eq!(codes::MOV_R16_RM16, Code::Mov_r16_rm16 as u16);
    assert_eq!(codes::MOV_R32_IMM32, Code::Mov_r32_imm32 as u16);
    assert_eq!(codes::MOV_R32_RM32, Code::Mov_r32_rm32 as u16);
    assert_eq!(codes::MOV_R8_IMM8, Code::Mov_r8_imm8 as u16);
    assert_eq!(codes::MOV_R8_RM8, Code::Mov_r8_rm8 as u16);
    assert_eq!(codes::MOV_RM16_IMM16, Code::Mov_rm16_imm16 as u16);
    assert_eq!(codes::MOV_RM16_R16, Code::Mov_rm16_r16 as u16);
    assert_eq!(codes::MOV_RM32_IMM32, Code::Mov_rm32_imm32 as u16);
    assert_eq!(codes::MOV_RM32_R32, Code::Mov_rm32_r32 as u16);
    assert_eq!(codes::MOV_RM8_IMM8, Code::Mov_rm8_imm8 as u16);
    assert_eq!(codes::MOV_RM8_R8, Code::Mov_rm8_r8 as u16);
    assert_eq!(codes::MOVD_MM_RM32, Code::Movd_mm_rm32 as u16);
    assert_eq!(codes::MOVD_RM32_MM, Code::Movd_rm32_mm as u16);
    assert_eq!(codes::MOVQ_MM_MMM64, Code::Movq_mm_mmm64 as u16);
    assert_eq!(codes::MOVQ_MMM64_MM, Code::Movq_mmm64_mm as u16);
    assert_eq!(codes::MOVSB_M8_M8, Code::Movsb_m8_m8 as u16);
    assert_eq!(codes::MOVSD_M32_M32, Code::Movsd_m32_m32 as u16);
    assert_eq!(codes::MOVSW_M16_M16, Code::Movsw_m16_m16 as u16);
    assert_eq!(codes::MOVSX_R16_RM8, Code::Movsx_r16_rm8 as u16);
    assert_eq!(codes::MOVSX_R32_RM16, Code::Movsx_r32_rm16 as u16);
    assert_eq!(codes::MOVSX_R32_RM8, Code::Movsx_r32_rm8 as u16);
    assert_eq!(codes::MOVZX_R16_RM8, Code::Movzx_r16_rm8 as u16);
    assert_eq!(codes::MOVZX_R32_RM16, Code::Movzx_r32_rm16 as u16);
    assert_eq!(codes::MOVZX_R32_RM8, Code::Movzx_r32_rm8 as u16);
    assert_eq!(codes::NEG_RM16, Code::Neg_rm16 as u16);
    assert_eq!(codes::NEG_RM32, Code::Neg_rm32 as u16);
    assert_eq!(codes::NEG_RM8, Code::Neg_rm8 as u16);
    assert_eq!(codes::NOPD, Code::Nopd as u16);
    assert_eq!(codes::NOT_RM16, Code::Not_rm16 as u16);
    assert_eq!(codes::NOT_RM32, Code::Not_rm32 as u16);
    assert_eq!(codes::NOT_RM8, Code::Not_rm8 as u16);
    assert_eq!(codes::OR_AL_IMM8, Code::Or_AL_imm8 as u16);
    assert_eq!(codes::OR_AX_IMM16, Code::Or_AX_imm16 as u16);
    assert_eq!(codes::OR_EAX_IMM32, Code::Or_EAX_imm32 as u16);
    assert_eq!(codes::OR_R16_RM16, Code::Or_r16_rm16 as u16);
    assert_eq!(codes::OR_R32_RM32, Code::Or_r32_rm32 as u16);
    assert_eq!(codes::OR_R8_RM8, Code::Or_r8_rm8 as u16);
    assert_eq!(codes::OR_RM16_IMM16, Code::Or_rm16_imm16 as u16);
    assert_eq!(codes::OR_RM16_IMM8, Code::Or_rm16_imm8 as u16);
    assert_eq!(codes::OR_RM16_R16, Code::Or_rm16_r16 as u16);
    assert_eq!(codes::OR_RM32_IMM32, Code::Or_rm32_imm32 as u16);
    assert_eq!(codes::OR_RM32_IMM8, Code::Or_rm32_imm8 as u16);
    assert_eq!(codes::OR_RM32_R32, Code::Or_rm32_r32 as u16);
    assert_eq!(codes::OR_RM8_IMM8, Code::Or_rm8_imm8 as u16);
    assert_eq!(codes::OR_RM8_R8, Code::Or_rm8_r8 as u16);
    assert_eq!(codes::PACKSSDW_MM_MMM64, Code::Packssdw_mm_mmm64 as u16);
    assert_eq!(codes::PACKSSWB_MM_MMM64, Code::Packsswb_mm_mmm64 as u16);
    assert_eq!(codes::PACKUSWB_MM_MMM64, Code::Packuswb_mm_mmm64 as u16);
    assert_eq!(codes::PADDB_MM_MMM64, Code::Paddb_mm_mmm64 as u16);
    assert_eq!(codes::PADDD_MM_MMM64, Code::Paddd_mm_mmm64 as u16);
    assert_eq!(codes::PADDSB_MM_MMM64, Code::Paddsb_mm_mmm64 as u16);
    assert_eq!(codes::PADDSW_MM_MMM64, Code::Paddsw_mm_mmm64 as u16);
    assert_eq!(codes::PADDUSB_MM_MMM64, Code::Paddusb_mm_mmm64 as u16);
    assert_eq!(codes::PADDUSW_MM_MMM64, Code::Paddusw_mm_mmm64 as u16);
    assert_eq!(codes::PADDW_MM_MMM64, Code::Paddw_mm_mmm64 as u16);
    assert_eq!(codes::PAND_MM_MMM64, Code::Pand_mm_mmm64 as u16);
    assert_eq!(codes::PANDN_MM_MMM64, Code::Pandn_mm_mmm64 as u16);
    assert_eq!(codes::PCMPEQB_MM_MMM64, Code::Pcmpeqb_mm_mmm64 as u16);
    assert_eq!(codes::PCMPEQD_MM_MMM64, Code::Pcmpeqd_mm_mmm64 as u16);
    assert_eq!(codes::PCMPEQW_MM_MMM64, Code::Pcmpeqw_mm_mmm64 as u16);
    assert_eq!(codes::PCMPGTB_MM_MMM64, Code::Pcmpgtb_mm_mmm64 as u16);
    assert_eq!(codes::PCMPGTD_MM_MMM64, Code::Pcmpgtd_mm_mmm64 as u16);
    assert_eq!(codes::PCMPGTW_MM_MMM64, Code::Pcmpgtw_mm_mmm64 as u16);
    assert_eq!(codes::PMADDWD_MM_MMM64, Code::Pmaddwd_mm_mmm64 as u16);
    assert_eq!(codes::PMULHW_MM_MMM64, Code::Pmulhw_mm_mmm64 as u16);
    assert_eq!(codes::PMULLW_MM_MMM64, Code::Pmullw_mm_mmm64 as u16);
    assert_eq!(codes::POP_R32, Code::Pop_r32 as u16);
    assert_eq!(codes::POP_RM32, Code::Pop_rm32 as u16);
    assert_eq!(codes::POPAD, Code::Popad as u16);
    assert_eq!(codes::POPAW, Code::Popaw as u16);
    assert_eq!(codes::POPFD, Code::Popfd as u16);
    assert_eq!(codes::POPFW, Code::Popfw as u16);
    assert_eq!(codes::POR_MM_MMM64, Code::Por_mm_mmm64 as u16);
    assert_eq!(codes::PSLLD_MM_IMM8, Code::Pslld_mm_imm8 as u16);
    assert_eq!(codes::PSLLD_MM_MMM64, Code::Pslld_mm_mmm64 as u16);
    assert_eq!(codes::PSLLQ_MM_IMM8, Code::Psllq_mm_imm8 as u16);
    assert_eq!(codes::PSLLQ_MM_MMM64, Code::Psllq_mm_mmm64 as u16);
    assert_eq!(codes::PSLLW_MM_IMM8, Code::Psllw_mm_imm8 as u16);
    assert_eq!(codes::PSLLW_MM_MMM64, Code::Psllw_mm_mmm64 as u16);
    assert_eq!(codes::PSRAD_MM_IMM8, Code::Psrad_mm_imm8 as u16);
    assert_eq!(codes::PSRAD_MM_MMM64, Code::Psrad_mm_mmm64 as u16);
    assert_eq!(codes::PSRAW_MM_IMM8, Code::Psraw_mm_imm8 as u16);
    assert_eq!(codes::PSRAW_MM_MMM64, Code::Psraw_mm_mmm64 as u16);
    assert_eq!(codes::PSRLD_MM_IMM8, Code::Psrld_mm_imm8 as u16);
    assert_eq!(codes::PSRLD_MM_MMM64, Code::Psrld_mm_mmm64 as u16);
    assert_eq!(codes::PSRLQ_MM_IMM8, Code::Psrlq_mm_imm8 as u16);
    assert_eq!(codes::PSRLQ_MM_MMM64, Code::Psrlq_mm_mmm64 as u16);
    assert_eq!(codes::PSRLW_MM_IMM8, Code::Psrlw_mm_imm8 as u16);
    assert_eq!(codes::PSRLW_MM_MMM64, Code::Psrlw_mm_mmm64 as u16);
    assert_eq!(codes::PSUBB_MM_MMM64, Code::Psubb_mm_mmm64 as u16);
    assert_eq!(codes::PSUBD_MM_MMM64, Code::Psubd_mm_mmm64 as u16);
    assert_eq!(codes::PSUBSB_MM_MMM64, Code::Psubsb_mm_mmm64 as u16);
    assert_eq!(codes::PSUBSW_MM_MMM64, Code::Psubsw_mm_mmm64 as u16);
    assert_eq!(codes::PSUBUSB_MM_MMM64, Code::Psubusb_mm_mmm64 as u16);
    assert_eq!(codes::PSUBUSW_MM_MMM64, Code::Psubusw_mm_mmm64 as u16);
    assert_eq!(codes::PSUBW_MM_MMM64, Code::Psubw_mm_mmm64 as u16);
    assert_eq!(codes::PUNPCKHBW_MM_MMM64, Code::Punpckhbw_mm_mmm64 as u16);
    assert_eq!(codes::PUNPCKHDQ_MM_MMM64, Code::Punpckhdq_mm_mmm64 as u16);
    assert_eq!(codes::PUNPCKHWD_MM_MMM64, Code::Punpckhwd_mm_mmm64 as u16);
    assert_eq!(codes::PUNPCKLBW_MM_MMM32, Code::Punpcklbw_mm_mmm32 as u16);
    assert_eq!(codes::PUNPCKLDQ_MM_MMM32, Code::Punpckldq_mm_mmm32 as u16);
    assert_eq!(codes::PUNPCKLWD_MM_MMM32, Code::Punpcklwd_mm_mmm32 as u16);
    assert_eq!(codes::PUSH_R32, Code::Push_r32 as u16);
    assert_eq!(codes::PUSH_RM32, Code::Push_rm32 as u16);
    assert_eq!(codes::PUSHAD, Code::Pushad as u16);
    assert_eq!(codes::PUSHAW, Code::Pushaw as u16);
    assert_eq!(codes::PUSHD_IMM32, Code::Pushd_imm32 as u16);
    assert_eq!(codes::PUSHD_IMM8, Code::Pushd_imm8 as u16);
    assert_eq!(codes::PUSHFD, Code::Pushfd as u16);
    assert_eq!(codes::PUSHFW, Code::Pushfw as u16);
    assert_eq!(codes::PXOR_MM_MMM64, Code::Pxor_mm_mmm64 as u16);
    assert_eq!(codes::RETND, Code::Retnd as u16);
    assert_eq!(codes::RETND_IMM16, Code::Retnd_imm16 as u16);
    assert_eq!(codes::SAR_RM16_1, Code::Sar_rm16_1 as u16);
    assert_eq!(codes::SAR_RM16_CL, Code::Sar_rm16_CL as u16);
    assert_eq!(codes::SAR_RM16_IMM8, Code::Sar_rm16_imm8 as u16);
    assert_eq!(codes::SAR_RM32_1, Code::Sar_rm32_1 as u16);
    assert_eq!(codes::SAR_RM32_CL, Code::Sar_rm32_CL as u16);
    assert_eq!(codes::SAR_RM32_IMM8, Code::Sar_rm32_imm8 as u16);
    assert_eq!(codes::SAR_RM8_1, Code::Sar_rm8_1 as u16);
    assert_eq!(codes::SAR_RM8_CL, Code::Sar_rm8_CL as u16);
    assert_eq!(codes::SAR_RM8_IMM8, Code::Sar_rm8_imm8 as u16);
    assert_eq!(codes::SBB_AL_IMM8, Code::Sbb_AL_imm8 as u16);
    assert_eq!(codes::SBB_AX_IMM16, Code::Sbb_AX_imm16 as u16);
    assert_eq!(codes::SBB_EAX_IMM32, Code::Sbb_EAX_imm32 as u16);
    assert_eq!(codes::SBB_R16_RM16, Code::Sbb_r16_rm16 as u16);
    assert_eq!(codes::SBB_R32_RM32, Code::Sbb_r32_rm32 as u16);
    assert_eq!(codes::SBB_R8_RM8, Code::Sbb_r8_rm8 as u16);
    assert_eq!(codes::SBB_RM16_IMM16, Code::Sbb_rm16_imm16 as u16);
    assert_eq!(codes::SBB_RM16_IMM8, Code::Sbb_rm16_imm8 as u16);
    assert_eq!(codes::SBB_RM16_R16, Code::Sbb_rm16_r16 as u16);
    assert_eq!(codes::SBB_RM32_IMM32, Code::Sbb_rm32_imm32 as u16);
    assert_eq!(codes::SBB_RM32_IMM8, Code::Sbb_rm32_imm8 as u16);
    assert_eq!(codes::SBB_RM32_R32, Code::Sbb_rm32_r32 as u16);
    assert_eq!(codes::SBB_RM8_IMM8, Code::Sbb_rm8_imm8 as u16);
    assert_eq!(codes::SBB_RM8_R8, Code::Sbb_rm8_r8 as u16);
    assert_eq!(codes::SCASB_AL_M8, Code::Scasb_AL_m8 as u16);
    assert_eq!(codes::SCASD_EAX_M32, Code::Scasd_EAX_m32 as u16);
    assert_eq!(codes::SCASW_AX_M16, Code::Scasw_AX_m16 as u16);
    assert_eq!(codes::SETA_RM8, Code::Seta_rm8 as u16);
    assert_eq!(codes::SETAE_RM8, Code::Setae_rm8 as u16);
    assert_eq!(codes::SETB_RM8, Code::Setb_rm8 as u16);
    assert_eq!(codes::SETBE_RM8, Code::Setbe_rm8 as u16);
    assert_eq!(codes::SETE_RM8, Code::Sete_rm8 as u16);
    assert_eq!(codes::SETG_RM8, Code::Setg_rm8 as u16);
    assert_eq!(codes::SETGE_RM8, Code::Setge_rm8 as u16);
    assert_eq!(codes::SETL_RM8, Code::Setl_rm8 as u16);
    assert_eq!(codes::SETLE_RM8, Code::Setle_rm8 as u16);
    assert_eq!(codes::SETNE_RM8, Code::Setne_rm8 as u16);
    assert_eq!(codes::SETNO_RM8, Code::Setno_rm8 as u16);
    assert_eq!(codes::SETNP_RM8, Code::Setnp_rm8 as u16);
    assert_eq!(codes::SETNS_RM8, Code::Setns_rm8 as u16);
    assert_eq!(codes::SETO_RM8, Code::Seto_rm8 as u16);
    assert_eq!(codes::SETP_RM8, Code::Setp_rm8 as u16);
    assert_eq!(codes::SETS_RM8, Code::Sets_rm8 as u16);
    assert_eq!(codes::SHL_RM16_1, Code::Shl_rm16_1 as u16);
    assert_eq!(codes::SHL_RM16_CL, Code::Shl_rm16_CL as u16);
    assert_eq!(codes::SHL_RM16_IMM8, Code::Shl_rm16_imm8 as u16);
    assert_eq!(codes::SHL_RM32_1, Code::Shl_rm32_1 as u16);
    assert_eq!(codes::SHL_RM32_CL, Code::Shl_rm32_CL as u16);
    assert_eq!(codes::SHL_RM32_IMM8, Code::Shl_rm32_imm8 as u16);
    assert_eq!(codes::SHL_RM8_1, Code::Shl_rm8_1 as u16);
    assert_eq!(codes::SHL_RM8_CL, Code::Shl_rm8_CL as u16);
    assert_eq!(codes::SHL_RM8_IMM8, Code::Shl_rm8_imm8 as u16);
    assert_eq!(codes::SHR_RM16_1, Code::Shr_rm16_1 as u16);
    assert_eq!(codes::SHR_RM16_CL, Code::Shr_rm16_CL as u16);
    assert_eq!(codes::SHR_RM16_IMM8, Code::Shr_rm16_imm8 as u16);
    assert_eq!(codes::SHR_RM32_1, Code::Shr_rm32_1 as u16);
    assert_eq!(codes::SHR_RM32_CL, Code::Shr_rm32_CL as u16);
    assert_eq!(codes::SHR_RM32_IMM8, Code::Shr_rm32_imm8 as u16);
    assert_eq!(codes::SHR_RM8_1, Code::Shr_rm8_1 as u16);
    assert_eq!(codes::SHR_RM8_CL, Code::Shr_rm8_CL as u16);
    assert_eq!(codes::SHR_RM8_IMM8, Code::Shr_rm8_imm8 as u16);
    assert_eq!(codes::SUB_AL_IMM8, Code::Sub_AL_imm8 as u16);
    assert_eq!(codes::SUB_AX_IMM16, Code::Sub_AX_imm16 as u16);
    assert_eq!(codes::SUB_EAX_IMM32, Code::Sub_EAX_imm32 as u16);
    assert_eq!(codes::SUB_R16_RM16, Code::Sub_r16_rm16 as u16);
    assert_eq!(codes::SUB_R32_RM32, Code::Sub_r32_rm32 as u16);
    assert_eq!(codes::SUB_R8_RM8, Code::Sub_r8_rm8 as u16);
    assert_eq!(codes::SUB_RM16_IMM16, Code::Sub_rm16_imm16 as u16);
    assert_eq!(codes::SUB_RM16_IMM8, Code::Sub_rm16_imm8 as u16);
    assert_eq!(codes::SUB_RM16_R16, Code::Sub_rm16_r16 as u16);
    assert_eq!(codes::SUB_RM32_IMM32, Code::Sub_rm32_imm32 as u16);
    assert_eq!(codes::SUB_RM32_IMM8, Code::Sub_rm32_imm8 as u16);
    assert_eq!(codes::SUB_RM32_R32, Code::Sub_rm32_r32 as u16);
    assert_eq!(codes::SUB_RM8_IMM8, Code::Sub_rm8_imm8 as u16);
    assert_eq!(codes::SUB_RM8_R8, Code::Sub_rm8_r8 as u16);
    assert_eq!(codes::TEST_AL_IMM8, Code::Test_AL_imm8 as u16);
    assert_eq!(codes::TEST_AX_IMM16, Code::Test_AX_imm16 as u16);
    assert_eq!(codes::TEST_EAX_IMM32, Code::Test_EAX_imm32 as u16);
    assert_eq!(codes::TEST_RM16_IMM16, Code::Test_rm16_imm16 as u16);
    assert_eq!(codes::TEST_RM16_R16, Code::Test_rm16_r16 as u16);
    assert_eq!(codes::TEST_RM32_IMM32, Code::Test_rm32_imm32 as u16);
    assert_eq!(codes::TEST_RM32_R32, Code::Test_rm32_r32 as u16);
    assert_eq!(codes::TEST_RM8_IMM8, Code::Test_rm8_imm8 as u16);
    assert_eq!(codes::TEST_RM8_R8, Code::Test_rm8_r8 as u16);
    assert_eq!(codes::XOR_AL_IMM8, Code::Xor_AL_imm8 as u16);
    assert_eq!(codes::XOR_AX_IMM16, Code::Xor_AX_imm16 as u16);
    assert_eq!(codes::XOR_EAX_IMM32, Code::Xor_EAX_imm32 as u16);
    assert_eq!(codes::XOR_R16_RM16, Code::Xor_r16_rm16 as u16);
    assert_eq!(codes::XOR_R32_RM32, Code::Xor_r32_rm32 as u16);
    assert_eq!(codes::XOR_R8_RM8, Code::Xor_r8_rm8 as u16);
    assert_eq!(codes::XOR_RM16_IMM16, Code::Xor_rm16_imm16 as u16);
    assert_eq!(codes::XOR_RM16_IMM8, Code::Xor_rm16_imm8 as u16);
    assert_eq!(codes::XOR_RM16_R16, Code::Xor_rm16_r16 as u16);
    assert_eq!(codes::XOR_RM32_IMM32, Code::Xor_rm32_imm32 as u16);
    assert_eq!(codes::XOR_RM32_IMM8, Code::Xor_rm32_imm8 as u16);
    assert_eq!(codes::XOR_RM32_R32, Code::Xor_rm32_r32 as u16);
    assert_eq!(codes::XOR_RM8_IMM8, Code::Xor_rm8_imm8 as u16);
    assert_eq!(codes::XOR_RM8_R8, Code::Xor_rm8_r8 as u16);
    assert_eq!(codes::OP_ADD, Mnemonic::Add as u16);
    assert_eq!(codes::OP_AND, Mnemonic::And as u16);
    assert_eq!(codes::OP_CMP, Mnemonic::Cmp as u16);
    assert_eq!(codes::OP_DEC, Mnemonic::Dec as u16);
    assert_eq!(codes::OP_MOV, Mnemonic::Mov as u16);
    assert_eq!(codes::OP_MOVSX, Mnemonic::Movsx as u16);
    assert_eq!(codes::OP_OR, Mnemonic::Or as u16);
    assert_eq!(codes::OP_PACKSSDW, Mnemonic::Packssdw as u16);
    assert_eq!(codes::OP_PACKSSWB, Mnemonic::Packsswb as u16);
    assert_eq!(codes::OP_PACKUSWB, Mnemonic::Packuswb as u16);
    assert_eq!(codes::OP_PADDB, Mnemonic::Paddb as u16);
    assert_eq!(codes::OP_PADDD, Mnemonic::Paddd as u16);
    assert_eq!(codes::OP_PADDSB, Mnemonic::Paddsb as u16);
    assert_eq!(codes::OP_PADDSW, Mnemonic::Paddsw as u16);
    assert_eq!(codes::OP_PADDUSB, Mnemonic::Paddusb as u16);
    assert_eq!(codes::OP_PADDUSW, Mnemonic::Paddusw as u16);
    assert_eq!(codes::OP_PADDW, Mnemonic::Paddw as u16);
    assert_eq!(codes::OP_PAND, Mnemonic::Pand as u16);
    assert_eq!(codes::OP_PANDN, Mnemonic::Pandn as u16);
    assert_eq!(codes::OP_PCMPEQB, Mnemonic::Pcmpeqb as u16);
    assert_eq!(codes::OP_PCMPEQD, Mnemonic::Pcmpeqd as u16);
    assert_eq!(codes::OP_PCMPEQW, Mnemonic::Pcmpeqw as u16);
    assert_eq!(codes::OP_PCMPGTB, Mnemonic::Pcmpgtb as u16);
    assert_eq!(codes::OP_PCMPGTD, Mnemonic::Pcmpgtd as u16);
    assert_eq!(codes::OP_PCMPGTW, Mnemonic::Pcmpgtw as u16);
    assert_eq!(codes::OP_PMADDWD, Mnemonic::Pmaddwd as u16);
    assert_eq!(codes::OP_PMULHW, Mnemonic::Pmulhw as u16);
    assert_eq!(codes::OP_PMULLW, Mnemonic::Pmullw as u16);
    assert_eq!(codes::OP_POR, Mnemonic::Por as u16);
    assert_eq!(codes::OP_PSLLD, Mnemonic::Pslld as u16);
    assert_eq!(codes::OP_PSLLQ, Mnemonic::Psllq as u16);
    assert_eq!(codes::OP_PSLLW, Mnemonic::Psllw as u16);
    assert_eq!(codes::OP_PSRAD, Mnemonic::Psrad as u16);
    assert_eq!(codes::OP_PSRAW, Mnemonic::Psraw as u16);
    assert_eq!(codes::OP_PSRLD, Mnemonic::Psrld as u16);
    assert_eq!(codes::OP_PSRLQ, Mnemonic::Psrlq as u16);
    assert_eq!(codes::OP_PSRLW, Mnemonic::Psrlw as u16);
    assert_eq!(codes::OP_PSUBB, Mnemonic::Psubb as u16);
    assert_eq!(codes::OP_PSUBD, Mnemonic::Psubd as u16);
    assert_eq!(codes::OP_PSUBSB, Mnemonic::Psubsb as u16);
    assert_eq!(codes::OP_PSUBSW, Mnemonic::Psubsw as u16);
    assert_eq!(codes::OP_PSUBUSB, Mnemonic::Psubusb as u16);
    assert_eq!(codes::OP_PSUBUSW, Mnemonic::Psubusw as u16);
    assert_eq!(codes::OP_PSUBW, Mnemonic::Psubw as u16);
    assert_eq!(codes::OP_PUNPCKHBW, Mnemonic::Punpckhbw as u16);
    assert_eq!(codes::OP_PUNPCKHDQ, Mnemonic::Punpckhdq as u16);
    assert_eq!(codes::OP_PUNPCKHWD, Mnemonic::Punpckhwd as u16);
    assert_eq!(codes::OP_PUNPCKLBW, Mnemonic::Punpcklbw as u16);
    assert_eq!(codes::OP_PUNPCKLDQ, Mnemonic::Punpckldq as u16);
    assert_eq!(codes::OP_PUNPCKLWD, Mnemonic::Punpcklwd as u16);
    assert_eq!(codes::OP_PXOR, Mnemonic::Pxor as u16);
    assert_eq!(codes::OP_SAR, Mnemonic::Sar as u16);
    assert_eq!(codes::OP_SBB, Mnemonic::Sbb as u16);
    assert_eq!(codes::OP_SHL, Mnemonic::Shl as u16);
    assert_eq!(codes::OP_SHR, Mnemonic::Shr as u16);
    assert_eq!(codes::OP_SUB, Mnemonic::Sub as u16);
    assert_eq!(codes::OP_TEST, Mnemonic::Test as u16);
    assert_eq!(codes::OP_XOR, Mnemonic::Xor as u16);
    assert_eq!(codes::REG_NONE, Register::None as u16);
    assert_eq!(codes::REG_AL, Register::AL as u16);
    assert_eq!(codes::REG_CL, Register::CL as u16);
    assert_eq!(codes::REG_DL, Register::DL as u16);
    assert_eq!(codes::REG_BL, Register::BL as u16);
    assert_eq!(codes::REG_AH, Register::AH as u16);
    assert_eq!(codes::REG_CH, Register::CH as u16);
    assert_eq!(codes::REG_DH, Register::DH as u16);
    assert_eq!(codes::REG_BH, Register::BH as u16);
    assert_eq!(codes::REG_AX, Register::AX as u16);
    assert_eq!(codes::REG_CX, Register::CX as u16);
    assert_eq!(codes::REG_DX, Register::DX as u16);
    assert_eq!(codes::REG_BX, Register::BX as u16);
    assert_eq!(codes::REG_SP, Register::SP as u16);
    assert_eq!(codes::REG_BP, Register::BP as u16);
    assert_eq!(codes::REG_SI, Register::SI as u16);
    assert_eq!(codes::REG_DI, Register::DI as u16);
    assert_eq!(codes::REG_EAX, Register::EAX as u16);
    assert_eq!(codes::REG_ECX, Register::ECX as u16);
    assert_eq!(codes::REG_EDX, Register::EDX as u16);
    assert_eq!(codes::REG_EBX, Register::EBX as u16);
    assert_eq!(codes::REG_ESP, Register::ESP as u16);
    assert_eq!(codes::REG_EBP, Register::EBP as u16);
    assert_eq!(codes::REG_ESI, Register::ESI as u16);
    assert_eq!(codes::REG_EDI, Register::EDI as u16);
    assert_eq!(codes::REG_FS, Register::FS as u16);
    assert_eq!(codes::REG_MM0, Register::MM0 as u16);
    assert_eq!(codes::REG_ST0, Register::ST0 as u16);
    assert_eq!(codes::KIND_REGISTER, OpKind::Register as u8);
    assert_eq!(codes::KIND_NEARBRANCH32, OpKind::NearBranch32 as u8);
    assert_eq!(codes::KIND_IMMEDIATE8, OpKind::Immediate8 as u8);
    assert_eq!(codes::KIND_IMMEDIATE16, OpKind::Immediate16 as u8);
    assert_eq!(codes::KIND_IMMEDIATE32, OpKind::Immediate32 as u8);
    assert_eq!(codes::KIND_IMMEDIATE8TO16, OpKind::Immediate8to16 as u8);
    assert_eq!(codes::KIND_IMMEDIATE8TO32, OpKind::Immediate8to32 as u8);
    assert_eq!(codes::KIND_MEMORYSEGESI, OpKind::MemorySegESI as u8);
    assert_eq!(codes::KIND_MEMORYESEDI, OpKind::MemoryESEDI as u8);
    assert_eq!(codes::KIND_MEMORY, OpKind::Memory as u8);
}
