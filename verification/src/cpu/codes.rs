//! The numbers that the decoder gives the instruction forms, operations,
//! registers and operand kinds this interpreter knows.
use vstd::prelude::*;

verus! {

// Instruction forms.
pub const ADD_AL_IMM8: u16 = 13;
pub const ADD_AX_IMM16: u16 = 14;
pub const ADD_EAX_IMM32: u16 = 15;
pub const ADD_R16_RM16: u16 = 10;
pub const ADD_R32_RM32: u16 = 11;
pub const ADD_R8_RM8: u16 = 9;
pub const ADD_RM16_IMM16: u16 = 215;
pub const ADD_RM16_IMM8: u16 = 247;
pub const ADD_RM16_R16: u16 = 6;
pub const ADD_RM32_IMM32: u16 = 216;
pub const ADD_RM32_IMM8: u16 = 248;
pub const ADD_RM32_R32: u16 = 7;
pub const ADD_RM8_IMM8: u16 = 207;
pub const ADD_RM8_R8: u16 = 5;
pub const AND_AL_IMM8: u16 = 76;
pub const AND_AX_IMM16: u16 = 77;
pub const AND_EAX_IMM32: u16 = 78;
pub const AND_R16_RM16: u16 = 73;
pub const AND_R32_RM32: u16 = 74;
pub const AND_R8_RM8: u16 = 72;
pub const AND_RM16_IMM16: u16 = 227;
pub const AND_RM16_IMM8: u16 = 259;
pub const AND_RM16_R16: u16 = 69;
pub const AND_RM32_IMM32: u16 = 228;
pub const AND_RM32_IMM8: u16 = 260;
pub const AND_RM32_R32: u16 = 70;
pub const AND_RM8_IMM8: u16 = 211;
pub const AND_RM8_R8: u16 = 68;
pub const CALL_REL32_32: u16 = 692;
pub const CALL_RM32: u16 = 758;
pub const CMP_AL_IMM8: u16 = 115;
pub const CMP_AX_IMM16: u16 = 116;
pub const CMP_EAX_IMM32: u16 = 117;
pub const CMP_R16_RM16: u16 = 112;
pub const CMP_R32_RM32: u16 = 113;
pub const CMP_R8_RM8: u16 = 111;
pub const CMP_RM16_IMM16: u16 = 236;
pub const CMP_RM16_IMM8: u16 = 268;
pub const CMP_RM16_R16: u16 = 108;
pub const CMP_RM32_IMM32: u16 = 237;
pub const CMP_RM32_IMM8: u16 = 269;
pub const CMP_RM32_R32: u16 = 109;
pub const CMP_RM8_IMM8: u16 = 214;
pub const CMP_RM8_R8: u16 = 107;
pub const CPUID: u16 = 1948;
pub const DEC_R16: u16 = 122;
pub const DEC_R32: u16 = 123;
pub const DEC_RM16: u16 = 754;
pub const DEC_RM32: u16 = 755;
pub const DEC_RM8: u16 = 750;
pub const EMMS: u16 = 1735;
pub const FLDCW_M2BYTE: u16 = 515;
pub const FNSTCW_M2BYTE: u16 = 520;
pub const IMUL_R16_RM16: u16 = 2070;
pub const IMUL_R16_RM16_IMM16: u16 = 144;
pub const IMUL_R16_RM16_IMM8: u16 = 150;
pub const IMUL_R32_RM32: u16 = 2071;
pub const IMUL_R32_RM32_IMM32: u16 = 145;
pub const IMUL_R32_RM32_IMM8: u16 = 151;
pub const INC_R16: u16 = 120;
pub const INC_R32: u16 = 121;
pub const INC_RM16: u16 = 751;
pub const INC_RM32: u16 = 752;
pub const INC_RM8: u16 = 749;
pub const INT3: u16 = 420;
pub const JA_REL32_32: u16 = 1876;
pub const JA_REL8_32: u16 = 181;
pub const JAE_REL32_32: u16 = 1864;
pub const JAE_REL8_32: u16 = 169;
pub const JB_REL32_32: u16 = 1861;
pub const JB_REL8_32: u16 = 166;
pub const JBE_REL32_32: u16 = 1873;
pub const JBE_REL8_32: u16 = 178;
pub const JE_REL32_32: u16 = 1867;
pub const JE_REL8_32: u16 = 172;
pub const JG_REL32_32: u16 = 1900;
pub const JG_REL8_32: u16 = 205;
pub const JGE_REL32_32: u16 = 1894;
pub const JGE_REL8_32: u16 = 199;
pub const JL_REL32_32: u16 = 1891;
pub const JL_REL8_32: u16 = 196;
pub const JLE_REL32_32: u16 = 1897;
pub const JLE_REL8_32: u16 = 202;
pub const JMP_REL32_32: u16 = 695;
pub const JMP_REL8_32: u16 = 700;
pub const JMP_RM32: u16 = 764;
pub const JNE_REL32_32: u16 = 1870;
pub const JNE_REL8_32: u16 = 175;
pub const JNO_REL32_32: u16 = 1858;
pub const JNO_REL8_32: u16 = 163;
pub const JNP_REL32_32: u16 = 1888;
pub const JNP_REL8_32: u16 = 193;
pub const JNS_REL32_32: u16 = 1882;
pub const JNS_REL8_32: u16 = 187;
pub const JO_REL32_32: u16 = 1855;
pub const JO_REL8_32: u16 = 160;
pub const JP_REL32_32: u16 = 1885;
pub const JP_REL8_32: u16 = 190;
pub const JS_REL32_32: u16 = 1879;
pub const JS_REL8_32: u16 = 184;
pub const LEA_R32_M: u16 = 291;
pub const LEAVED: u16 = 412;
pub const MOV_AL_MOFFS8: u16 = 323;
pub const MOV_AX_MOFFS16: u16 = 324;
pub const MOV_EAX_MOFFS32: u16 = 325;
pub const MOV_MOFFS16_AX: u16 = 328;
pub const MOV_MOFFS32_EAX: u16 = 329;
pub const MOV_MOFFS8_AL: u16 = 327;
pub const MOV_R16_IMM16: u16 = 356;
pub const MOV_R16_RM16: u16 = 284;
pub const MOV_R32_IMM32: u16 = 357;
pub const MOV_R32_RM32: u16 = 285;
pub const MOV_R8_IMM8: u16 = 355;
pub const MOV_R8_RM8: u16 = 283;
pub const MOV_RM16_IMM16: u16 = 403;
pub const MOV_RM16_R16: u16 = 280;
pub const MOV_RM32_IMM32: u16 = 404;
pub const MOV_RM32_R32: u16 = 281;
pub const MOV_RM8_IMM8: u16 = 401;
pub const MOV_RM8_R8: u16 = 279;
pub const MOVD_MM_RM32: u16 = 1579;
pub const MOVD_RM32_MM: u16 = 1818;
pub const MOVQ_MM_MMM64: u16 = 1587;
pub const MOVQ_MMM64_MM: u16 = 1829;
pub const MOVSB_M8_M8: u16 = 331;
pub const MOVSD_M32_M32: u16 = 333;
pub const MOVSW_M16_M16: u16 = 332;
pub const MOVSX_R16_RM8: u16 = 2130;
pub const MOVSX_R32_RM16: u16 = 2134;
pub const MOVSX_R32_RM8: u16 = 2131;
pub const MOVZX_R16_RM8: u16 = 2089;
pub const MOVZX_R32_RM16: u16 = 2093;
pub const MOVZX_R32_RM8: u16 = 2090;
pub const NEG_RM16: u16 = 728;
pub const NEG_RM32: u16 = 729;
pub const NEG_RM8: u16 = 714;
pub const NOPD: u16 = 300;
pub const NOT_RM16: u16 = 725;
pub const NOT_RM32: u16 = 726;
pub const NOT_RM8: u16 = 713;
pub const OR_AL_IMM8: u16 = 29;
pub const OR_AX_IMM16: u16 = 30;
pub const OR_EAX_IMM32: u16 = 31;
pub const OR_R16_RM16: u16 = 26;
pub const OR_R32_RM32: u16 = 27;
pub const OR_R8_RM8: u16 = 25;
pub const OR_RM16_IMM16: u16 = 218;
pub const OR_RM16_IMM8: u16 = 250;
pub const OR_RM16_R16: u16 = 22;
pub const OR_RM32_IMM32: u16 = 219;
pub const OR_RM32_IMM8: u16 = 251;
pub const OR_RM32_R32: u16 = 23;
pub const OR_RM8_IMM8: u16 = 208;
pub const OR_RM8_R8: u16 = 21;
pub const PACKSSDW_MM_MMM64: u16 = 1560;
pub const PACKSSWB_MM_MMM64: u16 = 1504;
pub const PACKUSWB_MM_MMM64: u16 = 1532;
pub const PADDB_MM_MMM64: u16 = 2538;
pub const PADDD_MM_MMM64: u16 = 2552;
pub const PADDSB_MM_MMM64: u16 = 2431;
pub const PADDSW_MM_MMM64: u16 = 2438;
pub const PADDUSB_MM_MMM64: u16 = 2296;
pub const PADDUSW_MM_MMM64: u16 = 2303;
pub const PADDW_MM_MMM64: u16 = 2545;
pub const PAND_MM_MMM64: u16 = 2286;
pub const PANDN_MM_MMM64: u16 = 2317;
pub const PCMPEQB_MM_MMM64: u16 = 1714;
pub const PCMPEQD_MM_MMM64: u16 = 1728;
pub const PCMPEQW_MM_MMM64: u16 = 1721;
pub const PCMPGTB_MM_MMM64: u16 = 1511;
pub const PCMPGTD_MM_MMM64: u16 = 1525;
pub const PCMPGTW_MM_MMM64: u16 = 1518;
pub const PMADDWD_MM_MMM64: u16 = 2493;
pub const PMULHW_MM_MMM64: u16 = 2365;
pub const PMULLW_MM_MMM64: u16 = 2245;
pub const POP_R32: u16 = 128;
pub const POP_RM32: u16 = 297;
pub const POPAD: u16 = 133;
pub const POPAW: u16 = 132;
pub const POPFD: u16 = 319;
pub const POPFW: u16 = 318;
pub const POR_MM_MMM64: u16 = 2421;
pub const PSLLD_MM_IMM8: u16 = 1681;
pub const PSLLD_MM_MMM64: u16 = 2472;
pub const PSLLQ_MM_IMM8: u16 = 1701;
pub const PSLLQ_MM_MMM64: u16 = 2479;
pub const PSLLW_MM_IMM8: u16 = 1645;
pub const PSLLW_MM_MMM64: u16 = 2465;
pub const PSRAD_MM_IMM8: u16 = 1671;
pub const PSRAD_MM_MMM64: u16 = 2341;
pub const PSRAW_MM_IMM8: u16 = 1638;
pub const PSRAW_MM_MMM64: u16 = 2334;
pub const PSRLD_MM_IMM8: u16 = 1664;
pub const PSRLD_MM_MMM64: u16 = 2224;
pub const PSRLQ_MM_IMM8: u16 = 1688;
pub const PSRLQ_MM_MMM64: u16 = 2231;
pub const PSRLW_MM_IMM8: u16 = 1631;
pub const PSRLW_MM_MMM64: u16 = 2217;
pub const PSUBB_MM_MMM64: u16 = 2510;
pub const PSUBD_MM_MMM64: u16 = 2524;
pub const PSUBSB_MM_MMM64: u16 = 2400;
pub const PSUBSW_MM_MMM64: u16 = 2407;
pub const PSUBUSB_MM_MMM64: u16 = 2265;
pub const PSUBUSW_MM_MMM64: u16 = 2272;
pub const PSUBW_MM_MMM64: u16 = 2517;
pub const PUNPCKHBW_MM_MMM64: u16 = 1539;
pub const PUNPCKHDQ_MM_MMM64: u16 = 1553;
pub const PUNPCKHWD_MM_MMM64: u16 = 1546;
pub const PUNPCKLBW_MM_MMM32: u16 = 1483;
pub const PUNPCKLDQ_MM_MMM32: u16 = 1497;
pub const PUNPCKLWD_MM_MMM32: u16 = 1490;
pub const PUSH_R32: u16 = 125;
pub const PUSH_RM32: u16 = 770;
pub const PUSHAD: u16 = 131;
pub const PUSHAW: u16 = 130;
pub const PUSHD_IMM32: u16 = 142;
pub const PUSHD_IMM8: u16 = 148;
pub const PUSHFD: u16 = 316;
pub const PUSHFW: u16 = 315;
pub const PXOR_MM_MMM64: u16 = 2452;
pub const RETND: u16 = 395;
pub const RETND_IMM16: u16 = 392;
pub const SAR_RM16_1: u16 = 455;
pub const SAR_RM16_CL: u16 = 487;
pub const SAR_RM16_IMM8: u16 = 388;
pub const SAR_RM32_1: u16 = 456;
pub const SAR_RM32_CL: u16 = 488;
pub const SAR_RM32_IMM8: u16 = 389;
pub const SAR_RM8_1: u16 = 433;
pub const SAR_RM8_CL: u16 = 465;
pub const SAR_RM8_IMM8: u16 = 366;
pub const SBB_AL_IMM8: u16 = 60;
pub const SBB_AX_IMM16: u16 = 61;
pub const SBB_EAX_IMM32: u16 = 62;
pub const SBB_R16_RM16: u16 = 57;
pub const SBB_R32_RM32: u16 = 58;
pub const SBB_R8_RM8: u16 = 56;
pub const SBB_RM16_IMM16: u16 = 224;
pub const SBB_RM16_IMM8: u16 = 256;
pub const SBB_RM16_R16: u16 = 53;
pub const SBB_RM32_IMM32: u16 = 225;
pub const SBB_RM32_IMM8: u16 = 257;
pub const SBB_RM32_R32: u16 = 54;
pub const SBB_RM8_IMM8: u16 = 210;
pub const SBB_RM8_R8: u16 = 52;
pub const SCASB_AL_M8: u16 = 351;
pub const SCASD_EAX_M32: u16 = 353;
pub const SCASW_AX_M16: u16 = 352;
pub const SETA_RM8: u16 = 1909;
pub const SETAE_RM8: u16 = 1905;
pub const SETB_RM8: u16 = 1904;
pub const SETBE_RM8: u16 = 1908;
pub const SETE_RM8: u16 = 1906;
pub const SETG_RM8: u16 = 1917;
pub const SETGE_RM8: u16 = 1915;
pub const SETL_RM8: u16 = 1914;
pub const SETLE_RM8: u16 = 1916;
pub const SETNE_RM8: u16 = 1907;
pub const SETNO_RM8: u16 = 1903;
pub const SETNP_RM8: u16 = 1913;
pub const SETNS_RM8: u16 = 1911;
pub const SETO_RM8: u16 = 1902;
pub const SETP_RM8: u16 = 1912;
pub const SETS_RM8: u16 = 1910;
pub const SHL_RM16_1: u16 = 446;
pub const SHL_RM16_CL: u16 = 478;
pub const SHL_RM16_IMM8: u16 = 379;
pub const SHL_RM32_1: u16 = 447;
pub const SHL_RM32_CL: u16 = 479;
pub const SHL_RM32_IMM8: u16 = 380;
pub const SHL_RM8_1: u16 = 430;
pub const SHL_RM8_CL: u16 = 462;
pub const SHL_RM8_IMM8: u16 = 363;
pub const SHR_RM16_1: u16 = 449;
pub const SHR_RM16_CL: u16 = 481;
pub const SHR_RM16_IMM8: u16 = 382;
pub const SHR_RM32_1: u16 = 450;
pub const SHR_RM32_CL: u16 = 482;
pub const SHR_RM32_IMM8: u16 = 383;
pub const SHR_RM8_1: u16 = 431;
pub const SHR_RM8_CL: u16 = 463;
pub const SHR_RM8_IMM8: u16 = 364;
pub const SUB_AL_IMM8: u16 = 89;
pub const SUB_AX_IMM16: u16 = 90;
pub const SUB_EAX_IMM32: u16 = 91;
pub const SUB_R16_RM16: u16 = 86;
pub const SUB_R32_RM32: u16 = 87;
pub const SUB_R8_RM8: u16 = 85;
pub const SUB_RM16_IMM16: u16 = 230;
pub const SUB_RM16_IMM8: u16 = 262;
pub const SUB_RM16_R16: u16 = 82;
pub const SUB_RM32_IMM32: u16 = 231;
pub const SUB_RM32_IMM8: u16 = 263;
pub const SUB_RM32_R32: u16 = 83;
pub const SUB_RM8_IMM8: u16 = 212;
pub const SUB_RM8_R8: u16 = 81;
pub const TEST_AL_IMM8: u16 = 339;
pub const TEST_AX_IMM16: u16 = 340;
pub const TEST_EAX_IMM32: u16 = 341;
pub const TEST_RM16_IMM16: u16 = 719;
pub const TEST_RM16_R16: u16 = 272;
pub const TEST_RM32_IMM32: u16 = 720;
pub const TEST_RM32_R32: u16 = 273;
pub const TEST_RM8_IMM8: u16 = 711;
pub const TEST_RM8_R8: u16 = 271;
pub const XOR_AL_IMM8: u16 = 102;
pub const XOR_AX_IMM16: u16 = 103;
pub const XOR_EAX_IMM32: u16 = 104;
pub const XOR_R16_RM16: u16 = 99;
pub const XOR_R32_RM32: u16 = 100;
pub const XOR_R8_RM8: u16 = 98;
pub const XOR_RM16_IMM16: u16 = 233;
pub const XOR_RM16_IMM8: u16 = 265;
pub const XOR_RM16_R16: u16 = 95;
pub const XOR_RM32_IMM32: u16 = 234;
pub const XOR_RM32_IMM8: u16 = 266;
pub const XOR_RM32_R32: u16 = 96;
pub const XOR_RM8_IMM8: u16 = 213;
pub const XOR_RM8_R8: u16 = 94;

// Operations.
pub const OP_ADD: u16 = 7;
pub const OP_AND: u16 = 21;
pub const OP_CMP: u16 = 93;
pub const OP_DEC: u16 = 137;
pub const OP_MOV: u16 = 414;
pub const OP_MOVSX: u16 = 450;
pub const OP_OR: u16 = 467;
pub const OP_PACKSSDW: u16 = 477;
pub const OP_PACKSSWB: u16 = 478;
pub const OP_PACKUSWB: u16 = 480;
pub const OP_PADDB: u16 = 481;
pub const OP_PADDD: u16 = 482;
pub const OP_PADDSB: u16 = 484;
pub const OP_PADDSW: u16 = 485;
pub const OP_PADDUSB: u16 = 486;
pub const OP_PADDUSW: u16 = 487;
pub const OP_PADDW: u16 = 488;
pub const OP_PAND: u16 = 490;
pub const OP_PANDN: u16 = 491;
pub const OP_PCMPEQB: u16 = 499;
pub const OP_PCMPEQD: u16 = 500;
pub const OP_PCMPEQW: u16 = 502;
pub const OP_PCMPGTB: u16 = 507;
pub const OP_PCMPGTD: u16 = 508;
pub const OP_PCMPGTW: u16 = 510;
pub const OP_PMADDWD: u16 = 556;
pub const OP_PMULHW: u16 = 586;
pub const OP_PMULLW: u16 = 588;
pub const OP_POR: u16 = 594;
pub const OP_PSLLD: u16 = 611;
pub const OP_PSLLQ: u16 = 613;
pub const OP_PSLLW: u16 = 614;
pub const OP_PSRAD: u16 = 615;
pub const OP_PSRAW: u16 = 616;
pub const OP_PSRLD: u16 = 617;
pub const OP_PSRLQ: u16 = 619;
pub const OP_PSRLW: u16 = 620;
pub const OP_PSUBB: u16 = 621;
pub const OP_PSUBD: u16 = 622;
pub const OP_PSUBSB: u16 = 624;
pub const OP_PSUBSW: u16 = 625;
pub const OP_PSUBUSB: u16 = 626;
pub const OP_PSUBUSW: u16 = 627;
pub const OP_PSUBW: u16 = 628;
pub const OP_PUNPCKHBW: u16 = 632;
pub const OP_PUNPCKHDQ: u16 = 633;
pub const OP_PUNPCKHWD: u16 = 635;
pub const OP_PUNPCKLBW: u16 = 636;
pub const OP_PUNPCKLDQ: u16 = 637;
pub const OP_PUNPCKLWD: u16 = 639;
pub const OP_PXOR: u16 = 643;
pub const OP_SAR: u16 = 678;
pub const OP_SBB: u16 = 681;
pub const OP_SHL: u16 = 712;
pub const OP_SHR: u16 = 715;
pub const OP_SUB: u16 = 740;
pub const OP_TEST: u16 = 751;
pub const OP_XOR: u16 = 1518;

// Registers.
pub const REG_NONE: u16 = 0;
pub const REG_AL: u16 = 1;
pub const REG_CL: u16 = 2;
pub const REG_DL: u16 = 3;
pub const REG_BL: u16 = 4;
pub const REG_AH: u16 = 5;
pub const REG_CH: u16 = 6;
pub const REG_DH: u16 = 7;
pub const REG_BH: u16 = 8;
pub const REG_AX: u16 = 21;
pub const REG_CX: u16 = 22;
pub const REG_DX: u16 = 23;
pub const REG_BX: u16 = 24;
pub const REG_SP: u16 = 25;
pub const REG_BP: u16 = 26;
pub const REG_SI: u16 = 27;
pub const REG_DI: u16 = 28;
pub const REG_EAX: u16 = 37;
pub const REG_ECX: u16 = 38;
pub const REG_EDX: u16 = 39;
pub const REG_EBX: u16 = 40;
pub const REG_ESP: u16 = 41;
pub const REG_EBP: u16 = 42;
pub const REG_ESI: u16 = 43;
pub const REG_EDI: u16 = 44;
pub const REG_FS: u16 = 75;
pub const REG_MM0: u16 = 225;
pub const REG_ST0: u16 = 217;

// Operand kinds.
pub const KIND_REGISTER: u8 = 0;
pub const KIND_NEARBRANCH32: u8 = 2;
pub const KIND_IMMEDIATE8: u8 = 6;
pub const KIND_IMMEDIATE16: u8 = 8;
pub const KIND_IMMEDIATE32: u8 = 9;
pub const KIND_IMMEDIATE8TO16: u8 = 11;
pub const KIND_IMMEDIATE8TO32: u8 = 12;
pub const KIND_MEMORYSEGESI: u8 = 16;
pub const KIND_MEMORYESEDI: u8 = 22;
pub const KIND_MEMORY: u8 = 24;

} // verus!
