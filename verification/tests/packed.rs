use ring3_core::StopReason;
use ring3_core::cpu::codes;
use ring3_core::cpu::packed::{execute, is_instruction, mmx_index, supports};

const LEFT: u64 = 0x8001_7fff_00ff_ff80;
const RIGHT: u64 = 0x1234_8000_fffe_0102;

fn run(operation: u16) -> u64 {
    execute(operation, LEFT, RIGHT).unwrap()
}

#[test]
fn logic_operations_combine_whole_values() {
    assert_eq!(run(codes::OP_PAND), 0x0000_0000_00fe_0100);
    assert_eq!(run(codes::OP_PANDN), 0x1234_8000_ff00_0002);
    assert_eq!(run(codes::OP_POR), 0x9235_ffff_ffff_ff82);
    assert_eq!(run(codes::OP_PXOR), 0x9235_ffff_ff01_fe82);
}

#[test]
fn packing_saturates_each_lane() {
    assert_eq!(run(codes::OP_PACKSSWB), 0x7f80_fe7f_807f_7f80);
    assert_eq!(run(codes::OP_PACKUSWB), 0xff00_00ff_00ff_ff00);
    assert_eq!(run(codes::OP_PACKSSDW), 0x7fff_8000_8000_7fff);
}

#[test]
fn unpacking_interleaves_lanes() {
    assert_eq!(run(codes::OP_PUNPCKLBW), 0xff00_feff_01ff_0280);
    assert_eq!(run(codes::OP_PUNPCKHWD), 0x1234_8001_8000_7fff);
    assert_eq!(run(codes::OP_PUNPCKLDQ), 0xfffe_0102_00ff_ff80);
}

#[test]
fn shifts_move_each_lane() {
    assert_eq!(execute(codes::OP_PSLLW, LEFT, 4), Ok(0x0010_fff0_0ff0_f800));
    assert_eq!(execute(codes::OP_PSRLW, LEFT, 16), Ok(0));
    assert_eq!(execute(codes::OP_PSRAW, LEFT, 20), Ok(0xffff_0000_0000_ffff));
    assert_eq!(execute(codes::OP_PSRAD, LEFT, 4), Ok(0xf800_17ff_000f_fff8));
    assert_eq!(execute(codes::OP_PSLLQ, LEFT, 8), Ok(0x017f_ff00_ffff_8000));
    assert_eq!(execute(codes::OP_PSRLQ, LEFT, 64), Ok(0));
    assert_eq!(execute(codes::OP_PSRLQ, LEFT, 4), Ok(0x0800_17ff_f00f_fff8));
}

#[test]
fn multiply_add_sums_signed_word_products() {
    assert_eq!(run(codes::OP_PMADDWD), 0xb6e6_9234_ffff_7d02);
}

#[test]
fn lane_arithmetic_wraps_or_saturates() {
    assert_eq!(run(codes::OP_PADDB), 0x9235_ffff_fffd_0082);
    assert_eq!(run(codes::OP_PSUBW), 0x6dcd_ffff_0101_fe7e);
    assert_eq!(run(codes::OP_PADDSW), 0x9235_ffff_00fd_0082);
    assert_eq!(run(codes::OP_PSUBSB), 0x80cd_7fff_0101_fe80);
    assert_eq!(run(codes::OP_PADDUSB), 0x9235_ffff_ffff_ff82);
    assert_eq!(run(codes::OP_PSUBUSW), 0x6dcd_0000_0000_fe7e);
    assert_eq!(run(codes::OP_PADDD), 0x9235_ffff_00fe_0082);
}

#[test]
fn comparisons_give_lane_masks() {
    assert_eq!(run(codes::OP_PCMPEQB), 0);
    assert_eq!(execute(codes::OP_PCMPEQB, LEFT, LEFT), Ok(u64::MAX));
    assert_eq!(run(codes::OP_PCMPGTW), 0x0000_ffff_ffff_0000);
    assert_eq!(run(codes::OP_PCMPGTD), 0x0000_0000_ffff_ffff);
}

#[test]
fn word_products_keep_low_or_high_halves() {
    assert_eq!(run(codes::OP_PMULLW), 0x1234_8000_fe02_7f00);
    assert_eq!(run(codes::OP_PMULHW), 0xf6e6_c000_ffff_ffff);
}

#[test]
fn unknown_packed_operation_is_refused() {
    assert_eq!(
        execute(codes::OP_PSUBSB + 1000, LEFT, RIGHT),
        Err(StopReason::UnsupportedInstruction)
    );
}

#[test]
fn instruction_forms_and_registers_are_recognised() {
    assert!(supports(codes::PADDB_MM_MMM64));
    assert!(supports(codes::PSLLQ_MM_IMM8));
    assert!(!supports(codes::EMMS));
    assert!(is_instruction(codes::EMMS));
    assert!(is_instruction(codes::MOVQ_MMM64_MM));
    assert!(!is_instruction(codes::CPUID));
    assert_eq!(mmx_index(codes::REG_MM0), Ok(0));
    assert_eq!(mmx_index(codes::REG_MM0 + 7), Ok(7));
    assert_eq!(mmx_index(codes::REG_MM0 + 8), Err(StopReason::UnsupportedInstruction));
    assert_eq!(mmx_index(codes::REG_MM0 - 1), Err(StopReason::UnsupportedInstruction));
}
