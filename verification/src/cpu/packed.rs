//! Packed MMX arithmetic on 64-bit values split into lanes of 8, 16, 32 or
//! 64 bits: logic, packing with saturation, interleaving, shifts, and lane
//! arithmetic with wrap-around or saturation.
use super::codes;
use super::StopReason;
use vstd::prelude::*;

verus! {

/// All bits of a lane of `width` bits.
pub open spec fn mask_of(width: u64) -> u64 {
    if width == 8 {
        0xff
    } else if width == 16 {
        0xffff
    } else if width == 32 {
        0xffff_ffff
    } else {
        0xffff_ffff_ffff_ffff
    }
}

/// The top bit of a lane of `width` bits.
pub open spec fn sign_of(width: u64) -> u64 {
    if width == 8 {
        0x80
    } else if width == 16 {
        0x8000
    } else {
        0x8000_0000
    }
}

/// Lane `index` of `value`, for lanes of `width` bits.
pub open spec fn lane_of(value: u64, width: u64, index: int) -> u64 {
    (value >> ((index * width) as u64)) & mask_of(width)
}

/// A lane value read as a two's-complement number.
pub open spec fn signed_value(lane: u64, width: u64) -> int {
    if lane & sign_of(width) != 0 {
        lane - (mask_of(width) + 1)
    } else {
        lane as int
    }
}

/// `value` reduced to a lane of `width` bits (two's complement for negatives).
pub open spec fn to_lane(value: int, width: u64) -> u64 {
    (value % (mask_of(width) + 1)) as u64
}

/// `value` limited to `[minimum, maximum]`.
pub open spec fn clamp(value: int, minimum: int, maximum: int) -> int {
    if value < minimum {
        minimum
    } else if value > maximum {
        maximum
    } else {
        value
    }
}

/// Placing a lane of `width` bits at bit `start` keeps the lanes that end
/// at or below it.
proof fn lemma_place(result: u64, value: u64, start: u64, lower: u64, width: u64)
    by (bit_vector)
    requires
        width == 8 || width == 16 || width == 32,
        start + width <= 64,
        lower + width <= start,
        result >> start == 0,
        value & mask_of(width) == value,
    ensures
        ((result | (value << start)) >> lower) & mask_of(width) == (result >> lower) & mask_of(width),
{
}

/// A lane of `width` bits placed at bit `start` above nothing reads back as
/// placed and leaves nothing above it.
proof fn lemma_place_top(result: u64, value: u64, start: u64, width: u64)
    by (bit_vector)
    requires
        width == 8 || width == 16 || width == 32,
        start + width <= 64,
        result >> start == 0,
        value & mask_of(width) == value,
    ensures
        ((result | (value << start)) >> start) & mask_of(width) == value,
        start + width < 64 ==> (result | (value << start)) >> (start + width) == 0,
{
}

/// A lane value fits its width.
proof fn lemma_lane_fits(value: u64, shift: u64, width: u64)
    by (bit_vector)
    requires
        width == 8 || width == 16 || width == 32,
    ensures
        ((value >> shift) & mask_of(width)) & mask_of(width) == (value >> shift) & mask_of(width),
        (value >> shift) & mask_of(width) <= mask_of(width),
{
}

/// The low `width` bits of `value` read as a two's-complement number.
fn signed(value: u64, width: u64) -> (number: i64)
    requires
        width == 8 || width == 16 || width == 32,
    ensures
        number == signed_value(value & mask_of(width), width),
        -((mask_of(width) + 1) / 2) <= number < (mask_of(width) + 1) / 2,
{
    let mask: u64 = if width == 8 {
        0xff
    } else if width == 16 {
        0xffff
    } else {
        0xffff_ffff
    };
    let sign: u64 = if width == 8 {
        0x80
    } else if width == 16 {
        0x8000
    } else {
        0x8000_0000
    };
    let lane = value & mask;
    assert(lane <= mask && (lane & sign != 0 ==> lane >= sign) && (lane & sign == 0 ==> lane
        < sign)) by (bit_vector)
        requires
            lane == value & mask,
            (mask == 0xff && sign == 0x80) || (mask == 0xffff && sign == 0x8000) || (mask
                == 0xffff_ffff && sign == 0x8000_0000),
    ;
    if lane & sign != 0 {
        lane as i64 - (mask as i64 + 1)
    } else {
        lane as i64
    }
}

/// What interleaving gives: lanes of `width` alternate between `left` and
/// `right`, taken from lane `first` of each on.
pub open spec fn interleaved(left: u64, right: u64, width: u64, first: int, index: int) -> u64 {
    if index % 2 == 0 {
        lane_of(left, width, first + index / 2)
    } else {
        lane_of(right, width, first + index / 2)
    }
}

/// Placing `value` as lane `k` above lanes `0..k` (with nothing above them)
/// keeps those lanes, makes lane `k` the value, and leaves nothing above it.
proof fn lemma_lanes_after_place(result: u64, value: u64, k: int, width: u64)
    requires
        width == 8 || width == 16 || width == 32,
        0 <= k,
        (k + 1) * width <= 64,
        result >> ((k * width) as u64) == 0,
        value & mask_of(width) == value,
    ensures
        ({
            let placed = result | (value << ((k * width) as u64));
            &&& forall|j: int| 0 <= j < k ==> #[trigger] lane_of(placed, width, j) == lane_of(result, width, j)
            &&& lane_of(placed, width, k) == value
            &&& (k + 1) * width < 64 ==> placed >> (((k + 1) * width) as u64) == 0
        }),
{
    let start = (k * width) as u64;
    assert(k * width + width == (k + 1) * width) by (nonlinear_arith);
    assert(0 <= k * width) by (nonlinear_arith)
        requires
            0 <= k,
            width >= 8,
    ;
    assert forall|j: int| 0 <= j < k implies #[trigger] lane_of(
        result | (value << start),
        width,
        j,
    ) == lane_of(result, width, j) by {
        assert(0 <= j * width && j * width + width <= k * width) by (nonlinear_arith)
            requires
                0 <= j < k,
                width >= 8,
        ;
        lemma_place(result, value, start, (j * width) as u64, width);
    }
    lemma_place_top(result, value, start, width);
}

/// Nothing lies above bit 0 of zero.
proof fn lemma_zero_above()
    by (bit_vector)
    ensures
        0u64 >> 0u64 == 0,
{
}

/// Interleaves lanes of `width` bits from `left` and `right`, starting at bit
/// `start` of each (0 for the low halves, 32 for the high ones).
fn unpack(left: u64, right: u64, width: u64, start: u64) -> (result: u64)
    requires
        width == 8 || width == 16 || width == 32,
        start == 0 || start == 32,
    ensures
        forall|index: int|
            0 <= index < 64int / (width as int) ==> #[trigger] lane_of(result, width, index)
                == interleaved(left, right, width, (start / width) as int, index),
{
    let mask: u64 = if width == 8 {
        0xff
    } else if width == 16 {
        0xffff
    } else {
        0xffff_ffff
    };
    let count = 32 / width;
    let mut result: u64 = 0;
    let mut lane: u64 = 0;
    proof {
        lemma_zero_above();
    }
    while lane < count
        invariant
            width == 8 || width == 16 || width == 32,
            start == 0 || start == 32,
            mask == mask_of(width),
            count == 32u64 / width,
            count * width == 32,
            lane <= count,
            (2 * lane * width) < 64 ==> result >> ((2 * lane * width) as u64) == 0,
            forall|index: int|
                0 <= index < 2 * lane ==> #[trigger] lane_of(result, width, index) == interleaved(
                    left,
                    right,
                    width,
                    (start / width) as int,
                    index,
                ),
        decreases count - lane,
    {
        assert(lane * width < 32 && 2 * (lane + 1) * width <= 64 && 2 * lane * width + width
            <= 64 - width) by (nonlinear_arith)
            requires
                lane < count,
                count * width == 32,
                width >= 8,
        ;
        let source = start + lane * width;
        let destination = lane * width * 2;
        let low = (left >> source) & mask;
        let high = (right >> source) & mask;
        proof {
            lemma_lane_fits(left, source, width);
            lemma_lane_fits(right, source, width);
            assert(source == ((start / width + lane) * width) as u64) by (nonlinear_arith)
                requires
                    source == start + lane * width,
                    start == 0 || start == 32,
                    width == 8 || width == 16 || width == 32,
            ;
            assert((2 * lane) * width == destination && (2 * lane + 1) * width == destination
                + width) by (nonlinear_arith)
                requires
                    destination == lane * width * 2,
            ;
        }
        let ghost before = result;
        result = result | (low << destination);
        proof {
            lemma_lanes_after_place(before, low, 2 * lane as int, width);
        }
        let ghost middle = result;
        result = result | (high << (destination + width));
        proof {
            lemma_lanes_after_place(middle, high, 2 * lane as int + 1, width);
            assert((2 * lane as int) / 2 == lane && (2 * lane as int + 1) / 2 == lane);
        }
        lane = lane + 1;
    }
    assert(2 * count == 64int / (width as int)) by (nonlinear_arith)
        requires
            count * width == 32,
            width == 8 || width == 16 || width == 32,
    ;
    result
}

/// What packing gives: each lane of `width` bits of `left`, then of
/// `right`, read as signed, limited to `[minimum, maximum]` and narrowed to
/// half the width.
pub open spec fn packed_lane(
    left: u64,
    right: u64,
    width: u64,
    minimum: int,
    maximum: int,
    index: int,
) -> u64 {
    let per = 64int / (width as int);
    let input = if index < per {
        left
    } else {
        right
    };
    to_lane(clamp(signed_value(lane_of(input, width, index % per), width), minimum, maximum), (width / 2) as u64)
}

/// Packs the lanes of `width` bits of `left` and `right`, with saturation to
/// `[minimum, maximum]`, into lanes of half the width.
fn pack(left: u64, right: u64, width: u64, minimum: i64, maximum: i64) -> (result: u64)
    requires
        width == 16 || width == 32,
        width == 16 ==> -128 <= minimum <= maximum <= 255,
        width == 32 ==> -32768 <= minimum <= maximum <= 32767,
    ensures
        forall|index: int|
            0 <= index < 128int / (width as int) ==> #[trigger] lane_of(result, width / 2, index)
                == packed_lane(left, right, width, minimum as int, maximum as int, index),
{
    let narrow = width / 2;
    let narrow_mask: u64 = if width == 16 {
        0xff
    } else {
        0xffff
    };
    let per = 64 / width;
    let total = 2 * per;
    let mut result: u64 = 0;
    let mut index: u64 = 0;
    proof {
        lemma_zero_above();
    }
    while index < total
        invariant
            width == 16 || width == 32,
            width == 16 ==> -128 <= minimum <= maximum <= 255,
            width == 32 ==> -32768 <= minimum <= maximum <= 32767,
            narrow == width / 2,
            narrow == 8 || narrow == 16,
            narrow_mask == mask_of(narrow),
            per == 64u64 / width,
            total == 2 * per,
            total * narrow == 64,
            index <= total,
            index * narrow < 64 ==> result >> ((index * narrow) as u64) == 0,
            forall|j: int|
                0 <= j < index ==> #[trigger] lane_of(result, narrow, j) == packed_lane(
                    left,
                    right,
                    width,
                    minimum as int,
                    maximum as int,
                    j,
                ),
        decreases total - index,
    {
        let input = if index < per {
            left
        } else {
            right
        };
        let lane = index % per;
        assert(lane * width < 64 && (index + 1) * narrow <= 64) by (nonlinear_arith)
            requires
                lane < per,
                per * width == 64,
                index < total,
                total * narrow == 64,
        ;
        let number = signed(input >> (lane * width), width);
        let limited = if number < minimum {
            minimum
        } else if number > maximum {
            maximum
        } else {
            number
        };
        let value: u64 = if limited < 0 {
            (limited + narrow_mask as i64 + 1) as u64
        } else {
            limited as u64
        };
        proof {
            assert(value <= narrow_mask);
            assert(value & narrow_mask == value) by (bit_vector)
                requires
                    value <= narrow_mask,
                    narrow_mask == 0xff || narrow_mask == 0xffff,
            ;
        }
        let ghost before = result;
        result = result | (value << (index * narrow));
        proof {
            lemma_lanes_after_place(before, value, index as int, narrow);
        }
        index = index + 1;
    }
    result
}

/// A lane of `width` bits widened to 64 with copies of its sign bit.
pub open spec fn extended(lane: u64, width: u64) -> u64 {
    if lane & sign_of(width) != 0 {
        lane | !mask_of(width)
    } else {
        lane
    }
}

/// A lane shifted by `count` bits: arithmetically right (the sign fills in),
/// left, or logically right.
pub open spec fn shifted_lane(arithmetic: bool, left: bool, lane: u64, count: u64, width: u64) -> u64 {
    if arithmetic {
        (extended(lane, width) >> count) & mask_of(width)
    } else if left {
        (lane << count) & mask_of(width)
    } else {
        lane >> count
    }
}

/// What a packed shift gives: a logical shift by the width or more clears
/// every lane; otherwise each lane moves by the count, an arithmetic shift
/// by at most the width less one.
pub open spec fn shift_result(
    arithmetic: bool,
    left: bool,
    input: u64,
    count: u64,
    width: u64,
    result: u64,
) -> bool {
    let moved = if count < width {
        count
    } else {
        (width - 1) as u64
    };
    if count >= width && !arithmetic {
        result == 0
    } else if width == 64 {
        result == if left {
            input << moved
        } else {
            input >> moved
        }
    } else {
        forall|index: int|
            0 <= index < 64int / (width as int) ==> #[trigger] lane_of(result, width, index)
                == shifted_lane(arithmetic, left, lane_of(input, width, index), moved, width)
    }
}

/// Shifts every lane of `width` bits of `input` by `count`; `operation`
/// tells the direction and whether the shift is arithmetic.
fn shift(operation: u16, input: u64, count: u64, width: u64) -> (result: u64)
    requires
        width == 16 || width == 32 || width == 64,
        width == 64 ==> operation == codes::OP_PSLLQ || operation == codes::OP_PSRLQ,
    ensures
        shift_result(
            operation == codes::OP_PSRAW || operation == codes::OP_PSRAD,
            operation == codes::OP_PSLLW || operation == codes::OP_PSLLD || operation
                == codes::OP_PSLLQ,
            input,
            count,
            width,
            result,
        ),
{
    let arithmetic = operation == codes::OP_PSRAW || operation == codes::OP_PSRAD;
    let left = operation == codes::OP_PSLLW || operation == codes::OP_PSLLD || operation
        == codes::OP_PSLLQ;
    if count >= width && !arithmetic {
        return 0;
    }
    let moved = if count < width {
        count
    } else {
        width - 1
    };
    if width == 64 {
        return if left {
            input << moved
        } else {
            input >> moved
        };
    }
    let mask: u64 = if width == 16 {
        0xffff
    } else {
        0xffff_ffff
    };
    let sign: u64 = if width == 16 {
        0x8000
    } else {
        0x8000_0000
    };
    let lanes = 64 / width;
    let mut result: u64 = 0;
    let mut index: u64 = 0;
    proof {
        lemma_zero_above();
    }
    while index < lanes
        invariant
            width == 16 || width == 32,
            mask == mask_of(width),
            sign == sign_of(width),
            lanes == 64u64 / width,
            lanes * width == 64,
            moved < width,
            index <= lanes,
            index * width < 64 ==> result >> ((index * width) as u64) == 0,
            forall|j: int|
                0 <= j < index ==> #[trigger] lane_of(result, width, j) == shifted_lane(
                    arithmetic,
                    left,
                    lane_of(input, width, j),
                    moved,
                    width,
                ),
        decreases lanes - index,
    {
        assert((index + 1) * width <= 64) by (nonlinear_arith)
            requires
                index < lanes,
                lanes * width == 64,
        ;
        let value = (input >> (index * width)) & mask;
        let shifted = if arithmetic {
            let widened = if value & sign != 0 {
                value | !mask
            } else {
                value
            };
            (widened >> moved) & mask
        } else if left {
            (value << moved) & mask
        } else {
            value >> moved
        };
        proof {
            if arithmetic || left {
                let raw: u64 = if arithmetic {
                    (if value & sign != 0 {
                        value | !mask
                    } else {
                        value
                    }) >> moved
                } else {
                    value << moved
                };
                assert(shifted == raw & mask);
                assert((raw & mask) & mask == raw & mask) by (bit_vector);
            } else {
                let whole = input >> (index * width);
                assert(((whole & mask) >> moved) & mask == (whole & mask) >> moved) by (bit_vector)
                    requires
                        mask == 0xffff || mask == 0xffff_ffff,
                ;
            }
        }
        let ghost before = result;
        result = result | (shifted << (index * width));
        proof {
            lemma_lanes_after_place(before, shifted, index as int, width);
        }
        index = index + 1;
    }
    result
}

/// What `pmaddwd` gives in dword lane `pair`: the sum of the products of the
/// two signed word lanes below it, modulo 2^32.
pub open spec fn multiply_added(left: u64, right: u64, pair: int) -> u64 {
    to_lane(
        signed_value(lane_of(left, 16, 2 * pair), 16) * signed_value(lane_of(right, 16, 2 * pair), 16)
            + signed_value(lane_of(left, 16, 2 * pair + 1), 16) * signed_value(
            lane_of(right, 16, 2 * pair + 1),
            16,
        ),
        32,
    )
}

/// Multiplies signed word lanes and adds adjacent products into dwords.
fn multiply_add(left: u64, right: u64) -> (result: u64)
    ensures
        forall|pair: int| 0 <= pair < 2 ==> #[trigger] lane_of(result, 32, pair) == multiply_added(left, right, pair),
{
    let mut result: u64 = 0;
    let mut pair: u64 = 0;
    proof {
        lemma_zero_above();
    }
    while pair < 2
        invariant
            pair <= 2,
            pair * 32 < 64 ==> result >> ((pair * 32) as u64) == 0,
            forall|j: int| 0 <= j < pair ==> #[trigger] lane_of(result, 32, j) == multiply_added(left, right, j),
        decreases 2 - pair,
    {
        let offset = pair * 32;
        let a0 = signed(left >> offset, 16) as i64;
        let b0 = signed(right >> offset, 16) as i64;
        let a1 = signed(left >> (offset + 16), 16) as i64;
        let b1 = signed(right >> (offset + 16), 16) as i64;
        proof {
            assert(offset == ((2 * pair) * 16) as u64 && offset + 16 == ((2 * pair + 1) * 16) as u64);
            assert(-32768 <= a0 < 32768 && -32768 <= b0 < 32768 && -32768 <= a1 < 32768 && -32768
                <= b1 < 32768) by {
                let l0 = (left >> offset) & 0xffff;
                let r0 = (right >> offset) & 0xffff;
                let l1 = (left >> (offset + 16)) & 0xffff;
                let r1 = (right >> (offset + 16)) & 0xffff;
                assert(l0 <= 0xffff && r0 <= 0xffff && l1 <= 0xffff && r1 <= 0xffff) by (bit_vector)
                    requires
                        l0 == (left >> offset) & 0xffff,
                        r0 == (right >> offset) & 0xffff,
                        l1 == (left >> (offset + 16)) & 0xffff,
                        r1 == (right >> (offset + 16)) & 0xffff,
                ;
            }
            assert(-0x4000_0000 <= a0 * b0 <= 0x4000_0000 && -0x4000_0000 <= a1 * b1 <= 0x4000_0000)
                by (nonlinear_arith)
                requires
                    -32768 <= a0 < 32768,
                    -32768 <= b0 < 32768,
                    -32768 <= a1 < 32768,
                    -32768 <= b1 < 32768,
            ;
        }
        let product = a0 * b0 + a1 * b1;
        let value: u64 = if product < 0 {
            (product + 0x1_0000_0000) as u64
        } else {
            product as u64
        };
        proof {
            assert(value <= 0xffff_ffff);
            assert(value & mask_of(32) == value) by (bit_vector)
                requires
                    value <= 0xffff_ffff,
            ;
            assert(a0 == signed_value(lane_of(left, 16, 2 * pair as int), 16));
            assert(b0 == signed_value(lane_of(right, 16, 2 * pair as int), 16));
            assert(a1 == signed_value(lane_of(left, 16, 2 * pair as int + 1), 16));
            assert(b1 == signed_value(lane_of(right, 16, 2 * pair as int + 1), 16));
            assert(-0x8000_0000 <= product <= 0x8000_0000);
            assert(mask_of(32) + 1 == 0x1_0000_0000);
            if product < 0 {
                assert((product as int) % 0x1_0000_0000 == product + 0x1_0000_0000);
            } else {
                assert((product as int) % 0x1_0000_0000 == product);
            }
            assert(value == to_lane(product as int, 32));
            assert(value == multiply_added(left, right, pair as int));
        }
        let ghost before = result;
        result = result | (value << offset);
        proof {
            lemma_lanes_after_place(before, value, pair as int, 32);
        }
        pair = pair + 1;
    }
    result
}

/// The lane width of a lane-wise arithmetic operation, if it is one.
pub open spec fn arithmetic_width(operation: u16) -> Option<u64> {
    if operation == codes::OP_PADDB || operation == codes::OP_PSUBB || operation
        == codes::OP_PADDSB || operation == codes::OP_PSUBSB || operation == codes::OP_PADDUSB
        || operation == codes::OP_PSUBUSB || operation == codes::OP_PCMPEQB || operation
        == codes::OP_PCMPGTB {
        Some(8)
    } else if operation == codes::OP_PADDW || operation == codes::OP_PSUBW || operation
        == codes::OP_PADDSW || operation == codes::OP_PSUBSW || operation == codes::OP_PADDUSW
        || operation == codes::OP_PSUBUSW || operation == codes::OP_PCMPEQW || operation
        == codes::OP_PCMPGTW || operation == codes::OP_PMULLW || operation == codes::OP_PMULHW {
        Some(16)
    } else if operation == codes::OP_PADDD || operation == codes::OP_PSUBD || operation
        == codes::OP_PCMPEQD || operation == codes::OP_PCMPGTD {
        Some(32)
    } else {
        None
    }
}

/// One lane of a lane-wise operation on lanes `a` and `b` of `width` bits:
/// wrapping, signed-saturating or unsigned-saturating addition and
/// subtraction, equality and signed greater-than masks, and the low or
/// signed high half of a word product.
pub open spec fn arithmetic_lane(operation: u16, a: u64, b: u64, width: u64) -> u64 {
    let sa = signed_value(a, width);
    let sb = signed_value(b, width);
    let top = mask_of(width) as int;
    let minimum = -((top + 1) / 2);
    let maximum = (top + 1) / 2 - 1;
    if operation == codes::OP_PADDB || operation == codes::OP_PADDW || operation == codes::OP_PADDD {
        to_lane(a + b, width)
    } else if operation == codes::OP_PSUBB || operation == codes::OP_PSUBW || operation
        == codes::OP_PSUBD {
        to_lane(a - b, width)
    } else if operation == codes::OP_PADDSB || operation == codes::OP_PADDSW {
        to_lane(clamp(sa + sb, minimum, maximum), width)
    } else if operation == codes::OP_PSUBSB || operation == codes::OP_PSUBSW {
        to_lane(clamp(sa - sb, minimum, maximum), width)
    } else if operation == codes::OP_PADDUSB || operation == codes::OP_PADDUSW {
        if a + b > top {
            top as u64
        } else {
            (a + b) as u64
        }
    } else if operation == codes::OP_PSUBUSB || operation == codes::OP_PSUBUSW {
        if a > b {
            (a - b) as u64
        } else {
            0
        }
    } else if operation == codes::OP_PCMPEQB || operation == codes::OP_PCMPEQW || operation
        == codes::OP_PCMPEQD {
        if a == b {
            top as u64
        } else {
            0
        }
    } else if operation == codes::OP_PCMPGTB || operation == codes::OP_PCMPGTW || operation
        == codes::OP_PCMPGTD {
        if sa > sb {
            top as u64
        } else {
            0
        }
    } else if operation == codes::OP_PMULLW {
        to_lane(a * b, width)
    } else {
        to_lane((sa * sb) / 65536, width)
    }
}

/// `value` as a lane of the width whose mask is `mask` (a signed value in
/// range, or one already reduced).
fn lane_from(value: i64, mask: u64) -> (lane: u64)
    requires
        mask == 0xff || mask == 0xffff || mask == 0xffff_ffff,
        -(mask as int + 1) <= value <= mask,
    ensures
        lane == (value as int % (mask as int + 1)) as u64,
        lane <= mask,
{
    if value < 0 {
        (value + mask as i64 + 1) as u64
    } else {
        value as u64
    }
}

/// Applies a lane-wise arithmetic operation to every lane.
fn arithmetic(operation: u16, left: u64, right: u64) -> (result: Result<u64, StopReason>)
    ensures
        result matches Err(reason) ==> reason.is_fault(),
        match arithmetic_width(operation) {
            None => result == Err::<u64, StopReason>(StopReason::UnsupportedInstruction),
            Some(width) => result matches Ok(value) && forall|index: int|
                0 <= index < 64int / (width as int) ==> #[trigger] lane_of(value, width, index)
                    == arithmetic_lane(
                    operation,
                    lane_of(left, width, index),
                    lane_of(right, width, index),
                    width,
                ),
        },
{
    let width: u64 = if operation == codes::OP_PADDB || operation == codes::OP_PSUBB || operation
        == codes::OP_PADDSB || operation == codes::OP_PSUBSB || operation == codes::OP_PADDUSB
        || operation == codes::OP_PSUBUSB || operation == codes::OP_PCMPEQB || operation
        == codes::OP_PCMPGTB {
        8
    } else if operation == codes::OP_PADDW || operation == codes::OP_PSUBW || operation
        == codes::OP_PADDSW || operation == codes::OP_PSUBSW || operation == codes::OP_PADDUSW
        || operation == codes::OP_PSUBUSW || operation == codes::OP_PCMPEQW || operation
        == codes::OP_PCMPGTW || operation == codes::OP_PMULLW || operation == codes::OP_PMULHW {
        16
    } else if operation == codes::OP_PADDD || operation == codes::OP_PSUBD || operation
        == codes::OP_PCMPEQD || operation == codes::OP_PCMPGTD {
        32
    } else {
        return Err(StopReason::UnsupportedInstruction);
    };
    let mask: u64 = if width == 8 {
        0xff
    } else if width == 16 {
        0xffff
    } else {
        0xffff_ffff
    };
    let half = (mask as i64 + 1) / 2;
    let lanes = 64 / width;
    let mut result: u64 = 0;
    let mut index: u64 = 0;
    proof {
        lemma_zero_above();
    }
    while index < lanes
        invariant
            width == 8 || width == 16 || width == 32,
            arithmetic_width(operation) == Some(width),
            mask == mask_of(width),
            half == (mask + 1) / 2,
            lanes == 64u64 / width,
            lanes * width == 64,
            index <= lanes,
            index * width < 64 ==> result >> ((index * width) as u64) == 0,
            forall|j: int|
                0 <= j < index ==> #[trigger] lane_of(result, width, j) == arithmetic_lane(
                    operation,
                    lane_of(left, width, j),
                    lane_of(right, width, j),
                    width,
                ),
        decreases lanes - index,
    {
        assert((index + 1) * width <= 64) by (nonlinear_arith)
            requires
                index < lanes,
                lanes * width == 64,
        ;
        let a = (left >> (index * width)) & mask;
        let b = (right >> (index * width)) & mask;
        proof {
            lemma_lane_fits(left, (index * width) as u64, width);
            lemma_lane_fits(right, (index * width) as u64, width);
        }
        let sa = signed(a, width);
        let sb = signed(b, width);
        proof {
            assert(a & mask == a && b & mask == b);
        }
        let value: u64 = if operation == codes::OP_PADDB || operation == codes::OP_PADDW
            || operation == codes::OP_PADDD {
            let sum = a + b;
            let modulus: u64 = mask + 1;
            assert(sum & mask == sum % modulus && sum & mask <= mask) by (bit_vector)
                requires
                    mask == 0xff || mask == 0xffff || mask == 0xffff_ffff,
                    modulus == mask + 1,
                    sum == a + b,
                    a <= mask,
                    b <= mask,
            ;
            sum & mask
        } else if operation == codes::OP_PSUBB || operation == codes::OP_PSUBW || operation
            == codes::OP_PSUBD {
            lane_from(a as i64 - b as i64, mask)
        } else if operation == codes::OP_PADDSB || operation == codes::OP_PADDSW {
            let sum = sa + sb;
            let limited = if sum < -half {
                -half
            } else if sum > half - 1 {
                half - 1
            } else {
                sum
            };
            lane_from(limited, mask)
        } else if operation == codes::OP_PSUBSB || operation == codes::OP_PSUBSW {
            let difference = sa - sb;
            let limited = if difference < -half {
                -half
            } else if difference > half - 1 {
                half - 1
            } else {
                difference
            };
            lane_from(limited, mask)
        } else if operation == codes::OP_PADDUSB || operation == codes::OP_PADDUSW {
            if a + b > mask {
                mask
            } else {
                a + b
            }
        } else if operation == codes::OP_PSUBUSB || operation == codes::OP_PSUBUSW {
            if a > b {
                a - b
            } else {
                0
            }
        } else if operation == codes::OP_PCMPEQB || operation == codes::OP_PCMPEQW || operation
            == codes::OP_PCMPEQD {
            if a == b {
                mask
            } else {
                0
            }
        } else if operation == codes::OP_PCMPGTB || operation == codes::OP_PCMPGTW || operation
            == codes::OP_PCMPGTD {
            if sa > sb {
                mask
            } else {
                0
            }
        } else if operation == codes::OP_PMULLW {
            assert(a * b <= 0xffff * 0xffff) by (nonlinear_arith)
                requires
                    a <= 0xffff,
                    b <= 0xffff,
            ;
            (a * b) % 0x1_0000
        } else {
            assert(-0x4000_0000 <= sa * sb <= 0x4000_0000) by (nonlinear_arith)
                requires
                    -32768 <= sa < 32768,
                    -32768 <= sb < 32768,
            ;
            let shifted = (sa * sb + 0x8000_0000) as u64;
            let floor = (shifted / 65536) as i64 - 32768;
            assert(floor == (sa * sb) / 65536);
            lane_from(floor, mask)
        };
        proof {
            assert(value & mask_of(width) == value) by {
                assert(value <= mask);
                assert(value & mask == value) by (bit_vector)
                    requires
                        value <= mask,
                        mask == 0xff || mask == 0xffff || mask == 0xffff_ffff,
                ;
            }
        }
        let ghost before = result;
        result = result | (value << (index * width));
        proof {
            lemma_lanes_after_place(before, value, index as int, width);
        }
        index = index + 1;
    }
    Ok(result)
}

/// The instruction forms whose operation this module computes.
pub open spec fn supported(code: u16) -> bool {
    code == codes::PUNPCKLBW_MM_MMM32 || code == codes::PUNPCKLWD_MM_MMM32 || code
        == codes::PUNPCKLDQ_MM_MMM32 || code == codes::PACKSSWB_MM_MMM64 || code
        == codes::PCMPGTB_MM_MMM64 || code == codes::PCMPGTW_MM_MMM64 || code
        == codes::PCMPGTD_MM_MMM64 || code == codes::PACKUSWB_MM_MMM64 || code
        == codes::PUNPCKHBW_MM_MMM64 || code == codes::PUNPCKHWD_MM_MMM64 || code
        == codes::PUNPCKHDQ_MM_MMM64 || code == codes::PACKSSDW_MM_MMM64 || code
        == codes::PCMPEQB_MM_MMM64 || code == codes::PCMPEQW_MM_MMM64 || code
        == codes::PCMPEQD_MM_MMM64 || code == codes::PSRLW_MM_MMM64 || code
        == codes::PSRLD_MM_MMM64 || code == codes::PSRLQ_MM_MMM64 || code
        == codes::PMULLW_MM_MMM64 || code == codes::PSUBUSB_MM_MMM64 || code
        == codes::PSUBUSW_MM_MMM64 || code == codes::PAND_MM_MMM64 || code
        == codes::PADDUSB_MM_MMM64 || code == codes::PADDUSW_MM_MMM64 || code
        == codes::PANDN_MM_MMM64 || code == codes::PSRAW_MM_MMM64 || code
        == codes::PSRAD_MM_MMM64 || code == codes::PMULHW_MM_MMM64 || code
        == codes::PSUBSB_MM_MMM64 || code == codes::PSUBSW_MM_MMM64 || code
        == codes::POR_MM_MMM64 || code == codes::PADDSB_MM_MMM64 || code
        == codes::PADDSW_MM_MMM64 || code == codes::PXOR_MM_MMM64 || code
        == codes::PSLLW_MM_MMM64 || code == codes::PSLLD_MM_MMM64 || code
        == codes::PSLLQ_MM_MMM64 || code == codes::PMADDWD_MM_MMM64 || code
        == codes::PSUBB_MM_MMM64 || code == codes::PSUBW_MM_MMM64 || code
        == codes::PSUBD_MM_MMM64 || code == codes::PADDB_MM_MMM64 || code
        == codes::PADDW_MM_MMM64 || code == codes::PADDD_MM_MMM64 || code
        == codes::PSRLW_MM_IMM8 || code == codes::PSRLD_MM_IMM8 || code == codes::PSRLQ_MM_IMM8
        || code == codes::PSRAW_MM_IMM8 || code == codes::PSRAD_MM_IMM8 || code
        == codes::PSLLW_MM_IMM8 || code == codes::PSLLD_MM_IMM8 || code == codes::PSLLQ_MM_IMM8
}

/// Whether `code` is a packed operation that this module computes.
pub fn supports(code: u16) -> (answer: bool)
    ensures
        answer == supported(code),
{
    code == codes::PUNPCKLBW_MM_MMM32 || code == codes::PUNPCKLWD_MM_MMM32 || code
        == codes::PUNPCKLDQ_MM_MMM32 || code == codes::PACKSSWB_MM_MMM64 || code
        == codes::PCMPGTB_MM_MMM64 || code == codes::PCMPGTW_MM_MMM64 || code
        == codes::PCMPGTD_MM_MMM64 || code == codes::PACKUSWB_MM_MMM64 || code
        == codes::PUNPCKHBW_MM_MMM64 || code == codes::PUNPCKHWD_MM_MMM64 || code
        == codes::PUNPCKHDQ_MM_MMM64 || code == codes::PACKSSDW_MM_MMM64 || code
        == codes::PCMPEQB_MM_MMM64 || code == codes::PCMPEQW_MM_MMM64 || code
        == codes::PCMPEQD_MM_MMM64 || code == codes::PSRLW_MM_MMM64 || code
        == codes::PSRLD_MM_MMM64 || code == codes::PSRLQ_MM_MMM64 || code
        == codes::PMULLW_MM_MMM64 || code == codes::PSUBUSB_MM_MMM64 || code
        == codes::PSUBUSW_MM_MMM64 || code == codes::PAND_MM_MMM64 || code
        == codes::PADDUSB_MM_MMM64 || code == codes::PADDUSW_MM_MMM64 || code
        == codes::PANDN_MM_MMM64 || code == codes::PSRAW_MM_MMM64 || code
        == codes::PSRAD_MM_MMM64 || code == codes::PMULHW_MM_MMM64 || code
        == codes::PSUBSB_MM_MMM64 || code == codes::PSUBSW_MM_MMM64 || code
        == codes::POR_MM_MMM64 || code == codes::PADDSB_MM_MMM64 || code
        == codes::PADDSW_MM_MMM64 || code == codes::PXOR_MM_MMM64 || code
        == codes::PSLLW_MM_MMM64 || code == codes::PSLLD_MM_MMM64 || code
        == codes::PSLLQ_MM_MMM64 || code == codes::PMADDWD_MM_MMM64 || code
        == codes::PSUBB_MM_MMM64 || code == codes::PSUBW_MM_MMM64 || code
        == codes::PSUBD_MM_MMM64 || code == codes::PADDB_MM_MMM64 || code
        == codes::PADDW_MM_MMM64 || code == codes::PADDD_MM_MMM64 || code
        == codes::PSRLW_MM_IMM8 || code == codes::PSRLD_MM_IMM8 || code == codes::PSRLQ_MM_IMM8
        || code == codes::PSRAW_MM_IMM8 || code == codes::PSRAD_MM_IMM8 || code
        == codes::PSLLW_MM_IMM8 || code == codes::PSLLD_MM_IMM8 || code == codes::PSLLQ_MM_IMM8
}

/// Whether `code` is an MMX instruction: a move to or from an MMX register,
/// `emms`, or a packed operation.
pub open spec fn mmx_form(code: u16) -> bool {
    code == codes::MOVD_MM_RM32 || code == codes::MOVD_RM32_MM || code == codes::MOVQ_MM_MMM64
        || code == codes::MOVQ_MMM64_MM || code == codes::EMMS || supported(code)
}

/// Whether `code` is an MMX instruction.
pub fn is_instruction(code: u16) -> (answer: bool)
    ensures
        answer == mmx_form(code),
{
    code == codes::MOVD_MM_RM32 || code == codes::MOVD_RM32_MM || code == codes::MOVQ_MM_MMM64
        || code == codes::MOVQ_MMM64_MM || code == codes::EMMS || supports(code)
}

/// The number of the MMX register `register`, or a refusal where it names
/// none of the eight.
pub fn mmx_index(register: u16) -> (index: Result<usize, StopReason>)
    ensures
        index matches Err(reason) ==> reason.is_fault(),
        codes::REG_MM0 <= register < codes::REG_MM0 + 8 ==> index == Ok::<usize, StopReason>(
            (register - codes::REG_MM0) as usize,
        ),
        !(codes::REG_MM0 <= register < codes::REG_MM0 + 8) ==> index == Err::<usize, StopReason>(
            StopReason::UnsupportedInstruction,
        ),
{
    if codes::REG_MM0 <= register && register - codes::REG_MM0 < 8 {
        Ok((register - codes::REG_MM0) as usize)
    } else {
        Err(StopReason::UnsupportedInstruction)
    }
}

/// `value` holds, lane by lane, what packing `left` and `right` with
/// saturation to `[minimum, maximum]` gives.
pub open spec fn packs(value: u64, left: u64, right: u64, width: u64, minimum: int, maximum: int) -> bool {
    forall|index: int|
        0 <= index < 128int / (width as int) ==> #[trigger] lane_of(value, width / 2, index)
            == packed_lane(left, right, width, minimum, maximum, index)
}

/// `value` holds, lane by lane, the interleaving of `left` and `right` from
/// bit `start` on.
pub open spec fn unpacks(value: u64, left: u64, right: u64, width: u64, start: u64) -> bool {
    forall|index: int|
        0 <= index < 64int / (width as int) ==> #[trigger] lane_of(value, width, index)
            == interleaved(left, right, width, (start / width) as int, index)
}

/// `value` holds, lane by lane, the lane-wise operation `operation` on
/// `left` and `right`.
pub open spec fn computes(value: u64, operation: u16, left: u64, right: u64, width: u64) -> bool {
    forall|index: int|
        0 <= index < 64int / (width as int) ==> #[trigger] lane_of(value, width, index)
            == arithmetic_lane(operation, lane_of(left, width, index), lane_of(right, width, index), width)
}

/// What a packed operation gives for the destination value `left` and the
/// source value `right`.
pub open spec fn executed(operation: u16, left: u64, right: u64, result: Result<u64, StopReason>) -> bool {
    if operation == codes::OP_PAND {
        result == Ok::<u64, StopReason>(left & right)
    } else if operation == codes::OP_PANDN {
        result == Ok::<u64, StopReason>(!left & right)
    } else if operation == codes::OP_POR {
        result == Ok::<u64, StopReason>(left | right)
    } else if operation == codes::OP_PXOR {
        result == Ok::<u64, StopReason>(left ^ right)
    } else if operation == codes::OP_PACKSSWB {
        result matches Ok(value) && packs(value, left, right, 16, -128, 127)
    } else if operation == codes::OP_PACKUSWB {
        result matches Ok(value) && packs(value, left, right, 16, 0, 255)
    } else if operation == codes::OP_PACKSSDW {
        result matches Ok(value) && packs(value, left, right, 32, -32768, 32767)
    } else if operation == codes::OP_PUNPCKLBW {
        result matches Ok(value) && unpacks(value, left, right, 8, 0)
    } else if operation == codes::OP_PUNPCKLWD {
        result matches Ok(value) && unpacks(value, left, right, 16, 0)
    } else if operation == codes::OP_PUNPCKLDQ {
        result matches Ok(value) && unpacks(value, left, right, 32, 0)
    } else if operation == codes::OP_PUNPCKHBW {
        result matches Ok(value) && unpacks(value, left, right, 8, 32)
    } else if operation == codes::OP_PUNPCKHWD {
        result matches Ok(value) && unpacks(value, left, right, 16, 32)
    } else if operation == codes::OP_PUNPCKHDQ {
        result matches Ok(value) && unpacks(value, left, right, 32, 32)
    } else if operation == codes::OP_PSLLW || operation == codes::OP_PSRLW || operation
        == codes::OP_PSRAW {
        result matches Ok(value) && shift_result(
            operation == codes::OP_PSRAW,
            operation == codes::OP_PSLLW,
            left,
            right,
            16,
            value,
        )
    } else if operation == codes::OP_PSLLD || operation == codes::OP_PSRLD || operation
        == codes::OP_PSRAD {
        result matches Ok(value) && shift_result(
            operation == codes::OP_PSRAD,
            operation == codes::OP_PSLLD,
            left,
            right,
            32,
            value,
        )
    } else if operation == codes::OP_PSLLQ || operation == codes::OP_PSRLQ {
        result matches Ok(value) && shift_result(false, operation == codes::OP_PSLLQ, left, right, 64, value)
    } else if operation == codes::OP_PMADDWD {
        result matches Ok(value) && forall|pair: int|
            0 <= pair < 2 ==> #[trigger] lane_of(value, 32, pair) == multiply_added(left, right, pair)
    } else {
        match arithmetic_width(operation) {
            None => result == Err::<u64, StopReason>(StopReason::UnsupportedInstruction),
            Some(width) => result matches Ok(value) && computes(value, operation, left, right, width),
        }
    }
}

/// Computes the packed operation `operation` (a mnemonic number) on the
/// destination value `left` and the source value `right`; an operation this
/// module does not know is refused.
pub fn execute(operation: u16, left: u64, right: u64) -> (result: Result<u64, StopReason>)
    ensures
        result matches Err(reason) ==> reason.is_fault(),
        executed(operation, left, right, result),
{
    if operation == codes::OP_PAND {
        Ok(left & right)
    } else if operation == codes::OP_PANDN {
        Ok(!left & right)
    } else if operation == codes::OP_POR {
        Ok(left | right)
    } else if operation == codes::OP_PXOR {
        Ok(left ^ right)
    } else if operation == codes::OP_PACKSSWB {
        Ok(pack(left, right, 16, -128, 127))
    } else if operation == codes::OP_PACKUSWB {
        Ok(pack(left, right, 16, 0, 255))
    } else if operation == codes::OP_PACKSSDW {
        Ok(pack(left, right, 32, -32768, 32767))
    } else if operation == codes::OP_PUNPCKLBW {
        Ok(unpack(left, right, 8, 0))
    } else if operation == codes::OP_PUNPCKLWD {
        Ok(unpack(left, right, 16, 0))
    } else if operation == codes::OP_PUNPCKLDQ {
        Ok(unpack(left, right, 32, 0))
    } else if operation == codes::OP_PUNPCKHBW {
        Ok(unpack(left, right, 8, 32))
    } else if operation == codes::OP_PUNPCKHWD {
        Ok(unpack(left, right, 16, 32))
    } else if operation == codes::OP_PUNPCKHDQ {
        Ok(unpack(left, right, 32, 32))
    } else if operation == codes::OP_PSLLW || operation == codes::OP_PSRLW || operation
        == codes::OP_PSRAW {
        Ok(shift(operation, left, right, 16))
    } else if operation == codes::OP_PSLLD || operation == codes::OP_PSRLD || operation
        == codes::OP_PSRAD {
        Ok(shift(operation, left, right, 32))
    } else if operation == codes::OP_PSLLQ || operation == codes::OP_PSRLQ {
        Ok(shift(operation, left, right, 64))
    } else if operation == codes::OP_PMADDWD {
        Ok(multiply_add(left, right))
    } else {
        arithmetic(operation, left, right)
    }
}

} // verus!
