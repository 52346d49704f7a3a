//! `Clear`: filling rectangles of the render target with a colour and of
//! the depth buffer with a depth.
use super::device::Graphics;
use super::objects::{load_words, DEVICE, INVALID_CALL, MAX_PIXELS, MAX_RECTS};
use super::super::guest::words_at;
use super::Frame;
use crate::memory::{Access, GuestMemory, MemoryError};
use vstd::arithmetic::div_mod::lemma_fundamental_div_mod_converse;
use vstd::arithmetic::power2::{lemma2_to64, lemma2_to64_rest, lemma_pow2_strictly_increases, pow2};
use vstd::prelude::*;

verus! {

/// A rectangle of pixels, `[left, right)` by `[top, bottom)`.
#[derive(Clone, Copy, Debug, PartialEq, Eq, Structural)]
pub struct Rect {
    pub left: u32,
    pub top: u32,
    pub right: u32,
    pub bottom: u32,
}

/// Whether the pixel at column `x`, row `y` lies in `rect`.
pub open spec fn in_rect(rect: Rect, x: int, y: int) -> bool {
    rect.left <= x < rect.right && rect.top <= y < rect.bottom
}

/// The column of the pixel at index `pixel` of a target `width` wide.
pub open spec fn column(pixel: int, width: int) -> int {
    pixel % width
}

/// The row of the pixel at index `pixel` of a target `width` wide.
pub open spec fn row(pixel: int, width: int) -> int {
    pixel / width
}

/// The pixel at column `x`, row `y` has index `y * width + x`.
proof fn lemma_pixel_at(x: int, y: int, width: int)
    requires
        0 <= x < width,
        0 <= y,
    ensures
        column(y * width + x, width) == x,
        row(y * width + x, width) == y,
{
    lemma_fundamental_div_mod_converse(y * width + x, width, y, x);
}

/// Byte `k` of the pixel at index `pixel` has index `4 * pixel + k`.
proof fn lemma_byte_at(pixel: int, k: int)
    requires
        0 <= pixel,
        0 <= k < 4,
    ensures
        (4 * pixel + k) / 4 == pixel,
        (4 * pixel + k) % 4 == k,
{
    lemma_fundamental_div_mod_converse(4 * pixel + k, 4, pixel, k);
}

/// A pixel of a `width` by `height` target lies before its end.
proof fn lemma_pixel_inside(x: int, y: int, width: int, height: int)
    requires
        0 <= x < width,
        0 <= y < height,
    ensures
        y * width + x < width * height,
{
    assert(y * width + x < width * height) by (nonlinear_arith)
        requires
            0 <= x < width,
            0 <= y < height,
    ;
}

/// The pixel index of column `column(p)`, row `row(p)` is `p` again.
proof fn lemma_pixel_split(pixel: int, width: int)
    requires
        0 <= pixel,
        0 < width,
    ensures
        pixel == row(pixel, width) * width + column(pixel, width),
        0 <= column(pixel, width) < width,
        0 <= row(pixel, width),
{
    vstd::arithmetic::div_mod::lemma_fundamental_div_mod(pixel, width);
    assert(width * (pixel / width) == (pixel / width) * width) by (nonlinear_arith);
}

/// Byte `k` of an opaque pixel of colour `color` (`0x00RRGGBB`).
pub open spec fn color_byte(color: u32, k: int) -> u8 {
    if k == 0 {
        ((color / 0x1_0000) % 256) as u8
    } else if k == 1 {
        ((color / 0x100) % 256) as u8
    } else if k == 2 {
        (color % 256) as u8
    } else {
        255u8
    }
}

/// Fills `rect` of the RGBA pixels `rgba` of a `width` by `height` target
/// with the opaque colour `color`.
pub fn fill_pixels(rgba: &mut Vec<u8>, width: u32, height: u32, rect: Rect, color: u32)
    requires
        old(rgba)@.len() == 4 * width * height,
        width * height <= MAX_PIXELS,
        rect.right <= width,
        rect.bottom <= height,
    ensures
        final(rgba)@.len() == old(rgba)@.len(),
        forall|i: int|
            0 <= i < old(rgba)@.len() ==> #[trigger] final(rgba)@[i] == if in_rect(
                rect,
                column(i / 4, width as int),
                row(i / 4, width as int),
            ) {
                color_byte(color, i % 4)
            } else {
                old(rgba)@[i]
            },
{
    let red = ((color / 0x1_0000) % 256) as u8;
    let green = ((color / 0x100) % 256) as u8;
    let blue = (color % 256) as u8;
    let ghost before = rgba@;
    assert(4 * width * height == 4 * (width * height)) by (nonlinear_arith);
    let mut y = rect.top;
    while y < rect.bottom
        invariant
            rgba@.len() == before.len(),
            before.len() == 4 * (width * height),
            width * height <= MAX_PIXELS,
            rect.right <= width,
            rect.bottom <= height,
            rect.top <= y,
            y <= rect.bottom || y == rect.top,
            red == color_byte(color, 0) && green == color_byte(color, 1) && blue == color_byte(
                color,
                2,
            ),
            forall|i: int|
                0 <= i < before.len() ==> #[trigger] rgba@[i] == if in_rect(
                    Rect { bottom: y, ..rect },
                    column(i / 4, width as int),
                    row(i / 4, width as int),
                ) {
                    color_byte(color, i % 4)
                } else {
                    before[i]
                },
        decreases rect.bottom - y,
    {
        let mut x = rect.left;
        while x < rect.right
            invariant
                rgba@.len() == before.len(),
                before.len() == 4 * (width * height),
                width * height <= MAX_PIXELS,
                rect.right <= width,
                rect.bottom <= height,
                rect.top <= y < rect.bottom,
                rect.left <= x,
                x <= rect.right || x == rect.left,
                red == color_byte(color, 0) && green == color_byte(color, 1) && blue
                    == color_byte(color, 2),
                forall|i: int|
                    0 <= i < before.len() ==> #[trigger] rgba@[i] == if in_rect(
                        Rect { bottom: y, ..rect },
                        column(i / 4, width as int),
                        row(i / 4, width as int),
                    ) || (row(i / 4, width as int) == y && rect.left <= column(
                        i / 4,
                        width as int,
                    ) < x) {
                        color_byte(color, i % 4)
                    } else {
                        before[i]
                    },
            decreases rect.right - x,
        {
            proof {
                lemma_pixel_inside(x as int, y as int, width as int, height as int);
                assert(y * width + x < MAX_PIXELS);
            }
            let pixel = y * width + x;
            let base = (pixel * 4) as usize;
            let ghost current = rgba@;
            rgba.set(base, red);
            rgba.set(base + 1, green);
            rgba.set(base + 2, blue);
            rgba.set(base + 3, 255);
            proof {
                lemma_pixel_at(x as int, y as int, width as int);
                assert forall|i: int| 0 <= i < before.len() implies #[trigger] rgba@[i] == if in_rect(
                    Rect { bottom: y, ..rect },
                    column(i / 4, width as int),
                    row(i / 4, width as int),
                ) || (row(i / 4, width as int) == y && rect.left <= column(
                    i / 4,
                    width as int,
                ) < x + 1) {
                    color_byte(color, i % 4)
                } else {
                    before[i]
                } by {
                    lemma_pixel_split(i / 4, width as int);
                    lemma_byte_at(i / 4, i % 4);
                    if base <= i < base + 4 {
                        lemma_byte_at(pixel as int, i - base);
                    } else {
                        assert(rgba@[i] == current[i]);
                        if row(i / 4, width as int) == y && column(i / 4, width as int) == x {
                            assert(i / 4 == pixel);
                        }
                    }
                }
            }
            x = x + 1;
        }
        proof {
            assert forall|i: int| 0 <= i < before.len() implies #[trigger] rgba@[i] == if in_rect(
                Rect { bottom: (y + 1) as u32, ..rect },
                column(i / 4, width as int),
                row(i / 4, width as int),
            ) {
                color_byte(color, i % 4)
            } else {
                before[i]
            } by {
                if width > 0 {
                    lemma_pixel_split(i / 4, width as int);
                }
            }
        }
        y = y + 1;
    }
}

/// Fills `rect` of the depth buffer `depth` of a `width` by `height` target
/// with `value`.
pub fn fill_depth(depth: &mut Vec<u16>, width: u32, height: u32, rect: Rect, value: u16)
    requires
        old(depth)@.len() == width * height,
        width * height <= MAX_PIXELS,
        rect.right <= width,
        rect.bottom <= height,
    ensures
        final(depth)@.len() == old(depth)@.len(),
        forall|i: int|
            0 <= i < old(depth)@.len() ==> #[trigger] final(depth)@[i] == if in_rect(
                rect,
                column(i, width as int),
                row(i, width as int),
            ) {
                value
            } else {
                old(depth)@[i]
            },
{
    let ghost before = depth@;
    let mut y = rect.top;
    while y < rect.bottom
        invariant
            depth@.len() == before.len(),
            before.len() == width * height,
            width * height <= MAX_PIXELS,
            rect.right <= width,
            rect.bottom <= height,
            rect.top <= y,
            y <= rect.bottom || y == rect.top,
            forall|i: int|
                0 <= i < before.len() ==> #[trigger] depth@[i] == if in_rect(
                    Rect { bottom: y, ..rect },
                    column(i, width as int),
                    row(i, width as int),
                ) {
                    value
                } else {
                    before[i]
                },
        decreases rect.bottom - y,
    {
        let mut x = rect.left;
        while x < rect.right
            invariant
                depth@.len() == before.len(),
                before.len() == width * height,
                width * height <= MAX_PIXELS,
                rect.right <= width,
                rect.bottom <= height,
                rect.top <= y < rect.bottom,
                rect.left <= x,
                x <= rect.right || x == rect.left,
                forall|i: int|
                    0 <= i < before.len() ==> #[trigger] depth@[i] == if in_rect(
                        Rect { bottom: y, ..rect },
                        column(i, width as int),
                        row(i, width as int),
                    ) || (row(i, width as int) == y && rect.left <= column(i, width as int) < x) {
                        value
                    } else {
                        before[i]
                    },
            decreases rect.right - x,
        {
            proof {
                lemma_pixel_inside(x as int, y as int, width as int, height as int);
            }
            let pixel = y * width + x;
            let ghost current = depth@;
            depth.set(pixel as usize, value);
            proof {
                lemma_pixel_at(x as int, y as int, width as int);
                assert forall|i: int| 0 <= i < before.len() implies #[trigger] depth@[i] == if in_rect(
                    Rect { bottom: y, ..rect },
                    column(i, width as int),
                    row(i, width as int),
                ) || (row(i, width as int) == y && rect.left <= column(i, width as int) < x + 1) {
                    value
                } else {
                    before[i]
                } by {
                    lemma_pixel_split(i, width as int);
                    if i != pixel {
                        assert(depth@[i] == current[i]);
                    }
                }
            }
            x = x + 1;
        }
        proof {
            assert forall|i: int| 0 <= i < before.len() implies #[trigger] depth@[i] == if in_rect(
                Rect { bottom: (y + 1) as u32, ..rect },
                column(i, width as int),
                row(i, width as int),
            ) {
                value
            } else {
                before[i]
            } by {
                if width > 0 {
                    lemma_pixel_split(i, width as int);
                }
            }
        }
        y = y + 1;
    }
}

/// Whether the single-precision float with bits `bits` is a depth: a
/// number from 0 to 1 (either zero among them).
pub open spec fn depth_bits(bits: u32) -> bool {
    bits <= 0x3f80_0000 || bits == 0x8000_0000
}

/// The significand and the power of two that the float with bits `bits`
/// is divided by: its magnitude is `significand / 2^shift`.
pub open spec fn float_parts(bits: u32) -> (int, int) {
    let exponent = (bits / 0x80_0000) % 256;
    let fraction = bits % 0x80_0000;
    if exponent == 0 {
        (fraction as int, 149)
    } else {
        (fraction + 0x80_0000, 150 - exponent)
    }
}

/// The 16-bit depth that the depth with bits `bits` stands for: its value
/// times 65535, rounded to the nearest integer (halves up).
pub open spec fn depth_level(bits: u32) -> int {
    let (significand, shift) = float_parts(bits);
    (2 * significand * 65535 + pow2(shift as nat)) / (2 * pow2(shift as nat)) as int
}

/// The 16-bit depth that the depth with bits `bits` stands for.
pub fn quantize_depth(bits: u32) -> (level: u16)
    requires
        depth_bits(bits),
    ensures
        level == depth_level(bits),
{
    let exponent = (bits / 0x80_0000) % 256;
    let fraction = bits % 0x80_0000;
    let (significand, shift): (u64, u64) = if exponent == 0 {
        (fraction as u64, 149)
    } else {
        (fraction as u64 + 0x80_0000, 150 - exponent as u64)
    };
    assert(exponent <= 127);
    assert(shift >= 23);
    let scaled = 2 * significand * 65535;
    assert(scaled < 0x200_0000_0000);
    if shift >= 42 {
        proof {
            lemma2_to64();
            lemma2_to64_rest();
        lemma2_to64_rest();
            vstd::arithmetic::power2::lemma_pow2_pos(shift as nat);
            lemma_pow2_strictly_increases(41, shift as nat);
            assert(pow2(41) == 0x200_0000_0000);
            let p = pow2(shift as nat) as int;
            assert((scaled + p) / (2 * p) == 0) by (nonlinear_arith)
                requires
                    scaled < p,
                    p > 0,
                    scaled >= 0,
            ;
        }
        return 0;
    }
    proof {
        lemma2_to64();
        lemma2_to64_rest();
        vstd::bits::lemma_u64_pow2_no_overflow(shift as nat);
        vstd::arithmetic::power2::lemma_pow2_pos(shift as nat);
        if shift < 41 {
            lemma_pow2_strictly_increases(shift as nat, 41);
        }
        assert(pow2(41) == 0x200_0000_0000);
        vstd::bits::lemma_u64_shl_is_mul(1, shift);
    }
    let power = 1u64 << shift;
    proof {
        if exponent == 127 {
            assert(fraction == 0);
            assert(pow2(23) == 0x80_0000);
        } else {
            if shift > 24 {
                lemma_pow2_strictly_increases(24, shift as nat);
            }
            assert(pow2(24) == 0x100_0000);
        }
    }
    assert(significand <= power);
    let level = (scaled + power) / (2 * power);
    assert(level <= 65535) by (nonlinear_arith)
        requires
            level == (scaled + power) / (2 * power),
            power > 0,
            scaled == 2 * significand * 65535,
            significand <= power,
    ;
    level as u16
}

/// The dword `value` read as a signed 32-bit integer.
pub open spec fn signed(value: u32) -> int {
    if value >= 0x8000_0000 {
        value - 0x1_0000_0000
    } else {
        value as int
    }
}

/// The dword `value` read as a signed coordinate and kept within
/// `[0, limit]`.
pub open spec fn clamped(value: u32, limit: u32) -> u32 {
    if value >= 0x8000_0000 {
        0
    } else if value > limit {
        limit
    } else {
        value
    }
}

/// Whether rectangle `index` of the dwords `words` (four each: left, top,
/// right, bottom) has its right edge not left of its left edge and its
/// bottom not above its top.
pub open spec fn rect_ordered(words: Seq<u32>, index: int) -> bool {
    signed(words[4 * index]) <= signed(words[4 * index + 2]) && signed(words[4 * index + 1])
        <= signed(words[4 * index + 3])
}

/// The rectangles a clear fills on a `width` by `height` target: the
/// `count` given in `words`, kept within the target, or the whole target
/// when none are given.
pub open spec fn clear_rects(words: Seq<u32>, count: int, width: u32, height: u32) -> Seq<Rect> {
    if count == 0 {
        seq![Rect { left: 0, top: 0, right: width, bottom: height }]
    } else {
        Seq::new(
            count as nat,
            |i: int|
                Rect {
                    left: clamped(words[4 * i], width),
                    top: clamped(words[4 * i + 1], height),
                    right: clamped(words[4 * i + 2], width),
                    bottom: clamped(words[4 * i + 3], height),
                },
        )
    }
}

/// Whether the pixel at column `x`, row `y` lies in one of the first
/// `count` of `rects`.
pub open spec fn covered(rects: Seq<Rect>, count: int, x: int, y: int) -> bool
    decreases count,
{
    count > 0 && (covered(rects, count - 1, x, y) || in_rect(rects[count - 1], x, y))
}

/// Whether a clear with `arguments = [count, rects, flags, color, depth,
/// stencil]` is refused before its rectangles are read: not the device, no
/// target or nothing or something unknown to clear, more than 64
/// rectangles, a count without rectangles or rectangles without a count,
/// or a depth to clear without a depth buffer or outside 0 to 1.
pub open spec fn clear_refused(graphics: Graphics, arguments: Seq<u32>) -> bool {
    ||| !super::state::device_call(graphics, arguments[0])
    ||| !(1 <= arguments[3] <= 3)
    ||| arguments[1] > MAX_RECTS
    ||| (arguments[1] == 0) != (arguments[2] == 0)
    ||| graphics.back is None
    ||| (arguments[3] >= 2 && (graphics.depth is None || !depth_bits(arguments[5])))
}

/// What a clear of the rectangles `rects` leaves: the pixels they cover
/// of the target set to the colour, when colour is cleared, and their
/// depths set to the depth, when depth is cleared; all else kept.
pub open spec fn cleared(
    new: Graphics,
    old: Graphics,
    arguments: Seq<u32>,
    rects: Seq<Rect>,
) -> bool {
    let back = old.back->Some_0;
    let width = back.width as int;
    &&& new.back matches Some(frame) && frame.width == back.width && frame.height == back.height
        && frame.rgba@.len() == back.rgba@.len() && forall|i: int|
        0 <= i < back.rgba@.len() ==> #[trigger] frame.rgba@[i] == if arguments[3] % 2 == 1
            && covered(rects, rects.len() as int, column(i / 4, width), row(i / 4, width)) {
            color_byte(arguments[4], i % 4)
        } else {
            back.rgba@[i]
        }
    &&& match old.depth {
        None => new.depth is None,
        Some(depth) => new.depth matches Some(values) && values@.len() == depth@.len() && forall|
            i: int,
        |
            0 <= i < depth@.len() ==> #[trigger] values@[i] == if arguments[3] >= 2 && covered(
                rects,
                rects.len() as int,
                column(i, width),
                row(i, width),
            ) {
                depth_level(arguments[5]) as u16
            } else {
                depth@[i]
            },
    }
    &&& new == Graphics { back: new.back, depth: new.depth, ..old }
}

/// What `clear` answers and leaves.
pub open spec fn clear_result(
    new: Graphics,
    old: Graphics,
    arguments: Seq<u32>,
    memory: GuestMemory,
    outcome: Result<u32, MemoryError>,
) -> bool {
    &&& (if clear_refused(old, arguments) {
            outcome == Ok::<u32, MemoryError>(INVALID_CALL) && new == old
        } else {
            let count = arguments[1] as int;
            match memory.access(arguments[2] as u64, 16 * count, Access::Read) {
                Err(error) => outcome == Err::<u32, MemoryError>(error) && new == old,
                Ok(()) => {
                    let words = words_at(memory, arguments[2], 4 * count);
                    if exists|index: int| 0 <= index < count && !#[trigger] rect_ordered(words, index) {
                        outcome == Ok::<u32, MemoryError>(INVALID_CALL) && new == old
                    } else {
                        let back = old.back->Some_0;
                        outcome == Ok::<u32, MemoryError>(0) && cleared(
                            new,
                            old,
                            arguments,
                            clear_rects(words, count, back.width, back.height),
                        )
                    }
                },
            }
        })
}

impl Graphics {
    /// `Clear(count, rects, flags, color, depth, stencil)`: fills the given
    /// rectangles (or the whole target) of the render target with the
    /// colour (flag 1) and of the depth buffer with the depth (flag 2).
    #[verifier::loop_isolation(false)]
    pub fn clear(&mut self, arguments: &[u32], memory: &GuestMemory) -> (outcome: Result<
        u32,
        MemoryError,
    >)
        requires
            old(self).wf(),
            memory.wf(),
            arguments@.len() == 7,
        ensures
            final(self).wf(),
            clear_result(*final(self), *old(self), arguments@, *memory, outcome),
    {
        let count = arguments[1];
        let flags = arguments[3];
        if arguments[0] != DEVICE || self.device_refs == 0 || !(1 <= flags && flags <= 3) || count
            > MAX_RECTS || (count == 0) != (arguments[2] == 0) {
            return Ok(INVALID_CALL);
        }
        let (width, height) = match &self.back {
            None => return Ok(INVALID_CALL),
            Some(back) => (back.width, back.height),
        };
        let clear_color = flags % 2 == 1;
        let clear_depth = flags >= 2;
        if clear_depth && (self.depth.is_none() || !(arguments[5] <= 0x3f80_0000 || arguments[5]
            == 0x8000_0000)) {
            return Ok(INVALID_CALL);
        }
        let mut words: Vec<u32> = Vec::new();
        while words.len() < 4 * count as usize
            invariant
                words@.len() <= 4 * count,
                count <= MAX_RECTS,
            decreases 4 * count - words@.len(),
        {
            words.push(0);
        }
        load_words(memory, arguments[2], words.as_mut_slice())?;
        let ghost read = words@;
        let ghost read = words@;
        let mut index: usize = 0;
        while index < count as usize
            invariant
                index <= count,
                words@ == read,
                read.len() == 4 * count,
                forall|j: int| 0 <= j < index ==> #[trigger] rect_ordered(read, j),
            decreases count - index,
        {
            if !signed_at_most(words[4 * index], words[4 * index + 2]) || !signed_at_most(
                words[4 * index + 1],
                words[4 * index + 3],
            ) {
                assert(!rect_ordered(read, index as int));
                return Ok(INVALID_CALL);
            }
            index = index + 1;
        }
        let mut rects: Vec<Rect> = Vec::new();
        if count == 0 {
            rects.push(Rect { left: 0, top: 0, right: width, bottom: height });
        } else {
            let mut index: usize = 0;
            while index < count as usize
                invariant
                    index <= count,
                    count >= 1,
                    words@ == read,
                    read.len() == 4 * count,
                    rects@ == clear_rects(read, count as int, width, height).take(index as int),
                decreases count - index,
            {
                rects.push(
                    Rect {
                        left: clamp_coordinate(words[4 * index], width),
                        top: clamp_coordinate(words[4 * index + 1], height),
                        right: clamp_coordinate(words[4 * index + 2], width),
                        bottom: clamp_coordinate(words[4 * index + 3], height),
                    },
                );
                index = index + 1;
                assert(rects@ =~= clear_rects(read, count as int, width, height).take(index as int));
            }
        }
        assert(rects@ =~= clear_rects(read, count as int, width, height));
        let mut frame = match self.back.take() {
            Some(frame) => frame,
            None => return Ok(INVALID_CALL),
        };
        let has_depth = self.depth.is_some();
        let mut depth: Vec<u16> = match self.depth.take() {
            Some(values) => values,
            None => Vec::new(),
        };
        let level = if clear_depth {
            quantize_depth(arguments[5])
        } else {
            0
        };
        let color = arguments[4];
        let ghost pixels = frame.rgba@;
        let ghost depths = depth@;
        let mut r: usize = 0;
        while r < rects.len()
            invariant
                r <= rects@.len(),
                rects@ == clear_rects(read, count as int, width, height),
                frame.width == width && frame.height == height,
                frame.rgba@.len() == pixels.len(),
                pixels.len() == 4 * width * height,
                width * height <= MAX_PIXELS,
                has_depth ==> depth@.len() == width * height,
                depth@.len() == depths.len(),
                clear_depth ==> has_depth && level == depth_level(arguments@[5]),
                forall|i: int|
                    0 <= i < pixels.len() ==> #[trigger] frame.rgba@[i] == if clear_color
                        && covered(rects@, r as int, column(i / 4, width as int), row(i / 4, width as int)) {
                        color_byte(color, i % 4)
                    } else {
                        pixels[i]
                    },
                forall|i: int|
                    0 <= i < depths.len() ==> #[trigger] depth@[i] == if clear_depth && covered(
                        rects@,
                        r as int,
                        column(i, width as int),
                        row(i, width as int),
                    ) {
                        level
                    } else {
                        depths[i]
                    },
            decreases rects@.len() - r,
        {
            let rect = rects[r];
            let ghost before_pixels = frame.rgba@;
            let ghost before_depth = depth@;
            if clear_color {
                fill_pixels(&mut frame.rgba, width, height, rect, color);
            }
            if clear_depth {
                fill_depth(&mut depth, width, height, rect, level);
            }
            r = r + 1;
        }
        self.back = Some(frame);
        self.depth = if has_depth {
            Some(depth)
        } else {
            None
        };
        Ok(0)
    }
}

/// Whether `left` is at most `right`, both read as signed 32-bit integers.
fn signed_at_most(left: u32, right: u32) -> (at_most: bool)
    ensures
        at_most == (signed(left) <= signed(right)),
{
    if left >= 0x8000_0000 {
        right < 0x8000_0000 || left <= right
    } else {
        right < 0x8000_0000 && left <= right
    }
}

/// The coordinate `value`, read as signed, kept within `[0, limit]`.
fn clamp_coordinate(value: u32, limit: u32) -> (coordinate: u32)
    ensures
        coordinate == clamped(value, limit),
{
    if value >= 0x8000_0000 {
        0
    } else if value > limit {
        limit
    } else {
        value
    }
}

} // verus!
