//! The adapter as the root object reports it, the object page with its
//! method tables, and device creation.
use super::device::{cleared_frame, usable_window, Graphics, Windows};
use super::objects::{
    load_words, stored, stored_two, store_word, store_words, DepthPolicy, Viewport, DEPTH_SURFACE, DEPTH_SURFACE_TABLE, DEVICE,
    DEVICE_TABLE, INDEX_BUFFER_TABLE, INVALID_CALL, MAX_PIXELS, MAX_PRIMITIVES, MAX_STRIDE,
    NOT_AVAILABLE, OBJECT_BASE, ROOT, ROOT_TABLE, TEXTURE_SURFACE_TABLE, TEXTURE_TABLE,
    UNSUPPORTED_METHOD, VERTEX_BUFFER_TABLE,
};
use super::Frame;
use super::super::guest::{words_at, words_bytes};
use crate::cpu::operands::value_bytes;
use crate::memory::{
    lemma_allowed_covers, lemma_first_page_where, page_allows, page_of, Access, GuestMemory,
    MemoryError, Permissions, PAGE_SIZE,
};
use vstd::prelude::*;

verus! {

/// The method in slot `index` of the table at `table`.
pub open spec fn method_slot(table: u32, index: int) -> u32 {
    if table == ROOT_TABLE && index == 1 {
        0x70000050
    } else if table == ROOT_TABLE && index == 2 {
        0x70000054
    } else if table == ROOT_TABLE && index == 4 {
        0x700002d0
    } else if table == ROOT_TABLE && index == 5 {
        0x700002d4
    } else if table == ROOT_TABLE && index == 6 {
        0x700002dc
    } else if table == ROOT_TABLE && index == 7 {
        0x700002e0
    } else if table == ROOT_TABLE && index == 8 {
        0x700002f0
    } else if table == ROOT_TABLE && index == 9 {
        0x700002e4
    } else if table == ROOT_TABLE && index == 10 {
        0x700002e8
    } else if table == ROOT_TABLE && index == 11 {
        0x700002ec
    } else if table == ROOT_TABLE && index == 12 {
        0x700002f4
    } else if table == ROOT_TABLE && index == 13 {
        0x700002d8
    } else if table == ROOT_TABLE && index == 15 {
        0x70000040
    } else if table == DEVICE_TABLE && index == 1 {
        0x70000058
    } else if table == DEVICE_TABLE && index == 2 {
        0x7000005c
    } else if table == DEVICE_TABLE && index == 15 {
        0x70000048
    } else if table == DEVICE_TABLE && index == 36 {
        0x70000044
    } else if table == DEVICE_TABLE && index == 40 {
        0x70000498
    } else if table == DEVICE_TABLE && index == 37 {
        0x700004f0
    } else if table == DEVICE_TABLE && index == 38 {
        0x700004f4
    } else if table == DEVICE_TABLE && index == 50 {
        0x7000049c
    } else if table == DEVICE_TABLE && index == 33 {
        0x700004a0
    } else if table == DEVICE_TABLE && index == 4 {
        0x700004ac
    } else if table == DEVICE_TABLE && index == 61 {
        0x700004d4
    } else if table == DEVICE_TABLE && index == 62 {
        0x700004d8
    } else if table == DEVICE_TABLE && index == 63 {
        0x700004dc
    } else if table == DEVICE_TABLE && index == 64 {
        0x700004e0
    } else if table == DEVICE_TABLE && index == 3 {
        0x700004e4
    } else if table == DEVICE_TABLE && index == 34 {
        0x700004e8
    } else if table == DEVICE_TABLE && index == 35 {
        0x700004ec
    } else if table == DEPTH_SURFACE_TABLE && index == 1 {
        0x700004a4
    } else if table == DEPTH_SURFACE_TABLE && index == 2 {
        0x700004a8
    } else if table == DEVICE_TABLE && index == 20 {
        0x70000400
    } else if table == DEVICE_TABLE && index == 23 {
        0x700004f8
    } else if table == DEVICE_TABLE && index == 24 {
        0x7000050c
    } else if table == DEVICE_TABLE && index == 72 {
        0x70000420
    } else if table == DEVICE_TABLE && index == 71 {
        0x70000534
    } else if table == DEVICE_TABLE && index == 76 {
        0x7000041c
    } else if table == DEVICE_TABLE && index == 88 {
        0x70000520
    } else if table == DEVICE_TABLE && index == 85 {
        0x70000524
    } else if table == DEVICE_TABLE && index == 86 {
        0x70000528
    } else if table == DEVICE_TABLE && index == 83 {
        0x7000052c
    } else if table == DEVICE_TABLE && index == 84 {
        0x70000530
    } else if table == TEXTURE_TABLE && index == 1 {
        0x70000404
    } else if table == TEXTURE_TABLE && index == 2 {
        0x70000408
    } else if table == TEXTURE_TABLE && index == 9 {
        0x700004d0
    } else if table == TEXTURE_TABLE && index == 13 {
        0x7000040c
    } else if table == TEXTURE_TABLE && index == 14 {
        0x70000410
    } else if table == TEXTURE_TABLE && index == 16 {
        0x70000414
    } else if table == TEXTURE_TABLE && index == 17 {
        0x70000418
    } else if table == TEXTURE_TABLE && index == 15 {
        0x700004b8
    } else if table == TEXTURE_SURFACE_TABLE && index == 1 {
        0x700004bc
    } else if table == TEXTURE_SURFACE_TABLE && index == 2 {
        0x700004c0
    } else if table == TEXTURE_SURFACE_TABLE && index == 8 {
        0x700004c4
    } else if table == TEXTURE_SURFACE_TABLE && index == 9 {
        0x700004c8
    } else if table == TEXTURE_SURFACE_TABLE && index == 10 {
        0x700004cc
    } else if table == VERTEX_BUFFER_TABLE && index == 1 {
        0x700004fc
    } else if table == VERTEX_BUFFER_TABLE && index == 2 {
        0x70000500
    } else if table == VERTEX_BUFFER_TABLE && index == 11 {
        0x70000504
    } else if table == VERTEX_BUFFER_TABLE && index == 12 {
        0x70000508
    } else if table == INDEX_BUFFER_TABLE && index == 1 {
        0x70000510
    } else if table == INDEX_BUFFER_TABLE && index == 2 {
        0x70000514
    } else if table == INDEX_BUFFER_TABLE && index == 11 {
        0x70000518
    } else if table == INDEX_BUFFER_TABLE && index == 12 {
        0x7000051c
    } else {
        UNSUPPORTED_METHOD
    }
}

/// The method in slot `index` of the table at `table`.
fn method_in(table: u32, index: u32) -> (method: u32)
    ensures
        method == method_slot(table, index as int),
{
    if table == ROOT_TABLE && index == 1 {
        0x70000050
    } else if table == ROOT_TABLE && index == 2 {
        0x70000054
    } else if table == ROOT_TABLE && index == 4 {
        0x700002d0
    } else if table == ROOT_TABLE && index == 5 {
        0x700002d4
    } else if table == ROOT_TABLE && index == 6 {
        0x700002dc
    } else if table == ROOT_TABLE && index == 7 {
        0x700002e0
    } else if table == ROOT_TABLE && index == 8 {
        0x700002f0
    } else if table == ROOT_TABLE && index == 9 {
        0x700002e4
    } else if table == ROOT_TABLE && index == 10 {
        0x700002e8
    } else if table == ROOT_TABLE && index == 11 {
        0x700002ec
    } else if table == ROOT_TABLE && index == 12 {
        0x700002f4
    } else if table == ROOT_TABLE && index == 13 {
        0x700002d8
    } else if table == ROOT_TABLE && index == 15 {
        0x70000040
    } else if table == DEVICE_TABLE && index == 1 {
        0x70000058
    } else if table == DEVICE_TABLE && index == 2 {
        0x7000005c
    } else if table == DEVICE_TABLE && index == 15 {
        0x70000048
    } else if table == DEVICE_TABLE && index == 36 {
        0x70000044
    } else if table == DEVICE_TABLE && index == 40 {
        0x70000498
    } else if table == DEVICE_TABLE && index == 37 {
        0x700004f0
    } else if table == DEVICE_TABLE && index == 38 {
        0x700004f4
    } else if table == DEVICE_TABLE && index == 50 {
        0x7000049c
    } else if table == DEVICE_TABLE && index == 33 {
        0x700004a0
    } else if table == DEVICE_TABLE && index == 4 {
        0x700004ac
    } else if table == DEVICE_TABLE && index == 61 {
        0x700004d4
    } else if table == DEVICE_TABLE && index == 62 {
        0x700004d8
    } else if table == DEVICE_TABLE && index == 63 {
        0x700004dc
    } else if table == DEVICE_TABLE && index == 64 {
        0x700004e0
    } else if table == DEVICE_TABLE && index == 3 {
        0x700004e4
    } else if table == DEVICE_TABLE && index == 34 {
        0x700004e8
    } else if table == DEVICE_TABLE && index == 35 {
        0x700004ec
    } else if table == DEPTH_SURFACE_TABLE && index == 1 {
        0x700004a4
    } else if table == DEPTH_SURFACE_TABLE && index == 2 {
        0x700004a8
    } else if table == DEVICE_TABLE && index == 20 {
        0x70000400
    } else if table == DEVICE_TABLE && index == 23 {
        0x700004f8
    } else if table == DEVICE_TABLE && index == 24 {
        0x7000050c
    } else if table == DEVICE_TABLE && index == 72 {
        0x70000420
    } else if table == DEVICE_TABLE && index == 71 {
        0x70000534
    } else if table == DEVICE_TABLE && index == 76 {
        0x7000041c
    } else if table == DEVICE_TABLE && index == 88 {
        0x70000520
    } else if table == DEVICE_TABLE && index == 85 {
        0x70000524
    } else if table == DEVICE_TABLE && index == 86 {
        0x70000528
    } else if table == DEVICE_TABLE && index == 83 {
        0x7000052c
    } else if table == DEVICE_TABLE && index == 84 {
        0x70000530
    } else if table == TEXTURE_TABLE && index == 1 {
        0x70000404
    } else if table == TEXTURE_TABLE && index == 2 {
        0x70000408
    } else if table == TEXTURE_TABLE && index == 9 {
        0x700004d0
    } else if table == TEXTURE_TABLE && index == 13 {
        0x7000040c
    } else if table == TEXTURE_TABLE && index == 14 {
        0x70000410
    } else if table == TEXTURE_TABLE && index == 16 {
        0x70000414
    } else if table == TEXTURE_TABLE && index == 17 {
        0x70000418
    } else if table == TEXTURE_TABLE && index == 15 {
        0x700004b8
    } else if table == TEXTURE_SURFACE_TABLE && index == 1 {
        0x700004bc
    } else if table == TEXTURE_SURFACE_TABLE && index == 2 {
        0x700004c0
    } else if table == TEXTURE_SURFACE_TABLE && index == 8 {
        0x700004c4
    } else if table == TEXTURE_SURFACE_TABLE && index == 9 {
        0x700004c8
    } else if table == TEXTURE_SURFACE_TABLE && index == 10 {
        0x700004cc
    } else if table == VERTEX_BUFFER_TABLE && index == 1 {
        0x700004fc
    } else if table == VERTEX_BUFFER_TABLE && index == 2 {
        0x70000500
    } else if table == VERTEX_BUFFER_TABLE && index == 11 {
        0x70000504
    } else if table == VERTEX_BUFFER_TABLE && index == 12 {
        0x70000508
    } else if table == INDEX_BUFFER_TABLE && index == 1 {
        0x70000510
    } else if table == INDEX_BUFFER_TABLE && index == 2 {
        0x70000514
    } else if table == INDEX_BUFFER_TABLE && index == 11 {
        0x70000518
    } else if table == INDEX_BUFFER_TABLE && index == 12 {
        0x7000051c
    } else {
        UNSUPPORTED_METHOD
    }
}

/// The slots in the table at `table`.
pub open spec fn table_size(table: u32) -> int {
    if table == ROOT_TABLE {
        16
    } else if table == DEVICE_TABLE {
        97
    } else if table == DEPTH_SURFACE_TABLE {
        13
    } else if table == TEXTURE_TABLE {
        19
    } else if table == TEXTURE_SURFACE_TABLE {
        13
    } else if table == VERTEX_BUFFER_TABLE || table == INDEX_BUFFER_TABLE {
        14
    } else {
        0
    }
}

/// The table that word `index` of the object page falls in, if any.
pub open spec fn table_of(index: int) -> Option<u32> {
    let address = OBJECT_BASE + 4 * index;
    if ROOT_TABLE <= address < ROOT_TABLE + 4 * 16 {
        Some(ROOT_TABLE)
    } else if DEVICE_TABLE <= address < DEVICE_TABLE + 4 * 97 {
        Some(DEVICE_TABLE)
    } else if TEXTURE_TABLE <= address < TEXTURE_TABLE + 4 * 19 {
        Some(TEXTURE_TABLE)
    } else if DEPTH_SURFACE_TABLE <= address < DEPTH_SURFACE_TABLE + 4 * 13 {
        Some(DEPTH_SURFACE_TABLE)
    } else if TEXTURE_SURFACE_TABLE <= address < TEXTURE_SURFACE_TABLE + 4 * 13 {
        Some(TEXTURE_SURFACE_TABLE)
    } else if VERTEX_BUFFER_TABLE <= address < VERTEX_BUFFER_TABLE + 4 * 14 {
        Some(VERTEX_BUFFER_TABLE)
    } else if INDEX_BUFFER_TABLE <= address < INDEX_BUFFER_TABLE + 4 * 14 {
        Some(INDEX_BUFFER_TABLE)
    } else {
        None
    }
}

/// Word `index` of the object page: each object points at its table, each
/// table slot at its method, and everything else is zero.
pub open spec fn object_word(index: int) -> u32 {
    let address = OBJECT_BASE + 4 * index;
    if address == ROOT {
        ROOT_TABLE
    } else if address == DEVICE {
        DEVICE_TABLE
    } else if address == DEPTH_SURFACE {
        DEPTH_SURFACE_TABLE
    } else {
        match table_of(index) {
            Some(table) => method_slot(table, (address - table) / 4),
            None => 0,
        }
    }
}

/// Word `index` of the object page.
fn object_word_at(index: u32) -> (word: u32)
    requires
        index < 1024,
    ensures
        word == object_word(index as int),
{
    let address = OBJECT_BASE + 4 * index;
    if address == ROOT {
        ROOT_TABLE
    } else if address == DEVICE {
        DEVICE_TABLE
    } else if address == DEPTH_SURFACE {
        DEPTH_SURFACE_TABLE
    } else if ROOT_TABLE <= address && address < ROOT_TABLE + 4 * 16 {
        method_in(ROOT_TABLE, (address - ROOT_TABLE) / 4)
    } else if DEVICE_TABLE <= address && address < DEVICE_TABLE + 4 * 97 {
        method_in(DEVICE_TABLE, (address - DEVICE_TABLE) / 4)
    } else if TEXTURE_TABLE <= address && address < TEXTURE_TABLE + 4 * 19 {
        method_in(TEXTURE_TABLE, (address - TEXTURE_TABLE) / 4)
    } else if DEPTH_SURFACE_TABLE <= address && address < DEPTH_SURFACE_TABLE + 4 * 13 {
        method_in(DEPTH_SURFACE_TABLE, (address - DEPTH_SURFACE_TABLE) / 4)
    } else if TEXTURE_SURFACE_TABLE <= address && address < TEXTURE_SURFACE_TABLE + 4 * 13 {
        method_in(TEXTURE_SURFACE_TABLE, (address - TEXTURE_SURFACE_TABLE) / 4)
    } else if VERTEX_BUFFER_TABLE <= address && address < VERTEX_BUFFER_TABLE + 4 * 14 {
        method_in(VERTEX_BUFFER_TABLE, (address - VERTEX_BUFFER_TABLE) / 4)
    } else if INDEX_BUFFER_TABLE <= address && address < INDEX_BUFFER_TABLE + 4 * 14 {
        method_in(INDEX_BUFFER_TABLE, (address - INDEX_BUFFER_TABLE) / 4)
    } else {
        0
    }
}

/// The object page's words, in order.
pub open spec fn object_image() -> Seq<u32> {
    Seq::new(1024, |index: int| object_word(index))
}

impl Graphics {
    /// Maps the object page with the root, device and depth-surface objects
    /// and the method tables, and leaves it read-only. A page already mapped
    /// there is refused before anything changes.
    pub fn initialize(memory: &mut GuestMemory) -> (outcome: Result<(), MemoryError>)
        requires
            old(memory).wf(),
        ensures
            final(memory).wf(),
            old(memory).map_outcome(OBJECT_BASE as u64, PAGE_SIZE) is Err ==> outcome == old(memory).map_outcome(OBJECT_BASE as u64, PAGE_SIZE) && *final(memory) == *old(memory),
            old(memory).map_outcome(OBJECT_BASE as u64, PAGE_SIZE) is Ok ==> {
                &&& outcome is Ok
                &&& final(memory).pages() == old(memory).pages().insert(
                    (OBJECT_BASE / 4096) as u64,
                    Permissions { read: true, write: false, execute: false },
                )
                &&& forall|i: int|
                    0 <= i < 4096 ==> #[trigger] final(memory).byte(OBJECT_BASE + i) == words_bytes(
                        object_image(),
                    )[i]
            },
    {
        let read_write = Permissions { read: true, write: true, execute: false };
        let read_only = Permissions { read: true, write: false, execute: false };
        memory.map_zeroed(OBJECT_BASE as u64, PAGE_SIZE, read_write)?;
        let ghost page = (OBJECT_BASE / 4096) as u64;
        let ghost mapped = *memory;
        let mut image: Vec<u32> = Vec::new();
        let mut index: u32 = 0;
        while index < 1024
            invariant
                index <= 1024,
                image@.len() == index,
                forall|j: int| 0 <= j < index ==> #[trigger] image@[j] == object_word(j),
            decreases 1024 - index,
        {
            image.push(object_word_at(index));
            index = index + 1;
        }
        assert(image@ =~= object_image());
        proof {
            assert(mapped.pages() =~= old(memory).pages().insert(page, read_write));
            assert forall|a: int| OBJECT_BASE <= a < OBJECT_BASE + 4096 implies #[trigger] page_allows(
                mapped.pages(),
                a,
                Access::Write,
            ) by {
                assert(page_of(a) == page);
            }
            lemma_allowed_covers(mapped.pages(), OBJECT_BASE as int, OBJECT_BASE + 4096, Access::Write);
        }
        match store_words(memory, OBJECT_BASE, image.as_slice()) {
            Ok(()) => {},
            Err(error) => {
                assert(false);
                return Err(error);
            },
        }
        let ghost written = *memory;
        proof {
            lemma_first_page_where(written.pages(), page as int, page + 1, false);
            assert(written.pages().contains_key(page));
        }
        match memory.protect(OBJECT_BASE as u64, PAGE_SIZE, read_only) {
            Ok(()) => {},
            Err(error) => {
                assert(false);
                return Err(error);
            },
        }
        proof {
            assert(memory.pages() =~= old(memory).pages().insert(page, read_only));
            assert forall|i: int| 0 <= i < 4096 implies #[trigger] memory.byte(OBJECT_BASE + i)
                == words_bytes(object_image())[i] by {
                assert(page_of(OBJECT_BASE + i) == page);
                assert(memory.holds(OBJECT_BASE + i));
                assert(written.holds(OBJECT_BASE + i));
            }
        }
        Ok(())
    }
}

/// The driver name, "ring3".
pub open spec fn driver_name() -> Seq<u8> {
    seq![0x72u8, 0x69, 0x6e, 0x67, 0x33, 0x00]
}

/// The adapter description, "Ring3 Virtual Display Adapter".
pub open spec fn adapter_description() -> Seq<u8> {
    seq![
        0x52u8, 0x69, 0x6e, 0x67, 0x33, 0x20, 0x56, 0x69, 0x72, 0x74, 0x75, 0x61, 0x6c, 0x20,
        0x44, 0x69, 0x73, 0x70, 0x6c, 0x61, 0x79, 0x20, 0x41, 0x64, 0x61, 0x70, 0x74, 0x65, 0x72,
        0x00,
    ]
}

/// The adapter identifier record: the driver name at its start and the
/// description at byte 512, zeros elsewhere.
pub open spec fn identifier_record() -> Seq<u8> {
    Seq::new(
        1068,
        |i: int|
            if i < 6 {
                driver_name()[i]
            } else if 512 <= i < 542 {
                adapter_description()[i - 512]
            } else {
                0u8
            },
    )
}

/// The device capability record, as dwords: the device type, windowed
/// rendering, transformed-vertex drawing, the texture filter and raster
/// capabilities, the primitive and index limits and the stream limits.
pub open spec fn caps_record() -> Seq<u32> {
    Seq::new(
        53,
        |i: int|
            if i == 0 {
                1u32
            } else if i == 3 {
                0x0008_0000u32
            } else if i == 7 {
                0x0000_0400u32
            } else if i == 8 {
                2u32
            } else if i == 10 {
                0xffu32
            } else if i == 45 {
                MAX_PRIMITIVES
            } else if i == 47 {
                1u32
            } else if i == 48 {
                MAX_STRIDE
            } else {
                0u32
            },
    )
}

/// The only display mode: 640 by 480, any refresh rate, `D3DFMT_X8R8G8B8`.
pub open spec fn mode_record() -> Seq<u32> {
    seq![640u32, 480, 0, 22]
}

/// Whether a call names the root object, while it is held, and adapter 0.
pub open spec fn adapter_call(graphics: Graphics, arguments: Seq<u32>) -> bool {
    arguments[0] == ROOT && graphics.root_refs != 0 && arguments[1] == 0
}

/// The device parameters that creation accepts, given the window the
/// caller focuses and the desktop's windows.
pub open spec fn accepted_parameters(parameters: Seq<u32>, focus: u32, windows: Windows) -> bool {
    let width = parameters[0];
    let height = parameters[1];
    let count = parameters[3];
    let window = parameters[6];
    let windowed = parameters[7];
    let fullscreen_target = focus == 0 || focus == windows.desktop || window == 0 || window
        == windows.desktop;
    &&& width != 0 && height != 0
    &&& width * height <= MAX_PIXELS
    &&& parameters[2] == 22
    &&& count <= 2
    &&& parameters[4] == 0
    &&& parameters[5] == 1
    &&& usable_window(windows, window)
    &&& !(window == 0 && focus == 0)
    &&& (windowed == 0 || windowed == 1)
    &&& !(windowed == 0 && (width != 640 || height != 480))
    &&& !(windowed == 0 && fullscreen_target)
    &&& ((parameters[8] == 0 && parameters[9] == 0) || (parameters[8] == 1 && parameters[9] == 80))
    &&& parameters[10] == 0 && parameters[11] == 0 && parameters[12] == 0
}

/// The device created from `parameters` on `old`: a cleared render target
/// (and a spare one when two buffers were asked for), a depth buffer when
/// asked for, the whole target as the viewport, and fresh pipeline state.
pub open spec fn created(graphics: Graphics, old: Graphics, parameters: Seq<u32>) -> bool {
    let width = parameters[0];
    let height = parameters[1];
    let depth = parameters[8] == 1;
    &&& graphics.back matches Some(back) && back.width == width && back.height == height
        && cleared_frame(back)
    &&& if parameters[3] == 2 {
        graphics.spare matches Some(spare) && same_frame(spare, back_of(graphics))
    } else {
        graphics.spare is None
    }
    &&& if depth {
        graphics.depth matches Some(values) && values@ == Seq::new(
            (width * height) as nat,
            |i: int| 0xffffu16,
        )
    } else {
        graphics.depth is None
    }
    &&& graphics.root_refs == if old.root_refs == u32::MAX {
        u32::MAX
    } else {
        (old.root_refs + 1) as u32
    }
    &&& graphics.device_refs == 1
    &&& !graphics.scene_open
    &&& graphics.texture_stages@ == seq![0u32, 0, 0, 0, 0, 0, 0, 0]
    &&& graphics.indices is None
    &&& graphics.stream is None
    &&& graphics.color_arg0@ == seq![1u32, 1, 1, 1, 1, 1, 1, 1]
    &&& graphics.depth_surface_refs == 0
    &&& graphics.z_enabled == depth
    &&& graphics.depth_policy == DepthPolicy { write_enabled: true, function: 4 }
    &&& graphics.viewport == Some(Viewport { left: 0, top: 0, right: width, bottom: height })
    &&& graphics.front == old.front
    &&& graphics.transforms@ == old.transforms@
    &&& graphics.textures@ == old.textures@
    &&& graphics.vertex_buffers@ == old.vertex_buffers@
    &&& graphics.index_buffers@ == old.index_buffers@
    &&& graphics.vertex_fvf == old.vertex_fvf
}

/// The render target of `graphics`, where it has one.
pub open spec fn back_of(graphics: Graphics) -> Frame {
    graphics.back->Some_0
}

/// Whether two frames hold the same pixels.
pub open spec fn same_frame(left: Frame, right: Frame) -> bool {
    left.width == right.width && left.height == right.height && left.rgba@ == right.rgba@
}

/// A frame of `width` by `height` opaque black pixels.
fn black_frame(width: u32, height: u32) -> (frame: Frame)
    requires
        width * height <= MAX_PIXELS,
    ensures
        frame.width == width,
        frame.height == height,
        cleared_frame(frame),
{
    assert(width * height <= 0x10_0000);
    let pixels = (width as u64 * height as u64) as usize;
    let total = pixels * 4;
    assert(total == 4 * width * height) by (nonlinear_arith)
        requires
            pixels == width * height,
            total == pixels * 4,
    ;
    let mut rgba: Vec<u8> = Vec::new();
    let mut i: usize = 0;
    while i < total
        invariant
            total == 4 * width * height,
            i <= total,
            rgba@.len() == i,
            forall|j: int| 0 <= j < i ==> #[trigger] rgba@[j] == if j % 4 == 3 {
                255u8
            } else {
                0u8
            },
        decreases total - i,
    {
        rgba.push(if i % 4 == 3 {
            255
        } else {
            0
        });
        i = i + 1;
    }
    Frame { width, height, rgba }
}

/// A copy of `frame`.
fn copy_frame(frame: &Frame) -> (copy: Frame)
    ensures
        same_frame(copy, *frame),
{
    let mut rgba: Vec<u8> = Vec::new();
    let mut i: usize = 0;
    while i < frame.rgba.len()
        invariant
            i <= frame.rgba@.len(),
            rgba@ == frame.rgba@.subrange(0, i as int),
        decreases frame.rgba@.len() - i,
    {
        rgba.push(frame.rgba[i]);
        assert(rgba@ =~= frame.rgba@.subrange(0, i + 1));
        i = i + 1;
    }
    assert(rgba@ =~= frame.rgba@);
    Frame { width: frame.width, height: frame.height, rgba }
}

/// What `adapter_identifier` answers and leaves.
pub open spec fn adapter_identifier_result(
    graphics: Graphics,
    arguments: Seq<u32>,
    new_memory: GuestMemory,
    old_memory: GuestMemory,
    outcome: Result<u32, MemoryError>,
) -> bool {
    &&& (!(adapter_call(graphics, arguments) && (arguments[2] == 0 || arguments[2] == 2))
            ==> outcome == Ok::<u32, MemoryError>(INVALID_CALL) && new_memory == old_memory)
    &&& (adapter_call(graphics, arguments) && (arguments[2] == 0 || arguments[2] == 2)
            ==> stored(
            old_memory,
            new_memory,
            arguments[3] as u64,
            identifier_record(),
            outcome,
        ))
}

/// What `adapter_mode` answers and leaves.
pub open spec fn adapter_mode_result(
    graphics: Graphics,
    arguments: Seq<u32>,
    new_memory: GuestMemory,
    old_memory: GuestMemory,
    outcome: Result<u32, MemoryError>,
) -> bool {
    &&& (!(adapter_call(graphics, arguments) && arguments[2] == 0) ==> outcome == Ok::<
            u32,
            MemoryError,
        >(INVALID_CALL) && new_memory == old_memory)
    &&& (adapter_call(graphics, arguments) && arguments[2] == 0 ==> stored(
            old_memory,
            new_memory,
            arguments[3] as u64,
            words_bytes(mode_record()),
            outcome,
        ))
}

/// What `check_device_type` answers and leaves.
pub open spec fn check_device_type_result(
    graphics: Graphics,
    arguments: Seq<u32>,
    status: u32,
) -> bool {
    &&& (status == if !(adapter_call(graphics, arguments) && 1 <= arguments[2] <= 3) {
            INVALID_CALL
        } else if arguments[2] == 1 && arguments[3] == 22 && arguments[4] == 22 {
            0
        } else {
            NOT_AVAILABLE
        })
}

/// What `check_device_format` answers and leaves.
pub open spec fn check_device_format_result(
    graphics: Graphics,
    arguments: Seq<u32>,
    status: u32,
) -> bool {
    &&& (status == if !(adapter_call(graphics, arguments) && 1 <= arguments[2] <= 3) {
            INVALID_CALL
        } else if arguments[2] == 1 && arguments[3] == 22 && ((arguments[4] == 1
            && arguments[5] == 1 && arguments[6] == 22) || (arguments[4] == 0
            && arguments[5] == 3 && (arguments[6] == 21 || arguments[6] == 22)) || (
        arguments[4] == 2 && arguments[5] == 1 && arguments[6] == 80)) {
            0
        } else {
            NOT_AVAILABLE
        })
}

/// What `check_depth_stencil_match` answers and leaves.
pub open spec fn check_depth_stencil_match_result(
    graphics: Graphics,
    arguments: Seq<u32>,
    status: u32,
) -> bool {
    &&& (status == if !(adapter_call(graphics, arguments) && 1 <= arguments[2] <= 3) {
            INVALID_CALL
        } else if arguments[2] == 1 && arguments[3] == 22 && arguments[4] == 22
            && arguments[5] == 80 {
            0
        } else {
            NOT_AVAILABLE
        })
}

/// What `check_multisample_type` answers and leaves.
pub open spec fn check_multisample_type_result(
    graphics: Graphics,
    arguments: Seq<u32>,
    status: u32,
) -> bool {
    &&& (status == if !(adapter_call(graphics, arguments) && 1 <= arguments[2] <= 3
            && arguments[5] <= 16) {
            INVALID_CALL
        } else if arguments[2] == 1 && arguments[3] == 22 && arguments[5] == 0 {
            0
        } else {
            NOT_AVAILABLE
        })
}

/// What `device_caps` answers and leaves.
pub open spec fn device_caps_result(
    graphics: Graphics,
    arguments: Seq<u32>,
    new_memory: GuestMemory,
    old_memory: GuestMemory,
    outcome: Result<u32, MemoryError>,
) -> bool {
    &&& (!(adapter_call(graphics, arguments) && 1 <= arguments[2] <= 3) ==> outcome == Ok::<
            u32,
            MemoryError,
        >(INVALID_CALL) && new_memory == old_memory)
    &&& (adapter_call(graphics, arguments) && (arguments[2] == 2 || arguments[2] == 3) ==> outcome
            == Ok::<u32, MemoryError>(NOT_AVAILABLE) && new_memory == old_memory)
    &&& (adapter_call(graphics, arguments) && arguments[2] == 1 ==> stored(
            old_memory,
            new_memory,
            arguments[3] as u64,
            words_bytes(caps_record()),
            outcome,
        ))
}

impl Graphics {
    /// `GetAdapterIdentifier(adapter, flags, output)`.
    pub fn adapter_identifier(&self, arguments: &[u32], memory: &mut GuestMemory) -> (outcome: Result<
        u32,
        MemoryError,
    >)
        requires
            old(memory).wf(),
            arguments@.len() == 4,
        ensures
            final(memory).wf(),
            adapter_identifier_result(*self, arguments@, *final(memory), *old(memory), outcome),
    {
        if arguments[0] != ROOT || self.root_refs == 0 || arguments[1] != 0 || !(arguments[2] == 0
            || arguments[2] == 2) {
            return Ok(INVALID_CALL);
        }
        let mut record: Vec<u8> = Vec::new();
        let driver: [u8; 6] = [0x72, 0x69, 0x6e, 0x67, 0x33, 0x00];
        let description: [u8; 30] = [
            0x52, 0x69, 0x6e, 0x67, 0x33, 0x20, 0x56, 0x69, 0x72, 0x74, 0x75, 0x61, 0x6c, 0x20,
            0x44, 0x69, 0x73, 0x70, 0x6c, 0x61, 0x79, 0x20, 0x41, 0x64, 0x61, 0x70, 0x74, 0x65,
            0x72, 0x00,
        ];
        assert(driver@ =~= driver_name());
        assert(description@ =~= adapter_description());
        let mut i: usize = 0;
        while i < 1068
            invariant
                i <= 1068,
                driver@ == driver_name(),
                description@ == adapter_description(),
                record@.len() == i,
                forall|j: int| 0 <= j < i ==> #[trigger] record@[j] == identifier_record()[j],
            decreases 1068 - i,
        {
            let byte = if i < 6 {
                driver[i]
            } else if 512 <= i && i < 542 {
                description[i - 512]
            } else {
                0
            };
            record.push(byte);
            i = i + 1;
        }
        assert(record@ =~= identifier_record());
        match memory.write(arguments[3] as u64, record.as_slice()) {
            Ok(()) => Ok(0),
            Err(error) => Err(error),
        }
    }

    /// `GetDeviceCaps(adapter, device_type, output)`: only the hardware
    /// device type (1) is available.
    pub fn device_caps(&self, arguments: &[u32], memory: &mut GuestMemory) -> (outcome: Result<
        u32,
        MemoryError,
    >)
        requires
            old(memory).wf(),
            arguments@.len() == 4,
        ensures
            final(memory).wf(),
            device_caps_result(*self, arguments@, *final(memory), *old(memory), outcome),
    {
        if arguments[0] != ROOT || self.root_refs == 0 || arguments[1] != 0 || !(1 <= arguments[2]
            && arguments[2] <= 3) {
            return Ok(INVALID_CALL);
        }
        if arguments[2] != 1 {
            return Ok(NOT_AVAILABLE);
        }
        let mut caps: Vec<u32> = Vec::new();
        let mut i: usize = 0;
        while i < 53
            invariant
                i <= 53,
                caps@.len() == i,
                forall|j: int| 0 <= j < i ==> #[trigger] caps@[j] == caps_record()[j],
            decreases 53 - i,
        {
            let word: u32 = if i == 0 {
                1
            } else if i == 3 {
                0x0008_0000
            } else if i == 7 {
                0x0000_0400
            } else if i == 8 {
                2
            } else if i == 10 {
                0xff
            } else if i == 45 {
                MAX_PRIMITIVES
            } else if i == 47 {
                1
            } else if i == 48 {
                MAX_STRIDE
            } else {
                0
            };
            caps.push(word);
            i = i + 1;
        }
        assert(caps@ =~= caps_record());
        match store_words(memory, arguments[3], caps.as_slice()) {
            Ok(()) => Ok(0),
            Err(error) => Err(error),
        }
    }

    /// `EnumAdapterModes(adapter, mode, output)` and, with mode 0,
    /// `GetAdapterDisplayMode`: the one mode.
    pub fn adapter_mode(&self, arguments: &[u32], memory: &mut GuestMemory) -> (outcome: Result<
        u32,
        MemoryError,
    >)
        requires
            old(memory).wf(),
            arguments@.len() == 4,
        ensures
            final(memory).wf(),
            adapter_mode_result(*self, arguments@, *final(memory), *old(memory), outcome),
    {
        if arguments[0] != ROOT || self.root_refs == 0 || arguments[1] != 0 || arguments[2] != 0 {
            return Ok(INVALID_CALL);
        }
        let mode: [u32; 4] = [640, 480, 0, 22];
        assert(mode@ =~= mode_record());
        match store_words(memory, arguments[3], &mode) {
            Ok(()) => Ok(0),
            Err(error) => Err(error),
        }
    }

    /// `CheckDeviceType(adapter, device_type, display, back_buffer, windowed)`.
    pub fn check_device_type(&self, arguments: &[u32]) -> (status: u32)
        requires
            arguments@.len() == 6,
        ensures
            check_device_type_result(*self, arguments@, status),
    {
        if arguments[0] != ROOT || self.root_refs == 0 || arguments[1] != 0 || !(1 <= arguments[2]
            && arguments[2] <= 3) {
            return INVALID_CALL;
        }
        if arguments[2] == 1 && arguments[3] == 22 && arguments[4] == 22 {
            0
        } else {
            NOT_AVAILABLE
        }
    }

    /// `CheckDeviceFormat(adapter, device_type, display, usage, resource,
    /// format)`: the display format as a render target, textures of
    /// `D3DFMT_A8R8G8B8` or `D3DFMT_X8R8G8B8`, and the `D3DFMT_D16` depth
    /// buffer.
    pub fn check_device_format(&self, arguments: &[u32]) -> (status: u32)
        requires
            arguments@.len() == 7,
        ensures
            check_device_format_result(*self, arguments@, status),
    {
        if arguments[0] != ROOT || self.root_refs == 0 || arguments[1] != 0 || !(1 <= arguments[2]
            && arguments[2] <= 3) {
            return INVALID_CALL;
        }
        let target = arguments[4] == 1 && arguments[5] == 1 && arguments[6] == 22;
        let texture = arguments[4] == 0 && arguments[5] == 3 && (arguments[6] == 21 || arguments[6]
            == 22);
        let depth = arguments[4] == 2 && arguments[5] == 1 && arguments[6] == 80;
        if arguments[2] == 1 && arguments[3] == 22 && (target || texture || depth) {
            0
        } else {
            NOT_AVAILABLE
        }
    }

    /// `CheckDepthStencilMatch(adapter, device_type, display, target, depth)`.
    pub fn check_depth_stencil_match(&self, arguments: &[u32]) -> (status: u32)
        requires
            arguments@.len() == 6,
        ensures
            check_depth_stencil_match_result(*self, arguments@, status),
    {
        if arguments[0] != ROOT || self.root_refs == 0 || arguments[1] != 0 || !(1 <= arguments[2]
            && arguments[2] <= 3) {
            return INVALID_CALL;
        }
        if arguments[2] == 1 && arguments[3] == 22 && arguments[4] == 22 && arguments[5] == 80 {
            0
        } else {
            NOT_AVAILABLE
        }
    }

    /// `CheckDeviceMultiSampleType(adapter, device_type, format, windowed,
    /// samples)`: only no multisampling.
    pub fn check_multisample_type(&self, arguments: &[u32]) -> (status: u32)
        requires
            arguments@.len() == 6,
        ensures
            check_multisample_type_result(*self, arguments@, status),
    {
        if arguments[0] != ROOT || self.root_refs == 0 || arguments[1] != 0 || !(1 <= arguments[2]
            && arguments[2] <= 3) || arguments[5] > 16 {
            return INVALID_CALL;
        }
        if arguments[2] == 1 && arguments[3] == 22 && arguments[5] == 0 {
            0
        } else {
            NOT_AVAILABLE
        }
    }
}

/// What `create_device` answers and leaves.
pub open spec fn create_device_result(
    new: Graphics,
    old: Graphics,
    arguments: Seq<u32>,
    new_memory: GuestMemory,
    old_memory: GuestMemory,
    windows: Windows,
    outcome: Result<u32, MemoryError>,
) -> bool {
    &&& (({
            let parameters = words_at(old_memory, arguments[5], 13);
            let address = arguments[5] as u64;
            if !(adapter_call(old, arguments) && arguments[2] == 1 && usable_window(
                windows,
                arguments[3],
            ) && arguments[4] == 0x20) {
                outcome == Ok::<u32, MemoryError>(INVALID_CALL) && new == old
                    && new_memory == old_memory
            } else if old.device_refs != 0 {
                outcome == Ok::<u32, MemoryError>(NOT_AVAILABLE) && new == old
                    && new_memory == old_memory
            } else {
                match old_memory.access(address, 52, Access::Read) {
                    Err(error) => outcome == Err::<u32, MemoryError>(error) && new
                        == old && new_memory == old_memory,
                    Ok(()) => if !accepted_parameters(parameters, arguments[3], windows) {
                        outcome == Ok::<u32, MemoryError>(INVALID_CALL) && new == old && new_memory == old_memory
                    } else {
                        match old_memory.access(address, 52, Access::Write) {
                            Err(error) => outcome == Err::<u32, MemoryError>(error) && new == old && new_memory == old_memory,
                            Ok(()) => match old_memory.access(
                                arguments[6] as u64,
                                4,
                                Access::Write,
                            ) {
                                Err(error) => outcome == Err::<u32, MemoryError>(error)
                                    && new == old && new_memory == old_memory,
                                Ok(()) => {
                                    &&& outcome == Ok::<u32, MemoryError>(0)
                                    &&& created(new, old, parameters)
                                    &&& stored_two(
                                        new_memory,
                                        old_memory,
                                        arguments[5] + 12,
                                        if parameters[3] == 0 {
                                            1
                                        } else {
                                            parameters[3]
                                        },
                                        arguments[6] as int,
                                        DEVICE,
                                    )
                                },
                            },
                        }
                    },
                }
            }
        }))
}

impl Graphics {
    /// `CreateDevice(adapter, device_type, focus, behavior, parameters,
    /// output)`: the hardware device with software vertex processing, once
    /// at a time. Accepted parameters give a cleared render target of the
    /// asked size, and the device is stored at `output`; the parameters get
    /// at least one back buffer.
    pub fn create_device(&mut self, arguments: &[u32], memory: &mut GuestMemory, windows: &Windows) -> (outcome:
        Result<u32, MemoryError>)
        requires
            old(memory).wf(),
            old(self).wf(),
            arguments@.len() == 7,
        ensures
            final(memory).wf(),
            final(self).wf(),
            create_device_result(
                *final(self),
                *old(self),
                arguments@,
                *final(memory),
                *old(memory),
                *windows,
                outcome,
            ),
    {
        let focus = arguments[3];
        let valid_focus = focus == 0 || focus == windows.desktop || windows.is_top_level(focus);
        if arguments[0] != ROOT || self.root_refs == 0 || arguments[1] != 0 || arguments[2] != 1
            || !valid_focus || arguments[4] != 0x20 {
            return Ok(INVALID_CALL);
        }
        if self.device_refs != 0 {
            return Ok(NOT_AVAILABLE);
        }
        let mut parameters = [0u32; 13];
        load_words(memory, arguments[5], &mut parameters)?;
        let width = parameters[0];
        let height = parameters[1];
        let count = parameters[3];
        let window = parameters[6];
        let windowed = parameters[7];
        let enable_depth = parameters[8];
        let window_usable = window == 0 || window == windows.desktop || windows.is_top_level(
            window,
        );
        let fullscreen_target = focus == 0 || focus == windows.desktop || window == 0 || window
            == windows.desktop;
        assert(width as u64 * height as u64 <= 0xffff_fffe_0000_0001) by (nonlinear_arith)
            requires
                width <= 0xffff_ffffu32,
                height <= 0xffff_ffffu32,
        ;
        if width == 0 || height == 0 || width as u64 * height as u64 > MAX_PIXELS || parameters[2]
            != 22 || count > 2 || parameters[4] != 0 || parameters[5] != 1 || !window_usable || (
        window == 0 && focus == 0) || !(windowed == 0 || windowed == 1) || (windowed == 0 && (
        width != 640 || height != 480)) || (windowed == 0 && fullscreen_target) || !((enable_depth
            == 0 && parameters[9] == 0) || (enable_depth == 1 && parameters[9] == 80))
            || parameters[10] != 0 || parameters[11] != 0 || parameters[12] != 0 {
            return Ok(INVALID_CALL);
        }
        let ghost checked = *memory;
        match memory.check_access(arguments[5] as u64, 52, Access::Write) {
            Ok(()) => {},
            Err(error) => return Err(error),
        }
        match memory.check_access(arguments[6] as u64, 4, Access::Write) {
            Ok(()) => {},
            Err(error) => return Err(error),
        }
        let frame = black_frame(width, height);
        let backs = if count == 0 {
            1
        } else {
            count
        };
        proof {
            crate::memory::law_access_within(
                *memory,
                arguments[5] as u64,
                52,
                (arguments[5] + 12) as u64,
                4,
                Access::Write,
            );
        }
        let bytes = super::super::guest::word_bytes(backs);
        match memory.write(arguments[5] as u64 + 12, bytes.as_slice()) {
            Ok(()) => {},
            Err(error) => {
                assert(false);
                return Err(error);
            },
        }
        let ghost first = *memory;
        match store_word(memory, arguments[6], DEVICE) {
            Ok(()) => {},
            Err(error) => {
                assert(false);
                return Err(error);
            },
        }
        proof {
            assert forall|a: int| #[trigger] memory.holds(a) implies memory.byte(a) == if arguments@[6]
                <= a < arguments@[6] + 4 {
                value_bytes(DEVICE, 4)[a - arguments@[6]]
            } else if arguments@[5] + 12 <= a < arguments@[5] + 16 {
                value_bytes(backs, 4)[a - (arguments@[5] + 12)]
            } else {
                checked.byte(a)
            } by {
                assert(first.holds(a));
            }
        }
        self.root_refs = self.root_refs.saturating_add(1);
        self.device_refs = 1;
        self.scene_open = false;
        self.texture_stages = [0; 8];
        self.indices = None;
        self.stream = None;
        self.color_arg0 = [1; 8];
        if enable_depth == 1 {
            let pixels = (width as u64 * height as u64) as usize;
            let mut values: Vec<u16> = Vec::new();
            let mut i: usize = 0;
            while i < pixels
                invariant
                    pixels == width * height,
                    i <= pixels,
                    values@ == Seq::new(i as nat, |j: int| 0xffffu16),
                decreases pixels - i,
            {
                values.push(0xffff);
                i = i + 1;
                assert(values@ =~= Seq::new(i as nat, |j: int| 0xffffu16));
            }
            self.depth = Some(values);
        } else {
            self.depth = None;
        }
        self.depth_surface_refs = 0;
        self.z_enabled = enable_depth == 1;
        self.depth_policy = DepthPolicy::default();
        if count == 2 {
            self.spare = Some(copy_frame(&frame));
        } else {
            self.spare = None;
        }
        self.viewport = Some(Viewport { left: 0, top: 0, right: width, bottom: height });
        self.back = Some(frame);
        assert(self.texture_stages@ =~= seq![0u32, 0, 0, 0, 0, 0, 0, 0]);
        assert(self.color_arg0@ =~= seq![1u32, 1, 1, 1, 1, 1, 1, 1]);
        Ok(0)
    }
}

} // verus!
