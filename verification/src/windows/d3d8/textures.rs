//! Textures: creation with their mip chain, references held by the texture
//! and by its level surfaces, level descriptions and locks, and binding a
//! texture to a stage.
use super::buffers::{dropped_device, object_created};
use super::device::{level_placed, object_length, texture_placed, Graphics};
use super::objects::{
    Texture, TextureLevel, DEVICE, INVALID_CALL, MAX_PIXELS, OUT_OF_VIDEO_MEMORY, TEXTURE_END,
    TEXTURE_START, TEXTURE_SURFACE_TABLE, TEXTURE_TABLE,
};
use super::placement::{first_fit, free_spot, place_object};
use super::state::device_call;
use crate::memory::{Access, GuestMemory, MemoryError};
use std::collections::BTreeMap;
use vstd::arithmetic::power2::{
    lemma_pow2_pos, lemma_pow2_strictly_increases, lemma_pow2_unfold, pow2,
};
use vstd::prelude::*;

verus! {

broadcast use vstd::std_specs::btree::group_btree_axioms;

/// The next smaller mip dimension, for a dimension of at least 1.
pub open spec fn halved(size: u32) -> u32 {
    if size < 2 {
        size
    } else {
        size / 2
    }
}

/// The mip levels from a `width` by `height` level on, the first at
/// `offset`, each halving the one before (never below 1) until a 1 by 1
/// level, or until `requested` levels (when not 0) have been made, `made`
/// being those made so far.
pub open spec fn mip_chain(width: u32, height: u32, requested: u32, made: int, offset: int) -> Seq<
    TextureLevel,
>
    decreases width + height,
{
    let level = TextureLevel {
        width,
        height,
        offset: offset as u32,
        locked: false,
        surface_refs: 0,
    };
    if (requested != 0 && made + 1 == requested) || (width <= 1 && height <= 1) {
        seq![level]
    } else {
        proof {
            assert(halved(width) + halved(height) < width + height);
        }
        seq![level] + mip_chain(halved(width), halved(height), requested, made + 1, offset + 4 * width * height)
    }
}

/// The pixel bytes of the mip levels from a `width` by `height` level on.
pub open spec fn chain_bytes(width: u32, height: u32, requested: u32, made: int) -> int
    decreases width + height,
{
    if (requested != 0 && made + 1 == requested) || (width <= 1 && height <= 1) {
        4 * width * height
    } else {
        proof {
            assert(halved(width) + halved(height) < width + height);
        }
        4 * width * height + chain_bytes(halved(width), halved(height), requested, made + 1)
    }
}

/// The header words of a texture with `levels` levels: its method table
/// and, for each level, the surface method table.
pub open spec fn texture_header(levels: int) -> Seq<u32> {
    Seq::new((levels + 1) as nat, |i: int| if i == 0 { TEXTURE_TABLE } else { TEXTURE_SURFACE_TABLE })
}

/// Whether a texture request is acceptable before its chain is built.
pub open spec fn texture_request(graphics: Graphics, arguments: Seq<u32>) -> bool {
    &&& device_call(graphics, arguments[0])
    &&& arguments[1] != 0 && arguments[2] != 0
    &&& arguments[1] * arguments[2] <= MAX_PIXELS
    &&& arguments[4] == 0
    &&& (arguments[5] == 21 || arguments[5] == 22)
    &&& arguments[6] <= 2
}

/// What `create_texture` answers and leaves.
pub open spec fn create_texture_result(
    new: Graphics,
    old: Graphics,
    arguments: Seq<u32>,
    new_memory: GuestMemory,
    old_memory: GuestMemory,
    outcome: Result<u32, MemoryError>,
) -> bool {
    &&& (({
            let levels = mip_chain(arguments[1], arguments[2], arguments[3], 0, 4096);
            if !texture_request(old, arguments) || (arguments[3] != 0 && levels.len()
                != arguments[3]) {
                outcome == Ok::<u32, MemoryError>(INVALID_CALL) && new == old
                    && new_memory == old_memory
            } else {
                match old_memory.access(arguments[7] as u64, 4, Access::Write) {
                    Err(error) => outcome == Err::<u32, MemoryError>(error) && new
                        == old && new_memory == old_memory,
                    Ok(()) => object_created(
                        new,
                        old,
                        new_memory,
                        old_memory,
                        object_length(chain_bytes(arguments[1], arguments[2], arguments[3], 0)),
                        texture_header(levels.len() as int),
                        arguments[7],
                        outcome,
                        |address: u32|
                            new.textures@.dom() == old.textures@.dom().insert(
                                address,
                            ) && new.textures@[address].refs == 1
                                && new.textures@[address].length == object_length(
                                chain_bytes(arguments[1], arguments[2], arguments[3], 0),
                            ) && new.textures@[address].format == arguments[5]
                                && new.textures@[address].pool == arguments[6]
                                && new.textures@[address].levels@ == levels
                                && (forall|other: u32|
                                other != address && old.textures@.contains_key(other)
                                    ==> #[trigger] new.textures@[other] == old.textures@[other]) && new == (Graphics {
                                textures: new.textures,
                                device_refs: new.device_refs,
                                ..old
                            }),
                    ),
                }
            }
        }))
}

impl Graphics {
    /// `CreateTexture(width, height, levels, usage, format, pool, output)`:
    /// a texture with its mip chain (all levels down to 1 by 1 when `levels`
    /// is 0), refused when the chain cannot have the asked number of levels.
    pub fn create_texture(&mut self, arguments: &[u32], memory: &mut GuestMemory) -> (outcome: Result<
        u32,
        MemoryError,
    >)
        requires
            old(self).wf(),
            old(memory).wf(),
            arguments@.len() == 8,
        ensures
            final(self).wf(),
            final(memory).wf(),
            create_texture_result(
                *final(self),
                *old(self),
                arguments@,
                *final(memory),
                *old(memory),
                outcome,
            ),
    {
        let width = arguments[1];
        let height = arguments[2];
        let requested = arguments[3];
        assert(width as u64 * height as u64 <= 0xffff_fffe_0000_0001) by (nonlinear_arith)
            requires
                width <= 0xffff_ffffu32,
                height <= 0xffff_ffffu32,
        ;
        if arguments[0] != DEVICE || self.device_refs == 0 || width == 0 || height == 0 || width
            as u64 * height as u64 > MAX_PIXELS || arguments[4] != 0 || !(arguments[5] == 21
            || arguments[5] == 22) || arguments[6] > 2 {
            return Ok(INVALID_CALL);
        }
        assert(width <= MAX_PIXELS && height <= MAX_PIXELS) by (nonlinear_arith)
            requires
                width >= 1,
                height >= 1,
                width * height <= MAX_PIXELS,
        ;
        let mut levels: Vec<TextureLevel> = Vec::new();
        let mut level_width = width;
        let mut level_height = height;
        let mut pixel_bytes: u64 = 0;
        let ghost mut scale: int = 1;
        proof {
            vstd::arithmetic::power2::lemma2_to64();
        }
        loop
            invariant_except_break
                1 <= level_width <= width,
                1 <= level_height <= height,
                width * height <= MAX_PIXELS,
                width <= MAX_PIXELS,
                height <= MAX_PIXELS,
                levels@.len() <= 20,
                scale == pow2(levels@.len() as nat),
                level_width == 1 || level_width * scale <= width,
                level_height == 1 || level_height * scale <= height,
                pixel_bytes <= levels@.len() * 4 * MAX_PIXELS,
                requested == 0 || levels@.len() < requested,
                levels@ + mip_chain(
                    level_width,
                    level_height,
                    requested,
                    levels@.len() as int,
                    4096 + pixel_bytes,
                ) == mip_chain(width, height, requested, 0, 4096),
                pixel_bytes + chain_bytes(level_width, level_height, requested, levels@.len() as int)
                    == chain_bytes(width, height, requested, 0),
                forall|i: int|
                    0 <= i < levels@.len() ==> #[trigger] level_placed(
                        levels@[i],
                        (4096 + pixel_bytes) as u64,
                    ),
            ensures
                1 <= levels@.len() <= 21,
                levels@ == mip_chain(width, height, requested, 0, 4096),
                pixel_bytes == chain_bytes(width, height, requested, 0),
                pixel_bytes <= 21 * 4 * MAX_PIXELS,
                forall|i: int|
                    0 <= i < levels@.len() ==> #[trigger] level_placed(
                        levels@[i],
                        (4096 + pixel_bytes) as u64,
                    ),
            decreases level_width + level_height,
        {
            assert(level_width * level_height <= MAX_PIXELS) by (nonlinear_arith)
                requires
                    1 <= level_width <= width,
                    1 <= level_height <= height,
                    width * height <= MAX_PIXELS,
            ;
            let level = TextureLevel {
                width: level_width,
                height: level_height,
                offset: (4096 + pixel_bytes) as u32,
                locked: false,
                surface_refs: 0,
            };
            let ghost before = levels@;
            let ghost before_bytes = pixel_bytes;
            proof {
                vstd::arithmetic::power2::lemma2_to64();
                lemma_pow2_pos(before.len());
                assert(before_bytes <= 20 * 4 * MAX_PIXELS) by (nonlinear_arith)
                    requires
                        before_bytes <= before.len() * 4 * MAX_PIXELS,
                        before.len() <= 20,
                ;
            }
            levels.push(level);
            let bytes = level_width as u64 * level_height as u64 * 4;
            assert(bytes == 4 * level_width * level_height) by (nonlinear_arith)
                requires
                    bytes == level_width * level_height * 4,
            ;
            pixel_bytes = pixel_bytes + bytes;
            proof {
                assert forall|i: int| 0 <= i < levels@.len() implies #[trigger] level_placed(
                    levels@[i],
                    (4096 + pixel_bytes) as u64,
                ) by {
                    if i < before.len() {
                        assert(level_placed(before[i], (4096 + before_bytes) as u64));
                    }
                }
            }
            if (requested != 0 && levels.len() == requested as usize) || (level_width == 1
                && level_height == 1) {
                proof {
                    assert(chain_bytes(level_width, level_height, requested, before.len() as int)
                        == 4 * level_width * level_height);
                    assert(mip_chain(
                        level_width,
                        level_height,
                        requested,
                        before.len() as int,
                        4096 + before_bytes,
                    ) == seq![level]);
                    assert(levels@ =~= before + seq![level]);
                    assert(pixel_bytes <= 21 * 4 * MAX_PIXELS);
                }
                break;
            }
            proof {
                if level_width >= 2 {
                    assert(2 * scale <= MAX_PIXELS) by (nonlinear_arith)
                        requires
                            level_width >= 2,
                            level_width * scale <= width,
                            width <= MAX_PIXELS,
                            scale >= 1,
                    ;
                } else {
                    assert(level_height >= 2);
                    assert(2 * scale <= MAX_PIXELS) by (nonlinear_arith)
                        requires
                            level_height >= 2,
                            level_height * scale <= height,
                            height <= MAX_PIXELS,
                            scale >= 1,
                    ;
                }
                if before.len() >= 20 {
                    lemma_pow2_strictly_increases(19, before.len() as nat);
                }
                assert(before.len() <= 19);
                assert(chain_bytes(level_width, level_height, requested, before.len() as int)
                    == 4 * level_width * level_height + chain_bytes(
                    halved(level_width),
                    halved(level_height),
                    requested,
                    before.len() + 1int,
                ));
                assert(pixel_bytes <= levels@.len() * 4 * MAX_PIXELS) by (nonlinear_arith)
                    requires
                        pixel_bytes == before_bytes + 4 * level_width * level_height,
                        before_bytes <= before.len() * 4 * MAX_PIXELS,
                        level_width * level_height <= MAX_PIXELS,
                        levels@.len() == before.len() + 1,
                ;
                assert(mip_chain(
                    level_width,
                    level_height,
                    requested,
                    before.len() as int,
                    4096 + before_bytes,
                ) == seq![level] + mip_chain(
                    halved(level_width),
                    halved(level_height),
                    requested,
                    before.len() + 1int,
                    4096 + before_bytes + 4 * level_width * level_height,
                ));
                assert(levels@ + mip_chain(
                    halved(level_width),
                    halved(level_height),
                    requested,
                    before.len() + 1int,
                    4096 + pixel_bytes,
                ) =~= before + mip_chain(
                    level_width,
                    level_height,
                    requested,
                    before.len() as int,
                    4096 + before_bytes,
                ));
            }
            let next_width = if level_width / 2 == 0 {
                1
            } else {
                level_width / 2
            };
            let next_height = if level_height / 2 == 0 {
                1
            } else {
                level_height / 2
            };
            proof {
                if next_width != 1 {
                    assert(next_width * (scale * 2) <= width) by (nonlinear_arith)
                        requires
                            next_width == level_width / 2,
                            level_width * scale <= width,
                            scale >= 1,
                    ;
                }
                if next_height != 1 {
                    assert(next_height * (scale * 2) <= height) by (nonlinear_arith)
                        requires
                            next_height == level_height / 2,
                            level_height * scale <= height,
                            scale >= 1,
                    ;
                }
                lemma_pow2_unfold(levels@.len() as nat);
                scale = scale * 2;
            }
            level_width = next_width;
            level_height = next_height;
        }
        if requested != 0 && levels.len() != requested as usize {
            return Ok(INVALID_CALL);
        }
        let output = arguments[7];
        memory.check_access(output as u64, 4, Access::Write)?;
        let length = 4096 + (pixel_bytes + 4095) / 4096 * 4096;
        let mut header: Vec<u32> = Vec::new();
        header.push(TEXTURE_TABLE);
        let mut index: usize = 0;
        while index < levels.len()
            invariant
                index <= levels@.len(),
                levels@.len() <= 21,
                header@ == texture_header(index as int),
            decreases levels@.len() - index,
        {
            header.push(TEXTURE_SURFACE_TABLE);
            index = index + 1;
            assert(header@ =~= texture_header(index as int));
        }
        let address = match place_object(memory, length, header.as_slice(), output)? {
            Some(address) => address,
            None => return Ok(OUT_OF_VIDEO_MEMORY),
        };
        proof {
            assert((pixel_bytes + 4095) / 4096 * 4096 >= pixel_bytes) by (nonlinear_arith)
                requires
                    pixel_bytes >= 0,
            ;
            assert forall|i: int| 0 <= i < levels@.len() implies #[trigger] level_placed(
                levels@[i],
                length,
            ) by {
                assert(level_placed(levels@[i], (4096 + pixel_bytes) as u64));
            }
        }
        self.textures.insert(
            address,
            Texture { refs: 1, length, format: arguments[5], pool: arguments[6], levels },
        );
        self.device_refs = self.device_refs.saturating_add(1);
        Ok(0)
    }
}

} // verus!
