//! Texture levels seen from the program: their descriptions, locking their
//! pixels, and the same through a level's surface object.
use super::device::{level_placed, texture_placed, Graphics};
use super::objects::{load_words, store_words, stored, TextureLevel, INVALID_CALL};
use super::references::{surface_identity, texture_changed};
use super::super::guest::{words_at, words_bytes};
use crate::memory::{Access, GuestMemory, MemoryError};
use std::collections::BTreeMap;
use vstd::prelude::*;

verus! {

broadcast use vstd::std_specs::btree::group_btree_axioms;

/// Whether `index` names a level of a texture at `address`.
pub open spec fn level_exists(graphics: Graphics, address: u32, index: int) -> bool {
    graphics.textures@.contains_key(address) && 0 <= index < graphics.textures@[
        address
    ].levels@.len()
}

/// The `D3DSURFACE_DESC` of level `index` of the texture at `address`:
/// format, resource type (a surface), usage, pool, size in bytes,
/// multisample type, width and height.
pub open spec fn level_record(graphics: Graphics, address: u32, index: int) -> Seq<u32> {
    let texture = graphics.textures@[address];
    let level = texture.levels@[index];
    seq![
        texture.format,
        3,
        0,
        texture.pool,
        (level.width * level.height * 4) as u32,
        0,
        level.width,
        level.height,
    ]
}

/// What describing level `index` of the texture at `address` into `output`
/// answers and leaves.
pub open spec fn level_described(
    graphics: Graphics,
    new_memory: GuestMemory,
    old_memory: GuestMemory,
    address: u32,
    index: int,
    output: u32,
    outcome: Result<u32, MemoryError>,
) -> bool {
    if !level_exists(graphics, address, index) {
        outcome == Ok::<u32, MemoryError>(INVALID_CALL) && new_memory == old_memory
    } else {
        stored(
            old_memory,
            new_memory,
            output as u64,
            words_bytes(level_record(graphics, address, index)),
            outcome,
        )
    }
}

/// The top-left corner of the locked part of `level`: the whole level for a
/// null `rect`, else the rectangle `[left, top, right, bottom]` at `rect`,
/// if it is non-empty and inside the level.
pub open spec fn lock_corner(memory: GuestMemory, rect: u32, level: TextureLevel) -> Option<
    (u32, u32),
> {
    if rect == 0 {
        Some((0u32, 0u32))
    } else {
        let r = words_at(memory, rect, 4);
        if r[0] >= r[2] || r[1] >= r[3] || r[2] > level.width || r[3] > level.height {
            None
        } else {
            Some((r[0], r[1]))
        }
    }
}

/// The levels `levels` with level `index` locked or not.
pub open spec fn lock_set(levels: Seq<TextureLevel>, index: int, locked: bool) -> Seq<
    TextureLevel,
> {
    levels.update(index, TextureLevel { locked, ..levels[index] })
}

/// What locking level `index` of the texture at `address` answers and
/// leaves: refused for an unknown level, one already locked, flags other
/// than none or read-only, or a rectangle that is empty or leaves the
/// level; otherwise the pitch and the address of the first locked pixel
/// stored at `output`, and the level locked.
pub open spec fn level_locked(
    new: Graphics,
    old: Graphics,
    new_memory: GuestMemory,
    old_memory: GuestMemory,
    address: u32,
    index: int,
    output: u32,
    rect: u32,
    flags: u32,
    outcome: Result<u32, MemoryError>,
) -> bool {
    let texture = old.textures@[address];
    let level = texture.levels@[index];
    if !level_exists(old, address, index) || level.locked || !(flags == 0 || flags == 0x10) {
        outcome == Ok::<u32, MemoryError>(INVALID_CALL) && new == old && new_memory == old_memory
    } else if rect != 0 && old_memory.access(rect as u64, 16, Access::Read) is Err {
        outcome == Err::<u32, MemoryError>(
            old_memory.access(rect as u64, 16, Access::Read)->Err_0,
        ) && new == old && new_memory == old_memory
    } else {
        match lock_corner(old_memory, rect, level) {
            None => outcome == Ok::<u32, MemoryError>(INVALID_CALL) && new == old && new_memory
                == old_memory,
            Some((left, top)) => {
                let pitch = (level.width * 4) as u32;
                let pixels = (address + level.offset + top * pitch + left * 4) as u32;
                &&& stored(
                    old_memory,
                    new_memory,
                    output as u64,
                    words_bytes(seq![pitch, pixels]),
                    outcome,
                )
                &&& if outcome is Ok {
                    &&& texture_changed(
                        new.textures@,
                        old.textures@,
                        address,
                        texture.refs,
                        lock_set(texture.levels@, index, true),
                    )
                    &&& new == Graphics { textures: new.textures, ..old }
                } else {
                    new == old
                }
            },
        }
    }
}

/// What unlocking level `index` of the texture at `address` answers and
/// leaves: refused for an unknown level or one not locked.
pub open spec fn level_unlocked(
    new: Graphics,
    old: Graphics,
    address: u32,
    index: int,
    status: u32,
) -> bool {
    let texture = old.textures@[address];
    if !level_exists(old, address, index) || !texture.levels@[index].locked {
        status == INVALID_CALL && new == old
    } else {
        &&& status == 0
        &&& texture_changed(
            new.textures@,
            old.textures@,
            address,
            texture.refs,
            lock_set(texture.levels@, index, false),
        )
        &&& new == Graphics { textures: new.textures, ..old }
    }
}

/// What `texture_level_desc` answers and leaves.
pub open spec fn texture_level_desc_result(
    graphics: Graphics,
    arguments: Seq<u32>,
    new_memory: GuestMemory,
    old_memory: GuestMemory,
    outcome: Result<u32, MemoryError>,
) -> bool {
    &&& (level_described(
            graphics,
            new_memory,
            old_memory,
            arguments[0],
            arguments[1] as int,
            arguments[2],
            outcome,
        ))
}

/// What `texture_lock_rect` answers and leaves.
pub open spec fn texture_lock_rect_result(
    new: Graphics,
    old: Graphics,
    arguments: Seq<u32>,
    new_memory: GuestMemory,
    old_memory: GuestMemory,
    outcome: Result<u32, MemoryError>,
) -> bool {
    &&& (level_locked(
            new,
            old,
            new_memory,
            old_memory,
            arguments[0],
            arguments[1] as int,
            arguments[2],
            arguments[3],
            arguments[4],
            outcome,
        ))
}

/// What `texture_unlock_rect` answers and leaves.
pub open spec fn texture_unlock_rect_result(
    new: Graphics,
    old: Graphics,
    arguments: Seq<u32>,
    status: u32,
) -> bool {
    &&& (level_unlocked(new, old, arguments[0], arguments[1] as int, status))
}

impl Graphics {
    /// Sets whether level `index` of the texture at `address` is locked.
    fn set_locked(&mut self, address: u32, index: usize, locked: bool)
        requires
            old(self).wf(),
            level_exists(*old(self), address, index as int),
        ensures
            final(self).wf(),
            texture_changed(
                final(self).textures@,
                old(self).textures@,
                address,
                old(self).textures@[address].refs,
                lock_set(old(self).textures@[address].levels@, index as int, locked),
            ),
            *final(self) == (Graphics { textures: final(self).textures, ..*old(self) }),
    {
        let ghost before = old(self).textures@[address];
        assert(texture_placed(address, before));
        let mut texture = match self.textures.remove(&address) {
            Some(texture) => texture,
            None => return ,
        };
        let level = texture.levels[index];
        texture.levels.set(index, TextureLevel { locked, ..level });
        proof {
            assert forall|i: int| 0 <= i < texture.levels@.len() implies #[trigger] level_placed(
                texture.levels@[i],
                texture.length,
            ) by {
                assert(level_placed(before.levels@[i], before.length));
            }
        }
        self.textures.insert(address, texture);
    }

    /// `GetLevelDesc(level, output)` of the texture `arguments[0]`: its
    /// `D3DSURFACE_DESC`.
    pub fn texture_level_desc(&self, arguments: &[u32], memory: &mut GuestMemory) -> (outcome:
        Result<u32, MemoryError>)
        requires
            self.wf(),
            old(memory).wf(),
            arguments@.len() == 3,
        ensures
            final(memory).wf(),
            texture_level_desc_result(*self, arguments@, *final(memory), *old(memory), outcome),
    {
        let index = arguments[1] as usize;
        let record = match self.textures.get(&arguments[0]) {
            None => return Ok(INVALID_CALL),
            Some(texture) => {
                if index >= texture.levels.len() {
                    return Ok(INVALID_CALL);
                }
                assert(texture_placed(arguments@[0], self.textures@[arguments@[0]]));
                assert(level_placed(texture.levels@[index as int], texture.length));
                let level = texture.levels[index];
                [
                    texture.format,
                    3,
                    0,
                    texture.pool,
                    level.width * level.height * 4,
                    0,
                    level.width,
                    level.height,
                ]
            },
        };
        assert(record@ =~= level_record(*self, arguments@[0], arguments@[1] as int));
        match store_words(memory, arguments[2], &record) {
            Ok(()) => Ok(0),
            Err(error) => Err(error),
        }
    }

    /// `LockRect(level, output, rect, flags)` of the texture
    /// `arguments[0]`: stores a `D3DLOCKED_RECT` at `output`.
    pub fn texture_lock_rect(&mut self, arguments: &[u32], memory: &mut GuestMemory) -> (outcome:
        Result<u32, MemoryError>)
        requires
            old(self).wf(),
            old(memory).wf(),
            arguments@.len() == 5,
        ensures
            final(self).wf(),
            final(memory).wf(),
            texture_lock_rect_result(
                *final(self),
                *old(self),
                arguments@,
                *final(memory),
                *old(memory),
                outcome,
            ),
    {
        let address = arguments[0];
        let index = arguments[1] as usize;
        let (level, length) = match self.textures.get(&address) {
            None => return Ok(INVALID_CALL),
            Some(texture) => {
                if index >= texture.levels.len() {
                    return Ok(INVALID_CALL);
                }
                (texture.levels[index], texture.length)
            },
        };
        if level.locked || !(arguments[4] == 0 || arguments[4] == 0x10) {
            return Ok(INVALID_CALL);
        }
        proof {
            assert(texture_placed(address, old(self).textures@[address]));
            assert(level_placed(old(self).textures@[address].levels@[index as int], length));
        }
        let mut left: u32 = 0;
        let mut top: u32 = 0;
        if arguments[3] != 0 {
            let mut rect = [0u32; 4];
            load_words(memory, arguments[3], &mut rect)?;
            if rect[0] >= rect[2] || rect[1] >= rect[3] || rect[2] > level.width || rect[3]
                > level.height {
                return Ok(INVALID_CALL);
            }
            left = rect[0];
            top = rect[1];
        }
        assert(level.width <= level.width * level.height) by (nonlinear_arith)
            requires
                level.height >= 1,
        ;
        let pitch = level.width * 4;
        assert(top * pitch + left * 4 < 4 * level.width * level.height) by (nonlinear_arith)
            requires
                top < level.height,
                left < level.width,
                pitch == level.width * 4,
        ;
        let pixels = address + level.offset + top * pitch + left * 4;
        let words = [pitch, pixels];
        assert(words@ =~= seq![pitch, pixels]);
        match store_words(memory, arguments[2], &words) {
            Ok(()) => {},
            Err(error) => return Err(error),
        }
        self.set_locked(address, index, true);
        Ok(0)
    }

    /// `UnlockRect(level)` of the texture `arguments[0]`.
    pub fn texture_unlock_rect(&mut self, arguments: &[u32]) -> (status: u32)
        requires
            old(self).wf(),
            arguments@.len() >= 2,
        ensures
            final(self).wf(),
            texture_unlock_rect_result(*final(self), *old(self), arguments@, status),
    {
        let address = arguments[0];
        let index = arguments[1] as usize;
        let locked = match self.textures.get(&address) {
            None => return INVALID_CALL,
            Some(texture) => {
                if index >= texture.levels.len() {
                    return INVALID_CALL;
                }
                texture.levels[index].locked
            },
        };
        if !locked {
            return INVALID_CALL;
        }
        self.set_locked(address, index, false);
        0
    }
}

/// What `texture_surface_desc` answers and leaves.
pub open spec fn texture_surface_desc_result(
    graphics: Graphics,
    arguments: Seq<u32>,
    new_memory: GuestMemory,
    old_memory: GuestMemory,
    outcome: Result<u32, MemoryError>,
) -> bool {
    &&& (match surface_identity(graphics, arguments[0]) {
            None => outcome == Ok::<u32, MemoryError>(INVALID_CALL) && new_memory == old_memory,
            Some((address, index)) => level_described(
                graphics,
                new_memory,
                old_memory,
                address,
                index,
                arguments[1],
                outcome,
            ),
        })
}

/// What `texture_surface_lock_rect` answers and leaves.
pub open spec fn texture_surface_lock_rect_result(
    new: Graphics,
    old: Graphics,
    arguments: Seq<u32>,
    new_memory: GuestMemory,
    old_memory: GuestMemory,
    outcome: Result<u32, MemoryError>,
) -> bool {
    &&& (match surface_identity(old, arguments[0]) {
            None => outcome == Ok::<u32, MemoryError>(INVALID_CALL) && new == old && new_memory == old_memory,
            Some((address, index)) => level_locked(
                new,
                old,
                new_memory,
                old_memory,
                address,
                index,
                arguments[1],
                arguments[2],
                arguments[3],
                outcome,
            ),
        })
}

/// What `texture_surface_unlock_rect` answers and leaves.
pub open spec fn texture_surface_unlock_rect_result(
    new: Graphics,
    old: Graphics,
    surface: u32,
    status: u32,
) -> bool {
    &&& (match surface_identity(old, surface) {
            None => status == INVALID_CALL && new == old,
            Some((address, index)) => level_unlocked(
                new,
                old,
                address,
                index,
                status,
            ),
        })
}

/// What `texture_pre_load` answers and leaves.
pub open spec fn texture_pre_load_result(graphics: Graphics, address: u32, status: u32) -> bool {
    &&& (status == if graphics.textures@.contains_key(address) && graphics.textures@[address].refs
            != 0 {
            0
        } else {
            INVALID_CALL
        })
}

impl Graphics {
    /// `GetDesc(output)` of the surface object `arguments[0]`: the
    /// description of its level.
    pub fn texture_surface_desc(&self, arguments: &[u32], memory: &mut GuestMemory) -> (outcome:
        Result<u32, MemoryError>)
        requires
            self.wf(),
            old(memory).wf(),
            arguments@.len() >= 2,
        ensures
            final(memory).wf(),
            texture_surface_desc_result(*self, arguments@, *final(memory), *old(memory), outcome),
    {
        let (address, index) = match self.texture_surface_identity(arguments[0]) {
            None => return Ok(INVALID_CALL),
            Some(identity) => identity,
        };
        proof {
            assert(texture_placed(address, self.textures@[address]));
        }
        self.texture_level_desc(&[address, index as u32, arguments[1]], memory)
    }

    /// `LockRect(output, rect, flags)` of the surface object
    /// `arguments[0]`: locks its level.
    pub fn texture_surface_lock_rect(&mut self, arguments: &[u32], memory: &mut GuestMemory) -> (outcome:
        Result<u32, MemoryError>)
        requires
            old(self).wf(),
            old(memory).wf(),
            arguments@.len() >= 4,
        ensures
            final(self).wf(),
            final(memory).wf(),
            texture_surface_lock_rect_result(
                *final(self),
                *old(self),
                arguments@,
                *final(memory),
                *old(memory),
                outcome,
            ),
    {
        let (address, index) = match self.texture_surface_identity(arguments[0]) {
            None => return Ok(INVALID_CALL),
            Some(identity) => identity,
        };
        proof {
            assert(texture_placed(address, self.textures@[address]));
        }
        self.texture_lock_rect(&[address, index as u32, arguments[1], arguments[2], arguments[3]], memory)
    }

    /// `UnlockRect()` of the surface object at `surface`: unlocks its level.
    pub fn texture_surface_unlock_rect(&mut self, surface: u32) -> (status: u32)
        requires
            old(self).wf(),
        ensures
            final(self).wf(),
            texture_surface_unlock_rect_result(*final(self), *old(self), surface, status),
    {
        let (address, index) = match self.texture_surface_identity(surface) {
            None => return INVALID_CALL,
            Some(identity) => identity,
        };
        proof {
            assert(texture_placed(address, self.textures@[address]));
        }
        self.texture_unlock_rect(&[address, index as u32])
    }

    /// `PreLoad()` of the texture at `address`: nothing to do for a texture
    /// that holds a reference of its own.
    pub fn texture_pre_load(&self, address: u32) -> (status: u32)
        ensures
            texture_pre_load_result(*self, address, status),
    {
        match self.textures.get(&address) {
            Some(texture) => if texture.refs == 0 {
                INVALID_CALL
            } else {
                0
            },
            None => INVALID_CALL,
        }
    }
}

} // verus!
