//! Texture references: those the texture holds itself and those held
//! through the surfaces of its levels; the last one given back unmaps the
//! texture and returns the device reference it held.
use super::buffers::dropped_device;
use super::device::{texture_placed, Graphics};
use super::objects::{total_refs, store_word, Texture, TextureLevel, INVALID_CALL};
use crate::cpu::operands::value_bytes;
use crate::memory::{Access, GuestMemory, MemoryError};
use std::collections::BTreeMap;
use vstd::prelude::*;

verus! {

broadcast use vstd::std_specs::btree::group_btree_axioms;

/// `new` is the texture map `old` with the texture at `address` now holding
/// `refs` references of its own and the levels `levels`, all else kept.
pub open spec fn texture_changed(
    new: Map<u32, Texture>,
    old: Map<u32, Texture>,
    address: u32,
    refs: u32,
    levels: Seq<TextureLevel>,
) -> bool {
    &&& new.dom() == old.dom()
    &&& new[address].refs == refs
    &&& new[address].length == old[address].length
    &&& new[address].format == old[address].format
    &&& new[address].pool == old[address].pool
    &&& new[address].levels@ == levels
    &&& forall|other: u32|
        other != address && #[trigger] old.contains_key(other) ==> new[other] == old[other]
}

/// The references to the texture at `address`, its own and its surfaces'.
pub open spec fn texture_total(graphics: Graphics, address: u32) -> u32 {
    total_refs(graphics.textures@[address].refs, graphics.textures@[address].levels@)
}

/// What dropping the texture at `address` answers and leaves: the texture
/// unmapped and forgotten and the device reference it held given back, or
/// the fault of the unmapping and no change.
pub open spec fn texture_dropped(
    new: Graphics,
    old: Graphics,
    new_memory: GuestMemory,
    old_memory: GuestMemory,
    address: u32,
    outcome: Result<u32, MemoryError>,
) -> bool {
    let texture = old.textures@[address];
    match old_memory.mapped_outcome(address as u64, texture.length) {
        Err(error) => outcome == Err::<u32, MemoryError>(error) && new == old && new_memory
            == old_memory,
        Ok(()) => {
            &&& outcome == Ok::<u32, MemoryError>(0)
            &&& new_memory.wf()
            &&& new_memory.unmapped(
                old_memory,
                address as int / 4096,
                (address + texture.length) / 4096,
            )
            &&& new.textures@ == old.textures@.remove(address)
            &&& dropped_device(new, Graphics { textures: new.textures, ..old })
        },
    }
}

/// What releasing the texture at `address` answers and leaves: refused
/// for an unknown texture or one that holds no reference of its own; one
/// reference fewer while others remain, answering how many; otherwise the
/// texture dropped.
pub open spec fn texture_released(
    new: Graphics,
    old: Graphics,
    new_memory: GuestMemory,
    old_memory: GuestMemory,
    address: u32,
    outcome: Result<u32, MemoryError>,
) -> bool {
    if !old.textures@.contains_key(address) || old.textures@[address].refs == 0 {
        outcome == Ok::<u32, MemoryError>(INVALID_CALL) && new == old && new_memory == old_memory
    } else {
        let texture = old.textures@[address];
        if texture_total(old, address) > 1 {
            &&& outcome == Ok::<u32, MemoryError>(
                total_refs((texture.refs - 1) as u32, texture.levels@),
            )
            &&& new_memory == old_memory
            &&& texture_changed(
                new.textures@,
                old.textures@,
                address,
                (texture.refs - 1) as u32,
                texture.levels@,
            )
            &&& new == Graphics { textures: new.textures, ..old }
        } else {
            texture_dropped(new, old, new_memory, old_memory, address, outcome)
        }
    }
}

/// Whether releasing the texture at `address` would give back a device
/// reference that is not there.
pub open spec fn texture_release_unbacked(graphics: Graphics, address: u32) -> bool {
    &&& graphics.textures@.contains_key(address)
    &&& graphics.textures@[address].refs != 0
    &&& texture_total(graphics, address) <= 1
    &&& graphics.device_refs == 0
}

/// What a successful release of the texture at `address` answers.
pub open spec fn texture_release_status(graphics: Graphics, address: u32) -> u32 {
    if !graphics.textures@.contains_key(address) || graphics.textures@[address].refs == 0 {
        INVALID_CALL
    } else if texture_total(graphics, address) > 1 {
        total_refs(
            (graphics.textures@[address].refs - 1) as u32,
            graphics.textures@[address].levels@,
        )
    } else {
        0
    }
}

/// What `texture_level_count` answers and leaves.
pub open spec fn texture_level_count_result(graphics: Graphics, address: u32, count: u32) -> bool {
    &&& (count == if graphics.textures@.contains_key(address) {
            graphics.textures@[address].levels@.len() as u32
        } else {
            INVALID_CALL
        })
}

/// What `texture_add_ref` answers and leaves.
pub open spec fn texture_add_ref_result(
    new: Graphics,
    old: Graphics,
    address: u32,
    count: u32,
) -> bool {
    &&& (if !old.textures@.contains_key(address) || old.textures@[address].refs
            == 0 {
            count == INVALID_CALL && new == old
        } else {
            let texture = old.textures@[address];
            let refs = if texture.refs == u32::MAX {
                u32::MAX
            } else {
                (texture.refs + 1) as u32
            };
            &&& count == total_refs(refs, texture.levels@)
            &&& texture_changed(
                new.textures@,
                old.textures@,
                address,
                refs,
                texture.levels@,
            )
            &&& new == (Graphics { textures: new.textures, ..old })
        })
}

impl Graphics {
    /// Puts `texture` back at `address`, where `before` was taken from.
    fn put_texture(&mut self, address: u32, texture: Texture, Ghost(before): Ghost<Texture>)
        requires
            old(self).wf(),
            !old(self).textures@.contains_key(address),
            texture_placed(address, before),
            texture.length == before.length,
            texture.levels@.len() == before.levels@.len(),
            forall|index: int|
                0 <= index < texture.levels@.len() ==> {
                    &&& #[trigger] texture.levels@[index].width == before.levels@[index].width
                    &&& texture.levels@[index].height == before.levels@[index].height
                    &&& texture.levels@[index].offset == before.levels@[index].offset
                },
        ensures
            final(self).wf(),
            final(self).textures@ == old(self).textures@.insert(address, texture),
            *final(self) == (Graphics { textures: final(self).textures, ..*old(self) }),
    {
        proof {
            assert forall|index: int| 0 <= index < texture.levels@.len() implies #[trigger]
                super::device::level_placed(texture.levels@[index], texture.length) by {
                assert(super::device::level_placed(before.levels@[index], before.length));
            }
        }
        self.textures.insert(address, texture);
    }

    /// Forgets the texture at `address`, unmaps it and gives back the
    /// device reference it held.
    fn drop_texture(&mut self, address: u32, length: u64, memory: &mut GuestMemory) -> (outcome:
        Result<u32, MemoryError>)
        requires
            old(self).wf(),
            old(memory).wf(),
            old(self).textures@.contains_key(address),
            length == old(self).textures@[address].length,
            old(self).device_refs > 0,
        ensures
            final(self).wf(),
            final(memory).wf(),
            texture_dropped(*final(self), *old(self), *final(memory), *old(memory), address, outcome),
    {
        memory.unmap(address as u64, length)?;
        self.textures.remove(&address);
        self.device_refs = self.device_refs - 1;
        if self.device_refs == 0 {
            self.finish_device();
        }
        Ok(0)
    }

    /// `Release` of the texture at `address`.
    pub fn texture_release(&mut self, address: u32, memory: &mut GuestMemory) -> (outcome: Result<
        u32,
        MemoryError,
    >)
        requires
            old(self).wf(),
            old(memory).wf(),
            !texture_release_unbacked(*old(self), address),
        ensures
            final(self).wf(),
            final(memory).wf(),
            texture_released(*final(self), *old(self), *final(memory), *old(memory), address, outcome),
    {
        let (refs, total, length) = match self.textures.get(&address) {
            Some(texture) => (texture.refs, texture.total_refs(), texture.length),
            None => return Ok(INVALID_CALL),
        };
        if refs == 0 {
            return Ok(INVALID_CALL);
        }
        if total > 1 {
            let mut texture = match self.textures.remove(&address) {
                Some(texture) => texture,
                None => return Ok(INVALID_CALL),
            };
            texture.refs = refs - 1;
            let count = texture.total_refs();
            proof {
                assert(old(self).textures@.remove(address).insert(address, texture)
                    =~= old(self).textures@.insert(address, texture));
            }
            let ghost before = old(self).textures@[address];
            assert(texture_placed(address, before));
            self.put_texture(address, texture, Ghost(before));
            return Ok(count);
        }
        self.drop_texture(address, length, memory)
    }

    /// `AddRef` of the texture at `address`: the references to it, its own
    /// and its surfaces'.
    pub fn texture_add_ref(&mut self, address: u32) -> (count: u32)
        requires
            old(self).wf(),
        ensures
            final(self).wf(),
            texture_add_ref_result(*final(self), *old(self), address, count),
    {
        let refs = match self.textures.get(&address) {
            Some(texture) => texture.refs,
            None => return INVALID_CALL,
        };
        if refs == 0 {
            return INVALID_CALL;
        }
        let mut texture = match self.textures.remove(&address) {
            Some(texture) => texture,
            None => return INVALID_CALL,
        };
        texture.refs = refs.saturating_add(1);
        let count = texture.total_refs();
        proof {
            assert(old(self).textures@.remove(address).insert(address, texture)
                =~= old(self).textures@.insert(address, texture));
        }
        let ghost before = old(self).textures@[address];
        assert(texture_placed(address, before));
        self.put_texture(address, texture, Ghost(before));
        count
    }

    /// `GetLevelCount` of the texture at `address`.
    pub fn texture_level_count(&self, address: u32) -> (count: u32)
        requires
            self.wf(),
        ensures
            texture_level_count_result(*self, address, count),
    {
        match self.textures.get(&address) {
            Some(texture) => {
                assert(texture_placed(address, self.textures@[address]));
                texture.levels.len() as u32
            },
            None => INVALID_CALL,
        }
    }
}

/// The texture and level that the surface object at `surface` stands for:
/// surfaces sit in the texture's header page, a dword each after the
/// texture's own, and only a surface that was handed out (and still holds a
/// reference) is one.
pub open spec fn surface_identity(graphics: Graphics, surface: u32) -> Option<(u32, int)> {
    let address = (surface - surface % 4096) as u32;
    if surface < address + 4 || (surface - address - 4) % 4 != 0 {
        None
    } else {
        let index = (surface - address - 4) / 4;
        if graphics.textures@.contains_key(address) && index < graphics.textures@[
            address
        ].levels@.len() && graphics.textures@[address].levels@[index].surface_refs != 0 {
            Some((address, index))
        } else {
            None
        }
    }
}

/// The levels `levels` with the surface references of level `index` set to
/// `refs`.
pub open spec fn surface_refs_set(levels: Seq<TextureLevel>, index: int, refs: u32) -> Seq<
    TextureLevel,
> {
    levels.update(index, TextureLevel { surface_refs: refs, ..levels[index] })
}

/// Whether releasing the surface at `surface` would drop its texture and
/// give back a device reference that is not there.
pub open spec fn surface_release_unbacked(graphics: Graphics, surface: u32) -> bool {
    &&& surface_identity(graphics, surface) matches Some((address, _))
    &&& texture_total(graphics, address) == 1
    &&& graphics.device_refs == 0
}

/// What `texture_get_surface` answers and leaves.
pub open spec fn texture_get_surface_result(
    new: Graphics,
    old: Graphics,
    arguments: Seq<u32>,
    new_memory: GuestMemory,
    old_memory: GuestMemory,
    outcome: Result<u32, MemoryError>,
) -> bool {
    &&& (({
            let address = arguments[0];
            let index = arguments[1] as int;
            let texture = old.textures@[address];
            if !old.textures@.contains_key(address) || texture.refs == 0 || texture_total(
                old,
                address,
            ) == u32::MAX || index >= texture.levels@.len() || texture.levels@[index].surface_refs
                == u32::MAX {
                outcome == Ok::<u32, MemoryError>(INVALID_CALL) && new == old
                    && new_memory == old_memory
            } else {
                match old_memory.access(arguments[2] as u64, 4, Access::Write) {
                    Err(error) => outcome == Err::<u32, MemoryError>(error) && new
                        == old && new_memory == old_memory,
                    Ok(()) => {
                        &&& outcome == Ok::<u32, MemoryError>(0)
                        &&& new_memory.wrote(
                            old_memory,
                            arguments[2] as int,
                            value_bytes((address + 4 + 4 * index) as u32, 4),
                        )
                        &&& texture_changed(
                            new.textures@,
                            old.textures@,
                            address,
                            texture.refs,
                            surface_refs_set(
                                texture.levels@,
                                index,
                                (texture.levels@[index].surface_refs + 1) as u32,
                            ),
                        )
                        &&& new == (Graphics {
                            textures: new.textures,
                            ..old
                        })
                    },
                }
            }
        }))
}

impl Graphics {
    /// `GetSurfaceLevel(texture, level, output)`: stores the level's surface
    /// object at `output` and counts a reference held through it.
    pub fn texture_get_surface(&mut self, arguments: &[u32], memory: &mut GuestMemory) -> (outcome:
        Result<u32, MemoryError>)
        requires
            old(self).wf(),
            old(memory).wf(),
            arguments@.len() == 3,
        ensures
            final(self).wf(),
            final(memory).wf(),
            texture_get_surface_result(
                *final(self),
                *old(self),
                arguments@,
                *final(memory),
                *old(memory),
                outcome,
            ),
    {
        let address = arguments[0];
        let index = arguments[1] as usize;
        let level = match self.textures.get(&address) {
            None => return Ok(INVALID_CALL),
            Some(texture) => {
                if texture.refs == 0 || texture.total_refs() == u32::MAX || index
                    >= texture.levels.len() {
                    return Ok(INVALID_CALL);
                }
                texture.levels[index]
            },
        };
        if level.surface_refs == u32::MAX {
            return Ok(INVALID_CALL);
        }
        let ghost before = old(self).textures@[address];
        assert(texture_placed(address, before));
        let surface = address + 4 + 4 * arguments[1];
        store_word(memory, arguments[2], surface)?;
        let mut texture = match self.textures.remove(&address) {
            Some(texture) => texture,
            None => return Ok(INVALID_CALL),
        };
        texture.levels.set(index, TextureLevel { surface_refs: level.surface_refs + 1, ..level });
        proof {
            assert(old(self).textures@.remove(address).insert(address, texture)
                =~= old(self).textures@.insert(address, texture));
        }
        self.put_texture(address, texture, Ghost(before));
        Ok(0)
    }

    /// The texture and level that the surface object at `surface` stands
    /// for, if it is one.
    pub fn texture_surface_identity(&self, surface: u32) -> (identity: Option<(u32, usize)>)
        requires
            self.wf(),
        ensures
            identity matches Some((address, index)) ==> surface_identity(*self, surface) == Some(
                (address, index as int),
            ),
            identity is None ==> surface_identity(*self, surface) is None,
    {
        let address = surface & !4095u32;
        assert(address == surface - surface % 4096) by (bit_vector)
            requires
                address == surface & !4095u32,
        ;
        if surface < address + 4 {
            return None;
        }
        let offset = surface - (address + 4);
        if offset % 4 != 0 {
            return None;
        }
        let index = (offset / 4) as usize;
        match self.textures.get(&address) {
            None => None,
            Some(texture) => {
                if index < texture.levels.len() && texture.levels[index].surface_refs != 0 {
                    Some((address, index))
                } else {
                    None
                }
            },
        }
    }
}

/// What `AddRef` (when `add` holds) or `Release` of the surface at
/// `surface` answers and leaves: refused for what is no handed-out surface
/// or, adding, when the texture's count is full; otherwise the surface's
/// count after the change, and the texture dropped when its last reference
/// goes.
pub open spec fn surface_referenced(
    new: Graphics,
    old: Graphics,
    new_memory: GuestMemory,
    old_memory: GuestMemory,
    add: bool,
    surface: u32,
    outcome: Result<u32, MemoryError>,
) -> bool {
    match surface_identity(old, surface) {
        None => outcome == Ok::<u32, MemoryError>(INVALID_CALL) && new == old && new_memory
            == old_memory,
        Some((address, index)) => {
            let texture = old.textures@[address];
            let level = texture.levels@[index];
            if add && texture_total(old, address) == u32::MAX {
                outcome == Ok::<u32, MemoryError>(INVALID_CALL) && new == old && new_memory
                    == old_memory
            } else if !add && texture_total(old, address) == 1 {
                texture_dropped(new, old, new_memory, old_memory, address, outcome)
            } else {
                let refs = if add {
                    (level.surface_refs + 1) as u32
                } else {
                    (level.surface_refs - 1) as u32
                };
                &&& outcome == Ok::<u32, MemoryError>(refs)
                &&& new_memory == old_memory
                &&& texture_changed(
                    new.textures@,
                    old.textures@,
                    address,
                    texture.refs,
                    surface_refs_set(texture.levels@, index, refs),
                )
                &&& new == Graphics { textures: new.textures, ..old }
            }
        },
    }
}

/// The surface references of `levels[..count]` are each at most their sum.
proof fn lemma_surface_in_sum(levels: Seq<TextureLevel>, count: int, index: int)
    requires
        0 <= index < count <= levels.len(),
    ensures
        levels[index].surface_refs <= super::objects::surface_sum(levels, count),
    decreases count,
{
    lemma_sum_nonnegative(levels, count - 1);
    if index < count - 1 {
        lemma_surface_in_sum(levels, count - 1, index);
    }
}

/// Surface sums are not negative.
proof fn lemma_sum_nonnegative(levels: Seq<TextureLevel>, count: int)
    ensures
        super::objects::surface_sum(levels, count) >= 0,
    decreases count,
{
    if count > 0 {
        lemma_sum_nonnegative(levels, count - 1);
    }
}

impl Graphics {
    /// `AddRef` (for `TextureSurfaceAddRef`) or `Release` (for any other
    /// call) of the surface object at `surface`.
    pub fn texture_surface_ref(
        &mut self,
        call: super::calls::Call,
        surface: u32,
        memory: &mut GuestMemory,
    ) -> (outcome: Result<u32, MemoryError>)
        requires
            old(self).wf(),
            old(memory).wf(),
            call != super::calls::Call::TextureSurfaceAddRef ==> !surface_release_unbacked(
                *old(self),
                surface,
            ),
        ensures
            final(self).wf(),
            final(memory).wf(),
            surface_referenced(
                *final(self),
                *old(self),
                *final(memory),
                *old(memory),
                call == super::calls::Call::TextureSurfaceAddRef,
                surface,
                outcome,
            ),
    {
        let (address, index) = match self.texture_surface_identity(surface) {
            Some(identity) => identity,
            None => return Ok(INVALID_CALL),
        };
        let (total, length, level) = match self.textures.get(&address) {
            Some(texture) => (texture.total_refs(), texture.length, texture.levels[index]),
            None => return Ok(INVALID_CALL),
        };
        let ghost before = old(self).textures@[address];
        proof {
            assert(texture_placed(address, before));
            lemma_surface_in_sum(before.levels@, before.levels@.len() as int, index as int);
        }
        let add = call == super::calls::Call::TextureSurfaceAddRef;
        if add && total == u32::MAX {
            return Ok(INVALID_CALL);
        }
        if !add && total == 1 {
            return self.drop_texture(address, length, memory);
        }
        let refs = if add {
            level.surface_refs + 1
        } else {
            level.surface_refs - 1
        };
        let mut texture = match self.textures.remove(&address) {
            Some(texture) => texture,
            None => return Ok(INVALID_CALL),
        };
        texture.levels.set(index, TextureLevel { surface_refs: refs, ..level });
        proof {
            assert(old(self).textures@.remove(address).insert(address, texture)
                =~= old(self).textures@.insert(address, texture));
        }
        self.put_texture(address, texture, Ghost(before));
        Ok(refs)
    }
}

/// What `set_texture` answers and leaves.
pub open spec fn set_texture_result(
    new: Graphics,
    old: Graphics,
    arguments: Seq<u32>,
    new_memory: GuestMemory,
    old_memory: GuestMemory,
    outcome: Result<u32, MemoryError>,
) -> bool {
    &&& (({
            let stage = arguments[1] as int;
            let next = arguments[2];
            let previous = old.texture_stages@[stage];
            if !super::state::device_call(old, arguments[0]) || stage >= 8 {
                outcome == Ok::<u32, MemoryError>(INVALID_CALL) && new == old
                    && new_memory == old_memory
            } else if next == previous {
                outcome == Ok::<u32, MemoryError>(0) && new == old
                    && new_memory == old_memory
            } else if next != 0 && (!old.textures@.contains_key(next) || old.textures@[next].refs == 0 || texture_total(old, next) == u32::MAX) {
                outcome == Ok::<u32, MemoryError>(INVALID_CALL) && new == old
                    && new_memory == old_memory
            } else if outcome is Err {
                previous != 0 && texture_released(
                    new,
                    old,
                    new_memory,
                    old_memory,
                    previous,
                    outcome,
                )
            } else {
                &&& outcome == Ok::<u32, MemoryError>(0)
                &&& exists|mid: Graphics|
                    #![trigger mid.textures]
                    {
                        &&& if previous != 0 {
                            texture_released(
                                mid,
                                old,
                                new_memory,
                                old_memory,
                                previous,
                                Ok(texture_release_status(old, previous)),
                            )
                        } else {
                            mid == old && new_memory == old_memory
                        }
                        &&& new.texture_stages@ == mid.texture_stages@.update(
                            stage,
                            next,
                        )
                        &&& if next != 0 {
                            let texture = mid.textures@[next];
                            let refs = if texture.refs == u32::MAX {
                                u32::MAX
                            } else {
                                (texture.refs + 1) as u32
                            };
                            texture_changed(
                                new.textures@,
                                mid.textures@,
                                next,
                                refs,
                                texture.levels@,
                            )
                        } else {
                            new.textures@ == mid.textures@
                        }
                        &&& new == (Graphics {
                            textures: new.textures,
                            texture_stages: new.texture_stages,
                            ..mid
                        })
                    }
            }
        }))
}

impl Graphics {
    /// `SetTexture(stage, texture)`: binds the texture (or none) to one of
    /// the eight stages, taking a reference to the new one and giving back
    /// the one to the texture bound before.
    pub fn set_texture(&mut self, arguments: &[u32], memory: &mut GuestMemory) -> (outcome: Result<
        u32,
        MemoryError,
    >)
        requires
            old(self).wf(),
            old(memory).wf(),
            arguments@.len() == 3,
        ensures
            final(self).wf(),
            final(memory).wf(),
            set_texture_result(
                *final(self),
                *old(self),
                arguments@,
                *final(memory),
                *old(memory),
                outcome,
            ),
    {
        let stage = arguments[1];
        let next = arguments[2];
        if arguments[0] != super::objects::DEVICE || self.device_refs == 0 || stage >= 8 {
            return Ok(INVALID_CALL);
        }
        let index = stage as usize;
        let previous = self.texture_stages[index];
        if previous == next {
            return Ok(0);
        }
        if next != 0 {
            match self.textures.get(&next) {
                None => return Ok(INVALID_CALL),
                Some(texture) => if texture.refs == 0 || texture.total_refs() == u32::MAX {
                    return Ok(INVALID_CALL);
                },
            }
        }
        let ghost original = *self;
        let mut status: u32 = 0;
        if previous != 0 {
            status = self.texture_release(previous, memory)?;
        }
        let ghost mid = *self;
        proof {
            if previous != 0 {
                assert(mid.textures@.contains_key(next) || next == 0);
            }
        }
        if next != 0 {
            self.texture_add_ref(next);
        }
        self.texture_stages.set(index, next);
        proof {
            let witness = mid;
            assert(previous != 0 ==> texture_released(
                witness,
                original,
                *memory,
                *old(memory),
                previous,
                Ok(texture_release_status(original, previous)),
            ));
        }
        Ok(0)
    }
}

} // verus!
