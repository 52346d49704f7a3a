//! The texture aperture: how much of it buffers and textures take, and
//! what the device reports as free.
use super::device::Graphics;
use super::objects::{IndexBuffer, Texture, VertexBuffer, DEVICE, TEXTURE_END, TEXTURE_START};
use std::collections::BTreeMap;
use vstd::prelude::*;

verus! {

broadcast use vstd::std_specs::btree::group_btree_axioms;

/// An object mapped into the aperture.
pub trait Mapped {
    /// The bytes mapped for it.
    spec fn mapped(&self) -> u64;

    /// The bytes mapped for it.
    fn mapped_length(&self) -> (length: u64)
        ensures
            length == self.mapped(),
    ;
}

impl Mapped for Texture {
    open spec fn mapped(&self) -> u64 {
        self.length
    }

    fn mapped_length(&self) -> (length: u64) {
        self.length
    }
}

impl Mapped for VertexBuffer {
    open spec fn mapped(&self) -> u64 {
        self.length
    }

    fn mapped_length(&self) -> (length: u64) {
        self.length
    }
}

impl Mapped for IndexBuffer {
    open spec fn mapped(&self) -> u64 {
        self.length
    }

    fn mapped_length(&self) -> (length: u64) {
        self.length
    }
}

/// The bytes mapped for the objects of `objects` at the addresses `keys`.
pub open spec fn bytes_total<V: Mapped>(objects: Map<u32, V>, keys: Set<u32>) -> int
    decreases keys.len(),
{
    if keys.finite() && keys.len() > 0 {
        let key = keys.choose();
        objects[key].mapped() + bytes_total(objects, keys.remove(key))
    } else {
        0
    }
}

/// The total does not depend on which address is taken first.
pub proof fn lemma_total_remove<V: Mapped>(objects: Map<u32, V>, keys: Set<u32>, key: u32)
    requires
        keys.finite(),
        keys.contains(key),
    ensures
        bytes_total(objects, keys) == objects[key].mapped() + bytes_total(objects, keys.remove(key)),
    decreases keys.len(),
{
    let first = keys.choose();
    if first != key {
        let rest = keys.remove(first);
        lemma_total_remove(objects, rest, key);
        lemma_total_remove(objects, keys.remove(key), first);
        assert(rest.remove(key) =~= keys.remove(key).remove(first));
    }
}

/// The bytes mapped for all objects of `objects`, at most `u64::MAX`.
pub open spec fn capped_total<V: Mapped>(objects: Map<u32, V>) -> u64 {
    let total = bytes_total(objects, objects.dom());
    if total > u64::MAX {
        u64::MAX
    } else {
        total as u64
    }
}

/// The bytes mapped for the objects of `objects`, at most `u64::MAX`.
pub fn mapped_total<V: Mapped>(objects: &BTreeMap<u32, V>) -> (total: u64)
    ensures
        total == capped_total(objects@),
{
    let mut total: u64 = 0;
    let ghost mut seen: Set<u32> = Set::empty();
    for key in it: objects.keys()
        invariant
            seen.finite(),
            seen == it.seq().take(it.index() as int).unref().to_set(),
            it.seq().unref().to_set() == objects@.dom(),
            it.index() == it.seq().len() ==> seen == objects@.dom(),
            total == (if bytes_total(objects@, seen) > u64::MAX {
                u64::MAX as int
            } else {
                bytes_total(objects@, seen)
            }),
    {
        let length = match objects.get(key) {
            Some(object) => object.mapped_length(),
            None => 0,
        };
        proof {
            let sequence = it.seq();
            let index = it.index();
            assert(*key == sequence[index]);
            assert(sequence.take(index + 1).unref() =~= sequence.take(index).unref().push(*key));
            sequence.take(index).unref().lemma_push_to_set_commute(*key);
            if index + 1 == sequence.len() {
                assert(sequence.take(index + 1) =~= sequence);
            }
            let next = seen.insert(*key);
            lemma_total_remove(objects@, next, *key);
            assert(next.remove(*key) =~= seen);
        }
        total = total.saturating_add(length);
        proof {
            seen = seen.insert(*key);
        }
    }
    total
}

/// Totals are not negative.
pub proof fn lemma_total_nonnegative<V: Mapped>(objects: Map<u32, V>, keys: Set<u32>)
    ensures
        bytes_total(objects, keys) >= 0,
    decreases keys.len(),
{
    if keys.finite() && keys.len() > 0 {
        lemma_total_nonnegative(objects, keys.remove(keys.choose()));
    }
}

/// The bytes of the aperture that buffers and textures are placed in.
pub const APERTURE: u64 = 0x0d00_0000;

/// A mebibyte.
pub const MIB: u64 = 0x10_0000;

/// The bytes that the device's buffers and textures take.
pub open spec fn aperture_used(graphics: Graphics) -> int {
    bytes_total(graphics.textures@, graphics.textures@.dom()) + bytes_total(
        graphics.vertex_buffers@,
        graphics.vertex_buffers@.dom(),
    ) + bytes_total(graphics.index_buffers@, graphics.index_buffers@.dom())
}

/// The free part of the aperture, rounded to the nearest mebibyte.
pub open spec fn aperture_free(graphics: Graphics) -> u32 {
    let used = aperture_used(graphics);
    let free = if used >= APERTURE {
        0
    } else {
        APERTURE - used
    };
    ((free + MIB / 2) / (MIB as int) * MIB) as u32
}

/// What `available_texture_memory` answers and leaves.
pub open spec fn available_texture_memory_result(
    graphics: Graphics,
    device: u32,
    free: u32,
) -> bool {
    &&& (free == if device == DEVICE && graphics.device_refs != 0 {
            aperture_free(graphics)
        } else {
            0
        })
}

impl Graphics {
    /// `GetAvailableTextureMem()`: the aperture that buffers and textures
    /// do not take, rounded to the nearest mebibyte; 0 without a device.
    pub fn available_texture_memory(&self, device: u32) -> (free: u32)
        ensures
            available_texture_memory_result(*self, device, free),
    {
        if device != DEVICE || self.device_refs == 0 {
            return 0;
        }
        let textures = mapped_total(&self.textures);
        let vertex_buffers = mapped_total(&self.vertex_buffers);
        let index_buffers = mapped_total(&self.index_buffers);
        proof {
            lemma_total_nonnegative(self.textures@, self.textures@.dom());
            lemma_total_nonnegative(self.vertex_buffers@, self.vertex_buffers@.dom());
            lemma_total_nonnegative(self.index_buffers@, self.index_buffers@.dom());
        }
        let used = textures.saturating_add(vertex_buffers).saturating_add(index_buffers);
        assert(used >= APERTURE <==> aperture_used(*self) >= APERTURE);
        assert(used < APERTURE ==> used == aperture_used(*self));
        let free = (TEXTURE_END - TEXTURE_START).saturating_sub(used);
        let rounded = (free + MIB / 2) / MIB * MIB;
        assert(rounded <= APERTURE) by (nonlinear_arith)
            requires
                free <= APERTURE,
                rounded == (free + MIB / 2) / (MIB as int) * MIB,
                APERTURE == 0x0d00_0000,
                MIB == 0x10_0000,
        ;
        rounded as u32
    }
}

} // verus!
