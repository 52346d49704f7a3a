//! The guest-visible Direct3D 8 objects: their fixed addresses, method
//! tables and status codes, and the records the device keeps for buffers
//! and textures.
use super::super::guest::{words_at, words_bytes};
use super::super::DispatchError;
use crate::cpu::operands::value_bytes;
use crate::memory::{
    lemma_allowed_covers, lemma_first_page_where, page_allows, page_of, Access, GuestMemory,
    MemoryError, Permissions, PAGE_SIZE,
};
use vstd::prelude::*;

verus! {

/// The page that holds the root and device objects and the method tables.
pub const OBJECT_BASE: u32 = 0x7000_1000;

/// The `IDirect3D8` object.
pub const ROOT: u32 = 0x7000_1000;

/// The `IDirect3DDevice8` object.
pub const DEVICE: u32 = 0x7000_1004;

/// The depth-stencil surface object.
pub const DEPTH_SURFACE: u32 = 0x7000_1008;

/// The method table of the root object.
pub const ROOT_TABLE: u32 = 0x7000_1100;

/// The method table of the device.
pub const DEVICE_TABLE: u32 = 0x7000_1200;

/// The method table of textures.
pub const TEXTURE_TABLE: u32 = 0x7000_1400;

/// The method table of the depth-stencil surface.
pub const DEPTH_SURFACE_TABLE: u32 = 0x7000_1500;

/// The method table of texture surfaces.
pub const TEXTURE_SURFACE_TABLE: u32 = 0x7000_1600;

/// The method table of vertex buffers.
pub const VERTEX_BUFFER_TABLE: u32 = 0x7000_1700;

/// The method table of index buffers.
pub const INDEX_BUFFER_TABLE: u32 = 0x7000_1800;

/// The method that every unsupported table slot points at.
pub const UNSUPPORTED_METHOD: u32 = 0x7000_0ffc;

/// `D3DERR_INVALIDCALL`.
pub const INVALID_CALL: u32 = 0x8876_086c;

/// `D3DERR_NOTAVAILABLE`.
pub const NOT_AVAILABLE: u32 = 0x8876_086a;

/// `D3DERR_UNSUPPORTEDCOLOROPERATION`.
pub const UNSUPPORTED_COLOR_OPERATION: u32 = 0x8876_0819;

/// `D3DERR_OUTOFVIDEOMEMORY`.
pub const OUT_OF_VIDEO_MEMORY: u32 = 0x8876_017c;

/// The largest render target or texture level, in pixels.
pub const MAX_PIXELS: u64 = 1_048_576;

/// The most rectangles one clear takes.
pub const MAX_RECTS: u32 = 64;

/// Where buffers and textures are placed in the guest.
pub const TEXTURE_START: u64 = 0x7200_0000;

/// The end of the range buffers and textures are placed in.
pub const TEXTURE_END: u64 = 0x7f00_0000;

/// The most primitives one draw takes.
pub const MAX_PRIMITIVES: u32 = 4096;

/// The largest vertex stride.
pub const MAX_STRIDE: u32 = 256;

/// The bits of the single-precision float 1.0.
pub const ONE_BITS: u32 = 0x3f80_0000;

/// The identity matrix, as single-precision float bits.
pub open spec fn identity_matrix() -> Seq<u32> {
    seq![
        ONE_BITS, 0, 0, 0,
        0, ONE_BITS, 0, 0,
        0, 0, ONE_BITS, 0,
        0, 0, 0, ONE_BITS,
    ]
}

/// The transform states that can be set and read: view (2), projection (3),
/// the texture transforms (16..=23) and the world matrices (256..=511).
pub open spec fn transform_state(state: u32) -> bool {
    state == 2 || state == 3 || (16 <= state <= 23) || (256 <= state <= 511)
}

/// Whether `state` names a transform that can be set and read.
pub fn valid_transform_state(state: u32) -> (valid: bool)
    ensures
        valid == transform_state(state),
{
    state == 2 || state == 3 || (16 <= state && state <= 23) || (256 <= state && state <= 511)
}

/// How depth is tested and written.
#[derive(Clone, Copy, Debug, PartialEq, Eq, Structural)]
pub struct DepthPolicy {
    pub write_enabled: bool,
    /// The comparison, `D3DCMP_NEVER` (1) to `D3DCMP_ALWAYS` (8).
    pub function: u32,
}

impl Default for DepthPolicy {
    /// Writes on, and `D3DCMP_LESSEQUAL`.
    fn default() -> (policy: Self)
        ensures
            policy == (DepthPolicy { write_enabled: true, function: 4 }),
    {
        DepthPolicy { write_enabled: true, function: 4 }
    }
}

/// Whether a fragment at depth `incoming` passes over `stored` under the
/// comparison `function`.
pub open spec fn depth_passes(function: u32, incoming: u16, stored: u16) -> bool {
    if function == 1 {
        false
    } else if function == 2 {
        incoming < stored
    } else if function == 3 {
        incoming == stored
    } else if function == 4 {
        incoming <= stored
    } else if function == 5 {
        incoming > stored
    } else if function == 6 {
        incoming != stored
    } else if function == 7 {
        incoming >= stored
    } else {
        true
    }
}

impl DepthPolicy {
    /// Whether a fragment at depth `incoming` passes over `stored`.
    pub fn passes(self, incoming: u16, stored: u16) -> (passes: bool)
        requires
            1 <= self.function <= 8,
        ensures
            passes == depth_passes(self.function, incoming, stored),
    {
        match self.function {
            1 => false,
            2 => incoming < stored,
            3 => incoming == stored,
            4 => incoming <= stored,
            5 => incoming > stored,
            6 => incoming != stored,
            7 => incoming >= stored,
            _ => true,
        }
    }
}

/// The part of the render target that draws reach, `[left, right)` by
/// `[top, bottom)`.
#[derive(Clone, Copy, Debug, PartialEq, Eq, Structural)]
pub struct Viewport {
    pub left: u32,
    pub top: u32,
    pub right: u32,
    pub bottom: u32,
}

/// The lock state of a vertex or index buffer.
#[derive(Clone, Copy, Debug, PartialEq, Eq, Structural)]
pub struct BufferLock {
    pub byte_length: u32,
    pub usage: u32,
    /// How many locks are open.
    pub count: u32,
}

/// The lock flags a buffer accepts: read-only, no-system-lock,
/// no-overwrite and discard.
pub open spec fn known_lock_flags(flags: u32) -> bool {
    flags & !(0x0010u32 | 0x0800 | 0x1000 | 0x2000) == 0
}

/// Whether locking `size` bytes (0 with offset 0: all of them) at `offset`
/// with `flags` is refused: outside the buffer, unknown flags, a discard
/// that is not of the whole buffer or comes with other lock kinds,
/// discard or no-overwrite on a buffer not made dynamic, read-only on a
/// write-only buffer, or no room to count another lock.
pub open spec fn lock_refused(lock: BufferLock, offset: u32, size: u32, flags: u32) -> bool {
    let size = if size == 0 && offset == 0 {
        lock.byte_length
    } else {
        size
    };
    let discard = flags & 0x2000 != 0;
    let no_overwrite = flags & 0x1000 != 0;
    let read_only = flags & 0x0010 != 0;
    ||| offset >= lock.byte_length
    ||| size == 0
    ||| offset + size > lock.byte_length
    ||| !known_lock_flags(flags)
    ||| (discard && (no_overwrite || read_only || offset != 0 || size != lock.byte_length))
    ||| ((discard || no_overwrite) && lock.usage & 0x0200 == 0)
    ||| (read_only && lock.usage & 0x0008 != 0)
    ||| lock.count == u32::MAX
}

impl BufferLock {
    /// Locks the buffer at `address` for `arguments = [buffer, offset,
    /// size, output, flags]`: where the lock is allowed, stores the address
    /// of the locked bytes (after the object's page) at `output` and counts
    /// the lock.
    pub fn lock(&mut self, address: u32, arguments: &[u32], memory: &mut GuestMemory) -> (outcome: Result<
        u32,
        MemoryError,
    >)
        requires
            old(memory).wf(),
            arguments@.len() == 5,
            address as int + 4096 + old(self).byte_length <= u32::MAX,
        ensures
            final(memory).wf(),
            lock_refused(*old(self), arguments@[1], arguments@[2], arguments@[4]) ==> outcome
                == Ok::<u32, MemoryError>(INVALID_CALL) && *final(self) == *old(self)
                && *final(memory) == *old(memory),
            !lock_refused(*old(self), arguments@[1], arguments@[2], arguments@[4]) ==> match old(
                memory,
            ).access(arguments@[3] as u64, 4, Access::Write) {
                Err(error) => outcome == Err::<u32, MemoryError>(error) && *final(self) == *old(
                    self,
                ) && *final(memory) == *old(memory),
                Ok(()) => outcome == Ok::<u32, MemoryError>(0) && *final(self) == (BufferLock {
                    count: (old(self).count + 1) as u32,
                    ..*old(self)
                }) && final(memory).wrote(
                    *old(memory),
                    arguments@[3] as int,
                    value_bytes((address + 4096 + arguments@[1]) as u32, 4),
                ),
            },
    {
        let offset = arguments[1];
        let requested = arguments[2];
        let output = arguments[3];
        let flags = arguments[4];
        let discard = flags & 0x2000 != 0;
        let no_overwrite = flags & 0x1000 != 0;
        let read_only = flags & 0x0010 != 0;
        let size = if requested == 0 && offset == 0 {
            self.byte_length
        } else {
            requested
        };
        if offset >= self.byte_length || size == 0 || size > self.byte_length - offset || flags
            & !(0x0010u32 | 0x0800 | 0x1000 | 0x2000) != 0 || (discard && (no_overwrite
            || read_only || offset != 0 || size != self.byte_length)) || ((discard
            || no_overwrite) && self.usage & 0x0200 == 0) || (read_only && self.usage & 0x0008
            != 0) || self.count == u32::MAX {
            return Ok(INVALID_CALL);
        }
        let data = address + 4096 + offset;
        store_word(memory, output, data)?;
        self.count = self.count + 1;
        Ok(0)
    }

    /// Closes one lock; refused when none is open.
    pub fn unlock(&mut self) -> (status: u32)
        ensures
            old(self).count == 0 ==> status == INVALID_CALL && *final(self) == *old(self),
            old(self).count != 0 ==> status == 0 && *final(self) == (BufferLock {
                count: (old(self).count - 1) as u32,
                ..*old(self)
            }),
    {
        if self.count == 0 {
            return INVALID_CALL;
        }
        self.count = self.count - 1;
        0
    }
}

/// Stores the little-endian dword `value` at `address`.
pub fn store_word(memory: &mut GuestMemory, address: u32, value: u32) -> (outcome: Result<(), MemoryError>)
    requires
        old(memory).wf(),
    ensures
        final(memory).wf(),
        outcome == old(memory).access(address as u64, 4, Access::Write),
        outcome is Ok ==> final(memory).wrote(*old(memory), address as int, value_bytes(value, 4)),
        outcome is Err ==> *final(memory) == *old(memory),
{
    let bytes = super::super::guest::word_bytes(value);
    memory.write(address as u64, bytes.as_slice())
}

/// Stores `words` as little-endian dwords at `address`, all or nothing.
pub fn store_words(memory: &mut GuestMemory, address: u32, words: &[u32]) -> (outcome: Result<
    (),
    MemoryError,
>)
    requires
        old(memory).wf(),
        words@.len() <= 0x1000_0000,
    ensures
        final(memory).wf(),
        outcome == old(memory).access(address as u64, 4 * words@.len() as int, Access::Write),
        outcome is Ok ==> final(memory).wrote(*old(memory), address as int, words_bytes(words@)),
        outcome is Err ==> *final(memory) == *old(memory),
{
    let mut bytes: Vec<u8> = Vec::new();
    let mut i: usize = 0;
    while i < words.len()
        invariant
            words@.len() <= 0x1000_0000,
            i <= words@.len(),
            bytes@.len() == 4 * i,
            forall|j: int| 0 <= j < 4 * i ==> #[trigger] bytes@[j] == words_bytes(words@)[j],
        decreases words@.len() - i,
    {
        let part = super::super::guest::word_bytes(words[i]);
        let mut k: usize = 0;
        while k < 4
            invariant
                i < words@.len(),
                words@.len() <= 0x1000_0000,
                k <= 4,
                part@ == value_bytes(words@[i as int], 4),
                bytes@.len() == 4 * i + k,
                forall|j: int| 0 <= j < 4 * i + k ==> #[trigger] bytes@[j] == words_bytes(words@)[j],
            decreases 4 - k,
        {
            bytes.push(part[k]);
            assert((4 * i + k) / 4 == i && (4 * i + k) % 4 == k as int);
            k = k + 1;
        }
        i = i + 1;
    }
    assert(bytes@ =~= words_bytes(words@));
    memory.write(address as u64, bytes.as_slice())
}

/// What storing `data` at `address` gives: status 0 and the bytes in place,
/// or the fault and no change.
pub open spec fn stored(old: GuestMemory, new: GuestMemory, address: u64, data: Seq<u8>, outcome: Result<
    u32,
    MemoryError,
>) -> bool {
    match old.access(address, data.len() as int, Access::Write) {
        Err(error) => outcome == Err::<u32, MemoryError>(error) && new == old,
        Ok(()) => outcome == Ok::<u32, MemoryError>(0) && new.wf() && new.wrote(
            old,
            address as int,
            data,
        ),
    }
}

/// Reads `words.len()` little-endian dwords at `address`.
pub fn load_words(memory: &GuestMemory, address: u32, words: &mut [u32]) -> (outcome: Result<
    (),
    MemoryError,
>)
    requires
        memory.wf(),
        old(words)@.len() <= 0x1000_0000,
    ensures
        final(words)@.len() == old(words)@.len(),
        outcome == memory.access(address as u64, 4 * old(words)@.len() as int, Access::Read),
        outcome is Ok ==> final(words)@ == words_at(*memory, address, old(words)@.len() as int),
{
    match super::super::guest::read_words(memory, address, words) {
        Ok(()) => Ok(()),
        Err(DispatchError::Memory(error)) => Err(error),
        Err(_) => {
            assert(false);
            Err(MemoryError::AddressOverflow)
        },
    }
}

/// `new` is `old` with the dword `first` stored at `first_address` and then
/// `second` at `second_address`.
pub open spec fn stored_two(
    new: GuestMemory,
    old: GuestMemory,
    first_address: int,
    first: u32,
    second_address: int,
    second: u32,
) -> bool {
    &&& new.wf()
    &&& new.pages() == old.pages()
    &&& new.limit() == old.limit()
    &&& forall|a: int| #[trigger]
        new.holds(a) ==> new.byte(a) == if second_address <= a < second_address + 4 {
            value_bytes(second, 4)[a - second_address]
        } else if first_address <= a < first_address + 4 {
            value_bytes(first, 4)[a - first_address]
        } else {
            old.byte(a)
        }
}

/// One mip level of a texture.
#[derive(Clone, Copy, Debug, PartialEq, Eq, Structural)]
pub struct TextureLevel {
    pub width: u32,
    pub height: u32,
    /// Where its pixels start, from the texture's address.
    pub offset: u32,
    pub locked: bool,
    /// References held through the level's surface.
    pub surface_refs: u32,
}

/// A texture.
#[derive(Clone, Debug)]
pub struct Texture {
    pub refs: u32,
    /// The bytes mapped for it, header page included.
    pub length: u64,
    pub format: u32,
    pub pool: u32,
    pub levels: Vec<TextureLevel>,
}

/// The references held through the surfaces of `levels[..count]`.
pub open spec fn surface_sum(levels: Seq<TextureLevel>, count: int) -> int
    decreases count,
{
    if count <= 0 {
        0
    } else {
        surface_sum(levels, count - 1) + levels[count - 1].surface_refs
    }
}

/// The references to a texture, its own and its surfaces', at most
/// `u32::MAX`.
pub open spec fn total_refs(refs: u32, levels: Seq<TextureLevel>) -> u32 {
    let total = refs + surface_sum(levels, levels.len() as int);
    if total > u32::MAX {
        u32::MAX
    } else {
        total as u32
    }
}

/// Surface sums do not decrease.
proof fn lemma_surface_sum_grows(levels: Seq<TextureLevel>, count: int)
    requires
        0 <= count,
    ensures
        surface_sum(levels, count) >= 0,
    decreases count,
{
    if count > 0 {
        lemma_surface_sum_grows(levels, count - 1);
    }
}

impl Texture {
    /// The references to the texture, its own and its surfaces', at most
    /// `u32::MAX`.
    pub fn total_refs(&self) -> (total: u32)
        ensures
            total == total_refs(self.refs, self.levels@),
    {
        let mut total: u32 = self.refs;
        let mut index: usize = 0;
        while index < self.levels.len()
            invariant
                index <= self.levels@.len(),
                total == (if self.refs + surface_sum(self.levels@, index as int) > u32::MAX {
                    u32::MAX as int
                } else {
                    self.refs + surface_sum(self.levels@, index as int)
                }),
            decreases self.levels@.len() - index,
        {
            proof {
                lemma_surface_sum_grows(self.levels@, index as int);
            }
            total = total.saturating_add(self.levels[index].surface_refs);
            index = index + 1;
        }
        total
    }
}

/// A vertex buffer.
#[derive(Clone, Copy, Debug, PartialEq, Eq, Structural)]
pub struct VertexBuffer {
    pub refs: u32,
    pub length: u64,
    pub lock: BufferLock,
}

/// An index buffer.
#[derive(Clone, Copy, Debug, PartialEq, Eq, Structural)]
pub struct IndexBuffer {
    pub refs: u32,
    pub length: u64,
    /// `D3DFMT_INDEX16` (101) or `D3DFMT_INDEX32` (102).
    pub format: u32,
    pub lock: BufferLock,
}

} // verus!
