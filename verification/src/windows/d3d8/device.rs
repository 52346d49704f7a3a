//! The Direct3D 8 root object and device: their reference counts, the
//! render target, depth buffer and pipeline state, and the methods that
//! query the adapter or set state.
use super::objects::{
    DepthPolicy, IndexBuffer, Texture, TextureLevel, VertexBuffer, Viewport, MAX_PIXELS,
    TEXTURE_END, TEXTURE_START,
};
use super::Frame;
use crate::cpu::operands::value_bytes;
use crate::memory::{Access, GuestMemory, MemoryError};
use std::collections::BTreeMap;
use vstd::prelude::*;

verus! {

broadcast use vstd::std_specs::btree::group_btree_axioms;

/// What the device needs to know of the desktop's windows: the desktop's
/// handle, and the handles of the top-level windows.
pub struct Windows {
    pub desktop: u32,
    pub top_level: Vec<u32>,
}

impl Windows {
    /// Whether `handle` names a top-level window.
    pub fn is_top_level(&self, handle: u32) -> (top: bool)
        ensures
            top == self.top_level@.contains(handle),
    {
        let mut index: usize = 0;
        while index < self.top_level.len()
            invariant
                index <= self.top_level@.len(),
                forall|j: int| 0 <= j < index ==> self.top_level@[j] != handle,
            decreases self.top_level@.len() - index,
        {
            if self.top_level[index] == handle {
                assert(self.top_level@[index as int] == handle);
                return true;
            }
            index = index + 1;
        }
        false
    }
}

/// Whether `handle` may own the device's window: none, the desktop, or a
/// top-level window.
pub open spec fn usable_window(windows: Windows, handle: u32) -> bool {
    handle == 0 || handle == windows.desktop || windows.top_level@.contains(handle)
}

/// The root object, the device and everything the device owns.
pub struct Graphics {
    pub root_refs: u32,
    pub device_refs: u32,
    pub back: Option<Frame>,
    pub spare: Option<Frame>,
    pub depth: Option<Vec<u16>>,
    pub depth_surface_refs: u32,
    pub z_enabled: bool,
    pub depth_policy: DepthPolicy,
    pub scene_open: bool,
    pub viewport: Option<Viewport>,
    pub transforms: BTreeMap<u32, [u32; 16]>,
    pub front: Option<Frame>,
    pub textures: BTreeMap<u32, Texture>,
    pub vertex_buffers: BTreeMap<u32, VertexBuffer>,
    pub index_buffers: BTreeMap<u32, IndexBuffer>,
    pub indices: Option<(u32, u32)>,
    pub stream: Option<(u32, u32)>,
    pub texture_stages: [u32; 8],
    pub color_arg0: [u32; 8],
    pub vertex_fvf: u32,
}

/// A frame of `width` by `height` opaque black pixels.
pub open spec fn cleared_frame(frame: Frame) -> bool {
    &&& frame.rgba@.len() == 4 * frame.width * frame.height
    &&& forall|i: int|
        0 <= i < frame.rgba@.len() ==> #[trigger] frame.rgba@[i] == if i % 4 == 3 {
            255u8
        } else {
            0u8
        }
}

/// Bytes mapped for an object at `address`: a header page and then room
/// for its data.
pub open spec fn object_length(data: int) -> int {
    4096 + (data + 4095) / 4096 * 4096
}

/// Where a buffer of `byte_length` bytes mapped in `length` bytes at
/// `address` may lie: page-aligned within the range for such objects, with
/// a header page before its data.
pub open spec fn buffer_placed(address: u32, length: u64, byte_length: u32) -> bool {
    &&& address % 4096 == 0
    &&& TEXTURE_START <= address
    &&& address + length <= TEXTURE_END
    &&& length == object_length(byte_length as int)
}

/// Whether mip level `level` of a texture mapped in `length` bytes has
/// sensible dimensions and lies after the header page.
pub open spec fn level_placed(level: TextureLevel, length: u64) -> bool {
    &&& 1 <= level.width && 1 <= level.height
    &&& level.width * level.height <= MAX_PIXELS
    &&& 4096 <= level.offset
    &&& level.offset + 4 * level.width * level.height <= length
}

/// Where a texture may lie: page-aligned within the range for such objects,
/// with one to 32 levels.
pub open spec fn texture_placed(address: u32, texture: Texture) -> bool {
    &&& address % 4096 == 0
    &&& TEXTURE_START <= address
    &&& address + texture.length <= TEXTURE_END
    &&& 1 <= texture.levels@.len() <= 32
    &&& forall|index: int|
        0 <= index < texture.levels@.len() ==> #[trigger] level_placed(
            texture.levels@[index],
            texture.length,
        )
}

/// Whether `frame` holds `width * height` pixels.
pub open spec fn frame_fits(frame: Frame) -> bool {
    &&& frame.width * frame.height <= MAX_PIXELS
    &&& frame.rgba@.len() == 4 * frame.width * frame.height
}

impl Graphics {
    /// The consistency the device keeps: a pixel-sized render target,
    /// a depth buffer of one entry per pixel, a viewport within the target,
    /// a valid depth comparison.
    pub open spec fn wf(&self) -> bool {
        &&& self.depth_surface_refs > 0 ==> self.device_refs > 0
        &&& self.kept()
    }

    /// The consistency the device keeps apart from how its references
    /// relate.
    pub open spec fn kept(&self) -> bool {
        &&& self.back matches Some(back) ==> frame_fits(back)
        &&& self.spare matches Some(spare) ==> (frame_fits(spare) && (self.back matches Some(back)
            && spare.width == back.width && spare.height == back.height))
        &&& self.depth matches Some(depth) ==> (self.back matches Some(back) && depth@.len()
            == back.width * back.height)
        &&& self.viewport matches Some(viewport) ==> (self.back matches Some(back)
            && viewport.left < viewport.right <= back.width && viewport.top < viewport.bottom
            <= back.height)
        &&& 1 <= self.depth_policy.function <= 8
        &&& self.depth_surface_refs < u32::MAX
        &&& self.depth_surface_refs > 0 ==> self.depth is Some
        &&& forall|address: u32| #[trigger]
            self.vertex_buffers@.contains_key(address) ==> buffer_placed(
                address,
                self.vertex_buffers@[address].length,
                self.vertex_buffers@[address].lock.byte_length,
            )
        &&& forall|address: u32| #[trigger]
            self.index_buffers@.contains_key(address) ==> buffer_placed(
                address,
                self.index_buffers@[address].length,
                self.index_buffers@[address].lock.byte_length,
            ) && (self.index_buffers@[address].format == 101 || self.index_buffers@[address].format
                == 102)
        &&& forall|address: u32| #[trigger]
            self.textures@.contains_key(address) ==> texture_placed(
                address,
                self.textures@[address],
            )
    }

    /// The state that ending the device leaves: no render target, depth or
    /// pipeline state, and one reference fewer to the root object.
    pub open spec fn finished(self, old: Self) -> bool {
        &&& self.back is None
        &&& self.spare is None
        &&& self.depth is None
        &&& self.depth_surface_refs == 0
        &&& !self.z_enabled
        &&& self.depth_policy == DepthPolicy { write_enabled: true, function: 4 }
        &&& !self.scene_open
        &&& self.viewport is None
        &&& self.transforms@ == Map::<u32, [u32; 16]>::empty()
        &&& self.vertex_fvf == 0
        &&& self.texture_stages@ == seq![0u32, 0, 0, 0, 0, 0, 0, 0]
        &&& self.indices is None
        &&& self.stream is None
        &&& self.color_arg0@ == seq![1u32, 1, 1, 1, 1, 1, 1, 1]
        &&& self.root_refs == if old.root_refs > 0 {
            (old.root_refs - 1) as u32
        } else {
            0
        }
        &&& self.device_refs == old.device_refs
        &&& self.front == old.front
        &&& self.textures@ == old.textures@
        &&& self.vertex_buffers@ == old.vertex_buffers@
        &&& self.index_buffers@ == old.index_buffers@
    }

    /// Ends the device: drops the render target, depth buffer and pipeline
    /// state and the device's reference to the root object.
    pub fn finish_device(&mut self)
        requires
            old(self).kept(),
        ensures
            final(self).finished(*old(self)),
            final(self).wf(),
    {
        self.back = None;
        self.spare = None;
        self.depth = None;
        self.depth_surface_refs = 0;
        self.z_enabled = false;
        self.depth_policy = DepthPolicy::default();
        self.scene_open = false;
        self.viewport = None;
        self.transforms.clear();
        self.vertex_fvf = 0;
        self.texture_stages = [0; 8];
        self.indices = None;
        self.stream = None;
        self.color_arg0 = [1; 8];
        self.root_refs = self.root_refs.saturating_sub(1);
        assert(self.texture_stages@ =~= seq![0u32, 0, 0, 0, 0, 0, 0, 0]);
        assert(self.color_arg0@ =~= seq![1u32, 1, 1, 1, 1, 1, 1, 1]);
    }

    /// Hands out the most recently presented frame, once.
    pub fn take_frame(&mut self) -> (frame: Option<Frame>)
        ensures
            frame == old(self).front,
            *final(self) == (Graphics { front: None, ..*old(self) }),
    {
        let frame = self.front.take();
        frame
    }
}

impl Default for Graphics {
    /// No root object, no device, default pipeline state.
    fn default() -> (graphics: Self)
        ensures
            graphics.wf(),
            graphics.root_refs == 0,
            graphics.device_refs == 0,
            graphics.back is None && graphics.front is None && graphics.spare is None,
            graphics.depth is None,
            graphics.viewport is None,
            graphics.textures@ == Map::<u32, Texture>::empty(),
            graphics.vertex_buffers@ == Map::<u32, VertexBuffer>::empty(),
            graphics.index_buffers@ == Map::<u32, IndexBuffer>::empty(),
            graphics.transforms@ == Map::<u32, [u32; 16]>::empty(),
    {
        Graphics {
            root_refs: 0,
            device_refs: 0,
            back: None,
            spare: None,
            depth: None,
            depth_surface_refs: 0,
            z_enabled: false,
            depth_policy: DepthPolicy::default(),
            scene_open: false,
            viewport: None,
            transforms: BTreeMap::new(),
            front: None,
            textures: BTreeMap::new(),
            vertex_buffers: BTreeMap::new(),
            index_buffers: BTreeMap::new(),
            indices: None,
            stream: None,
            texture_stages: [0; 8],
            color_arg0: [0; 8],
            vertex_fvf: 0,
        }
    }
}

} // verus!
