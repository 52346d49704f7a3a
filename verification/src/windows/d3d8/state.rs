//! Device methods that set or read pipeline state: the viewport,
//! transforms, render and texture-stage state, scenes, the depth-stencil
//! surface, presentation and shaders.
use super::calls::Call;
use super::device::Graphics;
use super::objects::{
    identity_matrix, load_words, store_word, store_words, stored, transform_state,
    valid_transform_state, DepthPolicy, Viewport, DEPTH_SURFACE, DEVICE, INVALID_CALL, ONE_BITS,
    UNSUPPORTED_COLOR_OPERATION,
};
use super::super::guest::{words_at, words_bytes};
use super::Frame;
use crate::cpu::operands::value_bytes;
use crate::memory::{Access, GuestMemory, MemoryError};
use std::collections::BTreeMap;
use vstd::prelude::*;

verus! {

broadcast use vstd::std_specs::btree::group_btree_axioms;

/// Whether a call names the device while it is held.
pub open spec fn device_call(graphics: Graphics, device: u32) -> bool {
    device == DEVICE && graphics.device_refs != 0
}

/// Whether the single-precision float with bits `word` is finite.
pub open spec fn finite_bits(word: u32) -> bool {
    word & 0x7f80_0000 != 0x7f80_0000
}

/// The viewport that `fields = [x, y, width, height, min_z, max_z]` sets on
/// a render target of `width` by `height`, if it is accepted: a non-empty
/// rectangle inside the target and the full depth range.
pub open spec fn viewport_of(fields: Seq<u32>, target_width: u32, target_height: u32) -> Option<
    Viewport,
> {
    let (x, y, width, height) = (fields[0], fields[1], fields[2], fields[3]);
    if width == 0 || height == 0 || x + width > target_width || y + height > target_height
        || fields[4] != 0 || fields[5] != ONE_BITS {
        None
    } else {
        Some(Viewport { left: x, top: y, right: (x + width) as u32, bottom: (y + height) as u32 })
    }
}

/// The matrix stored for `state`, or the identity.
pub open spec fn transform_of(transforms: Map<u32, [u32; 16]>, state: u32) -> Seq<u32> {
    if transforms.contains_key(state) {
        transforms[state]@
    } else {
        identity_matrix()
    }
}

/// What a render state write does: depth testing (7) and depth writes (14)
/// on or off, and the depth comparison (23).
pub open spec fn render_state_set(policy: DepthPolicy, z_enabled: bool, state: u32, value: u32) -> Option<
    (bool, DepthPolicy),
> {
    if state == 7 && value <= 1 {
        Some((value == 1, policy))
    } else if state == 14 && value <= 1 {
        Some((z_enabled, DepthPolicy { write_enabled: value == 1, ..policy }))
    } else if state == 23 && 1 <= value <= 8 {
        Some((z_enabled, DepthPolicy { function: value, ..policy }))
    } else {
        None
    }
}

/// A copy of `frame`.
fn duplicate_frame(frame: &Frame) -> (copy: Frame)
    ensures
        copy.width == frame.width,
        copy.height == frame.height,
        copy.rgba@ == frame.rgba@,
{
    let mut rgba: Vec<u8> = Vec::new();
    let mut i: usize = 0;
    while i < frame.rgba.len()
        invariant
            i <= frame.rgba@.len(),
            rgba@ == frame.rgba@.subrange(0, i as int),
        decreases frame.rgba@.len() - i,
    {
        rgba.push(frame.rgba[i]);
        assert(rgba@ =~= frame.rgba@.subrange(0, i + 1));
        i = i + 1;
    }
    assert(rgba@ =~= frame.rgba@);
    Frame { width: frame.width, height: frame.height, rgba }
}

/// What `set_shader` answers and leaves.
pub open spec fn set_shader_result(
    new: Graphics,
    old: Graphics,
    call: Call,
    arguments: Seq<u32>,
    status: u32,
) -> bool {
    &&& (if device_call(old, arguments[0]) && call == Call::SetVertexShader && (
        arguments[1] == 0x44 || arguments[1] == 0x142 || arguments[1] == 0x152) {
            status == 0 && new == (Graphics { vertex_fvf: arguments[1], ..old })
        } else if device_call(old, arguments[0]) && call == Call::SetPixelShader
            && arguments[1] == 0 {
            status == 0 && new == old
        } else {
            status == INVALID_CALL && new == old
        })
}

/// What `set_viewport` answers and leaves.
pub open spec fn set_viewport_result(
    new: Graphics,
    old: Graphics,
    arguments: Seq<u32>,
    memory: GuestMemory,
    outcome: Result<u32, MemoryError>,
) -> bool {
    &&& (if !device_call(old, arguments[0]) || arguments[1] == 0 || old.back is None {
            outcome == Ok::<u32, MemoryError>(INVALID_CALL) && new == old
        } else {
            match memory.access(arguments[1] as u64, 24, Access::Read) {
                Err(error) => outcome == Err::<u32, MemoryError>(error) && new == old,
                Ok(()) => {
                    let back = old.back->Some_0;
                    match viewport_of(words_at(memory, arguments[1], 6), back.width, back.height) {
                        None => outcome == Ok::<u32, MemoryError>(INVALID_CALL) && new
                            == old,
                        Some(viewport) => outcome == Ok::<u32, MemoryError>(0) && new
                            == (Graphics { viewport: Some(viewport), ..old }),
                    }
                },
            }
        })
}

/// What `set_transform` answers and leaves.
pub open spec fn set_transform_result(
    new: Graphics,
    old: Graphics,
    arguments: Seq<u32>,
    memory: GuestMemory,
    outcome: Result<u32, MemoryError>,
) -> bool {
    &&& (if !device_call(old, arguments[0]) || !transform_state(arguments[1])
            || arguments[2] == 0 {
            outcome == Ok::<u32, MemoryError>(INVALID_CALL) && new == old
        } else {
            match memory.access(arguments[2] as u64, 64, Access::Read) {
                Err(error) => outcome == Err::<u32, MemoryError>(error) && new == old,
                Ok(()) => {
                    let matrix = words_at(memory, arguments[2], 16);
                    if exists|i: int| 0 <= i < 16 && !#[trigger] finite_bits(matrix[i]) {
                        outcome == Ok::<u32, MemoryError>(INVALID_CALL) && new == old
                    } else {
                        &&& outcome == Ok::<u32, MemoryError>(0)
                        &&& new.transforms@.dom() == old.transforms@.dom().insert(
                            arguments[1],
                        )
                        &&& new.transforms@[arguments[1]]@ == matrix
                        &&& forall|state: u32|
                            state != arguments[1] && old.transforms@.contains_key(state)
                                ==> #[trigger] new.transforms@[state]
                                == old.transforms@[state]
                        &&& new == (Graphics {
                            transforms: new.transforms,
                            ..old
                        })
                    }
                },
            }
        })
}

/// What `get_transform` answers and leaves.
pub open spec fn get_transform_result(
    graphics: Graphics,
    arguments: Seq<u32>,
    new_memory: GuestMemory,
    old_memory: GuestMemory,
    outcome: Result<u32, MemoryError>,
) -> bool {
    &&& (if !device_call(graphics, arguments[0]) || !transform_state(arguments[1]) || arguments[2]
            == 0 {
            outcome == Ok::<u32, MemoryError>(INVALID_CALL) && new_memory == old_memory
        } else {
            stored(
                old_memory,
                new_memory,
                arguments[2] as u64,
                words_bytes(transform_of(graphics.transforms@, arguments[1])),
                outcome,
            )
        })
}

/// What `set_render_state` answers and leaves.
pub open spec fn set_render_state_result(
    new: Graphics,
    old: Graphics,
    arguments: Seq<u32>,
    status: u32,
) -> bool {
    &&& (!device_call(old, arguments[0]) ==> status == INVALID_CALL && new
            == old)
    &&& (device_call(old, arguments[0]) ==> match render_state_set(
            old.depth_policy,
            old.z_enabled,
            arguments[1],
            arguments[2],
        ) {
            None => status == INVALID_CALL && new == old,
            Some((z_enabled, policy)) => status == 0 && new == (Graphics {
                z_enabled,
                depth_policy: policy,
                ..old
            }),
        })
}

/// What `get_texture_stage_state` answers and leaves.
pub open spec fn get_texture_stage_state_result(
    graphics: Graphics,
    arguments: Seq<u32>,
    new_memory: GuestMemory,
    old_memory: GuestMemory,
    outcome: Result<u32, MemoryError>,
) -> bool {
    &&& (if !device_call(graphics, arguments[0]) || arguments[1] >= 8 || arguments[2] != 26 {
            outcome == Ok::<u32, MemoryError>(INVALID_CALL) && new_memory == old_memory
        } else {
            stored(
                old_memory,
                new_memory,
                arguments[3] as u64,
                value_bytes(graphics.color_arg0@[arguments[1] as int], 4),
                outcome,
            )
        })
}

/// What `set_texture_stage_state` answers and leaves.
pub open spec fn set_texture_stage_state_result(
    new: Graphics,
    old: Graphics,
    arguments: Seq<u32>,
    status: u32,
) -> bool {
    &&& (if !device_call(old, arguments[0]) || arguments[1] >= 8 || arguments[2] != 26
            || arguments[3] > 2 {
            status == INVALID_CALL && new == old
        } else {
            status == 0 && new.color_arg0@ == old.color_arg0@.update(
                arguments[1] as int,
                arguments[3],
            ) && new == (Graphics { color_arg0: new.color_arg0, ..old })
        })
}

/// What `validate_device` answers and leaves.
pub open spec fn validate_device_result(
    graphics: Graphics,
    arguments: Seq<u32>,
    new_memory: GuestMemory,
    old_memory: GuestMemory,
    outcome: Result<u32, MemoryError>,
) -> bool {
    &&& (if !device_call(graphics, arguments[0]) {
            outcome == Ok::<u32, MemoryError>(INVALID_CALL) && new_memory == old_memory
        } else if exists|i: int| 0 <= i < 8 && #[trigger] graphics.texture_stages@[i] != 0 {
            outcome == Ok::<u32, MemoryError>(UNSUPPORTED_COLOR_OPERATION) && new_memory
                == old_memory
        } else {
            stored(
                old_memory,
                new_memory,
                arguments[1] as u64,
                value_bytes(1, 4),
                outcome,
            )
        })
}

/// What `test_cooperative_level` answers and leaves.
pub open spec fn test_cooperative_level_result(
    graphics: Graphics,
    device: u32,
    status: u32,
) -> bool {
    &&& (status == if device_call(graphics, device) {
            0
        } else {
            INVALID_CALL
        })
}

/// What `scene` answers and leaves.
pub open spec fn scene_result(
    new: Graphics,
    old: Graphics,
    call: Call,
    device: u32,
    status: u32,
) -> bool {
    &&& (if !device_call(old, device) || old.scene_open == (call
            == Call::BeginScene) {
            status == INVALID_CALL && new == old
        } else {
            status == 0 && new == (Graphics {
                scene_open: call == Call::BeginScene,
                ..old
            })
        })
}

/// What `get_depth_surface` answers and leaves.
pub open spec fn get_depth_surface_result(
    new: Graphics,
    old: Graphics,
    arguments: Seq<u32>,
    new_memory: GuestMemory,
    old_memory: GuestMemory,
    outcome: Result<u32, MemoryError>,
) -> bool {
    &&& (if !device_call(old, arguments[0]) || old.depth is None
            || old.depth_surface_refs >= u32::MAX - 1 || (old.depth_surface_refs
            == 0 && old.device_refs == u32::MAX) {
            outcome == Ok::<u32, MemoryError>(INVALID_CALL) && new == old
                && new_memory == old_memory
        } else {
            &&& stored(
                old_memory,
                new_memory,
                arguments[1] as u64,
                value_bytes(DEPTH_SURFACE, 4),
                outcome,
            )
            &&& outcome is Ok ==> new == (Graphics {
                depth_surface_refs: (old.depth_surface_refs + 1) as u32,
                device_refs: if old.depth_surface_refs == 0 {
                    (old.device_refs + 1) as u32
                } else {
                    old.device_refs
                },
                ..old
            })
            &&& outcome is Err ==> new == old
        })
}

/// What `depth_surface_ref` answers and leaves.
pub open spec fn depth_surface_ref_result(
    new: Graphics,
    old: Graphics,
    call: Call,
    arguments: Seq<u32>,
    status: u32,
) -> bool {
    &&& (if arguments[0] != DEPTH_SURFACE || old.depth_surface_refs == 0 {
            status == INVALID_CALL && new == old
        } else if call == Call::DepthSurfaceAddRef {
            if old.depth_surface_refs >= u32::MAX - 1 {
                status == INVALID_CALL && new == old
            } else {
                status == old.depth_surface_refs + 2 && new == (Graphics {
                    depth_surface_refs: (old.depth_surface_refs + 1) as u32,
                    ..old
                })
            }
        } else if old.depth_surface_refs > 1 {
            status == old.depth_surface_refs && new == (Graphics {
                depth_surface_refs: (old.depth_surface_refs - 1) as u32,
                ..old
            })
        } else if old.device_refs > 1 {
            status == 1 && new == (Graphics {
                depth_surface_refs: 0,
                device_refs: (old.device_refs - 1) as u32,
                ..old
            })
        } else {
            status == 0 && new.device_refs == 0 && new.finished(
                Graphics { depth_surface_refs: 0, device_refs: 0, ..old },
            )
        })
}

/// What `present` answers and leaves.
pub open spec fn present_result(
    new: Graphics,
    old: Graphics,
    arguments: Seq<u32>,
    status: u32,
) -> bool {
    &&& (if !device_call(old, arguments[0]) || arguments[1] != 0 || arguments[2] != 0
            || arguments[3] != 0 || arguments[4] != 0 {
            status == INVALID_CALL && new == old
        } else {
            &&& status == 0
            &&& match old.back {
                None => new.front is None,
                Some(back) => new.front matches Some(front) && front.width
                    == back.width && front.height == back.height && front.rgba@
                    == back.rgba@,
            }
            &&& if old.back is Some && old.spare is Some {
                new.back == old.spare && new.spare == old.back
            } else {
                new.back == old.back && new.spare == old.spare
            }
            &&& new == (Graphics {
                front: new.front,
                back: new.back,
                spare: new.spare,
                ..old
            })
        })
}

impl Graphics {
    /// `SetViewport(viewport)`.
    pub fn set_viewport(&mut self, arguments: &[u32], memory: &GuestMemory) -> (outcome: Result<
        u32,
        MemoryError,
    >)
        requires
            old(self).wf(),
            memory.wf(),
            arguments@.len() == 2,
        ensures
            final(self).wf(),
            set_viewport_result(*final(self), *old(self), arguments@, *memory, outcome),
    {
        if arguments[0] != DEVICE || self.device_refs == 0 || arguments[1] == 0 {
            return Ok(INVALID_CALL);
        }
        let (target_width, target_height) = match &self.back {
            Some(frame) => (frame.width, frame.height),
            None => return Ok(INVALID_CALL),
        };
        let mut fields = [0u32; 6];
        load_words(memory, arguments[1], &mut fields)?;
        let x = fields[0];
        let y = fields[1];
        let width = fields[2];
        let height = fields[3];
        if width == 0 || height == 0 || width > target_width || x > target_width - width || height
            > target_height || y > target_height - height || fields[4] != 0 || fields[5]
            != ONE_BITS {
            return Ok(INVALID_CALL);
        }
        self.viewport = Some(Viewport { left: x, top: y, right: x + width, bottom: y + height });
        Ok(0)
    }

    /// `SetTransform(state, matrix)`: a matrix of finite numbers for one of
    /// the transform states.
    #[verifier::loop_isolation(false)]
    pub fn set_transform(&mut self, arguments: &[u32], memory: &GuestMemory) -> (outcome: Result<
        u32,
        MemoryError,
    >)
        requires
            old(self).wf(),
            memory.wf(),
            arguments@.len() == 3,
        ensures
            final(self).wf(),
            set_transform_result(*final(self), *old(self), arguments@, *memory, outcome),
    {
        if arguments[0] != DEVICE || self.device_refs == 0 || !valid_transform_state(arguments[1])
            || arguments[2] == 0 {
            return Ok(INVALID_CALL);
        }
        let mut matrix = [0u32; 16];
        load_words(memory, arguments[2], &mut matrix)?;
        let mut index: usize = 0;
        while index < 16
            invariant
                index <= 16,
                matrix@.len() == 16,
                forall|j: int| 0 <= j < index ==> #[trigger] finite_bits(matrix@[j]),
            decreases 16 - index,
        {
            if matrix[index] & 0x7f80_0000 == 0x7f80_0000 {
                assert(!finite_bits(matrix@[index as int]));
                return Ok(INVALID_CALL);
            }
            index = index + 1;
        }
        self.transforms.insert(arguments[1], matrix);
        Ok(0)
    }

    /// `GetTransform(state, output)`: the matrix set for the state, or the
    /// identity.
    pub fn get_transform(&self, arguments: &[u32], memory: &mut GuestMemory) -> (outcome: Result<
        u32,
        MemoryError,
    >)
        requires
            old(memory).wf(),
            arguments@.len() == 3,
        ensures
            final(memory).wf(),
            get_transform_result(*self, arguments@, *final(memory), *old(memory), outcome),
    {
        if arguments[0] != DEVICE || self.device_refs == 0 || !valid_transform_state(arguments[1])
            || arguments[2] == 0 {
            return Ok(INVALID_CALL);
        }
        let matrix: [u32; 16] = match self.transforms.get(&arguments[1]) {
            Some(matrix) => *matrix,
            None => [ONE_BITS, 0, 0, 0, 0, ONE_BITS, 0, 0, 0, 0, ONE_BITS, 0, 0, 0, 0, ONE_BITS],
        };
        assert(matrix@ =~= transform_of(self.transforms@, arguments@[1]));
        match store_words(memory, arguments[2], &matrix) {
            Ok(()) => Ok(0),
            Err(error) => Err(error),
        }
    }

    /// `SetRenderState(state, value)`: depth testing, depth writes and the
    /// depth comparison.
    pub fn set_render_state(&mut self, arguments: &[u32]) -> (status: u32)
        requires
            old(self).wf(),
            arguments@.len() == 3,
        ensures
            final(self).wf(),
            set_render_state_result(*final(self), *old(self), arguments@, status),
    {
        if arguments[0] != DEVICE || self.device_refs == 0 {
            return INVALID_CALL;
        }
        let state = arguments[1];
        let value = arguments[2];
        if state == 7 && value <= 1 {
            self.z_enabled = value == 1;
        } else if state == 14 && value <= 1 {
            self.depth_policy.write_enabled = value == 1;
        } else if state == 23 && 1 <= value && value <= 8 {
            self.depth_policy.function = value;
        } else {
            return INVALID_CALL;
        }
        0
    }

    /// `SetTextureStageState(stage, kind, value)`: only the first colour
    /// argument (26) of a stage, up to 2.
    pub fn set_texture_stage_state(&mut self, arguments: &[u32]) -> (status: u32)
        requires
            old(self).wf(),
            arguments@.len() == 4,
        ensures
            final(self).wf(),
            set_texture_stage_state_result(*final(self), *old(self), arguments@, status),
    {
        let stage = arguments[1];
        if arguments[0] != DEVICE || self.device_refs == 0 || stage >= 8 || arguments[2] != 26
            || arguments[3] > 2 {
            return INVALID_CALL;
        }
        self.color_arg0.set(stage as usize, arguments[3]);
        0
    }

    /// `GetTextureStageState(stage, kind, output)`.
    pub fn get_texture_stage_state(&self, arguments: &[u32], memory: &mut GuestMemory) -> (outcome:
        Result<u32, MemoryError>)
        requires
            old(memory).wf(),
            arguments@.len() == 4,
        ensures
            final(memory).wf(),
            get_texture_stage_state_result(
                *self,
                arguments@,
                *final(memory),
                *old(memory),
                outcome,
            ),
    {
        let stage = arguments[1];
        if arguments[0] != DEVICE || self.device_refs == 0 || stage >= 8 || arguments[2] != 26 {
            return Ok(INVALID_CALL);
        }
        match store_word(memory, arguments[3], self.color_arg0[stage as usize]) {
            Ok(()) => Ok(0),
            Err(error) => Err(error),
        }
    }

    /// `ValidateDevice(output)`: one pass, unless a texture is bound.
    #[verifier::loop_isolation(false)]
    pub fn validate_device(&self, arguments: &[u32], memory: &mut GuestMemory) -> (outcome: Result<
        u32,
        MemoryError,
    >)
        requires
            old(memory).wf(),
            arguments@.len() == 2,
        ensures
            final(memory).wf(),
            validate_device_result(*self, arguments@, *final(memory), *old(memory), outcome),
    {
        if arguments[0] != DEVICE || self.device_refs == 0 {
            return Ok(INVALID_CALL);
        }
        let mut index: usize = 0;
        while index < 8
            invariant
                index <= 8,
                forall|j: int| 0 <= j < index ==> self.texture_stages@[j] == 0,
            decreases 8 - index,
        {
            if self.texture_stages[index] != 0 {
                return Ok(UNSUPPORTED_COLOR_OPERATION);
            }
            index = index + 1;
        }
        match store_word(memory, arguments[1], 1) {
            Ok(()) => Ok(0),
            Err(error) => Err(error),
        }
    }

    /// `TestCooperativeLevel`: the device is never lost.
    pub fn test_cooperative_level(&self, device: u32) -> (status: u32)
        ensures
            test_cooperative_level_result(*self, device, status),
    {
        if device == DEVICE && self.device_refs != 0 {
            0
        } else {
            INVALID_CALL
        }
    }

    /// `BeginScene` and `EndScene`: each only in turn.
    pub fn scene(&mut self, call: Call, device: u32) -> (status: u32)
        requires
            old(self).wf(),
        ensures
            final(self).wf(),
            scene_result(*final(self), *old(self), call, device, status),
    {
        let opening = call == Call::BeginScene;
        if device != DEVICE || self.device_refs == 0 || self.scene_open == opening {
            return INVALID_CALL;
        }
        self.scene_open = opening;
        0
    }

    /// `GetDepthStencilSurface(output)`: the depth-stencil surface, which
    /// holds a reference to the device while any of its own are held.
    pub fn get_depth_surface(&mut self, arguments: &[u32], memory: &mut GuestMemory) -> (outcome:
        Result<u32, MemoryError>)
        requires
            old(self).wf(),
            old(memory).wf(),
            arguments@.len() == 2,
        ensures
            final(self).wf(),
            final(memory).wf(),
            get_depth_surface_result(
                *final(self),
                *old(self),
                arguments@,
                *final(memory),
                *old(memory),
                outcome,
            ),
    {
        if arguments[0] != DEVICE || self.device_refs == 0 || self.depth.is_none() {
            return Ok(INVALID_CALL);
        }
        if self.depth_surface_refs >= u32::MAX - 1 {
            return Ok(INVALID_CALL);
        }
        let refs = self.depth_surface_refs + 1;
        let retained_device = if self.depth_surface_refs == 0 {
            if self.device_refs == u32::MAX {
                return Ok(INVALID_CALL);
            }
            self.device_refs + 1
        } else {
            self.device_refs
        };
        store_word(memory, arguments[1], DEPTH_SURFACE)?;
        self.depth_surface_refs = refs;
        self.device_refs = retained_device;
        Ok(0)
    }

    /// `AddRef` and `Release` of the depth-stencil surface: the answer counts
    /// the surface's references and the one it holds on the device; the last
    /// release gives the device's reference back, ending the device when it
    /// was the last.
    pub fn depth_surface_ref(&mut self, call: Call, arguments: &[u32]) -> (status: u32)
        requires
            old(self).wf(),
            arguments@.len() >= 1,
        ensures
            final(self).wf(),
            depth_surface_ref_result(*final(self), *old(self), call, arguments@, status),
    {
        if arguments[0] != DEPTH_SURFACE || self.depth_surface_refs == 0 {
            return INVALID_CALL;
        }
        if call == Call::DepthSurfaceAddRef {
            if self.depth_surface_refs >= u32::MAX - 1 {
                return INVALID_CALL;
            }
            let refs = self.depth_surface_refs + 1;
            self.depth_surface_refs = refs;
            return refs + 1;
        }
        self.depth_surface_refs = self.depth_surface_refs - 1;
        if self.depth_surface_refs != 0 {
            return self.depth_surface_refs + 1;
        }
        self.device_refs = self.device_refs - 1;
        if self.device_refs == 0 {
            self.finish_device();
            0
        } else {
            1
        }
    }

    /// `Present(source, destination, window, region)`, all of them null:
    /// the render target becomes the presented frame, and with two buffers
    /// the render target and the spare change places.
    pub fn present(&mut self, arguments: &[u32]) -> (status: u32)
        requires
            old(self).wf(),
            arguments@.len() == 5,
        ensures
            final(self).wf(),
            present_result(*final(self), *old(self), arguments@, status),
    {
        if arguments[0] != DEVICE || self.device_refs == 0 || arguments[1] != 0 || arguments[2] != 0
            || arguments[3] != 0 || arguments[4] != 0 {
            return INVALID_CALL;
        }
        let front = match &self.back {
            Some(back) => Some(duplicate_frame(back)),
            None => None,
        };
        self.front = front;
        if self.back.is_some() && self.spare.is_some() {
            let back = self.back.take();
            let spare = self.spare.take();
            self.back = spare;
            self.spare = back;
        }
        0
    }

    /// `SetVertexShader(fvf)` for the three supported vertex layouts, and
    /// `SetPixelShader(0)`.
    pub fn set_shader(&mut self, call: Call, arguments: &[u32]) -> (status: u32)
        requires
            old(self).wf(),
            arguments@.len() == 2,
        ensures
            final(self).wf(),
            set_shader_result(*final(self), *old(self), call, arguments@, status),
    {
        if arguments[0] != DEVICE || self.device_refs == 0 {
            return INVALID_CALL;
        }
        if call == Call::SetVertexShader && (arguments[1] == 0x44 || arguments[1] == 0x142
            || arguments[1] == 0x152) {
            self.vertex_fvf = arguments[1];
            0
        } else if call == Call::SetPixelShader && arguments[1] == 0 {
            0
        } else {
            INVALID_CALL
        }
    }
}

} // verus!
