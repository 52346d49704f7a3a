//! The Direct3D 8 entry point: creating the root object, the reference
//! counts of the root object and the device, and routing every other method
//! to the part of the device that answers it. Draws are checked here and
//! handed back to be rasterised.
use super::adapter::{
    adapter_identifier_result,
    adapter_mode_result,
    check_depth_stencil_match_result,
    check_device_format_result,
    check_device_type_result,
    check_multisample_type_result,
    create_device_result,
    device_caps_result,
};
use super::aperture::available_texture_memory_result;
use super::buffers::{
    buffer_lock_result,
    buffer_unlock_result,
    create_index_buffer_result,
    create_vertex_buffer_result,
    dropped_device,
    get_indices_result,
    get_stream_source_result,
    index_buffer_add_ref_result,
    index_release_unbacked,
    index_released,
    set_indices_result,
    set_stream_source_result,
    vertex_buffer_add_ref_result,
    vertex_release_unbacked,
    vertex_released,
};
use super::calls::{Call, arity};
use super::clear::clear_result;
use super::device::{Graphics, Windows};
use super::draws::{IndexedRequest, UpDraw, UpRequest, indexed_read, indexed_refused, up_refused};
use super::levels::{
    texture_level_desc_result,
    texture_lock_rect_result,
    texture_pre_load_result,
    texture_surface_desc_result,
    texture_surface_lock_rect_result,
    texture_surface_unlock_rect_result,
    texture_unlock_rect_result,
};
use super::objects::{DEVICE, INVALID_CALL, ROOT};
use super::references::{
    set_texture_result,
    surface_referenced,
    surface_release_unbacked,
    texture_add_ref_result,
    texture_get_surface_result,
    texture_level_count_result,
    texture_release_unbacked,
    texture_released,
};
use super::state::{
    depth_surface_ref_result,
    get_depth_surface_result,
    get_texture_stage_state_result,
    get_transform_result,
    present_result,
    scene_result,
    set_render_state_result,
    set_shader_result,
    set_texture_stage_state_result,
    set_transform_result,
    set_viewport_result,
    test_cooperative_level_result,
    validate_device_result,
};
use super::textures::create_texture_result;
use crate::memory::{GuestMemory, MemoryError};
use vstd::prelude::*;

verus! {

/// What a Direct3D 8 method answers: a status or count, or a checked draw
/// for the caller to rasterise.
pub enum Dispatched {
    Status(u32),
    Up(UpRequest),
    Indexed(IndexedRequest),
}

/// What `Direct3DCreate8(version)` answers and leaves: the root object,
/// with one reference, for SDK version 120 or 220 when there is none yet;
/// otherwise null and no change.
pub open spec fn root_created(new: Graphics, old: Graphics, version: u32, status: u32) -> bool {
    if (version == 120 || version == 220) && old.root_refs == 0 {
        status == ROOT && new == Graphics { root_refs: 1, ..old }
    } else {
        status == 0 && new == old
    }
}

/// What `AddRef` (when `add` holds) or `Release` of the root object
/// answers and leaves: refused for another object or a root object not
/// held; otherwise the count after the change, adding saturating.
pub open spec fn root_referenced(
    new: Graphics,
    old: Graphics,
    add: bool,
    object: u32,
    status: u32,
) -> bool {
    if object != ROOT || old.root_refs == 0 {
        status == INVALID_CALL && new == old
    } else {
        let refs = if add {
            if old.root_refs == u32::MAX {
                u32::MAX
            } else {
                (old.root_refs + 1) as u32
            }
        } else {
            (old.root_refs - 1) as u32
        };
        status == refs && new == Graphics { root_refs: refs, ..old }
    }
}

/// What `AddRef` (when `add` holds) or `Release` of the device answers and
/// leaves: refused for another object or a device not held; adding counts
/// one more (saturating); releasing gives one back and ends the device with
/// the last; the answer is the count after the change.
pub open spec fn device_referenced(
    new: Graphics,
    old: Graphics,
    add: bool,
    object: u32,
    status: u32,
) -> bool {
    if object != DEVICE || old.device_refs == 0 {
        status == INVALID_CALL && new == old
    } else if add {
        let refs = if old.device_refs == u32::MAX {
            u32::MAX
        } else {
            (old.device_refs + 1) as u32
        };
        status == refs && new == Graphics { device_refs: refs, ..old }
    } else {
        status == new.device_refs && dropped_device(new, old)
    }
}

/// Whether `call` gives back a reference that would leave a count the
/// device does not hold.
pub open spec fn release_unbacked(graphics: Graphics, call: Call, arguments: Seq<u32>) -> bool {
    ||| call == Call::TextureRelease && texture_release_unbacked(graphics, arguments[0])
    ||| call == Call::VertexBufferRelease && vertex_release_unbacked(graphics, arguments[0])
    ||| call == Call::IndexBufferRelease && index_release_unbacked(graphics, arguments[0])
    ||| call == Call::TextureSurfaceRelease && surface_release_unbacked(graphics, arguments[0])
}

/// `outcome` is the status `status`.
pub open spec fn answered(outcome: Result<Dispatched, MemoryError>, status: u32) -> bool {
    outcome matches Ok(Dispatched::Status(value)) && value == status
}

/// Whether `outcome` is a status or a fault.
pub open spec fn routed(outcome: Result<Dispatched, MemoryError>) -> bool {
    outcome matches Ok(Dispatched::Status(_)) || outcome is Err
}

/// The status or the fault that `outcome` carries.
pub open spec fn status_of(outcome: Result<Dispatched, MemoryError>) -> Result<u32, MemoryError> {
    match outcome {
        Ok(Dispatched::Status(status)) => Ok(status),
        Err(error) => Err(error),
        _ => Ok(0),
    }
}

/// `outcome` is the status or the fault of `result`.
pub open spec fn passed_on(
    outcome: Result<Dispatched,
    MemoryError>,
    result: Result<u32,
    MemoryError>,
) -> bool {
    match result {
        Ok(status) => answered(outcome, status),
        Err(error) => outcome matches Err(found) && found == error,
    }
}

impl Graphics {
    /// Whether `call` with `arguments` would give back a device reference
    /// that the device does not hold; such a call must not be made.
    pub fn release_would_underflow(&self, call: Call, arguments: &[u32]) -> (unbacked: bool)
        requires
            self.wf(),
            arguments@.len() >= 1,
        ensures
            unbacked == release_unbacked(*self, call, arguments@),
    {
        if self.device_refs != 0 {
            return false;
        }
        let object = arguments[0];
        match call {
            Call::TextureRelease => match self.textures.get(&object) {
                Some(texture) => texture.refs != 0 && texture.total_refs() <= 1,
                None => false,
            },
            Call::VertexBufferRelease => match self.vertex_buffers.get(&object) {
                Some(buffer) => buffer.refs <= 1,
                None => false,
            },
            Call::IndexBufferRelease => match self.index_buffers.get(&object) {
                Some(buffer) => buffer.refs <= 1,
                None => false,
            },
            Call::TextureSurfaceRelease => match self.texture_surface_identity(object) {
                Some((texture, _)) => match self.textures.get(&texture) {
                    Some(found) => found.total_refs() == 1,
                    None => false,
                },
                None => false,
            },
            _ => false,
        }
    }

    /// `Direct3DCreate8(version)`.
    pub fn create_root(&mut self, version: u32) -> (status: u32)
        requires
            old(self).wf(),
        ensures
            final(self).wf(),
            root_created(*final(self), *old(self), version, status),
    {
        if !(version == 120 || version == 220) || self.root_refs != 0 {
            return 0;
        }
        self.root_refs = 1;
        ROOT
    }

    /// `AddRef` (when `add` is set) or `Release` of the root object.
    pub fn root_ref(&mut self, add: bool, object: u32) -> (status: u32)
        requires
            old(self).wf(),
        ensures
            final(self).wf(),
            root_referenced(*final(self), *old(self), add, object, status),
    {
        if object != ROOT || self.root_refs == 0 {
            return INVALID_CALL;
        }
        if add {
            self.root_refs = self.root_refs.saturating_add(1);
        } else {
            self.root_refs = self.root_refs - 1;
        }
        self.root_refs
    }

    /// `AddRef` (when `add` is set) or `Release` of the device.
    pub fn device_ref(&mut self, add: bool, object: u32) -> (status: u32)
        requires
            old(self).wf(),
        ensures
            final(self).wf(),
            device_referenced(*final(self), *old(self), add, object, status),
    {
        if object != DEVICE || self.device_refs == 0 {
            return INVALID_CALL;
        }
        if add {
            self.device_refs = self.device_refs.saturating_add(1);
        } else {
            self.device_refs = self.device_refs - 1;
            if self.device_refs == 0 {
                self.finish_device();
            }
        }
        self.device_refs
    }

    /// Answers the Direct3D 8 method `call` with its stack `arguments`.
    /// Every method but the draws changes the device (and memory) as the
    /// method of this type that answers it says; a draw is checked and read
    /// and handed back to be rasterised.
    pub fn dispatch(
        &mut self,
        call: Call,
        arguments: &[u32],
        memory: &mut GuestMemory,
        windows: &Windows,
    ) -> (outcome: Result<Dispatched, MemoryError>)
        requires
            old(self).wf(),
            old(memory).wf(),
            arguments@.len() == arity(call),
            !release_unbacked(*old(self), call, arguments@),
        ensures
            final(self).wf(),
            final(memory).wf(),
            call == Call::Create ==> *final(memory) == *old(memory) && exists|status: u32|
                answered(outcome, status) && root_created(
                    *final(self),
                    *old(self),
                    arguments@[0],
                    status,
                ),
            call == Call::AdapterCount ==> answered(
                outcome,
                if arguments@[0] == ROOT && old(self).root_refs != 0 {
                    1
                } else {
                    0
                },
            ) && *final(self) == *old(self) && *final(memory) == *old(memory),
            call == Call::AdapterModeCount ==> answered(
                outcome,
                if arguments@[0] == ROOT && old(self).root_refs != 0 && arguments@[1] == 0 {
                    1
                } else {
                    0
                },
            ) && *final(self) == *old(self) && *final(memory) == *old(memory),
            call == Call::RootAddRef || call == Call::RootRelease ==> *final(memory) == *old(
                memory,
            ) && exists|status: u32|
                answered(outcome, status) && root_referenced(
                    *final(self),
                    *old(self),
                    call == Call::RootAddRef,
                    arguments@[0],
                    status,
                ),
            call == Call::DeviceAddRef || call == Call::DeviceRelease ==> *final(memory) == *old(
                memory,
            ) && exists|status: u32|
                answered(outcome, status) && device_referenced(
                    *final(self),
                    *old(self),
                    call == Call::DeviceAddRef,
                    arguments@[0],
                    status,
                ),
            call == Call::TextureRelease ==> exists|result: Result<u32, MemoryError>|
                passed_on(outcome, result) && texture_released(
                    *final(self),
                    *old(self),
                    *final(memory),
                    *old(memory),
                    arguments@[0],
                    result,
                ),
            call == Call::VertexBufferRelease ==> exists|result: Result<u32, MemoryError>|
                passed_on(outcome, result) && vertex_released(
                    *final(self),
                    *old(self),
                    *final(memory),
                    *old(memory),
                    arguments@[0],
                    result,
                ),
            call == Call::IndexBufferRelease ==> exists|result: Result<u32, MemoryError>|
                passed_on(outcome, result) && index_released(
                    *final(self),
                    *old(self),
                    *final(memory),
                    *old(memory),
                    arguments@[0],
                    result,
                ),
            call == Call::TextureSurfaceAddRef || call == Call::TextureSurfaceRelease ==> exists|
                result: Result<u32, MemoryError>,
            |
                passed_on(outcome, result) && surface_referenced(
                    *final(self),
                    *old(self),
                    *final(memory),
                    *old(memory),
                    call == Call::TextureSurfaceAddRef,
                    arguments@[0],
                    result,
                ),
            call == Call::DrawPrimitiveUp ==> *final(self) == *old(self) && *final(memory) == *old(
                memory,
            ) && (outcome matches Ok(Dispatched::Up(request)) && request == if up_refused(
                *old(self),
                arguments@,
            ) {
                UpRequest::Refused
            } else if arguments@[2] == 0 {
                UpRequest::Nothing
            } else {
                UpRequest::Draw(
                    UpDraw {
                        topology: arguments@[1],
                        count: arguments@[2],
                        pointer: arguments@[3],
                        stride: arguments@[4],
                        vertices: super::draws::vertex_count(arguments@[1], arguments@[2]) as u32,
                    },
                )
            }),
            call == Call::DrawIndexedPrimitive ==> *final(self) == *old(self) && *final(memory)
                == *old(memory) && if indexed_refused(*old(self), arguments@) {
                outcome matches Ok(Dispatched::Indexed(IndexedRequest::Refused))
            } else if arguments@[5] == 0 {
                outcome matches Ok(Dispatched::Indexed(IndexedRequest::Nothing))
            } else {
                exists|read: Result<IndexedRequest, MemoryError>|
                    indexed_read(*old(self), *old(memory), arguments@, read) && match read {
                        Ok(request) => outcome == Ok::<Dispatched, MemoryError>(
                            Dispatched::Indexed(request),
                        ),
                        Err(error) => outcome == Err::<Dispatched, MemoryError>(error),
                    }
            },
            call == Call::AdapterIdentifier ==> {
                &&& routed(outcome)
                &&& adapter_identifier_result(
                        *old(self),
                        arguments@,
                        *final(memory),
                        *old(memory),
                        status_of(outcome),
                    )
                &&& *final(self) == *old(self)
            },
            call == Call::AdapterMode ==> {
                &&& routed(outcome)
                &&& adapter_mode_result(
                        *old(self),
                        arguments@,
                        *final(memory),
                        *old(memory),
                        status_of(outcome),
                    )
                &&& *final(self) == *old(self)
            },
            call == Call::CurrentDisplayMode ==> {
                &&& routed(outcome)
                &&& adapter_mode_result(
                        *old(self),
                        seq![arguments@[0], arguments@[1], 0u32, arguments@[2]],
                        *final(memory),
                        *old(memory),
                        status_of(outcome),
                    )
                &&& *final(self) == *old(self)
            },
            call == Call::CheckDeviceType ==> {
                &&& outcome matches Ok(Dispatched::Status(status))
                &&& check_device_type_result(*old(self), arguments@, status)
                &&& *final(self) == *old(self)
                &&& *final(memory) == *old(memory)
            },
            call == Call::CheckDeviceFormat ==> {
                &&& outcome matches Ok(Dispatched::Status(status))
                &&& check_device_format_result(*old(self), arguments@, status)
                &&& *final(self) == *old(self)
                &&& *final(memory) == *old(memory)
            },
            call == Call::CheckDepthStencilMatch ==> {
                &&& outcome matches Ok(Dispatched::Status(status))
                &&& check_depth_stencil_match_result(*old(self), arguments@, status)
                &&& *final(self) == *old(self)
                &&& *final(memory) == *old(memory)
            },
            call == Call::CheckMultiSampleType ==> {
                &&& outcome matches Ok(Dispatched::Status(status))
                &&& check_multisample_type_result(*old(self), arguments@, status)
                &&& *final(self) == *old(self)
                &&& *final(memory) == *old(memory)
            },
            call == Call::DeviceCaps ==> {
                &&& routed(outcome)
                &&& device_caps_result(
                        *old(self),
                        arguments@,
                        *final(memory),
                        *old(memory),
                        status_of(outcome),
                    )
                &&& *final(self) == *old(self)
            },
            call == Call::CreateDevice ==> {
                &&& routed(outcome)
                &&& create_device_result(
                        *final(self),
                        *old(self),
                        arguments@,
                        *final(memory),
                        *old(memory),
                        *windows,
                        status_of(outcome),
                    )
            },
            call == Call::CreateTexture ==> {
                &&& routed(outcome)
                &&& create_texture_result(
                        *final(self),
                        *old(self),
                        arguments@,
                        *final(memory),
                        *old(memory),
                        status_of(outcome),
                    )
            },
            call == Call::CreateVertexBuffer ==> {
                &&& routed(outcome)
                &&& create_vertex_buffer_result(
                        *final(self),
                        *old(self),
                        arguments@,
                        *final(memory),
                        *old(memory),
                        status_of(outcome),
                    )
            },
            call == Call::CreateIndexBuffer ==> {
                &&& routed(outcome)
                &&& create_index_buffer_result(
                        *final(self),
                        *old(self),
                        arguments@,
                        *final(memory),
                        *old(memory),
                        status_of(outcome),
                    )
            },
            call == Call::TextureLevelDesc ==> {
                &&& routed(outcome)
                &&& texture_level_desc_result(
                        *old(self),
                        arguments@,
                        *final(memory),
                        *old(memory),
                        status_of(outcome),
                    )
                &&& *final(self) == *old(self)
            },
            call == Call::TextureLockRect ==> {
                &&& routed(outcome)
                &&& texture_lock_rect_result(
                        *final(self),
                        *old(self),
                        arguments@,
                        *final(memory),
                        *old(memory),
                        status_of(outcome),
                    )
            },
            call == Call::TextureUnlockRect ==> {
                &&& outcome matches Ok(Dispatched::Status(status))
                &&& texture_unlock_rect_result(*final(self), *old(self), arguments@, status)
                &&& *final(memory) == *old(memory)
            },
            call == Call::TextureGetSurface ==> {
                &&& routed(outcome)
                &&& texture_get_surface_result(
                        *final(self),
                        *old(self),
                        arguments@,
                        *final(memory),
                        *old(memory),
                        status_of(outcome),
                    )
            },
            call == Call::TextureSurfaceDesc ==> {
                &&& routed(outcome)
                &&& texture_surface_desc_result(
                        *old(self),
                        arguments@,
                        *final(memory),
                        *old(memory),
                        status_of(outcome),
                    )
                &&& *final(self) == *old(self)
            },
            call == Call::TextureSurfaceLockRect ==> {
                &&& routed(outcome)
                &&& texture_surface_lock_rect_result(
                        *final(self),
                        *old(self),
                        arguments@,
                        *final(memory),
                        *old(memory),
                        status_of(outcome),
                    )
            },
            call == Call::TextureSurfaceUnlockRect ==> {
                &&& outcome matches Ok(Dispatched::Status(status))
                &&& texture_surface_unlock_rect_result(
                        *final(self),
                        *old(self),
                        arguments@[0],
                        status,
                    )
                &&& *final(memory) == *old(memory)
            },
            call == Call::SetVertexShader || call == Call::SetPixelShader ==> {
                &&& outcome matches Ok(Dispatched::Status(status))
                &&& set_shader_result(*final(self), *old(self), call, arguments@, status)
                &&& *final(memory) == *old(memory)
            },
            call == Call::SetIndices ==> {
                &&& routed(outcome)
                &&& set_indices_result(
                        *final(self),
                        *old(self),
                        arguments@,
                        *final(memory),
                        *old(memory),
                        status_of(outcome),
                    )
            },
            call == Call::GetIndices ==> {
                &&& routed(outcome)
                &&& get_indices_result(
                        *final(self),
                        *old(self),
                        arguments@,
                        *final(memory),
                        *old(memory),
                        status_of(outcome),
                    )
            },
            call == Call::SetStreamSource ==> {
                &&& routed(outcome)
                &&& set_stream_source_result(
                        *final(self),
                        *old(self),
                        arguments@,
                        *final(memory),
                        *old(memory),
                        status_of(outcome),
                    )
            },
            call == Call::GetStreamSource ==> {
                &&& routed(outcome)
                &&& get_stream_source_result(
                        *final(self),
                        *old(self),
                        arguments@,
                        *final(memory),
                        *old(memory),
                        status_of(outcome),
                    )
            },
            call == Call::SetViewport ==> {
                &&& routed(outcome)
                &&& set_viewport_result(
                        *final(self),
                        *old(self),
                        arguments@,
                        *old(memory),
                        status_of(outcome),
                    )
                &&& *final(memory) == *old(memory)
            },
            call == Call::SetTransform ==> {
                &&& routed(outcome)
                &&& set_transform_result(
                        *final(self),
                        *old(self),
                        arguments@,
                        *old(memory),
                        status_of(outcome),
                    )
                &&& *final(memory) == *old(memory)
            },
            call == Call::GetTransform ==> {
                &&& routed(outcome)
                &&& get_transform_result(
                        *old(self),
                        arguments@,
                        *final(memory),
                        *old(memory),
                        status_of(outcome),
                    )
                &&& *final(self) == *old(self)
            },
            call == Call::SetRenderState ==> {
                &&& outcome matches Ok(Dispatched::Status(status))
                &&& set_render_state_result(*final(self), *old(self), arguments@, status)
                &&& *final(memory) == *old(memory)
            },
            call == Call::SetTexture ==> {
                &&& routed(outcome)
                &&& set_texture_result(
                        *final(self),
                        *old(self),
                        arguments@,
                        *final(memory),
                        *old(memory),
                        status_of(outcome),
                    )
            },
            call == Call::GetTextureStageState ==> {
                &&& routed(outcome)
                &&& get_texture_stage_state_result(
                        *old(self),
                        arguments@,
                        *final(memory),
                        *old(memory),
                        status_of(outcome),
                    )
                &&& *final(self) == *old(self)
            },
            call == Call::SetTextureStageState ==> {
                &&& outcome matches Ok(Dispatched::Status(status))
                &&& set_texture_stage_state_result(*final(self), *old(self), arguments@, status)
                &&& *final(memory) == *old(memory)
            },
            call == Call::ValidateDevice ==> {
                &&& routed(outcome)
                &&& validate_device_result(
                        *old(self),
                        arguments@,
                        *final(memory),
                        *old(memory),
                        status_of(outcome),
                    )
                &&& *final(self) == *old(self)
            },
            call == Call::TestCooperativeLevel ==> {
                &&& outcome matches Ok(Dispatched::Status(status))
                &&& test_cooperative_level_result(*old(self), arguments@[0], status)
                &&& *final(self) == *old(self)
                &&& *final(memory) == *old(memory)
            },
            call == Call::BeginScene || call == Call::EndScene ==> {
                &&& outcome matches Ok(Dispatched::Status(status))
                &&& scene_result(*final(self), *old(self), call, arguments@[0], status)
                &&& *final(memory) == *old(memory)
            },
            call == Call::GetDepthStencilSurface ==> {
                &&& routed(outcome)
                &&& get_depth_surface_result(
                        *final(self),
                        *old(self),
                        arguments@,
                        *final(memory),
                        *old(memory),
                        status_of(outcome),
                    )
            },
            call == Call::DepthSurfaceAddRef || call == Call::DepthSurfaceRelease ==> {
                &&& outcome matches Ok(Dispatched::Status(status))
                &&& depth_surface_ref_result(*final(self), *old(self), call, arguments@, status)
                &&& *final(memory) == *old(memory)
            },
            call == Call::AvailableTextureMemory ==> {
                &&& outcome matches Ok(Dispatched::Status(status))
                &&& available_texture_memory_result(*old(self), arguments@[0], status)
                &&& *final(self) == *old(self)
                &&& *final(memory) == *old(memory)
            },
            call == Call::TextureLevelCount ==> {
                &&& outcome matches Ok(Dispatched::Status(status))
                &&& texture_level_count_result(*old(self), arguments@[0], status)
                &&& *final(self) == *old(self)
                &&& *final(memory) == *old(memory)
            },
            call == Call::TextureAddRef ==> {
                &&& outcome matches Ok(Dispatched::Status(status))
                &&& texture_add_ref_result(*final(self), *old(self), arguments@[0], status)
                &&& *final(memory) == *old(memory)
            },
            call == Call::VertexBufferAddRef ==> {
                &&& outcome matches Ok(Dispatched::Status(status))
                &&& vertex_buffer_add_ref_result(*final(self), *old(self), arguments@[0], status)
                &&& *final(memory) == *old(memory)
            },
            call == Call::IndexBufferAddRef ==> {
                &&& outcome matches Ok(Dispatched::Status(status))
                &&& index_buffer_add_ref_result(*final(self), *old(self), arguments@[0], status)
                &&& *final(memory) == *old(memory)
            },
            call == Call::VertexBufferLock || call == Call::IndexBufferLock ==> {
                &&& routed(outcome)
                &&& buffer_lock_result(
                        *final(self),
                        *old(self),
                        call,
                        arguments@,
                        *final(memory),
                        *old(memory),
                        status_of(outcome),
                    )
            },
            call == Call::VertexBufferUnlock || call == Call::IndexBufferUnlock ==> {
                &&& outcome matches Ok(Dispatched::Status(status))
                &&& buffer_unlock_result(*final(self), *old(self), call, arguments@[0], status)
                &&& *final(memory) == *old(memory)
            },
            call == Call::TexturePreLoad ==> {
                &&& outcome matches Ok(Dispatched::Status(status))
                &&& texture_pre_load_result(*old(self), arguments@[0], status)
                &&& *final(self) == *old(self)
                &&& *final(memory) == *old(memory)
            },
            call == Call::Clear ==> {
                &&& routed(outcome)
                &&& clear_result(
                        *final(self),
                        *old(self),
                        arguments@,
                        *old(memory),
                        status_of(outcome),
                    )
                &&& *final(memory) == *old(memory)
            },
            call == Call::Present ==> {
                &&& outcome matches Ok(Dispatched::Status(status))
                &&& present_result(*final(self), *old(self), arguments@, status)
                &&& *final(memory) == *old(memory)
            },
    {
        if call == Call::Create || call == Call::RootAddRef || call == Call::RootRelease || call
            == Call::DeviceAddRef || call == Call::DeviceRelease {
            let status = if call == Call::Create {
                self.create_root(arguments[0])
            } else if call == Call::RootAddRef || call == Call::RootRelease {
                self.root_ref(call == Call::RootAddRef, arguments[0])
            } else {
                self.device_ref(call == Call::DeviceAddRef, arguments[0])
            };
            let outcome = Ok(Dispatched::Status(status));
            assert(answered(outcome, status));
            return outcome;
        }
        if call == Call::TextureRelease || call == Call::VertexBufferRelease || call
            == Call::IndexBufferRelease || call == Call::TextureSurfaceAddRef || call
            == Call::TextureSurfaceRelease {
            let result = if call == Call::TextureRelease {
                self.texture_release(arguments[0], memory)
            } else if call == Call::VertexBufferRelease {
                self.vertex_buffer_release(arguments[0], memory)
            } else if call == Call::IndexBufferRelease {
                self.index_buffer_release(arguments[0], memory)
            } else {
                self.texture_surface_ref(call, arguments[0], memory)
            };
            let outcome = match result {
                Ok(status) => Ok(Dispatched::Status(status)),
                Err(error) => Err(error),
            };
            assert(passed_on(outcome, result));
            return outcome;
        }
        let result: Result<u32, MemoryError> = match call {
            Call::Create => Ok(self.create_root(arguments[0])),
            Call::AdapterCount => Ok(if arguments[0] == ROOT && self.root_refs != 0 {
                1
            } else {
                0
            }),
            Call::AdapterModeCount => Ok(if arguments[0] == ROOT && self.root_refs != 0 && arguments[1]
                == 0 {
                1
            } else {
                0
            }),
            Call::RootAddRef => Ok(self.root_ref(true, arguments[0])),
            Call::RootRelease => Ok(self.root_ref(false, arguments[0])),
            Call::DeviceAddRef => Ok(self.device_ref(true, arguments[0])),
            Call::DeviceRelease => Ok(self.device_ref(false, arguments[0])),
            Call::AdapterIdentifier => self.adapter_identifier(arguments, memory),
            Call::AdapterMode => self.adapter_mode(arguments, memory),
            Call::CurrentDisplayMode => self.adapter_mode(
                &[arguments[0], arguments[1], 0, arguments[2]],
                memory,
            ),
            Call::CheckDeviceType => Ok(self.check_device_type(arguments)),
            Call::CheckDeviceFormat => Ok(self.check_device_format(arguments)),
            Call::CheckDepthStencilMatch => Ok(self.check_depth_stencil_match(arguments)),
            Call::CheckMultiSampleType => Ok(self.check_multisample_type(arguments)),
            Call::DeviceCaps => self.device_caps(arguments, memory),
            Call::CreateDevice => self.create_device(arguments, memory, windows),
            Call::CreateTexture => self.create_texture(arguments, memory),
            Call::CreateVertexBuffer => self.create_vertex_buffer(arguments, memory),
            Call::CreateIndexBuffer => self.create_index_buffer(arguments, memory),
            Call::TextureLevelDesc => self.texture_level_desc(arguments, memory),
            Call::TextureLockRect => self.texture_lock_rect(arguments, memory),
            Call::TextureUnlockRect => Ok(self.texture_unlock_rect(arguments)),
            Call::TextureGetSurface => self.texture_get_surface(arguments, memory),
            Call::TextureSurfaceAddRef | Call::TextureSurfaceRelease => {
                self.texture_surface_ref(call, arguments[0], memory)
            },
            Call::TextureSurfaceDesc => self.texture_surface_desc(arguments, memory),
            Call::TextureSurfaceLockRect => self.texture_surface_lock_rect(arguments, memory),
            Call::TextureSurfaceUnlockRect => Ok(self.texture_surface_unlock_rect(arguments[0])),
            Call::SetVertexShader | Call::SetPixelShader => Ok(self.set_shader(call, arguments)),
            Call::SetIndices => self.set_indices(arguments, memory),
            Call::GetIndices => self.get_indices(arguments, memory),
            Call::SetStreamSource => self.set_stream_source(arguments, memory),
            Call::GetStreamSource => self.get_stream_source(arguments, memory),
            Call::SetViewport => self.set_viewport(arguments, memory),
            Call::SetTransform => self.set_transform(arguments, memory),
            Call::GetTransform => self.get_transform(arguments, memory),
            Call::SetRenderState => Ok(self.set_render_state(arguments)),
            Call::SetTexture => self.set_texture(arguments, memory),
            Call::GetTextureStageState => self.get_texture_stage_state(arguments, memory),
            Call::SetTextureStageState => Ok(self.set_texture_stage_state(arguments)),
            Call::ValidateDevice => self.validate_device(arguments, memory),
            Call::TestCooperativeLevel => Ok(self.test_cooperative_level(arguments[0])),
            Call::BeginScene | Call::EndScene => Ok(self.scene(call, arguments[0])),
            Call::GetDepthStencilSurface => self.get_depth_surface(arguments, memory),
            Call::DepthSurfaceAddRef | Call::DepthSurfaceRelease => Ok(self.depth_surface_ref(
                call,
                arguments,
            )),
            Call::AvailableTextureMemory => Ok(self.available_texture_memory(arguments[0])),
            Call::TextureLevelCount => Ok(self.texture_level_count(arguments[0])),
            Call::TextureAddRef => Ok(self.texture_add_ref(arguments[0])),
            Call::TextureRelease => self.texture_release(arguments[0], memory),
            Call::VertexBufferAddRef => Ok(self.vertex_buffer_add_ref(arguments[0])),
            Call::VertexBufferRelease => self.vertex_buffer_release(arguments[0], memory),
            Call::IndexBufferAddRef => Ok(self.index_buffer_add_ref(arguments[0])),
            Call::IndexBufferRelease => self.index_buffer_release(arguments[0], memory),
            Call::VertexBufferLock | Call::IndexBufferLock => self.buffer_lock(
                call,
                arguments,
                memory,
            ),
            Call::VertexBufferUnlock | Call::IndexBufferUnlock => Ok(self.buffer_unlock(
                call,
                arguments[0],
            )),
            Call::TexturePreLoad => Ok(self.texture_pre_load(arguments[0])),
            Call::Clear => self.clear(arguments, memory),
            Call::Present => Ok(self.present(arguments)),
            Call::DrawPrimitiveUp => return Ok(Dispatched::Up(self.up_request(arguments))),
            Call::DrawIndexedPrimitive => {
                return match self.indexed_request(arguments, memory) {
                    Ok(request) => Ok(Dispatched::Indexed(request)),
                    Err(error) => Err(error),
                };
            },
        };
        match result {
            Ok(status) => Ok(Dispatched::Status(status)),
            Err(error) => Err(error),
        }
    }
}

} // verus!
