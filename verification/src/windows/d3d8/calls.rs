//! The Direct3D 8 methods that programs call through the object tables:
//! where each one sits in the import page and how many stack arguments it
//! takes.
use vstd::prelude::*;

verus! {

/// A Direct3D 8 method.
#[derive(Clone, Copy, Debug, PartialEq, Eq, Structural)]
pub enum Call {
    Create,
    AdapterCount,
    AdapterIdentifier,
    AdapterModeCount,
    AdapterMode,
    CurrentDisplayMode,
    CheckDeviceType,
    CheckDeviceFormat,
    CheckDepthStencilMatch,
    CheckMultiSampleType,
    DeviceCaps,
    CreateDevice,
    CreateTexture,
    CreateVertexBuffer,
    CreateIndexBuffer,
    Clear,
    Present,
    RootAddRef,
    RootRelease,
    DeviceAddRef,
    DeviceRelease,
    TextureAddRef,
    TextureRelease,
    VertexBufferAddRef,
    VertexBufferRelease,
    VertexBufferLock,
    VertexBufferUnlock,
    IndexBufferAddRef,
    IndexBufferRelease,
    IndexBufferLock,
    IndexBufferUnlock,
    TexturePreLoad,
    SetTexture,
    GetTextureStageState,
    SetTextureStageState,
    ValidateDevice,
    TestCooperativeLevel,
    BeginScene,
    EndScene,
    TextureLevelCount,
    TextureLevelDesc,
    TextureLockRect,
    TextureUnlockRect,
    TextureGetSurface,
    TextureSurfaceAddRef,
    TextureSurfaceRelease,
    TextureSurfaceDesc,
    TextureSurfaceLockRect,
    TextureSurfaceUnlockRect,
    SetVertexShader,
    SetPixelShader,
    SetIndices,
    GetIndices,
    SetStreamSource,
    GetStreamSource,
    SetViewport,
    SetTransform,
    GetTransform,
    SetRenderState,
    GetDepthStencilSurface,
    DepthSurfaceAddRef,
    DepthSurfaceRelease,
    AvailableTextureMemory,
    DrawPrimitiveUp,
    DrawIndexedPrimitive,
}

/// The method at `offset` in the import page, if there is one.
pub open spec fn call_at(offset: u32) -> Option<Call> {
    match offset {
        12 => Some(Call::Create),
        0x40 => Some(Call::CreateDevice),
        0x44 => Some(Call::Clear),
        0x48 => Some(Call::Present),
        0x50 => Some(Call::RootAddRef),
        0x54 => Some(Call::RootRelease),
        0x58 => Some(Call::DeviceAddRef),
        0x5c => Some(Call::DeviceRelease),
        0x400 => Some(Call::CreateTexture),
        0x4f8 => Some(Call::CreateVertexBuffer),
        0x4fc => Some(Call::VertexBufferAddRef),
        0x500 => Some(Call::VertexBufferRelease),
        0x504 => Some(Call::VertexBufferLock),
        0x508 => Some(Call::VertexBufferUnlock),
        0x50c => Some(Call::CreateIndexBuffer),
        0x510 => Some(Call::IndexBufferAddRef),
        0x514 => Some(Call::IndexBufferRelease),
        0x518 => Some(Call::IndexBufferLock),
        0x51c => Some(Call::IndexBufferUnlock),
        0x404 => Some(Call::TextureAddRef),
        0x408 => Some(Call::TextureRelease),
        0x4d0 => Some(Call::TexturePreLoad),
        0x4d4 => Some(Call::SetTexture),
        0x4d8 => Some(Call::GetTextureStageState),
        0x4dc => Some(Call::SetTextureStageState),
        0x4e0 => Some(Call::ValidateDevice),
        0x4e4 => Some(Call::TestCooperativeLevel),
        0x4e8 => Some(Call::BeginScene),
        0x4ec => Some(Call::EndScene),
        0x40c => Some(Call::TextureLevelCount),
        0x410 => Some(Call::TextureLevelDesc),
        0x414 => Some(Call::TextureLockRect),
        0x418 => Some(Call::TextureUnlockRect),
        0x4b8 => Some(Call::TextureGetSurface),
        0x4bc => Some(Call::TextureSurfaceAddRef),
        0x4c0 => Some(Call::TextureSurfaceRelease),
        0x4c4 => Some(Call::TextureSurfaceDesc),
        0x4c8 => Some(Call::TextureSurfaceLockRect),
        0x4cc => Some(Call::TextureSurfaceUnlockRect),
        0x41c => Some(Call::SetVertexShader),
        0x520 => Some(Call::SetPixelShader),
        0x524 => Some(Call::SetIndices),
        0x528 => Some(Call::GetIndices),
        0x52c => Some(Call::SetStreamSource),
        0x530 => Some(Call::GetStreamSource),
        0x420 => Some(Call::DrawPrimitiveUp),
        0x534 => Some(Call::DrawIndexedPrimitive),
        0x498 => Some(Call::SetViewport),
        0x4f0 => Some(Call::SetTransform),
        0x4f4 => Some(Call::GetTransform),
        0x49c => Some(Call::SetRenderState),
        0x4a0 => Some(Call::GetDepthStencilSurface),
        0x4a4 => Some(Call::DepthSurfaceAddRef),
        0x4a8 => Some(Call::DepthSurfaceRelease),
        0x4ac => Some(Call::AvailableTextureMemory),
        0x2d0 => Some(Call::AdapterCount),
        0x2d4 => Some(Call::AdapterIdentifier),
        0x2d8 => Some(Call::DeviceCaps),
        0x2dc => Some(Call::AdapterModeCount),
        0x2e0 => Some(Call::AdapterMode),
        0x2f0 => Some(Call::CurrentDisplayMode),
        0x2e4 => Some(Call::CheckDeviceType),
        0x2e8 => Some(Call::CheckDeviceFormat),
        0x2f4 => Some(Call::CheckDepthStencilMatch),
        0x2ec => Some(Call::CheckMultiSampleType),
        _ => None,
    }
}

/// How many stack arguments `call` takes, the object itself included.
pub open spec fn arity(call: Call) -> usize {
    match call {
            Call::CreateDevice | Call::Clear | Call::CheckDeviceFormat => 7,
            Call::CreateTexture => 8,
            Call::Present | Call::TextureLockRect | Call::DrawPrimitiveUp | Call::VertexBufferLock | Call::IndexBufferLock => 5,
            Call::TextureLevelDesc | Call::TextureGetSurface | Call::CurrentDisplayMode | Call::SetRenderState | Call::SetTransform | Call::GetTransform | Call::SetTexture | Call::SetIndices | Call::GetIndices => 3,
            Call::AdapterIdentifier | Call::AdapterMode | Call::DeviceCaps | Call::TextureSurfaceLockRect | Call::GetTextureStageState | Call::SetTextureStageState | Call::SetStreamSource | Call::GetStreamSource => 4,
            Call::AdapterModeCount | Call::TextureUnlockRect | Call::SetVertexShader | Call::SetPixelShader | Call::SetViewport | Call::GetDepthStencilSurface | Call::TextureSurfaceDesc | Call::ValidateDevice => 2,
            Call::CreateVertexBuffer | Call::CreateIndexBuffer | Call::DrawIndexedPrimitive | Call::CheckDeviceType | Call::CheckMultiSampleType | Call::CheckDepthStencilMatch => 6,
            _ => 1,
    }
}

impl Call {
    /// The method at `offset` in the import page, if there is one.
    pub fn at(offset: u32) -> (call: Option<Self>)
        ensures
            call == call_at(offset),
    {
        match offset {
            12 => Some(Call::Create),
                    0x40 => Some(Call::CreateDevice),
                    0x44 => Some(Call::Clear),
                    0x48 => Some(Call::Present),
                    0x50 => Some(Call::RootAddRef),
                    0x54 => Some(Call::RootRelease),
                    0x58 => Some(Call::DeviceAddRef),
                    0x5c => Some(Call::DeviceRelease),
                    0x400 => Some(Call::CreateTexture),
                    0x4f8 => Some(Call::CreateVertexBuffer),
                    0x4fc => Some(Call::VertexBufferAddRef),
                    0x500 => Some(Call::VertexBufferRelease),
                    0x504 => Some(Call::VertexBufferLock),
                    0x508 => Some(Call::VertexBufferUnlock),
                    0x50c => Some(Call::CreateIndexBuffer),
                    0x510 => Some(Call::IndexBufferAddRef),
                    0x514 => Some(Call::IndexBufferRelease),
                    0x518 => Some(Call::IndexBufferLock),
                    0x51c => Some(Call::IndexBufferUnlock),
                    0x404 => Some(Call::TextureAddRef),
                    0x408 => Some(Call::TextureRelease),
                    0x4d0 => Some(Call::TexturePreLoad),
                    0x4d4 => Some(Call::SetTexture),
                    0x4d8 => Some(Call::GetTextureStageState),
                    0x4dc => Some(Call::SetTextureStageState),
                    0x4e0 => Some(Call::ValidateDevice),
                    0x4e4 => Some(Call::TestCooperativeLevel),
                    0x4e8 => Some(Call::BeginScene),
                    0x4ec => Some(Call::EndScene),
                    0x40c => Some(Call::TextureLevelCount),
                    0x410 => Some(Call::TextureLevelDesc),
                    0x414 => Some(Call::TextureLockRect),
                    0x418 => Some(Call::TextureUnlockRect),
                    0x4b8 => Some(Call::TextureGetSurface),
                    0x4bc => Some(Call::TextureSurfaceAddRef),
                    0x4c0 => Some(Call::TextureSurfaceRelease),
                    0x4c4 => Some(Call::TextureSurfaceDesc),
                    0x4c8 => Some(Call::TextureSurfaceLockRect),
                    0x4cc => Some(Call::TextureSurfaceUnlockRect),
                    0x41c => Some(Call::SetVertexShader),
                    0x520 => Some(Call::SetPixelShader),
                    0x524 => Some(Call::SetIndices),
                    0x528 => Some(Call::GetIndices),
                    0x52c => Some(Call::SetStreamSource),
                    0x530 => Some(Call::GetStreamSource),
                    0x420 => Some(Call::DrawPrimitiveUp),
                    0x534 => Some(Call::DrawIndexedPrimitive),
                    0x498 => Some(Call::SetViewport),
                    0x4f0 => Some(Call::SetTransform),
                    0x4f4 => Some(Call::GetTransform),
                    0x49c => Some(Call::SetRenderState),
                    0x4a0 => Some(Call::GetDepthStencilSurface),
                    0x4a4 => Some(Call::DepthSurfaceAddRef),
                    0x4a8 => Some(Call::DepthSurfaceRelease),
                    0x4ac => Some(Call::AvailableTextureMemory),
                    0x2d0 => Some(Call::AdapterCount),
                    0x2d4 => Some(Call::AdapterIdentifier),
                    0x2d8 => Some(Call::DeviceCaps),
                    0x2dc => Some(Call::AdapterModeCount),
                    0x2e0 => Some(Call::AdapterMode),
                    0x2f0 => Some(Call::CurrentDisplayMode),
                    0x2e4 => Some(Call::CheckDeviceType),
                    0x2e8 => Some(Call::CheckDeviceFormat),
                    0x2f4 => Some(Call::CheckDepthStencilMatch),
                    0x2ec => Some(Call::CheckMultiSampleType),
            _ => None,
        }
    }

    /// How many stack arguments the method takes, the object included.
    pub fn arguments(self) -> (count: usize)
        ensures
            count == arity(self),
    {
        match self {
                Call::CreateDevice | Call::Clear | Call::CheckDeviceFormat => 7,
                Call::CreateTexture => 8,
                Call::Present | Call::TextureLockRect | Call::DrawPrimitiveUp | Call::VertexBufferLock | Call::IndexBufferLock => 5,
                Call::TextureLevelDesc | Call::TextureGetSurface | Call::CurrentDisplayMode | Call::SetRenderState | Call::SetTransform | Call::GetTransform | Call::SetTexture | Call::SetIndices | Call::GetIndices => 3,
                Call::AdapterIdentifier | Call::AdapterMode | Call::DeviceCaps | Call::TextureSurfaceLockRect | Call::GetTextureStageState | Call::SetTextureStageState | Call::SetStreamSource | Call::GetStreamSource => 4,
                Call::AdapterModeCount | Call::TextureUnlockRect | Call::SetVertexShader | Call::SetPixelShader | Call::SetViewport | Call::GetDepthStencilSurface | Call::TextureSurfaceDesc | Call::ValidateDevice => 2,
                Call::CreateVertexBuffer | Call::CreateIndexBuffer | Call::DrawIndexedPrimitive | Call::CheckDeviceType | Call::CheckMultiSampleType | Call::CheckDepthStencilMatch => 6,
                _ => 1,
        }
    }
}

} // verus!
