use ring3_core::windows::d3d8::calls::Call;
use ring3_core::windows::d3d8::clear::quantize_depth;
use ring3_core::windows::d3d8::device::{Graphics, Windows};
use ring3_core::windows::d3d8::dispatch::Dispatched;
use ring3_core::windows::d3d8::draws::{UpDraw, UpRequest};
use ring3_core::windows::d3d8::objects::{DEVICE, INVALID_CALL, ROOT};
use ring3_core::{GuestMemory, PAGE_SIZE, Permissions};

const READ_WRITE: Permissions = Permissions { read: true, write: true, execute: false };
const WINDOW: u32 = 0x0001_0020;

fn status(outcome: Result<Dispatched, ring3_core::MemoryError>) -> u32 {
    match outcome {
        Ok(Dispatched::Status(status)) => status,
        _ => panic!("not a status"),
    }
}

fn word(memory: &GuestMemory, address: u64) -> u32 {
    let mut bytes = [0u8; 4];
    memory.read(address, &mut bytes).unwrap();
    u32::from_le_bytes(bytes)
}

fn setup() -> (Graphics, GuestMemory, Windows) {
    let mut memory = GuestMemory::new(4096);
    Graphics::initialize(&mut memory).unwrap();
    memory.map_zeroed(0x1000, PAGE_SIZE * 2, READ_WRITE).unwrap();
    let windows = Windows { desktop: 0x0001_0010, top_level: vec![WINDOW] };
    (Graphics::default(), memory, windows)
}

fn with_device() -> (Graphics, GuestMemory, Windows) {
    let (mut graphics, mut memory, windows) = setup();
    assert_eq!(status(graphics.dispatch(Call::Create, &[220], &mut memory, &windows)), ROOT);
    let parameters: [u32; 13] = [64, 32, 22, 1, 0, 1, WINDOW, 1, 1, 80, 0, 0, 0];
    let bytes: Vec<u8> = parameters.iter().flat_map(|value| value.to_le_bytes()).collect();
    memory.write(0x1100, &bytes).unwrap();
    let arguments = [ROOT, 0, 1, WINDOW, 0x20, 0x1100, 0x1000];
    assert_eq!(status(graphics.dispatch(Call::CreateDevice, &arguments, &mut memory, &windows)), 0);
    assert_eq!(word(&memory, 0x1000), DEVICE);
    (graphics, memory, windows)
}

#[test]
fn the_root_object_is_created_once_and_counted() {
    let (mut graphics, mut memory, windows) = setup();
    assert_eq!(status(graphics.dispatch(Call::Create, &[100], &mut memory, &windows)), 0);
    assert_eq!(status(graphics.dispatch(Call::AdapterCount, &[ROOT], &mut memory, &windows)), 0);
    assert_eq!(status(graphics.dispatch(Call::Create, &[220], &mut memory, &windows)), ROOT);
    assert_eq!(status(graphics.dispatch(Call::Create, &[220], &mut memory, &windows)), 0);
    assert_eq!(status(graphics.dispatch(Call::AdapterCount, &[ROOT], &mut memory, &windows)), 1);
    assert_eq!(
        status(graphics.dispatch(Call::AdapterModeCount, &[ROOT, 0], &mut memory, &windows)),
        1
    );
    assert_eq!(status(graphics.dispatch(Call::RootAddRef, &[ROOT], &mut memory, &windows)), 2);
    assert_eq!(status(graphics.dispatch(Call::RootRelease, &[ROOT], &mut memory, &windows)), 1);
    assert_eq!(
        status(graphics.dispatch(Call::DeviceAddRef, &[DEVICE], &mut memory, &windows)),
        INVALID_CALL
    );
    assert_eq!(status(graphics.dispatch(Call::RootRelease, &[ROOT], &mut memory, &windows)), 0);
    assert_eq!(
        status(graphics.dispatch(Call::RootRelease, &[ROOT], &mut memory, &windows)),
        INVALID_CALL
    );
}

#[test]
fn the_device_counts_references_and_ends_with_the_last() {
    let (mut graphics, mut memory, windows) = with_device();
    assert_eq!(graphics.root_refs, 2);
    assert_eq!(status(graphics.dispatch(Call::DeviceAddRef, &[DEVICE], &mut memory, &windows)), 2);
    assert_eq!(status(graphics.dispatch(Call::DeviceRelease, &[DEVICE], &mut memory, &windows)), 1);
    assert!(graphics.back.is_some());
    assert_eq!(status(graphics.dispatch(Call::DeviceRelease, &[DEVICE], &mut memory, &windows)), 0);
    assert!(graphics.back.is_none());
    assert!(graphics.depth.is_none());
    assert_eq!(graphics.root_refs, 1);
}

#[test]
fn clear_fills_colour_and_depth() {
    let (mut graphics, mut memory, windows) = with_device();
    let arguments = [DEVICE, 0, 0, 3, 0x00ff_8000, 0x3f00_0000, 0];
    assert_eq!(status(graphics.dispatch(Call::Clear, &arguments, &mut memory, &windows)), 0);
    let back = graphics.back.as_ref().unwrap();
    assert_eq!(&back.rgba[0..4], &[0xff, 0x80, 0x00, 0xff]);
    assert_eq!(&back.rgba[back.rgba.len() - 4..], &[0xff, 0x80, 0x00, 0xff]);
    assert!(graphics.depth.as_ref().unwrap().iter().all(|depth| *depth == 32768));
    // one rectangle [1, 1, 3, 2]: only pixels (1,1) and (2,1)
    let rect: Vec<u8> = [1u32, 1, 3, 2].iter().flat_map(|value| value.to_le_bytes()).collect();
    memory.write(0x1200, &rect).unwrap();
    let arguments = [DEVICE, 1, 0x1200, 1, 0x0000_00ff, 0, 0];
    assert_eq!(status(graphics.dispatch(Call::Clear, &arguments, &mut memory, &windows)), 0);
    let back = graphics.back.as_ref().unwrap();
    let pixel = |x: usize, y: usize| back.rgba[(y * 64 + x) * 4..(y * 64 + x) * 4 + 4].to_vec();
    assert_eq!(pixel(1, 1), vec![0, 0, 0xff, 0xff]);
    assert_eq!(pixel(2, 1), vec![0, 0, 0xff, 0xff]);
    assert_eq!(pixel(3, 1), vec![0xff, 0x80, 0, 0xff]);
    assert_eq!(pixel(1, 0), vec![0xff, 0x80, 0, 0xff]);
    // a depth outside 0 to 1 is refused
    let arguments = [DEVICE, 0, 0, 2, 0, 0x3f80_0001, 0];
    assert_eq!(status(graphics.dispatch(Call::Clear, &arguments, &mut memory, &windows)), INVALID_CALL);
    // a rectangle with its right edge left of its left edge is refused
    let rect: Vec<u8> = [5u32, 0, 4, 1].iter().flat_map(|value| value.to_le_bytes()).collect();
    memory.write(0x1200, &rect).unwrap();
    let arguments = [DEVICE, 1, 0x1200, 1, 0, 0, 0];
    assert_eq!(status(graphics.dispatch(Call::Clear, &arguments, &mut memory, &windows)), INVALID_CALL);
}

#[test]
fn depths_quantize_as_single_precision_floats_do() {
    for bits in [0u32, 1, 0x3380_0000, 0x3700_0000, 0x3800_0000, 0x3f00_0000, 0x3eaa_aaab, 0x3f7f_ffff, 0x3f80_0000, 0x8000_0000] {
        let expected = (f64::from(f32::from_bits(bits)) * f64::from(u16::MAX)).round() as u16;
        assert_eq!(quantize_depth(bits), expected, "bits {bits:#x}");
    }
}

#[test]
fn up_draws_are_checked_before_they_are_handed_back() {
    let (mut graphics, mut memory, windows) = with_device();
    let draw = [DEVICE, 4, 1, 0x1300, 20];
    match graphics.dispatch(Call::DrawPrimitiveUp, &draw, &mut memory, &windows) {
        Ok(Dispatched::Up(request)) => assert_eq!(request, UpRequest::Refused),
        _ => panic!("not a draw"),
    }
    assert_eq!(status(graphics.dispatch(Call::SetVertexShader, &[DEVICE, 0x44], &mut memory, &windows)), 0);
    match graphics.dispatch(Call::DrawPrimitiveUp, &draw, &mut memory, &windows) {
        Ok(Dispatched::Up(request)) => assert_eq!(
            request,
            UpRequest::Draw(UpDraw { topology: 4, count: 1, pointer: 0x1300, stride: 20, vertices: 3 })
        ),
        _ => panic!("not a draw"),
    }
    match graphics.dispatch(Call::DrawPrimitiveUp, &[DEVICE, 5, 0, 0, 20], &mut memory, &windows) {
        Ok(Dispatched::Up(request)) => assert_eq!(request, UpRequest::Nothing),
        _ => panic!("not a draw"),
    }
}

#[test]
fn buffers_take_room_from_the_aperture_and_give_it_back() {
    let (mut graphics, mut memory, windows) = with_device();
    let free = status(graphics.dispatch(Call::AvailableTextureMemory, &[DEVICE], &mut memory, &windows));
    assert_eq!(free, 0x0d00_0000);
    let arguments = [DEVICE, 0x30_0000, 0, 0x44, 0, 0x1010];
    assert_eq!(status(graphics.dispatch(Call::CreateVertexBuffer, &arguments, &mut memory, &windows)), 0);
    let buffer = word(&memory, 0x1010);
    let free = status(graphics.dispatch(Call::AvailableTextureMemory, &[DEVICE], &mut memory, &windows));
    assert_eq!(free, 0x0d00_0000 - 0x30_0000);
    assert_eq!(status(graphics.dispatch(Call::VertexBufferAddRef, &[buffer], &mut memory, &windows)), 2);
    assert_eq!(status(graphics.dispatch(Call::VertexBufferRelease, &[buffer], &mut memory, &windows)), 1);
    assert_eq!(status(graphics.dispatch(Call::VertexBufferRelease, &[buffer], &mut memory, &windows)), 0);
    let free = status(graphics.dispatch(Call::AvailableTextureMemory, &[DEVICE], &mut memory, &windows));
    assert_eq!(free, 0x0d00_0000);
}

#[test]
fn textures_count_surface_references_and_lock_levels() {
    let (mut graphics, mut memory, windows) = with_device();
    // 4 by 4, all levels: 4x4, 2x2, 1x1
    let arguments = [DEVICE, 4, 4, 0, 0, 21, 1, 0x1020];
    assert_eq!(status(graphics.dispatch(Call::CreateTexture, &arguments, &mut memory, &windows)), 0);
    let texture = word(&memory, 0x1020);
    assert_eq!(status(graphics.dispatch(Call::TextureLevelCount, &[texture], &mut memory, &windows)), 3);
    assert_eq!(
        status(graphics.dispatch(Call::TextureGetSurface, &[texture, 1, 0x1024], &mut memory, &windows)),
        0
    );
    let surface = word(&memory, 0x1024);
    assert_eq!(surface, texture + 8);
    assert_eq!(status(graphics.dispatch(Call::TextureAddRef, &[texture], &mut memory, &windows)), 3);
    assert_eq!(status(graphics.dispatch(Call::TextureRelease, &[texture], &mut memory, &windows)), 2);
    assert_eq!(
        status(graphics.dispatch(Call::TextureSurfaceDesc, &[surface, 0x1040], &mut memory, &windows)),
        0
    );
    assert_eq!(word(&memory, 0x1040), 21);
    assert_eq!(word(&memory, 0x1040 + 16), 2 * 2 * 4);
    assert_eq!(word(&memory, 0x1040 + 24), 2);
    let lock = [texture, 0, 0x1060, 0, 0];
    assert_eq!(status(graphics.dispatch(Call::TextureLockRect, &lock, &mut memory, &windows)), 0);
    assert_eq!(word(&memory, 0x1060), 16);
    assert_eq!(word(&memory, 0x1064), texture + 4096);
    assert_eq!(status(graphics.dispatch(Call::TextureLockRect, &lock, &mut memory, &windows)), INVALID_CALL);
    assert_eq!(status(graphics.dispatch(Call::TextureUnlockRect, &[texture, 0], &mut memory, &windows)), 0);
    assert_eq!(status(graphics.dispatch(Call::TextureRelease, &[texture], &mut memory, &windows)), 1);
    assert_eq!(
        status(graphics.dispatch(Call::TextureSurfaceRelease, &[surface], &mut memory, &windows)),
        0
    );
    assert_eq!(
        status(graphics.dispatch(Call::TextureLevelCount, &[texture], &mut memory, &windows)),
        INVALID_CALL
    );
}

#[test]
fn present_through_dispatch_shows_the_back_buffer() {
    let (mut graphics, mut memory, windows) = with_device();
    assert!(graphics.front.is_none());
    assert_eq!(
        status(graphics.dispatch(Call::Present, &[DEVICE, 1, 0, 0, 0], &mut memory, &windows)),
        INVALID_CALL
    );
    assert!(graphics.front.is_none());
    assert_eq!(
        status(graphics.dispatch(Call::Present, &[DEVICE, 0, 0, 0, 0], &mut memory, &windows)),
        0
    );
    assert!(graphics.front.is_some());
}

#[test]
fn a_release_of_an_unheld_device_reference_is_caught_before_dispatch() {
    let (graphics, _memory, _windows) = setup();
    assert!(!graphics.release_would_underflow(Call::TextureRelease, &[0x5000]));
    assert!(!graphics.release_would_underflow(Call::Present, &[DEVICE, 0, 0, 0, 0]));
}
