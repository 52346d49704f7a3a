//! Direct3D 8 state that stands on its own: the presented frame and the
//! texture-stage colour settings.
pub mod adapter;
pub mod aperture;
pub mod buffers;
pub mod calls;
pub mod clear;
pub mod color;
pub mod device;
pub mod dispatch;
pub mod draws;
pub mod levels;
pub mod objects;
pub mod placement;
pub mod references;
pub mod state;
pub mod textures;

use vstd::prelude::*;

verus! {

/// An owned top-to-bottom RGBA8 snapshot of the most recent presentation.
#[derive(Clone, Debug, PartialEq, Eq)]
pub struct Frame {
    pub width: u32,
    pub height: u32,
    pub rgba: Vec<u8>,
}

} // verus!
