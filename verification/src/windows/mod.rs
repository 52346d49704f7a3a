//! Pieces of the Windows process model that stand on their own: guest-memory
//! helpers, critical sections, and parts of the C runtime.
pub mod atomics;
pub mod clock;
pub mod code_pages;
pub mod conversions;
pub mod com;
pub mod critical_sections;
pub mod crt;
pub mod d3d8;
pub mod guest;
pub mod imports;
pub mod kernel32;
pub mod names;

use crate::memory::MemoryError;
use vstd::prelude::*;

verus! {

/// Where the page of imported system functions starts; each function is
/// known by its offset from here.
pub const API_BASE: u32 = 0x7000_0000;

/// Why a call into an emulated system function could not complete.
#[derive(Clone, Debug, PartialEq, Eq, Structural)]
pub enum DispatchError {
    Memory(MemoryError),
    Unsupported,
    WaitingForMessage,
    FileContentsRequired,
}

} // verus!
