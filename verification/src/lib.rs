//! A 32-bit guest execution library: typed guest addresses, a paged guest
//! memory with per-page permissions, and an i386 interpreter core.

pub mod address;

pub use address::{FileOffset, GuestAddress32, ProgramCounter32, RelativeVirtualAddress};
pub mod memory;

pub use memory::{Access, GuestMemory, MemoryError, PAGE_SIZE, Permissions};
pub mod cpu;
pub mod image;

pub use cpu::{Cpu32, Register32, RunResult, StopReason};
pub mod windows;
