//! Typed 32-bit and 64-bit offsets whose arithmetic is checked.
use vstd::prelude::*;

verus! {

/// A 32-bit byte address in a guest virtual address space.
///
/// Does not prove that memory is mapped, accessible, executable, or aligned.
#[derive(Clone, Copy, Debug, PartialEq, Eq, Structural)]
pub struct GuestAddress32(u32);

impl View for GuestAddress32 {
    type V = u32;

    closed spec fn view(&self) -> u32 {
        self.0
    }
}

impl GuestAddress32 {
    pub fn new(value: u32) -> (address: Self)
        ensures
            address@ == value,
    {
        Self(value)
    }

    pub fn get(self) -> (value: u32)
        ensures
            value == self@,
    {
        self.0
    }

    /// Returns `None` on 32-bit overflow.
    pub fn checked_add(self, byte_count: u32) -> (sum: Option<Self>)
        ensures
            self@ + byte_count <= u32::MAX ==> (sum matches Some(moved) && moved@ == self@ + byte_count),
            self@ + byte_count > u32::MAX ==> sum is None,
    {
        match self.0.checked_add(byte_count) {
            Some(value) => Some(Self(value)),
            None => None,
        }
    }

    /// Returns `None` on underflow.
    pub fn checked_sub(self, byte_count: u32) -> (difference: Option<Self>)
        ensures
            byte_count <= self@ ==> (difference matches Some(moved) && moved@ == self@ - byte_count),
            byte_count > self@ ==> difference is None,
    {
        match self.0.checked_sub(byte_count) {
            Some(value) => Some(Self(value)),
            None => None,
        }
    }

}


/// A 32-bit control-flow value for the next guest instruction.
///
/// Does not prove that the location is mapped, executable, aligned, or decodable;
/// this is a different type from [`GuestAddress32`].
#[derive(Clone, Copy, Debug, PartialEq, Eq, Structural)]
pub struct ProgramCounter32(u32);

impl View for ProgramCounter32 {
    type V = u32;

    closed spec fn view(&self) -> u32 {
        self.0
    }
}

impl ProgramCounter32 {
    pub fn new(value: u32) -> (address: Self)
        ensures
            address@ == value,
    {
        Self(value)
    }

    pub fn get(self) -> (value: u32)
        ensures
            value == self@,
    {
        self.0
    }

    /// Returns `None` on 32-bit overflow.
    pub fn checked_add(self, byte_count: u32) -> (sum: Option<Self>)
        ensures
            self@ + byte_count <= u32::MAX ==> (sum matches Some(moved) && moved@ == self@ + byte_count),
            self@ + byte_count > u32::MAX ==> sum is None,
    {
        match self.0.checked_add(byte_count) {
            Some(value) => Some(Self(value)),
            None => None,
        }
    }

    /// Returns `None` on underflow.
    pub fn checked_sub(self, byte_count: u32) -> (difference: Option<Self>)
        ensures
            byte_count <= self@ ==> (difference matches Some(moved) && moved@ == self@ - byte_count),
            byte_count > self@ ==> difference is None,
    {
        match self.0.checked_sub(byte_count) {
            Some(value) => Some(Self(value)),
            None => None,
        }
    }

}


/// A byte offset from a PE image base.
///
/// Carries no image identity and does not prove that the location is mapped.
#[derive(Clone, Copy, Debug, PartialEq, Eq, Structural)]
pub struct RelativeVirtualAddress(u32);

impl View for RelativeVirtualAddress {
    type V = u32;

    closed spec fn view(&self) -> u32 {
        self.0
    }
}

impl RelativeVirtualAddress {
    pub fn new(value: u32) -> (address: Self)
        ensures
            address@ == value,
    {
        Self(value)
    }

    pub fn get(self) -> (value: u32)
        ensures
            value == self@,
    {
        self.0
    }

    /// Returns `None` on 32-bit overflow.
    pub fn checked_add(self, byte_count: u32) -> (sum: Option<Self>)
        ensures
            self@ + byte_count <= u32::MAX ==> (sum matches Some(moved) && moved@ == self@ + byte_count),
            self@ + byte_count > u32::MAX ==> sum is None,
    {
        match self.0.checked_add(byte_count) {
            Some(value) => Some(Self(value)),
            None => None,
        }
    }

    /// Returns `None` on underflow.
    pub fn checked_sub(self, byte_count: u32) -> (difference: Option<Self>)
        ensures
            byte_count <= self@ ==> (difference matches Some(moved) && moved@ == self@ - byte_count),
            byte_count > self@ ==> difference is None,
    {
        match self.0.checked_sub(byte_count) {
            Some(value) => Some(Self(value)),
            None => None,
        }
    }

}


/// A byte offset in a file.
///
/// Carries no file identity and does not prove that the byte exists.
#[derive(Clone, Copy, Debug, PartialEq, Eq, Structural)]
pub struct FileOffset(u64);

impl View for FileOffset {
    type V = u64;

    closed spec fn view(&self) -> u64 {
        self.0
    }
}

impl FileOffset {
    pub fn new(value: u64) -> (address: Self)
        ensures
            address@ == value,
    {
        Self(value)
    }

    pub fn get(self) -> (value: u64)
        ensures
            value == self@,
    {
        self.0
    }

    /// Returns `None` on 64-bit overflow.
    pub fn checked_add(self, byte_count: u64) -> (sum: Option<Self>)
        ensures
            self@ + byte_count <= u64::MAX ==> (sum matches Some(moved) && moved@ == self@ + byte_count),
            self@ + byte_count > u64::MAX ==> sum is None,
    {
        match self.0.checked_add(byte_count) {
            Some(value) => Some(Self(value)),
            None => None,
        }
    }

    /// Returns `None` on underflow.
    pub fn checked_sub(self, byte_count: u64) -> (difference: Option<Self>)
        ensures
            byte_count <= self@ ==> (difference matches Some(moved) && moved@ == self@ - byte_count),
            byte_count > self@ ==> difference is None,
    {
        match self.0.checked_sub(byte_count) {
            Some(value) => Some(Self(value)),
            None => None,
        }
    }

}

} // verus!
