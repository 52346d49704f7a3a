//! The `_onexit` registry: functions to call at exit, in registration order.
use vstd::prelude::*;

verus! {

/// The most functions the registry holds.
pub const CAPACITY: usize = 4096;

/// Registered exit functions, oldest first; duplicates are kept.
pub struct Registry {
    pub functions: Vec<u32>,
}

impl Default for Registry {
    /// An empty registry.
    fn default() -> (registry: Self)
        ensures
            registry.functions@ == Seq::<u32>::empty(),
    {
        Registry { functions: Vec::new() }
    }
}

/// Asks the allocator for room for one more function with
/// `Vec::try_reserve`. Claimed: the contents are unchanged, whatever the
/// answer; whether room was found depends on the allocator and is not stated.
#[verifier::external_body]
fn reserve_one(functions: &mut Vec<u32>) -> (reserved: bool)
    ensures
        final(functions)@ == old(functions)@,
{
    functions.try_reserve(1).is_ok()
}

/// What registering `function` answers and leaves, `reserved` telling
/// whether room for it could be had: 0 and no change for a null function, a
/// full registry or no room; otherwise the function, given back and added
/// after the others.
pub open spec fn registered(
    before: Seq<u32>,
    after: Seq<u32>,
    function: u32,
    reserved: bool,
    result: u32,
) -> bool {
    if function == 0 || before.len() == CAPACITY || !reserved {
        result == 0 && after == before
    } else {
        result == function && after == before.push(function)
    }
}

impl Registry {
    /// Registers `function` and gives it back, or gives 0 and registers
    /// nothing: for a null function, a full registry, or when no memory can be
    /// had for it. Whether memory can be had is the allocator's answer.
    pub fn register(&mut self, function: u32) -> (result: u32)
        ensures
            registered(old(self).functions@, final(self).functions@, function, true, result)
                || registered(old(self).functions@, final(self).functions@, function, false, result),
            function == 0 || old(self).functions@.len() == CAPACITY ==> result == 0
                && final(self).functions@ == old(self).functions@,
    {
        if function == 0 || self.functions.len() == CAPACITY {
            return 0;
        }
        let reserved = reserve_one(&mut self.functions);
        self.register_reserved(function, reserved)
    }

    /// Registers `function` once room for it was asked for, `reserved`
    /// telling whether it was found.
    pub fn register_reserved(&mut self, function: u32, reserved: bool) -> (result: u32)
        ensures
            registered(old(self).functions@, final(self).functions@, function, reserved, result),
    {
        if function == 0 || self.functions.len() == CAPACITY || !reserved {
            return 0;
        }
        self.functions.push(function);
        function
    }
}

/// Whether `[left, left + left_length)` and `[right, right + right_length)`
/// share a byte.
pub fn overlaps(left: u32, left_length: u64, right: u32, right_length: u64) -> (shared: bool)
    requires
        left_length <= u32::MAX,
        right_length <= u32::MAX,
    ensures
        shared == (left < right + right_length && right < left + left_length),
{
    (left as u64) < right as u64 + right_length && (right as u64) < left as u64 + left_length
}

} // verus!
