//! `cpuid`: the processor reports a vendor string and no optional features.
use super::{Cpu32, Register32};
use vstd::prelude::*;

verus! {

/// The vendor string "RingCore3CPU", as the little-endian dwords that
/// `cpuid` leaf 0 returns in `ebx`, `ecx` and `edx`.
pub const VENDOR_EBX: u32 = 0x676e_6952;

pub const VENDOR_ECX: u32 = 0x6572_6f43;

pub const VENDOR_EDX: u32 = 0x5550_4333;

/// The `eax`, `ebx`, `ecx` and `edx` that `cpuid` returns for `leaf`: leaf 0
/// names the vendor and the highest basic leaf (1), leaf 0x8000_0000 reports no
/// extended leaves, and every other leaf reads as leaf 1, which has no features.
pub open spec fn identity(leaf: u32) -> (u32, u32, u32, u32) {
    if leaf == 0 {
        (1, VENDOR_EBX, VENDOR_ECX, VENDOR_EDX)
    } else if leaf == 0x8000_0000 {
        (0x8000_0000, 0, 0, 0)
    } else {
        (0, 0, 0, 0)
    }
}

/// `cpu` is `old` after `cpuid`.
pub open spec fn identified(cpu: Cpu32, old: Cpu32) -> bool {
    let (eax, ebx, ecx, edx) = identity(old.reg(Register32::Eax));
    &&& cpu.reg(Register32::Eax) == eax
    &&& cpu.reg(Register32::Ebx) == ebx
    &&& cpu.reg(Register32::Ecx) == ecx
    &&& cpu.reg(Register32::Edx) == edx
    &&& cpu.reg(Register32::Esp) == old.reg(Register32::Esp)
    &&& cpu.reg(Register32::Ebp) == old.reg(Register32::Ebp)
    &&& cpu.reg(Register32::Esi) == old.reg(Register32::Esi)
    &&& cpu.reg(Register32::Edi) == old.reg(Register32::Edi)
    &&& cpu.fs_base == old.fs_base
    &&& cpu.x87_control_word == old.x87_control_word
    &&& cpu.mmx == old.mmx
    &&& cpu.eip == old.eip
    &&& cpu.eflags == old.eflags
}

impl Cpu32 {
    /// Executes `cpuid` for the leaf in `eax`.
    pub fn identify(&mut self)
        ensures
            identified(*final(self), *old(self)),
    {
        let (eax, ebx, ecx, edx) = match self.register(Register32::Eax) {
            0 => (1, VENDOR_EBX, VENDOR_ECX, VENDOR_EDX),
            0x8000_0000 => (0x8000_0000, 0, 0, 0),
            _ => (0, 0, 0, 0),
        };
        self.set_register(Register32::Eax, eax);
        self.set_register(Register32::Ebx, ebx);
        self.set_register(Register32::Ecx, ecx);
        self.set_register(Register32::Edx, edx);
    }
}

} // verus!
