//! An interpreter for a subset of 32-bit x86 user-mode code.
pub mod codes;
pub mod all_registers;
pub mod arithmetic;
pub mod branches;
pub mod decoding;
pub mod division;
pub mod flag_stack;
pub mod flags;
pub mod forms;
pub mod identification;
pub mod interpreter;
pub mod mmx;
pub mod operands;
pub mod packed;
pub mod run;
pub mod shifts;
pub mod stack;
pub mod strings;
pub mod x87;

use crate::memory::{GuestMemory, MemoryError};
use vstd::prelude::*;

verus! {

/// `value` modulo 2^32.
pub open spec fn wrapped(value: int) -> u32 {
    (value % 0x1_0000_0000) as u32
}

/// A 32-bit general-purpose register, in encoding order.
#[derive(Clone, Copy, Debug, PartialEq, Eq, Structural)]
pub enum Register32 {
    Eax,
    Ecx,
    Edx,
    Ebx,
    Esp,
    Ebp,
    Esi,
    Edi,
}

impl Register32 {
    /// The register's encoding number.
    pub open spec fn number(self) -> int {
        match self {
            Register32::Eax => 0,
            Register32::Ecx => 1,
            Register32::Edx => 2,
            Register32::Ebx => 3,
            Register32::Esp => 4,
            Register32::Ebp => 5,
            Register32::Esi => 6,
            Register32::Edi => 7,
        }
    }

    fn index(self) -> (index: usize)
        ensures
            index == self.number(),
    {
        match self {
            Register32::Eax => 0,
            Register32::Ecx => 1,
            Register32::Edx => 2,
            Register32::Ebx => 3,
            Register32::Esp => 4,
            Register32::Ebp => 5,
            Register32::Esi => 6,
            Register32::Edi => 7,
        }
    }
}

/// The MMX state: the eight 64-bit registers, and whether an MMX
/// instruction has claimed the x87 register file since the last `emms`.
#[derive(Clone, Copy, Debug, PartialEq, Eq)]
pub struct Mmx {
    pub registers: [u64; 8],
    pub active: bool,
}

/// The state of one 32-bit x86 processor.
#[derive(Clone, Copy, Debug, PartialEq, Eq)]
pub struct Cpu32 {
    pub registers: [u32; 8],
    pub fs_base: u32,
    pub x87_control_word: u16,
    pub eip: u32,
    pub eflags: u32,
    pub mmx: Mmx,
}

/// Why a run stopped.
#[derive(Clone, Debug, PartialEq, Eq)]
pub enum StopReason {
    InstructionLimit,
    Breakpoint,
    Intercepted,
    UnsupportedInstruction,
    InvalidInstruction,
    /// A division by zero, or a quotient too large for its register.
    DivideError,
    MemoryFault(MemoryError),
}

impl StopReason {
    /// Whether the reason is a step's failure: an instruction refused,
    /// invalid or faulting, as opposed to a stop that a run itself decides
    /// (the budget, a breakpoint, an interception).
    pub open spec fn is_fault(self) -> bool {
        ||| self is UnsupportedInstruction
        ||| self is InvalidInstruction
        ||| self is DivideError
        ||| self is MemoryFault
    }
}

/// How a run ended.
#[derive(Clone, Debug, PartialEq, Eq)]
pub struct RunResult {
    pub reason: StopReason,
    /// Execution steps; each repeated string element counts as one step.
    pub instructions: u64,
    pub instruction_pointer: u32,
}

impl Cpu32 {
    /// The value of a general-purpose register.
    pub open spec fn reg(&self, register: Register32) -> u32 {
        self.registers[register.number()]
    }

    /// The flat base of the `fs` segment.
    pub open spec fn fs(&self) -> u32 {
        self.fs_base
    }

    /// The x87 control word.
    pub open spec fn control(&self) -> u16 {
        self.x87_control_word
    }

    /// `self` is `old` with `register` set to `value` and nothing else changed.
    pub open spec fn register_set(self, old: Cpu32, register: Register32, value: u32) -> bool {
        &&& self.reg(register) == value
        &&& forall|other: Register32|
            other != register ==> #[trigger] self.reg(other) == old.reg(other)
        &&& self.fs_base == old.fs_base
        &&& self.x87_control_word == old.x87_control_word
        &&& self.eip == old.eip
        &&& self.eflags == old.eflags
        &&& self.mmx == old.mmx
    }

    /// A processor about to run at `entry_point`, with cleared registers, the
    /// default x87 control word, and only the reserved flag bit set.
    pub fn new(entry_point: u32) -> (cpu: Self)
        ensures
            forall|register: Register32| #[trigger] cpu.reg(register) == 0,
            cpu.fs() == 0,
            cpu.control() == 0x037f,
            cpu.eip == entry_point,
            cpu.eflags == 2,
            cpu.mmx.registers@ == seq![0u64, 0, 0, 0, 0, 0, 0, 0],
            !cpu.mmx.active,
    {
        let cpu = Self {
            registers: [0; 8],
            fs_base: 0,
            x87_control_word: 0x037f,
            eip: entry_point,
            eflags: 2,
            mmx: Mmx { registers: [0; 8], active: false },
        };
        assert(cpu.mmx.registers@ =~= seq![0u64, 0, 0, 0, 0, 0, 0, 0]);
        cpu
    }

    pub fn register(&self, register: Register32) -> (value: u32)
        ensures
            value == self.reg(register),
    {
        self.registers[register.index()]
    }

    pub fn set_register(&mut self, register: Register32, value: u32)
        ensures
            final(self).reg(register) == value,
            forall|other: Register32|
                other != register ==> #[trigger] final(self).reg(other) == old(self).reg(other),
            final(self).fs() == old(self).fs(),
            final(self).control() == old(self).control(),
            final(self).eip == old(self).eip,
            final(self).eflags == old(self).eflags,
            final(self).mmx == old(self).mmx,
    {
        self.registers[register.index()] = value;
    }

    pub fn fs_base(&self) -> (base: u32)
        ensures
            base == self.fs(),
    {
        self.fs_base
    }

    /// Configures the flat 32-bit `fs` base; selector loading is not emulated.
    pub fn set_fs_base(&mut self, base: u32)
        ensures
            final(self).fs() == base,
            forall|register: Register32| #[trigger] final(self).reg(register) == old(self).reg(register),
            final(self).control() == old(self).control(),
            final(self).eip == old(self).eip,
            final(self).eflags == old(self).eflags,
            final(self).mmx == old(self).mmx,
    {
        self.fs_base = base;
    }

    pub fn x87_control_word(&self) -> (word: u16)
        ensures
            word == self.control(),
    {
        self.x87_control_word
    }

    /// Sets raw x87 control state.
    pub fn set_x87_control_word(&mut self, value: u16)
        ensures
            final(self).control() == value,
            forall|register: Register32| #[trigger] final(self).reg(register) == old(self).reg(register),
            final(self).fs() == old(self).fs(),
            final(self).eip == old(self).eip,
            final(self).eflags == old(self).eflags,
            final(self).mmx == old(self).mmx,
    {
        self.x87_control_word = value;
    }
}

} // verus!
