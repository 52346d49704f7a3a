//! The runtime functions that programs import from `msvcrt.dll`: where
//! each one sits in the import page, how many stack arguments it takes, and
//! the address that each imported name resolves to.
use super::super::names::same_text;
use super::super::API_BASE;
use super::data::{
    ACMDLN, ADJUST_FDIV, ARGC, ARGV, COMMODE, ENVIRON, FMODE, INITENV, LC_CODEPAGE, LC_COLLATE_CP,
    LC_HANDLE, MB_CUR_MAX, SETLC_ACTIVE, UNGUARDED_READLC_ACTIVE,
};
use super::initializers::BASE;
use vstd::prelude::*;

verus! {

/// A stream function.
#[derive(Clone, Copy, Debug, PartialEq, Eq, Structural)]
pub enum StreamCall {
    Open,
    Read,
    Close,
    Seek,
    Tell,
}

/// A math function that the compiler calls with its operands on the x87
/// stack.
#[derive(Clone, Copy, Debug, PartialEq, Eq, Structural)]
pub enum InlineMath {
    Fmod,
    Asin,
    Acos,
    Pow,
}

/// A runtime function.
#[derive(Clone, Copy, Debug, PartialEq, Eq, Structural)]
pub enum Call {
    BeginThreadEx,
    SetAppType,
    FmodePointer,
    CommodePointer,
    ArgcPointer,
    ArgvPointer,
    ControlFp,
    GetMainArgs,
    Memset,
    Malloc,
    Free,
    OperatorNew,
    OperatorDelete,
    ErrnoPointer,
    DllOnExit,
    MbSearchReverse,
    MbIncrement,
    Duplicate,
    Length,
    Compare,
    FindByte,
    Copy,
    Move,
    CopyString,
    AppendString,
    SplitPath,
    Stream(StreamCall),
    FindCharacter,
    Stat,
    Remove,
    SeedRandom,
    Random,
    FloatToInteger,
    TypeName,
    CompareStringPrefix,
    CompareIgnoringCase,
    Format,
    Sprintf,
    Snprintf,
    Sscanf,
    Lowercase,
    UppercaseCharacter,
    IsSpace,
    LowercaseString,
    UppercaseString,
    SetMbCodePage,
    OnExit,
    DynamicCast,
    Sort,
    Floor,
    InlineMath(InlineMath),
    ComparePrefixIgnoringCase,
    SetJump,
    GetEnvironment,
}

impl StreamCall {
    /// How many stack arguments the stream function takes.
    pub open spec fn arity(self) -> usize {
        match self {
            StreamCall::Open => 2,
            StreamCall::Read => 4,
            StreamCall::Close | StreamCall::Tell => 1,
            StreamCall::Seek => 3,
        }
    }

    /// How many stack arguments the stream function takes.
    pub fn count(self) -> (count: usize)
        ensures
            count == self.arity(),
    {
        match self {
            StreamCall::Open => 2,
            StreamCall::Read => 4,
            StreamCall::Close | StreamCall::Tell => 1,
            StreamCall::Seek => 3,
        }
    }
}

/// The runtime function at `offset` in the import page, if there is one.
pub open spec fn call_at(offset: u32) -> Option<Call> {
    match offset {
            0x548 => Some(Call::BeginThreadEx),
            0x100 => Some(Call::SetAppType),
            0x104 => Some(Call::FmodePointer),
            0x108 => Some(Call::CommodePointer),
            0x10c => Some(Call::ControlFp),
            0x110 => Some(Call::GetMainArgs),
            0x114 => Some(Call::Memset),
            0x11c => Some(Call::Malloc),
            0x120 => Some(Call::Free),
            0x144 => Some(Call::OperatorNew),
            0x148 => Some(Call::OperatorDelete),
            0x124 => Some(Call::ErrnoPointer),
            0x128 => Some(Call::DllOnExit),
            0x12c => Some(Call::MbSearchReverse),
            0x130 => Some(Call::MbIncrement),
            0x134 => Some(Call::Duplicate),
            0x14c => Some(Call::Length),
            0x138 => Some(Call::Compare),
            0x150 => Some(Call::Copy),
            0x154 => Some(Call::CopyString),
            0x158 => Some(Call::FindCharacter),
            0x15c => Some(Call::Stat),
            0x160 => Some(Call::SeedRandom),
            0x164 => Some(Call::Random),
            0x168 => Some(Call::FloatToInteger),
            0x16c => Some(Call::TypeName),
            0x170 => Some(Call::CompareStringPrefix),
            0x174 => Some(Call::CompareIgnoringCase),
            0x178 => Some(Call::Format),
            0x17c => Some(Call::Lowercase),
            0x180 => Some(Call::ArgcPointer),
            0x184 => Some(Call::ArgvPointer),
            0x188 => Some(Call::Remove),
            0x18c => Some(Call::AppendString),
            0x190 => Some(Call::SplitPath),
            0x194 => Some(Call::Stream(StreamCall::Open)),
            0x198 => Some(Call::Stream(StreamCall::Read)),
            0x19c => Some(Call::Stream(StreamCall::Close)),
            0x1a0 => Some(Call::Stream(StreamCall::Seek)),
            0x1a4 => Some(Call::Stream(StreamCall::Tell)),
            0x1a8 => Some(Call::UppercaseString),
            0x1c0 => Some(Call::LowercaseString),
            0x1c4 => Some(Call::UppercaseCharacter),
            0x1c8 => Some(Call::FindByte),
            0x1cc => Some(Call::Sort),
            0x1d0 => Some(Call::Floor),
            0x1d4 => Some(Call::ComparePrefixIgnoringCase),
            0x1d8 => Some(Call::SetJump),
            0x1dc => Some(Call::GetEnvironment),
            0x1e0 => Some(Call::IsSpace),
            0x1e4 => Some(Call::InlineMath(InlineMath::Fmod)),
            0x1e8 => Some(Call::InlineMath(InlineMath::Asin)),
            0x1ec => Some(Call::InlineMath(InlineMath::Acos)),
            0x1f0 => Some(Call::InlineMath(InlineMath::Pow)),
            0x1ac => Some(Call::Sprintf),
            0x1bc => Some(Call::Snprintf),
            0x1b0 => Some(Call::Move),
            0x1b4 => Some(Call::DynamicCast),
            0x1b8 => Some(Call::Sscanf),
            0x13c => Some(Call::SetMbCodePage),
            0x140 => Some(Call::OnExit),
            _ => None,
    }
}

/// How many stack arguments `call` takes.
pub open spec fn arity(call: Call) -> usize {
    match call {
            Call::BeginThreadEx => 6,
            Call::Stream(call) => call.arity(),
            Call::SetAppType | Call::Malloc | Call::Free | Call::OperatorNew
            | Call::OperatorDelete | Call::MbIncrement | Call::Duplicate | Call::Length
            | Call::SeedRandom | Call::Lowercase | Call::UppercaseCharacter | Call::IsSpace
            | Call::LowercaseString | Call::UppercaseString | Call::SetMbCodePage | Call::OnExit
            | Call::GetEnvironment | Call::Remove => 1,
            Call::ControlFp | Call::Floor | Call::SetJump | Call::MbSearchReverse
            | Call::FindCharacter | Call::Stat | Call::CompareIgnoringCase | Call::Sprintf
            | Call::Sscanf => 2,
            Call::GetMainArgs | Call::SplitPath | Call::DynamicCast => 5,
            Call::Format | Call::Sort => 4,
            Call::Snprintf | Call::Memset | Call::DllOnExit | Call::Compare | Call::FindByte
            | Call::Copy | Call::Move | Call::CopyString | Call::AppendString
            | Call::CompareStringPrefix | Call::ComparePrefixIgnoringCase => 3,
            Call::FmodePointer | Call::CommodePointer | Call::ArgcPointer | Call::ArgvPointer
            | Call::ErrnoPointer | Call::Random | Call::FloatToInteger | Call::InlineMath(_)
            | Call::TypeName => 0,
    }
}

impl Call {
    /// The runtime function at `offset` in the import page, if there is one.
    pub fn at(offset: u32) -> (call: Option<Self>)
        ensures
            call == call_at(offset),
    {
        match offset {
            0x548 => Some(Self::BeginThreadEx),
            0x100 => Some(Self::SetAppType),
            0x104 => Some(Self::FmodePointer),
            0x108 => Some(Self::CommodePointer),
            0x10c => Some(Self::ControlFp),
            0x110 => Some(Self::GetMainArgs),
            0x114 => Some(Self::Memset),
            0x11c => Some(Self::Malloc),
            0x120 => Some(Self::Free),
            0x144 => Some(Self::OperatorNew),
            0x148 => Some(Self::OperatorDelete),
            0x124 => Some(Self::ErrnoPointer),
            0x128 => Some(Self::DllOnExit),
            0x12c => Some(Self::MbSearchReverse),
            0x130 => Some(Self::MbIncrement),
            0x134 => Some(Self::Duplicate),
            0x14c => Some(Self::Length),
            0x138 => Some(Self::Compare),
            0x150 => Some(Self::Copy),
            0x154 => Some(Self::CopyString),
            0x158 => Some(Self::FindCharacter),
            0x15c => Some(Self::Stat),
            0x160 => Some(Self::SeedRandom),
            0x164 => Some(Self::Random),
            0x168 => Some(Self::FloatToInteger),
            0x16c => Some(Self::TypeName),
            0x170 => Some(Self::CompareStringPrefix),
            0x174 => Some(Self::CompareIgnoringCase),
            0x178 => Some(Self::Format),
            0x17c => Some(Self::Lowercase),
            0x180 => Some(Self::ArgcPointer),
            0x184 => Some(Self::ArgvPointer),
            0x188 => Some(Self::Remove),
            0x18c => Some(Self::AppendString),
            0x190 => Some(Self::SplitPath),
            0x194 => Some(Self::Stream(StreamCall::Open)),
            0x198 => Some(Self::Stream(StreamCall::Read)),
            0x19c => Some(Self::Stream(StreamCall::Close)),
            0x1a0 => Some(Self::Stream(StreamCall::Seek)),
            0x1a4 => Some(Self::Stream(StreamCall::Tell)),
            0x1a8 => Some(Self::UppercaseString),
            0x1c0 => Some(Self::LowercaseString),
            0x1c4 => Some(Self::UppercaseCharacter),
            0x1c8 => Some(Self::FindByte),
            0x1cc => Some(Self::Sort),
            0x1d0 => Some(Self::Floor),
            0x1d4 => Some(Self::ComparePrefixIgnoringCase),
            0x1d8 => Some(Self::SetJump),
            0x1dc => Some(Self::GetEnvironment),
            0x1e0 => Some(Self::IsSpace),
            0x1e4 => Some(Self::InlineMath(InlineMath::Fmod)),
            0x1e8 => Some(Self::InlineMath(InlineMath::Asin)),
            0x1ec => Some(Self::InlineMath(InlineMath::Acos)),
            0x1f0 => Some(Self::InlineMath(InlineMath::Pow)),
            0x1ac => Some(Self::Sprintf),
            0x1bc => Some(Self::Snprintf),
            0x1b0 => Some(Self::Move),
            0x1b4 => Some(Self::DynamicCast),
            0x1b8 => Some(Self::Sscanf),
            0x13c => Some(Self::SetMbCodePage),
            0x140 => Some(Self::OnExit),
            _ => None,
        }
    }

    /// How many stack arguments the function takes.
    pub fn arguments(self) -> (count: usize)
        ensures
            count == arity(self),
    {
        match self {
            Call::BeginThreadEx => 6,
            Call::Stream(call) => call.count(),
            Call::SetAppType | Call::Malloc | Call::Free | Call::OperatorNew
            | Call::OperatorDelete | Call::MbIncrement | Call::Duplicate | Call::Length
            | Call::SeedRandom | Call::Lowercase | Call::UppercaseCharacter | Call::IsSpace
            | Call::LowercaseString | Call::UppercaseString | Call::SetMbCodePage | Call::OnExit
            | Call::GetEnvironment | Call::Remove => 1,
            Call::ControlFp | Call::Floor | Call::SetJump | Call::MbSearchReverse
            | Call::FindCharacter | Call::Stat | Call::CompareIgnoringCase | Call::Sprintf
            | Call::Sscanf => 2,
            Call::GetMainArgs | Call::SplitPath | Call::DynamicCast => 5,
            Call::Format | Call::Sort => 4,
            Call::Snprintf | Call::Memset | Call::DllOnExit | Call::Compare | Call::FindByte
            | Call::Copy | Call::Move | Call::CopyString | Call::AppendString
            | Call::CompareStringPrefix | Call::ComparePrefixIgnoringCase => 3,
            Call::FmodePointer | Call::CommodePointer | Call::ArgcPointer | Call::ArgvPointer
            | Call::ErrnoPointer | Call::Random | Call::FloatToInteger | Call::InlineMath(_)
            | Call::TypeName => 0,
        }
    }
}

/// The address that the runtime's export `name` resolves to, if it has one:
/// a function in the import page or one of the runtime's variables.
pub open spec fn export_address(name: Seq<char>) -> Option<u32> {
    if name == "__set_app_type"@ {
        Some((API_BASE + 0x100) as u32)
    } else if name == "__p__fmode"@ {
        Some((API_BASE + 0x104) as u32)
    } else if name == "__p__commode"@ {
        Some((API_BASE + 0x108) as u32)
    } else if name == "__p___argc"@ {
        Some((API_BASE + 0x180) as u32)
    } else if name == "__p___argv"@ {
        Some((API_BASE + 0x184) as u32)
    } else if name == "_controlfp"@ {
        Some((API_BASE + 0x10c) as u32)
    } else if name == "_initterm"@ {
        Some(BASE)
    } else if name == "qsort"@ {
        Some((API_BASE + 0x1cc) as u32)
    } else if name == "floor"@ {
        Some((API_BASE + 0x1d0) as u32)
    } else if name == "_CIfmod"@ {
        Some((API_BASE + 0x1e4) as u32)
    } else if name == "_CIasin"@ {
        Some((API_BASE + 0x1e8) as u32)
    } else if name == "_CIacos"@ {
        Some((API_BASE + 0x1ec) as u32)
    } else if name == "_CIpow"@ {
        Some((API_BASE + 0x1f0) as u32)
    } else if name == "_setjmp3"@ {
        Some((API_BASE + 0x1d8) as u32)
    } else if name == "getenv"@ {
        Some((API_BASE + 0x1dc) as u32)
    } else if name == "__getmainargs"@ {
        Some((API_BASE + 0x110) as u32)
    } else if name == "memset"@ {
        Some((API_BASE + 0x114) as u32)
    } else if name == "memcmp"@ {
        Some((API_BASE + 0x138) as u32)
    } else if name == "memchr"@ {
        Some((API_BASE + 0x1c8) as u32)
    } else if name == "memcpy"@ {
        Some((API_BASE + 0x150) as u32)
    } else if name == "strncpy"@ {
        Some((API_BASE + 0x154) as u32)
    } else if name == "strncat"@ {
        Some((API_BASE + 0x18c) as u32)
    } else if name == "_splitpath"@ {
        Some((API_BASE + 0x190) as u32)
    } else if name == "fopen"@ {
        Some((API_BASE + 0x194) as u32)
    } else if name == "fread"@ {
        Some((API_BASE + 0x198) as u32)
    } else if name == "fclose"@ {
        Some((API_BASE + 0x19c) as u32)
    } else if name == "fseek"@ {
        Some((API_BASE + 0x1a0) as u32)
    } else if name == "ftell"@ {
        Some((API_BASE + 0x1a4) as u32)
    } else if name == "_strupr"@ {
        Some((API_BASE + 0x1a8) as u32)
    } else if name == "_strlwr"@ {
        Some((API_BASE + 0x1c0) as u32)
    } else if name == "sprintf"@ {
        Some((API_BASE + 0x1ac) as u32)
    } else if name == "_snprintf"@ {
        Some((API_BASE + 0x1bc) as u32)
    } else if name == "sscanf"@ {
        Some((API_BASE + 0x1b8) as u32)
    } else if name == "memmove"@ {
        Some((API_BASE + 0x1b0) as u32)
    } else if name == "strchr"@ {
        Some((API_BASE + 0x158) as u32)
    } else if name == "_setmbcp"@ {
        Some((API_BASE + 0x13c) as u32)
    } else if name == "_onexit"@ {
        Some((API_BASE + 0x140) as u32)
    } else if name == "_EH_prolog"@ {
        Some((API_BASE + 0x118) as u32)
    } else if name == "_CxxThrowException"@ {
        Some((API_BASE + 0x490) as u32)
    } else if name == "__CxxFrameHandler"@ {
        Some((API_BASE + 0x494) as u32)
    } else if name == "malloc"@ {
        Some((API_BASE + 0x11c) as u32)
    } else if name == "free"@ {
        Some((API_BASE + 0x120) as u32)
    } else if name == "??2@YAPAXI@Z"@ {
        Some((API_BASE + 0x144) as u32)
    } else if name == "??3@YAXPAX@Z"@ {
        Some((API_BASE + 0x148) as u32)
    } else if name == "_errno"@ {
        Some((API_BASE + 0x124) as u32)
    } else if name == "_beginthreadex"@ {
        Some((API_BASE + 0x548) as u32)
    } else if name == "_stat"@ {
        Some((API_BASE + 0x15c) as u32)
    } else if name == "remove"@ {
        Some((API_BASE + 0x188) as u32)
    } else if name == "srand"@ {
        Some((API_BASE + 0x160) as u32)
    } else if name == "rand"@ {
        Some((API_BASE + 0x164) as u32)
    } else if name == "_ftol"@ {
        Some((API_BASE + 0x168) as u32)
    } else if name == "?name@type_info@@QBEPBDXZ"@ {
        Some((API_BASE + 0x16c) as u32)
    } else if name == "__RTDynamicCast"@ {
        Some((API_BASE + 0x1b4) as u32)
    } else if name == "strncmp"@ {
        Some((API_BASE + 0x170) as u32)
    } else if name == "_stricmp"@ {
        Some((API_BASE + 0x174) as u32)
    } else if name == "_strnicmp"@ {
        Some((API_BASE + 0x1d4) as u32)
    } else if name == "_vsnprintf"@ {
        Some((API_BASE + 0x178) as u32)
    } else if name == "tolower"@ {
        Some((API_BASE + 0x17c) as u32)
    } else if name == "toupper"@ {
        Some((API_BASE + 0x1c4) as u32)
    } else if name == "isspace"@ {
        Some((API_BASE + 0x1e0) as u32)
    } else if name == "__dllonexit"@ {
        Some((API_BASE + 0x128) as u32)
    } else if name == "_mbsrchr"@ {
        Some((API_BASE + 0x12c) as u32)
    } else if name == "_mbsinc"@ {
        Some((API_BASE + 0x130) as u32)
    } else if name == "_strdup"@ {
        Some((API_BASE + 0x134) as u32)
    } else if name == "strlen"@ {
        Some((API_BASE + 0x14c) as u32)
    } else if name == "_fmode"@ {
        Some(FMODE)
    } else if name == "_commode"@ {
        Some(COMMODE)
    } else if name == "_adjust_fdiv"@ {
        Some(ADJUST_FDIV)
    } else if name == "_acmdln"@ {
        Some(ACMDLN)
    } else if name == "__argc"@ {
        Some(ARGC)
    } else if name == "__argv"@ {
        Some(ARGV)
    } else if name == "_environ"@ {
        Some(ENVIRON)
    } else if name == "__initenv"@ {
        Some(INITENV)
    } else if name == "__unguarded_readlc_active"@ {
        Some(UNGUARDED_READLC_ACTIVE)
    } else if name == "__setlc_active"@ {
        Some(SETLC_ACTIVE)
    } else if name == "__lc_handle"@ {
        Some(LC_HANDLE)
    } else if name == "__lc_codepage"@ {
        Some(LC_CODEPAGE)
    } else if name == "__lc_collate_cp"@ {
        Some(LC_COLLATE_CP)
    } else if name == "__mb_cur_max"@ {
        Some(MB_CUR_MAX)
    } else {
        None
    }
}

/// Resolves the runtime's export `name`.
pub fn resolve(name: &str) -> (address: Option<u32>)
    ensures
        address == export_address(name@),
{
    if same_text(name, "__set_app_type") {
        Some(API_BASE + 0x100)
    } else if same_text(name, "__p__fmode") {
        Some(API_BASE + 0x104)
    } else if same_text(name, "__p__commode") {
        Some(API_BASE + 0x108)
    } else if same_text(name, "__p___argc") {
        Some(API_BASE + 0x180)
    } else if same_text(name, "__p___argv") {
        Some(API_BASE + 0x184)
    } else if same_text(name, "_controlfp") {
        Some(API_BASE + 0x10c)
    } else if same_text(name, "_initterm") {
        Some(BASE)
    } else if same_text(name, "qsort") {
        Some(API_BASE + 0x1cc)
    } else if same_text(name, "floor") {
        Some(API_BASE + 0x1d0)
    } else if same_text(name, "_CIfmod") {
        Some(API_BASE + 0x1e4)
    } else if same_text(name, "_CIasin") {
        Some(API_BASE + 0x1e8)
    } else if same_text(name, "_CIacos") {
        Some(API_BASE + 0x1ec)
    } else if same_text(name, "_CIpow") {
        Some(API_BASE + 0x1f0)
    } else if same_text(name, "_setjmp3") {
        Some(API_BASE + 0x1d8)
    } else if same_text(name, "getenv") {
        Some(API_BASE + 0x1dc)
    } else if same_text(name, "__getmainargs") {
        Some(API_BASE + 0x110)
    } else if same_text(name, "memset") {
        Some(API_BASE + 0x114)
    } else if same_text(name, "memcmp") {
        Some(API_BASE + 0x138)
    } else if same_text(name, "memchr") {
        Some(API_BASE + 0x1c8)
    } else if same_text(name, "memcpy") {
        Some(API_BASE + 0x150)
    } else if same_text(name, "strncpy") {
        Some(API_BASE + 0x154)
    } else if same_text(name, "strncat") {
        Some(API_BASE + 0x18c)
    } else if same_text(name, "_splitpath") {
        Some(API_BASE + 0x190)
    } else if same_text(name, "fopen") {
        Some(API_BASE + 0x194)
    } else if same_text(name, "fread") {
        Some(API_BASE + 0x198)
    } else if same_text(name, "fclose") {
        Some(API_BASE + 0x19c)
    } else if same_text(name, "fseek") {
        Some(API_BASE + 0x1a0)
    } else if same_text(name, "ftell") {
        Some(API_BASE + 0x1a4)
    } else if same_text(name, "_strupr") {
        Some(API_BASE + 0x1a8)
    } else if same_text(name, "_strlwr") {
        Some(API_BASE + 0x1c0)
    } else if same_text(name, "sprintf") {
        Some(API_BASE + 0x1ac)
    } else if same_text(name, "_snprintf") {
        Some(API_BASE + 0x1bc)
    } else if same_text(name, "sscanf") {
        Some(API_BASE + 0x1b8)
    } else if same_text(name, "memmove") {
        Some(API_BASE + 0x1b0)
    } else if same_text(name, "strchr") {
        Some(API_BASE + 0x158)
    } else if same_text(name, "_setmbcp") {
        Some(API_BASE + 0x13c)
    } else if same_text(name, "_onexit") {
        Some(API_BASE + 0x140)
    } else if same_text(name, "_EH_prolog") {
        Some(API_BASE + 0x118)
    } else if same_text(name, "_CxxThrowException") {
        Some(API_BASE + 0x490)
    } else if same_text(name, "__CxxFrameHandler") {
        Some(API_BASE + 0x494)
    } else if same_text(name, "malloc") {
        Some(API_BASE + 0x11c)
    } else if same_text(name, "free") {
        Some(API_BASE + 0x120)
    } else if same_text(name, "??2@YAPAXI@Z") {
        Some(API_BASE + 0x144)
    } else if same_text(name, "??3@YAXPAX@Z") {
        Some(API_BASE + 0x148)
    } else if same_text(name, "_errno") {
        Some(API_BASE + 0x124)
    } else if same_text(name, "_beginthreadex") {
        Some(API_BASE + 0x548)
    } else if same_text(name, "_stat") {
        Some(API_BASE + 0x15c)
    } else if same_text(name, "remove") {
        Some(API_BASE + 0x188)
    } else if same_text(name, "srand") {
        Some(API_BASE + 0x160)
    } else if same_text(name, "rand") {
        Some(API_BASE + 0x164)
    } else if same_text(name, "_ftol") {
        Some(API_BASE + 0x168)
    } else if same_text(name, "?name@type_info@@QBEPBDXZ") {
        Some(API_BASE + 0x16c)
    } else if same_text(name, "__RTDynamicCast") {
        Some(API_BASE + 0x1b4)
    } else if same_text(name, "strncmp") {
        Some(API_BASE + 0x170)
    } else if same_text(name, "_stricmp") {
        Some(API_BASE + 0x174)
    } else if same_text(name, "_strnicmp") {
        Some(API_BASE + 0x1d4)
    } else if same_text(name, "_vsnprintf") {
        Some(API_BASE + 0x178)
    } else if same_text(name, "tolower") {
        Some(API_BASE + 0x17c)
    } else if same_text(name, "toupper") {
        Some(API_BASE + 0x1c4)
    } else if same_text(name, "isspace") {
        Some(API_BASE + 0x1e0)
    } else if same_text(name, "__dllonexit") {
        Some(API_BASE + 0x128)
    } else if same_text(name, "_mbsrchr") {
        Some(API_BASE + 0x12c)
    } else if same_text(name, "_mbsinc") {
        Some(API_BASE + 0x130)
    } else if same_text(name, "_strdup") {
        Some(API_BASE + 0x134)
    } else if same_text(name, "strlen") {
        Some(API_BASE + 0x14c)
    } else if same_text(name, "_fmode") {
        Some(FMODE)
    } else if same_text(name, "_commode") {
        Some(COMMODE)
    } else if same_text(name, "_adjust_fdiv") {
        Some(ADJUST_FDIV)
    } else if same_text(name, "_acmdln") {
        Some(ACMDLN)
    } else if same_text(name, "__argc") {
        Some(ARGC)
    } else if same_text(name, "__argv") {
        Some(ARGV)
    } else if same_text(name, "_environ") {
        Some(ENVIRON)
    } else if same_text(name, "__initenv") {
        Some(INITENV)
    } else if same_text(name, "__unguarded_readlc_active") {
        Some(UNGUARDED_READLC_ACTIVE)
    } else if same_text(name, "__setlc_active") {
        Some(SETLC_ACTIVE)
    } else if same_text(name, "__lc_handle") {
        Some(LC_HANDLE)
    } else if same_text(name, "__lc_codepage") {
        Some(LC_CODEPAGE)
    } else if same_text(name, "__lc_collate_cp") {
        Some(LC_COLLATE_CP)
    } else if same_text(name, "__mb_cur_max") {
        Some(MB_CUR_MAX)
    } else {
        None
    }
}

} // verus!
