//! The `kernel32.dll` functions that programs import: the offset in the
//! import page that each exported name resolves to.
use super::names::same_text;
use vstd::prelude::*;

verus! {

/// The offset in the import page of the `kernel32.dll` export `name`.
pub open spec fn kernel32_offset(name: Seq<char>) -> Option<u32> {
    if name == "SetLastError"@ {
        Some(0)
    } else if name == "GetLastError"@ {
        Some(4)
    } else if name == "ResumeThread"@ {
        Some(0x550)
    } else if name == "SuspendThread"@ {
        Some(0x554)
    } else if name == "GetCurrentThread"@ {
        Some(0xd8)
    } else if name == "GetCurrentThreadId"@ {
        Some(0xdc)
    } else if name == "SetThreadPriority"@ {
        Some(0x254)
    } else if name == "GetThreadPriority"@ {
        Some(0x258)
    } else if name == "ExitProcess"@ {
        Some(8)
    } else if name == "InterlockedExchange"@ {
        Some(0x200)
    } else if name == "InterlockedIncrement"@ {
        Some(0x204)
    } else if name == "InterlockedDecrement"@ {
        Some(0x208)
    } else if name == "LoadLibraryA"@ {
        Some(0x14)
    } else if name == "GetModuleHandleA"@ {
        Some(0x18)
    } else if name == "GetProcAddress"@ {
        Some(0x274)
    } else if name == "GetModuleFileNameA"@ {
        Some(0xe0)
    } else if name == "DisableThreadLibraryCalls"@ {
        Some(0xfc)
    } else if name == "GetSystemDirectoryA"@ {
        Some(0xf8)
    } else if name == "GetComputerNameA"@ {
        Some(0x20c)
    } else if name == "CreateMutexA"@ {
        Some(0x210)
    } else if name == "CreateEventA"@ {
        Some(0x53c)
    } else if name == "SetEvent"@ {
        Some(0x540)
    } else if name == "ResetEvent"@ {
        Some(0x544)
    } else if name == "WaitForSingleObject"@ {
        Some(0x214)
    } else if name == "ReleaseMutex"@ {
        Some(0x218)
    } else if name == "CloseHandle"@ {
        Some(0x21c)
    } else if name == "CreateFileA"@ {
        Some(0x5b4)
    } else if name == "GetFileSize"@ {
        Some(0x5b8)
    } else if name == "GetDiskFreeSpaceA"@ {
        Some(0x5bc)
    } else if name == "SetFilePointer"@ {
        Some(0x5c0)
    } else if name == "ReadFile"@ {
        Some(0x5c4)
    } else if name == "QueryPerformanceFrequency"@ {
        Some(0x220)
    } else if name == "QueryPerformanceCounter"@ {
        Some(0x224)
    } else if name == "GetCurrentDirectoryA"@ {
        Some(0x228)
    } else if name == "SetCurrentDirectoryA"@ {
        Some(0x230)
    } else if name == "FindFirstFileA"@ {
        Some(0x234)
    } else if name == "FindNextFileA"@ {
        Some(0x238)
    } else if name == "FindClose"@ {
        Some(0x23c)
    } else if name == "GetEnvironmentVariableA"@ {
        Some(0x240)
    } else if name == "GetStartupInfoA"@ {
        Some(0x248)
    } else if name == "GetCommandLineA"@ {
        Some(0x22c)
    } else if name == "lstrcpynA"@ {
        Some(0xe4)
    } else if name == "lstrcpyA"@ {
        Some(0xf0)
    } else if name == "lstrcatA"@ {
        Some(0xf4)
    } else if name == "lstrlenA"@ {
        Some(0x28c)
    } else if name == "GetFileAttributesA"@ {
        Some(0x290)
    } else if name == "GetShortPathNameA"@ {
        Some(0x294)
    } else if name == "FindResourceA"@ {
        Some(0xe8)
    } else if name == "LoadResource"@ {
        Some(0x424)
    } else if name == "LockResource"@ {
        Some(0x428)
    } else if name == "SizeofResource"@ {
        Some(0x42c)
    } else if name == "FreeLibrary"@ {
        Some(0x1c)
    } else if name == "SetErrorMode"@ {
        Some(0x20)
    } else if name == "GetErrorMode"@ {
        Some(0x24)
    } else if name == "LocalAlloc"@ {
        Some(0x28)
    } else if name == "LocalFree"@ {
        Some(0x2c)
    } else if name == "LocalReAlloc"@ {
        Some(0xd4)
    } else if name == "GetVersion"@ {
        Some(0x30)
    } else if name == "InitializeCriticalSection"@ {
        Some(0x34)
    } else if name == "EnterCriticalSection"@ {
        Some(0x38)
    } else if name == "TryEnterCriticalSection"@ {
        Some(0x3c)
    } else if name == "LeaveCriticalSection"@ {
        Some(0x60)
    } else if name == "DeleteCriticalSection"@ {
        Some(0x64)
    } else if name == "TlsAlloc"@ {
        Some(0x68)
    } else if name == "TlsFree"@ {
        Some(0x6c)
    } else if name == "TlsGetValue"@ {
        Some(0x70)
    } else if name == "TlsSetValue"@ {
        Some(0x74)
    } else if name == "GlobalAlloc"@ {
        Some(0x78)
    } else if name == "GlobalLock"@ {
        Some(0x7c)
    } else if name == "GlobalUnlock"@ {
        Some(0x80)
    } else if name == "GlobalFree"@ {
        Some(0x84)
    } else if name == "GetACP"@ {
        Some(0x88)
    } else if name == "GetOEMCP"@ {
        Some(0x8c)
    } else if name == "GetCPInfo"@ {
        Some(0x90)
    } else if name == "WideCharToMultiByte"@ {
        Some(0x338)
    } else if name == "MultiByteToWideChar"@ {
        Some(0x33c)
    } else if name == "GetProcessVersion"@ {
        Some(0x98)
    } else {
        None
    }
}

/// Resolves the `kernel32.dll` export `name` to its offset in the import
/// page.
pub fn kernel32(name: &str) -> (offset: Option<u32>)
    ensures
        offset == kernel32_offset(name@),
{
    if same_text(name, "SetLastError") {
        Some(0)
    } else if same_text(name, "GetLastError") {
        Some(4)
    } else if same_text(name, "ResumeThread") {
        Some(0x550)
    } else if same_text(name, "SuspendThread") {
        Some(0x554)
    } else if same_text(name, "GetCurrentThread") {
        Some(0xd8)
    } else if same_text(name, "GetCurrentThreadId") {
        Some(0xdc)
    } else if same_text(name, "SetThreadPriority") {
        Some(0x254)
    } else if same_text(name, "GetThreadPriority") {
        Some(0x258)
    } else if same_text(name, "ExitProcess") {
        Some(8)
    } else if same_text(name, "InterlockedExchange") {
        Some(0x200)
    } else if same_text(name, "InterlockedIncrement") {
        Some(0x204)
    } else if same_text(name, "InterlockedDecrement") {
        Some(0x208)
    } else if same_text(name, "LoadLibraryA") {
        Some(0x14)
    } else if same_text(name, "GetModuleHandleA") {
        Some(0x18)
    } else if same_text(name, "GetProcAddress") {
        Some(0x274)
    } else if same_text(name, "GetModuleFileNameA") {
        Some(0xe0)
    } else if same_text(name, "DisableThreadLibraryCalls") {
        Some(0xfc)
    } else if same_text(name, "GetSystemDirectoryA") {
        Some(0xf8)
    } else if same_text(name, "GetComputerNameA") {
        Some(0x20c)
    } else if same_text(name, "CreateMutexA") {
        Some(0x210)
    } else if same_text(name, "CreateEventA") {
        Some(0x53c)
    } else if same_text(name, "SetEvent") {
        Some(0x540)
    } else if same_text(name, "ResetEvent") {
        Some(0x544)
    } else if same_text(name, "WaitForSingleObject") {
        Some(0x214)
    } else if same_text(name, "ReleaseMutex") {
        Some(0x218)
    } else if same_text(name, "CloseHandle") {
        Some(0x21c)
    } else if same_text(name, "CreateFileA") {
        Some(0x5b4)
    } else if same_text(name, "GetFileSize") {
        Some(0x5b8)
    } else if same_text(name, "GetDiskFreeSpaceA") {
        Some(0x5bc)
    } else if same_text(name, "SetFilePointer") {
        Some(0x5c0)
    } else if same_text(name, "ReadFile") {
        Some(0x5c4)
    } else if same_text(name, "QueryPerformanceFrequency") {
        Some(0x220)
    } else if same_text(name, "QueryPerformanceCounter") {
        Some(0x224)
    } else if same_text(name, "GetCurrentDirectoryA") {
        Some(0x228)
    } else if same_text(name, "SetCurrentDirectoryA") {
        Some(0x230)
    } else if same_text(name, "FindFirstFileA") {
        Some(0x234)
    } else if same_text(name, "FindNextFileA") {
        Some(0x238)
    } else if same_text(name, "FindClose") {
        Some(0x23c)
    } else if same_text(name, "GetEnvironmentVariableA") {
        Some(0x240)
    } else if same_text(name, "GetStartupInfoA") {
        Some(0x248)
    } else if same_text(name, "GetCommandLineA") {
        Some(0x22c)
    } else if same_text(name, "lstrcpynA") {
        Some(0xe4)
    } else if same_text(name, "lstrcpyA") {
        Some(0xf0)
    } else if same_text(name, "lstrcatA") {
        Some(0xf4)
    } else if same_text(name, "lstrlenA") {
        Some(0x28c)
    } else if same_text(name, "GetFileAttributesA") {
        Some(0x290)
    } else if same_text(name, "GetShortPathNameA") {
        Some(0x294)
    } else if same_text(name, "FindResourceA") {
        Some(0xe8)
    } else if same_text(name, "LoadResource") {
        Some(0x424)
    } else if same_text(name, "LockResource") {
        Some(0x428)
    } else if same_text(name, "SizeofResource") {
        Some(0x42c)
    } else if same_text(name, "FreeLibrary") {
        Some(0x1c)
    } else if same_text(name, "SetErrorMode") {
        Some(0x20)
    } else if same_text(name, "GetErrorMode") {
        Some(0x24)
    } else if same_text(name, "LocalAlloc") {
        Some(0x28)
    } else if same_text(name, "LocalFree") {
        Some(0x2c)
    } else if same_text(name, "LocalReAlloc") {
        Some(0xd4)
    } else if same_text(name, "GetVersion") {
        Some(0x30)
    } else if same_text(name, "InitializeCriticalSection") {
        Some(0x34)
    } else if same_text(name, "EnterCriticalSection") {
        Some(0x38)
    } else if same_text(name, "TryEnterCriticalSection") {
        Some(0x3c)
    } else if same_text(name, "LeaveCriticalSection") {
        Some(0x60)
    } else if same_text(name, "DeleteCriticalSection") {
        Some(0x64)
    } else if same_text(name, "TlsAlloc") {
        Some(0x68)
    } else if same_text(name, "TlsFree") {
        Some(0x6c)
    } else if same_text(name, "TlsGetValue") {
        Some(0x70)
    } else if same_text(name, "TlsSetValue") {
        Some(0x74)
    } else if same_text(name, "GlobalAlloc") {
        Some(0x78)
    } else if same_text(name, "GlobalLock") {
        Some(0x7c)
    } else if same_text(name, "GlobalUnlock") {
        Some(0x80)
    } else if same_text(name, "GlobalFree") {
        Some(0x84)
    } else if same_text(name, "GetACP") {
        Some(0x88)
    } else if same_text(name, "GetOEMCP") {
        Some(0x8c)
    } else if same_text(name, "GetCPInfo") {
        Some(0x90)
    } else if same_text(name, "WideCharToMultiByte") {
        Some(0x338)
    } else if same_text(name, "MultiByteToWideChar") {
        Some(0x33c)
    } else if same_text(name, "GetProcessVersion") {
        Some(0x98)
    } else {
        None
    }
}

} // verus!
