//! Resolving an import by module and name: the address in the import page
//! that each supported export of each module answers at.
use super::com;
use super::crt::calls::{export_address, resolve};
use super::kernel32::{kernel32, kernel32_offset};
use super::names::same_text;
use super::API_BASE;
use vstd::prelude::*;
use vstd::string::StringSliceAdditionalSpecFns;

verus! {

/// `byte` with an ASCII capital letter made small.
pub open spec fn ascii_lower(byte: u8) -> u8 {
    if 0x41 <= byte <= 0x5a {
        (byte + 0x20) as u8
    } else {
        byte
    }
}

/// Whether the bytes `left` and `right` are equal up to the case of ASCII
/// letters.
pub open spec fn same_ignoring_case(left: Seq<u8>, right: Seq<u8>) -> bool {
    left.len() == right.len() && forall|i: int|
        0 <= i < left.len() ==> #[trigger] ascii_lower(left[i]) == ascii_lower(right[i])
}

/// Whether `module` is `expected`, ignoring the case of ASCII letters.
pub fn module_is(module: &str, expected: &str) -> (same: bool)
    ensures
        same == same_ignoring_case(module.spec_bytes(), expected.spec_bytes()),
{
    let left = module.as_bytes();
    let right = expected.as_bytes();
    if left.len() != right.len() {
        return false;
    }
    let mut index: usize = 0;
    while index < left.len()
        invariant
            left@ == module.spec_bytes(),
            right@ == expected.spec_bytes(),
            left@.len() == right@.len(),
            index <= left@.len(),
            forall|j: int| 0 <= j < index ==> #[trigger] ascii_lower(left@[j]) == ascii_lower(right@[j]),
        decreases left@.len() - index,
    {
        let a = left[index];
        let b = right[index];
        let lower_a = if 0x41 <= a && a <= 0x5a {
            a + 0x20
        } else {
            a
        };
        let lower_b = if 0x41 <= b && b <= 0x5a {
            b + 0x20
        } else {
            b
        };
        if lower_a != lower_b {
            assert(ascii_lower(left@[index as int]) != ascii_lower(right@[index as int]));
            return false;
        }
        index = index + 1;
    }
    true
}

/// The offset in the import page of the `advapi32.dll` export `name`.
pub open spec fn advapi32_offset(name: Seq<char>) -> Option<u32> {
    if name == "RegOpenKeyExA"@ {
        Some(0x278)
    } else if name == "RegCreateKeyExA"@ {
        Some(0x27c)
    } else if name == "RegCloseKey"@ {
        Some(0x280)
    } else if name == "RegQueryValueExA"@ {
        Some(0x284)
    } else if name == "RegSetValueExA"@ {
        Some(0x288)
    } else if name == "RegSetValueA"@ {
        Some(0x298)
    } else {
        None
    }
}

/// The offset in the import page of the `user32.dll` export `name`.
pub open spec fn user32_offset(name: Seq<char>) -> Option<u32> {
    if name == "GetDesktopWindow"@ {
        Some(16)
    } else if name == "FindWindowA"@ {
        Some(0x26c)
    } else if name == "IsWindow"@ {
        Some(0x270)
    } else if name == "GetActiveWindow"@ {
        Some(0x430)
    } else if name == "GetDlgItem"@ {
        Some(0x438)
    } else if name == "CreateDialogIndirectParamA"@ {
        Some(0x434)
    } else if name == "wsprintfA"@ {
        Some(0x25c)
    } else if name == "GetClassInfoA"@ {
        Some(0x260)
    } else if name == "RegisterClassA"@ {
        Some(0x264)
    } else if name == "UnregisterClassA"@ {
        Some(0x268)
    } else if name == "SetWindowsHookExA"@ {
        Some(0x24c)
    } else if name == "UnhookWindowsHookEx"@ {
        Some(0x250)
    } else if name == "LoadStringA"@ {
        Some(0xec)
    } else if name == "LoadIconA"@ {
        Some(0x2c8)
    } else if name == "LoadAcceleratorsA"@ {
        Some(0x29c)
    } else if name == "CopyAcceleratorTableA"@ {
        Some(0x2a0)
    } else if name == "CallWindowProcA"@ {
        Some(0x2a4)
    } else if name == "SendMessageA"@ {
        Some(0x2cc)
    } else if name == "PeekMessageA"@ {
        Some(0x43c)
    } else if name == "GetMessageA"@ {
        Some(0x448)
    } else if name == "TranslateMessage"@ {
        Some(0x44c)
    } else if name == "DispatchMessageA"@ {
        Some(0x450)
    } else if name == "PostMessageA"@ {
        Some(0x464)
    } else if name == "GetTopWindow"@ {
        Some(0x454)
    } else if name == "GetWindow"@ {
        Some(0x458)
    } else if name == "SetWindowTextA"@ {
        Some(0x45c)
    } else if name == "EnableWindow"@ {
        Some(0x460)
    } else if name == "EndDialog"@ {
        Some(0x468)
    } else if name == "SetWindowPos"@ {
        Some(0x46c)
    } else if name == "DestroyWindow"@ {
        Some(0x470)
    } else if name == "ShowWindow"@ {
        Some(0x440)
    } else if name == "UpdateWindow"@ {
        Some(0x444)
    } else if name == "InvalidateRect"@ {
        Some(0x4b0)
    } else if name == "SetForegroundWindow"@ {
        Some(0x4b4)
    } else if name == "CallNextHookEx"@ {
        Some(0x2c4)
    } else if name == "CreateWindowExA"@ {
        Some(0x2a8)
    } else if name == "DefWindowProcA"@ {
        Some(0x2ac)
    } else if name == "GetWindowRect"@ {
        Some(0x2b0)
    } else if name == "GetClientRect"@ {
        Some(0x2b4)
    } else if name == "GetParent"@ {
        Some(0x2b8)
    } else if name == "GetWindowLongA"@ {
        Some(0x2bc)
    } else if name == "SetWindowLongA"@ {
        Some(0x2c0)
    } else if name == "RegisterWindowMessageA"@ {
        Some(0x94)
    } else if name == "RegisterClipboardFormatA"@ {
        Some(0xc8)
    } else if name == "GetSystemMetrics"@ {
        Some(0x9c)
    } else if name == "GetSysColor"@ {
        Some(0xac)
    } else if name == "GetSysColorBrush"@ {
        Some(0xb0)
    } else if name == "LoadCursorA"@ {
        Some(0xbc)
    } else if name == "SetCursor"@ {
        Some(0xc0)
    } else if name == "GetCursor"@ {
        Some(0xc4)
    } else if name == "GetCursorPos"@ {
        Some(0xcc)
    } else if name == "SetCursorPos"@ {
        Some(0xd0)
    } else if name == "GetDC"@ {
        Some(0xa0)
    } else if name == "ReleaseDC"@ {
        Some(0xa4)
    } else {
        None
    }
}

/// The offset in the import page of the `gdi32.dll` export `name`.
pub open spec fn gdi32_offset(name: Seq<char>) -> Option<u32> {
    if name == "GetDeviceCaps"@ {
        Some(0xa8)
    } else if name == "GetObjectA"@ {
        Some(0xb4)
    } else if name == "DeleteObject"@ {
        Some(0xb8)
    } else {
        None
    }
}

/// The address that the import of `name` from `module` resolves to;
/// `dinput` is what the `dinput.dll` table answers for the name. Module
/// names are compared ignoring the case of ASCII letters, export names
/// exactly.
pub open spec fn import_address(module: Seq<u8>, name: Seq<char>, dinput: Option<u32>) -> Option<u32> {
    let offset = |found: Option<u32>|
        match found {
            Some(value) => Some((API_BASE + value) as u32),
            None => None,
        };
    if same_ignoring_case(module, "dinput.dll".spec_bytes()) {
        dinput
    } else if same_ignoring_case(module, "advapi32.dll".spec_bytes()) {
        offset(advapi32_offset(name))
    } else if same_ignoring_case(module, "msvcrt.dll".spec_bytes()) {
        export_address(name)
    } else if same_ignoring_case(module, "ole32.dll".spec_bytes()) {
        offset(com::export_offset(name))
    } else if same_ignoring_case(module, "kernel32.dll".spec_bytes()) {
        offset(kernel32_offset(name))
    } else if same_ignoring_case(module, "winmm.dll".spec_bytes()) {
        if name == "timeGetTime"@ {
            offset(Some(0x244))
        } else {
            None
        }
    } else if same_ignoring_case(module, "d3d8.dll".spec_bytes()) {
        if name == "Direct3DCreate8"@ {
            offset(Some(12))
        } else {
            None
        }
    } else if same_ignoring_case(module, "user32.dll".spec_bytes()) {
        offset(user32_offset(name))
    } else if same_ignoring_case(module, "gdi32.dll".spec_bytes()) {
        offset(gdi32_offset(name))
    } else {
        None
    }
}

/// Resolves the `advapi32.dll` export `name` to its offset.
fn advapi32(name: &str) -> (offset: Option<u32>)
    ensures
        offset == advapi32_offset(name@),
{
    if same_text(name, "RegOpenKeyExA") {
        Some(0x278)
    } else if same_text(name, "RegCreateKeyExA") {
        Some(0x27c)
    } else if same_text(name, "RegCloseKey") {
        Some(0x280)
    } else if same_text(name, "RegQueryValueExA") {
        Some(0x284)
    } else if same_text(name, "RegSetValueExA") {
        Some(0x288)
    } else if same_text(name, "RegSetValueA") {
        Some(0x298)
    } else {
        None
    }
}

/// Resolves the `user32.dll` export `name` to its offset.
fn user32(name: &str) -> (offset: Option<u32>)
    ensures
        offset == user32_offset(name@),
{
    if same_text(name, "GetDesktopWindow") {
        Some(16)
    } else if same_text(name, "FindWindowA") {
        Some(0x26c)
    } else if same_text(name, "IsWindow") {
        Some(0x270)
    } else if same_text(name, "GetActiveWindow") {
        Some(0x430)
    } else if same_text(name, "GetDlgItem") {
        Some(0x438)
    } else if same_text(name, "CreateDialogIndirectParamA") {
        Some(0x434)
    } else if same_text(name, "wsprintfA") {
        Some(0x25c)
    } else if same_text(name, "GetClassInfoA") {
        Some(0x260)
    } else if same_text(name, "RegisterClassA") {
        Some(0x264)
    } else if same_text(name, "UnregisterClassA") {
        Some(0x268)
    } else if same_text(name, "SetWindowsHookExA") {
        Some(0x24c)
    } else if same_text(name, "UnhookWindowsHookEx") {
        Some(0x250)
    } else if same_text(name, "LoadStringA") {
        Some(0xec)
    } else if same_text(name, "LoadIconA") {
        Some(0x2c8)
    } else if same_text(name, "LoadAcceleratorsA") {
        Some(0x29c)
    } else if same_text(name, "CopyAcceleratorTableA") {
        Some(0x2a0)
    } else if same_text(name, "CallWindowProcA") {
        Some(0x2a4)
    } else if same_text(name, "SendMessageA") {
        Some(0x2cc)
    } else if same_text(name, "PeekMessageA") {
        Some(0x43c)
    } else if same_text(name, "GetMessageA") {
        Some(0x448)
    } else if same_text(name, "TranslateMessage") {
        Some(0x44c)
    } else if same_text(name, "DispatchMessageA") {
        Some(0x450)
    } else if same_text(name, "PostMessageA") {
        Some(0x464)
    } else if same_text(name, "GetTopWindow") {
        Some(0x454)
    } else if same_text(name, "GetWindow") {
        Some(0x458)
    } else if same_text(name, "SetWindowTextA") {
        Some(0x45c)
    } else if same_text(name, "EnableWindow") {
        Some(0x460)
    } else if same_text(name, "EndDialog") {
        Some(0x468)
    } else if same_text(name, "SetWindowPos") {
        Some(0x46c)
    } else if same_text(name, "DestroyWindow") {
        Some(0x470)
    } else if same_text(name, "ShowWindow") {
        Some(0x440)
    } else if same_text(name, "UpdateWindow") {
        Some(0x444)
    } else if same_text(name, "InvalidateRect") {
        Some(0x4b0)
    } else if same_text(name, "SetForegroundWindow") {
        Some(0x4b4)
    } else if same_text(name, "CallNextHookEx") {
        Some(0x2c4)
    } else if same_text(name, "CreateWindowExA") {
        Some(0x2a8)
    } else if same_text(name, "DefWindowProcA") {
        Some(0x2ac)
    } else if same_text(name, "GetWindowRect") {
        Some(0x2b0)
    } else if same_text(name, "GetClientRect") {
        Some(0x2b4)
    } else if same_text(name, "GetParent") {
        Some(0x2b8)
    } else if same_text(name, "GetWindowLongA") {
        Some(0x2bc)
    } else if same_text(name, "SetWindowLongA") {
        Some(0x2c0)
    } else if same_text(name, "RegisterWindowMessageA") {
        Some(0x94)
    } else if same_text(name, "RegisterClipboardFormatA") {
        Some(0xc8)
    } else if same_text(name, "GetSystemMetrics") {
        Some(0x9c)
    } else if same_text(name, "GetSysColor") {
        Some(0xac)
    } else if same_text(name, "GetSysColorBrush") {
        Some(0xb0)
    } else if same_text(name, "LoadCursorA") {
        Some(0xbc)
    } else if same_text(name, "SetCursor") {
        Some(0xc0)
    } else if same_text(name, "GetCursor") {
        Some(0xc4)
    } else if same_text(name, "GetCursorPos") {
        Some(0xcc)
    } else if same_text(name, "SetCursorPos") {
        Some(0xd0)
    } else if same_text(name, "GetDC") {
        Some(0xa0)
    } else if same_text(name, "ReleaseDC") {
        Some(0xa4)
    } else {
        None
    }
}

/// Resolves the `gdi32.dll` export `name` to its offset.
fn gdi32(name: &str) -> (offset: Option<u32>)
    ensures
        offset == gdi32_offset(name@),
{
    if same_text(name, "GetDeviceCaps") {
        Some(0xa8)
    } else if same_text(name, "GetObjectA") {
        Some(0xb4)
    } else if same_text(name, "DeleteObject") {
        Some(0xb8)
    } else {
        None
    }
}

/// The import page address of `offset`, if there is one.
fn in_page(offset: Option<u32>) -> (address: Option<u32>)
    requires
        offset matches Some(value) ==> value < 0x1000,
    ensures
        address == match offset {
            Some(value) => Some((API_BASE + value) as u32),
            None => None,
        },
{
    match offset {
        Some(value) => Some(API_BASE + value),
        None => None,
    }
}

/// Resolves the import of `name` from `module` to its address in the
/// import page; `dinput` is what the `dinput.dll` table answers for the
/// name.
pub fn resolve_name(module: &str, name: &str, dinput: Option<u32>) -> (address: Option<u32>)
    ensures
        address == import_address(module.spec_bytes(), name@, dinput),
{
    if module_is(module, "dinput.dll") {
        dinput
    } else if module_is(module, "advapi32.dll") {
        in_page(advapi32(name))
    } else if module_is(module, "msvcrt.dll") {
        resolve(name)
    } else if module_is(module, "ole32.dll") {
        in_page(com::Call::resolve(name))
    } else if module_is(module, "kernel32.dll") {
        in_page(kernel32(name))
    } else if module_is(module, "winmm.dll") {
        if same_text(name, "timeGetTime") {
            in_page(Some(0x244))
        } else {
            None
        }
    } else if module_is(module, "d3d8.dll") {
        if same_text(name, "Direct3DCreate8") {
            in_page(Some(12))
        } else {
            None
        }
    } else if module_is(module, "user32.dll") {
        in_page(user32(name))
    } else if module_is(module, "gdi32.dll") {
        in_page(gdi32(name))
    } else {
        None
    }
}

} // verus!
