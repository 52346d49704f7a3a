//! The runtime's data page: the variables whose addresses programs import
//! or ask for.
use vstd::prelude::*;

verus! {

/// Where the runtime's variables live.
pub const DATA: u32 = 0x7000_2000;

/// `_fmode`.
pub const FMODE: u32 = 0x7000_2000;

/// `_commode`.
pub const COMMODE: u32 = 0x7000_2004;

/// `_adjust_fdiv`.
pub const ADJUST_FDIV: u32 = 0x7000_2008;

/// `_acmdln`.
pub const ACMDLN: u32 = 0x7000_200c;

/// `__argc`, followed by `__argv` and `_environ`.
pub const ARGC: u32 = 0x7000_2010;

/// `__argv`.
pub const ARGV: u32 = 0x7000_2014;

/// `_environ`.
pub const ENVIRON: u32 = 0x7000_2018;

/// `__initenv`.
pub const INITENV: u32 = 0x7000_201c;

/// The main thread's `errno`.
pub const ERRNO: u32 = 0x7000_2020;

/// `__unguarded_readlc_active`.
pub const UNGUARDED_READLC_ACTIVE: u32 = 0x7000_2024;

/// `__setlc_active`.
pub const SETLC_ACTIVE: u32 = 0x7000_2028;

/// `__lc_handle`.
pub const LC_HANDLE: u32 = 0x7000_202c;

/// `__lc_codepage`.
pub const LC_CODEPAGE: u32 = 0x7000_2044;

/// `__lc_collate_cp`.
pub const LC_COLLATE_CP: u32 = 0x7000_2048;

/// `__mb_cur_max`.
pub const MB_CUR_MAX: u32 = 0x7000_204c;

} // verus!
