//! Modifier bits, in the encoding the Windows hotkey API expects.

use vstd::prelude::*;

verus! {

pub const ALT: u32 = 0x0001;

pub const CONTROL: u32 = 0x0002;

pub const SHIFT: u32 = 0x0004;

pub const SUPER: u32 = 0x0008;

} // verus!
