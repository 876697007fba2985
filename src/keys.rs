//! Virtual key codes of the named special keys, as Windows numbers them.

use vstd::prelude::*;

verus! {

pub const BACKSPACE: u32 = 0x08;

pub const TAB: u32 = 0x09;

pub const ENTER: u32 = 0x0D;

pub const CAPS_LOCK: u32 = 0x14;

pub const ESCAPE: u32 = 0x1B;

pub const SPACEBAR: u32 = 0x20;

pub const PAGE_UP: u32 = 0x21;

pub const PAGE_DOWN: u32 = 0x22;

pub const END: u32 = 0x23;

pub const HOME: u32 = 0x24;

pub const ARROW_LEFT: u32 = 0x25;

pub const ARROW_UP: u32 = 0x26;

pub const ARROW_RIGHT: u32 = 0x27;

pub const ARROW_DOWN: u32 = 0x28;

pub const PRINT_SCREEN: u32 = 0x2C;

pub const INSERT: u32 = 0x2D;

pub const DELETE: u32 = 0x2E;

} // verus!
