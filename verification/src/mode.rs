//! Screen mode bits that the keyboard negotiation reads and writes.

use vstd::prelude::*;

verus! {

/// xterm `modifyOtherKeys` level 1.
pub const MODE_KEYS_EXTENDED: u32 = 0x8000;

/// xterm `modifyOtherKeys` level 2.
pub const MODE_KEYS_EXTENDED_2: u32 = 0x10000;

/// Kitty keyboard protocol: disambiguate escape codes.
pub const MODE_KEYS_KITTY: u32 = 0x20000;

/// Every extended-key mode; at most one of them is in force at a time.
pub const EXTENDED_KEY_MODES: u32 = MODE_KEYS_EXTENDED | MODE_KEYS_EXTENDED_2 | MODE_KEYS_KITTY;

} // verus!
