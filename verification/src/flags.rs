//! Launch flags, held as bits of a flag word that the launcher threads
//! through its calls.

use vstd::prelude::*;

verus! {

/// debug mode, print full errors and other debug messages to console.
pub const DEBUG_MODE: u32 = 0x01;

/// run from the launcher script
pub const AUTOMATED: u32 = 0x02;

/// use the standard CLI wizard
pub const WIZARD: u32 = 0x04;

/// enable the experimental GUI for the wizard
pub const WIZARD_GUI: u32 = 0x08;

/// set when this is being used by a standalone application
pub const STANDALONE_APP: u32 = 0x16;

/// check if the `flag` provided is in `flags`
pub fn has_flag(flags: u32, flag: u32) -> (r: bool)
    ensures
        r == (flags & flag == flag),
{
    flags & flag == flag
}

/// Add a flag to the flag word.
pub fn add_flag(flags: &mut u32, flag: u32)
    ensures
        *final(flags) == (*old(flags) | flag),
{
    *flags = *flags | flag;
}

/// Remove a flag from the flag word.
pub fn remove_flag(flags: &mut u32, flag: u32)
    ensures
        *final(flags) == (*old(flags) & !flag),
{
    *flags = *flags & !flag;
}

/// Is debug mode set in the flag word?
pub fn debug_mode(flags: u32) -> (r: bool)
    ensures
        r == (flags & DEBUG_MODE == DEBUG_MODE),
{
    has_flag(flags, DEBUG_MODE)
}

} // verus!
