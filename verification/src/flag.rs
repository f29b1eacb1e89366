//! Flags on their way to the toolkit and back.
//!
//! The toolkit has no type for truth values: it takes and gives integers,
//! where zero means "off" and anything else means "on".

use vstd::prelude::*;

verus! {

/// The integer that the toolkit is given for a flag.
pub open spec fn native_flag(on: bool) -> i32 {
    if on {
        1
    } else {
        0
    }
}

/// The integer to give the toolkit for a flag: one for "on", zero for "off".
pub fn flag_to_native(on: bool) -> (raw: i32)
    ensures
        raw == native_flag(on),
{
    if on {
        1
    } else {
        0
    }
}

/// Reads a flag that the toolkit handed over: zero is "off", all else is "on".
pub fn flag_from_native(raw: i32) -> (on: bool)
    ensures
        on == (raw != 0),
{
    raw != 0
}

/// A flag that was handed to the toolkit reads back as it was written.
pub proof fn lemma_flag_round_trip(on: bool)
    ensures
        (native_flag(on) != 0) == on,
{
}

} // verus!
